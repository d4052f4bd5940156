use procond::modes::{ModeObservation, ProconMode, initial_mode, mode_description, next_mode};

#[test]
fn the_daemon_starts_configuring() {
    assert_eq!(initial_mode(), ProconMode::CONFIGURING);
}

#[test]
fn empty_configuration_goes_dormant() {
    assert_eq!(
        next_mode(ProconMode::CONFIGURING, ModeObservation::UnitsConfigured(0)),
        ProconMode::DORMANT
    );
}

#[test]
fn successful_configuration_starts_operating() {
    assert_eq!(
        next_mode(ProconMode::CONFIGURING, ModeObservation::UnitsConfigured(1)),
        ProconMode::OPERATING
    );
    assert_eq!(
        next_mode(ProconMode::CONFIGURING, ModeObservation::UnitsConfigured(4)),
        ProconMode::OPERATING
    );
}

#[test]
fn operating_re_enters_itself() {
    assert_eq!(
        next_mode(ProconMode::OPERATING, ModeObservation::PassCompleted),
        ProconMode::OPERATING
    );
}

#[test]
fn dormant_probe_with_devices_resumes_configuring() {
    assert_eq!(
        next_mode(ProconMode::DORMANT, ModeObservation::DevicesProbed(2)),
        ProconMode::CONFIGURING
    );
}

#[test]
fn dormant_probe_without_devices_stays_dormant() {
    assert_eq!(
        next_mode(ProconMode::DORMANT, ModeObservation::DevicesProbed(0)),
        ProconMode::DORMANT
    );
}

#[test]
fn foreign_observations_leave_the_mode_unchanged() {
    assert_eq!(
        next_mode(ProconMode::OPERATING, ModeObservation::DevicesProbed(3)),
        ProconMode::OPERATING
    );
    assert_eq!(
        next_mode(ProconMode::DORMANT, ModeObservation::UnitsConfigured(0)),
        ProconMode::DORMANT
    );
    assert_eq!(
        next_mode(ProconMode::CONFIGURING, ModeObservation::PassCompleted),
        ProconMode::CONFIGURING
    );
}

#[test]
fn modes_describe_themselves() {
    assert_eq!(mode_description(ProconMode::OPERATING), "operating as usual");
    assert_eq!(mode_description(ProconMode::CONFIGURING), "configuring controllers");
    assert_eq!(
        mode_description(ProconMode::DORMANT),
        "dormant, no controllers connected"
    );
}
