use procond::events::InputEvent;
use procond::forwarding::{Relay, TickError, TimeStamp, plan_tick, sync_event};

fn btn_south_press() -> InputEvent {
    InputEvent { event_type: 1, code: 304, value: 1 }
}

fn abs_x(value: i32) -> InputEvent {
    InputEvent { event_type: 3, code: 0, value }
}

fn now() -> TimeStamp {
    TimeStamp { secs: 1700000000, micros: 123456 }
}

#[test]
fn two_device_tick_relays_primary_then_secondary_then_sync() {
    let (relays, outcome) = plan_tick(btn_south_press(), Some(abs_x(120)), Some(now()));
    assert!(outcome.is_ok());
    assert_eq!(relays.len(), 3);
    assert!(matches!(relays[0], Relay::Physical(e) if e == btn_south_press()));
    assert!(matches!(relays[1], Relay::Physical(e) if e == abs_x(120)));
    assert!(matches!(relays[2], Relay::Sync(t) if t == now()));
}

#[test]
fn single_device_tick_relays_primary_then_sync() {
    let (relays, outcome) = plan_tick(btn_south_press(), None, Some(now()));
    assert!(outcome.is_ok());
    assert_eq!(relays.len(), 2);
    assert!(matches!(relays[0], Relay::Physical(e) if e == btn_south_press()));
    assert!(matches!(relays[1], Relay::Sync(t) if t == now()));
}

#[test]
fn clock_failure_keeps_physical_relays_and_fails_the_tick() {
    let (relays, outcome) = plan_tick(btn_south_press(), Some(abs_x(120)), None);
    assert_eq!(outcome, Err(TickError::ClockUnavailable));
    assert_eq!(relays.len(), 2);
    assert!(matches!(relays[0], Relay::Physical(e) if e == btn_south_press()));
    assert!(matches!(relays[1], Relay::Physical(e) if e == abs_x(120)));
    assert!(!relays.iter().any(|r| matches!(r, Relay::Sync(_))));
}

#[test]
fn the_sync_event_is_a_zero_valued_sync_report() {
    assert_eq!(sync_event(), InputEvent { event_type: 0, code: 0, value: 0 });
}
