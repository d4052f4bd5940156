use procond::indicator::{IndicatorError, indicator_write_plan, parse_controller_index, player_content};

const NINTENDO: u16 = 0x57e;
const LEFT_JOYCON: u16 = 0x2006;
const RIGHT_JOYCON: u16 = 0x2007;
const PROCON: u16 = 0x2009;

#[test]
fn parses_the_controller_index_of_each_product() {
    assert_eq!(
        parse_controller_index(NINTENDO, PROCON, "Nintendo Switch ProCon [controller 7]"),
        Some(7)
    );
    assert_eq!(
        parse_controller_index(NINTENDO, LEFT_JOYCON, "Nintendo Switch Left JoyCon [controller 0]"),
        Some(0)
    );
    assert_eq!(
        parse_controller_index(
            NINTENDO,
            RIGHT_JOYCON,
            "Nintendo Switch Right JoyCon [controller 12]"
        ),
        Some(12)
    );
}

#[test]
fn rejects_unrecognized_identities() {
    assert_eq!(
        parse_controller_index(0x1234, PROCON, "Nintendo Switch ProCon [controller 7]"),
        None
    );
    assert_eq!(
        parse_controller_index(NINTENDO, 0x2008, "Nintendo Switch ProCon [controller 7]"),
        None
    );
}

#[test]
fn rejects_malformed_names() {
    // wrong prefix for the product
    assert_eq!(
        parse_controller_index(NINTENDO, PROCON, "Nintendo Switch Left JoyCon [controller 7]"),
        None
    );
    // no closing bracket
    assert_eq!(
        parse_controller_index(NINTENDO, PROCON, "Nintendo Switch ProCon [controller 7"),
        None
    );
    // no digits at all
    assert_eq!(
        parse_controller_index(NINTENDO, PROCON, "Nintendo Switch ProCon [controller ]"),
        None
    );
    // a non-digit in the index
    assert_eq!(
        parse_controller_index(NINTENDO, PROCON, "Nintendo Switch ProCon [controller 7a]"),
        None
    );
    // trailing text after the bracket
    assert_eq!(
        parse_controller_index(NINTENDO, PROCON, "Nintendo Switch ProCon [controller 7] "),
        None
    );
    assert_eq!(parse_controller_index(NINTENDO, PROCON, ""), None);
}

#[test]
fn index_range_is_enforced() {
    assert_eq!(
        parse_controller_index(
            NINTENDO,
            PROCON,
            "Nintendo Switch ProCon [controller 4294967295]"
        ),
        Some(u32::MAX)
    );
    assert_eq!(
        parse_controller_index(
            NINTENDO,
            PROCON,
            "Nintendo Switch ProCon [controller 4294967296]"
        ),
        None
    );
}

#[test]
fn renders_player_indices_as_ascii_decimal() {
    assert_eq!(player_content(0), b"0".to_vec());
    assert_eq!(player_content(2), b"2".to_vec());
    assert_eq!(player_content(10), b"10".to_vec());
    assert_eq!(player_content(42), b"42".to_vec());
    assert_eq!(player_content(100), b"100".to_vec());
    assert_eq!(player_content(255), b"255".to_vec());
}

#[test]
fn plans_the_write_for_player_two_on_surface_seven() {
    let w = indicator_write_plan(
        NINTENDO,
        PROCON,
        "Nintendo Switch ProCon [controller 7]",
        2,
    )
    .expect("a resolvable name");
    assert_eq!(w.controller_index, 7);
    assert_eq!(w.content, b"2".to_vec());
}

#[test]
fn unresolvable_name_is_reported_not_misread() {
    let e = indicator_write_plan(NINTENDO, PROCON, "ProCon 7", 2).unwrap_err();
    assert_eq!(e, IndicatorError::UnresolvableName);
}
