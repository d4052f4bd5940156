//! Plain-value model of kernel input events and the identity constants of
//! the recognized controller family.

use vstd::prelude::*;

verus! {

/// USB vendor id reported by all recognized controllers.
pub const VENDOR_NINTENDO: u16 = 0x57e;

/// Product id of a left Joy-Con (one half of a pair).
pub const PRODUCT_LEFT_JOYCON: u16 = 0x2006;

/// Product id of a right Joy-Con (one half of a pair).
pub const PRODUCT_RIGHT_JOYCON: u16 = 0x2007;

/// Product id of a Pro Controller (self-contained, reports both shoulder roles).
pub const PRODUCT_PROCON: u16 = 0x2009;

/// Kernel event type for key/button events.
pub const EV_TYPE_KEY: u16 = 1;

/// Kernel event type for absolute-axis events.
pub const EV_TYPE_ABS: u16 = 3;

/// Kernel event type for synchronization events.
pub const EV_TYPE_SYN: u16 = 0;

/// Kernel code of the left shoulder button, the left pairing signal.
pub const KEY_BTN_TL: u16 = 310;

/// Kernel code of the right shoulder button, the right pairing signal.
pub const KEY_BTN_TR: u16 = 311;

/// Kernel code of the frame-complete synchronization report.
pub const SYN_REPORT_CODE: u16 = 0;

/// One kernel input event, reduced to the fields the engine reads:
/// event type, event code, and value. The timestamp of a relayed event is
/// carried through unchanged by the I/O layer and never inspected here.
#[derive(Clone, Copy, PartialEq, Eq, Structural, Debug)]
pub struct InputEvent {
    pub event_type: u16,
    pub code: u16,
    pub value: i32,
}

/// Does this event report the left shoulder button?
pub open spec fn is_left_shoulder(ev: InputEvent) -> bool {
    ev.event_type == EV_TYPE_KEY && ev.code == KEY_BTN_TL
}

/// Does this event report the right shoulder button?
pub open spec fn is_right_shoulder(ev: InputEvent) -> bool {
    ev.event_type == EV_TYPE_KEY && ev.code == KEY_BTN_TR
}

} // verus!
