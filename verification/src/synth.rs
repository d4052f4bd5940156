//! Capability synthesis for the merged synthetic controller.
//!
//! A formed unit gets exactly one synthetic device: eleven discrete
//! buttons, two signed two-state hat axes, and four signed 16-bit analog
//! axes with fixed fuzz/flat tolerances. The synthetic device inherits the
//! bus type of the unit's primary device and carries zeroed vendor and
//! product ids to mark it as virtual. The I/O layer materializes this
//! description through the virtual-device-creation interface.

use vstd::prelude::*;

verus! {

/// Kernel button codes of the synthetic controller's capability set.
pub const KEY_BTN_SOUTH: u16 = 304;

pub const KEY_BTN_EAST: u16 = 305;

pub const KEY_BTN_NORTH: u16 = 307;

pub const KEY_BTN_WEST: u16 = 308;

pub const KEY_BTN_SELECT: u16 = 314;

pub const KEY_BTN_START: u16 = 315;

pub const KEY_BTN_MODE: u16 = 316;

pub const KEY_BTN_TL2: u16 = 312;

pub const KEY_BTN_TR2: u16 = 313;

/// Kernel absolute-axis codes of the synthetic controller.
pub const ABS_X_CODE: u16 = 0;

pub const ABS_Y_CODE: u16 = 1;

pub const ABS_RX_CODE: u16 = 3;

pub const ABS_RY_CODE: u16 = 4;

pub const ABS_HAT0X_CODE: u16 = 16;

pub const ABS_HAT0Y_CODE: u16 = 17;

/// Range bounds of an analog stick axis.
pub const STICK_RANGE: i32 = 32767;

pub const STICK_RANGE_NEG: i32 = -32767;

/// Range bounds of a hat axis.
pub const HAT_RANGE: i32 = 1;

pub const HAT_RANGE_NEG: i32 = -1;

/// Fuzz tolerance of an analog stick axis.
pub const STICK_FUZZ: i32 = 1000;

/// Flat (dead-zone) tolerance of an analog stick axis.
pub const STICK_FLAT: i32 = 2000;

/// One absolute axis of the synthetic device: its kernel code, range,
/// tolerances, and initial (centered) value.
#[derive(Clone, Copy, PartialEq, Eq, Structural, Debug)]
pub struct AbsAxisSpec {
    pub code: u16,
    pub minimum: i32,
    pub maximum: i32,
    pub fuzz: i32,
    pub flat: i32,
    pub initial: i32,
}

/// The full capability description of one synthetic device.
pub struct SyntheticSpec {
    pub bustype: u16,
    pub vendor: u16,
    pub product: u16,
    pub buttons: Vec<u16>,
    pub axes: Vec<AbsAxisSpec>,
}

/// A two-state hat axis: range [-1, 1], no fuzz, no flat, centered.
pub open spec fn hat_axis(code: u16) -> AbsAxisSpec {
    AbsAxisSpec { code, minimum: HAT_RANGE_NEG, maximum: HAT_RANGE, fuzz: 0, flat: 0, initial: 0 }
}

/// An analog stick axis: range [-32767, 32767], fuzz 1000, flat 2000,
/// centered.
pub open spec fn stick_axis(code: u16) -> AbsAxisSpec {
    AbsAxisSpec {
        code,
        minimum: STICK_RANGE_NEG,
        maximum: STICK_RANGE,
        fuzz: STICK_FUZZ,
        flat: STICK_FLAT,
        initial: 0,
    }
}

/// The eleven buttons of every synthetic device, in enablement order.
pub open spec fn expected_buttons() -> Seq<u16> {
    seq![
        KEY_BTN_NORTH,
        KEY_BTN_SOUTH,
        KEY_BTN_EAST,
        KEY_BTN_WEST,
        KEY_BTN_START,
        KEY_BTN_SELECT,
        KEY_BTN_MODE,
        crate::events::KEY_BTN_TR,
        crate::events::KEY_BTN_TL,
        KEY_BTN_TR2,
        KEY_BTN_TL2,
    ]
}

/// The six absolute axes of every synthetic device, in enablement order:
/// the two hats, then the four analog stick axes.
pub open spec fn expected_axes() -> Seq<AbsAxisSpec> {
    seq![
        hat_axis(ABS_HAT0X_CODE),
        hat_axis(ABS_HAT0Y_CODE),
        stick_axis(ABS_X_CODE),
        stick_axis(ABS_Y_CODE),
        stick_axis(ABS_RX_CODE),
        stick_axis(ABS_RY_CODE),
    ]
}

/// Builds the capability description for one unit's synthetic device:
/// the fixed button and axis set, the primary device's bus type, and
/// zeroed vendor/product ids marking the device as virtual.
pub fn synthesize_capabilities(primary_bustype: u16) -> (r: SyntheticSpec)
    ensures
        r.bustype == primary_bustype,
        r.vendor == 0,
        r.product == 0,
        r.buttons@ == expected_buttons(),
        r.axes@ == expected_axes(),
{
    let mut buttons: Vec<u16> = Vec::new();
    buttons.push(KEY_BTN_NORTH);
    buttons.push(KEY_BTN_SOUTH);
    buttons.push(KEY_BTN_EAST);
    buttons.push(KEY_BTN_WEST);
    buttons.push(KEY_BTN_START);
    buttons.push(KEY_BTN_SELECT);
    buttons.push(KEY_BTN_MODE);
    buttons.push(crate::events::KEY_BTN_TR);
    buttons.push(crate::events::KEY_BTN_TL);
    buttons.push(KEY_BTN_TR2);
    buttons.push(KEY_BTN_TL2);

    let mut axes: Vec<AbsAxisSpec> = Vec::new();
    axes.push(AbsAxisSpec {
        code: ABS_HAT0X_CODE,
        minimum: HAT_RANGE_NEG,
        maximum: HAT_RANGE,
        fuzz: 0,
        flat: 0,
        initial: 0,
    });
    axes.push(AbsAxisSpec {
        code: ABS_HAT0Y_CODE,
        minimum: HAT_RANGE_NEG,
        maximum: HAT_RANGE,
        fuzz: 0,
        flat: 0,
        initial: 0,
    });
    axes.push(AbsAxisSpec {
        code: ABS_X_CODE,
        minimum: STICK_RANGE_NEG,
        maximum: STICK_RANGE,
        fuzz: STICK_FUZZ,
        flat: STICK_FLAT,
        initial: 0,
    });
    axes.push(AbsAxisSpec {
        code: ABS_Y_CODE,
        minimum: STICK_RANGE_NEG,
        maximum: STICK_RANGE,
        fuzz: STICK_FUZZ,
        flat: STICK_FLAT,
        initial: 0,
    });
    axes.push(AbsAxisSpec {
        code: ABS_RX_CODE,
        minimum: STICK_RANGE_NEG,
        maximum: STICK_RANGE,
        fuzz: STICK_FUZZ,
        flat: STICK_FLAT,
        initial: 0,
    });
    axes.push(AbsAxisSpec {
        code: ABS_RY_CODE,
        minimum: STICK_RANGE_NEG,
        maximum: STICK_RANGE,
        fuzz: STICK_FUZZ,
        flat: STICK_FLAT,
        initial: 0,
    });

    proof {
        assert(buttons@ =~= expected_buttons());
        assert(axes@ =~= expected_axes());
    }

    SyntheticSpec { bustype: primary_bustype, vendor: 0, product: 0, buttons, axes }
}

/// Law: every synthetic device's axis ranges are exactly hats in [-1, 1]
/// with no tolerances and analog axes in [-32767, 32767] with fuzz 1000
/// and flat 2000, all centered at 0.
pub proof fn lemma_axis_ranges()
    ensures
        expected_axes().len() == 6,
        forall|i: int| 0 <= i < 2 ==> (#[trigger] expected_axes()[i]).minimum == -1
            && expected_axes()[i].maximum == 1
            && expected_axes()[i].fuzz == 0
            && expected_axes()[i].flat == 0
            && expected_axes()[i].initial == 0,
        forall|i: int| 2 <= i < 6 ==> (#[trigger] expected_axes()[i]).minimum == -32767
            && expected_axes()[i].maximum == 32767
            && expected_axes()[i].fuzz == 1000
            && expected_axes()[i].flat == 2000
            && expected_axes()[i].initial == 0,
{
}

} // verus!
