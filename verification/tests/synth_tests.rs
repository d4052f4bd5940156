use procond::synth::{AbsAxisSpec, synthesize_capabilities};

#[test]
fn synthetic_identity_is_virtual_and_inherits_bustype() {
    let spec = synthesize_capabilities(0x0003);
    assert_eq!(spec.bustype, 0x0003);
    assert_eq!(spec.vendor, 0);
    assert_eq!(spec.product, 0);
}

#[test]
fn synthetic_has_the_eleven_buttons() {
    let spec = synthesize_capabilities(5);
    assert_eq!(
        spec.buttons,
        vec![307, 304, 305, 308, 315, 314, 316, 311, 310, 313, 312]
    );
}

#[test]
fn hat_axes_span_minus_one_to_one_with_no_tolerances() {
    let spec = synthesize_capabilities(5);
    assert_eq!(spec.axes.len(), 6);
    let expected_hats = [16u16, 17u16];
    for (axis, code) in spec.axes[..2].iter().zip(expected_hats) {
        assert_eq!(
            *axis,
            AbsAxisSpec { code, minimum: -1, maximum: 1, fuzz: 0, flat: 0, initial: 0 }
        );
    }
}

#[test]
fn analog_axes_span_signed_sixteen_bits_with_fixed_tolerances() {
    let spec = synthesize_capabilities(5);
    let expected_sticks = [0u16, 1u16, 3u16, 4u16];
    for (axis, code) in spec.axes[2..].iter().zip(expected_sticks) {
        assert_eq!(
            *axis,
            AbsAxisSpec {
                code,
                minimum: -32767,
                maximum: 32767,
                fuzz: 1000,
                flat: 2000,
                initial: 0,
            }
        );
    }
}
