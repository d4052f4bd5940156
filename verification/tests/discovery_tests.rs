use procond::discovery::{DeviceInfo, filter_recognized, is_recognized};

fn dev(vendor: u16, product: u16, slot: usize) -> DeviceInfo {
    DeviceInfo { vendor, product, slot }
}

#[test]
fn recognizes_the_three_products() {
    assert!(is_recognized(0x57e, 0x2006));
    assert!(is_recognized(0x57e, 0x2007));
    assert!(is_recognized(0x57e, 0x2009));
}

#[test]
fn rejects_other_identities() {
    assert!(!is_recognized(0x57e, 0x2008));
    assert!(!is_recognized(0x57f, 0x2009));
    assert!(!is_recognized(0x046d, 0xc52b));
    assert!(!is_recognized(0, 0));
}

#[test]
fn discovery_returns_exactly_the_procon() {
    let pool = vec![dev(0x57e, 0x2009, 0), dev(0x046d, 0xc52b, 1)];
    let kept = filter_recognized(&pool);
    assert_eq!(kept.len(), 1);
    assert_eq!(kept[0], dev(0x57e, 0x2009, 0));
}

#[test]
fn discovery_keeps_order_and_all_recognized() {
    let pool = vec![
        dev(0x57e, 0x2006, 0),
        dev(0x1234, 0x2006, 1),
        dev(0x57e, 0x2007, 2),
        dev(0x57e, 0x9999, 3),
        dev(0x57e, 0x2009, 4),
    ];
    let kept = filter_recognized(&pool);
    assert_eq!(kept.len(), 3);
    assert_eq!(kept[0].slot, 0);
    assert_eq!(kept[1].slot, 2);
    assert_eq!(kept[2].slot, 4);
}

#[test]
fn discovery_of_nothing_is_empty() {
    let kept = filter_recognized(&Vec::new());
    assert!(kept.is_empty());
}
