use ultrafine_brightness::locator::{filter_candidates, identity_matches, DeviceId};
use ultrafine_brightness::profile::lg_ultrafine;

#[test]
fn identity_matches_needs_both_halves() {
    let profile = lg_ultrafine();
    assert!(identity_matches(
        &profile,
        &DeviceId { vendor_id: 0x043e, product_id: 0x9a40 }
    ));
    assert!(!identity_matches(
        &profile,
        &DeviceId { vendor_id: 0x043e, product_id: 0x9a41 }
    ));
    assert!(!identity_matches(
        &profile,
        &DeviceId { vendor_id: 0x043f, product_id: 0x9a40 }
    ));
}

#[test]
fn filter_candidates_keeps_matches_in_enumeration_order() {
    let profile = lg_ultrafine();
    let ids = vec![
        DeviceId { vendor_id: 0x1d6b, product_id: 0x0003 },
        DeviceId { vendor_id: 0x043e, product_id: 0x9a40 },
        DeviceId { vendor_id: 0x046d, product_id: 0xc52b },
        DeviceId { vendor_id: 0x043e, product_id: 0x9a40 },
    ];
    assert_eq!(filter_candidates(&profile, &ids), vec![1, 3]);
}

#[test]
fn filter_candidates_yields_nothing_without_a_match() {
    let profile = lg_ultrafine();
    let ids = vec![
        DeviceId { vendor_id: 0x1d6b, product_id: 0x0002 },
        DeviceId { vendor_id: 0x046d, product_id: 0xc52b },
    ];
    assert_eq!(filter_candidates(&profile, &ids), Vec::<usize>::new());
}

#[test]
fn filter_candidates_on_empty_enumeration() {
    let profile = lg_ultrafine();
    assert_eq!(filter_candidates(&profile, &Vec::new()), Vec::<usize>::new());
}
