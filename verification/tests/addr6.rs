use macaddr::MacAddr6;

#[test]
fn round_trip_identity() {
    let bytes = [0xABu8, 0x0D, 0xEF, 0x12, 0x34, 0x56];
    assert_eq!(MacAddr6::from(bytes).into_bytes(), bytes);

    let zeros = [0u8; 6];
    assert_eq!(MacAddr6::from(zeros).into_bytes(), zeros);

    let ones = [0xFFu8; 6];
    assert_eq!(MacAddr6::from(ones).into_bytes(), ones);
}

#[test]
fn new_into_bytes() {
    let addr = MacAddr6::new(0xAC, 0xDE, 0x48, 0x23, 0x45, 0x67);
    assert_eq!(addr.into_bytes(), [0xAC, 0xDE, 0x48, 0x23, 0x45, 0x67]);
}

#[test]
fn nil_iff_all_zero() {
    assert!(MacAddr6::new(0, 0, 0, 0, 0, 0).is_nil());
    assert!(!MacAddr6::new(1, 0, 0, 0, 0, 0).is_nil());
    assert!(!MacAddr6::new(0, 0, 5, 0, 0, 0).is_nil());
    assert!(!MacAddr6::new(0, 0, 0, 0, 0, 0x80).is_nil());
    assert!(!MacAddr6::new(0xFF, 0xFF, 0xFF, 0xFF, 0xFF, 0xFF).is_nil());
}

#[test]
fn broadcast_iff_all_ones() {
    assert!(MacAddr6::new(0xFF, 0xFF, 0xFF, 0xFF, 0xFF, 0xFF).is_broadcast());
    assert!(!MacAddr6::new(0xFE, 0xFF, 0xFF, 0xFF, 0xFF, 0xFF).is_broadcast());
    assert!(!MacAddr6::new(0xFF, 0xFF, 0xFF, 0x7F, 0xFF, 0xFF).is_broadcast());
    assert!(!MacAddr6::new(0, 0, 0, 0, 0, 0).is_broadcast());
}

#[test]
fn unicast_multicast_partition() {
    for byte0 in [0x00u8, 0x01, 0x02, 0x03, 0xAC, 0xAD, 0xFE, 0xFF] {
        let addr = MacAddr6::new(byte0, 0, 0x0C, 0xCC, 0xCC, 0xCC);
        assert_ne!(addr.is_unicast(), addr.is_multicast());
        assert_eq!(addr.is_multicast(), byte0 & 0x01 == 1);
    }
}

#[test]
fn universal_local_partition() {
    for byte0 in [0x00u8, 0x01, 0x02, 0x03, 0xAC, 0xAE, 0xFD, 0xFF] {
        let addr = MacAddr6::new(byte0, 0, 0x0C, 0xCC, 0xCC, 0xCC);
        assert_ne!(addr.is_universal(), addr.is_local());
        assert_eq!(addr.is_local(), byte0 & 0x02 == 2);
    }
}

#[test]
fn multicast_universal_example() {
    let addr = MacAddr6::new(0x01, 0x00, 0x0C, 0xCC, 0xCC, 0xCC);
    assert!(addr.is_multicast());
    assert!(!addr.is_unicast());
    assert!(addr.is_universal());
    assert!(!addr.is_local());
}

#[test]
fn unicast_local_example() {
    let addr = MacAddr6::new(0x02, 0x00, 0x0C, 0xCC, 0xCC, 0xCC);
    assert!(addr.is_unicast());
    assert!(!addr.is_multicast());
    assert!(addr.is_local());
    assert!(!addr.is_universal());
}

#[test]
fn canonical_text_rendering() {
    let addr = MacAddr6::new(0xAC, 0xDE, 0x48, 0x23, 0x45, 0x67);
    assert_eq!(addr.to_canonical_string(), "AC-DE-48-23-45-67");
}

#[test]
fn canonical_text_zero_padding() {
    let addr = MacAddr6::new(0x00, 0x0F, 0xF0, 0x05, 0x9A, 0xB0);
    assert_eq!(addr.to_canonical_string(), "00-0F-F0-05-9A-B0");
}

#[test]
fn equality_is_byte_wise() {
    let a = MacAddr6::new(0xAC, 0xDE, 0x48, 0x23, 0x45, 0x67);
    let b = MacAddr6::new(0xAC, 0xDE, 0x48, 0x23, 0x45, 0x67);
    let c = MacAddr6::new(0xAC, 0xDE, 0x48, 0x23, 0x45, 0x68);
    assert_eq!(a, b);
    assert_ne!(a, c);
}

#[test]
fn ordering_is_lexicographic() {
    let a = MacAddr6::new(0x01, 0xFF, 0xFF, 0xFF, 0xFF, 0xFF);
    let b = MacAddr6::new(0x02, 0x00, 0x00, 0x00, 0x00, 0x00);
    assert!(a < b);
    assert!(b > a);

    let c = MacAddr6::new(0x01, 0xFF, 0xFF, 0xFF, 0xFF, 0xFE);
    assert!(c < a);
    assert!(a > c);

    let d = MacAddr6::new(0x01, 0xFF, 0xFF, 0xFF, 0xFF, 0xFF);
    assert!(a <= d && a >= d);
    assert_eq!(a.partial_cmp(&d), Some(std::cmp::Ordering::Equal));
    assert_eq!(a.cmp(&b), std::cmp::Ordering::Less);
}

#[test]
fn default_is_nil() {
    let addr = MacAddr6::default();
    assert!(addr.is_nil());
    assert_eq!(addr, MacAddr6::new(0, 0, 0, 0, 0, 0));
}

#[test]
fn as_bytes_views_the_address() {
    let addr = MacAddr6::new(0xAC, 0xDE, 0x48, 0x23, 0x45, 0x67);
    assert_eq!(addr.as_bytes(), &[0xAC, 0xDE, 0x48, 0x23, 0x45, 0x67]);
}

#[test]
fn set_byte_changes_identity() {
    let mut addr = MacAddr6::new(0, 0, 0, 0, 0, 0);
    addr.set_byte(0, 0xFF);
    addr.set_byte(5, 0x0A);
    assert_eq!(addr.into_bytes(), [0xFF, 0, 0, 0, 0, 0x0A]);
    assert!(!addr.is_nil());
}
