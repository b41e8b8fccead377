use bluetooth_timeout::{Duration, MacAddress, Timeout, TimeoutEditing};

#[test]
fn duration_text_whole_seconds() {
    let mut t = Timeout::default_from(MacAddress::from([0; 6]));
    assert_eq!(t.duration_str(), None);
    assert_eq!(t.duration_str_or_none(), "None");
    t.set_duration(Some(Duration::from_secs(10)));
    assert_eq!(t.duration_str(), Some("10s".to_string()));
    assert_eq!(t.duration_str_or_none(), "10s");
    t.set_duration(Some(Duration::from_secs(9420)));
    assert_eq!(t.duration_str_or_none(), "2h 37m");
    t.set_duration(Some(Duration::zero()));
    assert_eq!(t.duration_str_or_none(), "0s");
}

#[test]
fn duration_text_drops_fraction() {
    let mut t = Timeout::default_from(MacAddress::from([0; 6]));
    t.set_duration(Some(Duration::from_nanos(4_200_000_000)));
    assert_eq!(t.duration_str_or_none(), "4s");
    t.set_duration(Some(Duration::from_nanos(999_999_999)));
    assert_eq!(t.duration_str_or_none(), "0s");
}

#[test]
fn text_round_trip_to_the_second() {
    for nanos in [0u128, 1, 999_999_999, 10_000_000_000, 3_661_500_000_000, 31_557_600_000_000_000, 100_000_000_000_000_000] {
        let d = Duration::from_nanos(nanos);
        let mac = MacAddress::from([1; 6]);
        let mut t = Timeout::default_from(mac);
        t.set_duration(Some(d));
        let mut e = TimeoutEditing::new_of(mac);
        e.text_edit_buffer = t.duration_str().unwrap();
        e.buffer_prev_had_focus = true;
        t.set_duration(None);
        e.update_from_frame(&mut t, false, false);
        assert_eq!(t.duration, Some(d.truncated_to_secs()));
    }
}

#[test]
fn duration_accessors() {
    let d = Duration::from_nanos(3_250_000_000);
    assert_eq!(d.as_nanos(), 3_250_000_000);
    assert_eq!(d.as_secs(), 3);
    assert_eq!(d.subsec_nanos(), 250_000_000);
    assert_eq!(d.truncated_to_secs(), Duration::from_secs(3));
    assert_eq!(Duration::from_secs(5).checked_sub(&d), Some(Duration::from_nanos(1_750_000_000)));
    assert_eq!(d.checked_sub(&Duration::from_secs(5)), None);
    assert_eq!(Duration::from_secs(u64::MAX).as_secs(), u64::MAX);
}

#[test]
fn mac_address_text() {
    let m = MacAddress::from([0xAA, 0xBB, 0xCC, 0xDD, 0xEE, 0x01]);
    assert_eq!(m.to_string(), "AA:BB:CC:DD:EE:01");
    assert_eq!(m.to_hex(true), "AA:BB:CC:DD:EE:01");
    assert_eq!(m.to_hex(false), "aa:bb:cc:dd:ee:01");
    assert_eq!(MacAddress::from([0, 9, 10, 15, 16, 255]).to_string(), "00:09:0A:0F:10:FF");
}

#[test]
fn mac_address_octets_and_order() {
    let m = MacAddress::from_octets([1, 2, 3, 4, 5, 6]);
    assert_eq!(m.octets(), [1, 2, 3, 4, 5, 6]);
    assert_eq!(m, MacAddress::from([1, 2, 3, 4, 5, 6]));
    assert_eq!(m.key(), 0x0102_0304_0506);
    assert_eq!(MacAddress::from([0xFF; 6]).key(), 0xFFFF_FFFF_FFFF);
    let lower = MacAddress::from([0, 0xFF, 0xFF, 0xFF, 0xFF, 0xFF]);
    let higher = MacAddress::from([1, 0, 0, 0, 0, 0]);
    assert!(lower < higher);
    assert!(lower.key() < higher.key());
}

