use bluetooth_timeout::{device_name, into_opt_date_time, BluetoothDevice, DateTime, DeviceInfo, MacAddress, SystemTime};

fn never() -> SystemTime {
    SystemTime { year: 1601, month: 1, day_of_week: 1, day: 1, hour: 0, minute: 0, second: 0, milliseconds: 0 }
}

fn wide(s: &str, pad: usize) -> Vec<u16> {
    let mut v: Vec<u16> = s.encode_utf16().collect();
    v.extend(std::iter::repeat(0).take(pad));
    v
}

#[test]
fn never_is_none() {
    assert_eq!(into_opt_date_time(never()), None);
}

#[test]
fn date_time_is_kept() {
    let t = SystemTime { year: 2024, month: 2, day_of_week: 4, day: 29, hour: 23, minute: 59, second: 58, milliseconds: 999 };
    assert_eq!(
        into_opt_date_time(t),
        Some(DateTime { year: 2024, month: 2, day: 29, hour: 23, minute: 59, second: 58, millisecond: 999 })
    );
}

#[test]
fn names_from_padded_buffers() {
    assert_eq!(device_name(&wide("Headset", 241)), Some("Headset".to_string()));
    assert_eq!(device_name(&wide("", 248)), None);
    assert_eq!(device_name(&vec![]), None);
    assert_eq!(device_name(&wide("Mäuschen ♫", 0)), Some("Mäuschen ♫".to_string()));
    let mut broken = vec![0xD800u16];
    broken.extend([0u16; 3]);
    assert_eq!(device_name(&broken), Some("\u{FFFD}".to_string()));
}

#[test]
fn device_from_record() {
    let info = DeviceInfo {
        address: MacAddress::from([0xAA, 0xBB, 0xCC, 0xDD, 0xEE, 0x01]),
        name: wide("Keyboard", 10),
        class: 0x2540,
        connected: true,
        remembered: true,
        authenticated: false,
        last_seen: SystemTime { year: 2023, month: 12, day_of_week: 0, day: 31, hour: 12, minute: 0, second: 1, milliseconds: 5 },
        last_used: never(),
    };
    let d = BluetoothDevice::from_device_info(&info);
    assert_eq!(d.mac_address, info.address);
    assert_eq!(d.name, Some("Keyboard".to_string()));
    assert_eq!(d.class, 0x2540);
    assert!(d.connected);
    assert!(d.remembered);
    assert!(!d.authenticated);
    assert_eq!(d.last_seen, Some(DateTime { year: 2023, month: 12, day: 31, hour: 12, minute: 0, second: 1, millisecond: 5 }));
    assert_eq!(d.last_used, None);
}

#[test]
fn leap_second_is_kept() {
    let t = SystemTime { year: 2016, month: 12, day_of_week: 6, day: 31, hour: 23, minute: 59, second: 59, milliseconds: 1500 };
    assert_eq!(
        into_opt_date_time(t),
        Some(DateTime { year: 2016, month: 12, day: 31, hour: 23, minute: 59, second: 59, millisecond: 1500 })
    );
}
