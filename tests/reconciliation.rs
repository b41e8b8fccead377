use bluetooth_timeout::{BluetoothApp, BluetoothDevice, Duration, MacAddress, Timeout, TimeoutEditing};

fn mac(last: u8) -> MacAddress {
    MacAddress::from([0xAA, 0xBB, 0xCC, 0xDD, 0xEE, last])
}

fn device(address: MacAddress, connected: bool) -> BluetoothDevice {
    BluetoothDevice {
        mac_address: address,
        name: Some("Headset".to_string()),
        class: 0,
        connected,
        remembered: true,
        authenticated: true,
        last_seen: None,
        last_used: None,
    }
}

fn app_with(devices: Vec<BluetoothDevice>) -> BluetoothApp {
    let mut app = BluetoothApp::new_now();
    app.start_scan();
    assert!(app.try_update_with_scan_result(Some(Ok(devices))).is_none());
    app
}

#[test]
fn new_device_gets_default_entry() {
    let mut app = app_with(vec![device(mac(0x01), true)]);
    let removals = app.process_timeout(&Duration::from_secs(1));
    assert!(removals.is_empty());
    assert_eq!(app.timeouts.len(), 1);
    assert_eq!(app.timeouts[0], Timeout::default_from(mac(0x01)));
    assert_eq!(app.timeouts[0].duration, None);
    assert!(app.timeouts[0].remove_on_close);
}

#[test]
fn ten_second_timeout_expires_on_third_pass() {
    let address = MacAddress::from([0xAA, 0xBB, 0xCC, 0xDD, 0xEE, 0x01]);
    let mut app = app_with(vec![device(address, true)]);
    assert!(app.process_timeout(&Duration::zero()).is_empty());
    assert_eq!(app.timeouts[0].duration, None);
    assert!(app.timeouts[0].remove_on_close);

    let mut editing = TimeoutEditing::new_of(address);
    editing.buffer_prev_had_focus = true;
    editing.text_edit_buffer = "10s".to_string();
    editing.update_from_frame(&mut app.timeouts[0], false, false);
    assert_eq!(app.timeouts[0].duration, Some(Duration::from_secs(10)));

    let step = Duration::from_secs(4);
    assert!(app.process_timeout(&step).is_empty());
    assert_eq!(app.timeouts[0].duration, Some(Duration::from_secs(6)));
    assert!(app.process_timeout(&step).is_empty());
    assert_eq!(app.timeouts[0].duration, Some(Duration::from_secs(2)));
    let removals = app.process_timeout(&step);
    assert_eq!(removals, vec![address]);
    assert_eq!(app.timeouts[0].duration, Some(Duration::zero()));
}

#[test]
fn expired_entry_asks_again_each_pass_while_connected() {
    let address = mac(0x02);
    let mut app = app_with(vec![device(address, true)]);
    app.process_timeout(&Duration::zero());
    app.timeouts[0].set_duration(Some(Duration::from_secs(3)));
    assert_eq!(app.process_timeout(&Duration::from_secs(3)), vec![address]);
    assert_eq!(app.process_timeout(&Duration::from_secs(1)), vec![address]);
    assert_eq!(app.process_timeout(&Duration::zero()), vec![address]);
    assert_eq!(app.timeouts.len(), 1);
}

#[test]
fn reaching_zero_exactly_asks_for_removal() {
    let mut t = Timeout::default_from(mac(0x03));
    t.set_duration(Some(Duration::from_secs(5)));
    assert!(t.advance(&Duration::from_secs(5)));
    assert_eq!(t.duration, Some(Duration::zero()));
}

#[test]
fn sub_second_countdown() {
    let mut t = Timeout::default_from(mac(0x03));
    t.set_duration(Some(Duration::from_nanos(1_500_000_000)));
    assert!(!t.advance(&Duration::from_nanos(400_000_000)));
    assert_eq!(t.duration, Some(Duration::from_nanos(1_100_000_000)));
}

#[test]
fn disabled_timeout_never_expires() {
    let address = mac(0x04);
    let mut app = app_with(vec![device(address, true)]);
    app.process_timeout(&Duration::zero());
    app.timeouts[0].set_duration(Some(Duration::from_secs(1)));
    app.timeouts[0].set_duration(None);
    for secs in [1u64, 100, 1_000_000, u64::MAX] {
        assert!(app.process_timeout(&Duration::from_secs(secs)).is_empty());
        assert_eq!(app.timeouts[0].duration, None);
    }
}

#[test]
fn unplugged_device_entry_is_pruned() {
    let kept = mac(0x05);
    let unplugged = mac(0x06);
    let mut app = app_with(vec![device(kept, true), device(unplugged, true)]);
    app.process_timeout(&Duration::zero());
    assert_eq!(app.timeouts.len(), 2);
    app.timeouts[0].set_duration(Some(Duration::from_secs(60)));
    app.timeouts[0].remove_on_close = false;
    let before = app.timeouts[0];

    app.start_scan();
    app.try_update_with_scan_result(Some(Ok(vec![device(kept, true), device(unplugged, false)])));
    assert!(app.process_timeout(&Duration::zero()).is_empty());
    assert_eq!(app.timeouts, vec![before]);
}

#[test]
fn entries_follow_connected_devices() {
    let a = mac(0x10);
    let b = mac(0x11);
    let c = mac(0x12);
    let mut app = app_with(vec![device(a, true), device(b, false), device(c, true)]);
    app.process_timeout(&Duration::zero());
    let ids: Vec<MacAddress> = app.timeouts.iter().map(|t| t.mac_address).collect();
    assert_eq!(ids, vec![a, c]);

    app.start_scan();
    app.try_update_with_scan_result(Some(Ok(vec![device(a, false), device(b, true), device(c, true)])));
    app.process_timeout(&Duration::zero());
    let ids: Vec<MacAddress> = app.timeouts.iter().map(|t| t.mac_address).collect();
    assert_eq!(ids, vec![c, b]);
}

#[test]
fn duplicate_device_gets_one_entry() {
    let a = mac(0x20);
    let mut app = app_with(vec![device(a, true), device(a, true)]);
    app.process_timeout(&Duration::zero());
    assert_eq!(app.timeouts.len(), 1);
}

#[test]
fn exit_removes_only_flagged_entries() {
    let a = mac(0x30);
    let b = mac(0x31);
    let mut app = app_with(vec![device(a, true), device(b, true)]);
    app.process_timeout(&Duration::zero());
    app.timeouts[1].remove_on_close = false;
    let removals = app.on_exit();
    assert_eq!(removals, vec![a]);
    assert!(app.timeouts.is_empty());
}

#[test]
fn exit_without_entries_removes_nothing() {
    let mut app = BluetoothApp::new_now();
    assert!(app.on_exit().is_empty());
}
