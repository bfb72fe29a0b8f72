use mona::discovery::{get_display_devices, region_display_monitors, units_equal, DeviceEntry, TargetName};
use mona::monitors::{find_display_monitor, get_monitors, DisplayDevice, DisplayMonitor, Monitor};

fn device(friendly: &str, name: &str) -> DisplayDevice {
    DisplayDevice { friendly_name: friendly.to_string(), device_name: name.to_string() }
}

fn display(name: &str, handle: usize) -> DisplayMonitor {
    DisplayMonitor { device_name: name.to_string(), handle }
}

fn units(s: &str) -> Vec<u16> {
    s.encode_utf16().collect()
}

fn padded(s: &str, len: usize) -> Vec<u16> {
    let mut v = units(s);
    v.resize(len, 0);
    v
}

#[test]
fn monitor_accessors() {
    let m = Monitor::new(3, "Dell".to_string(), 77);
    assert_eq!(m.id(), 3);
    assert_eq!(m.name(), "Dell");
    assert_eq!(m.handle(), 77);
}

#[test]
fn correlate_one_per_identity_in_order() {
    let devices = vec![
        device("LG", r"\\.\DISPLAY2\Monitor0"),
        device("Dell", r"\\.\DISPLAY1\Monitor0"),
        device("BenQ", r"\\.\DISPLAY3\Monitor0"),
    ];
    let displays = vec![
        display(r"\\.\DISPLAY1", 10),
        display(r"\\.\DISPLAY2", 20),
        display(r"\\.\DISPLAY3", 30),
    ];
    let monitors = get_monitors(&devices, &displays).unwrap();
    assert_eq!(monitors.len(), 3);
    let got: Vec<(i32, &str, usize)> = monitors.iter().map(|m| (m.id(), m.name(), m.handle())).collect();
    assert_eq!(got, vec![(1, "LG", 20), (2, "Dell", 10), (3, "BenQ", 30)]);
}

#[test]
fn correlate_takes_first_matching_handle() {
    let devices = vec![device("Dell", r"\\.\DISPLAY1\Monitor0")];
    let displays = vec![
        display(r"\\.\DISPLAY2", 20),
        display(r"\\.\DISPLAY1", 11),
        display(r"\\.\DISPLAY1", 12),
    ];
    let monitors = get_monitors(&devices, &displays).unwrap();
    assert_eq!(monitors[0].handle(), 11);
}

#[test]
fn correlate_fails_on_unmatched_device() {
    let devices = vec![
        device("Dell", r"\\.\DISPLAY1\Monitor0"),
        device("Ghost", r"\\.\DISPLAY9\Monitor0"),
    ];
    let displays = vec![display(r"\\.\DISPLAY1", 10)];
    assert!(get_monitors(&devices, &displays).is_none());
}

#[test]
fn correlate_empty_inputs() {
    assert_eq!(get_monitors(&vec![], &vec![]).unwrap().len(), 0);
    assert_eq!(get_monitors(&vec![], &vec![display(r"\\.\DISPLAY1", 1)]).unwrap().len(), 0);
    assert!(get_monitors(&vec![device("Dell", r"\\.\DISPLAY1")], &vec![]).is_none());
}

#[test]
fn find_display_monitor_uses_prefix() {
    let displays = vec![display(r"\\.\DISPLAY10", 1), display(r"\\.\DISPLAY1", 2)];
    assert_eq!(find_display_monitor(r"\\.\DISPLAY1\Monitor0", &displays), Some(1));
    assert_eq!(find_display_monitor(r"\\.\DISPLAY10\Monitor0", &displays), Some(0));
    assert_eq!(find_display_monitor(r"\\.\DISPLAY", &displays), None);
}

#[test]
fn display_devices_resolve_through_map() {
    let map = vec![
        DeviceEntry { device_id: padded("path-b", 128), device_name: padded(r"\\.\DISPLAY2\Monitor0", 32) },
        DeviceEntry { device_id: padded("path-a", 128), device_name: padded(r"\\.\DISPLAY1\Monitor0", 32) },
    ];
    let targets = vec![
        TargetName { friendly_name: padded("Dell", 64), device_path: padded("path-a", 128) },
        TargetName { friendly_name: padded("Nobody", 64), device_path: padded("path-x", 128) },
        TargetName { friendly_name: padded("LG", 64), device_path: padded("path-b", 128) },
    ];
    let devices = get_display_devices(&map, &targets);
    let got: Vec<(&str, &str)> =
        devices.iter().map(|d| (d.friendly_name.as_str(), d.device_name.as_str())).collect();
    assert_eq!(got, vec![("Dell", r"\\.\DISPLAY1\Monitor0"), ("LG", r"\\.\DISPLAY2\Monitor0")]);
}

#[test]
fn display_devices_compare_whole_path() {
    let map = vec![DeviceEntry { device_id: units("path-a"), device_name: units("N") }];
    let targets = vec![TargetName { friendly_name: units("Dell"), device_path: units("path-a2") }];
    assert!(get_display_devices(&map, &targets).is_empty());
    assert!(get_display_devices(&vec![], &vec![]).is_empty());
}

#[test]
fn region_gives_one_record_per_handle() {
    let name = padded(r"\\.\DISPLAY1", 32);
    let monitors = region_display_monitors(&name, &vec![5, 6]);
    assert_eq!(monitors.len(), 2);
    assert_eq!(monitors[0].device_name, r"\\.\DISPLAY1");
    assert_eq!(monitors[0].handle, 5);
    assert_eq!(monitors[1].device_name, r"\\.\DISPLAY1");
    assert_eq!(monitors[1].handle, 6);
    assert!(region_display_monitors(&name, &vec![]).is_empty());
}

#[test]
fn units_equal_compares_all() {
    assert!(units_equal(&[1, 2, 3], &[1, 2, 3]));
    assert!(!units_equal(&[1, 2, 3], &[1, 2, 4]));
    assert!(!units_equal(&[1, 2], &[1, 2, 0]));
    assert!(units_equal(&[], &[]));
}
