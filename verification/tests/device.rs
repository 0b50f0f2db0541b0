use bard_pad::device::{is_target, Button, Device, DEVICE_PATH, PID, VID};

#[test]
fn fresh_device_reads_no_press() {
    let device = Device::new();
    assert!(!device.is_pressed(Button::A));
    assert!(!device.is_pressed(Button::B));
}

#[test]
fn device_reports_the_rising_edge_only() {
    let mut device = Device::new();
    let mut report = [0u8; 256];
    report[8] = 128;
    device.read(Some(&report[..]));
    assert!(device.is_pressed(Button::A));
    assert!(!device.is_pressed(Button::B));
    device.read(Some(&report[..]));
    assert!(!device.is_pressed(Button::A));
    report[8] = 128 | 32;
    device.read(Some(&report[..]));
    assert!(!device.is_pressed(Button::A));
    assert!(device.is_pressed(Button::B));
}

#[test]
fn device_failed_read_flips_the_pair() {
    let mut device = Device::new();
    let mut report = [0u8; 256];
    report[9] = 1;
    device.read(Some(&report[..]));
    assert!(device.is_pressed(Button::UP));
    device.read(None);
    assert!(!device.is_pressed(Button::UP));
    device.read(None);
    assert!(device.is_pressed(Button::UP));
}

#[test]
fn device_identity_constants() {
    assert_eq!(VID, 10462);
    assert_eq!(PID, 4613);
    assert_eq!(DEVICE_PATH, "/dev/hidraw3");
}

#[test]
fn target_is_named_by_vendor_product_and_path() {
    assert!(is_target(10462, 4613, "/dev/hidraw3"));
    assert!(!is_target(10461, 4613, "/dev/hidraw3"));
    assert!(!is_target(10462, 4614, "/dev/hidraw3"));
    assert!(!is_target(4613, 10462, "/dev/hidraw3"));
    assert!(!is_target(10462, 4613, "/dev/hidraw2"));
    assert!(!is_target(10462, 4613, "/dev/hidraw30"));
    assert!(!is_target(10462, 4613, "/dev/hidraw"));
    assert!(!is_target(10462, 4613, "/DEV/HIDRAW3"));
    assert!(!is_target(10462, 4613, ""));
    assert!(!is_target(10462, 4613, "/dev/hidraw\u{b3}"));
    assert!(!is_target(0, 0, ""));
}
