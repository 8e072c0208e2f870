use unison::config::UnisonConfigDevice;
use unison::message::StatusMessageDevice;
use unison::status::{build_status, status_error, DeviceError, StatusError};

fn devices() -> Vec<UnisonConfigDevice> {
    vec![
        UnisonConfigDevice { name: "lamp".to_string(), on_threshold_milliamps: 100 },
        UnisonConfigDevice { name: "fan".to_string(), on_threshold_milliamps: 50 },
    ]
}

fn entry(name: &str, milliamps: u32, is_on: bool) -> (String, StatusMessageDevice) {
    (name.to_string(), StatusMessageDevice { milliamps, is_on })
}

#[test]
fn status_of_lamp_and_fan() {
    let m = build_status(&devices(), &vec![Ok(120), Ok(40)]).unwrap();
    assert_eq!(m.devices, vec![entry("lamp", 120, true), entry("fan", 40, false)]);
}

#[test]
fn status_threshold_is_strict() {
    let m = build_status(&devices(), &vec![Ok(100), Ok(51)]).unwrap();
    assert_eq!(m.devices, vec![entry("lamp", 100, false), entry("fan", 51, true)]);
}

#[test]
fn status_omits_channel_without_device() {
    let one = vec![UnisonConfigDevice { name: "lamp".to_string(), on_threshold_milliamps: 10 }];
    let m = build_status(&one, &vec![Ok(5), Ok(500)]).unwrap();
    assert_eq!(m.devices, vec![entry("lamp", 5, false)]);
}

#[test]
fn status_with_no_devices_is_empty() {
    let m = build_status(&Vec::new(), &vec![Ok(5), Ok(500)]).unwrap();
    assert!(m.devices.is_empty());
}

#[test]
fn status_extremes() {
    let m = build_status(&devices(), &vec![Ok(u32::MAX), Ok(0)]).unwrap();
    assert_eq!(m.devices, vec![entry("lamp", u32::MAX, true), entry("fan", 0, false)]);
}

#[test]
fn status_timeout_fails_report() {
    let r = build_status(&devices(), &vec![Ok(120), Err(DeviceError::Timeout("slow".to_string()))]);
    assert_eq!(r, Err(StatusError::Timeout("slow".to_string())));
}

#[test]
fn status_other_error_is_device_error() {
    let r = build_status(&devices(), &vec![Err(DeviceError::Other("bad crc".to_string())), Ok(1)]);
    assert_eq!(r, Err(StatusError::Device(DeviceError::Other("bad crc".to_string()))));
}

#[test]
fn status_first_error_wins() {
    let r = build_status(
        &devices(),
        &vec![
            Err(DeviceError::Other("first".to_string())),
            Err(DeviceError::Timeout("second".to_string())),
        ],
    );
    assert_eq!(r, Err(StatusError::Device(DeviceError::Other("first".to_string()))));
}

#[test]
fn status_error_mapping() {
    assert_eq!(
        status_error(DeviceError::Timeout("t".to_string())),
        StatusError::Timeout("t".to_string())
    );
    let invalid = DeviceError::InvalidButton {
        remote_name: "tv".to_string(),
        button_name: "x".to_string(),
    };
    assert_eq!(status_error(invalid.copied()), StatusError::Device(invalid));
}
