use fishify::device::{connect_target, connected, device_get, device_list, device_status, Device};
use fishify::error::OperationError;

fn device(id: Option<&str>, name: &str) -> Device {
    Device {
        id: id.map(|s| s.to_string()),
        name: name.to_string(),
        device_type: "Computer".to_string(),
        is_active: false,
        volume_percent: None,
    }
}

#[test]
fn no_devices_and_no_name_fails() {
    assert_eq!(device_get(vec![], None), Err(OperationError::NoDevicesFound));
}

#[test]
fn unknown_name_fails() {
    let devices = vec![device(Some("1"), "Kitchen"), device(Some("2"), "x")];
    assert_eq!(device_get(devices, Some("X".to_string())), Err(OperationError::DeviceNotFound));
    assert_eq!(device_get(vec![], Some("X".to_string())), Err(OperationError::DeviceNotFound));
}

#[test]
fn first_device_when_no_name() {
    let devices = vec![device(Some("1"), "Kitchen"), device(Some("2"), "Office")];
    assert_eq!(device_get(devices, None), Ok(device(Some("1"), "Kitchen")));
}

#[test]
fn first_exact_name_match() {
    let devices = vec![
        device(Some("1"), "Kitchen"),
        device(Some("2"), "Office"),
        device(Some("3"), "Office"),
    ];
    assert_eq!(device_get(devices, Some("Office".to_string())), Ok(device(Some("2"), "Office")));
}

#[test]
fn connect_needs_a_device_id() {
    let devices = vec![device(None, "Car"), device(Some("2"), "Office")];
    assert_eq!(connect_target(devices.clone(), None), Err(OperationError::MissingDeviceId));
    assert_eq!(
        connect_target(devices, Some("Office".to_string())),
        Ok(("2".to_string(), "Office".to_string()))
    );
    let r = connected("Office");
    assert_eq!(r.lines, vec!["Connected to Office".to_string()]);
    assert!(!r.verbose);
}

#[test]
fn device_listing() {
    let r = device_list(&vec![device(Some("1"), "Kitchen"), device(None, "Car")]);
    assert_eq!(
        r.lines,
        vec!["Computer Kitchen \u{2014} 1".to_string(), "Computer Car \u{2014} None".to_string()]
    );
    assert!(r.verbose);
    assert!(device_list(&vec![]).lines.is_empty());
}

#[test]
fn device_status_lines() {
    let mut d = device(None, "Car");
    d.is_active = true;
    let r = device_status(Some(d)).unwrap();
    assert_eq!(
        r.lines,
        vec![
            "Device: Car".to_string(),
            "Id: None".to_string(),
            "Active: true".to_string(),
            "Type: Computer".to_string(),
        ]
    );
    assert_eq!(device_status(None), Err(OperationError::NoActivePlayback));
}
