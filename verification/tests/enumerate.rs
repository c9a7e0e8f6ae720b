use std::cell::Cell;

use librtlsdr_rs::device::enumerate::{
    find_device_by_index, get_device_count, get_device_name, get_device_usb_strings,
    get_index_by_serial, list_devices, lookup_serial, Bus, BusDevice, UsbStrings,
};
use librtlsdr_rs::error::{RtlSdrError, UsbError};

#[test]
fn lookup_serial_count_zero_returns_invalid_parameter() {
    let bogus_serial = "nonexistent_serial_for_test_6";
    let lookup_called = Cell::new(false);
    let result = lookup_serial(bogus_serial, 0, |_| {
        lookup_called.set(true);
        Ok((String::new(), String::new(), String::new()))
    });
    assert!(
        !lookup_called.get(),
        "lookup must not be called when count == 0",
    );
    assert!(
        matches!(&result, Err(RtlSdrError::InvalidParameter(msg)) if msg.contains(bogus_serial)),
        "expected InvalidParameter containing serial, got {result:?}",
    );
}

#[test]
fn lookup_serial_finds_match_at_index() {
    let result = lookup_serial("wanted", 3, |i| {
        Ok((
            String::new(),
            String::new(),
            match i {
                0 => "other_a".to_string(),
                1 => "wanted".to_string(),
                _ => "other_b".to_string(),
            },
        ))
    });
    assert_eq!(result.ok(), Some(1));
}

#[test]
fn lookup_serial_no_match_returns_invalid_parameter() {
    let bogus_serial = "wanted";
    let result = lookup_serial(bogus_serial, 2, |_| {
        Ok((String::new(), String::new(), "nope".to_string()))
    });
    assert!(
        matches!(&result, Err(RtlSdrError::InvalidParameter(msg)) if msg.contains(bogus_serial)),
        "expected InvalidParameter containing serial, got {result:?}",
    );
}

#[test]
fn lookup_serial_skips_lookup_errors_and_continues() {
    let result = lookup_serial("wanted", 3, |i| {
        if i == 1 {
            Err(RtlSdrError::Usb(UsbError::Access))
        } else {
            Ok((
                String::new(),
                String::new(),
                if i == 2 {
                    "wanted".to_string()
                } else {
                    "other".to_string()
                },
            ))
        }
    });
    assert_eq!(result.ok(), Some(2));
}

fn dongle(pid: u16, serial: &str) -> BusDevice {
    BusDevice {
        ids: Some((0x0bda, pid)),
        opened: Ok(UsbStrings {
            manufacturer: Some("Realtek".to_string()),
            product: None,
            serial: Some(serial.to_string()),
        }),
    }
}

fn stranger(ids: Option<(u16, u16)>) -> BusDevice {
    BusDevice { ids, opened: Err(UsbError::Access) }
}

fn mixed_bus() -> Bus {
    Bus {
        devices: Ok(vec![
            stranger(Some((0x1d6b, 0x0002))),
            dongle(0x2838, "00000001"),
            stranger(None),
            BusDevice { ids: Some((0x1f4d, 0xd803)), opened: Err(UsbError::Busy) },
            dongle(0x2832, "00000001"),
        ]),
    }
}

#[test]
fn only_dongles_are_counted() {
    assert_eq!(get_device_count(&mixed_bus()), 3);
    assert_eq!(get_device_count(&Bus { devices: Ok(vec![]) }), 0);
    assert_eq!(get_device_count(&Bus { devices: Err(UsbError::NotSupported) }), 0);
}

#[test]
fn names_follow_the_numbers() {
    let bus = mixed_bus();
    assert_eq!(get_device_name(&bus, 0), "Generic RTL2832U OEM");
    assert_eq!(get_device_name(&bus, 1), "PROlectrix DV107669");
    assert_eq!(get_device_name(&bus, 2), "Generic RTL2832U");
    assert_eq!(get_device_name(&bus, 3), "");
    assert_eq!(get_device_name(&Bus { devices: Err(UsbError::Io) }, 0), "");
}

#[test]
fn numbers_lead_to_positions() {
    let bus = mixed_bus();
    assert_eq!(find_device_by_index(&bus, 0), Ok(1));
    assert_eq!(find_device_by_index(&bus, 1), Ok(3));
    assert_eq!(find_device_by_index(&bus, 2), Ok(4));
    assert_eq!(find_device_by_index(&bus, 3), Err(RtlSdrError::DeviceNotFound { index: 3 }));
    assert_eq!(
        find_device_by_index(&Bus { devices: Err(UsbError::Access) }, 0),
        Err(RtlSdrError::Usb(UsbError::Access))
    );
}

#[test]
fn strings_that_cannot_be_read_are_empty() {
    let bus = mixed_bus();
    assert_eq!(
        get_device_usb_strings(&bus, 0),
        Ok(("Realtek".to_string(), String::new(), "00000001".to_string()))
    );
    assert_eq!(get_device_usb_strings(&bus, 1), Err(RtlSdrError::Usb(UsbError::Busy)));
    assert_eq!(
        get_device_usb_strings(&bus, 9),
        Err(RtlSdrError::DeviceNotFound { index: 9 })
    );
}

#[test]
fn list_has_every_dongle_at_its_number() {
    let bus = mixed_bus();
    let list = list_devices(&bus);
    assert_eq!(list.len(), 3);
    for (i, info) in list.iter().enumerate() {
        assert_eq!(info.index as usize, i);
        assert_eq!(info.name, get_device_name(&bus, i as u32));
    }
    assert_eq!(list[0].serial, "00000001");
    assert_eq!(list[1].manufacturer, "");
    assert_eq!(list[1].serial, "");
    assert!(list_devices(&Bus { devices: Err(UsbError::Io) }).is_empty());
}

#[test]
fn serial_number_finds_the_first_dongle() {
    let bus = mixed_bus();
    assert_eq!(get_index_by_serial(&bus, "00000001"), Ok(0));
    assert_eq!(
        get_index_by_serial(&bus, "7"),
        Err(RtlSdrError::InvalidParameter("no device with serial '7'".to_string()))
    );
}
