use dfu_buddy::device::{
    DeviceStatusResponse, DfuFunctionalDescriptor, Error, Request, UsbError, REQUEST_TYPE_IN,
    REQUEST_TYPE_OUT,
};
use dfu_buddy::device::{dfu_interface, found_devices, ConfigSummary, DfuDevice, InterfaceSummary};
use dfu_buddy::info::DeviceInfo;
use dfu_buddy::states::{DeviceStateCode, DeviceStatusCode};

fn info(vendor_id: u16, product_id: u16, serial: &str) -> DeviceInfo {
    DeviceInfo {
        vendor_id,
        product_id,
        device_version: "2.0.0".to_string(),
        manufacturer_string: "STMicroelectronics".to_string(),
        product_string: "DFU in FS Mode".to_string(),
        serial_number_string: serial.to_string(),
        dfu_config_number: 1,
        dfu_interface_number: 0,
        alt_settings: vec![(0, "@Internal Flash  /0x08000000/04*016Kg".to_string())],
        dfu_attributes: 0x0B,
        dfu_detach_timeout: 255,
        dfu_transfer_size: 2048,
        dfu_version: 0x011A,
    }
}

#[test]
fn status_codes_round_trip() {
    for b in 0u8..0x10 {
        let code = DeviceStatusCode::from_byte(b).unwrap();
        assert_eq!(code.as_byte(), b);
    }
    for b in 0x10u8..=0xFF {
        assert_eq!(DeviceStatusCode::from_byte(b), Err(Error::InvalidStatusCode));
    }
    assert_eq!(DeviceStatusCode::from_byte(0x0E), Ok(DeviceStatusCode::errUNKNOWN));
}

#[test]
fn state_codes_round_trip() {
    for b in 0u8..=10 {
        let code = DeviceStateCode::from_byte(b).unwrap();
        assert_eq!(code.as_byte(), b);
    }
    for b in 11u8..=0xFF {
        assert_eq!(DeviceStateCode::from_byte(b), Err(Error::InvalidStateCode));
    }
    assert_eq!(DeviceStateCode::from_byte(4), Ok(DeviceStateCode::dfuDNBUSY));
}

#[test]
fn status_response_decodes_six_bytes() {
    let r = DeviceStatusResponse::from_bytes(&[0x00, 0x10, 0x27, 0x01, 0x05, 0x03]);
    assert_eq!(r.bStatus, DeviceStatusCode::OK);
    assert_eq!(r.bwPollTimeout, 0x012710);
    assert_eq!(r.bState, DeviceStateCode::dfuDNLOAD_IDLE);
    assert_eq!(r.iString, 3);
}

#[test]
fn status_response_maps_unknown_codes_to_sentinels() {
    let r = DeviceStatusResponse::from_bytes(&[0x42, 0, 0, 0, 0x63, 0]);
    assert_eq!(r.bStatus, DeviceStatusCode::errUNKNOWN);
    assert_eq!(r.bState, DeviceStateCode::dfuERROR);
    let short = DeviceStatusResponse::from_reply(&vec![0x00, 0x05]);
    assert_eq!(short.bwPollTimeout, 5);
    assert_eq!(short.bState, DeviceStateCode::appIDLE);
}

#[test]
fn functional_descriptor_decodes_little_endian_fields() {
    let d = DfuFunctionalDescriptor::from_bytes(&[9, 0x21, 0x0B, 0xFF, 0x00, 0x00, 0x08, 0x1A, 0x01]);
    assert_eq!(d.bLength, 9);
    assert_eq!(d.bDescriptorType, 0x21);
    assert_eq!(d.bmAttributes, 0x0B);
    assert_eq!(d.wDetachTimeOut, 255);
    assert_eq!(d.wTransferSize, 2048);
    assert_eq!(d.bcdDFUVersion, 0x011A);
}

#[test]
fn request_setup_fields() {
    let s = Request::GetStatus.setup();
    assert_eq!((s.request_type, s.request, s.value, s.index), (REQUEST_TYPE_IN, 3, 0, 0));
    let s = Request::Download { block_num: 7, data: vec![1, 2] }.setup();
    assert_eq!((s.request_type, s.request, s.value), (REQUEST_TYPE_OUT, 1, 7));
    let s = Request::Upload { block_num: 9, length: 64 }.setup();
    assert_eq!((s.request_type, s.request, s.value), (0xA1, 2, 9));
    assert_eq!(Request::Abort.setup().request, 6);
    assert_eq!(Request::ClearStatus.setup().request, 4);
    assert_eq!(Request::Detach.setup().request, 0);
    assert_eq!(Request::GetState.setup().request, 5);
    assert_eq!(Request::GetState.read_length(), 1);
    assert_eq!(Request::GetStatus.read_length(), 6);
    assert!(!Request::Abort.reads());
}

#[test]
fn identity_depends_on_vendor_product_and_serial() {
    let a = DfuDevice::new(info(0x0483, 0xdf11, "A1"));
    let b = DfuDevice::new(info(0x0483, 0xdf11, "A1"));
    let c = DfuDevice::new(info(0x0483, 0xdf11, "A2"));
    let d = DfuDevice::new(info(0x0484, 0xdf11, "A1"));
    assert_eq!(a.id, b.id);
    assert_ne!(a.id, c.id);
    assert_ne!(a.id, d.id);
}

#[test]
fn find_by_id_distinguishes_not_found_from_scan_failure() {
    let a = DfuDevice::new(info(0x0483, 0xdf11, "A1"));
    let b = DfuDevice::new(info(0x0483, 0xdf11, "B2"));
    let id_b = b.id;
    let missing = a.id ^ b.id ^ 1;
    let found = DfuDevice::find_by_id(Ok(Some(vec![a, b])), id_b).unwrap().unwrap();
    assert_eq!(found.info.serial_number_string, "B2");
    let a = DfuDevice::new(info(0x0483, 0xdf11, "A1"));
    assert!(DfuDevice::find_by_id(Ok(Some(vec![a])), missing).unwrap().is_none());
    assert!(DfuDevice::find_by_id(Ok(None), missing).unwrap().is_none());
    assert_eq!(DfuDevice::find_by_id(Err(UsbError::Access), missing).err(), Some(UsbError::Access));
    assert!(found_devices(Vec::new()).is_none());
    let x = DfuDevice::new(info(0x0483, 0xdf11, "X"));
    let y = DfuDevice::new(info(0x0483, 0xdf11, "Y"));
    let id_y = y.id;
    let list = vec![x, y];
    assert_eq!(DfuDevice::position_by_id(&list, id_y), Some(1));
    assert_eq!(DfuDevice::position_by_id(&list, missing), None);
}

fn iface(number: u8, setting: u8, class: u8, sub: u8, name: Option<&str>, extra: Option<Vec<u8>>) -> InterfaceSummary {
    InterfaceSummary {
        interface_number: number,
        setting_number: setting,
        class_code: class,
        sub_class_code: sub,
        name: name.map(|n| n.to_string()),
        extra,
    }
}

#[test]
fn dfu_interface_skips_runtime_interfaces_unless_asked() {
    let configs = vec![ConfigSummary {
        number: 1,
        interfaces: vec![iface(0, 0, 0x03, 0x00, None, None), iface(2, 0, 0xFE, 0x01, None, None)],
    }];
    assert_eq!(dfu_interface(&configs, false), None);
    assert_eq!(dfu_interface(&configs, true), Some((1, 2)));
    let dfu_mode = vec![ConfigSummary { number: 1, interfaces: vec![iface(0, 0, 0xFE, 0x01, None, None)] }];
    assert_eq!(dfu_interface(&dfu_mode, false), Some((1, 0)));
}

#[test]
fn device_info_collects_alt_settings_and_functional_descriptor() {
    let fd = vec![9, 0x21, 0x0B, 0xFF, 0x00, 0x00, 0x08, 0x1A, 0x01];
    let configs = vec![ConfigSummary {
        number: 1,
        interfaces: vec![
            iface(0, 0, 0xFE, 0x01, Some("@Internal Flash  /0x08000000/04*016Kg"), Some(fd.clone())),
            iface(0, 1, 0xFE, 0x01, None, None),
            iface(1, 0, 0x03, 0x00, Some("other"), None),
        ],
    }];
    let info = DeviceInfo::from_descriptors(
        0x0483,
        0xdf11,
        "2.0.0".to_string(),
        Some("ST".to_string()),
        None,
        Some("123".to_string()),
        &configs,
        1,
        0,
    )
    .unwrap();
    assert_eq!(info.alt_settings.len(), 2);
    assert_eq!(info.alt_settings[0], (0, "@Internal Flash  /0x08000000/04*016Kg".to_string()));
    assert_eq!(info.alt_settings[1], (1, "(unnamed)".to_string()));
    assert_eq!(info.dfu_transfer_size, 2048);
    assert_eq!(info.dfu_version, 0x011A);
    assert_eq!(info.dfu_detach_timeout, 255);
    assert_eq!(info.dfu_attributes, 0x0B);
    assert_eq!(info.product_string, "");
    assert_eq!(info.serial_number_string, "123");

    let bad = vec![ConfigSummary { number: 1, interfaces: vec![iface(0, 0, 0xFE, 0x01, None, Some(vec![7, 0x21]))] }];
    let r = DeviceInfo::from_descriptors(1, 2, String::new(), None, None, None, &bad, 1, 0);
    assert_eq!(r.err(), Some(Error::NoDfuFunctionalDescriptor));
}
