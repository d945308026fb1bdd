use dfu_buddy::dfuse::{
    erase_page_request, is_stm32h7, set_address_request, stm32h7_erase_workaround, MemorySegment,
};
use dfu_buddy::device::{Error, Request};
use dfu_buddy::info::DeviceInfo;
use dfu_buddy::states::DeviceStateCode;

#[test]
fn parses_flash_descriptor() {
    let seg = MemorySegment::from_string_desc("@Flash/0x08000000/4*016Kg,1*064Kg,7*128Kg");
    assert_eq!(seg.name, "Flash");
    assert_eq!(seg.regions.len(), 3);
    let starts = [0x0800_0000u32, 0x0801_0000, 0x0802_0000];
    let sizes = [16384u32, 65536, 131072];
    let counts = [4u32, 1, 7];
    for i in 0..3 {
        let r = &seg.regions[i];
        assert_eq!(r.start_address, starts[i]);
        assert_eq!(r.sector_size, sizes[i]);
        assert_eq!(r.sector_count, counts[i]);
        assert_eq!(r.end_address, r.start_address + r.sector_count * r.sector_size - 1);
        assert!(r.readable && r.writable && r.erasable);
    }
}

#[test]
fn parses_several_address_groups_and_types() {
    let seg = MemorySegment::from_string_desc(
        "@Option Bytes  /0x1FFFC000/01*016 e/0x1FFEC000/01*016 a,02*1Md",
    );
    assert_eq!(seg.name, "Option Bytes");
    assert_eq!(seg.regions.len(), 3);
    assert_eq!(seg.regions[0].start_address, 0x1FFF_C000);
    assert_eq!(seg.regions[0].sector_size, 16);
    assert!(seg.regions[0].readable && seg.regions[0].writable && !seg.regions[0].erasable);
    assert_eq!(seg.regions[1].start_address, 0x1FFE_C000);
    assert!(seg.regions[1].readable && !seg.regions[1].writable);
    assert_eq!(seg.regions[2].start_address, 0x1FFE_C010);
    assert_eq!(seg.regions[2].sector_size, 1024 * 1024);
    assert_eq!(seg.regions[2].sector_count, 2);
    assert!(!seg.regions[2].readable && seg.regions[2].writable);
}

#[test]
fn malformed_numbers_read_as_zero() {
    let seg = MemorySegment::from_string_desc("@X/zz/3*99999999999Kb");
    assert_eq!(seg.regions.len(), 1);
    assert_eq!(seg.regions[0].start_address, 0);
    assert_eq!(seg.regions[0].sector_size, 0);
    assert_eq!(seg.regions[0].sector_count, 3);
    assert!(seg.regions[0].erasable && !seg.regions[0].readable);
    let empty = MemorySegment::from_string_desc("");
    assert_eq!(empty.name, "");
    assert!(empty.regions.is_empty());
}

#[test]
fn command_payloads() {
    match set_address_request(0x0801_0203) {
        Request::Download { block_num, data } => {
            assert_eq!(block_num, 0);
            assert_eq!(data, vec![0x21, 0x03, 0x02, 0x01, 0x08]);
        }
        _ => panic!("not a download"),
    }
    match erase_page_request(0x0800_4000) {
        Request::Download { block_num, data } => {
            assert_eq!(block_num, 0);
            assert_eq!(data, vec![0x41, 0x00, 0x40, 0x00, 0x08]);
        }
        _ => panic!("not a download"),
    }
}

fn info(vendor_id: u16, product_id: u16, serial: &str) -> DeviceInfo {
    DeviceInfo {
        vendor_id,
        product_id,
        device_version: String::new(),
        manufacturer_string: String::new(),
        product_string: String::new(),
        serial_number_string: serial.to_string(),
        dfu_config_number: 1,
        dfu_interface_number: 0,
        alt_settings: Vec::new(),
        dfu_attributes: 0,
        dfu_detach_timeout: 0,
        dfu_transfer_size: 0,
        dfu_version: 0,
    }
}

#[test]
fn erase_workaround_only_for_the_faulty_unit() {
    let busy = Error::InvalidDeviceState(DeviceStateCode::dfuDNBUSY);
    assert!(is_stm32h7(&info(0x0483, 0xdf11, "200364500000")));
    assert!(stm32h7_erase_workaround(&info(0x0483, 0xdf11, "200364500000"), busy));
    assert!(!stm32h7_erase_workaround(&info(0x0484, 0xdf11, "200364500000"), busy));
    assert!(!stm32h7_erase_workaround(&info(0x0483, 0xdf12, "200364500000"), busy));
    assert!(!stm32h7_erase_workaround(&info(0x0483, 0xdf11, "200364500001"), busy));
    assert!(!stm32h7_erase_workaround(
        &info(0x0483, 0xdf11, "200364500000"),
        Error::InvalidDeviceState(DeviceStateCode::dfuERROR)
    ));
    assert!(!stm32h7_erase_workaround(&info(0x0483, 0xdf11, "200364500000"), Error::TooManyGetStatusRetries));
}
