use std::collections::BTreeMap;

use dfu_buddy::checks::{file_crc, DfuFileChecks, FileSuffix};
use dfu_buddy::device::{Error as DeviceError, Request, UsbError};
use dfu_buddy::info::DeviceInfo;
use dfu_buddy::session::{Action, Event, Notice, Session, Update, UpdateAction};
use dfu_buddy::states::DeviceStateCode;
use dfu_buddy::update::{
    phase_plan, segment_transfer_size, smallest_covering_region, Chunk, Content, DeviceUpdateStep,
    Element, Error, Op, Progress, Target,
};
use dfu_buddy::dfuse::MemorySegment;

const FLASH: &str = "@Internal Flash  /0x08000000/04*016Kg,01*064Kg,07*128Kg";

fn device_info(serial: &str, transfer_size: u16) -> DeviceInfo {
    DeviceInfo {
        vendor_id: 0x0483,
        product_id: 0xdf11,
        device_version: "2.0.0".to_string(),
        manufacturer_string: "STMicroelectronics".to_string(),
        product_string: "DFU in FS Mode".to_string(),
        serial_number_string: serial.to_string(),
        dfu_config_number: 1,
        dfu_interface_number: 0,
        alt_settings: vec![(0, FLASH.to_string())],
        dfu_attributes: 0x0B,
        dfu_detach_timeout: 255,
        dfu_transfer_size: transfer_size,
        dfu_version: 0x011A,
    }
}

fn image(address: u32, data: Vec<u8>) -> Content {
    Content::DfuSe(vec![Target { alt_setting: 0, elements: vec![Element { address, data }] }])
}

/// A simulated DfuSe device with a flat memory.
struct FakeDevice {
    memory: BTreeMap<u32, u8>,
    pointer: u32,
    transfer_size: u32,
    after_download: u8,
    busy_answer: u8,
    busy_forever: bool,
    corrupt_at: Option<u32>,
    fail_wait: bool,
    failed_polls: u32,
    stuck_state: Option<u8>,
    error_status: u32,
    erased: Vec<u32>,
    log: Vec<Request>,
    open: bool,
}

impl FakeDevice {
    fn new(transfer_size: u32) -> Self {
        FakeDevice {
            memory: BTreeMap::new(),
            pointer: 0,
            transfer_size,
            after_download: 0,
            busy_answer: 4,
            busy_forever: false,
            corrupt_at: None,
            fail_wait: false,
            failed_polls: 0,
            stuck_state: None,
            error_status: 0,
            erased: Vec::new(),
            log: Vec::new(),
            open: false,
        }
    }

    fn status(state: u8) -> Event {
        Event::Data(vec![0, 1, 0, 0, state, 0])
    }

    fn answer(&mut self, request: Request) -> Event {
        assert!(self.open, "request on a closed device");
        self.log.push(request.clone());
        match request {
            Request::Abort | Request::ClearStatus | Request::Detach => {
                self.after_download = 0;
                Event::Completed
            }
            Request::GetStatus => match self.after_download {
                1 => {
                    self.after_download = 2;
                    Self::status(self.busy_answer)
                }
                2 if self.fail_wait => {
                    self.failed_polls += 1;
                    Event::Failed(UsbError::Pipe)
                }
                2 => {
                    if !self.busy_forever {
                        self.after_download = 3;
                    }
                    Self::status(if self.busy_forever { 4 } else { 5 })
                }
                3 => Self::status(5),
                _ if self.error_status > 0 => {
                    self.error_status -= 1;
                    Event::Data(vec![0x0A, 0, 0, 0, 10, 0])
                }
                _ => Self::status(self.stuck_state.unwrap_or(2)),
            },
            Request::GetState => Event::Data(vec![2]),
            Request::Download { block_num, data } => {
                if block_num == 0 {
                    let address = u32::from_le_bytes([data[1], data[2], data[3], data[4]]);
                    if data[0] == 0x21 {
                        self.pointer = address;
                    } else if data[0] == 0x41 {
                        self.erased.push(address);
                    }
                } else {
                    let base = self.pointer + (block_num as u32 - 2) * self.transfer_size;
                    for (i, b) in data.iter().enumerate() {
                        self.memory.insert(base + i as u32, *b);
                    }
                }
                self.after_download = 1;
                Event::Completed
            }
            Request::Upload { block_num, length } => {
                let base = self.pointer + (block_num as u32 - 2) * self.transfer_size;
                let mut out = Vec::new();
                for i in 0..length as u32 {
                    let mut b = *self.memory.get(&(base + i)).unwrap_or(&0xFF);
                    if self.corrupt_at == Some(base + i) {
                        b ^= 0x5A;
                    }
                    out.push(b);
                }
                Event::Data(out)
            }
        }
    }

    /// Runs a session to its end and returns its result and the progress it reported.
    fn run(&mut self, session: &mut Session) -> (Result<(), Error>, Vec<Progress>) {
        let mut event = Event::Completed;
        let mut progress = Vec::new();
        for _ in 0..100_000 {
            match session.step(event) {
                Action::Open => {
                    self.open = true;
                    event = Event::Completed;
                }
                Action::Close => {
                    self.open = false;
                    event = Event::Completed;
                }
                Action::Send(r) => event = self.answer(r),
                Action::Sleep(_) => event = Event::Completed,
                Action::Report(p) => {
                    progress.push(p);
                    event = Event::Completed;
                }
                Action::Done(r) => return (r, progress),
            }
        }
        panic!("session did not end");
    }
}

fn value(p: &Progress) -> f64 {
    (p.done as f64 / p.total as f64) * (p.element as f64 / p.elements as f64)
        * (p.target as f64 / p.targets as f64)
}

#[test]
fn erase_progress_rises_to_one() {
    let info = device_info("X", 2048);
    let data = vec![0xAB; 3 * 16384];
    let mut session = Session::new(DeviceUpdateStep::Erase, image(0x0800_0000, data), info);
    let mut dev = FakeDevice::new(2048);
    let (result, progress) = dev.run(&mut session);
    assert_eq!(result, Ok(()));
    assert_eq!(dev.erased, vec![0x0800_0000, 0x0800_4000, 0x0800_8000]);
    assert_eq!(progress.len(), 3);
    let mut last = 0.0;
    for p in &progress {
        let v = value(p);
        assert!(v >= last && v > 0.0 && v <= 1.0);
        last = v;
    }
    assert_eq!(value(progress.last().unwrap()), 1.0);
    assert!(!dev.open);
}

#[test]
fn erase_plan_walks_sectors_of_the_covering_region() {
    let info = device_info("X", 2048);
    let ops = phase_plan(DeviceUpdateStep::Erase, &image(0x0801_0100, vec![0; 0x100]), &info);
    assert_eq!(ops.len(), 2);
    assert_eq!(ops[0], Op::ErasePage(0x0801_0000));
    assert_eq!(
        ops[1],
        Op::Report(Progress { done: 1, total: 1, element: 1, elements: 1, target: 1, targets: 1 })
    );
    let outside = phase_plan(DeviceUpdateStep::Erase, &image(0x0900_0000, vec![0; 4]), &info);
    assert_eq!(outside, vec![Op::Fail(Error::MemoryRegionNotFound(0x0900_0000, 0x0900_0003))]);
}

#[test]
fn program_plan_chunks_and_numbers_blocks() {
    let info = device_info("X", 2048);
    let ops = phase_plan(DeviceUpdateStep::Program, &image(0x0800_0000, vec![1; 5000]), &info);
    assert_eq!(ops[0], Op::SetAddress(0x0800_0000));
    assert_eq!(
        ops[1],
        Op::Write(Chunk { target: 0, element: 0, offset: 0, length: 2048, block_num: 2, address: 0x0800_0000 })
    );
    assert_eq!(
        ops[5],
        Op::Write(Chunk { target: 0, element: 0, offset: 4096, length: 904, block_num: 4, address: 0x0800_1000 })
    );
    assert_eq!(ops.len(), 7);
    assert_eq!(
        ops[6],
        Op::Report(Progress { done: 3, total: 3, element: 1, elements: 1, target: 1, targets: 1 })
    );
}

#[test]
fn plans_fail_on_missing_target_and_plain_images() {
    let info = device_info("X", 2048);
    let content = Content::DfuSe(vec![Target { alt_setting: 3, elements: Vec::new() }]);
    assert_eq!(
        phase_plan(DeviceUpdateStep::Erase, &content, &info),
        vec![Op::Fail(Error::TargetNotFound(3))]
    );
    assert_eq!(
        phase_plan(DeviceUpdateStep::Erase, &Content::Plain, &info),
        vec![Op::Fail(Error::PlainDfuNotSupported)]
    );
    assert_eq!(
        phase_plan(DeviceUpdateStep::Verify, &Content::Plain, &info),
        vec![Op::Fail(Error::PlainDfuNotSupported)]
    );
    let no_transfer = device_info("X", 0);
    assert_eq!(
        phase_plan(DeviceUpdateStep::Program, &image(0x0800_0000, vec![1]), &no_transfer),
        vec![Op::Fail(Error::NoTransferSize(0))]
    );
}

#[test]
fn transfer_size_and_region_choice() {
    let seg = MemorySegment::from_string_desc(FLASH);
    assert_eq!(segment_transfer_size(&seg.regions, 2048), 2048);
    assert_eq!(segment_transfer_size(&seg.regions, 60000), 16384);
    assert_eq!(smallest_covering_region(&seg.regions, 0x0801_0000, 0x0801_0010), Some(1));
    assert_eq!(smallest_covering_region(&seg.regions, 0x0800_FFF0, 0x0801_0010), None);
}

#[test]
fn program_then_verify_round_trip() {
    let info = device_info("X", 1024);
    let data: Vec<u8> = (0..3000u32).map(|i| (i * 7) as u8).collect();
    let mut dev = FakeDevice::new(1024);
    let mut program = Session::new(DeviceUpdateStep::Program, image(0x0800_0000, data.clone()), info.clone());
    let (result, progress) = dev.run(&mut program);
    assert_eq!(result, Ok(()));
    assert_eq!(progress.len(), 3);
    assert_eq!(dev.memory.len(), 3000);
    assert_eq!(dev.memory[&(0x0800_0000 + 2999)], data[2999]);
    let mut verify = Session::new(DeviceUpdateStep::Verify, image(0x0800_0000, data), info);
    let (result, _) = dev.run(&mut verify);
    assert_eq!(result, Ok(()));
}

#[test]
fn verify_reports_first_mismatching_address() {
    let info = device_info("X", 1024);
    let data = vec![0x11u8; 4096];
    let mut dev = FakeDevice::new(1024);
    for i in 0..4096u32 {
        dev.memory.insert(0x0800_0000 + i, 0x11);
    }
    let k = 1500u32;
    dev.corrupt_at = Some(0x0800_0000 + k);
    let mut verify = Session::new(DeviceUpdateStep::Verify, image(0x0800_0000, data), info);
    let (result, _) = dev.run(&mut verify);
    assert_eq!(result, Err(Error::VerificationFailed(0x0800_0000 + k)));
    let uploads: Vec<u16> = dev
        .log
        .iter()
        .filter_map(|r| match r {
            Request::Upload { block_num, .. } => Some(*block_num),
            _ => None,
        })
        .collect();
    assert_eq!(uploads, vec![2, 3]);
    assert!(matches!(dev.log.last(), Some(Request::Upload { .. })));
    assert!(!dev.open);
}

#[test]
fn set_address_without_busy_state_fails() {
    let info = device_info("X", 1024);
    let mut dev = FakeDevice::new(1024);
    dev.busy_answer = 2;
    let mut program = Session::new(DeviceUpdateStep::Program, image(0x0800_0000, vec![1; 10]), info);
    let (result, _) = dev.run(&mut program);
    assert_eq!(
        result,
        Err(Error::Device(DeviceError::InvalidDeviceState(DeviceStateCode::dfuIDLE)))
    );
    let n = dev.log.len();
    assert_eq!(dev.log[n - 1], Request::GetStatus);
    assert!(matches!(&dev.log[n - 2], Request::Download { block_num: 0, data } if data[0] == 0x21));
}

#[test]
fn erase_workaround_recovers_only_the_faulty_unit() {
    let data = vec![0u8; 16];
    let mut dev = FakeDevice::new(1024);
    dev.busy_forever = true;
    let mut faulty = Session::new(DeviceUpdateStep::Erase, image(0x0800_0000, data.clone()), device_info("200364500000", 1024));
    let (result, _) = dev.run(&mut faulty);
    assert_eq!(result, Ok(()));
    let clears = dev.log.iter().filter(|r| **r == Request::ClearStatus).count();
    assert_eq!(clears, 2);

    let mut dev = FakeDevice::new(1024);
    dev.busy_forever = true;
    let mut other = Session::new(DeviceUpdateStep::Erase, image(0x0800_0000, data), device_info("200364500001", 1024));
    let (result, _) = dev.run(&mut other);
    assert_eq!(
        result,
        Err(Error::Device(DeviceError::InvalidDeviceState(DeviceStateCode::dfuDNBUSY)))
    );
}

#[test]
fn status_poll_gives_up_after_retries() {
    let info = device_info("X", 1024);
    let mut dev = FakeDevice::new(1024);
    dev.fail_wait = true;
    let mut session = Session::new(DeviceUpdateStep::Program, image(0x0800_0000, vec![1; 4]), info);
    let (result, _) = dev.run(&mut session);
    assert_eq!(result, Err(Error::Device(DeviceError::TooManyGetStatusRetries)));
    assert_eq!(dev.failed_polls, 6);
}

#[test]
fn open_failure_ends_phase_without_requests() {
    let info = device_info("X", 1024);
    let mut session = Session::new(DeviceUpdateStep::Erase, image(0x0800_0000, vec![1]), info);
    assert!(matches!(session.step(Event::Completed), Action::Open));
    match session.step(Event::Failed(UsbError::NoDevice)) {
        Action::Done(r) => assert_eq!(r, Err(Error::Usb(UsbError::NoDevice))),
        _ => panic!("expected the phase to end"),
    }
}

#[test]
fn full_update_runs_three_phases_in_order() {
    let info = device_info("X", 1024);
    let data: Vec<u8> = (0..2500u32).map(|i| i as u8).collect();
    let mut update = Update::new(image(0x0800_0000, data), info);
    let mut dev = FakeDevice::new(1024);
    let mut notices = Vec::new();
    let mut event = Event::Completed;
    let result = loop {
        match update.step(event) {
            UpdateAction::Device(Action::Open) => {
                dev.open = true;
                event = Event::Completed;
            }
            UpdateAction::Device(Action::Close) => {
                dev.open = false;
                event = Event::Completed;
            }
            UpdateAction::Device(Action::Send(r)) => event = dev.answer(r),
            UpdateAction::Device(_) => event = Event::Completed,
            UpdateAction::Notify(n) => {
                notices.push(n);
                event = Event::Completed;
            }
            UpdateAction::Stop(r) => break r,
        }
    };
    assert_eq!(result, Ok(()));
    let steps: Vec<Notice> = notices.iter().filter(|n| !matches!(n, Notice::Progress(..))).cloned().collect();
    assert_eq!(
        steps,
        vec![
            Notice::Started,
            Notice::Step(DeviceUpdateStep::Erase),
            Notice::Step(DeviceUpdateStep::Program),
            Notice::Step(DeviceUpdateStep::Verify),
            Notice::Finished
        ]
    );
}

#[test]
fn file_checks() {
    let info = device_info("X", 1024);
    let mut checks = DfuFileChecks::new();
    checks.check_crc(Some(0x1234), 0x1234);
    assert!(checks.crc_checked && checks.crc_valid);
    let suffix = FileSuffix { device_version: 0, product_id: 0xFFFF, vendor_id: 0x0483, dfu_version: 0x011A, crc: 0x1234 };
    checks.match_device(&suffix, &image(0x0800_0000, vec![1]), &info);
    assert!(checks.dfu_version_valid && checks.vendor_id_accepted && checks.product_id_accepted && checks.targets_valid);
    assert!(checks.preflight(true, true));
    assert!(!checks.preflight(false, true));
    let other = Content::DfuSe(vec![Target { alt_setting: 1, elements: Vec::new() }]);
    checks.match_device(&FileSuffix { vendor_id: 0x1111, ..suffix }, &other, &info);
    assert!(!checks.vendor_id_accepted && !checks.targets_valid);
    checks.check_crc(None, 5);
    assert!(!checks.crc_checked && !checks.crc_valid);
}

#[test]
fn file_crc_covers_all_but_the_stored_crc() {
    let mut file = b"123456789".to_vec();
    file.extend_from_slice(&[0xD9, 0xC6, 0x0B, 0x34]);
    assert_eq!(file_crc(&file), Some(0x340B_C6D9));
    assert_eq!(file_crc(&vec![1, 2, 3]), None);
    let mut checks = DfuFileChecks::new();
    checks.check_file_crc(&file, 0x340B_C6D9);
    assert!(checks.crc_checked && checks.crc_valid);
    checks.check_file_crc(&file, 0x340B_C6D8);
    assert!(checks.crc_checked && !checks.crc_valid);
}

#[test]
fn command_waits_for_idle_a_bounded_number_of_times() {
    let info = device_info("X", 1024);
    let mut dev = FakeDevice::new(1024);
    dev.stuck_state = Some(9);
    let mut session = Session::new(DeviceUpdateStep::Program, image(0x0800_0000, vec![1; 4]), info);
    let (result, _) = dev.run(&mut session);
    assert_eq!(
        result,
        Err(Error::Device(DeviceError::InvalidDeviceState(DeviceStateCode::dfuUPLOAD_IDLE)))
    );
    assert!(!dev.log.iter().any(|r| matches!(r, Request::Download { .. })));
}

#[test]
fn error_status_is_cleared_before_the_phase() {
    let info = device_info("X", 1024);
    let mut dev = FakeDevice::new(1024);
    dev.error_status = 2;
    let mut session = Session::new(DeviceUpdateStep::Erase, image(0x0800_0000, vec![1; 4]), info);
    let (result, _) = dev.run(&mut session);
    assert_eq!(result, Ok(()));
    assert_eq!(dev.log[0], Request::Abort);
    assert_eq!(dev.log[1], Request::GetStatus);
    assert_eq!(dev.log[2], Request::ClearStatus);
    assert_eq!(dev.log[3], Request::GetStatus);
    assert_eq!(dev.log[4], Request::ClearStatus);
    assert_eq!(dev.log[5], Request::GetStatus);
    assert_eq!(dev.log[6], Request::Abort);
}

#[test]
fn erase_of_an_element_filling_its_region_to_the_last_byte() {
    let info = device_info("X", 2048);
    let ops = phase_plan(DeviceUpdateStep::Erase, &image(0x0800_0000, vec![0; 0x1_0000]), &info);
    let pages: Vec<u32> = ops
        .iter()
        .filter_map(|op| match op {
            Op::ErasePage(a) => Some(*a),
            _ => None,
        })
        .collect();
    assert_eq!(pages, vec![0x0800_0000, 0x0800_4000, 0x0800_8000, 0x0800_C000]);
    let single = phase_plan(DeviceUpdateStep::Erase, &image(0x0800_0000, vec![0; 0x4000]), &info);
    assert_eq!(single[0], Op::ErasePage(0x0800_0000));
    assert_eq!(single.len(), 2);
    let empty = phase_plan(DeviceUpdateStep::Erase, &image(0x0800_0000, Vec::new()), &info);
    assert!(empty.is_empty());
}

#[test]
fn full_update_stops_at_the_first_failing_phase() {
    let info = device_info("X", 1024);
    let mut update = Update::new(image(0x0800_0000, vec![0x22; 1500]), info);
    let mut dev = FakeDevice::new(1024);
    dev.corrupt_at = Some(0x0800_0005);
    let mut notices = Vec::new();
    let mut event = Event::Completed;
    let mut uploads = 0;
    let result = loop {
        match update.step(event) {
            UpdateAction::Device(Action::Open) => {
                dev.open = true;
                event = Event::Completed;
            }
            UpdateAction::Device(Action::Close) => {
                dev.open = false;
                event = Event::Completed;
            }
            UpdateAction::Device(Action::Send(r)) => {
                if matches!(r, Request::Upload { .. }) {
                    uploads += 1;
                }
                event = dev.answer(r)
            }
            UpdateAction::Device(_) => event = Event::Completed,
            UpdateAction::Notify(n) => {
                notices.push(n);
                event = Event::Completed;
            }
            UpdateAction::Stop(r) => break r,
        }
    };
    assert_eq!(result, Err(Error::VerificationFailed(0x0800_0005)));
    assert_eq!(uploads, 1);
    assert_eq!(notices.last(), Some(&Notice::Failed(Error::VerificationFailed(0x0800_0005))));
    assert!(!dev.open);
}
