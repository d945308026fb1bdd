//! The DFU device: its class requests, the responses it sends back, its
//! functional descriptor, and how a DFU interface is recognised among a
//! device's descriptors.
//!
//! The library never touches the bus itself: a request is described by a
//! `Request`, and whoever owns the USB handle carries it out and hands the
//! reply back.

use vstd::prelude::*;
use std::collections::hash_map::DefaultHasher;
use std::hash::Hasher;
use vstd::std_specs::hash::DefaultHasherAdditionalSpecFns;
use vstd::utf8::encode_utf8;

use crate::info::DeviceInfo;
use crate::states::{
    DeviceStateCode, DeviceStatusCode, state_from_byte, status_from_byte,
};

verus! {

/// USB interface class of application-specific interfaces.
pub const INTERFACE_CLASS_APPLICATION: u8 = 0xFE;

/// USB interface subclass of Device Firmware Upgrade interfaces.
pub const INTERFACE_SUBCLASS_DFU: u8 = 0x01;

/// Timeout of a single control transfer, in milliseconds.
pub const TRANSFER_TIMEOUT_MS: u64 = 5000;

/// `bmRequestType` of the host-to-device class requests.
pub const REQUEST_TYPE_OUT: u8 = 0b00100001;

/// `bmRequestType` of the device-to-host class requests.
pub const REQUEST_TYPE_IN: u8 = 0b10100001;

/// Length of a DFU_GETSTATUS response.
pub const STATUS_RESPONSE_LENGTH: usize = 6;

/// Length of the DFU functional descriptor.
pub const FUNCTIONAL_DESCRIPTOR_LENGTH: usize = 9;

/// Descriptor type of the DFU functional descriptor.
pub const FUNCTIONAL_DESCRIPTOR_TYPE: u8 = 0x21;

/// Errors of the DFU device layer.
#[derive(Debug, Clone, Copy, PartialEq, Eq, Structural)]
pub enum Error {
    /// No device handle available, device not opened.
    NoDeviceHandle,
    /// DFU functional descriptor not found.
    NoDfuFunctionalDescriptor,
    /// Status code byte does not have a valid value.
    InvalidStatusCode,
    /// State code byte does not have a valid value.
    InvalidStateCode,
    /// The device reported a state that the operation does not allow.
    InvalidDeviceState(DeviceStateCode),
    /// Polling the status failed after retries.
    TooManyGetStatusRetries,
}

/// A failure of the USB transport underneath the DFU protocol.
#[derive(Debug, Clone, Copy, PartialEq, Eq, Structural)]
pub enum UsbError {
    /// Input/output error.
    Io,
    /// Invalid parameter.
    InvalidParam,
    /// Access denied (insufficient permissions).
    Access,
    /// No such device (it may have been disconnected).
    NoDevice,
    /// Entity not found.
    NotFound,
    /// Resource busy.
    Busy,
    /// Operation timed out.
    Timeout,
    /// Overflow.
    Overflow,
    /// Pipe error (the request was stalled).
    Pipe,
    /// System call interrupted.
    Interrupted,
    /// Insufficient memory.
    NoMem,
    /// Operation not supported on this platform.
    NotSupported,
    /// The device returned a malformed descriptor.
    BadDescriptor,
    /// Other error.
    Other,
}

/// Little-endian value of two bytes.
pub open spec fn le16(lo: u8, hi: u8) -> int {
    lo as int + 256 * (hi as int)
}

/// Little-endian value of three bytes.
pub open spec fn le24(b0: u8, b1: u8, b2: u8) -> int {
    b0 as int + 256 * (b1 as int) + 65536 * (b2 as int)
}

/// DFU functional descriptor (DFU 1.1, table 4.2).
#[allow(non_snake_case)]
#[derive(Debug, Clone, Copy, PartialEq, Eq, Structural)]
pub struct DfuFunctionalDescriptor {
    /// Size of this descriptor, in bytes.
    pub bLength: u8,
    /// DFU FUNCTIONAL descriptor type.
    pub bDescriptorType: u8,
    /// DFU attributes.
    pub bmAttributes: u8,
    /// Time, in milliseconds, that the device waits after a DFU_DETACH request.
    pub wDetachTimeOut: u16,
    /// Maximum number of bytes that the device accepts per control-write transaction.
    pub wTransferSize: u16,
    /// Version of the DFU specification release, in BCD.
    pub bcdDFUVersion: u16,
}

impl DfuFunctionalDescriptor {
    /// Decodes a descriptor from its first nine bytes.
    pub fn from_bytes(buffer: &[u8]) -> (r: Self)
        requires
            buffer@.len() >= FUNCTIONAL_DESCRIPTOR_LENGTH,
        ensures
            r.bLength == buffer@[0],
            r.bDescriptorType == buffer@[1],
            r.bmAttributes == buffer@[2],
            r.wDetachTimeOut == le16(buffer@[3], buffer@[4]),
            r.wTransferSize == le16(buffer@[5], buffer@[6]),
            r.bcdDFUVersion == le16(buffer@[7], buffer@[8]),
    {
        Self {
            bLength: buffer[0],
            bDescriptorType: buffer[1],
            bmAttributes: buffer[2],
            wDetachTimeOut: buffer[3] as u16 + (buffer[4] as u16) * 256,
            wTransferSize: buffer[5] as u16 + (buffer[6] as u16) * 256,
            bcdDFUVersion: buffer[7] as u16 + (buffer[8] as u16) * 256,
        }
    }
}

/// Response to a DFU_GETSTATUS request.
#[allow(non_snake_case)]
#[derive(Debug, Clone, Copy, PartialEq, Eq, Structural)]
pub struct DeviceStatusResponse {
    /// Status resulting from the execution of the most recent request.
    pub bStatus: DeviceStatusCode,
    /// Minimum time, in milliseconds, that the host waits before the next
    /// DFU_GETSTATUS request.
    pub bwPollTimeout: u32,
    /// State that the device enters right after sending this response.
    pub bState: DeviceStateCode,
    /// Index of the status description in the string table.
    pub iString: u8,
}

/// The status that a status byte reports: an unknown byte reads as `errUNKNOWN`.
pub open spec fn status_or_unknown(b: u8) -> DeviceStatusCode {
    match status_from_byte(b) {
        Some(c) => c,
        None => DeviceStatusCode::errUNKNOWN,
    }
}

/// The state that a state byte reports: an unknown byte reads as `dfuERROR`.
pub open spec fn state_or_error(b: u8) -> DeviceStateCode {
    match state_from_byte(b) {
        Some(c) => c,
        None => DeviceStateCode::dfuERROR,
    }
}

/// The status response that six bytes on the wire describe.
pub open spec fn status_response_of(b: Seq<u8>) -> DeviceStatusResponse
    recommends
        b.len() >= 6,
{
    DeviceStatusResponse {
        bStatus: status_or_unknown(b[0]),
        bwPollTimeout: le24(b[1], b[2], b[3]) as u32,
        bState: state_or_error(b[4]),
        iString: b[5],
    }
}

/// A reply of any length padded with zero bytes (or cut) to `n` bytes, the
/// way a zeroed receive buffer of `n` bytes holds it.
pub open spec fn padded(b: Seq<u8>, n: nat) -> Seq<u8> {
    Seq::new(n, |i: int| if i < b.len() { b[i] } else { 0u8 })
}

impl DeviceStatusResponse {
    /// Creates a status response from its fields.
    pub fn new(
        status: DeviceStatusCode,
        poll_timeout: u32,
        state: DeviceStateCode,
        string_index: u8,
    ) -> (r: Self)
        ensures
            r == (DeviceStatusResponse {
                bStatus: status,
                bwPollTimeout: poll_timeout,
                bState: state,
                iString: string_index,
            }),
    {
        Self { bStatus: status, bwPollTimeout: poll_timeout, bState: state, iString: string_index }
    }

    /// Decodes the six bytes of a DFU_GETSTATUS response. Unknown status and
    /// state bytes read as `errUNKNOWN` and `dfuERROR`.
    pub fn from_bytes(buffer: &[u8; 6]) -> (r: Self)
        ensures
            r == status_response_of(buffer@),
    {
        let status = match DeviceStatusCode::from_byte(buffer[0]) {
            Ok(c) => c,
            Err(_) => DeviceStatusCode::errUNKNOWN,
        };
        let state = match DeviceStateCode::from_byte(buffer[4]) {
            Ok(c) => c,
            Err(_) => DeviceStateCode::dfuERROR,
        };
        let timeout: u32 = buffer[1] as u32 + (buffer[2] as u32) * 256 + (buffer[3] as u32)
            * 65536;
        Self::new(status, timeout, state, buffer[5])
    }

    /// Decodes the reply to a DFU_GETSTATUS request as a zeroed six-byte
    /// buffer holds it after the transfer.
    pub fn from_reply(reply: &Vec<u8>) -> (r: Self)
        ensures
            r == status_response_of(padded(reply@, 6)),
    {
        let mut buffer: [u8; 6] = [0u8; 6];
        let mut i: usize = 0;
        while i < 6 && i < reply.len()
            invariant
                i <= 6,
                buffer@.len() == 6,
                i <= reply@.len(),
                forall|j: int| 0 <= j < i ==> buffer@[j] == reply@[j],
                forall|j: int| i <= j < 6 ==> buffer@[j] == 0,
            decreases 6 - i,
        {
            buffer[i] = reply[i];
            i = i + 1;
        }
        assert(buffer@ =~= padded(reply@, 6));
        Self::from_bytes(&buffer)
    }
}

/// The DFU class requests.
#[derive(Debug, Clone, PartialEq, Eq)]
pub enum Request {
    /// DFU_DETACH: generate a detach-attach sequence on the bus.
    Detach,
    /// DFU_DNLOAD: write a block of data to the device.
    Download { block_num: u16, data: Vec<u8> },
    /// DFU_UPLOAD: read a block of `length` bytes from the device.
    Upload { block_num: u16, length: usize },
    /// DFU_GETSTATUS: read the six-byte status response.
    GetStatus,
    /// DFU_CLRSTATUS: clear an error status.
    ClearStatus,
    /// DFU_GETSTATE: read the one-byte device state.
    GetState,
    /// DFU_ABORT: abort the current operation and return to idle.
    Abort,
}

/// Setup fields of a control transfer.
#[derive(Debug, Clone, Copy, PartialEq, Eq, Structural)]
pub struct ControlSetup {
    /// `bmRequestType`.
    pub request_type: u8,
    /// `bRequest`.
    pub request: u8,
    /// `wValue`.
    pub value: u16,
    /// `wIndex`.
    pub index: u16,
}

/// `bRequest` of each DFU request (DFU 1.1, table 3.2).
pub open spec fn request_code(r: Request) -> u8 {
    match r {
        Request::Detach => 0,
        Request::Download { .. } => 1,
        Request::Upload { .. } => 2,
        Request::GetStatus => 3,
        Request::ClearStatus => 4,
        Request::GetState => 5,
        Request::Abort => 6,
    }
}

/// Whether a request reads data from the device.
pub open spec fn request_reads(r: Request) -> bool {
    r is Upload || r is GetStatus || r is GetState
}

/// Number of bytes that a request reads from the device.
pub open spec fn request_read_length(r: Request) -> nat {
    match r {
        Request::Upload { length, .. } => length as nat,
        Request::GetStatus => 6,
        Request::GetState => 1,
        _ => 0,
    }
}

impl Request {
    /// The setup fields of the control transfer that carries this request
    /// over interface zero.
    pub fn setup(&self) -> (r: ControlSetup)
        ensures
            r.request_type == (if request_reads(*self) { REQUEST_TYPE_IN } else { REQUEST_TYPE_OUT }),
            r.request == request_code(*self),
            r.value == match *self {
                Request::Download { block_num, .. } => block_num,
                Request::Upload { block_num, .. } => block_num,
                _ => 0u16,
            },
            r.index == 0,
    {
        match self {
            Request::Detach => ControlSetup { request_type: REQUEST_TYPE_OUT, request: 0, value: 0, index: 0 },
            Request::Download { block_num, .. } => ControlSetup {
                request_type: REQUEST_TYPE_OUT,
                request: 1,
                value: *block_num,
                index: 0,
            },
            Request::Upload { block_num, .. } => ControlSetup {
                request_type: REQUEST_TYPE_IN,
                request: 2,
                value: *block_num,
                index: 0,
            },
            Request::GetStatus => ControlSetup { request_type: REQUEST_TYPE_IN, request: 3, value: 0, index: 0 },
            Request::ClearStatus => ControlSetup { request_type: REQUEST_TYPE_OUT, request: 4, value: 0, index: 0 },
            Request::GetState => ControlSetup { request_type: REQUEST_TYPE_IN, request: 5, value: 0, index: 0 },
            Request::Abort => ControlSetup { request_type: REQUEST_TYPE_OUT, request: 6, value: 0, index: 0 },
        }
    }

    /// Whether the request reads from the device (else it writes).
    pub fn reads(&self) -> (r: bool)
        ensures
            r == request_reads(*self),
    {
        match self {
            Request::Upload { .. } | Request::GetStatus | Request::GetState => true,
            _ => false,
        }
    }

    /// Number of bytes to read for a reading request (zero for a writing one).
    pub fn read_length(&self) -> (r: usize)
        ensures
            r == request_read_length(*self),
    {
        match self {
            Request::Upload { length, .. } => *length,
            Request::GetStatus => STATUS_RESPONSE_LENGTH,
            Request::GetState => 1,
            _ => 0,
        }
    }
}

/// The device state byte in the reply to a DFU_GETSTATE request, read as
/// a zeroed one-byte buffer holds it.
pub fn state_from_reply(reply: &Vec<u8>) -> (r: u8)
    ensures
        r == padded(reply@, 1)[0],
{
    if reply.len() > 0 {
        reply[0]
    } else {
        0
    }
}

/// The bytes that identify a device: vendor id and product id (little
/// endian), then the serial number string as the standard `Hash` of a
/// string writes it.
pub open spec fn identity_writes(vendor_id: u16, product_id: u16, serial: Seq<u8>) -> Seq<Seq<u8>> {
    seq![
        seq![(vendor_id % 256) as u8, (vendor_id / 256) as u8],
        seq![(product_id % 256) as u8, (product_id / 256) as u8],
        serial,
        seq![0xffu8],
    ]
}

/// The identity of a device: a 64-bit hash of its vendor id, product id
/// and serial number, stable as long as these three are unchanged.
pub fn device_identity(vendor_id: u16, product_id: u16, serial: &String) -> (r: u64)
    ensures
        r == DefaultHasher::spec_finish(
            identity_writes(vendor_id, product_id, encode_utf8(serial@)),
        ),
{
    let mut hasher = DefaultHasher::new();
    let v: [u8; 2] = [(vendor_id % 256) as u8, (vendor_id / 256) as u8];
    let p: [u8; 2] = [(product_id % 256) as u8, (product_id / 256) as u8];
    let end: [u8; 1] = [0xff];
    let vs = v.as_slice();
    let ps = p.as_slice();
    let es = end.as_slice();
    let text = serial.as_str();
    let bytes = text.as_bytes();
    assert(vs@ =~= seq![(vendor_id % 256) as u8, (vendor_id / 256) as u8]);
    assert(ps@ =~= seq![(product_id % 256) as u8, (product_id / 256) as u8]);
    assert(es@ =~= seq![0xffu8]);
    assert(bytes@ == encode_utf8(serial@));
    hasher.write(vs);
    hasher.write(ps);
    hasher.write(bytes);
    hasher.write(es);
    assert(hasher@ =~= identity_writes(vendor_id, product_id, encode_utf8(serial@)));
    hasher.finish()
}

/// A DFU capable device found on the bus: its identity and the information
/// read from its descriptors.
pub struct DfuDevice {
    /// Hash of vendor id, product id and serial number.
    pub id: u64,
    /// Strings, alternate settings and functional descriptor fields.
    pub info: DeviceInfo,
}

impl DfuDevice {
    /// A device with the given information, identified by its vendor id,
    /// product id and serial number.
    pub fn new(info: DeviceInfo) -> (r: Self)
        ensures
            r.info == info,
            r.id == DefaultHasher::spec_finish(
                identity_writes(info.vendor_id, info.product_id, encode_utf8(info.serial_number_string@)),
            ),
    {
        let id = device_identity(info.vendor_id, info.product_id, &info.serial_number_string);
        DfuDevice { id, info }
    }

    /// Index of the first device with identity `id`, if any.
    pub fn position_by_id(devices: &Vec<DfuDevice>, id: u64) -> (r: Option<usize>)
        ensures
            r is None <==> forall|i: int| 0 <= i < devices@.len() ==> (#[trigger] devices@[i]).id != id,
            r is Some ==> r->0 < devices@.len() && devices@[r->0 as int].id == id && forall|j: int|
                0 <= j < r->0 ==> (#[trigger] devices@[j]).id != id,
    {
        let mut i: usize = 0;
        while i < devices.len()
            invariant
                i <= devices@.len(),
                forall|j: int| 0 <= j < i ==> (#[trigger] devices@[j]).id != id,
            decreases devices@.len() - i,
        {
            if devices[i].id == id {
                return Some(i);
            }
            i = i + 1;
        }
        None
    }

    /// Looks a device up by its identity in the result of a scan of the bus.
    /// A failed scan passes its error on; a scan that found no DFU device, or
    /// none with this identity, gives `Ok(None)`; else the first device with
    /// the identity is returned.
    pub fn find_by_id(scan: Result<Option<Vec<DfuDevice>>, UsbError>, id: u64) -> (r: Result<
        Option<DfuDevice>,
        UsbError,
    >)
        ensures
            scan is Err ==> r == Err::<Option<DfuDevice>, UsbError>(scan->Err_0),
            scan is Ok ==> r is Ok,
            scan is Ok && (r->Ok_0 is None) <==> scan is Ok && (scan->Ok_0 is None || forall|i: int|
                0 <= i < scan->Ok_0->0@.len() ==> (#[trigger] scan->Ok_0->0@[i]).id != id),
            r is Ok && r->Ok_0 is Some ==> exists|i: int|
                0 <= i < scan->Ok_0->0@.len() && r->Ok_0->0 == #[trigger] scan->Ok_0->0@[i] && (
                forall|j: int| 0 <= j < i ==> (#[trigger] scan->Ok_0->0@[j]).id != id),
            r is Ok && r->Ok_0 is Some ==> r->Ok_0->0.id == id,
    {
        match scan {
            Err(e) => Err(e),
            Ok(None) => Ok(None),
            Ok(Some(devices)) => {
                let mut devices = devices;
                let ghost all = devices@;
                let mut i: usize = 0;
                while i < devices.len()
                    invariant
                        devices@ == all,
                        scan is Ok && scan->Ok_0 is Some && scan->Ok_0->0@ == all,
                        i <= devices.len(),
                        forall|j: int| 0 <= j < i ==> (#[trigger] all[j]).id != id,
                    decreases devices.len() - i,
                {
                    if devices[i].id == id {
                        let d = devices.remove(i);
                        return Ok(Some(d));
                    }
                    i = i + 1;
                }
                Ok(None)
            },
        }
    }
}

/// The outcome of a scan of the bus: `None` when no DFU device was found,
/// which a caller tells apart from a scan that failed.
pub fn found_devices(devices: Vec<DfuDevice>) -> (r: Option<Vec<DfuDevice>>)
    ensures
        devices@.len() == 0 ==> r is None,
        devices@.len() > 0 ==> r is Some && r->0@ == devices@,
{
    if devices.len() == 0 {
        None
    } else {
        Some(devices)
    }
}

/// One interface descriptor (one alternate setting) of a configuration, as
/// read from the device.
#[derive(Debug, Clone, PartialEq, Eq)]
pub struct InterfaceSummary {
    /// `bInterfaceNumber`.
    pub interface_number: u8,
    /// `bAlternateSetting`.
    pub setting_number: u8,
    /// `bInterfaceClass`.
    pub class_code: u8,
    /// `bInterfaceSubClass`.
    pub sub_class_code: u8,
    /// The interface string, if it could be read.
    pub name: Option<String>,
    /// The extra bytes that follow the descriptor, if there are any.
    pub extra: Option<Vec<u8>>,
}

/// One configuration of a device, as read from the device.
#[derive(Debug, Clone, PartialEq, Eq)]
pub struct ConfigSummary {
    /// `bConfigurationValue`.
    pub number: u8,
    /// Its interface descriptors, in the order the device lists them.
    pub interfaces: Vec<InterfaceSummary>,
}

/// Whether an interface descriptor is a DFU interface that a scan accepts:
/// with `include_runtime` false, only interface zero (a device in DFU mode).
pub open spec fn is_dfu_interface(d: InterfaceSummary, include_runtime: bool) -> bool {
    d.class_code == INTERFACE_CLASS_APPLICATION && d.sub_class_code == INTERFACE_SUBCLASS_DFU && (
    d.interface_number == 0 || include_runtime)
}

/// Whether interface descriptor `di` of configuration `ci` comes before
/// descriptor `dj` of configuration `cj`.
pub open spec fn comes_before(ci: int, di: int, cj: int, dj: int) -> bool {
    ci < cj || (ci == cj && di < dj)
}

/// Finds the first DFU interface among a device's configurations and returns
/// its configuration number and interface number.
pub fn dfu_interface(configs: &Vec<ConfigSummary>, include_runtime: bool) -> (r: Option<(u8, u8)>)
    ensures
        r is None <==> forall|c: int, d: int|
            0 <= c < configs@.len() && 0 <= d < configs@[c].interfaces@.len() ==> !is_dfu_interface(
                #[trigger] configs@[c].interfaces@[d],
                include_runtime,
            ),
        r is Some ==> exists|c: int, d: int|
            0 <= c < configs@.len() && 0 <= d < configs@[c].interfaces@.len() && is_dfu_interface(
                #[trigger] configs@[c].interfaces@[d],
                include_runtime,
            ) && r->0 == (configs@[c].number, configs@[c].interfaces@[d].interface_number) && (
            forall|c2: int, d2: int|
                0 <= c2 < configs@.len() && 0 <= d2 < configs@[c2].interfaces@.len()
                    && comes_before(c2, d2, c, d) ==> !is_dfu_interface(
                    #[trigger] configs@[c2].interfaces@[d2],
                    include_runtime,
                )),
{
    let mut c: usize = 0;
    while c < configs.len()
        invariant
            c <= configs@.len(),
            forall|c2: int, d2: int|
                0 <= c2 < c && 0 <= d2 < configs@[c2].interfaces@.len() ==> !is_dfu_interface(
                    #[trigger] configs@[c2].interfaces@[d2],
                    include_runtime,
                ),
        decreases configs@.len() - c,
    {
        let config = &configs[c];
        let mut d: usize = 0;
        while d < config.interfaces.len()
            invariant
                c < configs@.len(),
                *config == configs@[c as int],
                d <= config.interfaces@.len(),
                forall|c2: int, d2: int|
                    0 <= c2 < c && 0 <= d2 < configs@[c2].interfaces@.len() ==> !is_dfu_interface(
                        #[trigger] configs@[c2].interfaces@[d2],
                        include_runtime,
                    ),
                forall|d2: int| 0 <= d2 < d ==> !is_dfu_interface(
                    #[trigger] config.interfaces@[d2],
                    include_runtime,
                ),
            decreases config.interfaces@.len() - d,
        {
            let desc = &config.interfaces[d];
            if desc.class_code == INTERFACE_CLASS_APPLICATION && desc.sub_class_code
                == INTERFACE_SUBCLASS_DFU && (desc.interface_number == 0 || include_runtime) {
                return Some((config.number, desc.interface_number));
            }
            d = d + 1;
        }
        c = c + 1;
    }
    None
}

} // verus!
