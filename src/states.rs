//! Device status and device state codes of the DFU 1.1 class protocol,
//! with their byte encodings.

use vstd::prelude::*;

use crate::device::Error;

verus! {

/// Device status codes (DFU 1.1, section 6.1.2).
#[allow(non_camel_case_types)]
#[derive(Debug, Clone, Copy, PartialEq, Eq, Structural)]
pub enum DeviceStatusCode {
    /// No error condition is present.
    OK,
    /// File is not targeted for use by this device.
    errTARGET,
    /// File is for this device but fails some vendor-specific verification test.
    errFILE,
    /// Device is unable to write memory.
    errWRITE,
    /// Memory erase function failed.
    errERASE,
    /// Memory erase check failed.
    errCHECK_ERASED,
    /// Program memory function failed.
    errPROG,
    /// Programmed memory failed verification.
    errVERIFY,
    /// Cannot program memory due to received address that is out of range.
    errADDRESS,
    /// Received DFU_DNLOAD with wLength = 0, but the device does not think
    /// it has all of the data yet.
    errNOTDONE,
    /// Device's firmware is corrupt. It cannot return to run-time operations.
    errFIRMWARE,
    /// iString indicates a vendor-specific error.
    errVENDOR,
    /// Device detected unexpected USB reset signaling.
    errUSBR,
    /// Device detected unexpected power on reset.
    errPOR,
    /// Something went wrong, but the device does not know what it was.
    errUNKNOWN,
    /// Device stalled an unexpected request.
    errSTALLEDPKT,
}

/// The byte that encodes a status code on the wire.
pub open spec fn status_byte(c: DeviceStatusCode) -> u8 {
    match c {
        DeviceStatusCode::OK => 0x00,
        DeviceStatusCode::errTARGET => 0x01,
        DeviceStatusCode::errFILE => 0x02,
        DeviceStatusCode::errWRITE => 0x03,
        DeviceStatusCode::errERASE => 0x04,
        DeviceStatusCode::errCHECK_ERASED => 0x05,
        DeviceStatusCode::errPROG => 0x06,
        DeviceStatusCode::errVERIFY => 0x07,
        DeviceStatusCode::errADDRESS => 0x08,
        DeviceStatusCode::errNOTDONE => 0x09,
        DeviceStatusCode::errFIRMWARE => 0x0A,
        DeviceStatusCode::errVENDOR => 0x0B,
        DeviceStatusCode::errUSBR => 0x0C,
        DeviceStatusCode::errPOR => 0x0D,
        DeviceStatusCode::errUNKNOWN => 0x0E,
        DeviceStatusCode::errSTALLEDPKT => 0x0F,
    }
}

/// Device state codes (DFU 1.1, section 6.1.2).
#[allow(non_camel_case_types)]
#[derive(Debug, Clone, Copy, PartialEq, Eq, Structural)]
pub enum DeviceStateCode {
    /// Device is running its normal application.
    appIDLE,
    /// Device is running its normal application, has received the
    /// DFU_DETACH request, and is waiting for a USB reset.
    appDETACH,
    /// Device is operating in the DFU mode and is waiting for requests.
    dfuIDLE,
    /// Device has received a block and is waiting for the host to solicit
    /// the status via DFU_GETSTATUS.
    dfuDNLOAD_SYNC,
    /// Device is programming a control-write block into its memories.
    dfuDNBUSY,
    /// Device is processing a download operation and expects DFU_DNLOAD requests.
    dfuDNLOAD_IDLE,
    /// Device has received the final block and waits for DFU_GETSTATUS to
    /// begin the manifestation phase.
    dfuMANIFEST_SYNC,
    /// Device is in the manifestation phase.
    dfuMANIFEST,
    /// Device has programmed its memories and waits for a USB or power on reset.
    dfuMANIFEST_WAIT_RESET,
    /// Device is processing an upload operation and expects DFU_UPLOAD requests.
    dfuUPLOAD_IDLE,
    /// An error has occurred; the device awaits DFU_CLRSTATUS.
    dfuERROR,
}

/// The byte that encodes a state code on the wire.
pub open spec fn state_byte(c: DeviceStateCode) -> u8 {
    match c {
        DeviceStateCode::appIDLE => 0,
        DeviceStateCode::appDETACH => 1,
        DeviceStateCode::dfuIDLE => 2,
        DeviceStateCode::dfuDNLOAD_SYNC => 3,
        DeviceStateCode::dfuDNBUSY => 4,
        DeviceStateCode::dfuDNLOAD_IDLE => 5,
        DeviceStateCode::dfuMANIFEST_SYNC => 6,
        DeviceStateCode::dfuMANIFEST => 7,
        DeviceStateCode::dfuMANIFEST_WAIT_RESET => 8,
        DeviceStateCode::dfuUPLOAD_IDLE => 9,
        DeviceStateCode::dfuERROR => 10,
    }
}

/// The status code that a byte encodes, if any.
pub open spec fn status_from_byte(value: u8) -> Option<DeviceStatusCode> {
    match value {
        0x00 => Some(DeviceStatusCode::OK),
        0x01 => Some(DeviceStatusCode::errTARGET),
        0x02 => Some(DeviceStatusCode::errFILE),
        0x03 => Some(DeviceStatusCode::errWRITE),
        0x04 => Some(DeviceStatusCode::errERASE),
        0x05 => Some(DeviceStatusCode::errCHECK_ERASED),
        0x06 => Some(DeviceStatusCode::errPROG),
        0x07 => Some(DeviceStatusCode::errVERIFY),
        0x08 => Some(DeviceStatusCode::errADDRESS),
        0x09 => Some(DeviceStatusCode::errNOTDONE),
        0x0A => Some(DeviceStatusCode::errFIRMWARE),
        0x0B => Some(DeviceStatusCode::errVENDOR),
        0x0C => Some(DeviceStatusCode::errUSBR),
        0x0D => Some(DeviceStatusCode::errPOR),
        0x0E => Some(DeviceStatusCode::errUNKNOWN),
        0x0F => Some(DeviceStatusCode::errSTALLEDPKT),
        _ => None,
    }
}

/// The state code that a byte encodes, if any.
pub open spec fn state_from_byte(value: u8) -> Option<DeviceStateCode> {
    match value {
        0 => Some(DeviceStateCode::appIDLE),
        1 => Some(DeviceStateCode::appDETACH),
        2 => Some(DeviceStateCode::dfuIDLE),
        3 => Some(DeviceStateCode::dfuDNLOAD_SYNC),
        4 => Some(DeviceStateCode::dfuDNBUSY),
        5 => Some(DeviceStateCode::dfuDNLOAD_IDLE),
        6 => Some(DeviceStateCode::dfuMANIFEST_SYNC),
        7 => Some(DeviceStateCode::dfuMANIFEST),
        8 => Some(DeviceStateCode::dfuMANIFEST_WAIT_RESET),
        9 => Some(DeviceStateCode::dfuUPLOAD_IDLE),
        10 => Some(DeviceStateCode::dfuERROR),
        _ => None,
    }
}

/// Number of status codes: the status bytes are exactly `0..STATUS_CODE_COUNT`.
pub const STATUS_CODE_COUNT: u8 = 0x10;

/// Number of state codes: the state bytes are exactly `0..STATE_CODE_COUNT`.
pub const STATE_CODE_COUNT: u8 = 11;

impl DeviceStatusCode {
    /// Returns the status code that `value` encodes.
    pub fn from_byte(value: u8) -> (r: Result<Self, Error>)
        ensures
            r == match status_from_byte(value) {
                Some(c) => Ok(c),
                None => Err(Error::InvalidStatusCode),
            },
    {
        match value {
            0x00 => Ok(Self::OK),
            0x01 => Ok(Self::errTARGET),
            0x02 => Ok(Self::errFILE),
            0x03 => Ok(Self::errWRITE),
            0x04 => Ok(Self::errERASE),
            0x05 => Ok(Self::errCHECK_ERASED),
            0x06 => Ok(Self::errPROG),
            0x07 => Ok(Self::errVERIFY),
            0x08 => Ok(Self::errADDRESS),
            0x09 => Ok(Self::errNOTDONE),
            0x0A => Ok(Self::errFIRMWARE),
            0x0B => Ok(Self::errVENDOR),
            0x0C => Ok(Self::errUSBR),
            0x0D => Ok(Self::errPOR),
            0x0E => Ok(Self::errUNKNOWN),
            0x0F => Ok(Self::errSTALLEDPKT),
            _ => Err(Error::InvalidStatusCode),
        }
    }

    /// Converts a status code to its byte value.
    pub fn as_byte(&self) -> (r: u8)
        ensures
            r == status_byte(*self),
            r < STATUS_CODE_COUNT,
    {
        match self {
            Self::OK => 0x00,
            Self::errTARGET => 0x01,
            Self::errFILE => 0x02,
            Self::errWRITE => 0x03,
            Self::errERASE => 0x04,
            Self::errCHECK_ERASED => 0x05,
            Self::errPROG => 0x06,
            Self::errVERIFY => 0x07,
            Self::errADDRESS => 0x08,
            Self::errNOTDONE => 0x09,
            Self::errFIRMWARE => 0x0A,
            Self::errVENDOR => 0x0B,
            Self::errUSBR => 0x0C,
            Self::errPOR => 0x0D,
            Self::errUNKNOWN => 0x0E,
            Self::errSTALLEDPKT => 0x0F,
        }
    }
}

impl DeviceStateCode {
    /// Returns the state code that `value` encodes.
    pub fn from_byte(value: u8) -> (r: Result<Self, Error>)
        ensures
            r == match state_from_byte(value) {
                Some(c) => Ok(c),
                None => Err(Error::InvalidStateCode),
            },
    {
        match value {
            0 => Ok(Self::appIDLE),
            1 => Ok(Self::appDETACH),
            2 => Ok(Self::dfuIDLE),
            3 => Ok(Self::dfuDNLOAD_SYNC),
            4 => Ok(Self::dfuDNBUSY),
            5 => Ok(Self::dfuDNLOAD_IDLE),
            6 => Ok(Self::dfuMANIFEST_SYNC),
            7 => Ok(Self::dfuMANIFEST),
            8 => Ok(Self::dfuMANIFEST_WAIT_RESET),
            9 => Ok(Self::dfuUPLOAD_IDLE),
            10 => Ok(Self::dfuERROR),
            _ => Err(Error::InvalidStateCode),
        }
    }

    /// Converts a state code to its byte value.
    pub fn as_byte(&self) -> (r: u8)
        ensures
            r == state_byte(*self),
            r < STATE_CODE_COUNT,
    {
        match self {
            Self::appIDLE => 0,
            Self::appDETACH => 1,
            Self::dfuIDLE => 2,
            Self::dfuDNLOAD_SYNC => 3,
            Self::dfuDNBUSY => 4,
            Self::dfuDNLOAD_IDLE => 5,
            Self::dfuMANIFEST_SYNC => 6,
            Self::dfuMANIFEST => 7,
            Self::dfuMANIFEST_WAIT_RESET => 8,
            Self::dfuUPLOAD_IDLE => 9,
            Self::dfuERROR => 10,
        }
    }
}

/// Status codes round-trip through their byte encoding: every byte below
/// `STATUS_CODE_COUNT` decodes to a code that encodes back to the same byte,
/// every larger byte fails to decode, and every code decodes from its byte.
pub proof fn lemma_status_round_trip(value: u8, code: DeviceStatusCode)
    ensures
        value < STATUS_CODE_COUNT <==> status_from_byte(value) is Some,
        status_from_byte(value) is Some ==> status_byte(status_from_byte(value)->0) == value,
        status_from_byte(status_byte(code)) == Some(code),
{
}

/// State codes round-trip through their byte encoding: every byte below
/// `STATE_CODE_COUNT` decodes to a code that encodes back to the same byte,
/// every larger byte fails to decode, and every code decodes from its byte.
pub proof fn lemma_state_round_trip(value: u8, code: DeviceStateCode)
    ensures
        value < STATE_CODE_COUNT <==> state_from_byte(value) is Some,
        state_from_byte(value) is Some ==> state_byte(state_from_byte(value)->0) == value,
        state_from_byte(state_byte(code)) == Some(code),
{
}

} // verus!
