//! Checks of a firmware file against the selected device, made before an
//! update may start.

use vstd::prelude::*;
use vstd::slice::slice_subrange;

use crate::info::DeviceInfo;
use crate::update::{alt_description, find_alt, Content};

verus! {

/// Vendor or product id of a file that fits any device.
pub const ANY_ID: u16 = 0xFFFF;

/// What `dfufile::crc32::crc32` returns for `data`, continuing from `initial`.
pub uninterp spec fn crc32_of(data: Seq<u8>, initial: u32) -> u32;

/// Relies on `dfufile::crc32::crc32`: the CRC-32 of `data` continuing a CRC
/// `initial`; the result depends on the arguments alone.
#[verifier::external_body]
fn crc32(data: &[u8], initial: u32) -> (r: u32)
    ensures
        r == crc32_of(data@, initial),
{
    dfufile::crc32::crc32(data, initial)
}

/// The CRC of a whole DFU file as its suffix stores it: the CRC-32 of all
/// bytes but the last four (the stored CRC itself), inverted. `None` for a
/// file shorter than four bytes.
pub open spec fn file_crc_of(file: Seq<u8>) -> Option<u32> {
    if file.len() < 4 {
        None
    } else {
        Some(crc32_of(file.subrange(0, file.len() - 4), 0) ^ 0xFFFF_FFFF)
    }
}

/// Computes the CRC of a whole DFU file as its suffix stores it.
pub fn file_crc(file: &Vec<u8>) -> (r: Option<u32>)
    ensures
        r == file_crc_of(file@),
{
    if file.len() < 4 {
        return None;
    }
    let body = slice_subrange(file.as_slice(), 0, file.len() - 4);
    Some(crc32(body, 0) ^ 0xFFFF_FFFF)
}

/// The DFU suffix of a firmware file.
#[derive(Debug, Clone, Copy, PartialEq, Eq, Structural)]
pub struct FileSuffix {
    /// Device release number the file is for.
    pub device_version: u16,
    /// Product id the file is for (`ANY_ID` for any).
    pub product_id: u16,
    /// Vendor id the file is for (`ANY_ID` for any).
    pub vendor_id: u16,
    /// DFU specification release, in BCD.
    pub dfu_version: u16,
    /// CRC stored in the file.
    pub crc: u32,
}

/// Results of the checks on the selected file.
#[derive(Debug, Clone, Copy, PartialEq, Eq, Structural)]
pub struct DfuFileChecks {
    /// A CRC of the file could be computed.
    pub crc_checked: bool,
    /// The computed CRC equals the stored one.
    pub crc_valid: bool,
    /// The file's DFU version is the device's.
    pub dfu_version_valid: bool,
    /// The file's vendor id fits the device.
    pub vendor_id_accepted: bool,
    /// The file's product id fits the device.
    pub product_id_accepted: bool,
    /// The device has a memory segment for every target of the file.
    pub targets_valid: bool,
}

/// Whether the device has a memory segment for every target of the image.
pub open spec fn targets_found(content: Content, info: DeviceInfo) -> bool {
    match content {
        Content::Plain => true,
        Content::DfuSe(targets) => forall|i: int|
            0 <= i < targets@.len() ==> (#[trigger] alt_description(
                info.alt_settings@,
                targets@[i].alt_setting,
            )) is Some,
    }
}

impl DfuFileChecks {
    /// No check passed yet.
    pub fn new() -> (r: Self)
        ensures
            !r.crc_checked && !r.crc_valid && !r.dfu_version_valid && !r.vendor_id_accepted
                && !r.product_id_accepted && !r.targets_valid,
    {
        DfuFileChecks {
            crc_checked: false,
            crc_valid: false,
            dfu_version_valid: false,
            vendor_id_accepted: false,
            product_id_accepted: false,
            targets_valid: false,
        }
    }

    /// Records the CRC computed over a freshly opened file (`None` if it
    /// could not be computed); the other checks start over.
    pub fn check_crc(&mut self, computed: Option<u32>, stored: u32)
        ensures
            final(self).crc_checked == computed is Some,
            final(self).crc_valid == (computed == Some(stored)),
            !final(self).dfu_version_valid && !final(self).vendor_id_accepted
                && !final(self).product_id_accepted && !final(self).targets_valid,
    {
        *self = Self::new();
        match computed {
            Some(crc) => {
                self.crc_checked = true;
                self.crc_valid = crc == stored;
            },
            None => {},
        }
    }

    /// Computes the CRC of the whole file and records whether it equals
    /// the CRC stored in its suffix; the other checks start over.
    pub fn check_file_crc(&mut self, file: &Vec<u8>, stored: u32)
        ensures
            final(self).crc_checked == file_crc_of(file@) is Some,
            final(self).crc_valid == (file_crc_of(file@) == Some(stored)),
            !final(self).dfu_version_valid && !final(self).vendor_id_accepted
                && !final(self).product_id_accepted && !final(self).targets_valid,
    {
        let computed = file_crc(file);
        self.check_crc(computed, stored);
    }

    /// Checks a file against a device: same DFU version, vendor and product
    /// ids equal or `ANY_ID`, and a memory segment for every target.
    pub fn match_device(&mut self, suffix: &FileSuffix, content: &Content, info: &DeviceInfo)
        ensures
            final(self).crc_checked == old(self).crc_checked,
            final(self).crc_valid == old(self).crc_valid,
            final(self).dfu_version_valid == (suffix.dfu_version == info.dfu_version),
            final(self).vendor_id_accepted == (suffix.vendor_id == ANY_ID || suffix.vendor_id
                == info.vendor_id),
            final(self).product_id_accepted == (suffix.product_id == ANY_ID || suffix.product_id
                == info.product_id),
            final(self).targets_valid == targets_found(*content, *info),
    {
        self.dfu_version_valid = suffix.dfu_version == info.dfu_version;
        self.vendor_id_accepted = suffix.vendor_id == ANY_ID || suffix.vendor_id == info.vendor_id;
        self.product_id_accepted = suffix.product_id == ANY_ID || suffix.product_id
            == info.product_id;
        match content {
            Content::Plain => {
                self.targets_valid = true;
            },
            Content::DfuSe(targets) => {
                let mut valid = true;
                let mut i: usize = 0;
                while i < targets.len()
                    invariant
                        i <= targets@.len(),
                        valid == forall|j: int|
                            0 <= j < i ==> (#[trigger] alt_description(
                                info.alt_settings@,
                                targets@[j].alt_setting,
                            )) is Some,
                    decreases targets@.len() - i,
                {
                    if find_alt(&info.alt_settings, targets[i].alt_setting).is_none() {
                        valid = false;
                    }
                    i = i + 1;
                }
                self.targets_valid = valid;
            },
        }
    }

    /// Whether an update may start: a device and a file are selected and
    /// every check passed.
    pub fn preflight(&self, device_selected: bool, file_loaded: bool) -> (r: bool)
        ensures
            r == (device_selected && file_loaded && self.crc_valid && self.dfu_version_valid
                && self.vendor_id_accepted && self.product_id_accepted && self.targets_valid),
    {
        device_selected && file_loaded && self.crc_valid && self.dfu_version_valid
            && self.vendor_id_accepted && self.product_id_accepted && self.targets_valid
    }
}

} // verus!
