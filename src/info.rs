//! Information about a DFU device, gathered from its descriptors when the
//! bus is scanned.

use vstd::prelude::*;
use vstd::string::StringExecFns;

use crate::device::{
    le16, ConfigSummary, DfuFunctionalDescriptor, Error, InterfaceSummary,
    FUNCTIONAL_DESCRIPTOR_TYPE,
};

verus! {

/// A snapshot of a device's descriptors, taken once per scan and never
/// changed afterwards.
#[derive(Debug, Clone)]
pub struct DeviceInfo {
    /// Vendor id.
    pub vendor_id: u16,
    /// Product id.
    pub product_id: u16,
    /// Device release number, as text.
    pub device_version: String,
    /// Manufacturer string (empty if it could not be read).
    pub manufacturer_string: String,
    /// Product string (empty if it could not be read).
    pub product_string: String,
    /// Serial number string (empty if it could not be read).
    pub serial_number_string: String,
    /// Configuration that holds the DFU interface.
    pub dfu_config_number: u8,
    /// Number of the DFU interface.
    pub dfu_interface_number: u8,
    /// Alternate settings of the DFU interface: setting number and interface string.
    pub alt_settings: Vec<(u8, String)>,
    /// `bmAttributes` of the DFU functional descriptor.
    pub dfu_attributes: u8,
    /// `wDetachTimeOut` of the DFU functional descriptor.
    pub dfu_detach_timeout: u16,
    /// `wTransferSize` of the DFU functional descriptor.
    pub dfu_transfer_size: u16,
    /// `bcdDFUVersion` of the DFU functional descriptor.
    pub dfu_version: u16,
}

} // verus!

verus! {

/// The interface descriptors of the DFU interface among a configuration's
/// descriptors: those with interface number `iface`, in order.
pub open spec fn iface_descs(ds: Seq<InterfaceSummary>, iface: u8) -> Seq<InterfaceSummary>
    decreases ds.len(),
{
    if ds.len() == 0 {
        Seq::empty()
    } else {
        iface_descs(ds.drop_last(), iface) + if ds.last().interface_number == iface {
            seq![ds.last()]
        } else {
            Seq::empty()
        }
    }
}

/// The alternate settings of the DFU interface: the descriptors with
/// interface number `iface` in every configuration numbered `cfg`, in order.
pub open spec fn matching_descs(configs: Seq<ConfigSummary>, cfg: u8, iface: u8) -> Seq<InterfaceSummary>
    decreases configs.len(),
{
    if configs.len() == 0 {
        Seq::empty()
    } else {
        matching_descs(configs.drop_last(), cfg, iface) + if configs.last().number == cfg {
            iface_descs(configs.last().interfaces@, iface)
        } else {
            Seq::empty()
        }
    }
}

/// Whether extra bytes hold a DFU functional descriptor: exactly nine
/// bytes, of length 9 and type 0x21.
pub open spec fn is_functional(extra: Seq<u8>) -> bool {
    extra.len() == 9 && extra[0] == 9 && extra[1] == FUNCTIONAL_DESCRIPTOR_TYPE
}

/// Whether a descriptor carries extra bytes that are no DFU functional descriptor.
pub open spec fn bad_extra(d: InterfaceSummary) -> bool {
    d.extra is Some && !is_functional(d.extra->0@)
}

/// The extra bytes of the last descriptor that has any.
pub open spec fn last_extra(ds: Seq<InterfaceSummary>) -> Option<Seq<u8>>
    decreases ds.len(),
{
    if ds.len() == 0 {
        None
    } else if ds.last().extra is Some {
        Some(ds.last().extra->0@)
    } else {
        last_extra(ds.drop_last())
    }
}

/// The text shown for an alternate setting: its interface string, or
/// `(unnamed)` if it could not be read.
pub open spec fn alt_name(d: InterfaceSummary) -> Seq<char> {
    match d.name {
        Some(n) => n@,
        None => "(unnamed)"@,
    }
}

/// The alternate settings that a list of descriptors gives.
pub open spec fn alt_model(ds: Seq<InterfaceSummary>) -> Seq<(u8, Seq<char>)> {
    ds.map_values(|d: InterfaceSummary| (d.setting_number, alt_name(d)))
}

/// The view of a list of alternate settings.
pub open spec fn alt_view(alts: Seq<(u8, String)>) -> Seq<(u8, Seq<char>)> {
    alts.map_values(|a: (u8, String)| (a.0, a.1@))
}

/// A string that could not be read counts as empty.
pub open spec fn text_or_empty(s: Option<String>) -> Seq<char> {
    match s {
        Some(t) => t@,
        None => Seq::empty(),
    }
}

fn string_or_empty(s: Option<String>) -> (r: String)
    ensures
        r@ == text_or_empty(s),
{
    match s {
        Some(t) => t,
        None => String::new(),
    }
}

impl DeviceInfo {
    /// Gathers the information about a device from its descriptors, for the
    /// DFU interface `dfu_interface_number` of configuration
    /// `dfu_config_number`. Fails if one of that interface's alternate
    /// settings carries extra bytes that are no DFU functional descriptor.
    pub fn from_descriptors(
        vendor_id: u16,
        product_id: u16,
        device_version: String,
        manufacturer: Option<String>,
        product: Option<String>,
        serial_number: Option<String>,
        configs: &Vec<ConfigSummary>,
        dfu_config_number: u8,
        dfu_interface_number: u8,
    ) -> (r: Result<DeviceInfo, Error>)
        ensures
            ({
                let ds = matching_descs(configs@, dfu_config_number, dfu_interface_number);
                &&& r is Err <==> exists|c: int, d: int|
                    0 <= c < configs@.len() && 0 <= d < configs@[c].interfaces@.len()
                        && configs@[c].number == dfu_config_number
                        && configs@[c].interfaces@[d].interface_number == dfu_interface_number
                        && #[trigger] bad_extra(configs@[c].interfaces@[d])
                &&& r is Err ==> r->Err_0 == Error::NoDfuFunctionalDescriptor
                &&& r is Ok ==> {
                    let info = r->Ok_0;
                    &&& info.vendor_id == vendor_id
                    &&& info.product_id == product_id
                    &&& info.device_version@ == device_version@
                    &&& info.manufacturer_string@ == text_or_empty(manufacturer)
                    &&& info.product_string@ == text_or_empty(product)
                    &&& info.serial_number_string@ == text_or_empty(serial_number)
                    &&& info.dfu_config_number == dfu_config_number
                    &&& info.dfu_interface_number == dfu_interface_number
                    &&& alt_view(info.alt_settings@) == alt_model(ds)
                    &&& match last_extra(ds) {
                        None => info.dfu_attributes == 0 && info.dfu_detach_timeout == 0
                            && info.dfu_transfer_size == 0 && info.dfu_version == 0,
                        Some(x) => info.dfu_attributes == x[2] && info.dfu_detach_timeout == le16(x[3], x[4])
                            && info.dfu_transfer_size == le16(x[5], x[6]) && info.dfu_version
                            == le16(x[7], x[8]),
                    }
                }
            }),
    {
        let mut alt_settings: Vec<(u8, String)> = Vec::new();
        let mut functional: Option<DfuFunctionalDescriptor> = None;
        let ghost mut matched: Seq<InterfaceSummary> = Seq::empty();
        let mut c: usize = 0;
        assert(configs@.subrange(0, 0) =~= Seq::<ConfigSummary>::empty());
        while c < configs.len()
            invariant
                c <= configs@.len(),
                matched == matching_descs(configs@.subrange(0, c as int), dfu_config_number, dfu_interface_number),
                alt_view(alt_settings@) == alt_model(matched),
                forall|c2: int, d2: int|
                    0 <= c2 < c && 0 <= d2 < configs@[c2].interfaces@.len()
                        && configs@[c2].number == dfu_config_number
                        && configs@[c2].interfaces@[d2].interface_number == dfu_interface_number
                        ==> !#[trigger] bad_extra(configs@[c2].interfaces@[d2]),
                match last_extra(matched) {
                    None => functional is None,
                    Some(x) => functional is Some && is_functional(x) && functional->0.bmAttributes == x[2]
                        && functional->0.wDetachTimeOut == le16(x[3], x[4])
                        && functional->0.wTransferSize == le16(x[5], x[6])
                        && functional->0.bcdDFUVersion == le16(x[7], x[8]),
                },
            decreases configs@.len() - c,
        {
            let config = &configs[c];
            let ghost before = matched;
            assert(configs@.subrange(0, c + 1).drop_last() =~= configs@.subrange(0, c as int));
            if config.number == dfu_config_number {
                let mut d: usize = 0;
                assert(config.interfaces@.subrange(0, 0) =~= Seq::<InterfaceSummary>::empty());
                assert(matched =~= before + iface_descs(config.interfaces@.subrange(0, 0), dfu_interface_number));
                while d < config.interfaces.len()
                    invariant
                        c < configs@.len(),
                        *config == configs@[c as int],
                        config.number == dfu_config_number,
                        d <= config.interfaces@.len(),
                        matched == before + iface_descs(config.interfaces@.subrange(0, d as int), dfu_interface_number),
                        before == matching_descs(configs@.subrange(0, c as int), dfu_config_number, dfu_interface_number),
                        alt_view(alt_settings@) == alt_model(matched),
                        forall|c2: int, d2: int|
                            0 <= c2 < c && 0 <= d2 < configs@[c2].interfaces@.len()
                                && configs@[c2].number == dfu_config_number
                                && configs@[c2].interfaces@[d2].interface_number == dfu_interface_number
                                ==> !#[trigger] bad_extra(configs@[c2].interfaces@[d2]),
                        forall|d2: int|
                            0 <= d2 < d && config.interfaces@[d2].interface_number == dfu_interface_number
                                ==> !#[trigger] bad_extra(config.interfaces@[d2]),
                        match last_extra(matched) {
                            None => functional is None,
                            Some(x) => functional is Some && is_functional(x) && functional->0.bmAttributes == x[2]
                                && functional->0.wDetachTimeOut == le16(x[3], x[4])
                                && functional->0.wTransferSize == le16(x[5], x[6])
                                && functional->0.bcdDFUVersion == le16(x[7], x[8]),
                        },
                    decreases config.interfaces@.len() - d,
                {
                    let desc = &config.interfaces[d];
                    let ghost sub = config.interfaces@.subrange(0, d + 1);
                    assert(sub.drop_last() =~= config.interfaces@.subrange(0, d as int));
                    assert(sub.last() == *desc);
                    if desc.interface_number == dfu_interface_number {
                        let ghost prev = matched;
                        proof {
                            matched = matched.push(*desc);
                            assert(matched =~= before + iface_descs(sub, dfu_interface_number));
                            assert(matched.drop_last() =~= prev);
                        }
                        match &desc.extra {
                            Some(extra) => {
                                if extra.len() == 9 && extra[0] == 9 && extra[1] == FUNCTIONAL_DESCRIPTOR_TYPE {
                                    functional = Some(DfuFunctionalDescriptor::from_bytes(extra.as_slice()));
                                } else {
                                    assert(bad_extra(configs@[c as int].interfaces@[d as int]));
                                    return Err(Error::NoDfuFunctionalDescriptor);
                                }
                            },
                            None => {},
                        }
                        let name = match &desc.name {
                            Some(n) => n.clone(),
                            None => String::from_str("(unnamed)"),
                        };
                        assert(name@ == alt_name(*desc));
                        let ghost prev_alts = alt_settings@;
                        alt_settings.push((desc.setting_number, name));
                        assert(alt_model(matched) =~= alt_model(prev).push((desc.setting_number, alt_name(*desc))));
                        assert(alt_view(alt_settings@) =~= alt_view(prev_alts).push((desc.setting_number, name@)));
                        assert(alt_view(alt_settings@) =~= alt_model(matched));
                    } else {
                        assert(iface_descs(sub, dfu_interface_number) =~= iface_descs(config.interfaces@.subrange(0, d as int), dfu_interface_number));
                    }
                    d = d + 1;
                }
                assert(config.interfaces@.subrange(0, d as int) =~= config.interfaces@);
            } else {
                assert(matched =~= matching_descs(configs@.subrange(0, c + 1), dfu_config_number, dfu_interface_number));
            }
            c = c + 1;
        }
        assert(configs@.subrange(0, c as int) =~= configs@);
        let (attributes, detach, transfer, version) = match functional {
            Some(f) => (f.bmAttributes, f.wDetachTimeOut, f.wTransferSize, f.bcdDFUVersion),
            None => (0u8, 0u16, 0u16, 0u16),
        };
        Ok(DeviceInfo {
            vendor_id,
            product_id,
            device_version,
            manufacturer_string: string_or_empty(manufacturer),
            product_string: string_or_empty(product),
            serial_number_string: string_or_empty(serial_number),
            dfu_config_number,
            dfu_interface_number,
            alt_settings,
            dfu_attributes: attributes,
            dfu_detach_timeout: detach,
            dfu_transfer_size: transfer,
            dfu_version: version,
        })
    }
}

} // verus!
