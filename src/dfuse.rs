//! The DfuSe extension: memory segment descriptors, the address-pointer and
//! page-erase commands, and the erase workaround for one faulty device.
//!
//! A DfuSe device describes each alternate setting by a string such as
//! `@Internal Flash  /0x08000000/04*016Kg,01*064Kg,07*128Kg`: a name, then
//! pairs of a start address and a comma separated list of sector groups
//! `<count>*<size><unit><type>`.

use vstd::prelude::*;
use vstd::string::StringExecFns;
use vstd::string::StrSliceExecFns;
use vstd::arithmetic::div_mod::lemma_add_mod_noop;

use crate::device::{Error, Request};
use crate::info::DeviceInfo;
use crate::states::DeviceStateCode;
use crate::text::{
    chars_of, is_digit, parse_u32_at, split_chars, split_seq, trim, trim_bounds,
    u32_or_zero, views, lemma_first_index,
};

verus! {

/// DfuSe command byte of "Set Address Pointer".
pub const CMD_SET_ADDRESS_PTR: u8 = 0x21;

/// DfuSe command byte of "Erase Page".
pub const CMD_ERASE_PAGE: u8 = 0x41;

/// A memory segment of a device: one alternate setting of its DFU interface.
#[derive(Debug)]
pub struct MemorySegment {
    /// Name of the segment.
    pub name: String,
    /// Its regions, in the order the descriptor lists them.
    pub regions: Vec<MemorySegmentRegion>,
}

/// A run of equal sectors within a memory segment.
#[derive(Debug, Clone, Copy, PartialEq, Eq, Structural)]
pub struct MemorySegmentRegion {
    /// First address in this region.
    pub start_address: u32,
    /// Last address in this region.
    pub end_address: u32,
    /// Number of sectors in this region.
    pub sector_count: u32,
    /// Size of a sector in bytes.
    pub sector_size: u32,
    /// The region can be read.
    pub readable: bool,
    /// The region can be written.
    pub writable: bool,
    /// The region can be erased.
    pub erasable: bool,
}

/// An ASCII word character: letter, digit or underscore.
pub open spec fn is_word(c: char) -> bool {
    ('a' <= c && c <= 'z') || ('A' <= c && c <= 'Z') || ('0' <= c && c <= '9') || c == '_'
}

/// End of the run of digits that starts at `i`.
pub open spec fn digit_run_end(s: Seq<char>, i: int) -> int
    decreases s.len() - i,
{
    if 0 <= i < s.len() && is_digit(s[i]) {
        digit_run_end(s, i + 1)
    } else {
        i
    }
}

/// Start of the run of digits that ends just before `i`.
pub open spec fn digit_run_start(s: Seq<char>, i: int) -> int
    decreases i,
{
    if 0 < i <= s.len() && is_digit(s[i - 1]) {
        digit_run_start(s, i - 1)
    } else {
        i
    }
}

/// Whether a sector group `<count>*<size><unit><type>` has its `*` at `q`:
/// after the star come digits, one character that is not a digit (the
/// unit), and a word character (the type).
pub open spec fn star_at(s: Seq<char>, q: int) -> bool {
    0 <= q < s.len() && s[q] == '*' && digit_run_end(s, q + 1) + 1 < s.len() && is_word(
        s[digit_run_end(s, q + 1) + 1],
    )
}

/// The first position at or after `q` where a sector group matches.
pub open spec fn first_star(s: Seq<char>, q: int) -> Option<int>
    decreases s.len() - q,
{
    if q < 0 || q >= s.len() {
        None
    } else if star_at(s, q) {
        Some(q)
    } else {
        first_star(s, q + 1)
    }
}

/// Bytes per unit letter: `K` is 1024, `M` is 1024 * 1024, anything else 1.
pub open spec fn unit_multiplier(c: char) -> int {
    if c == 'K' {
        1024
    } else if c == 'M' {
        1048576
    } else {
        1
    }
}

/// A 32-bit value reduced modulo 2^32.
pub open spec fn wrap32(x: int) -> u32 {
    (x % 0x1_0000_0000) as u32
}

/// One sector group of a sector list.
#[derive(Debug, Clone, Copy, PartialEq, Eq, Structural)]
pub struct SectorGroup {
    /// Number of sectors.
    pub count: u32,
    /// Size of a sector in bytes.
    pub size: u32,
    /// Type letter, which gives the access rights.
    pub kind: char,
}

/// The sector group that an entry of a sector list describes, found the
/// way a search for the pattern `(\d*)\*(\d*)(\D)(\w)` finds it (digits
/// and word characters taken as ASCII). A number that does not fit in 32
/// bits reads as zero, and the size is multiplied by its unit modulo 2^32.
pub open spec fn sector_group(s: Seq<char>) -> Option<SectorGroup> {
    match first_star(s, 0) {
        None => None,
        Some(q) => {
            let p = digit_run_start(s, q);
            let r = digit_run_end(s, q + 1);
            Some(
                SectorGroup {
                    count: u32_or_zero(s.subrange(p, q), 10),
                    size: wrap32(u32_or_zero(s.subrange(q + 1, r), 10) * unit_multiplier(s[r])),
                    kind: s[r + 1],
                },
            )
        },
    }
}

/// The region that a sector group describes when it starts at `address`:
/// it ends `count * size - 1` bytes further (modulo 2^32); types a, c, e, g
/// are readable, d, e, f, g writable, and b, c, f, g erasable.
pub open spec fn region_of(address: u32, g: SectorGroup) -> MemorySegmentRegion {
    MemorySegmentRegion {
        start_address: address,
        end_address: wrap32(address + g.count * g.size - 1),
        sector_count: g.count,
        sector_size: g.size,
        readable: g.kind == 'a' || g.kind == 'c' || g.kind == 'e' || g.kind == 'g',
        writable: g.kind == 'd' || g.kind == 'e' || g.kind == 'f' || g.kind == 'g',
        erasable: g.kind == 'b' || g.kind == 'c' || g.kind == 'f' || g.kind == 'g',
    }
}

/// The regions of a sector list whose first group starts at `address`;
/// each group starts where the one before ended. Entries that are no
/// sector group are passed over.
pub open spec fn group_regions(address: u32, entries: Seq<Seq<char>>) -> Seq<MemorySegmentRegion>
    decreases entries.len(),
{
    if entries.len() == 0 {
        Seq::empty()
    } else {
        match sector_group(entries[0]) {
            None => group_regions(address, entries.drop_first()),
            Some(g) => seq![region_of(address, g)] + group_regions(
                wrap32(address + g.count * g.size),
                entries.drop_first(),
            ),
        }
    }
}

/// `s` with every leading `0x` removed.
pub open spec fn strip_hex_prefix(s: Seq<char>) -> Seq<char>
    decreases s.len(),
{
    if s.len() >= 2 && s[0] == '0' && s[1] == 'x' {
        strip_hex_prefix(s.subrange(2, s.len() as int))
    } else {
        s
    }
}

/// The regions that the address / sector list pairs in `parts` describe; an
/// address that does not parse as hexadecimal reads as zero, and a last
/// part without a partner is ignored.
pub open spec fn segment_regions(parts: Seq<Seq<char>>) -> Seq<MemorySegmentRegion>
    decreases parts.len(),
{
    if parts.len() < 2 {
        Seq::empty()
    } else {
        group_regions(u32_or_zero(strip_hex_prefix(parts[0]), 16), split_seq(parts[1], ','))
            + segment_regions(parts.subrange(2, parts.len() as int))
    }
}

/// The name of a segment: the part before the first `/`, trimmed, without
/// its first character (the `@`).
pub open spec fn segment_name(desc: Seq<char>) -> Seq<char> {
    let t = trim(split_seq(desc, '/')[0]);
    if t.len() == 0 {
        t
    } else {
        t.drop_first()
    }
}

fn digit(c: char) -> (r: bool)
    ensures
        r == is_digit(c),
{
    '0' <= c && c <= '9'
}

fn word(c: char) -> (r: bool)
    ensures
        r == is_word(c),
{
    ('a' <= c && c <= 'z') || ('A' <= c && c <= 'Z') || ('0' <= c && c <= '9') || c == '_'
}

fn run_end(s: &Vec<char>, i: usize) -> (r: usize)
    requires
        i <= s@.len(),
    ensures
        r as int == digit_run_end(s@, i as int),
        i <= r <= s@.len(),
{
    let mut j = i;
    while j < s.len() && digit(s[j])
        invariant
            i <= j <= s@.len(),
            digit_run_end(s@, j as int) == digit_run_end(s@, i as int),
        decreases s@.len() - j,
    {
        j = j + 1;
    }
    j
}

fn run_start(s: &Vec<char>, i: usize) -> (r: usize)
    requires
        i <= s@.len(),
    ensures
        r as int == digit_run_start(s@, i as int),
        r <= i,
{
    let mut j = i;
    while j > 0 && digit(s[j - 1])
        invariant
            j <= i <= s@.len(),
            digit_run_start(s@, j as int) == digit_run_start(s@, i as int),
        decreases j,
    {
        j = j - 1;
    }
    j
}

/// Reads one entry of a sector list.
pub fn parse_sector_group(s: &Vec<char>) -> (r: Option<SectorGroup>)
    ensures
        r == sector_group(s@),
{
    let mut q: usize = 0;
    while q < s.len()
        invariant
            q <= s@.len(),
            first_star(s@, 0) == first_star(s@, q as int),
        decreases s@.len() - q,
    {
        if s[q] == '*' {
            let r = run_end(s, q + 1);
            if r < s.len() && r + 1 < s.len() && word(s[r + 1]) {
                assert(star_at(s@, q as int));
                let p = run_start(s, q);
                let count = match parse_u32_at(s, p, q, 10) {
                    Some(v) => v,
                    None => 0,
                };
                let value = match parse_u32_at(s, q + 1, r, 10) {
                    Some(v) => v,
                    None => 0,
                };
                let unit = s[r];
                let multiplier: u64 = if unit == 'K' {
                    1024
                } else if unit == 'M' {
                    1024 * 1024
                } else {
                    1
                };
                assert(value as u64 * multiplier <= 0xFFFF_FFFFu64 * 0x10_0000u64) by (nonlinear_arith)
                    requires
                        multiplier <= 0x10_0000,
                ;
                let size = ((value as u64 * multiplier) % 0x1_0000_0000u64) as u32;
                return Some(SectorGroup { count, size, kind: s[r + 1] });
            }
        }
        q = q + 1;
    }
    None
}

/// The region that starts at `address`, and the address after it.
fn make_region(address: u32, count: u32, size: u32, kind: char) -> (r: (MemorySegmentRegion, u32))
    ensures
        r.0 == region_of(address, SectorGroup { count, size, kind }),
        r.1 == wrap32(address + count * size),
{
    assert(count as u64 * size as u64 <= 0xFFFF_FFFFu64 * 0xFFFF_FFFFu64) by (nonlinear_arith);
    let total: u64 = count as u64 * size as u64;
    let next: u64 = (address as u64 + total % 0x1_0000_0000u64) % 0x1_0000_0000u64;
    let end: u64 = (next + 0xFFFF_FFFFu64) % 0x1_0000_0000u64;
    proof {
        let m: int = 0x1_0000_0000;
        lemma_add_mod_noop(address as int, total as int, m);
        assert((address as int) % m == address as int);
        lemma_add_mod_noop(address + total, m - 1, m);
        assert(((address + total) % m + (m - 1) % m) % m == (address + total + m - 1) % m);
        assert((address + total + m - 1) % m == (address + total - 1) % m) by {
            vstd::arithmetic::div_mod::lemma_mod_add_multiples_vanish(
                address + total - 1,
                m,
            );
        }
    }
    let region = MemorySegmentRegion {
        start_address: address,
        end_address: end as u32,
        sector_count: count,
        sector_size: size,
        readable: kind == 'a' || kind == 'c' || kind == 'e' || kind == 'g',
        writable: kind == 'd' || kind == 'e' || kind == 'f' || kind == 'g',
        erasable: kind == 'b' || kind == 'c' || kind == 'f' || kind == 'g',
    };
    (region, next as u32)
}

/// Position after the leading `0x` prefixes of `s`.
fn skip_hex_prefix(s: &Vec<char>) -> (r: usize)
    ensures
        r <= s@.len(),
        s@.subrange(r as int, s@.len() as int) == strip_hex_prefix(s@),
{
    let mut a: usize = 0;
    assert(s@.subrange(0, s@.len() as int) =~= s@);
    while a < s.len() && a + 1 < s.len() && s[a] == '0' && s[a + 1] == 'x'
        invariant
            a <= s@.len(),
            strip_hex_prefix(s@.subrange(a as int, s@.len() as int)) == strip_hex_prefix(s@),
        decreases s@.len() - a,
    {
        assert(s@.subrange(a as int, s@.len() as int).subrange(2, s@.len() - a) =~= s@.subrange(
            a + 2,
            s@.len() as int,
        ));
        a = a + 2;
    }
    a
}

/// Appends the regions of one sector list whose first group starts at `address`.
fn push_group_regions(regions: &mut Vec<MemorySegmentRegion>, address: u32, list: &Vec<char>)
    ensures
        final(regions)@ == old(regions)@ + group_regions(address, split_seq(list@, ',')),
{
    let entries = split_chars(list, ',');
    let ghost all = views(entries@);
    let ghost start = regions@;
    let ghost old_address = address;
    let mut address = address;
    let mut e: usize = 0;
    assert(all.subrange(0, all.len() as int) =~= all);
    while e < entries.len()
        invariant
            e <= entries@.len(),
            start == old(regions)@,
            all == views(entries@),
            all == split_seq(list@, ','),
            regions@ + group_regions(address, all.subrange(e as int, all.len() as int)) == start
                + group_regions(old_address, all),
        decreases entries@.len() - e,
    {
        let ghost rest = all.subrange(e as int, all.len() as int);
        assert(rest.drop_first() =~= all.subrange(e + 1, all.len() as int));
        assert(rest[0] == entries@[e as int]@);
        match parse_sector_group(&entries[e]) {
            None => {},
            Some(g) => {
                let (region, next) = make_region(address, g.count, g.size, g.kind);
                let ghost before = regions@;
                regions.push(region);
                assert(regions@ + group_regions(next, rest.drop_first()) =~= before + group_regions(
                    address,
                    rest,
                ));
                address = next;
            },
        }
        e = e + 1;
    }
    assert(all.subrange(e as int, all.len() as int) =~= Seq::<Seq<char>>::empty());
    assert(regions@ =~= start + group_regions(old_address, all));
}

impl MemorySegment {
    /// Parses a memory segment descriptor. Parsing never fails: numbers that
    /// do not read are zero, and entries that are no sector group are
    /// passed over.
    pub fn from_string_desc(string_desc: &str) -> (r: Self)
        ensures
            r.name@ == segment_name(string_desc@),
            r.regions@ == segment_regions(split_seq(string_desc@, '/').drop_first()),
    {
        let chars = chars_of(string_desc);
        let mut k: usize = 0;
        while k < chars.len() && chars[k] != '/'
            invariant
                k <= chars@.len(),
                forall|j: int| 0 <= j < k ==> chars@[j] != '/',
            decreases chars@.len() - k,
        {
            k = k + 1;
        }
        proof {
            lemma_first_index(chars@, '/', k as int);
            assert(chars@.subrange(0, chars@.len() as int) =~= chars@);
            assert(split_seq(chars@, '/')[0] == chars@.subrange(0, k as int));
        }
        let (a, b) = trim_bounds(&chars, 0, k);
        let name = if a < b {
            let text = string_desc.substring_char(a + 1, b);
            proof {
                assert(chars@.subrange(a as int, b as int).drop_first() =~= chars@.subrange(
                    a + 1,
                    b as int,
                ));
            }
            String::from_str(text)
        } else {
            String::new()
        };
        let parts = split_chars(&chars, '/');
        let ghost all = views(parts@);
        let mut regions: Vec<MemorySegmentRegion> = Vec::new();
        let mut idx: usize = 1;
        assert(regions@ + segment_regions(all.subrange(1, all.len() as int)) =~= segment_regions(
            all.subrange(1, all.len() as int),
        ));
        while idx < parts.len() && idx + 1 < parts.len()
            invariant
                1 <= idx <= parts@.len(),
                all == views(parts@),
                regions@ + segment_regions(all.subrange(idx as int, all.len() as int))
                    == segment_regions(all.subrange(1, all.len() as int)),
            decreases parts@.len() - idx,
        {
            let ghost rest = all.subrange(idx as int, all.len() as int);
            let token = &parts[idx];
            let from = skip_hex_prefix(token);
            let address = match parse_u32_at(token, from, token.len(), 16) {
                Some(v) => v,
                None => 0,
            };
            let ghost before = regions@;
            push_group_regions(&mut regions, address, &parts[idx + 1]);
            proof {
                assert(rest[0] == token@);
                assert(rest[1] == parts@[idx + 1]@);
                assert(rest.subrange(2, rest.len() as int) =~= all.subrange(
                    idx + 2,
                    all.len() as int,
                ));
                assert(regions@ + segment_regions(all.subrange(idx + 2, all.len() as int))
                    =~= before + segment_regions(rest));
            }
            idx = idx + 2;
        }
        assert(regions@ =~= segment_regions(all.subrange(1, all.len() as int)));
        assert(all.subrange(1, all.len() as int) =~= split_seq(string_desc@, '/').drop_first());
        MemorySegment { name, regions }
    }
}

/// The payload of a DfuSe command: the command byte, then the address in
/// little-endian order.
pub open spec fn command_payload(command: u8, address: u32) -> Seq<u8> {
    seq![
        command,
        (address % 0x100) as u8,
        ((address / 0x100) % 0x100) as u8,
        ((address / 0x1_0000) % 0x100) as u8,
        (address / 0x100_0000) as u8,
    ]
}

/// Whether `r` is the DFU_DNLOAD request, block zero, that carries a DfuSe command.
pub open spec fn is_command_request(r: Request, command: u8, address: u32) -> bool {
    match r {
        Request::Download { block_num, data } => block_num == 0 && data@ == command_payload(
            command,
            address,
        ),
        _ => false,
    }
}

fn command_request(command: u8, address: u32) -> (r: Request)
    ensures
        is_command_request(r, command, address),
{
    let mut data: Vec<u8> = Vec::new();
    data.push(command);
    data.push((address % 0x100) as u8);
    data.push(((address / 0x100) % 0x100) as u8);
    data.push(((address / 0x1_0000) % 0x100) as u8);
    data.push((address / 0x100_0000) as u8);
    assert(data@ =~= command_payload(command, address));
    Request::Download { block_num: 0, data }
}

/// The "Set Address Pointer" command for `address`.
pub fn set_address_request(address: u32) -> (r: Request)
    ensures
        is_command_request(r, CMD_SET_ADDRESS_PTR, address),
{
    command_request(CMD_SET_ADDRESS_PTR, address)
}

/// The "Erase Page" command for the page at `address`.
pub fn erase_page_request(address: u32) -> (r: Request)
    ensures
        is_command_request(r, CMD_ERASE_PAGE, address),
{
    command_request(CMD_ERASE_PAGE, address)
}

/// Vendor id of STMicroelectronics.
pub const STM32_VENDOR_ID: u16 = 0x0483;

/// Product id of the STM32 DFU bootloader.
pub const STM32_DFU_PRODUCT_ID: u16 = 0xdf11;

/// Serial number of the STM32H7 unit whose erase beyond 1 MB never leaves
/// the busy state.
pub const STM32H7_FAULTY_SERIAL: &'static str = "200364500000";

/// Whether the device is an STM32 in its DFU bootloader.
pub open spec fn is_stm32_spec(info: DeviceInfo) -> bool {
    info.vendor_id == STM32_VENDOR_ID && info.product_id == STM32_DFU_PRODUCT_ID
}

/// Whether the device is the STM32H7 unit with the known erase defect.
pub open spec fn is_faulty_stm32h7(info: DeviceInfo) -> bool {
    is_stm32_spec(info) && info.serial_number_string@ == STM32H7_FAULTY_SERIAL@
}

/// Whether a failed wait after an erase is the known defect of the faulty
/// unit, which two DFU_CLRSTATUS requests recover from.
pub open spec fn erase_recovers(info: DeviceInfo, err: Error) -> bool {
    is_faulty_stm32h7(info) && err == Error::InvalidDeviceState(DeviceStateCode::dfuDNBUSY)
}

/// Whether the device is an STM32 in its DFU bootloader.
pub fn is_stm32(info: &DeviceInfo) -> (r: bool)
    ensures
        r == is_stm32_spec(*info),
{
    info.vendor_id == STM32_VENDOR_ID && info.product_id == STM32_DFU_PRODUCT_ID
}

/// Whether the device is the STM32H7 unit with the known erase defect.
pub fn is_stm32h7(info: &DeviceInfo) -> (r: bool)
    ensures
        r == is_faulty_stm32h7(*info),
{
    let faulty = String::from_str(STM32H7_FAULTY_SERIAL);
    is_stm32(info) && info.serial_number_string == faulty
}

/// Whether the erase workaround applies to a wait that failed with `err`.
pub fn stm32h7_erase_workaround(info: &DeviceInfo, err: Error) -> (r: bool)
    ensures
        r == erase_recovers(*info, err),
{
    is_stm32h7(info) && err == Error::InvalidDeviceState(DeviceStateCode::dfuDNBUSY)
}

/// The erase workaround applies only to the faulty unit itself: where the
/// vendor id, the product id or the serial number differs, a failed wait
/// after an erase keeps its error, and for that unit only the
/// `InvalidDeviceState(dfuDNBUSY)` failure is recovered from.
pub proof fn lemma_erase_workaround_scope(info: DeviceInfo, err: Error)
    ensures
        erase_recovers(info, err) <==> (info.vendor_id == 0x0483 && info.product_id == 0xdf11
            && info.serial_number_string@ == STM32H7_FAULTY_SERIAL@ && err
            == Error::InvalidDeviceState(DeviceStateCode::dfuDNBUSY)),
{
}

} // verus!
