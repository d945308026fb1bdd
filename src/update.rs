//! The update sequence: erase, program and verify, planned from a firmware
//! image and the device's memory map.
//!
//! Each phase is first laid out as a list of operations (`Op`): which pages
//! to erase, which chunks to write or read back with which block numbers,
//! and what progress to report after each. `session` then carries the list
//! out against the device.

use vstd::prelude::*;

use crate::device::{Error as DeviceError, UsbError};
use crate::dfuse::{segment_regions, MemorySegment, MemorySegmentRegion};
use crate::info::DeviceInfo;
use crate::text::split_seq;
use vstd::arithmetic::div_mod::lemma_add_mod_noop;

verus! {

/// Step of the update procedure.
#[derive(Debug, Clone, Copy, PartialEq, Eq, Structural)]
pub enum DeviceUpdateStep {
    /// Erase the memory that the image covers.
    Erase,
    /// Write the image to the device.
    Program,
    /// Read the memory back and compare it with the image.
    Verify,
}

/// Errors of the update procedure.
#[derive(Debug, Clone, Copy, PartialEq, Eq, Structural)]
pub enum Error {
    /// No memory segment (alternate setting) of the device for the image's target.
    TargetNotFound(u8),
    /// No erasable region of the segment covers the address range.
    MemoryRegionNotFound(u32, u32),
    /// The memory read back differs from the image at this address.
    VerificationFailed(u32),
    /// Plain DFU images cannot be programmed or verified.
    PlainDfuNotSupported,
    /// The segment for this alternate setting gives no usable transfer size.
    NoTransferSize(u8),
    /// The device failed a DFU request.
    Device(DeviceError),
    /// The USB transport failed.
    Usb(UsbError),
}

/// One element of a target image: bytes destined for one device address.
pub struct Element {
    /// Device address of the first byte.
    pub address: u32,
    /// The bytes.
    pub data: Vec<u8>,
}

/// One target image, destined for one alternate setting of the device.
pub struct Target {
    /// The alternate setting (memory segment) it is written to.
    pub alt_setting: u8,
    /// Its elements, in file order.
    pub elements: Vec<Element>,
}

/// The content of a firmware file.
pub enum Content {
    /// A plain DFU image, without addresses.
    Plain,
    /// A DfuSe image: targets with addressed elements.
    DfuSe(Vec<Target>),
}

/// Progress within a phase, as three nested fractions: the step within the
/// element, the element within the target, and the target within the image.
/// Its value is `(done / total) * (element / elements) * (target / targets)`,
/// with `element` and `target` counted from one.
#[derive(Debug, Clone, Copy, PartialEq, Eq, Structural)]
pub struct Progress {
    /// Steps done within the element.
    pub done: u64,
    /// Steps of the element.
    pub total: u64,
    /// Element number, from one.
    pub element: u64,
    /// Elements of the target.
    pub elements: u64,
    /// Target number, from one.
    pub target: u64,
    /// Targets of the image.
    pub targets: u64,
}

/// Numerator of a progress value.
pub open spec fn progress_num(p: Progress) -> int {
    p.done * p.element * p.target
}

/// Denominator of a progress value.
pub open spec fn progress_den(p: Progress) -> int {
    p.total * p.elements * p.targets
}

/// A chunk of an element to transfer.
#[derive(Debug, Clone, Copy, PartialEq, Eq, Structural)]
pub struct Chunk {
    /// Index of the target in the image.
    pub target: usize,
    /// Index of the element in the target.
    pub element: usize,
    /// Offset of the chunk in the element's data.
    pub offset: usize,
    /// Length of the chunk.
    pub length: usize,
    /// Block number of the transfer.
    pub block_num: u16,
    /// Device address of the chunk's first byte.
    pub address: u32,
}

/// One operation of a phase.
#[derive(Debug, Clone, Copy, PartialEq, Eq, Structural)]
pub enum Op {
    /// Erase the page at this address.
    ErasePage(u32),
    /// Set the address pointer for the transfers that follow.
    SetAddress(u32),
    /// Write a chunk of the image.
    Write(Chunk),
    /// Read a chunk back and compare it with the image.
    Check(Chunk),
    /// Report progress.
    Report(Progress),
    /// Stop the phase with an error.
    Fail(Error),
}

/// The description string of an alternate setting, if the device has it
/// (the first one listed with that number).
pub open spec fn alt_description(alts: Seq<(u8, String)>, alt: u8) -> Option<Seq<char>>
    decreases alts.len(),
{
    if alts.len() == 0 {
        None
    } else if alts[0].0 == alt {
        Some(alts[0].1@)
    } else {
        alt_description(alts.drop_first(), alt)
    }
}

/// The regions of the memory segment of an alternate setting.
pub open spec fn alt_regions(desc: Seq<char>) -> Seq<MemorySegmentRegion> {
    segment_regions(split_seq(desc, '/').drop_first())
}

/// Whether a region can be erased page by page over `start..=end`.
pub open spec fn covers(r: MemorySegmentRegion, start: int, end: int) -> bool {
    r.erasable && r.sector_size > 0 && r.start_address <= start && end <= r.end_address
}

/// Size of a region's address range.
pub open spec fn span(r: MemorySegmentRegion) -> int {
    r.end_address - r.start_address
}

/// Whether region `i` is the smallest region covering `start..=end` (the
/// first of the smallest, if several have the same size).
pub open spec fn is_smallest_cover(regions: Seq<MemorySegmentRegion>, start: int, end: int, i: int) -> bool {
    0 <= i < regions.len() && covers(regions[i], start, end) && forall|j: int|
        0 <= j < regions.len() && #[trigger] covers(regions[j], start, end) ==> span(regions[i])
            < span(regions[j]) || (span(regions[i]) == span(regions[j]) && i <= j)
}

/// The smallest region covering `start..=end`, if any region covers it.
pub open spec fn smallest_cover(regions: Seq<MemorySegmentRegion>, start: int, end: int) -> Option<int> {
    if exists|i: int| is_smallest_cover(regions, start, end, i) {
        Some(choose|i: int| is_smallest_cover(regions, start, end, i))
    } else {
        None
    }
}

/// The smallest sector size of a segment (zero if it has no regions).
pub open spec fn min_sector_size(regions: Seq<MemorySegmentRegion>) -> int
    decreases regions.len(),
{
    if regions.len() == 0 {
        0
    } else if regions.len() == 1 {
        regions[0].sector_size as int
    } else {
        let m = min_sector_size(regions.drop_last());
        if regions.last().sector_size < m {
            regions.last().sector_size as int
        } else {
            m
        }
    }
}

/// The chunk size of transfers to a segment: its smallest sector size, but
/// no more than the device's maximum transfer size.
pub open spec fn transfer_size(regions: Seq<MemorySegmentRegion>, device_max: u16) -> int {
    let m = min_sector_size(regions);
    if m < device_max {
        m
    } else {
        device_max as int
    }
}

/// Address of the last byte of a non-empty element.
pub open spec fn element_last(e: Element) -> int {
    e.address + e.data@.len() - 1
}

/// The erase operations of one element, with the region chosen for it:
/// every sector from the one holding the first byte up to the one holding
/// the last byte, each followed by the progress after it.
pub open spec fn erase_steps(
    region: MemorySegmentRegion,
    e: Element,
    ei: int,
    elements: int,
    ti: int,
    targets: int,
) -> Seq<Op> {
    let ss = region.sector_size as int;
    let first = e.address as int / ss;
    let count = element_last(e) / ss - first + 1;
    Seq::new(
        (2 * count) as nat,
        |j: int|
            if j % 2 == 0 {
                Op::ErasePage(((first + j / 2) * ss) as u32)
            } else {
                Op::Report(
                    Progress {
                        done: (j / 2 + 1) as u64,
                        total: count as u64,
                        element: (ei + 1) as u64,
                        elements: elements as u64,
                        target: (ti + 1) as u64,
                        targets: targets as u64,
                    },
                )
            },
    )
}

/// Number of chunks of `len` bytes in pieces of `ts`.
pub open spec fn chunk_count(len: int, ts: int) -> int {
    len / ts + (if len % ts == 0 { 0int } else { 1int })
}

/// The chunk with number `c` of element `ei` of target `ti`: block numbers
/// start at 2 (modulo 2^16), offsets advance by the transfer size.
pub open spec fn chunk_of(e: Element, ti: int, ei: int, ts: int, c: int) -> Chunk {
    let len = e.data@.len() as int;
    Chunk {
        target: ti as usize,
        element: ei as usize,
        offset: (c * ts) as usize,
        length: (if len - c * ts < ts { len - c * ts } else { ts }) as usize,
        block_num: ((c + 2) % 0x1_0000) as u16,
        address: ((e.address + c * ts) % 0x1_0000_0000) as u32,
    }
}

/// The transfer operations of one element: the address pointer set to its
/// start, then each chunk (written or checked) followed by the progress after it.
pub open spec fn transfer_steps(
    write: bool,
    e: Element,
    ts: int,
    ei: int,
    elements: int,
    ti: int,
    targets: int,
) -> Seq<Op> {
    let n = chunk_count(e.data@.len() as int, ts);
    seq![Op::SetAddress(e.address)] + Seq::new(
        (2 * n) as nat,
        |j: int|
            if j % 2 == 0 {
                if write {
                    Op::Write(chunk_of(e, ti, ei, ts, j / 2))
                } else {
                    Op::Check(chunk_of(e, ti, ei, ts, j / 2))
                }
            } else {
                Op::Report(
                    Progress {
                        done: (j / 2 + 1) as u64,
                        total: n as u64,
                        element: (ei + 1) as u64,
                        elements: elements as u64,
                        target: (ti + 1) as u64,
                        targets: targets as u64,
                    },
                )
            },
    )
}

/// The operations of one element in a phase.
pub open spec fn element_ops(
    step: DeviceUpdateStep,
    regions: Seq<MemorySegmentRegion>,
    ts: int,
    e: Element,
    ei: int,
    elements: int,
    ti: int,
    targets: int,
) -> Seq<Op> {
    match step {
        DeviceUpdateStep::Erase => if e.data@.len() == 0 {
            Seq::empty()
        } else {
            match smallest_cover(regions, e.address as int, element_last(e)) {
                None => seq![
                    Op::Fail(
                        Error::MemoryRegionNotFound(
                            e.address,
                            (element_last(e) % 0x1_0000_0000) as u32,
                        ),
                    ),
                ],
                Some(i) => erase_steps(regions[i], e, ei, elements, ti, targets),
            }
        },
        DeviceUpdateStep::Program => transfer_steps(true, e, ts, ei, elements, ti, targets),
        DeviceUpdateStep::Verify => transfer_steps(false, e, ts, ei, elements, ti, targets),
    }
}

/// Whether a list of operations ends with a failure.
pub open spec fn halts(ops: Seq<Op>) -> bool {
    ops.len() > 0 && ops.last() is Fail
}

/// The operations of the elements of a target from index `ei` on; the
/// first failure ends the list.
pub open spec fn elements_ops(
    step: DeviceUpdateStep,
    regions: Seq<MemorySegmentRegion>,
    ts: int,
    elems: Seq<Element>,
    ei: int,
    ti: int,
    targets: int,
) -> Seq<Op>
    decreases elems.len() - ei,
{
    if ei < 0 || ei >= elems.len() {
        Seq::empty()
    } else {
        let o = element_ops(step, regions, ts, elems[ei], ei, elems.len() as int, ti, targets);
        if halts(o) {
            o
        } else {
            o + elements_ops(step, regions, ts, elems, ei + 1, ti, targets)
        }
    }
}

/// The operations of one target: it fails if the device has no segment for
/// its alternate setting, or (for transfers) if that segment gives a zero
/// transfer size.
pub open spec fn target_ops(step: DeviceUpdateStep, info: DeviceInfo, t: Target, ti: int, targets: int) -> Seq<Op> {
    match alt_description(info.alt_settings@, t.alt_setting) {
        None => seq![Op::Fail(Error::TargetNotFound(t.alt_setting))],
        Some(desc) => {
            let regions = alt_regions(desc);
            let ts = transfer_size(regions, info.dfu_transfer_size);
            if step != DeviceUpdateStep::Erase && ts == 0 {
                seq![Op::Fail(Error::NoTransferSize(t.alt_setting))]
            } else {
                elements_ops(step, regions, ts, t.elements@, 0, ti, targets)
            }
        },
    }
}

/// The operations of the targets from index `ti` on; the first failure
/// ends the list.
pub open spec fn targets_ops(step: DeviceUpdateStep, info: DeviceInfo, targets: Seq<Target>, ti: int) -> Seq<Op>
    decreases targets.len() - ti,
{
    if ti < 0 || ti >= targets.len() {
        Seq::empty()
    } else {
        let o = target_ops(step, info, targets[ti], ti, targets.len() as int);
        if halts(o) {
            o
        } else {
            o + targets_ops(step, info, targets, ti + 1)
        }
    }
}

/// The operations of a phase. A plain image has no addresses, so it can
/// be neither erased page by page, nor programmed, nor verified.
pub open spec fn phase_ops(step: DeviceUpdateStep, content: Content, info: DeviceInfo) -> Seq<Op> {
    match content {
        Content::Plain => seq![Op::Fail(Error::PlainDfuNotSupported)],
        Content::DfuSe(targets) => targets_ops(step, info, targets@, 0),
    }
}

/// Finds the alternate setting `alt` among the device's alternate settings.
pub fn find_alt(alts: &Vec<(u8, String)>, alt: u8) -> (r: Option<usize>)
    ensures
        r is None <==> alt_description(alts@, alt) is None,
        r is Some ==> r->0 < alts@.len() && alt_description(alts@, alt) == Some(
            alts@[r->0 as int].1@,
        ),
{
    let mut i: usize = 0;
    assert(alts@.subrange(0, alts@.len() as int) =~= alts@);
    while i < alts.len()
        invariant
            i <= alts@.len(),
            alt_description(alts@.subrange(i as int, alts@.len() as int), alt) == alt_description(
                alts@,
                alt,
            ),
        decreases alts@.len() - i,
    {
        assert(alts@.subrange(i as int, alts@.len() as int).drop_first() =~= alts@.subrange(
            i + 1,
            alts@.len() as int,
        ));
        if alts[i].0 == alt {
            return Some(i);
        }
        i = i + 1;
    }
    None
}

/// Finds the smallest erasable region that covers `start..=end`.
pub fn smallest_covering_region(regions: &Vec<MemorySegmentRegion>, start: u64, end: u64) -> (r:
    Option<usize>)
    ensures
        r is None <==> smallest_cover(regions@, start as int, end as int) is None,
        r is Some ==> smallest_cover(regions@, start as int, end as int) == Some(r->0 as int),
        r is Some ==> r->0 < regions@.len(),
{
    let mut best: Option<usize> = None;
    let mut i: usize = 0;
    while i < regions.len()
        invariant
            i <= regions@.len(),
            best is None ==> forall|j: int| 0 <= j < i ==> !#[trigger] covers(regions@[j], start as int, end as int),
            best is Some ==> best->0 < i && covers(regions@[best->0 as int], start as int, end as int),
            best is Some ==> forall|j: int|
                0 <= j < i && #[trigger] covers(regions@[j], start as int, end as int) ==> span(
                    regions@[best->0 as int],
                ) < span(regions@[j]) || (span(regions@[best->0 as int]) == span(regions@[j])
                    && best->0 <= j),
        decreases regions@.len() - i,
    {
        let r = regions[i];
        if r.erasable && r.sector_size > 0 && r.start_address as u64 <= start && end
            <= r.end_address as u64 {
            match best {
                None => {
                    best = Some(i);
                },
                Some(b) => {
                    let rb = regions[b];
                    if (r.end_address as i64 - r.start_address as i64) < (rb.end_address as i64
                        - rb.start_address as i64) {
                        best = Some(i);
                    }
                },
            }
        }
        i = i + 1;
    }
    match best {
        None => {
            assert(!exists|k: int| is_smallest_cover(regions@, start as int, end as int, k));
            None
        },
        Some(b) => {
            assert(is_smallest_cover(regions@, start as int, end as int, b as int));
            assert forall|k: int| is_smallest_cover(regions@, start as int, end as int, k) implies k
                == b by {}
            Some(b)
        },
    }
}

/// The smallest sector size of the regions (zero if there are none).
pub fn smallest_sector_size(regions: &Vec<MemorySegmentRegion>) -> (r: u32)
    ensures
        r == min_sector_size(regions@),
{
    if regions.len() == 0 {
        return 0;
    }
    let mut m: u32 = regions[0].sector_size;
    let mut i: usize = 1;
    assert(regions@.subrange(0, 1).drop_last() =~= Seq::<MemorySegmentRegion>::empty());
    while i < regions.len()
        invariant
            1 <= i <= regions@.len(),
            m == min_sector_size(regions@.subrange(0, i as int)),
        decreases regions@.len() - i,
    {
        assert(regions@.subrange(0, i + 1).drop_last() =~= regions@.subrange(0, i as int));
        if regions[i].sector_size < m {
            m = regions[i].sector_size;
        }
        i = i + 1;
    }
    assert(regions@.subrange(0, i as int) =~= regions@);
    m
}

/// The chunk size of transfers to a segment with these regions.
pub fn segment_transfer_size(regions: &Vec<MemorySegmentRegion>, device_max: u16) -> (r: u32)
    ensures
        r == transfer_size(regions@, device_max),
{
    let m = smallest_sector_size(regions);
    if m < device_max as u32 {
        m
    } else {
        device_max as u32
    }
}

fn push_erase_steps(
    ops: &mut Vec<Op>,
    region: MemorySegmentRegion,
    e: &Element,
    end: u64,
    ei: usize,
    elements: usize,
    ti: usize,
    targets: usize,
)
    requires
        end == element_last(*e),
        e.data@.len() > 0,
        covers(region, e.address as int, end as int),
        ei < elements,
        ti < targets,
    ensures
        final(ops)@ == old(ops)@ + erase_steps(region, *e, ei as int, elements as int, ti as int, targets as int),
{
    let ghost steps = erase_steps(region, *e, ei as int, elements as int, ti as int, targets as int);
    let ghost base = ops@;
    let ss = region.sector_size as u64;
    let first = e.address as u64 / ss;
    let last = end / ss;
    assert(first <= last) by (nonlinear_arith)
        requires
            e.address <= end,
            ss > 0,
            first == e.address as u64 / ss,
            last == end / ss,
    ;
    let count = last - first + 1;
    assert(last * ss <= end) by (nonlinear_arith)
        requires
            ss > 0,
            last == end / ss,
    ;
    let mut k: u64 = 0;
    while k < count
        invariant
            k <= count,
            count == last - first + 1,
            ss == region.sector_size,
            ss > 0,
            last * ss <= end <= 0xFFFF_FFFF,
            first == e.address as int / ss as int,
            last == end as int / ss as int,
            end == element_last(*e),
            e.data@.len() > 0,
            ei < elements,
            ti < targets,
            steps == erase_steps(region, *e, ei as int, elements as int, ti as int, targets as int),
            steps.len() == 2 * count,
            ops@ == base + steps.subrange(0, 2 * k),
        decreases count - k,
    {
        assert((first + k) * ss <= last * ss) by (nonlinear_arith)
            requires
                first + k <= last,
                ss > 0,
        ;
        let address = ((first + k) * ss) as u32;
        ops.push(Op::ErasePage(address));
        ops.push(
            Op::Report(
                Progress {
                    done: k + 1,
                    total: count,
                    element: ei as u64 + 1,
                    elements: elements as u64,
                    target: ti as u64 + 1,
                    targets: targets as u64,
                },
            ),
        );
        proof {
            assert(steps[2 * k] == Op::ErasePage(address));
            assert(steps[2 * k + 1] == Op::Report(
                Progress {
                    done: (k + 1) as u64,
                    total: count,
                    element: (ei + 1) as u64,
                    elements: elements as u64,
                    target: (ti + 1) as u64,
                    targets: targets as u64,
                },
            ));
            assert(ops@ =~= base + steps.subrange(0, 2 * (k + 1)));
        }
        k = k + 1;
    }
    assert(steps.subrange(0, 2 * k) =~= steps);
}

proof fn lemma_chunk_in_range(len: int, ts: int, c: int)
    requires
        ts > 0,
        len >= 0,
        0 <= c < chunk_count(len, ts),
    ensures
        c * ts < len,
        (c + 1) * ts == c * ts + ts,
{
    let q = len / ts;
    let r = len % ts;
    assert(len == q * ts + r && 0 <= r < ts) by (nonlinear_arith)
        requires
            ts > 0,
            q == len / ts,
            r == len % ts,
    ;
    if r == 0 {
        assert(c * ts < len) by (nonlinear_arith)
            requires
                c < q,
                len == q * ts,
                ts > 0,
                c >= 0,
        ;
    } else {
        assert(c * ts < len) by (nonlinear_arith)
            requires
                c <= q,
                len == q * ts + r,
                r > 0,
                ts > 0,
                c >= 0,
        ;
    }
    assert((c + 1) * ts == c * ts + ts) by (nonlinear_arith);
}

fn push_transfer_steps(
    ops: &mut Vec<Op>,
    write: bool,
    e: &Element,
    ts: u32,
    ei: usize,
    elements: usize,
    ti: usize,
    targets: usize,
)
    requires
        ts > 0,
        ei < elements,
        ti < targets,
    ensures
        final(ops)@ == old(ops)@ + transfer_steps(write, *e, ts as int, ei as int, elements as int, ti as int, targets as int),
{
    let ghost steps = transfer_steps(write, *e, ts as int, ei as int, elements as int, ti as int, targets as int);
    let ghost body = steps.drop_first();
    let ghost base = ops@;
    let len = e.data.len();
    let tsz = ts as usize;
    assert(len % tsz != 0 ==> len / tsz < len) by (nonlinear_arith)
        requires
            tsz > 0,
    ;
    let n: usize = len / tsz + if len % tsz == 0 { 0 } else { 1 };
    if n > 0 {
        proof {
            lemma_chunk_in_range(len as int, ts as int, 0);
        }
    }
    assert(n as int == chunk_count(len as int, ts as int));
    ops.push(Op::SetAddress(e.address));
    let mut c: usize = 0;
    let mut offset: usize = 0;
    assert(body.len() == 2 * n);
    while c < n
        invariant
            c <= n,
            n == chunk_count(len as int, ts as int),
            len == e.data@.len(),
            tsz == ts,
            ts > 0,
            ei < elements,
            ti < targets,
            c < n ==> offset == c * ts,
            c < n ==> offset < len,
            steps == transfer_steps(write, *e, ts as int, ei as int, elements as int, ti as int, targets as int),
            body == steps.drop_first(),
            body.len() == 2 * n,
            steps[0] == Op::SetAddress(e.address),
            ops@ == base + seq![Op::SetAddress(e.address)] + body.subrange(0, 2 * c),
        decreases n - c,
    {
        proof {
            lemma_chunk_in_range(len as int, ts as int, c as int);
        }
        let rest = len - offset;
        let length = if rest < tsz { rest } else { tsz };
        let address = ((e.address as u64 + offset as u64 % 0x1_0000_0000u64) % 0x1_0000_0000u64) as u32;
        proof {
            lemma_add_mod_noop(e.address as int, offset as int, 0x1_0000_0000);
            assert((e.address as int) % 0x1_0000_0000 == e.address as int);
        }
        let block_num = (((c % 0x1_0000) as u64 + 2) % 0x1_0000u64) as u16;
        proof {
            lemma_add_mod_noop(c as int, 2, 0x1_0000);
        }
        let chunk = Chunk { target: ti, element: ei, offset, length, block_num, address };
        assert(chunk == chunk_of(*e, ti as int, ei as int, ts as int, c as int));
        if write {
            ops.push(Op::Write(chunk));
        } else {
            ops.push(Op::Check(chunk));
        }
        ops.push(
            Op::Report(
                Progress {
                    done: c as u64 + 1,
                    total: n as u64,
                    element: ei as u64 + 1,
                    elements: elements as u64,
                    target: ti as u64 + 1,
                    targets: targets as u64,
                },
            ),
        );
        proof {
            assert(ops@ =~= base + seq![Op::SetAddress(e.address)] + body.subrange(0, 2 * (c + 1)));
        }
        if c + 1 < n {
            proof {
                lemma_chunk_in_range(len as int, ts as int, c + 1);
            }
        }
        offset = if c + 1 < n { offset + tsz } else { offset };
        c = c + 1;
        proof {
            if c < n {
                assert(offset == c * ts);
            }
        }
    }
    assert(body.subrange(0, 2 * c) =~= body);
    assert(ops@ =~= base + steps);
}

fn push_element_ops(
    ops: &mut Vec<Op>,
    step: DeviceUpdateStep,
    regions: &Vec<MemorySegmentRegion>,
    ts: u32,
    e: &Element,
    ei: usize,
    elements: usize,
    ti: usize,
    targets: usize,
)
    requires
        ei < elements,
        ti < targets,
        step != DeviceUpdateStep::Erase ==> ts > 0,
    ensures
        final(ops)@ == old(ops)@ + element_ops(step, regions@, ts as int, *e, ei as int, elements as int, ti as int, targets as int),
{
    match step {
        DeviceUpdateStep::Erase => {
            let len = e.data.len();
            if len == 0 {
                assert(ops@ =~= old(ops)@ + Seq::<Op>::empty());
            } else if len as u64 - 1 > 0xFFFF_FFFFu64 {
                let end = ((e.address as u64 + (len as u64 - 1) % 0x1_0000_0000u64) % 0x1_0000_0000u64) as u32;
                proof {
                    lemma_add_mod_noop(e.address as int, len - 1, 0x1_0000_0000);
                    assert((e.address as int) % 0x1_0000_0000 == e.address as int);
                    assert forall|k: int| !is_smallest_cover(regions@, e.address as int, element_last(*e), k) by {}
                }
                ops.push(Op::Fail(Error::MemoryRegionNotFound(e.address, end)));
            } else {
                let end: u64 = e.address as u64 + (len as u64 - 1);
                match smallest_covering_region(regions, e.address as u64, end) {
                    None => {
                        ops.push(Op::Fail(Error::MemoryRegionNotFound(e.address, (end % 0x1_0000_0000u64) as u32)));
                    },
                    Some(i) => {
                        proof {
                            let k = smallest_cover(regions@, e.address as int, end as int)->0;
                            assert(exists|j: int| is_smallest_cover(regions@, e.address as int, end as int, j));
                            assert(is_smallest_cover(regions@, e.address as int, end as int, k));
                            assert(i as int == k);
                            assert(end as int == element_last(*e));
                        }
                        push_erase_steps(ops, regions[i], e, end, ei, elements, ti, targets);
                    },
                }
            }
        },
        DeviceUpdateStep::Program => {
            push_transfer_steps(ops, true, e, ts, ei, elements, ti, targets);
        },
        DeviceUpdateStep::Verify => {
            push_transfer_steps(ops, false, e, ts, ei, elements, ti, targets);
        },
    }
}

fn push_elements_ops(
    ops: &mut Vec<Op>,
    step: DeviceUpdateStep,
    regions: &Vec<MemorySegmentRegion>,
    ts: u32,
    elems: &Vec<Element>,
    ti: usize,
    targets: usize,
) -> (halted: bool)
    requires
        ti < targets,
        step != DeviceUpdateStep::Erase ==> ts > 0,
    ensures
        final(ops)@ == old(ops)@ + elements_ops(step, regions@, ts as int, elems@, 0, ti as int, targets as int),
        halted == halts(elements_ops(step, regions@, ts as int, elems@, 0, ti as int, targets as int)),
{
    let ghost base = ops@;
    let ghost all = elements_ops(step, regions@, ts as int, elems@, 0, ti as int, targets as int);
    let mut ei: usize = 0;
    assert(all =~= Seq::<Op>::empty() + elements_ops(step, regions@, ts as int, elems@, 0, ti as int, targets as int));
    assert(base + Seq::<Op>::empty() =~= base);
    while ei < elems.len()
        invariant
            ei <= elems@.len(),
            ti < targets,
            step != DeviceUpdateStep::Erase ==> ts > 0,
            all == elements_ops(step, regions@, ts as int, elems@, 0, ti as int, targets as int),
            ops@.len() >= base.len(),
            ops@.subrange(0, base.len() as int) == base,
            base == old(ops)@,
            all == ops@.subrange(base.len() as int, ops@.len() as int) + elements_ops(step, regions@, ts as int, elems@, ei as int, ti as int, targets as int),
            !halts(ops@.subrange(base.len() as int, ops@.len() as int)),
        decreases elems@.len() - ei,
    {
        let ghost done = ops@.subrange(base.len() as int, ops@.len() as int);
        let ghost o = element_ops(step, regions@, ts as int, elems@[ei as int], ei as int, elems@.len() as int, ti as int, targets as int);
        let before = ops.len();
        push_element_ops(ops, step, regions, ts, &elems[ei], ei, elems.len(), ti, targets);
        assert(ops@.subrange(base.len() as int, ops@.len() as int) =~= done + o);
        assert(ops@.subrange(0, base.len() as int) =~= base);
        let n = ops.len();
        if n > before {
            match ops[n - 1] {
                Op::Fail(_) => {
                    proof {
                        let now = ops@.subrange(base.len() as int, ops@.len() as int);
                        assert(now.last() == ops@[n - 1]);
                        if o.len() == 0 {
                            assert(done + o =~= done);
                            assert(false);
                        }
                        assert((done + o).last() == o.last());
                        assert(halts(o));
                        assert(all == done + o);
                        assert(ops@ =~= base + all);
                    }
                    return true;
                },
                _ => {},
            }
        }
        proof {
            if o.len() > 0 {
                assert((done + o).last() == o.last());
            } else {
                assert(done + o =~= done);
            }
            assert(all =~= (done + o) + elements_ops(step, regions@, ts as int, elems@, ei + 1, ti as int, targets as int));
        }
        ei = ei + 1;
    }
    proof {
        let done = ops@.subrange(base.len() as int, ops@.len() as int);
        assert(all =~= done);
        assert(ops@ =~= base + all);
    }
    false
}

fn push_target_ops(
    ops: &mut Vec<Op>,
    step: DeviceUpdateStep,
    info: &DeviceInfo,
    t: &Target,
    ti: usize,
    targets: usize,
) -> (halted: bool)
    requires
        ti < targets,
    ensures
        final(ops)@ == old(ops)@ + target_ops(step, *info, *t, ti as int, targets as int),
        halted == halts(target_ops(step, *info, *t, ti as int, targets as int)),
{
    match find_alt(&info.alt_settings, t.alt_setting) {
        None => {
            ops.push(Op::Fail(Error::TargetNotFound(t.alt_setting)));
            true
        },
        Some(i) => {
            let segment = MemorySegment::from_string_desc(info.alt_settings[i].1.as_str());
            let ts = segment_transfer_size(&segment.regions, info.dfu_transfer_size);
            if step != DeviceUpdateStep::Erase && ts == 0 {
                ops.push(Op::Fail(Error::NoTransferSize(t.alt_setting)));
                true
            } else {
                push_elements_ops(ops, step, &segment.regions, ts, &t.elements, ti, targets)
            }
        },
    }
}

/// Lays out the operations of one phase of the update.
pub fn phase_plan(step: DeviceUpdateStep, content: &Content, info: &DeviceInfo) -> (r: Vec<Op>)
    ensures
        r@ == phase_ops(step, *content, *info),
{
    let mut ops: Vec<Op> = Vec::new();
    match content {
        Content::Plain => {
            ops.push(Op::Fail(Error::PlainDfuNotSupported));
            assert(ops@ =~= phase_ops(step, *content, *info));
            ops
        },
        Content::DfuSe(targets) => {
            let ghost all = targets_ops(step, *info, targets@, 0);
            let mut ti: usize = 0;
            assert(all =~= ops@ + targets_ops(step, *info, targets@, 0));
            assert(phase_ops(step, *content, *info) == all);
            while ti < targets.len()
                invariant
                    ti <= targets@.len(),
                    all == targets_ops(step, *info, targets@, 0),
                    phase_ops(step, *content, *info) == all,
                    all == ops@ + targets_ops(step, *info, targets@, ti as int),
                    !halts(ops@),
                decreases targets@.len() - ti,
            {
                let ghost done = ops@;
                let ghost o = target_ops(step, *info, targets@[ti as int], ti as int, targets@.len() as int);
                let halted = push_target_ops(&mut ops, step, info, &targets[ti], ti, targets.len());
                if halted {
                    proof {
                        assert(all == done + o);
                    }
                    return ops;
                }
                proof {
                    if o.len() > 0 {
                        assert((done + o).last() == o.last());
                    } else {
                        assert(done + o =~= done);
                    }
                    assert(all =~= (done + o) + targets_ops(step, *info, targets@, ti + 1));
                }
                ti = ti + 1;
            }
            assert(all =~= ops@);
            ops
        },
    }
}

/// A progress value between zero and one.
pub open spec fn progress_in_unit(p: Progress) -> bool {
    progress_den(p) > 0 && 0 <= progress_num(p) <= progress_den(p)
}

/// Progress value `p` is at most progress value `q`.
pub open spec fn progress_le(p: Progress, q: Progress) -> bool {
    progress_num(p) * progress_den(q) <= progress_num(q) * progress_den(p)
}

/// The progress reports of a list of operations lie between zero and one,
/// and each is at least the one before.
pub open spec fn reports_rise_in_unit(ops: Seq<Op>) -> bool {
    &&& forall|i: int| 0 <= i < ops.len() && #[trigger] ops[i] is Report ==> progress_in_unit(ops[i]->Report_0)
    &&& forall|i: int, j: int|
        0 <= i < j < ops.len() && #[trigger] ops[i] is Report && #[trigger] ops[j] is Report
            ==> progress_le(ops[i]->Report_0, ops[j]->Report_0)
}

/// Erasing an image of one target with one non-empty element reports progress values
/// between zero and one that never decrease; unless the phase fails, its
/// last operation reports exactly one.
pub proof fn lemma_erase_progress(content: Content, info: DeviceInfo)
    requires
        content is DfuSe,
        content->DfuSe_0@.len() == 1,
        content->DfuSe_0@[0].elements@.len() == 1,
        content->DfuSe_0@[0].elements@[0].data@.len() > 0,
    ensures
        reports_rise_in_unit(phase_ops(DeviceUpdateStep::Erase, content, info)),
        !halts(phase_ops(DeviceUpdateStep::Erase, content, info)) ==> ({
            let ops = phase_ops(DeviceUpdateStep::Erase, content, info);
            &&& ops.len() > 0
            &&& ops.last() is Report
            &&& progress_num(ops.last()->Report_0) == progress_den(ops.last()->Report_0)
        }),
{
    let targets = content->DfuSe_0@;
    let t = targets[0];
    let step = DeviceUpdateStep::Erase;
    let ops = phase_ops(step, content, info);
    let o = target_ops(step, info, t, 0, 1);
    assert(targets_ops(step, info, targets, 1) == Seq::<Op>::empty());
    if !halts(o) {
        assert(o + Seq::<Op>::empty() =~= o);
    }
    assert(ops == o);
    match alt_description(info.alt_settings@, t.alt_setting) {
        None => {},
        Some(desc) => {
            let regions = alt_regions(desc);
            let ts = transfer_size(regions, info.dfu_transfer_size);
            let elems = t.elements@;
            let e = elems[0];
            let eo = element_ops(step, regions, ts, e, 0, 1, 0, 1);
            assert(elements_ops(step, regions, ts, elems, 1, 0, 1) == Seq::<Op>::empty());
            if !halts(eo) {
                assert(eo + Seq::<Op>::empty() =~= eo);
            }
            assert(o == eo);
            match smallest_cover(regions, e.address as int, element_last(e)) {
                None => {},
                Some(k) => {
                    let r = regions[k];
                    assert(exists|j: int| is_smallest_cover(regions, e.address as int, element_last(e), j));
                    assert(is_smallest_cover(regions, e.address as int, element_last(e), k));
                    let ss = r.sector_size as int;
                    let first = e.address as int / ss;
                    let last = element_last(e) / ss;
                    assert(first <= last) by (nonlinear_arith)
                        requires
                            e.address as int <= element_last(e),
                            ss > 0,
                            first == e.address as int / ss,
                            last == element_last(e) / ss,
                    ;
                    let count = last - first + 1;
                    assert(last <= element_last(e)) by (nonlinear_arith)
                        requires
                            ss > 0,
                            element_last(e) >= 0,
                            last == element_last(e) / ss,
                    ;
                    assert(count <= 0x1_0000_0000) by (nonlinear_arith)
                        requires
                            last <= element_last(e),
                            ss > 0,
                            0 <= first <= last,
                            last == element_last(e) / ss,
                            element_last(e) <= 0xFFFF_FFFF,
                            count == last - first + 1,
                    ;
                    assert forall|i: int| 0 <= i < ops.len() && #[trigger] ops[i] is Report implies progress_in_unit(ops[i]->Report_0) by {
                        let p = ops[i]->Report_0;
                        assert(p.done == i / 2 + 1 && p.total == count);
                        assert(p.element == 1 && p.elements == 1 && p.target == 1 && p.targets == 1);
                        assert(progress_num(p) == p.done as int) by (nonlinear_arith)
                            requires p.element == 1, p.target == 1;
                        assert(progress_den(p) == p.total as int) by (nonlinear_arith)
                            requires p.elements == 1, p.targets == 1;
                    }
                    assert forall|i: int, j: int|
                        0 <= i < j < ops.len() && #[trigger] ops[i] is Report && #[trigger] ops[j] is Report
                        implies progress_le(ops[i]->Report_0, ops[j]->Report_0) by {
                        let p = ops[i]->Report_0;
                        let q = ops[j]->Report_0;
                        assert(progress_num(p) == p.done as int) by (nonlinear_arith)
                            requires p.element == 1, p.target == 1;
                        assert(progress_den(p) == p.total as int) by (nonlinear_arith)
                            requires p.elements == 1, p.targets == 1;
                        assert(progress_num(q) == q.done as int) by (nonlinear_arith)
                            requires q.element == 1, q.target == 1;
                        assert(progress_den(q) == q.total as int) by (nonlinear_arith)
                            requires q.elements == 1, q.targets == 1;
                        assert(p.done <= q.done);
                        assert(p.done * q.total <= q.done * p.total) by (nonlinear_arith)
                            requires p.done <= q.done, p.total == q.total, p.total >= 0;
                    }
                    let p = ops.last()->Report_0;
                    assert(ops.len() == 2 * count);
                    assert(progress_num(p) == p.done as int) by (nonlinear_arith)
                        requires p.element == 1, p.target == 1;
                    assert(progress_den(p) == p.total as int) by (nonlinear_arith)
                        requires p.elements == 1, p.targets == 1;
                },
            }
        },
    }
}

/// The bytes of a chunk of the image, if the chunk lies inside it.
pub open spec fn chunk_bytes(content: Content, c: Chunk) -> Option<Seq<u8>> {
    match content {
        Content::Plain => None,
        Content::DfuSe(targets) => if c.target < targets@.len() && c.element
            < targets@[c.target as int].elements@.len() && c.offset + c.length
            <= targets@[c.target as int].elements@[c.element as int].data@.len() {
            Some(
                targets@[c.target as int].elements@[c.element as int].data@.subrange(
                    c.offset as int,
                    c.offset + c.length,
                ),
            )
        } else {
            None
        },
    }
}

/// Whether a chunk lies inside its element of the image, and its address
/// is the device address of its first byte.
pub open spec fn chunk_fits(content: Content, c: Chunk) -> bool {
    &&& chunk_bytes(content, c) is Some
    &&& c.address == ((content->DfuSe_0@[c.target as int].elements@[c.element as int].address + c.offset)
        % 0x1_0000_0000) as u32
}

/// Whether every chunk that the operations write or check fits the image.
pub open spec fn ops_fit(ops: Seq<Op>, content: Content) -> bool {
    forall|i: int|
        0 <= i < ops.len() ==> match #[trigger] ops[i] {
            Op::Write(c) => chunk_fits(content, c),
            Op::Check(c) => chunk_fits(content, c),
            _ => true,
        }
}

/// Whether the number of targets, of elements and of bytes of each element
/// fit in `usize`, as the length of a vector always does.
pub open spec fn lens_fit(content: Content) -> bool {
    match content {
        Content::Plain => true,
        Content::DfuSe(targets) => {
            &&& targets@.len() <= usize::MAX
            &&& forall|ti: int| 0 <= ti < targets@.len() ==> (#[trigger] targets@[ti]).elements@.len() <= usize::MAX
            &&& forall|ti: int, ei: int|
                0 <= ti < targets@.len() && 0 <= ei < targets@[ti].elements@.len()
                    ==> (#[trigger] targets@[ti].elements@[ei]).data@.len() <= usize::MAX
        },
    }
}

/// Establishes `lens_fit` by looking at each element.
pub fn element_lengths_fit(content: &Content)
    ensures
        lens_fit(*content),
{
    match content {
        Content::Plain => {},
        Content::DfuSe(targets) => {
            let mut t: usize = 0;
            // the lengths are read only for the bound that `len` gives them
            let _count = targets.len();
            while t < targets.len()
                invariant
                    t <= targets@.len(),
                    targets@.len() <= usize::MAX,
                    forall|ti: int| 0 <= ti < t ==> (#[trigger] targets@[ti]).elements@.len() <= usize::MAX,
                    forall|ti: int, ei: int|
                        0 <= ti < t && 0 <= ei < targets@[ti].elements@.len()
                            ==> (#[trigger] targets@[ti].elements@[ei]).data@.len() <= usize::MAX,
                decreases targets@.len() - t,
            {
                let elements = &targets[t].elements;
                let _count = elements.len();
                let mut e: usize = 0;
                while e < elements.len()
                    invariant
                        t < targets@.len(),
                        elements@.len() <= usize::MAX,
                        *elements == targets@[t as int].elements,
                        e <= elements@.len(),
                        forall|ti: int, ei: int|
                            0 <= ti < t && 0 <= ei < targets@[ti].elements@.len()
                                ==> (#[trigger] targets@[ti].elements@[ei]).data@.len() <= usize::MAX,
                        forall|ei: int|
                            0 <= ei < e ==> (#[trigger] elements@[ei]).data@.len() <= usize::MAX,
                    decreases elements@.len() - e,
                {
                    let _n = elements[e].data.len();
                    e = e + 1;
                }
                t = t + 1;
            }
        },
    }
}

proof fn lemma_min_sector_nonneg(regions: Seq<MemorySegmentRegion>)
    ensures
        min_sector_size(regions) >= 0,
    decreases regions.len(),
{
    if regions.len() > 1 {
        lemma_min_sector_nonneg(regions.drop_last());
    }
}

proof fn lemma_fit_concat(a: Seq<Op>, b: Seq<Op>, content: Content)
    requires
        ops_fit(a, content),
        ops_fit(b, content),
    ensures
        ops_fit(a + b, content),
{
    assert forall|i: int| 0 <= i < (a + b).len() implies match #[trigger] (a + b)[i] {
        Op::Write(c) => chunk_fits(content, c),
        Op::Check(c) => chunk_fits(content, c),
        _ => true,
    } by {
        if i < a.len() {
            assert((a + b)[i] == a[i]);
        } else {
            assert((a + b)[i] == b[i - a.len()]);
        }
    }
}

proof fn lemma_element_fits(
    step: DeviceUpdateStep,
    regions: Seq<MemorySegmentRegion>,
    ts: int,
    content: Content,
    ti: int,
    ei: int,
)
    requires
        content is DfuSe,
        0 <= ti < content->DfuSe_0@.len(),
        0 <= ei < content->DfuSe_0@[ti].elements@.len(),
        step != DeviceUpdateStep::Erase ==> ts > 0,
        lens_fit(content),
    ensures
        ({
            let t = content->DfuSe_0@[ti];
            ops_fit(
                element_ops(step, regions, ts, t.elements@[ei], ei, t.elements@.len() as int, ti, content->DfuSe_0@.len() as int),
                content,
            )
        }),
{
    let targets = content->DfuSe_0@;
    let t = targets[ti];
    let e = t.elements@[ei];
    let ops = element_ops(step, regions, ts, e, ei, t.elements@.len() as int, ti, targets.len() as int);
    if step != DeviceUpdateStep::Erase {
        let len = e.data@.len() as int;
        assert forall|i: int| 0 <= i < ops.len() implies match #[trigger] ops[i] {
            Op::Write(c) => chunk_fits(content, c),
            Op::Check(c) => chunk_fits(content, c),
            _ => true,
        } by {
            let n = chunk_count(len, ts);
            let body = ops.drop_first();
            if i >= 1 {
                assert(ops[i] == body[i - 1]);
                if (i - 1) % 2 == 0 {
                    let k = (i - 1) / 2;
                    assert(0 <= k < n);
                    lemma_chunk_in_range(len, ts, k);
                    assert(len <= usize::MAX);
                    let c = chunk_of(e, ti, ei, ts, k);
                    assert(c.offset as int == k * ts);
                    assert(c.offset + c.length <= len);
                    assert(targets[c.target as int] == t);
                    assert(t.elements@[c.element as int] == e);
                }
            }
        }
    }
}

proof fn lemma_elements_fit(
    step: DeviceUpdateStep,
    regions: Seq<MemorySegmentRegion>,
    ts: int,
    content: Content,
    ti: int,
    ei: int,
)
    requires
        content is DfuSe,
        0 <= ti < content->DfuSe_0@.len(),
        0 <= ei,
        step != DeviceUpdateStep::Erase ==> ts > 0,
        lens_fit(content),
    ensures
        ops_fit(
            elements_ops(step, regions, ts, content->DfuSe_0@[ti].elements@, ei, ti, content->DfuSe_0@.len() as int),
            content,
        ),
    decreases content->DfuSe_0@[ti].elements@.len() - ei,
{
    let elems = content->DfuSe_0@[ti].elements@;
    if ei < elems.len() {
        lemma_element_fits(step, regions, ts, content, ti, ei);
        lemma_elements_fit(step, regions, ts, content, ti, ei + 1);
        let o = element_ops(step, regions, ts, elems[ei], ei, elems.len() as int, ti, content->DfuSe_0@.len() as int);
        if !halts(o) {
            lemma_fit_concat(o, elements_ops(step, regions, ts, elems, ei + 1, ti, content->DfuSe_0@.len() as int), content);
        }
    }
}

proof fn lemma_targets_fit(step: DeviceUpdateStep, info: DeviceInfo, content: Content, ti: int)
    requires
        content is DfuSe,
        0 <= ti,
        lens_fit(content),
    ensures
        ops_fit(targets_ops(step, info, content->DfuSe_0@, ti), content),
    decreases content->DfuSe_0@.len() - ti,
{
    let targets = content->DfuSe_0@;
    if ti < targets.len() {
        let t = targets[ti];
        let o = target_ops(step, info, t, ti, targets.len() as int);
        match alt_description(info.alt_settings@, t.alt_setting) {
            None => {},
            Some(desc) => {
                let regions = alt_regions(desc);
                let ts = transfer_size(regions, info.dfu_transfer_size);
                if !(step != DeviceUpdateStep::Erase && ts == 0) {
                    lemma_min_sector_nonneg(regions);
                    lemma_elements_fit(step, regions, ts, content, ti, 0);
                }
            },
        }
        lemma_targets_fit(step, info, content, ti + 1);
        if !halts(o) {
            lemma_fit_concat(o, targets_ops(step, info, targets, ti + 1), content);
        }
    }
}

/// Every chunk that a phase writes or checks lies inside the image.
pub proof fn lemma_plan_fits(step: DeviceUpdateStep, content: Content, info: DeviceInfo)
    requires
        lens_fit(content),
    ensures
        ops_fit(phase_ops(step, content, info), content),
{
    match content {
        Content::Plain => {},
        Content::DfuSe(_) => {
            lemma_targets_fit(step, info, content, 0);
        },
    }
}

} // verus!
