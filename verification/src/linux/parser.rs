//! Decoders for the structures of a `perf.data` file.
//!
//! Every decoder takes the bytes that are left and returns the bytes behind
//! what it decoded together with the decoded value. Its contract states the
//! extent of the structure (see `primitives`) and, field by field, what the
//! value holds.
//!
//! # Limitations
//!  * Only version 2 of the data format
//!  * No support for AUX records
//!  * The sample id at the end of records is ignored
//!  * Only little-endian files

pub use super::features::{
    parse_cpu_topology, parse_event_desc, parse_group_description, parse_group_descriptions,
    parse_header, parse_numa_node, parse_numa_topology, parse_perf_string,
    parse_perf_string_list, parse_pmu_mapping, parse_pmu_mappings,
};
pub use super::sample::parse_sample_record;

use super::perf_format::{
    BranchEntry, BuildIdRecord, CommRecord, Cpu, Event, EventAttr, EventAttrFlags, EventData,
    EventHeader, EventType, ExitRecord, ForkRecord, LostRecord, MMAP2Record, MMAPRecord, NrCpus,
    PerfError, PerfFileSection, ReadFormat, ReadFormatFlags, ReadRecord, SampleFormatFlags,
    SampleId, ThreadId, ThrottleRecord, UnthrottleRecord,
};
use super::primitives::{
    array_len, c_string_len, find_nul, fixed_len, i32_at, le_i32, le_u16, le_u32, le_u64,
    lossy_text, need, parse_c_string, read_bytes, read_le_u32, read_le_u64, skip_bytes,
    text_from_bytes, then_len, truncated, u16_at, u32_at, u64_at, until_nul, Extent, ParseResult,
};
use super::sample::sample_len;
use vstd::prelude::*;
use vstd::slice::{slice_subrange, slice_to_vec};

verus! {

/// What the contract of a decoder says of its result `r` on the bytes `s`:
/// it fails exactly where the extent `len` is an error, and with that error;
/// else it returns the bytes behind the extent and a value for which `ok` holds.
pub open spec fn reads<T>(
    r: Result<(&[u8], T), PerfError>,
    s: Seq<u8>,
    len: Extent,
    ok: spec_fn(T) -> bool,
) -> bool {
    match r {
        Ok((rest, v)) => len is Ok && 0 <= len->Ok_0 <= s.len() && rest@ =~= s.skip(len->Ok_0)
            && ok(v),
        Err(e) => len == Err::<int, PerfError>(e),
    }
}

/// The thread id in the eight bytes from `at` on: the process, then the thread.
pub open spec fn thread_id_at(s: Seq<u8>, at: int) -> ThreadId {
    ThreadId { pid: le_i32(s, at), tid: le_i32(s, at + 4) }
}

/// The CPU in the eight bytes from `at` on: its number, then a reserved word.
pub open spec fn cpu_at(s: Seq<u8>, at: int) -> Cpu {
    Cpu { cpu: le_u32(s, at), res: le_u32(s, at + 4) }
}

/// The sample id in the 48 bytes from `at` on.
pub open spec fn sample_id_at(s: Seq<u8>, at: int) -> SampleId {
    SampleId {
        ptid: thread_id_at(s, at),
        time: le_u64(s, at + 8),
        id: le_u64(s, at + 16),
        stream_id: le_u64(s, at + 24),
        cpu: cpu_at(s, at + 32),
        identifier: le_u64(s, at + 40),
    }
}

/// The fork record in the 24 bytes from `at` on.
pub open spec fn fork_record_at(s: Seq<u8>, at: int) -> ForkRecord {
    ForkRecord {
        pid: le_u32(s, at),
        ppid: le_u32(s, at + 4),
        tid: le_u32(s, at + 8),
        ptid: le_u32(s, at + 12),
        time: le_u64(s, at + 16),
    }
}

/// The exit record in the 24 bytes from `at` on.
pub open spec fn exit_record_at(s: Seq<u8>, at: int) -> ExitRecord {
    ExitRecord {
        pid: le_u32(s, at),
        ppid: le_u32(s, at + 4),
        tid: le_u32(s, at + 8),
        ptid: le_u32(s, at + 12),
        time: le_u64(s, at + 16),
    }
}

/// The throttle record in the 24 bytes from `at` on.
pub open spec fn throttle_record_at(s: Seq<u8>, at: int) -> ThrottleRecord {
    ThrottleRecord { time: le_u64(s, at), id: le_u64(s, at + 8), stream_id: le_u64(s, at + 16) }
}

/// The unthrottle record in the 24 bytes from `at` on.
pub open spec fn unthrottle_record_at(s: Seq<u8>, at: int) -> UnthrottleRecord {
    UnthrottleRecord { time: le_u64(s, at), id: le_u64(s, at + 8), stream_id: le_u64(s, at + 16) }
}

/// The record header in the eight bytes from `at` on: type, misc, size.
pub open spec fn event_header_at(s: Seq<u8>, at: int) -> EventHeader {
    EventHeader {
        event_type: EventType::of_code(le_u32(s, at)),
        misc: le_u16(s, at + 4),
        size: le_u16(s, at + 6),
    }
}

/// The branch entry in the 24 bytes from `at` on.
pub open spec fn branch_entry_at(s: Seq<u8>, at: int) -> BranchEntry {
    BranchEntry { from: le_u64(s, at), to: le_u64(s, at + 8), flags: le_u64(s, at + 16) }
}

/// The section descriptor in the 16 bytes from `at` on: offset, then size.
pub open spec fn file_section_at(s: Seq<u8>, at: int) -> PerfFileSection {
    PerfFileSection { offset: le_u64(s, at), size: le_u64(s, at + 8) }
}

/// The CPU counts in the eight bytes from `at` on: online, then available.
pub open spec fn nrcpus_at(s: Seq<u8>, at: int) -> NrCpus {
    NrCpus { online: le_u32(s, at), available: le_u32(s, at + 4) }
}

/// The attribute block in the 112 bytes from `at` on. Of the three masks only
/// the bits that have a meaning are kept, and the reserved word reads as zero.
pub open spec fn event_attr_at(s: Seq<u8>, at: int) -> EventAttr {
    EventAttr {
        attr_type: le_u32(s, at),
        size: le_u32(s, at + 4),
        config: le_u64(s, at + 8),
        sample_period_freq: le_u64(s, at + 16),
        sample_type: SampleFormatFlags { bits: le_u64(s, at + 24) & SampleFormatFlags::ALL },
        read_format: ReadFormatFlags { bits: le_u64(s, at + 32) & ReadFormatFlags::ALL },
        settings: EventAttrFlags { bits: le_u64(s, at + 40) & EventAttrFlags::ALL },
        wakeup_events_watermark: le_u32(s, at + 48),
        bp_type: le_u32(s, at + 52),
        config1_or_bp_addr: le_u64(s, at + 56),
        config2_or_bp_len: le_u64(s, at + 64),
        branch_sample_type: le_u64(s, at + 72),
        sample_regs_user: le_u64(s, at + 80),
        sample_stack_user: le_u32(s, at + 88),
        clock_id: le_i32(s, at + 92),
        sample_regs_intr: le_u64(s, at + 96),
        aux_watermark: le_u32(s, at + 104),
        reserved: 0,
    }
}

/// The size of an attribute block in the file.
pub const EVENT_ATTR_LEN: usize = 112;

/// Reads a thread id.
pub fn parse_thread_id<'a>(input: &'a [u8]) -> (r: ParseResult<'a, ThreadId>)
    ensures
        reads(r, input@, fixed_len(input@, 8), |v: ThreadId| v == thread_id_at(input@, 0)),
{
    need(input, 8)?;
    let v = ThreadId { pid: i32_at(input, 0), tid: i32_at(input, 4) };
    Ok((skip_bytes(input, 8), v))
}

/// Reads a CPU.
pub fn parse_cpu<'a>(input: &'a [u8]) -> (r: ParseResult<'a, Cpu>)
    ensures
        reads(r, input@, fixed_len(input@, 8), |v: Cpu| v == cpu_at(input@, 0)),
{
    need(input, 8)?;
    let v = Cpu { cpu: u32_at(input, 0), res: u32_at(input, 4) };
    Ok((skip_bytes(input, 8), v))
}

/// Reads a sample id in which every field is present.
pub fn parse_sample_id<'a>(input: &'a [u8]) -> (r: ParseResult<'a, SampleId>)
    ensures
        reads(r, input@, fixed_len(input@, 48), |v: SampleId| v == sample_id_at(input@, 0)),
{
    need(input, 48)?;
    let v = SampleId {
        ptid: ThreadId { pid: i32_at(input, 0), tid: i32_at(input, 4) },
        time: u64_at(input, 8),
        id: u64_at(input, 16),
        stream_id: u64_at(input, 24),
        cpu: Cpu { cpu: u32_at(input, 32), res: u32_at(input, 36) },
        identifier: u64_at(input, 40),
    };
    Ok((skip_bytes(input, 48), v))
}

/// Reads the payload of a fork record.
pub fn parse_fork_record<'a>(input: &'a [u8]) -> (r: ParseResult<'a, ForkRecord>)
    ensures
        reads(r, input@, fixed_len(input@, 24), |v: ForkRecord| v == fork_record_at(input@, 0)),
{
    need(input, 24)?;
    let v = ForkRecord {
        pid: u32_at(input, 0),
        ppid: u32_at(input, 4),
        tid: u32_at(input, 8),
        ptid: u32_at(input, 12),
        time: u64_at(input, 16),
    };
    Ok((skip_bytes(input, 24), v))
}

/// Reads the payload of an exit record.
pub fn parse_exit_record<'a>(input: &'a [u8]) -> (r: ParseResult<'a, ExitRecord>)
    ensures
        reads(r, input@, fixed_len(input@, 24), |v: ExitRecord| v == exit_record_at(input@, 0)),
{
    need(input, 24)?;
    let v = ExitRecord {
        pid: u32_at(input, 0),
        ppid: u32_at(input, 4),
        tid: u32_at(input, 8),
        ptid: u32_at(input, 12),
        time: u64_at(input, 16),
    };
    Ok((skip_bytes(input, 24), v))
}

/// Reads the payload of a throttle record.
pub fn parse_throttle_record<'a>(input: &'a [u8]) -> (r: ParseResult<'a, ThrottleRecord>)
    ensures
        reads(
            r,
            input@,
            fixed_len(input@, 24),
            |v: ThrottleRecord| v == throttle_record_at(input@, 0),
        ),
{
    need(input, 24)?;
    let v = ThrottleRecord {
        time: u64_at(input, 0),
        id: u64_at(input, 8),
        stream_id: u64_at(input, 16),
    };
    Ok((skip_bytes(input, 24), v))
}

/// Reads the payload of an unthrottle record.
pub fn parse_unthrottle_record<'a>(input: &'a [u8]) -> (r: ParseResult<'a, UnthrottleRecord>)
    ensures
        reads(
            r,
            input@,
            fixed_len(input@, 24),
            |v: UnthrottleRecord| v == unthrottle_record_at(input@, 0),
        ),
{
    need(input, 24)?;
    let v = UnthrottleRecord {
        time: u64_at(input, 0),
        id: u64_at(input, 8),
        stream_id: u64_at(input, 16),
    };
    Ok((skip_bytes(input, 24), v))
}

/// Reads the eight bytes that every record starts with.
pub fn parse_event_header<'a>(input: &'a [u8]) -> (r: ParseResult<'a, EventHeader>)
    ensures
        reads(r, input@, fixed_len(input@, 8), |v: EventHeader| v == event_header_at(input@, 0)),
{
    need(input, 8)?;
    let v = EventHeader {
        event_type: EventType::new(u32_at(input, 0)),
        misc: u16_at(input, 4),
        size: u16_at(input, 6),
    };
    Ok((skip_bytes(input, 8), v))
}

/// Reads one entry of a branch stack.
pub fn parse_branch_entry<'a>(input: &'a [u8]) -> (r: ParseResult<'a, BranchEntry>)
    ensures
        reads(r, input@, fixed_len(input@, 24), |v: BranchEntry| v == branch_entry_at(input@, 0)),
{
    need(input, 24)?;
    let v = BranchEntry { from: u64_at(input, 0), to: u64_at(input, 8), flags: u64_at(input, 16) };
    Ok((skip_bytes(input, 24), v))
}

/// Reads a section descriptor.
pub fn parse_file_section<'a>(input: &'a [u8]) -> (r: ParseResult<'a, PerfFileSection>)
    ensures
        reads(
            r,
            input@,
            fixed_len(input@, 16),
            |v: PerfFileSection| v == file_section_at(input@, 0),
        ),
{
    need(input, 16)?;
    let v = PerfFileSection { offset: u64_at(input, 0), size: u64_at(input, 8) };
    Ok((skip_bytes(input, 16), v))
}

/// Reads the CPU counts.
pub fn parse_nrcpus<'a>(input: &'a [u8]) -> (r: ParseResult<'a, NrCpus>)
    ensures
        reads(r, input@, fixed_len(input@, 8), |v: NrCpus| v == nrcpus_at(input@, 0)),
{
    need(input, 8)?;
    let v = NrCpus { online: u32_at(input, 0), available: u32_at(input, 4) };
    Ok((skip_bytes(input, 8), v))
}

/// The event attribute block in the 112 bytes from `at` on.
pub fn event_attr_from(input: &[u8], at: usize) -> (v: EventAttr)
    requires
        at + 112 <= input@.len(),
    ensures
        v == event_attr_at(input@, at as int),
{
    assert(at + 112 <= input.len());
    EventAttr {
        attr_type: u32_at(input, at),
        size: u32_at(input, at + 4),
        config: u64_at(input, at + 8),
        sample_period_freq: u64_at(input, at + 16),
        sample_type: SampleFormatFlags::from_bits_truncate(u64_at(input, at + 24)),
        read_format: ReadFormatFlags::from_bits_truncate(u64_at(input, at + 32)),
        settings: EventAttrFlags::from_bits_truncate(u64_at(input, at + 40)),
        wakeup_events_watermark: u32_at(input, at + 48),
        bp_type: u32_at(input, at + 52),
        config1_or_bp_addr: u64_at(input, at + 56),
        config2_or_bp_len: u64_at(input, at + 64),
        branch_sample_type: u64_at(input, at + 72),
        sample_regs_user: u64_at(input, at + 80),
        sample_stack_user: u32_at(input, at + 88),
        clock_id: i32_at(input, at + 92),
        sample_regs_intr: u64_at(input, at + 96),
        aux_watermark: u32_at(input, at + 104),
        reserved: 0,
    }
}

/// Reads an event attribute block.
pub fn parse_event_attr<'a>(input: &'a [u8]) -> (r: ParseResult<'a, EventAttr>)
    ensures
        reads(r, input@, fixed_len(input@, 112), |v: EventAttr| v == event_attr_at(input@, 0)),
{
    need(input, EVENT_ATTR_LEN)?;
    Ok((skip_bytes(input, EVENT_ATTR_LEN), event_attr_from(input, 0)))
}

/// The `n` little-endian `u64` at the start of `s`.
pub open spec fn u64s(s: Seq<u8>, n: int) -> Seq<u64> {
    Seq::new(n as nat, |i: int| le_u64(s, 8 * i))
}

/// The `n` branch entries at the start of `s`.
pub open spec fn branch_entries(s: Seq<u8>, n: int) -> Seq<BranchEntry> {
    Seq::new(n as nat, |i: int| branch_entry_at(s, 24 * i))
}

/// Reads `count` little-endian `u64`.
pub fn parse_vec_u64_variable<'a>(input: &'a [u8], count: usize) -> (r: ParseResult<'a, Vec<u64>>)
    ensures
        reads(
            r,
            input@,
            array_len(input@, count as int, 8),
            |v: Vec<u64>| v@ == u64s(input@, count as int),
        ),
{
    let len = input.len();
    if len / 8 < count {
        return Err(PerfError::Truncated { expected: 8, available: len % 8 });
    }
    let mut v: Vec<u64> = Vec::with_capacity(count);
    let mut i: usize = 0;
    while i < count
        invariant
            len == input@.len(),
            8 * count <= len,
            i <= count,
            v@ == u64s(input@, i as int),
        decreases count - i,
    {
        v.push(u64_at(input, 8 * i));
        i = i + 1;
    }
    Ok((skip_bytes(input, 8 * count), v))
}

/// Reads `count` bytes, one after the other.
pub fn parse_vec_u8_variable<'a>(input: &'a [u8], count: usize) -> (r: ParseResult<'a, Vec<u8>>)
    ensures
        reads(
            r,
            input@,
            array_len(input@, count as int, 1),
            |v: Vec<u8>| v@ == input@.take(count as int),
        ),
{
    let len = input.len();
    if len < count {
        return Err(PerfError::Truncated { expected: 1, available: 0 });
    }
    let v = slice_to_vec(slice_subrange(input, 0, count));
    Ok((skip_bytes(input, count), v))
}

/// The extent of a `u64` count and as many `u64` behind it.
pub open spec fn vec_u64_len(s: Seq<u8>) -> Extent {
    then_len(fixed_len(s, 8), s, |t: Seq<u8>| array_len(t, le_u64(s, 0) as int, 8))
}

/// Reads a `u64` count and as many `u64` behind it.
pub fn parse_vec_u64<'a>(input: &'a [u8]) -> (r: ParseResult<'a, Vec<u64>>)
    ensures
        reads(
            r,
            input@,
            vec_u64_len(input@),
            |v: Vec<u64>| v@ == u64s(input@.skip(8), le_u64(input@, 0) as int),
        ),
{
    let (rest, n) = read_le_u64(input)?;
    let len = rest.len();
    if ((len / 8) as u64) < n {
        return Err(PerfError::Truncated { expected: 8, available: len % 8 });
    }
    parse_vec_u64_variable(rest, n as usize)
}

/// The extent of a `u32` count and as many bytes behind it.
pub open spec fn vec_u32_u8_len(s: Seq<u8>) -> Extent {
    then_len(fixed_len(s, 4), s, |t: Seq<u8>| array_len(t, le_u32(s, 0) as int, 1))
}

/// Reads a `u32` count and as many bytes behind it.
pub fn parse_vec_u32_u8<'a>(input: &'a [u8]) -> (r: ParseResult<'a, Vec<u8>>)
    ensures
        reads(
            r,
            input@,
            vec_u32_u8_len(input@),
            |v: Vec<u8>| v@ == input@.subrange(4, 4 + le_u32(input@, 0)),
        ),
{
    let (rest, n) = read_le_u32(input)?;
    let (rest, v) = parse_vec_u8_variable(rest, n as usize)?;
    proof {
        assert(v@ =~= input@.subrange(4, 4 + le_u32(input@, 0)));
    }
    Ok((rest, v))
}

/// The extent of an mmap record: 32 bytes of numbers, then the file name with its NUL.
pub open spec fn mmap_record_len(s: Seq<u8>) -> Extent {
    then_len(fixed_len(s, 32), s, |t: Seq<u8>| c_string_len(t))
}

impl MMAPRecord {
    /// Whether this is the record that the bytes `s` start with.
    pub open spec fn decodes(&self, s: Seq<u8>) -> bool {
        &&& self.pid == le_i32(s, 0)
        &&& self.tid == le_u32(s, 4)
        &&& self.addr == le_u64(s, 8)
        &&& self.len == le_u64(s, 16)
        &&& self.pgoff == le_u64(s, 24)
        &&& self.filename@ == lossy_text(until_nul(s.skip(32)))
    }
}

/// Reads the payload of an mmap record.
pub fn parse_mmap_record<'a>(input: &'a [u8]) -> (r: ParseResult<'a, MMAPRecord>)
    ensures
        reads(r, input@, mmap_record_len(input@), |v: MMAPRecord| v.decodes(input@)),
{
    need(input, 32)?;
    let (rest, name) = parse_c_string(skip_bytes(input, 32))?;
    let v = MMAPRecord {
        pid: i32_at(input, 0),
        tid: u32_at(input, 4),
        addr: u64_at(input, 8),
        len: u64_at(input, 16),
        pgoff: u64_at(input, 24),
        filename: text_from_bytes(name),
    };
    Ok((rest, v))
}

/// The extent of an mmap2 record: 64 bytes of numbers, then the file name with its NUL.
pub open spec fn mmap2_record_len(s: Seq<u8>) -> Extent {
    then_len(fixed_len(s, 64), s, |t: Seq<u8>| c_string_len(t))
}

impl MMAP2Record {
    /// Whether this is the record that the bytes `s` start with.
    pub open spec fn decodes(&self, s: Seq<u8>) -> bool {
        &&& self.ptid == thread_id_at(s, 0)
        &&& self.addr == le_u64(s, 8)
        &&& self.len == le_u64(s, 16)
        &&& self.pgoff == le_u64(s, 24)
        &&& self.maj == le_u32(s, 32)
        &&& self.min == le_u32(s, 36)
        &&& self.ino == le_u64(s, 40)
        &&& self.ino_generation == le_u64(s, 48)
        &&& self.prot == le_u32(s, 56)
        &&& self.flags == le_u32(s, 60)
        &&& self.filename@ == lossy_text(until_nul(s.skip(64)))
    }
}

/// Reads the payload of an mmap2 record.
pub fn parse_mmap2_record<'a>(input: &'a [u8]) -> (r: ParseResult<'a, MMAP2Record>)
    ensures
        reads(r, input@, mmap2_record_len(input@), |v: MMAP2Record| v.decodes(input@)),
{
    need(input, 64)?;
    let (rest, name) = parse_c_string(skip_bytes(input, 64))?;
    let v = MMAP2Record {
        ptid: ThreadId { pid: i32_at(input, 0), tid: i32_at(input, 4) },
        addr: u64_at(input, 8),
        len: u64_at(input, 16),
        pgoff: u64_at(input, 24),
        maj: u32_at(input, 32),
        min: u32_at(input, 36),
        ino: u64_at(input, 40),
        ino_generation: u64_at(input, 48),
        prot: u32_at(input, 56),
        flags: u32_at(input, 60),
        filename: text_from_bytes(name),
    };
    Ok((rest, v))
}

/// The extent of a comm record: the thread, then the command name with its NUL.
pub open spec fn comm_record_len(s: Seq<u8>) -> Extent {
    then_len(fixed_len(s, 8), s, |t: Seq<u8>| c_string_len(t))
}

impl CommRecord {
    /// Whether this is the record that the bytes `s` start with.
    pub open spec fn decodes(&self, s: Seq<u8>) -> bool {
        &&& self.ptid == thread_id_at(s, 0)
        &&& self.comm@ == lossy_text(until_nul(s.skip(8)))
    }
}

/// Reads the payload of a comm record.
pub fn parse_comm_record<'a>(input: &'a [u8]) -> (r: ParseResult<'a, CommRecord>)
    ensures
        reads(r, input@, comm_record_len(input@), |v: CommRecord| v.decodes(input@)),
{
    need(input, 8)?;
    let (rest, name) = parse_c_string(skip_bytes(input, 8))?;
    let v = CommRecord {
        ptid: ThreadId { pid: i32_at(input, 0), tid: i32_at(input, 4) },
        comm: text_from_bytes(name),
    };
    Ok((rest, v))
}

/// The bytes of a build-id record before its file name: the record header,
/// the pid and the build id.
pub const BUILD_ID_FIXED_LEN: usize = 36;

/// The extent of the payload of a build-id record whose header gives
/// `record_size` as the size of the whole record: the pid, the 24 bytes of
/// the build id, and a file name that fills the rest of the record.
pub open spec fn build_id_record_len(s: Seq<u8>, record_size: int) -> Extent {
    if record_size < 36 {
        Err(PerfError::InconsistentSizes)
    } else {
        then_len(
            fixed_len(s, 4),
            s,
            |t: Seq<u8>| then_len(fixed_len(t, 24), t, |u: Seq<u8>| fixed_len(u, record_size - 36)),
        )
    }
}

impl BuildIdRecord {
    /// Whether this is the record that the bytes `s` start with, where the
    /// whole record has `record_size` bytes. The file name ends at its first NUL.
    pub open spec fn decodes(&self, s: Seq<u8>, record_size: int) -> bool {
        &&& self.pid == le_i32(s, 0)
        &&& self.build_id@ == s.subrange(4, 28)
        &&& self.filename@ == lossy_text(until_nul(s.subrange(28, record_size - 8)))
    }
}

/// Reads the payload of a build-id record. `record_size` is the size that the
/// record's header gives, which counts the header too.
pub fn parse_build_id_record<'a>(input: &'a [u8], record_size: usize) -> (r: ParseResult<
    'a,
    BuildIdRecord,
>)
    ensures
        reads(
            r,
            input@,
            build_id_record_len(input@, record_size as int),
            |v: BuildIdRecord| v.decodes(input@, record_size as int),
        ),
{
    if record_size < BUILD_ID_FIXED_LEN {
        return Err(PerfError::InconsistentSizes);
    }
    need(input, 4)?;
    let (rest, build_id) = read_bytes(skip_bytes(input, 4), 24)?;
    let (rest, name) = read_bytes(rest, record_size - BUILD_ID_FIXED_LEN)?;
    let end = find_nul(name);
    proof {
        assert(build_id@ =~= input@.subrange(4, 28));
        assert(name@ =~= input@.subrange(28, record_size - 8));
    }
    let v = BuildIdRecord {
        pid: i32_at(input, 0),
        build_id: slice_to_vec(build_id),
        filename: text_from_bytes(slice_subrange(name, 0, end)),
    };
    Ok((rest, v))
}

/// The size of one value of a counter read.
pub open spec fn read_value_len(flags: ReadFormatFlags) -> int {
    if flags.has_id() {
        16
    } else {
        8
    }
}

/// The value at `at`, with the id behind it where the format has ids.
pub open spec fn read_value_at(s: Seq<u8>, at: int, has_id: bool) -> (u64, Option<u64>) {
    (
        le_u64(s, at),
        if has_id {
            Some(le_u64(s, at + 8))
        } else {
            None
        },
    )
}

/// The `n` values at the start of `s`.
pub open spec fn read_values(s: Seq<u8>, n: int, has_id: bool) -> Seq<(u64, Option<u64>)> {
    if has_id {
        Seq::new(n as nat, |i: int| read_value_at(s, 16 * i, true))
    } else {
        Seq::new(n as nat, |i: int| read_value_at(s, 8 * i, false))
    }
}

/// Reads one value of a counter read: the value, and its id where the format has ids.
pub fn parse_read_value<'a>(input: &'a [u8], flags: ReadFormatFlags) -> (r: ParseResult<
    'a,
    (u64, Option<u64>),
>)
    ensures
        reads(
            r,
            input@,
            fixed_len(input@, read_value_len(flags)),
            |v: (u64, Option<u64>)| v == read_value_at(input@, 0, flags.has_id()),
        ),
{
    if flags.has_id() {
        need(input, 16)?;
        Ok((skip_bytes(input, 16), (u64_at(input, 0), Some(u64_at(input, 8)))))
    } else {
        need(input, 8)?;
        Ok((skip_bytes(input, 8), (u64_at(input, 0), None)))
    }
}

/// How many `u64` a counter read starts with: for a group the number of
/// values, else the value itself; then the times that the format asks for; and
/// for a single counter its id, where the format has ids.
pub open spec fn read_format_head(flags: ReadFormatFlags) -> int {
    1 + (if flags.has_total_time_enabled() {
        1int
    } else {
        0int
    }) + (if flags.has_total_time_running() {
        1int
    } else {
        0int
    }) + (if !flags.has_group() && flags.has_id() {
        1int
    } else {
        0int
    })
}

/// The extent of a counter read in the format `flags`.
pub open spec fn read_format_len(s: Seq<u8>, flags: ReadFormatFlags) -> Extent {
    if flags.has_group() {
        then_len(
            array_len(s, read_format_head(flags), 8),
            s,
            |t: Seq<u8>| array_len(t, le_u64(s, 0) as int, read_value_len(flags)),
        )
    } else {
        array_len(s, read_format_head(flags), 8)
    }
}

/// Where the time for which the counter was running stands in a counter read.
pub open spec fn time_running_at(flags: ReadFormatFlags) -> int {
    if flags.has_total_time_enabled() {
        16
    } else {
        8
    }
}

impl ReadFormat {
    /// Whether this is the counter read in the format `flags` that the bytes `s` start with.
    ///
    /// A time or an id is present exactly where the format asks for it. A group
    /// starts with the number of its values; a single counter has one value.
    pub open spec fn decodes(&self, s: Seq<u8>, flags: ReadFormatFlags) -> bool {
        &&& self.time_enabled == if flags.has_total_time_enabled() {
            Some(le_u64(s, 8))
        } else {
            None
        }
        &&& self.time_running == if flags.has_total_time_running() {
            Some(le_u64(s, time_running_at(flags)))
        } else {
            None
        }
        &&& self.values@ == if flags.has_group() {
            read_values(s.skip(8 * read_format_head(flags)), le_u64(s, 0) as int, flags.has_id())
        } else {
            seq![
                (
                    le_u64(s, 0),
                    if flags.has_id() {
                        Some(le_u64(s, 8 * read_format_head(flags) - 8))
                    } else {
                        None
                    },
                ),
            ]
        }
    }
}

/// A counter read holds exactly what its format asks for: each of the two
/// times where the format has its bit, an id with every value where the
/// format has ids, and a single value unless the format is that of a group.
pub proof fn lemma_read_format_follows_flags(v: ReadFormat, s: Seq<u8>, flags: ReadFormatFlags)
    requires
        v.decodes(s, flags),
    ensures
        v.time_enabled is Some <==> flags.has_total_time_enabled(),
        v.time_running is Some <==> flags.has_total_time_running(),
        forall|i: int| 0 <= i < v.values@.len() ==> ((#[trigger] v.values@[i]).1 is Some
            <==> flags.has_id()),
        !flags.has_group() ==> v.values@.len() == 1,
        flags.has_group() ==> v.values@.len() == le_u64(s, 0),
{
}

/// Reads `n` values of a counter read, each with its id where `has_id` holds.
pub fn parse_read_values<'a>(input: &'a [u8], n: u64, has_id: bool) -> (r: ParseResult<
    'a,
    Vec<(u64, Option<u64>)>,
>)
    ensures
        reads(
            r,
            input@,
            array_len(
                input@,
                n as int,
                if has_id {
                    16
                } else {
                    8
                },
            ),
            |v: Vec<(u64, Option<u64>)>| v@ == read_values(input@, n as int, has_id),
        ),
{
    let len = input.len();
    let size: usize = if has_id {
        16
    } else {
        8
    };
    if ((len / size) as u64) < n {
        return Err(PerfError::Truncated { expected: size, available: len % size });
    }
    let count: usize = n as usize;
    let mut v: Vec<(u64, Option<u64>)> = Vec::with_capacity(count);
    let mut i: usize = 0;
    let mut at: usize = 0;
    while i < count
        invariant
            len == input@.len(),
            size == (if has_id {
                16int
            } else {
                8int
            }),
            at == (if has_id {
                16 * i
            } else {
                8 * i
            }),
            (if has_id {
                16 * count
            } else {
                8 * count
            }) <= len,
            i <= count,
            v@ == read_values(input@, i as int, has_id),
        decreases count - i,
    {
        let value = u64_at(input, at);
        let id = if has_id {
            Some(u64_at(input, at + 8))
        } else {
            None
        };
        v.push((value, id));
        i = i + 1;
        at = at + size;
    }
    Ok((skip_bytes(input, at), v))
}

/// Reads a counter read in the format `flags`.
pub fn parse_read_format<'a>(input: &'a [u8], flags: ReadFormatFlags) -> (r: ParseResult<
    'a,
    ReadFormat,
>)
    ensures
        reads(
            r,
            input@,
            read_format_len(input@, flags),
            |v: ReadFormat| v.decodes(input@, flags),
        ),
{
    let group = flags.has_group();
    let has_id = flags.has_id();
    let mut head: usize = 1;
    let mut running_at: usize = 8;
    if flags.has_total_time_enabled() {
        head = head + 1;
        running_at = 16;
    }
    if flags.has_total_time_running() {
        head = head + 1;
    }
    if !group && has_id {
        head = head + 1;
    }
    let len = input.len();
    if len / 8 < head {
        return Err(PerfError::Truncated { expected: 8, available: len % 8 });
    }
    let first = u64_at(input, 0);
    let time_enabled = if flags.has_total_time_enabled() {
        Some(u64_at(input, 8))
    } else {
        None
    };
    let time_running = if flags.has_total_time_running() {
        Some(u64_at(input, running_at))
    } else {
        None
    };
    let rest = skip_bytes(input, 8 * head);
    if group {
        let (rest, values) = parse_read_values(rest, first, has_id)?;
        Ok((rest, ReadFormat { time_enabled, time_running, values }))
    } else {
        let id = if has_id {
            Some(u64_at(input, 8 * head - 8))
        } else {
            None
        };
        let mut values: Vec<(u64, Option<u64>)> = Vec::with_capacity(1);
        values.push((first, id));
        Ok((rest, ReadFormat { time_enabled, time_running, values }))
    }
}

/// The extent of a read record: the process and the thread, then the counter read.
pub open spec fn read_record_len(s: Seq<u8>, flags: ReadFormatFlags) -> Extent {
    then_len(fixed_len(s, 8), s, |t: Seq<u8>| read_format_len(t, flags))
}

impl ReadRecord {
    /// Whether this is the record that the bytes `s` start with, where the
    /// counter is read in the format `flags`.
    pub open spec fn decodes(&self, s: Seq<u8>, flags: ReadFormatFlags) -> bool {
        &&& self.pid == le_u32(s, 0)
        &&& self.tid == le_u32(s, 4)
        &&& self.value.decodes(s.skip(8), flags)
    }
}

/// Reads the payload of a read record, where the counter is read in the format `flags`.
pub fn parse_read_record<'a>(input: &'a [u8], flags: ReadFormatFlags) -> (r: ParseResult<
    'a,
    ReadRecord,
>)
    ensures
        reads(
            r,
            input@,
            read_record_len(input@, flags),
            |v: ReadRecord| v.decodes(input@, flags),
        ),
{
    need(input, 8)?;
    let (rest, value) = parse_read_format(skip_bytes(input, 8), flags)?;
    Ok((rest, ReadRecord { pid: u32_at(input, 0), tid: u32_at(input, 4), value }))
}

/// The extent of a branch stack: a `u64` count and as many entries of 24 bytes.
pub open spec fn branch_entries_len(s: Seq<u8>) -> Extent {
    then_len(fixed_len(s, 8), s, |t: Seq<u8>| array_len(t, le_u64(s, 0) as int, 24))
}

/// Reads a branch stack: the number of entries, then the entries.
pub fn parse_branch_entries<'a>(input: &'a [u8]) -> (r: ParseResult<'a, Vec<BranchEntry>>)
    ensures
        reads(
            r,
            input@,
            branch_entries_len(input@),
            |v: Vec<BranchEntry>| v@ == branch_entries(input@.skip(8), le_u64(input@, 0) as int),
        ),
{
    let (rest, n) = read_le_u64(input)?;
    let len = rest.len();
    if ((len / 24) as u64) < n {
        return Err(PerfError::Truncated { expected: 24, available: len % 24 });
    }
    let count: usize = n as usize;
    let mut v: Vec<BranchEntry> = Vec::with_capacity(count);
    let mut i: usize = 0;
    while i < count
        invariant
            len == rest@.len(),
            24 * count <= len,
            i <= count,
            v@ == branch_entries(rest@, i as int),
        decreases count - i,
    {
        v.push(
            BranchEntry {
                from: u64_at(rest, 24 * i),
                to: u64_at(rest, 24 * i + 8),
                flags: u64_at(rest, 24 * i + 16),
            },
        );
        i = i + 1;
    }
    Ok((skip_bytes(rest, 24 * count), v))
}

/// The extent of what is decoded of the payload `p` of a record with the
/// header `h`. A sample and a counter read are laid out as the first event of
/// `attrs` says, so without an event neither can be decoded.
pub open spec fn payload_len(p: Seq<u8>, h: EventHeader, attrs: Seq<EventAttr>) -> Extent {
    match h.event_type {
        EventType::Mmap => mmap_record_len(p),
        EventType::Mmap2 => mmap2_record_len(p),
        EventType::Comm => comm_record_len(p),
        EventType::Exit => fixed_len(p, 24),
        EventType::Fork => fixed_len(p, 24),
        EventType::Throttle => fixed_len(p, 24),
        EventType::Unthrottle => fixed_len(p, 24),
        EventType::Read => if attrs.len() == 0 {
            Err(PerfError::InconsistentSizes)
        } else {
            read_record_len(p, attrs[0].read_format)
        },
        EventType::Sample => if attrs.len() == 0 {
            Err(PerfError::InconsistentSizes)
        } else {
            sample_len(p, attrs[0])
        },
        EventType::BuildId => build_id_record_len(p, h.size as int),
        EventType::Lost => Ok(0),
        EventType::FinishedRound => Ok(0),
        EventType::Unknown(_) => Ok(0),
    }
}

impl EventData {
    /// Whether this is what the payload `p` of a record with the header `h`
    /// decodes to. The type code of the header picks the variant; the end of a
    /// round and a record of a type without decoder have no payload.
    pub open spec fn decodes(&self, p: Seq<u8>, h: EventHeader, attrs: Seq<EventAttr>) -> bool {
        match h.event_type {
            EventType::Mmap => *self matches EventData::MMAP(v) && v.decodes(p),
            EventType::Mmap2 => *self matches EventData::MMAP2(v) && v.decodes(p),
            EventType::Comm => *self matches EventData::Comm(v) && v.decodes(p),
            EventType::Exit => *self matches EventData::Exit(v) && v == exit_record_at(p, 0),
            EventType::Fork => *self matches EventData::Fork(v) && v == fork_record_at(p, 0),
            EventType::Throttle => *self matches EventData::Throttle(v) && v == throttle_record_at(
                p,
                0,
            ),
            EventType::Unthrottle => *self matches EventData::Unthrottle(v) && v
                == unthrottle_record_at(p, 0),
            EventType::Read => *self matches EventData::Read(v) && attrs.len() > 0 && v.decodes(
                p,
                attrs[0].read_format,
            ),
            EventType::Sample => *self matches EventData::Sample(v) && attrs.len() > 0
                && v.decodes(p, attrs[0]),
            EventType::BuildId => *self matches EventData::BuildId(v) && v.decodes(
                p,
                h.size as int,
            ),
            EventType::Lost => *self is Lost,
            EventType::FinishedRound => *self is Empty,
            EventType::Unknown(_) => *self is Empty,
        }
    }
}

/// Decodes the payload of a record with the header `header`.
pub fn parse_event_data(payload: &[u8], header: &EventHeader, attrs: &Vec<EventAttr>) -> (r:
    Result<EventData, PerfError>)
    ensures
        match r {
            Ok(data) => payload_len(payload@, *header, attrs@) is Ok && data.decodes(
                payload@,
                *header,
                attrs@,
            ),
            Err(e) => payload_len(payload@, *header, attrs@) == Err::<int, PerfError>(e),
        },
{
    match header.event_type {
        EventType::Mmap => {
            let (_, v) = parse_mmap_record(payload)?;
            Ok(EventData::MMAP(v))
        },
        EventType::Mmap2 => {
            let (_, v) = parse_mmap2_record(payload)?;
            Ok(EventData::MMAP2(v))
        },
        EventType::Comm => {
            let (_, v) = parse_comm_record(payload)?;
            Ok(EventData::Comm(v))
        },
        EventType::Exit => {
            let (_, v) = parse_exit_record(payload)?;
            Ok(EventData::Exit(v))
        },
        EventType::Fork => {
            let (_, v) = parse_fork_record(payload)?;
            Ok(EventData::Fork(v))
        },
        EventType::Throttle => {
            let (_, v) = parse_throttle_record(payload)?;
            Ok(EventData::Throttle(v))
        },
        EventType::Unthrottle => {
            let (_, v) = parse_unthrottle_record(payload)?;
            Ok(EventData::Unthrottle(v))
        },
        EventType::Read => {
            if attrs.len() == 0 {
                return Err(PerfError::InconsistentSizes);
            }
            let (_, v) = parse_read_record(payload, attrs[0].read_format)?;
            Ok(EventData::Read(v))
        },
        EventType::Sample => {
            if attrs.len() == 0 {
                return Err(PerfError::InconsistentSizes);
            }
            let (_, v) = parse_sample_record(payload, &attrs[0])?;
            Ok(EventData::Sample(v))
        },
        EventType::BuildId => {
            let (_, v) = parse_build_id_record(payload, header.size())?;
            Ok(EventData::BuildId(v))
        },
        EventType::Lost => Ok(EventData::Lost(LostRecord {  })),
        EventType::FinishedRound => Ok(EventData::Empty),
        EventType::Unknown(_) => Ok(EventData::Empty),
    }
}

/// The extent of the record that the bytes `s` start with: the size that its
/// header gives, if that is at least the eight bytes of the header, the bytes
/// hold the whole record, and its payload can be decoded within it.
pub open spec fn event_len(s: Seq<u8>, attrs: Seq<EventAttr>) -> Extent {
    let h = event_header_at(s, 0);
    if s.len() < 8 {
        Err(truncated(8, s.len() as int))
    } else if h.size < 8 {
        Err(PerfError::InconsistentSizes)
    } else if s.len() < h.size {
        Err(truncated(h.size as int, s.len() as int))
    } else {
        match payload_len(s.subrange(8, h.size as int), h, attrs) {
            Err(e) => Err(e),
            Ok(_) => Ok(h.size as int),
        }
    }
}

impl Event {
    /// Whether this is the record that the bytes `s` start with.
    pub open spec fn decodes(&self, s: Seq<u8>, attrs: Seq<EventAttr>) -> bool {
        &&& self.header == event_header_at(s, 0)
        &&& self.data.decodes(s.subrange(8, self.header.size as int), self.header, attrs)
    }
}

/// Parse an event record.
///
/// The record is as long as its header says: whatever the decoder of the
/// payload leaves unread within it is padding, and the bytes that are returned
/// start behind the whole record.
pub fn parse_event<'a>(input: &'a [u8], attrs: &Vec<EventAttr>) -> (r: ParseResult<'a, Event>)
    ensures
        reads(r, input@, event_len(input@, attrs@), |v: Event| v.decodes(input@, attrs@)),
        r matches Ok((rest, v)) ==> v.header.size >= 8 && rest@.len() + v.header.size
            == input@.len(),
{
    let (_, header) = parse_event_header(input)?;
    let size = header.size();
    if size < 8 {
        return Err(PerfError::InconsistentSizes);
    }
    let len = input.len();
    if len < size {
        return Err(PerfError::Truncated { expected: size, available: len });
    }
    let data = parse_event_data(slice_subrange(input, 8, size), &header, attrs)?;
    Ok((skip_bytes(input, size), Event { header, data }))
}

} // verus!
