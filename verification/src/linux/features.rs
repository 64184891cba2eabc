//! Decoders for the file header and for the payloads of the feature sections.
//!
//! Strings in feature sections carry their length in front and are padded
//! with NUL bytes; lists carry the number of their items in front.

use super::parser::{
    event_attr_at, file_section_at, parse_event_attr, parse_vec_u64_variable, reads, u64s,
};
use super::perf_format::{
    feature_index, CpuTopology, EventAttr, EventDesc, GroupDesc, HeaderFlag, HeaderFlags,
    NumaNode, PerfError, PerfFileHeader, PerfFileSection, PmuMapping,
};
use super::primitives::{
    array_len, bit_at, find_nul, fixed_len, le_u32, le_u64, lemma_list_len_error, list_item_start,
    list_len, lossy_text, read_bit, read_bytes, read_le_u32, skip_bytes, text_from_bytes, then_len,
    truncated, u32_at, u64_at, until_nul, Extent, ParseResult,
};
use vstd::prelude::*;
use vstd::slice::slice_subrange;

verus! {

/// The extent of a string: its length as a `u32`, then that many bytes.
pub open spec fn perf_string_len(s: Seq<u8>) -> Extent {
    then_len(fixed_len(s, 4), s, |t: Seq<u8>| fixed_len(t, le_u32(s, 0) as int))
}

/// The text of the string that `s` starts with: what stands before the first
/// NUL among its bytes.
pub open spec fn perf_string_text(s: Seq<u8>) -> Seq<char> {
    lossy_text(until_nul(s.subrange(4, 4 + le_u32(s, 0))))
}

/// The extent of one string, as a function of the bytes it starts at.
pub open spec fn perf_string_item() -> spec_fn(Seq<u8>) -> Extent {
    |t: Seq<u8>| perf_string_len(t)
}

/// Reads a string: a `u32` length, that many bytes, of which the ones before
/// the first NUL are the text.
pub fn parse_perf_string<'a>(input: &'a [u8]) -> (r: ParseResult<'a, String>)
    ensures
        reads(r, input@, perf_string_len(input@), |v: String| v@ == perf_string_text(input@)),
{
    let (rest, length) = read_le_u32(input)?;
    let (rest, bytes) = read_bytes(rest, length as usize)?;
    let end = find_nul(bytes);
    proof {
        assert(bytes@ =~= input@.subrange(4, 4 + le_u32(input@, 0)));
    }
    Ok((rest, text_from_bytes(slice_subrange(bytes, 0, end))))
}

/// The extent of a list: the number of its items as a `u32`, then the items.
pub open spec fn counted_list_len(s: Seq<u8>, item: spec_fn(Seq<u8>) -> Extent) -> Extent {
    then_len(fixed_len(s, 4), s, |t: Seq<u8>| list_len(t, le_u32(s, 0) as nat, item))
}

/// Whether `v` holds the texts of the strings that lie in `s` one behind the other.
pub open spec fn strings_decode(v: Seq<String>, s: Seq<u8>) -> bool {
    forall|i: int|
        0 <= i < v.len() ==> (#[trigger] v[i])@ == perf_string_text(
            s.skip(list_item_start(s, i as nat, perf_string_item())),
        )
}

/// Reads a list of strings.
pub fn parse_perf_string_list<'a>(input: &'a [u8]) -> (r: ParseResult<'a, Vec<String>>)
    ensures
        reads(
            r,
            input@,
            counted_list_len(input@, perf_string_item()),
            |v: Vec<String>|
                v@.len() == le_u32(input@, 0) && strings_decode(v@, input@.skip(4)),
        ),
{
    let (body, n) = read_le_u32(input)?;
    let mut rest: &[u8] = body;
    let mut v: Vec<String> = Vec::new();
    let mut i: u32 = 0;
    let ghost mut at: int = 0;
    while i < n
        invariant
            i <= n,
            0 <= at <= body@.len(),
            input@.len() >= 4,
            body@ == input@.skip(4),
            n == le_u32(input@, 0),
            list_len(body@, i as nat, perf_string_item()) == Ok::<int, PerfError>(at),
            rest@ =~= body@.skip(at),
            v@.len() == i,
            strings_decode(v@, body@),
        decreases n - i,
    {
        match parse_perf_string(rest) {
            Ok((behind, x)) => {
                proof {
                    at = at + perf_string_len(rest@)->Ok_0;
                }
                v.push(x);
                rest = behind;
            },
            Err(e) => {
                proof {
                    lemma_list_len_error(body@, (i + 1) as nat, n as nat, perf_string_item());
                }
                return Err(e);
            },
        }
        i = i + 1;
    }
    Ok((rest, v))
}

/// The extent of a CPU topology: the list of core siblings, then that of thread siblings.
pub open spec fn cpu_topology_len(s: Seq<u8>) -> Extent {
    then_len(
        counted_list_len(s, perf_string_item()),
        s,
        |t: Seq<u8>| counted_list_len(t, perf_string_item()),
    )
}

impl CpuTopology {
    /// Whether this is the topology that the bytes `s` start with.
    pub open spec fn decodes(&self, s: Seq<u8>) -> bool {
        let t = s.skip(counted_list_len(s, perf_string_item())->Ok_0);
        &&& self.cores@.len() == le_u32(s, 0)
        &&& strings_decode(self.cores@, s.skip(4))
        &&& self.threads@.len() == le_u32(t, 0)
        &&& strings_decode(self.threads@, t.skip(4))
    }
}

/// Reads a CPU topology.
pub fn parse_cpu_topology<'a>(input: &'a [u8]) -> (r: ParseResult<'a, CpuTopology>)
    ensures
        reads(r, input@, cpu_topology_len(input@), |v: CpuTopology| v.decodes(input@)),
{
    let (rest, cores) = parse_perf_string_list(input)?;
    let (rest, threads) = parse_perf_string_list(rest)?;
    Ok((rest, CpuTopology { cores, threads }))
}

/// The extent of a NUMA node: 20 bytes of numbers, then the list of its CPUs as a string.
pub open spec fn numa_node_len(s: Seq<u8>) -> Extent {
    then_len(fixed_len(s, 20), s, |t: Seq<u8>| perf_string_len(t))
}

/// The extent of one NUMA node, as a function of the bytes it starts at.
pub open spec fn numa_node_item() -> spec_fn(Seq<u8>) -> Extent {
    |t: Seq<u8>| numa_node_len(t)
}

impl NumaNode {
    /// Whether this is the node that the bytes `s` start with.
    pub open spec fn decodes(&self, s: Seq<u8>) -> bool {
        &&& self.node_nr == le_u32(s, 0)
        &&& self.mem_total == le_u64(s, 4)
        &&& self.mem_free == le_u64(s, 12)
        &&& self.cpus@ == perf_string_text(s.skip(20))
    }
}

/// Reads a NUMA node.
pub fn parse_numa_node<'a>(input: &'a [u8]) -> (r: ParseResult<'a, NumaNode>)
    ensures
        reads(r, input@, numa_node_len(input@), |v: NumaNode| v.decodes(input@)),
{
    let len = input.len();
    if len < 20 {
        return Err(PerfError::Truncated { expected: 20, available: len });
    }
    let (rest, cpus) = parse_perf_string(skip_bytes(input, 20))?;
    let v = NumaNode {
        node_nr: u32_at(input, 0),
        mem_total: u64_at(input, 4),
        mem_free: u64_at(input, 12),
        cpus,
    };
    Ok((rest, v))
}

/// Whether `v` holds the nodes that lie in `s` one behind the other.
pub open spec fn numa_nodes_decode(v: Seq<NumaNode>, s: Seq<u8>) -> bool {
    forall|i: int|
        0 <= i < v.len() ==> (#[trigger] v[i]).decodes(
            s.skip(list_item_start(s, i as nat, numa_node_item())),
        )
}

/// Reads the list of the NUMA nodes.
pub fn parse_numa_topology<'a>(input: &'a [u8]) -> (r: ParseResult<'a, Vec<NumaNode>>)
    ensures
        reads(
            r,
            input@,
            counted_list_len(input@, numa_node_item()),
            |v: Vec<NumaNode>|
                v@.len() == le_u32(input@, 0) && numa_nodes_decode(v@, input@.skip(4)),
        ),
{
    let (body, n) = read_le_u32(input)?;
    let mut rest: &[u8] = body;
    let mut v: Vec<NumaNode> = Vec::new();
    let mut i: u32 = 0;
    let ghost mut at: int = 0;
    while i < n
        invariant
            i <= n,
            0 <= at <= body@.len(),
            input@.len() >= 4,
            body@ == input@.skip(4),
            n == le_u32(input@, 0),
            list_len(body@, i as nat, numa_node_item()) == Ok::<int, PerfError>(at),
            rest@ =~= body@.skip(at),
            v@.len() == i,
            numa_nodes_decode(v@, body@),
        decreases n - i,
    {
        match parse_numa_node(rest) {
            Ok((behind, x)) => {
                proof {
                    at = at + numa_node_len(rest@)->Ok_0;
                }
                v.push(x);
                rest = behind;
            },
            Err(e) => {
                proof {
                    lemma_list_len_error(body@, (i + 1) as nat, n as nat, numa_node_item());
                }
                return Err(e);
            },
        }
        i = i + 1;
    }
    Ok((rest, v))
}

/// The extent of a PMU mapping: the type of the PMU, then its name as a string.
pub open spec fn pmu_mapping_len(s: Seq<u8>) -> Extent {
    then_len(fixed_len(s, 4), s, |t: Seq<u8>| perf_string_len(t))
}

/// The extent of one PMU mapping, as a function of the bytes it starts at.
pub open spec fn pmu_mapping_item() -> spec_fn(Seq<u8>) -> Extent {
    |t: Seq<u8>| pmu_mapping_len(t)
}

impl PmuMapping {
    /// Whether this is the mapping that the bytes `s` start with.
    pub open spec fn decodes(&self, s: Seq<u8>) -> bool {
        &&& self.pmu_type == le_u32(s, 0)
        &&& self.pmu_name@ == perf_string_text(s.skip(4))
    }
}

/// Reads a PMU mapping.
pub fn parse_pmu_mapping<'a>(input: &'a [u8]) -> (r: ParseResult<'a, PmuMapping>)
    ensures
        reads(r, input@, pmu_mapping_len(input@), |v: PmuMapping| v.decodes(input@)),
{
    let (rest, pmu_type) = read_le_u32(input)?;
    let (rest, pmu_name) = parse_perf_string(rest)?;
    Ok((rest, PmuMapping { pmu_type, pmu_name }))
}

/// Whether `v` holds the mappings that lie in `s` one behind the other.
pub open spec fn pmu_mappings_decode(v: Seq<PmuMapping>, s: Seq<u8>) -> bool {
    forall|i: int|
        0 <= i < v.len() ==> (#[trigger] v[i]).decodes(
            s.skip(list_item_start(s, i as nat, pmu_mapping_item())),
        )
}

/// Reads the list of the PMU mappings.
pub fn parse_pmu_mappings<'a>(input: &'a [u8]) -> (r: ParseResult<'a, Vec<PmuMapping>>)
    ensures
        reads(
            r,
            input@,
            counted_list_len(input@, pmu_mapping_item()),
            |v: Vec<PmuMapping>|
                v@.len() == le_u32(input@, 0) && pmu_mappings_decode(v@, input@.skip(4)),
        ),
{
    let (body, n) = read_le_u32(input)?;
    let mut rest: &[u8] = body;
    let mut v: Vec<PmuMapping> = Vec::new();
    let mut i: u32 = 0;
    let ghost mut at: int = 0;
    while i < n
        invariant
            i <= n,
            0 <= at <= body@.len(),
            input@.len() >= 4,
            body@ == input@.skip(4),
            n == le_u32(input@, 0),
            list_len(body@, i as nat, pmu_mapping_item()) == Ok::<int, PerfError>(at),
            rest@ =~= body@.skip(at),
            v@.len() == i,
            pmu_mappings_decode(v@, body@),
        decreases n - i,
    {
        match parse_pmu_mapping(rest) {
            Ok((behind, x)) => {
                proof {
                    at = at + pmu_mapping_len(rest@)->Ok_0;
                }
                v.push(x);
                rest = behind;
            },
            Err(e) => {
                proof {
                    lemma_list_len_error(body@, (i + 1) as nat, n as nat, pmu_mapping_item());
                }
                return Err(e);
            },
        }
        i = i + 1;
    }
    Ok((rest, v))
}

/// The extent of a group description: its name as a string, then two `u32`.
pub open spec fn group_description_len(s: Seq<u8>) -> Extent {
    then_len(perf_string_len(s), s, |t: Seq<u8>| fixed_len(t, 8))
}

/// The extent of one group description, as a function of the bytes it starts at.
pub open spec fn group_description_item() -> spec_fn(Seq<u8>) -> Extent {
    |t: Seq<u8>| group_description_len(t)
}

impl GroupDesc {
    /// Whether this is the description that the bytes `s` start with.
    pub open spec fn decodes(&self, s: Seq<u8>) -> bool {
        &&& self.string@ == perf_string_text(s)
        &&& self.leader_idx == le_u32(s, 4 + le_u32(s, 0))
        &&& self.nr_members == le_u32(s, 8 + le_u32(s, 0))
    }
}

/// Reads a group description.
pub fn parse_group_description<'a>(input: &'a [u8]) -> (r: ParseResult<'a, GroupDesc>)
    ensures
        reads(r, input@, group_description_len(input@), |v: GroupDesc| v.decodes(input@)),
{
    let (rest, string) = parse_perf_string(input)?;
    let len = rest.len();
    if len < 8 {
        return Err(PerfError::Truncated { expected: 8, available: len });
    }
    let v = GroupDesc { string, leader_idx: u32_at(rest, 0), nr_members: u32_at(rest, 4) };
    Ok((skip_bytes(rest, 8), v))
}

/// Whether `v` holds the descriptions that lie in `s` one behind the other.
pub open spec fn group_descriptions_decode(v: Seq<GroupDesc>, s: Seq<u8>) -> bool {
    forall|i: int|
        0 <= i < v.len() ==> (#[trigger] v[i]).decodes(
            s.skip(list_item_start(s, i as nat, group_description_item())),
        )
}

/// Reads the list of the group descriptions.
pub fn parse_group_descriptions<'a>(input: &'a [u8]) -> (r: ParseResult<'a, Vec<GroupDesc>>)
    ensures
        reads(
            r,
            input@,
            counted_list_len(input@, group_description_item()),
            |v: Vec<GroupDesc>|
                v@.len() == le_u32(input@, 0) && group_descriptions_decode(v@, input@.skip(4)),
        ),
{
    let (body, n) = read_le_u32(input)?;
    let mut rest: &[u8] = body;
    let mut v: Vec<GroupDesc> = Vec::new();
    let mut i: u32 = 0;
    let ghost mut at: int = 0;
    while i < n
        invariant
            i <= n,
            0 <= at <= body@.len(),
            input@.len() >= 4,
            body@ == input@.skip(4),
            n == le_u32(input@, 0),
            list_len(body@, i as nat, group_description_item()) == Ok::<int, PerfError>(at),
            rest@ =~= body@.skip(at),
            v@.len() == i,
            group_descriptions_decode(v@, body@),
        decreases n - i,
    {
        match parse_group_description(rest) {
            Ok((behind, x)) => {
                proof {
                    at = at + group_description_len(rest@)->Ok_0;
                }
                v.push(x);
                rest = behind;
            },
            Err(e) => {
                proof {
                    lemma_list_len_error(
                        body@,
                        (i + 1) as nat,
                        n as nat,
                        group_description_item(),
                    );
                }
                return Err(e);
            },
        }
        i = i + 1;
    }
    Ok((rest, v))
}

/// The extent of what stands behind the attribute block in an event
/// description: the number of ids, the name of the event as a string, the ids.
pub open spec fn event_desc_tail_len(s: Seq<u8>) -> Extent {
    then_len(
        fixed_len(s, 4),
        s,
        |t: Seq<u8>|
            then_len(perf_string_len(t), t, |u: Seq<u8>| array_len(u, le_u32(s, 0) as int, 8)),
    )
}

/// The extent of an event description whose attribute block takes
/// `attr_size` bytes: the block, which must hold the 112 bytes of an
/// attribute block; the number of ids; the name of the event as a string; the ids.
pub open spec fn event_desc_len(s: Seq<u8>, attr_size: int) -> Extent {
    if s.len() < attr_size {
        Err(truncated(attr_size, s.len() as int))
    } else if attr_size < 112 {
        Err(truncated(112, attr_size))
    } else {
        then_len(Ok(attr_size), s, |t: Seq<u8>| event_desc_tail_len(t))
    }
}

/// The extent of one event description, as a function of the bytes it starts at.
pub open spec fn event_desc_item(attr_size: int) -> spec_fn(Seq<u8>) -> Extent {
    |t: Seq<u8>| event_desc_len(t, attr_size)
}

impl EventDesc {
    /// Whether the name and the ids are what the bytes `s` hold, which start
    /// behind the attribute block.
    pub open spec fn tail_decodes(&self, s: Seq<u8>) -> bool {
        &&& self.event_string@ == perf_string_text(s.skip(4))
        &&& self.ids@ == u64s(s.skip(8 + le_u32(s, 4)), le_u32(s, 0) as int)
    }

    /// Whether this is the description that the bytes `s` start with, where
    /// the attribute block takes `attr_size` bytes.
    pub open spec fn decodes(&self, s: Seq<u8>, attr_size: int) -> bool {
        &&& self.attr == event_attr_at(s, 0)
        &&& self.tail_decodes(s.skip(attr_size))
    }
}

/// Reads what stands behind the attribute block `attr` in an event description.
fn parse_event_desc_tail<'a>(input: &'a [u8], attr: EventAttr) -> (r: ParseResult<'a, EventDesc>)
    ensures
        reads(
            r,
            input@,
            event_desc_tail_len(input@),
            |v: EventDesc| v.attr == attr && v.tail_decodes(input@),
        ),
{
    let (name, nr_ids) = read_le_u32(input)?;
    let (id_bytes, event_string) = parse_perf_string(name)?;
    proof {
        assert(le_u32(name@, 0) == le_u32(input@, 4));
        assert(id_bytes@ =~= input@.skip(8 + le_u32(input@, 4)));
    }
    let (rest, ids) = parse_vec_u64_variable(id_bytes, nr_ids as usize)?;
    Ok((rest, EventDesc { attr, event_string, ids }))
}

/// Reads one event description, of which the attribute block takes `attr_size` bytes.
pub fn parse_event_desc_item<'a>(input: &'a [u8], attr_size: u32) -> (r: ParseResult<
    'a,
    EventDesc,
>)
    ensures
        reads(
            r,
            input@,
            event_desc_len(input@, attr_size as int),
            |v: EventDesc| v.decodes(input@, attr_size as int),
        ),
{
    let (rest, block) = read_bytes(input, attr_size as usize)?;
    let (_, attr) = parse_event_attr(block)?;
    proof {
        assert(attr == event_attr_at(input@, 0));
    }
    parse_event_desc_tail(rest, attr)
}

/// The extent of the event descriptions: the number of events and the size of
/// an attribute block, each a `u32`, then the descriptions.
pub open spec fn event_descs_len(s: Seq<u8>) -> Extent {
    then_len(
        fixed_len(s, 8),
        s,
        |t: Seq<u8>| list_len(t, le_u32(s, 0) as nat, event_desc_item(le_u32(s, 4) as int)),
    )
}

/// Whether `v` holds the descriptions that lie in `s` one behind the other.
pub open spec fn event_descs_decode(v: Seq<EventDesc>, s: Seq<u8>, attr_size: int) -> bool {
    forall|i: int|
        0 <= i < v.len() ==> (#[trigger] v[i]).decodes(
            s.skip(list_item_start(s, i as nat, event_desc_item(attr_size))),
            attr_size,
        )
}

/// Reads the descriptions of the events that were recorded.
pub fn parse_event_desc<'a>(input: &'a [u8]) -> (r: ParseResult<'a, Vec<EventDesc>>)
    ensures
        reads(
            r,
            input@,
            event_descs_len(input@),
            |v: Vec<EventDesc>|
                v@.len() == le_u32(input@, 0) && event_descs_decode(
                    v@,
                    input@.skip(8),
                    le_u32(input@, 4) as int,
                ),
        ),
{
    let len = input.len();
    if len < 8 {
        return Err(PerfError::Truncated { expected: 8, available: len });
    }
    let n = u32_at(input, 0);
    let attr_size = u32_at(input, 4);
    let body = skip_bytes(input, 8);
    let mut rest: &[u8] = body;
    let mut v: Vec<EventDesc> = Vec::new();
    let mut i: u32 = 0;
    let ghost mut at: int = 0;
    while i < n
        invariant
            i <= n,
            0 <= at <= body@.len(),
            input@.len() >= 8,
            body@ == input@.skip(8),
            n == le_u32(input@, 0),
            attr_size == le_u32(input@, 4),
            list_len(body@, i as nat, event_desc_item(attr_size as int)) == Ok::<int, PerfError>(
                at,
            ),
            rest@ =~= body@.skip(at),
            v@.len() == i,
            event_descs_decode(v@, body@, attr_size as int),
        decreases n - i,
    {
        match parse_event_desc_item(rest, attr_size) {
            Ok((behind, x)) => {
                proof {
                    at = at + event_desc_len(rest@, attr_size as int)->Ok_0;
                }
                v.push(x);
                rest = behind;
            },
            Err(e) => {
                proof {
                    lemma_list_len_error(
                        body@,
                        (i + 1) as nat,
                        n as nat,
                        event_desc_item(attr_size as int),
                    );
                }
                return Err(e);
            },
        }
        i = i + 1;
    }
    Ok((rest, v))
}

/// The size of the file header: the tag, the sizes, three section
/// descriptors, the 256 flag bits and 29 reserved bytes.
pub const HEADER_LEN: usize = 133;

/// Whether the bytes start with the tag `PERFILE2`.
pub open spec fn has_magic(s: Seq<u8>) -> bool {
    &&& s.len() >= 8
    &&& s[0] == 0x50
    &&& s[1] == 0x45
    &&& s[2] == 0x52
    &&& s[3] == 0x46
    &&& s[4] == 0x49
    &&& s[5] == 0x4c
    &&& s[6] == 0x45
    &&& s[7] == 0x32
}

/// The extent of the file header. The tag is read first, and is checked
/// before anything behind it is read.
pub open spec fn header_len(s: Seq<u8>) -> Extent {
    if s.len() < 8 {
        Err(truncated(8, s.len() as int))
    } else if !has_magic(s) {
        Err(PerfError::BadMagic)
    } else if s.len() < 133 {
        Err(truncated(125, s.len() - 8))
    } else {
        Ok(133)
    }
}

/// The feature flags in the flag bytes `f` of the header. The bits are
/// counted from the highest bit of the first byte on.
pub open spec fn header_flags_of(f: Seq<u8>) -> HeaderFlags {
    HeaderFlags {
        nrcpus: bit_at(f, 0),
        arch: bit_at(f, 1),
        version: bit_at(f, 2),
        osrelease: bit_at(f, 3),
        hostname: bit_at(f, 4),
        build_id: bit_at(f, 5),
        tracing_data: bit_at(f, 6),
        branch_stack: bit_at(f, 8),
        numa_topology: bit_at(f, 9),
        cpu_topology: bit_at(f, 10),
        event_desc: bit_at(f, 11),
        cmdline: bit_at(f, 12),
        total_mem: bit_at(f, 13),
        cpuid: bit_at(f, 14),
        cpudesc: bit_at(f, 15),
        group_desc: bit_at(f, 22),
        pmu_mappings: bit_at(f, 23),
    }
}

/// Bit `n` of the flag word in the bytes `f`, where bit 0 is the lowest bit
/// of the first byte, as the writer of the file numbers the bits.
pub open spec fn word_bit(f: Seq<u8>, n: int) -> bool {
    (f[n / 8] >> ((n % 8) as u8)) & 1 == 1
}

/// The flag of a feature is the bit of the flag word whose number is one
/// above the place of the feature in file order: the sections lie in the
/// file in the order of their flag bits.
pub proof fn lemma_flags_are_word_bits(f: Seq<u8>, flag: HeaderFlag)
    ensures
        header_flags_of(f).has(flag) == word_bit(f, feature_index(flag) + 1),
{
}

/// The file header that the bytes `s` start with.
pub open spec fn header_at(s: Seq<u8>) -> PerfFileHeader {
    PerfFileHeader {
        size: le_u64(s, 8),
        attr_size: le_u64(s, 16),
        attrs: file_section_at(s, 24),
        data: file_section_at(s, 40),
        event_types: file_section_at(s, 56),
        flags: header_flags_of(s.subrange(72, 104)),
    }
}

/// Whether the input starts with the tag `PERFILE2`.
fn check_magic(input: &[u8]) -> (r: bool)
    requires
        input@.len() >= 8,
    ensures
        r == has_magic(input@),
{
    input[0] == 0x50 && input[1] == 0x45 && input[2] == 0x52 && input[3] == 0x46 && input[4]
        == 0x49 && input[5] == 0x4c && input[6] == 0x45 && input[7] == 0x32
}

/// Reads the feature flags from the flag bytes of the header.
fn parse_header_flags(f: &[u8]) -> (r: HeaderFlags)
    requires
        f@.len() >= 3,
    ensures
        r == header_flags_of(f@),
{
    HeaderFlags {
        nrcpus: read_bit(f, 0),
        arch: read_bit(f, 1),
        version: read_bit(f, 2),
        osrelease: read_bit(f, 3),
        hostname: read_bit(f, 4),
        build_id: read_bit(f, 5),
        tracing_data: read_bit(f, 6),
        branch_stack: read_bit(f, 8),
        numa_topology: read_bit(f, 9),
        cpu_topology: read_bit(f, 10),
        event_desc: read_bit(f, 11),
        cmdline: read_bit(f, 12),
        total_mem: read_bit(f, 13),
        cpuid: read_bit(f, 14),
        cpudesc: read_bit(f, 15),
        group_desc: read_bit(f, 22),
        pmu_mappings: read_bit(f, 23),
    }
}

/// Reads the file header.
pub fn parse_header<'a>(input: &'a [u8]) -> (r: ParseResult<'a, PerfFileHeader>)
    ensures
        reads(r, input@, header_len(input@), |v: PerfFileHeader| v == header_at(input@)),
{
    let len = input.len();
    if len < 8 {
        return Err(PerfError::Truncated { expected: 8, available: len });
    }
    if !check_magic(input) {
        return Err(PerfError::BadMagic);
    }
    if len < HEADER_LEN {
        return Err(PerfError::Truncated { expected: 125, available: len - 8 });
    }
    let v = PerfFileHeader {
        size: u64_at(input, 8),
        attr_size: u64_at(input, 16),
        attrs: PerfFileSection { offset: u64_at(input, 24), size: u64_at(input, 32) },
        data: PerfFileSection { offset: u64_at(input, 40), size: u64_at(input, 48) },
        event_types: PerfFileSection { offset: u64_at(input, 56), size: u64_at(input, 64) },
        flags: parse_header_flags(slice_subrange(input, 72, 104)),
    };
    Ok((skip_bytes(input, HEADER_LEN), v))
}

} // verus!
