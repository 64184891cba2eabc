//! High-level abstractions for a `perf.data` file.
//!
//! A `PerfFile` owns the bytes of a file. Its header and the table of event
//! attributes are decoded when it is made; the records of the data section
//! and the feature sections are decoded when they are asked for.

use super::features::{
    counted_list_len, cpu_topology_len, event_descs_decode, event_descs_len,
    group_description_item, group_descriptions_decode, header_at, header_len, numa_node_item,
    numa_nodes_decode, parse_cpu_topology, parse_event_desc, parse_group_descriptions,
    parse_header, parse_numa_topology, parse_perf_string, parse_pmu_mappings, perf_string_item,
    perf_string_text, pmu_mapping_item, pmu_mappings_decode,
};
use super::parser::{
    build_id_record_len, event_attr_at, event_attr_from, event_header_at, event_len,
    file_section_at, nrcpus_at, parse_build_id_record, parse_event, parse_event_header,
    parse_nrcpus,
};
use super::perf_format::{
    feature_at, feature_index, lemma_present_before, lemma_rank_below_count, BuildIdRecord,
    CpuTopology, Event, EventAttr, EventDesc, EventType, GroupDesc, HeaderFlag, NrCpus, NumaNode,
    PerfError, PerfFileHeader, PerfFileSection, PmuMapping,
};
use super::primitives::{
    array_len, fixed_len, le_u32, le_u64, read_le_u64, then_len, truncated, u64_at, Extent,
    ParseResult,
};
use vstd::arithmetic::div_mod::lemma_fundamental_div_mod;
use vstd::prelude::*;
use vstd::slice::{slice_subrange, slice_to_vec};

verus! {

/// The largest `usize` that is not above `n`.
pub open spec fn clamp(n: int) -> int {
    if n > usize::MAX {
        usize::MAX as int
    } else {
        n
    }
}

/// The error of a section that does not lie within a file of `len` bytes: it
/// needs its size, and has what the file holds from its offset on.
pub open spec fn section_error(section: PerfFileSection, len: int) -> PerfError {
    truncated(
        clamp(section.size as int),
        if section.offset <= len {
            len - section.offset
        } else {
            0
        },
    )
}

/// The error of a section that does not lie within a file of `len` bytes.
fn section_outside(section: &PerfFileSection, len: usize) -> (e: PerfError)
    requires
        !section.within(len as int),
    ensures
        e == section_error(*section, len as int),
{
    let expected: usize = if section.size > usize::MAX as u64 {
        usize::MAX
    } else {
        section.size as usize
    };
    let available: usize = if section.offset <= len as u64 {
        len - (section.offset as usize)
    } else {
        0
    };
    PerfError::Truncated { expected, available }
}

/// The attribute table of a file with the bytes `s` and the header `h`: the
/// section of the attributes, cut into entries of `h.attr_size` bytes, each
/// of which starts with an attribute block.
pub open spec fn attrs_of(s: Seq<u8>, h: PerfFileHeader) -> Result<Seq<EventAttr>, PerfError> {
    if !h.attrs.within(s.len() as int) {
        Err(section_error(h.attrs, s.len() as int))
    } else if h.attrs.size == 0 {
        Ok(Seq::empty())
    } else if h.attr_size == 0 || h.attrs.size % h.attr_size != 0 {
        Err(PerfError::InconsistentSizes)
    } else if h.attr_size < 112 {
        Err(truncated(112, h.attr_size as int))
    } else {
        Ok(
            Seq::new(
                (h.attrs.size / h.attr_size) as nat,
                |i: int| event_attr_at(s, h.attrs.offset + i * h.attr_size),
            ),
        )
    }
}

/// What a file with the bytes `s` decodes to when it is opened: its header
/// and its attribute table. The tag must be right, and the sections of the
/// attributes and of the data must lie within the file.
pub open spec fn file_of(s: Seq<u8>) -> Result<(PerfFileHeader, Seq<EventAttr>), PerfError> {
    match header_len(s) {
        Err(e) => Err(e),
        Ok(_) => match attrs_of(s, header_at(s)) {
            Err(e) => Err(e),
            Ok(attrs) => if header_at(s).data.within(s.len() as int) {
                Ok((header_at(s), attrs))
            } else {
                Err(section_error(header_at(s).data, s.len() as int))
            },
        },
    }
}

/// A section of `size` bytes that is made of whole entries of `step` bytes
/// holds `size / step` of them, at least one, and none is longer than it.
proof fn lemma_whole_entries(size: int, step: int)
    requires
        size > 0,
        step > 0,
        size % step == 0,
    ensures
        size / step >= 1,
        (size / step) * step == size,
        step <= size,
        size / step <= size,
{
    lemma_fundamental_div_mod(size, step);
    let n = size / step;
    assert(step * n == size);
    assert(n >= 1 && n * step == size && step <= size && n <= size) by (nonlinear_arith)
        requires
            step * n == size,
            size > 0,
            step > 0,
    ;
}

/// Entry `i` of `count` entries of `step` bytes ends within them.
proof fn lemma_entry_within(i: int, count: int, step: int)
    requires
        0 <= i < count,
        step >= 0,
    ensures
        i * step >= 0,
        (i + 1) * step == i * step + step,
        (i + 1) * step <= count * step,
{
    assert(i * step >= 0 && (i + 1) * step == i * step + step && (i + 1) * step <= count * step)
        by (nonlinear_arith)
        requires
            0 <= i < count,
            step >= 0,
    ;
}

/// Reads the attribute table of a file with the bytes `bytes` and the header `header`.
fn parse_attrs(bytes: &[u8], header: &PerfFileHeader) -> (r: Result<Vec<EventAttr>, PerfError>)
    ensures
        match r {
            Ok(attrs) => attrs_of(bytes@, *header) == Ok::<Seq<EventAttr>, PerfError>(attrs@),
            Err(e) => attrs_of(bytes@, *header) == Err::<Seq<EventAttr>, PerfError>(e),
        },
{
    let len = bytes.len();
    if !header.attrs.fits(len) {
        return Err(section_outside(&header.attrs, len));
    }
    let mut attrs: Vec<EventAttr> = Vec::new();
    if header.attrs.size == 0 {
        return Ok(attrs);
    }
    if header.attr_size == 0 || header.attrs.size % header.attr_size != 0 {
        return Err(PerfError::InconsistentSizes);
    }
    if header.attr_size < 112 {
        return Err(PerfError::Truncated { expected: 112, available: header.attr_size as usize });
    }
    let count64: u64 = header.attrs.size / header.attr_size;
    proof {
        lemma_whole_entries(header.attrs.size as int, header.attr_size as int);
    }
    let start: usize = header.attrs.start();
    let step: usize = header.attr_size as usize;
    let count: usize = count64 as usize;
    let mut i: usize = 0;
    let mut at: usize = start;
    while i < count
        invariant
            len == bytes@.len(),
            step == header.attr_size,
            step >= 112,
            start == header.attrs.offset,
            count == header.attrs.size / header.attr_size,
            start + count * step <= len,
            i <= count,
            at == start + i * step,
            attrs@ == Seq::new(
                i as nat,
                |j: int| event_attr_at(bytes@, header.attrs.offset + j * header.attr_size),
            ),
        decreases count - i,
    {
        proof {
            lemma_entry_within(i as int, count as int, step as int);
        }
        attrs.push(event_attr_from(bytes, at));
        i = i + 1;
        at = at + step;
    }
    Ok(attrs)
}

/// The attribute section of a file that opens is made of whole entries, and
/// the attribute table has one attribute block for each of them.
pub proof fn lemma_attrs_are_whole_entries(s: Seq<u8>)
    requires
        file_of(s) is Ok,
    ensures
        ({
            let (h, attrs) = file_of(s)->Ok_0;
            if h.attrs.size == 0 {
                attrs.len() == 0
            } else {
                &&& h.attr_size >= 112
                &&& h.attrs.size % h.attr_size == 0
                &&& attrs.len() == h.attrs.size / h.attr_size
            }
        }),
{
    let h = header_at(s);
    assert(attrs_of(s, h) is Ok);
    if h.attrs.size != 0 {
        lemma_whole_entries(h.attrs.size as int, h.attr_size as int);
    }
}

/// A `perf.data` file.
#[derive(Debug)]
pub struct PerfFile {
    pub header: PerfFileHeader,
    pub attrs: Vec<EventAttr>,
    /// The bytes of the file, the header included.
    pub bytes: Vec<u8>,
}

/// Walks the records of a data section, one at a time and each once.
pub struct PerfFileEventDataIter<'a> {
    attrs: &'a Vec<EventAttr>,
    data: &'a [u8],
    offset: usize,
    error: Option<PerfError>,
}

impl<'a> PerfFileEventDataIter<'a> {
    #[verifier::type_invariant]
    spec fn wf(&self) -> bool {
        self.offset <= self.data@.len()
    }

    /// The events whose masks lay out the samples and the counter reads.
    pub closed spec fn attrs(&self) -> Seq<EventAttr> {
        self.attrs@
    }

    /// The bytes of the records that were not walked yet.
    pub closed spec fn remaining(&self) -> Seq<u8> {
        self.data@.skip(self.offset as int)
    }

    /// How many bytes of the data section were walked.
    pub closed spec fn consumed(&self) -> int {
        self.offset as int
    }

    /// Why the walk ended before the end of the data section, if it did.
    pub closed spec fn failure(&self) -> Option<PerfError> {
        self.error
    }

    /// Whether the walk has ended: it has failed, or fewer bytes remain than
    /// the header of a record has.
    pub open spec fn finished(&self) -> bool {
        self.failure() is Some || self.remaining().len() < 8
    }

    /// Why the walk ended before the end of the data section, if it did.
    pub fn error(&self) -> (r: Option<PerfError>)
        ensures
            r == self.failure(),
    {
        self.error
    }

    /// How many bytes of the data section were walked.
    pub fn position(&self) -> (r: usize)
        ensures
            r == self.consumed(),
    {
        self.offset
    }

    /// How many bytes of the data section were not walked yet. After a walk
    /// that has ended without an error, none are left exactly if the records
    /// fill the data section.
    pub fn remaining_len(&self) -> (r: usize)
        ensures
            r == self.remaining().len(),
    {
        proof {
            use_type_invariant(self);
        }
        self.data.len() - self.offset
    }

    /// Decodes the next record and steps behind it.
    ///
    /// The step is as long as the header of the record says, whatever the
    /// decoder of its payload has read. Once fewer than eight bytes remain the
    /// walk is over. A record that cannot be decoded ends the walk too: the
    /// error is kept, and no further record is returned.
    pub fn next(&mut self) -> (r: Option<Event>)
        ensures
            final(self).attrs() == old(self).attrs(),
            old(self).finished() ==> r is None && final(self).failure() == old(self).failure()
                && final(self).remaining() == old(self).remaining() && final(self).consumed()
                == old(self).consumed(),
            !old(self).finished() ==> match event_len(old(self).remaining(), old(self).attrs()) {
                Ok(n) => {
                    &&& r matches Some(ev)
                    &&& ev.decodes(old(self).remaining(), old(self).attrs())
                    &&& ev.header.size == n
                    &&& final(self).consumed() == old(self).consumed() + ev.header.size
                    &&& final(self).remaining() == old(self).remaining().skip(n)
                    &&& final(self).failure() is None
                },
                Err(e) => {
                    &&& r is None
                    &&& final(self).failure() == Some(e)
                    &&& final(self).remaining() == old(self).remaining()
                    &&& final(self).consumed() == old(self).consumed()
                },
            },
    {
        proof {
            use_type_invariant(&*self);
        }
        if self.error.is_some() || self.data.len() - self.offset < 8 {
            return None;
        }
        let slice = slice_subrange(self.data, self.offset, self.data.len());
        match parse_event(slice, self.attrs) {
            Ok((_, ev)) => {
                self.offset = self.offset + ev.header.size();
                proof {
                    assert(self.data@.skip(self.offset as int) =~= slice@.skip(
                        ev.header.size as int,
                    ));
                }
                Some(ev)
            },
            Err(e) => {
                self.error = Some(e);
                None
            },
        }
    }
}

impl Event {
    /// What is to be noted of the record: that its type has no decoder, if so.
    pub fn diagnostic(&self) -> (r: Option<PerfError>)
        ensures
            r == match self.header.event_type {
                EventType::Unknown(code) => Some(PerfError::UnknownRecordType(code)),
                _ => None,
            },
    {
        match self.header.event_type {
            EventType::Unknown(code) => Some(PerfError::UnknownRecordType(code)),
            _ => None,
        }
    }
}

impl PerfFile {
    /// Opens a file: decodes its header and its attribute table.
    ///
    /// Fails with `BadMagic` where the tag is wrong, with `Truncated` where
    /// the file ends before its header, its attributes or its data do, and
    /// with `InconsistentSizes` where the attribute section is not made of
    /// whole entries.
    pub fn new(bytes: Vec<u8>) -> (r: Result<PerfFile, PerfError>)
        ensures
            match r {
                Ok(file) => file.bytes@ == bytes@ && file_of(bytes@) == Ok::<
                    (PerfFileHeader, Seq<EventAttr>),
                    PerfError,
                >((file.header, file.attrs@)),
                Err(e) => file_of(bytes@) == Err::<(PerfFileHeader, Seq<EventAttr>), PerfError>(e),
            },
    {
        let (_, header) = parse_header(bytes.as_slice())?;
        let attrs = parse_attrs(bytes.as_slice(), &header)?;
        if !header.data.fits(bytes.len()) {
            return Err(section_outside(&header.data, bytes.len()));
        }
        Ok(PerfFile { header, attrs, bytes })
    }

    /// The bytes of the data section, if it lies within the file.
    pub open spec fn data_bytes(&self) -> Option<Seq<u8>> {
        if self.header.data.within(self.bytes@.len() as int) {
            Some(
                self.bytes@.subrange(
                    self.header.data.offset as int,
                    self.header.data.offset + self.header.data.size,
                ),
            )
        } else {
            None
        }
    }

    /// Starts a walk over the records of the data section.
    ///
    /// Where the data section does not lie within the file, the walk is over
    /// before it starts, with the error of that section.
    pub fn data(&self) -> (r: PerfFileEventDataIter<'_>)
        ensures
            r.attrs() == self.attrs@,
            r.consumed() == 0,
            match self.data_bytes() {
                Some(data) => r.remaining() == data && r.failure() is None,
                None => r.remaining().len() == 0 && r.failure() == Some(
                    section_error(self.header.data, self.bytes@.len() as int),
                ),
            },
    {
        let len = self.bytes.len();
        if self.header.data.fits(len) {
            let slice = slice_subrange(
                self.bytes.as_slice(),
                self.header.data.start(),
                self.header.data.end(),
            );
            PerfFileEventDataIter { attrs: &self.attrs, data: slice, offset: 0, error: None }
        } else {
            let slice = slice_subrange(self.bytes.as_slice(), 0, 0);
            PerfFileEventDataIter {
                attrs: &self.attrs,
                data: slice,
                offset: 0,
                error: Some(section_outside(&self.header.data, len)),
            }
        }
    }
}

/// Drops the bytes that a decoder left and the reason why it failed.
fn iresult_to_option<'a, O>(result: ParseResult<'a, O>) -> (r: Option<O>)
    ensures
        match result {
            Ok((_, v)) => r == Some(v),
            Err(_) => r is None,
        },
{
    match result {
        Ok((_, res)) => Some(res),
        Err(_) => None,
    }
}

/// What the contract of the accessor of a feature says of its result `r`:
/// there is a value exactly where the file has the section and `len` finds
/// the payload readable, and then `ok` holds of the value and the section's bytes.
pub open spec fn feature_reads<T>(
    r: Option<T>,
    section: Option<Seq<u8>>,
    len: spec_fn(Seq<u8>) -> Extent,
    ok: spec_fn(T, Seq<u8>) -> bool,
) -> bool {
    match section {
        Some(b) => match len(b) {
            Ok(_) => r matches Some(v) && ok(v, b),
            Err(_) => r is None,
        },
        None => r is None,
    }
}

/// The extent of the build-id section: the header of a record, then the
/// payload of a build-id record of the size that the header gives.
pub open spec fn build_id_section_len(s: Seq<u8>) -> Extent {
    then_len(
        fixed_len(s, 8),
        s,
        |t: Seq<u8>| build_id_record_len(t, event_header_at(s, 0).size as int),
    )
}

/// The sum of the sizes that the headers of the records give.
pub open spec fn total_size(events: Seq<Event>) -> int
    decreases events.len(),
{
    if events.len() == 0 {
        0
    } else {
        total_size(events.drop_last()) + events.last().header.size
    }
}

/// Whether the records `events` lie in `s` one behind the other, each as long
/// as its header says.
pub open spec fn events_tile(events: Seq<Event>, s: Seq<u8>, attrs: Seq<EventAttr>) -> bool {
    forall|i: int|
        0 <= i < events.len() ==> (#[trigger] events[i]).decodes(
            s.skip(total_size(events.take(i))),
            attrs,
        )
}

/// A record that lies behind records that tile the bytes tiles them together with those.
pub proof fn lemma_events_tile_push(
    events: Seq<Event>,
    ev: Event,
    s: Seq<u8>,
    attrs: Seq<EventAttr>,
)
    requires
        events_tile(events, s, attrs),
        ev.decodes(s.skip(total_size(events)), attrs),
    ensures
        events_tile(events.push(ev), s, attrs),
        total_size(events.push(ev)) == total_size(events) + ev.header.size,
{
    let longer = events.push(ev);
    assert(longer.drop_last() =~= events);
    assert forall|i: int| 0 <= i < longer.len() implies (#[trigger] longer[i]).decodes(
        s.skip(total_size(longer.take(i))),
        attrs,
    ) by {
        if i < events.len() {
            assert(longer.take(i) =~= events.take(i));
        } else {
            assert(longer.take(i) =~= events);
        }
    }
}

impl<'a> PerfFileEventDataIter<'a> {
    /// Takes one step of the walk, and says of it what a walk to the end needs.
    fn step(&mut self) -> (r: Option<Event>)
        ensures
            final(self).attrs() == old(self).attrs(),
            match r {
                Some(ev) => {
                    &&& old(self).failure() is None
                    &&& final(self).failure() is None
                    &&& ev.decodes(old(self).remaining(), old(self).attrs())
                    &&& 8 <= ev.header.size <= old(self).remaining().len()
                    &&& final(self).consumed() == old(self).consumed() + ev.header.size
                    &&& final(self).remaining() == old(self).remaining().skip(
                        ev.header.size as int,
                    )
                },
                None => {
                    &&& final(self).finished()
                    &&& final(self).ended_as(*old(self))
                    &&& final(self).consumed() == old(self).consumed()
                    &&& final(self).remaining() == old(self).remaining()
                },
            },
    {
        self.next()
    }

    /// Whether the walk is where a walk that went on from `start` ends: with
    /// the error that `start` had; or else with the error of the record that
    /// comes next, which cannot be decoded; or else without error and with
    /// fewer bytes left than the header of a record has.
    pub open spec fn ended_as(&self, start: Self) -> bool {
        match start.failure() {
            Some(e) => self.failure() == Some(e),
            None => match self.failure() {
                Some(e) => self.remaining().len() >= 8 && event_len(
                    self.remaining(),
                    self.attrs(),
                ) == Err::<int, PerfError>(e),
                None => self.remaining().len() < 8,
            },
        }
    }

    /// Decodes the records that remain, up to the end of the walk.
    ///
    /// The records lie one behind the other, so the walk has passed as many
    /// bytes as their sizes add up to. Where it ends without an error and with
    /// nothing left, the records fill the data section exactly.
    pub fn collect(&mut self) -> (events: Vec<Event>)
        ensures
            final(self).attrs() == old(self).attrs(),
            final(self).finished(),
            final(self).ended_as(*old(self)),
            events_tile(events@, old(self).remaining(), old(self).attrs()),
            0 <= total_size(events@) <= old(self).remaining().len(),
            final(self).consumed() == old(self).consumed() + total_size(events@),
            final(self).remaining() == old(self).remaining().skip(total_size(events@)),
            old(self).failure() is Some ==> events@.len() == 0,
            final(self).failure() is None && final(self).remaining().len() == 0 ==> total_size(
                events@,
            ) == old(self).remaining().len(),
    {
        let mut events: Vec<Event> = Vec::new();
        let ghost start = self.remaining();
        let ghost attrs = self.attrs();
        proof {
            assert(start.skip(0) =~= start);
        }
        loop
            invariant_except_break
                self.failure() == old(self).failure(),
            invariant
                self.attrs() == attrs,
                attrs == old(self).attrs(),
                start == old(self).remaining(),
                events_tile(events@, start, attrs),
                0 <= total_size(events@) <= start.len(),
                self.consumed() == old(self).consumed() + total_size(events@),
                self.remaining() == start.skip(total_size(events@)),
                old(self).failure() is Some ==> events@.len() == 0,
            ensures
                self.finished(),
                self.ended_as(*old(self)),
            decreases self.remaining().len(),
        {
            let ghost before = events@;
            match self.step() {
                Some(ev) => {
                    proof {
                        lemma_events_tile_push(before, ev, start, attrs);
                        assert(start.skip(total_size(before)).skip(ev.header.size as int)
                            =~= start.skip(total_size(before) + ev.header.size));
                    }
                    events.push(ev);
                },
                None => {
                    break ;
                },
            }
        }
        events
    }
}

impl PerfFile {
    /// The table of section descriptors. It stands behind the data section and
    /// holds one descriptor of 16 bytes for each feature that the header declares.
    pub open spec fn section_table(&self) -> Result<Seq<PerfFileSection>, PerfError> {
        let len = self.bytes@.len() as int;
        let table = self.bytes@.skip(self.header.data.offset + self.header.data.size);
        if !self.header.data.within(len) {
            Err(section_error(self.header.data, len))
        } else {
            match array_len(table, self.header.flags.count() as int, 16) {
                Err(e) => Err(e),
                Ok(_) => Ok(
                    Seq::new(self.header.flags.count(), |i: int| file_section_at(table, 16 * i)),
                ),
            }
        }
    }

    /// The descriptor of the section of `flag`: the one at the rank of `flag`
    /// among the declared features, if the header declares `flag` and the
    /// table can be read.
    pub open spec fn section_of(&self, flag: HeaderFlag) -> Option<PerfFileSection> {
        match self.section_table() {
            Ok(table) => if self.header.flags.has(flag) {
                Some(table[self.header.flags.count_before(feature_index(flag)) as int])
            } else {
                None
            },
            Err(_) => None,
        }
    }

    /// The bytes of the section of `flag`, if the file has that section and it
    /// lies within the file.
    pub open spec fn section_bytes(&self, flag: HeaderFlag) -> Option<Seq<u8>> {
        match self.section_of(flag) {
            Some(section) => if section.within(self.bytes@.len() as int) {
                Some(
                    self.bytes@.subrange(section.offset as int, section.offset + section.size),
                )
            } else {
                None
            },
            None => None,
        }
    }

    /// The section table has as many descriptors as the header has flags set,
    /// and the descriptor of a declared feature is the one that stands at the
    /// place of its flag among the declared features in file order.
    pub proof fn lemma_sections_follow_flags(&self, flag: HeaderFlag)
        requires
            self.section_table() is Ok,
            self.header.flags.has(flag),
        ensures
            self.section_table()->Ok_0.len() == self.header.flags.count(),
            self.header.flags.present().len() == self.header.flags.count(),
            self.section_of(flag) is Some,
            exists|i: int|
                0 <= i < self.header.flags.count() && self.header.flags.present()[i] == flag
                    && self.section_of(flag) == Some(#[trigger] self.section_table()->Ok_0[i]),
    {
        let flags = self.header.flags;
        let rank = flags.count_before(feature_index(flag)) as int;
        lemma_present_before(flags, 17);
        lemma_rank_below_count(flags, flag);
        assert(feature_at(feature_index(flag)) == flag);
        assert(flags.present()[rank] == flag);
        assert(self.section_of(flag) == Some(self.section_table()->Ok_0[rank]));
    }

    /// Reads the table of section descriptors.
    pub fn parse_header_sections(&self) -> (r: Result<Vec<PerfFileSection>, PerfError>)
        ensures
            match r {
                Ok(table) => self.section_table() == Ok::<Seq<PerfFileSection>, PerfError>(
                    table@,
                ),
                Err(e) => self.section_table() == Err::<Seq<PerfFileSection>, PerfError>(e),
            },
    {
        let len = self.bytes.len();
        if !self.header.data.fits(len) {
            return Err(section_outside(&self.header.data, len));
        }
        let flags: Vec<HeaderFlag> = self.header.flags.collect();
        let count = flags.len();
        let table = slice_subrange(self.bytes.as_slice(), self.header.data.end(), len);
        let table_len = table.len();
        if table_len / 16 < count {
            return Err(PerfError::Truncated { expected: 16, available: table_len % 16 });
        }
        let mut sections: Vec<PerfFileSection> = Vec::with_capacity(count);
        let mut i: usize = 0;
        while i < count
            invariant
                table_len == table@.len(),
                16 * count <= table_len,
                i <= count,
                sections@ == Seq::new(i as nat, |j: int| file_section_at(table@, 16 * j)),
            decreases count - i,
        {
            sections.push(
                PerfFileSection { offset: u64_at(table, 16 * i), size: u64_at(table, 16 * i + 8) },
            );
            i = i + 1;
        }
        Ok(sections)
    }

    /// The declared features in file order, each with the descriptor of its section.
    pub fn sections(&self) -> (r: Result<Vec<(HeaderFlag, PerfFileSection)>, PerfError>)
        ensures
            match r {
                Ok(pairs) => {
                    &&& self.section_table() matches Ok(table)
                    &&& pairs@.len() == self.header.flags.count()
                    &&& forall|i: int|
                        0 <= i < pairs@.len() ==> #[trigger] pairs@[i] == (
                            self.header.flags.present()[i],
                            table[i],
                        )
                },
                Err(e) => self.section_table() == Err::<Seq<PerfFileSection>, PerfError>(e),
            },
    {
        let sections = self.parse_header_sections()?;
        let flags: Vec<HeaderFlag> = self.header.flags.collect();
        let count = flags.len();
        let mut pairs: Vec<(HeaderFlag, PerfFileSection)> = Vec::with_capacity(count);
        let mut i: usize = 0;
        while i < count
            invariant
                count == flags@.len(),
                count == sections@.len(),
                i <= count,
                pairs@.len() == i,
                forall|j: int| 0 <= j < i ==> #[trigger] pairs@[j] == (flags@[j], sections@[j]),
            decreases count - i,
        {
            pairs.push((flags[i], sections[i]));
            i = i + 1;
        }
        Ok(pairs)
    }

    /// The descriptor of the section of `sec`, if the file has that section.
    pub fn get_section(&self, sec: HeaderFlag) -> (r: Option<PerfFileSection>)
        ensures
            r == self.section_of(sec),
    {
        if !self.header.flags.contains(sec) {
            return None;
        }
        let sections = match self.parse_header_sections() {
            Ok(sections) => sections,
            Err(_) => {
                return None;
            },
        };
        let place = sec.position();
        let mut rank: usize = 0;
        let mut k: usize = 0;
        while k < place
            invariant
                k <= place,
                place < 17,
                rank == self.header.flags.count_before(k as int),
                rank <= k,
            decreases place - k,
        {
            if self.header.flags.contains(HeaderFlag::nth(k)) {
                rank = rank + 1;
            }
            k = k + 1;
        }
        proof {
            lemma_rank_below_count(self.header.flags, sec);
        }
        Some(sections[rank])
    }

    /// The bytes of the section of `sec`, if the file has that section and it
    /// lies within the file.
    pub fn get_section_slice(&self, sec: HeaderFlag) -> (r: Option<&[u8]>)
        ensures
            match r {
                Some(bytes) => self.section_bytes(sec) == Some(bytes@),
                None => self.section_bytes(sec) is None,
            },
    {
        match self.get_section(sec) {
            Some(section) => {
                if section.fits(self.bytes.len()) {
                    Some(slice_subrange(self.bytes.as_slice(), section.start(), section.end()))
                } else {
                    None
                }
            },
            None => None,
        }
    }

    /// The text of the section of `flag`, for a section that holds one string.
    fn string_feature(&self, flag: HeaderFlag) -> (r: Option<String>)
        ensures
            feature_reads(
                r,
                self.section_bytes(flag),
                perf_string_item(),
                |v: String, b: Seq<u8>| v@ == perf_string_text(b),
            ),
    {
        match self.get_section_slice(flag) {
            Some(slice) => iresult_to_option(parse_perf_string(slice)),
            None => None,
        }
    }

    /// The build id of the profiled binary, from the build-id section: a
    /// record header and behind it the payload of a build-id record.
    pub fn get_build_id(&self) -> (r: Option<BuildIdRecord>)
        ensures
            feature_reads(
                r,
                self.section_bytes(HeaderFlag::BuildId),
                |b: Seq<u8>| build_id_section_len(b),
                |v: BuildIdRecord, b: Seq<u8>|
                    v.decodes(b.skip(8), event_header_at(b, 0).size as int),
            ),
    {
        match self.get_section_slice(HeaderFlag::BuildId) {
            Some(slice) => {
                match parse_event_header(slice) {
                    Ok((rest, header)) => iresult_to_option(
                        parse_build_id_record(rest, header.size()),
                    ),
                    Err(_) => None,
                }
            },
            None => None,
        }
    }

    /// The bytes of the section of `flag`, for a section that is handed out as it is.
    fn raw_feature(&self, flag: HeaderFlag) -> (r: Option<Vec<u8>>)
        ensures
            feature_reads(
                r,
                self.section_bytes(flag),
                |b: Seq<u8>| fixed_len(b, 0),
                |v: Vec<u8>, b: Seq<u8>| v@ == b,
            ),
    {
        match self.get_section_slice(flag) {
            Some(slice) => Some(slice_to_vec(slice)),
            None => None,
        }
    }

    /// The tracing data, undecoded.
    pub fn get_tracing_data(&self) -> (r: Option<Vec<u8>>)
        ensures
            feature_reads(
                r,
                self.section_bytes(HeaderFlag::TracingData),
                |b: Seq<u8>| fixed_len(b, 0),
                |v: Vec<u8>, b: Seq<u8>| v@ == b,
            ),
    {
        self.raw_feature(HeaderFlag::TracingData)
    }

    /// What the branch-stack section holds, undecoded. The section says by
    /// being there that the samples hold branch stacks, and is empty as a rule.
    pub fn get_branch_stack(&self) -> (r: Option<Vec<u8>>)
        ensures
            feature_reads(
                r,
                self.section_bytes(HeaderFlag::BranchStack),
                |b: Seq<u8>| fixed_len(b, 0),
                |v: Vec<u8>, b: Seq<u8>| v@ == b,
            ),
    {
        self.raw_feature(HeaderFlag::BranchStack)
    }

    /// The name of the machine that was profiled.
    pub fn get_hostname(&self) -> (r: Option<String>)
        ensures
            feature_reads(
                r,
                self.section_bytes(HeaderFlag::Hostname),
                perf_string_item(),
                |v: String, b: Seq<u8>| v@ == perf_string_text(b),
            ),
    {
        self.string_feature(HeaderFlag::Hostname)
    }

    /// The release of the kernel of that machine.
    pub fn get_os_release(&self) -> (r: Option<String>)
        ensures
            feature_reads(
                r,
                self.section_bytes(HeaderFlag::OsRelease),
                perf_string_item(),
                |v: String, b: Seq<u8>| v@ == perf_string_text(b),
            ),
    {
        self.string_feature(HeaderFlag::OsRelease)
    }

    /// The version of the tool that wrote the file.
    pub fn get_version(&self) -> (r: Option<String>)
        ensures
            feature_reads(
                r,
                self.section_bytes(HeaderFlag::Version),
                perf_string_item(),
                |v: String, b: Seq<u8>| v@ == perf_string_text(b),
            ),
    {
        self.string_feature(HeaderFlag::Version)
    }

    /// The architecture of the machine that was profiled.
    pub fn get_arch(&self) -> (r: Option<String>)
        ensures
            feature_reads(
                r,
                self.section_bytes(HeaderFlag::Arch),
                perf_string_item(),
                |v: String, b: Seq<u8>| v@ == perf_string_text(b),
            ),
    {
        self.string_feature(HeaderFlag::Arch)
    }

    /// How many CPUs the machine had, online and in all.
    pub fn get_nr_cpus(&self) -> (r: Option<NrCpus>)
        ensures
            feature_reads(
                r,
                self.section_bytes(HeaderFlag::NrCpus),
                |b: Seq<u8>| fixed_len(b, 8),
                |v: NrCpus, b: Seq<u8>| v == nrcpus_at(b, 0),
            ),
    {
        match self.get_section_slice(HeaderFlag::NrCpus) {
            Some(slice) => iresult_to_option(parse_nrcpus(slice)),
            None => None,
        }
    }

    /// The description of the CPU.
    pub fn get_cpu_description(&self) -> (r: Option<String>)
        ensures
            feature_reads(
                r,
                self.section_bytes(HeaderFlag::CpuDesc),
                perf_string_item(),
                |v: String, b: Seq<u8>| v@ == perf_string_text(b),
            ),
    {
        self.string_feature(HeaderFlag::CpuDesc)
    }

    /// The identification of the CPU: vendor, family, model and stepping.
    pub fn get_cpu_id(&self) -> (r: Option<String>)
        ensures
            feature_reads(
                r,
                self.section_bytes(HeaderFlag::CpuId),
                perf_string_item(),
                |v: String, b: Seq<u8>| v@ == perf_string_text(b),
            ),
    {
        self.string_feature(HeaderFlag::CpuId)
    }

    /// The total memory of the machine.
    pub fn get_total_memory(&self) -> (r: Option<u64>)
        ensures
            feature_reads(
                r,
                self.section_bytes(HeaderFlag::TotalMem),
                |b: Seq<u8>| fixed_len(b, 8),
                |v: u64, b: Seq<u8>| v == le_u64(b, 0),
            ),
    {
        match self.get_section_slice(HeaderFlag::TotalMem) {
            Some(slice) => iresult_to_option(read_le_u64(slice)),
            None => None,
        }
    }

    /// The command line that the profile was recorded with.
    pub fn get_cmd_line(&self) -> (r: Option<String>)
        ensures
            feature_reads(
                r,
                self.section_bytes(HeaderFlag::CmdLine),
                perf_string_item(),
                |v: String, b: Seq<u8>| v@ == perf_string_text(b),
            ),
    {
        self.string_feature(HeaderFlag::CmdLine)
    }

    /// The events that were recorded, each with its attributes, its name and its ids.
    pub fn get_event_description(&self) -> (r: Option<Vec<EventDesc>>)
        ensures
            feature_reads(
                r,
                self.section_bytes(HeaderFlag::EventDesc),
                |b: Seq<u8>| event_descs_len(b),
                |v: Vec<EventDesc>, b: Seq<u8>|
                    v@.len() == le_u32(b, 0) && event_descs_decode(
                        v@,
                        b.skip(8),
                        le_u32(b, 4) as int,
                    ),
            ),
    {
        match self.get_section_slice(HeaderFlag::EventDesc) {
            Some(slice) => iresult_to_option(parse_event_desc(slice)),
            None => None,
        }
    }

    /// Which CPUs are siblings, as cores and as threads.
    pub fn get_cpu_topology(&self) -> (r: Option<CpuTopology>)
        ensures
            feature_reads(
                r,
                self.section_bytes(HeaderFlag::CpuTopology),
                |b: Seq<u8>| cpu_topology_len(b),
                |v: CpuTopology, b: Seq<u8>| v.decodes(b),
            ),
    {
        match self.get_section_slice(HeaderFlag::CpuTopology) {
            Some(slice) => iresult_to_option(parse_cpu_topology(slice)),
            None => None,
        }
    }

    /// The NUMA nodes of the machine.
    pub fn get_numa_topology(&self) -> (r: Option<Vec<NumaNode>>)
        ensures
            feature_reads(
                r,
                self.section_bytes(HeaderFlag::NumaTopology),
                |b: Seq<u8>| counted_list_len(b, numa_node_item()),
                |v: Vec<NumaNode>, b: Seq<u8>|
                    v@.len() == le_u32(b, 0) && numa_nodes_decode(v@, b.skip(4)),
            ),
    {
        match self.get_section_slice(HeaderFlag::NumaTopology) {
            Some(slice) => iresult_to_option(parse_numa_topology(slice)),
            None => None,
        }
    }

    /// The performance monitoring units of the machine, by type and name.
    pub fn get_pmu_mappings(&self) -> (r: Option<Vec<PmuMapping>>)
        ensures
            feature_reads(
                r,
                self.section_bytes(HeaderFlag::PmuMappings),
                |b: Seq<u8>| counted_list_len(b, pmu_mapping_item()),
                |v: Vec<PmuMapping>, b: Seq<u8>|
                    v@.len() == le_u32(b, 0) && pmu_mappings_decode(v@, b.skip(4)),
            ),
    {
        match self.get_section_slice(HeaderFlag::PmuMappings) {
            Some(slice) => iresult_to_option(parse_pmu_mappings(slice)),
            None => None,
        }
    }

    /// The groups of events that were recorded together.
    pub fn get_group_descriptions(&self) -> (r: Option<Vec<GroupDesc>>)
        ensures
            feature_reads(
                r,
                self.section_bytes(HeaderFlag::GroupDesc),
                |b: Seq<u8>| counted_list_len(b, group_description_item()),
                |v: Vec<GroupDesc>, b: Seq<u8>|
                    v@.len() == le_u32(b, 0) && group_descriptions_decode(v@, b.skip(4)),
            ),
    {
        match self.get_section_slice(HeaderFlag::GroupDesc) {
            Some(slice) => iresult_to_option(parse_group_descriptions(slice)),
            None => None,
        }
    }
}

} // verus!
