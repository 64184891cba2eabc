//! Decoders that hand out the payload of a record as the data of an event.

use crate::linux::parser::{
    comm_record_len, parse_comm_record, parse_sample_record, reads,
};
use crate::linux::perf_format::{EventAttr, EventData};
use crate::linux::primitives::ParseResult;
use crate::linux::sample::sample_len;
use vstd::prelude::*;

verus! {

/// Reads a sample of the event `attr` as the data of an event.
pub fn parse_sample_event<'a>(input: &'a [u8], attr: &EventAttr) -> (r: ParseResult<'a, EventData>)
    ensures
        reads(
            r,
            input@,
            sample_len(input@, *attr),
            |v: EventData| v matches EventData::Sample(rec) && rec.decodes(input@, *attr),
        ),
{
    let (rest, rec) = parse_sample_record(input, attr)?;
    Ok((rest, EventData::Sample(rec)))
}

/// Reads a comm record as the data of an event.
pub fn parse_comm_event<'a>(input: &'a [u8]) -> (r: ParseResult<'a, EventData>)
    ensures
        reads(
            r,
            input@,
            comm_record_len(input@),
            |v: EventData| v matches EventData::Comm(rec) && rec.decodes(input@),
        ),
{
    let (rest, rec) = parse_comm_record(input)?;
    Ok((rest, EventData::Comm(rec)))
}

} // verus!
