//! The layout of a sample record.
//!
//! A sample record has no layout of its own: which fields it holds is decided
//! by the `sample_type` mask of its event, in what shape a counter read comes
//! by the event's `read_format`, and how many registers are dumped by the
//! event's register masks. The fields come in one fixed order, and a field
//! whose bit is clear takes no room at all.
//!
//! That order is written down once, in `SampleField::at`. The extent of a
//! sample and the place of each field are computed from it, and so is the
//! decoder, which walks the same table.

use super::parser::{
    branch_entries, branch_entries_len, cpu_at, lemma_read_format_follows_flags,
    parse_branch_entries, parse_cpu, parse_read_format, parse_thread_id, parse_vec_u32_u8,
    parse_vec_u64, parse_vec_u64_variable, read_format_len, reads, thread_id_at, u64s,
    vec_u32_u8_len, vec_u64_len,
};
use super::perf_format::{EventAttr, PerfError, SampleFormatFlags, SampleRecord};
use super::primitives::{
    array_len, count_ones, fixed_len, le_u32, le_u64, popcount, read_le_u64, skip_bytes, then_len,
    u64_at, Extent, ParseResult,
};
use vstd::prelude::*;
use vstd::slice::{slice_subrange, slice_to_vec};

verus! {

/// The optional fields of a sample record.
#[derive(Debug, Clone, Copy, PartialEq, Eq, Structural)]
pub enum SampleField {
    Identifier,
    Ip,
    Tid,
    Time,
    Addr,
    Id,
    StreamId,
    Cpu,
    Period,
    Read,
    Callchain,
    Raw,
    BranchStack,
    StackUser,
    Weight,
    DataSrc,
    Transaction,
    RegsIntr,
}

impl SampleField {
    /// The field that stands at place `k` of a sample record, if it is there.
    pub open spec fn at(k: int) -> SampleField {
        if k == 0 {
            SampleField::Identifier
        } else if k == 1 {
            SampleField::Ip
        } else if k == 2 {
            SampleField::Tid
        } else if k == 3 {
            SampleField::Time
        } else if k == 4 {
            SampleField::Addr
        } else if k == 5 {
            SampleField::Id
        } else if k == 6 {
            SampleField::StreamId
        } else if k == 7 {
            SampleField::Cpu
        } else if k == 8 {
            SampleField::Period
        } else if k == 9 {
            SampleField::Read
        } else if k == 10 {
            SampleField::Callchain
        } else if k == 11 {
            SampleField::Raw
        } else if k == 12 {
            SampleField::BranchStack
        } else if k == 13 {
            SampleField::StackUser
        } else if k == 14 {
            SampleField::Weight
        } else if k == 15 {
            SampleField::DataSrc
        } else if k == 16 {
            SampleField::Transaction
        } else {
            SampleField::RegsIntr
        }
    }

    /// The place of the field in a sample record.
    pub open spec fn index(self) -> int {
        match self {
            SampleField::Identifier => 0,
            SampleField::Ip => 1,
            SampleField::Tid => 2,
            SampleField::Time => 3,
            SampleField::Addr => 4,
            SampleField::Id => 5,
            SampleField::StreamId => 6,
            SampleField::Cpu => 7,
            SampleField::Period => 8,
            SampleField::Read => 9,
            SampleField::Callchain => 10,
            SampleField::Raw => 11,
            SampleField::BranchStack => 12,
            SampleField::StackUser => 13,
            SampleField::Weight => 14,
            SampleField::DataSrc => 15,
            SampleField::Transaction => 16,
            SampleField::RegsIntr => 17,
        }
    }

    /// Whether the mask `flags` puts the field into the samples of its event.
    pub open spec fn selected_by(self, flags: SampleFormatFlags) -> bool {
        match self {
            SampleField::Identifier => flags.has_identifier(),
            SampleField::Ip => flags.has_ip(),
            SampleField::Tid => flags.has_tid(),
            SampleField::Time => flags.has_time(),
            SampleField::Addr => flags.has_addr(),
            SampleField::Id => flags.has_sample_id(),
            SampleField::StreamId => flags.has_stream_id(),
            SampleField::Cpu => flags.has_cpu(),
            SampleField::Period => flags.has_period(),
            SampleField::Read => flags.has_read(),
            SampleField::Callchain => flags.has_callchain(),
            SampleField::Raw => flags.has_raw(),
            SampleField::BranchStack => flags.has_branch_stack(),
            SampleField::StackUser => flags.has_stack_user(),
            SampleField::Weight => flags.has_weight(),
            SampleField::DataSrc => flags.has_data_src(),
            SampleField::Transaction => flags.has_transaction(),
            SampleField::RegsIntr => flags.has_regs_intr(),
        }
    }

    /// The field that stands at place `k` of a sample record, if it is there.
    pub fn nth(k: usize) -> (f: SampleField)
        requires
            k < 18,
        ensures
            f == SampleField::at(k as int),
            f.index() == k,
    {
        match k {
            0 => SampleField::Identifier,
            1 => SampleField::Ip,
            2 => SampleField::Tid,
            3 => SampleField::Time,
            4 => SampleField::Addr,
            5 => SampleField::Id,
            6 => SampleField::StreamId,
            7 => SampleField::Cpu,
            8 => SampleField::Period,
            9 => SampleField::Read,
            10 => SampleField::Callchain,
            11 => SampleField::Raw,
            12 => SampleField::BranchStack,
            13 => SampleField::StackUser,
            14 => SampleField::Weight,
            15 => SampleField::DataSrc,
            16 => SampleField::Transaction,
            _ => SampleField::RegsIntr,
        }
    }

    /// Whether the mask `flags` puts the field into the samples of its event.
    pub fn is_selected_by(self, flags: SampleFormatFlags) -> (r: bool)
        ensures
            r == self.selected_by(flags),
    {
        match self {
            SampleField::Identifier => flags.has_identifier(),
            SampleField::Ip => flags.has_ip(),
            SampleField::Tid => flags.has_tid(),
            SampleField::Time => flags.has_time(),
            SampleField::Addr => flags.has_addr(),
            SampleField::Id => flags.has_sample_id(),
            SampleField::StreamId => flags.has_stream_id(),
            SampleField::Cpu => flags.has_cpu(),
            SampleField::Period => flags.has_period(),
            SampleField::Read => flags.has_read(),
            SampleField::Callchain => flags.has_callchain(),
            SampleField::Raw => flags.has_raw(),
            SampleField::BranchStack => flags.has_branch_stack(),
            SampleField::StackUser => flags.has_stack_user(),
            SampleField::Weight => flags.has_weight(),
            SampleField::DataSrc => flags.has_data_src(),
            SampleField::Transaction => flags.has_transaction(),
            SampleField::RegsIntr => flags.has_regs_intr(),
        }
    }
}

/// The extent of a register dump of `regs` registers: the ABI word, then the registers.
pub open spec fn regs_len(s: Seq<u8>, regs: int) -> Extent {
    array_len(s, regs + 1, 8)
}

/// The length of the user stack in a stack dump with `regs` registers.
pub open spec fn user_stack_size(s: Seq<u8>, regs: int) -> u64 {
    le_u64(s, 8 + 8 * regs)
}

/// The extent of a user stack dump with `regs` registers: the ABI word, the
/// registers, the length of the stack, the stack, and then, unless the stack
/// is empty, the size that was actually dumped.
pub open spec fn stack_user_len(s: Seq<u8>, regs: int) -> Extent {
    then_len(
        array_len(s, regs + 2, 8),
        s,
        |t: Seq<u8>|
            then_len(
                array_len(t, user_stack_size(s, regs) as int, 1),
                t,
                |u: Seq<u8>|
                    if user_stack_size(s, regs) != 0 {
                        fixed_len(u, 8)
                    } else {
                        Ok(0)
                    },
            ),
    )
}

/// The extent of the field `f` in a sample of the event `attr`.
pub open spec fn sample_field_len(s: Seq<u8>, attr: EventAttr, f: SampleField) -> Extent {
    match f {
        SampleField::Read => read_format_len(s, attr.read_format),
        SampleField::Callchain => vec_u64_len(s),
        SampleField::Raw => vec_u32_u8_len(s),
        SampleField::BranchStack => branch_entries_len(s),
        SampleField::StackUser => stack_user_len(s, popcount(attr.sample_regs_user) as int),
        SampleField::RegsIntr => regs_len(s, popcount(attr.sample_regs_intr) as int),
        _ => fixed_len(s, 8),
    }
}

/// The extent of the first `k` places of a sample of the event `attr`. A field
/// that the event does not select takes no room.
pub open spec fn sample_fields_len(s: Seq<u8>, attr: EventAttr, k: nat) -> Extent
    decreases k,
{
    if k == 0 {
        Ok(0)
    } else {
        match sample_fields_len(s, attr, (k - 1) as nat) {
            Err(e) => Err(e),
            Ok(at) => if SampleField::at(k - 1).selected_by(attr.sample_type) {
                match sample_field_len(s.skip(at), attr, SampleField::at(k - 1)) {
                    Err(e) => Err(e),
                    Ok(n) => Ok(at + n),
                }
            } else {
                Ok(at)
            },
        }
    }
}

/// The extent of a sample of the event `attr`.
pub open spec fn sample_len(s: Seq<u8>, attr: EventAttr) -> Extent {
    sample_fields_len(s, attr, 18)
}

/// Where the field `f` starts in a sample of the event `attr`.
pub open spec fn sample_field_start(s: Seq<u8>, attr: EventAttr, f: SampleField) -> int {
    match sample_fields_len(s, attr, f.index() as nat) {
        Ok(at) => at,
        Err(_) => 0,
    }
}

/// A sample in which one field cannot be read cannot be read.
pub proof fn lemma_sample_fields_error(s: Seq<u8>, attr: EventAttr, k: nat, n: nat)
    requires
        k <= n,
        sample_fields_len(s, attr, k) is Err,
    ensures
        sample_fields_len(s, attr, n) == sample_fields_len(s, attr, k),
    decreases n,
{
    if k < n {
        lemma_sample_fields_error(s, attr, k, (n - 1) as nat);
    }
}

impl SampleRecord {
    /// Whether the record has the field `f`.
    pub open spec fn has_field(&self, f: SampleField) -> bool {
        match f {
            SampleField::Identifier => self.sample_id is Some,
            SampleField::Ip => self.ip is Some,
            SampleField::Tid => self.ptid is Some,
            SampleField::Time => self.time is Some,
            SampleField::Addr => self.addr is Some,
            SampleField::Id => self.id is Some,
            SampleField::StreamId => self.stream_id is Some,
            SampleField::Cpu => self.cpu is Some,
            SampleField::Period => self.period is Some,
            SampleField::Read => self.v is Some,
            SampleField::Callchain => self.ips is Some,
            SampleField::Raw => self.raw is Some,
            SampleField::BranchStack => self.lbr is Some,
            SampleField::StackUser => self.abi_user is Some && self.regs_user is Some
                && self.user_stack is Some,
            SampleField::Weight => self.weight is Some,
            SampleField::DataSrc => self.data_src is Some,
            SampleField::Transaction => self.transaction is Some,
            SampleField::RegsIntr => self.abi is Some && self.regs_intr is Some,
        }
    }

    /// Whether nothing of the field `f` is in the record.
    pub open spec fn field_absent(&self, f: SampleField) -> bool {
        match f {
            SampleField::Identifier => self.sample_id is None,
            SampleField::Ip => self.ip is None,
            SampleField::Tid => self.ptid is None,
            SampleField::Time => self.time is None,
            SampleField::Addr => self.addr is None,
            SampleField::Id => self.id is None,
            SampleField::StreamId => self.stream_id is None,
            SampleField::Cpu => self.cpu is None,
            SampleField::Period => self.period is None,
            SampleField::Read => self.v is None,
            SampleField::Callchain => self.ips is None,
            SampleField::Raw => self.raw is None,
            SampleField::BranchStack => self.lbr is None,
            SampleField::StackUser => self.abi_user is None && self.regs_user is None
                && self.user_stack is None && self.dyn_size is None,
            SampleField::Weight => self.weight is None,
            SampleField::DataSrc => self.data_src is None,
            SampleField::Transaction => self.transaction is None,
            SampleField::RegsIntr => self.abi is None && self.regs_intr is None,
        }
    }

    /// Whether the record has the field `f`, and with what the bytes `t` hold
    /// of it, which start where the field starts.
    pub open spec fn field_decodes(&self, f: SampleField, t: Seq<u8>, attr: EventAttr) -> bool {
        match f {
            SampleField::Identifier => self.sample_id == Some(le_u64(t, 0)),
            SampleField::Ip => self.ip == Some(le_u64(t, 0)),
            SampleField::Tid => self.ptid == Some(thread_id_at(t, 0)),
            SampleField::Time => self.time == Some(le_u64(t, 0)),
            SampleField::Addr => self.addr == Some(le_u64(t, 0)),
            SampleField::Id => self.id == Some(le_u64(t, 0)),
            SampleField::StreamId => self.stream_id == Some(le_u64(t, 0)),
            SampleField::Cpu => self.cpu == Some(cpu_at(t, 0)),
            SampleField::Period => self.period == Some(le_u64(t, 0)),
            SampleField::Read => self.v matches Some(v) && v.decodes(t, attr.read_format),
            SampleField::Callchain => self.ips matches Some(v) && v@ == u64s(
                t.skip(8),
                le_u64(t, 0) as int,
            ),
            SampleField::Raw => self.raw matches Some(v) && v@ == t.subrange(4, 4 + le_u32(t, 0)),
            SampleField::BranchStack => self.lbr matches Some(v) && v@ == branch_entries(
                t.skip(8),
                le_u64(t, 0) as int,
            ),
            SampleField::StackUser => {
                let regs = popcount(attr.sample_regs_user) as int;
                let size = user_stack_size(t, regs);
                &&& self.abi_user == Some(le_u64(t, 0))
                &&& self.regs_user matches Some(v) && v@ == u64s(t.skip(8), regs)
                &&& self.user_stack matches Some(v) && v@.len() == size && v@ == t.subrange(
                    16 + 8 * regs,
                    16 + 8 * regs + size,
                )
                &&& self.dyn_size == if size != 0 {
                    Some(le_u64(t, 16 + 8 * regs + size))
                } else {
                    None
                }
            },
            SampleField::Weight => self.weight == Some(le_u64(t, 0)),
            SampleField::DataSrc => self.data_src == Some(le_u64(t, 0)),
            SampleField::Transaction => self.transaction == Some(le_u64(t, 0)),
            SampleField::RegsIntr => {
                &&& self.abi == Some(le_u64(t, 0))
                &&& self.regs_intr matches Some(v) && v@ == u64s(
                    t.skip(8),
                    popcount(attr.sample_regs_intr) as int,
                )
            },
        }
    }

    /// Whether the record has of the field `f` what a sample `s` of the event
    /// `attr` holds of it: its value where the event selects the field, and
    /// nothing where it does not.
    pub open spec fn field_ok(&self, f: SampleField, s: Seq<u8>, attr: EventAttr) -> bool {
        if f.selected_by(attr.sample_type) {
            self.field_decodes(f, s.skip(sample_field_start(s, attr, f)), attr)
        } else {
            self.field_absent(f)
        }
    }

    /// Whether this is the sample of the event `attr` that the bytes `s` start with.
    pub open spec fn decodes(&self, s: Seq<u8>, attr: EventAttr) -> bool {
        forall|f: SampleField| #[trigger] self.field_ok(f, s, attr)
    }

    /// Whether the record has of the field `f` what a sample `s` of the event
    /// `attr` holds of it, if the place of `f` is before `k`, and nothing of it else.
    pub open spec fn field_ok_before(
        &self,
        f: SampleField,
        s: Seq<u8>,
        attr: EventAttr,
        k: int,
    ) -> bool {
        if f.index() < k {
            self.field_ok(f, s, attr)
        } else {
            self.field_absent(f)
        }
    }

    /// Whether the record holds the fields of the places before `k` as the
    /// sample `s` of the event `attr` has them, and nothing of the others.
    pub open spec fn decodes_before(&self, s: Seq<u8>, attr: EventAttr, k: int) -> bool {
        forall|f: SampleField| #[trigger] self.field_ok_before(f, s, attr, k)
    }

    /// Whether the two records differ at most in the field `f`.
    pub open spec fn agrees_except(&self, other: SampleRecord, f: SampleField) -> bool {
        &&& f != SampleField::Identifier ==> self.sample_id == other.sample_id
        &&& f != SampleField::Ip ==> self.ip == other.ip
        &&& f != SampleField::Tid ==> self.ptid == other.ptid
        &&& f != SampleField::Time ==> self.time == other.time
        &&& f != SampleField::Addr ==> self.addr == other.addr
        &&& f != SampleField::Id ==> self.id == other.id
        &&& f != SampleField::StreamId ==> self.stream_id == other.stream_id
        &&& f != SampleField::Cpu ==> self.cpu == other.cpu
        &&& f != SampleField::Period ==> self.period == other.period
        &&& f != SampleField::Read ==> self.v == other.v
        &&& f != SampleField::Callchain ==> self.ips == other.ips
        &&& f != SampleField::Raw ==> self.raw == other.raw
        &&& f != SampleField::BranchStack ==> self.lbr == other.lbr
        &&& f != SampleField::StackUser ==> self.abi_user == other.abi_user && self.regs_user
            == other.regs_user && self.user_stack == other.user_stack && self.dyn_size
            == other.dyn_size
        &&& f != SampleField::Weight ==> self.weight == other.weight
        &&& f != SampleField::DataSrc ==> self.data_src == other.data_src
        &&& f != SampleField::Transaction ==> self.transaction == other.transaction
        &&& f != SampleField::RegsIntr ==> self.abi == other.abi && self.regs_intr
            == other.regs_intr
    }
}

/// Reads an optional `u64`.
fn read_some_u64<'a>(input: &'a [u8]) -> (r: ParseResult<'a, Option<u64>>)
    ensures
        reads(r, input@, fixed_len(input@, 8), |v: Option<u64>| v == Some(le_u64(input@, 0))),
{
    let (rest, v) = read_le_u64(input)?;
    Ok((rest, Some(v)))
}

/// Reads a user stack dump with `regs` registers into `rec`.
fn read_stack_user<'a>(input: &'a [u8], attr: &EventAttr, rec: &mut SampleRecord) -> (r: Result<
    &'a [u8],
    PerfError,
>)
    ensures
        final(rec).agrees_except(*old(rec), SampleField::StackUser),
        match r {
            Ok(rest) => {
                let len = sample_field_len(input@, *attr, SampleField::StackUser);
                &&& len is Ok
                &&& 0 <= len->Ok_0 <= input@.len()
                &&& rest@ =~= input@.skip(len->Ok_0)
                &&& final(rec).field_decodes(SampleField::StackUser, input@, *attr)
            },
            Err(e) => sample_field_len(input@, *attr, SampleField::StackUser) == Err::<
                int,
                PerfError,
            >(e),
        },
{
    let regs = count_ones(attr.sample_regs_user);
    let len = input.len();
    if len / 8 < regs + 2 {
        return Err(PerfError::Truncated { expected: 8, available: len % 8 });
    }
    let abi = u64_at(input, 0);
    let (_, regs_user) = parse_vec_u64_variable(skip_bytes(input, 8), regs)?;
    let size = u64_at(input, 8 + 8 * regs);
    let rest = skip_bytes(input, 16 + 8 * regs);
    if (rest.len() as u64) < size {
        return Err(PerfError::Truncated { expected: 1, available: 0 });
    }
    let n: usize = size as usize;
    let stack = slice_to_vec(slice_subrange(rest, 0, n));
    let rest = skip_bytes(rest, n);
    proof {
        assert(stack@ =~= input@.subrange(16 + 8 * regs, 16 + 8 * regs + size));
    }
    if n != 0 {
        let (rest, dyn_size) = read_some_u64(rest)?;
        rec.abi_user = Some(abi);
        rec.regs_user = Some(regs_user);
        rec.user_stack = Some(stack);
        rec.dyn_size = dyn_size;
        Ok(rest)
    } else {
        rec.abi_user = Some(abi);
        rec.regs_user = Some(regs_user);
        rec.user_stack = Some(stack);
        rec.dyn_size = None;
        Ok(rest)
    }
}

/// Reads a register dump of the interrupted context into `rec`.
fn read_regs_intr<'a>(input: &'a [u8], attr: &EventAttr, rec: &mut SampleRecord) -> (r: Result<
    &'a [u8],
    PerfError,
>)
    ensures
        final(rec).agrees_except(*old(rec), SampleField::RegsIntr),
        match r {
            Ok(rest) => {
                let len = sample_field_len(input@, *attr, SampleField::RegsIntr);
                &&& len is Ok
                &&& 0 <= len->Ok_0 <= input@.len()
                &&& rest@ =~= input@.skip(len->Ok_0)
                &&& final(rec).field_decodes(SampleField::RegsIntr, input@, *attr)
            },
            Err(e) => sample_field_len(input@, *attr, SampleField::RegsIntr) == Err::<
                int,
                PerfError,
            >(e),
        },
{
    let regs = count_ones(attr.sample_regs_intr);
    let len = input.len();
    if len / 8 < regs + 1 {
        return Err(PerfError::Truncated { expected: 8, available: len % 8 });
    }
    let abi = u64_at(input, 0);
    let (rest, regs_intr) = parse_vec_u64_variable(skip_bytes(input, 8), regs)?;
    rec.abi = Some(abi);
    rec.regs_intr = Some(regs_intr);
    Ok(rest)
}

/// Reads the field `f` of a sample of the event `attr` into `rec`, and leaves
/// the other fields of `rec` as they are.
pub fn read_sample_field<'a>(
    input: &'a [u8],
    attr: &EventAttr,
    f: SampleField,
    rec: &mut SampleRecord,
) -> (r: Result<&'a [u8], PerfError>)
    ensures
        final(rec).agrees_except(*old(rec), f),
        match r {
            Ok(rest) => {
                let len = sample_field_len(input@, *attr, f);
                &&& len is Ok
                &&& 0 <= len->Ok_0 <= input@.len()
                &&& rest@ =~= input@.skip(len->Ok_0)
                &&& final(rec).field_decodes(f, input@, *attr)
            },
            Err(e) => sample_field_len(input@, *attr, f) == Err::<int, PerfError>(e),
        },
{
    match f {
        SampleField::Identifier => {
            let (rest, v) = read_some_u64(input)?;
            rec.sample_id = v;
            Ok(rest)
        },
        SampleField::Ip => {
            let (rest, v) = read_some_u64(input)?;
            rec.ip = v;
            Ok(rest)
        },
        SampleField::Tid => {
            let (rest, v) = parse_thread_id(input)?;
            rec.ptid = Some(v);
            Ok(rest)
        },
        SampleField::Time => {
            let (rest, v) = read_some_u64(input)?;
            rec.time = v;
            Ok(rest)
        },
        SampleField::Addr => {
            let (rest, v) = read_some_u64(input)?;
            rec.addr = v;
            Ok(rest)
        },
        SampleField::Id => {
            let (rest, v) = read_some_u64(input)?;
            rec.id = v;
            Ok(rest)
        },
        SampleField::StreamId => {
            let (rest, v) = read_some_u64(input)?;
            rec.stream_id = v;
            Ok(rest)
        },
        SampleField::Cpu => {
            let (rest, v) = parse_cpu(input)?;
            rec.cpu = Some(v);
            Ok(rest)
        },
        SampleField::Period => {
            let (rest, v) = read_some_u64(input)?;
            rec.period = v;
            Ok(rest)
        },
        SampleField::Read => {
            let (rest, v) = parse_read_format(input, attr.read_format)?;
            rec.v = Some(v);
            Ok(rest)
        },
        SampleField::Callchain => {
            let (rest, v) = parse_vec_u64(input)?;
            rec.ips = Some(v);
            Ok(rest)
        },
        SampleField::Raw => {
            let (rest, v) = parse_vec_u32_u8(input)?;
            rec.raw = Some(v);
            Ok(rest)
        },
        SampleField::BranchStack => {
            let (rest, v) = parse_branch_entries(input)?;
            rec.lbr = Some(v);
            Ok(rest)
        },
        SampleField::StackUser => read_stack_user(input, attr, rec),
        SampleField::Weight => {
            let (rest, v) = read_some_u64(input)?;
            rec.weight = v;
            Ok(rest)
        },
        SampleField::DataSrc => {
            let (rest, v) = read_some_u64(input)?;
            rec.data_src = v;
            Ok(rest)
        },
        SampleField::Transaction => {
            let (rest, v) = read_some_u64(input)?;
            rec.transaction = v;
            Ok(rest)
        },
        SampleField::RegsIntr => read_regs_intr(input, attr, rec),
    }
}

/// A field that two records agree on is decoded, or absent, in both or in neither.
proof fn lemma_agrees_except(
    a: SampleRecord,
    b: SampleRecord,
    f: SampleField,
    g: SampleField,
    s: Seq<u8>,
    attr: EventAttr,
)
    requires
        a.agrees_except(b, f),
        g != f,
    ensures
        a.field_ok(g, s, attr) == b.field_ok(g, s, attr),
        a.field_absent(g) == b.field_absent(g),
{
}

/// A sample holds exactly the fields that its event selects; each register
/// dump holds as many registers as its mask has bits set; the counter read
/// holds what the read format asks for; and the size of the dumped stack is
/// there exactly if the stack is not empty.
pub proof fn lemma_sample_follows_attr(rec: SampleRecord, s: Seq<u8>, attr: EventAttr)
    requires
        rec.decodes(s, attr),
    ensures
        forall|f: SampleField| rec.has_field(f) == f.selected_by(attr.sample_type),
        forall|f: SampleField| rec.field_absent(f) == !f.selected_by(attr.sample_type),
        rec.regs_user matches Some(regs) ==> regs@.len() == popcount(attr.sample_regs_user),
        rec.regs_intr matches Some(regs) ==> regs@.len() == popcount(attr.sample_regs_intr),
        rec.v matches Some(v) ==> {
            &&& v.time_enabled is Some <==> attr.read_format.has_total_time_enabled()
            &&& v.time_running is Some <==> attr.read_format.has_total_time_running()
            &&& forall|i: int|
                0 <= i < v.values@.len() ==> ((#[trigger] v.values@[i]).1 is Some
                    <==> attr.read_format.has_id())
        },
        rec.dyn_size is Some ==> rec.user_stack is Some,
        rec.user_stack matches Some(stack) ==> (stack@.len() > 0 <==> rec.dyn_size is Some),
{
    assert forall|f: SampleField| rec.has_field(f) == f.selected_by(attr.sample_type) by {
        assert(rec.field_ok(f, s, attr));
    }
    assert forall|f: SampleField| rec.field_absent(f) == !f.selected_by(attr.sample_type) by {
        assert(rec.field_ok(f, s, attr));
    }
    assert(rec.field_ok(SampleField::StackUser, s, attr));
    assert(rec.field_ok(SampleField::RegsIntr, s, attr));
    assert(rec.field_ok(SampleField::Read, s, attr));
    if let Some(v) = rec.v {
        lemma_read_format_follows_flags(
            v,
            s.skip(sample_field_start(s, attr, SampleField::Read)),
            attr.read_format,
        );
    }
}

/// Reads a sample of the event `attr`.
///
/// The fields are read in their one order, each exactly where the event's
/// `sample_type` selects it; `attr.read_format` shapes the counter read, and
/// the number of bits set in `attr.sample_regs_user` and in
/// `attr.sample_regs_intr` is the number of registers in the two dumps.
pub fn parse_sample_record<'a>(input: &'a [u8], attr: &EventAttr) -> (r: ParseResult<
    'a,
    SampleRecord,
>)
    ensures
        reads(
            r,
            input@,
            sample_len(input@, *attr),
            |v: SampleRecord| v.decodes(input@, *attr),
        ),
        r matches Ok((_, v)) ==> {
            &&& forall|f: SampleField| v.has_field(f) == f.selected_by(attr.sample_type)
            &&& v.regs_user matches Some(regs) ==> regs@.len() == popcount(attr.sample_regs_user)
            &&& v.regs_intr matches Some(regs) ==> regs@.len() == popcount(attr.sample_regs_intr)
        },
{
    let mut rec = SampleRecord::empty();
    let mut rest: &[u8] = input;
    let mut k: usize = 0;
    let ghost mut at: int = 0;
    while k < 18
        invariant
            k <= 18,
            0 <= at <= input@.len(),
            sample_fields_len(input@, *attr, k as nat) == Ok::<int, PerfError>(at),
            rest@ =~= input@.skip(at),
            rec.decodes_before(input@, *attr, k as int),
        decreases 18 - k,
    {
        let f = SampleField::nth(k);
        if f.is_selected_by(attr.sample_type) {
            let ghost before = rec;
            match read_sample_field(rest, attr, f, &mut rec) {
                Ok(behind) => {
                    proof {
                        let n = sample_field_len(rest@, *attr, f)->Ok_0;
                        assert(sample_field_start(input@, *attr, f) == at);
                        assert forall|g: SampleField| #[trigger]
                            rec.field_ok_before(g, input@, *attr, k + 1) by {
                            assert(before.field_ok_before(g, input@, *attr, k as int));
                            if g != f {
                                lemma_agrees_except(rec, before, f, g, input@, *attr);
                            }
                        }
                        at = at + n;
                    }
                    rest = behind;
                },
                Err(e) => {
                    proof {
                        assert(sample_fields_len(input@, *attr, (k + 1) as nat) == Err::<
                            int,
                            PerfError,
                        >(e));
                        lemma_sample_fields_error(input@, *attr, (k + 1) as nat, 18);
                    }
                    return Err(e);
                },
            }
        } else {
            proof {
                assert forall|g: SampleField| #[trigger]
                    rec.field_ok_before(g, input@, *attr, k + 1) by {
                    assert(rec.field_ok_before(g, input@, *attr, k as int));
                }
            }
        }
        k = k + 1;
    }
    proof {
        assert forall|f: SampleField| #[trigger] rec.field_ok(f, input@, *attr) by {
            assert(rec.field_ok_before(f, input@, *attr, 18));
        }
        lemma_sample_follows_attr(rec, input@, *attr);
    }
    Ok((rest, rec))
}

} // verus!
