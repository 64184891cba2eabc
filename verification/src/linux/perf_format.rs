//! The data structures of a `perf.data` file: the file header, the event
//! attribute block, the feature sections and every record variant, together
//! with the flag sets that select the optional parts of a record.
//!
//! The functions that read these structures from bytes are in `parser`.

use vstd::prelude::*;

verus! {

/// Why a structure could not be decoded.
#[derive(Debug, Clone, Copy, PartialEq, Eq, Structural)]
pub enum PerfError {
    /// The file does not start with the tag `PERFILE2`.
    BadMagic,
    /// An item ran off the end of its slice or section: it needs `expected`
    /// bytes where only `available` remain.
    Truncated { expected: usize, available: usize },
    /// A record whose type code has no decoder. It is a diagnostic, not a
    /// failure: such a record is kept without payload and skipped.
    UnknownRecordType(u32),
    /// Two sizes that belong together contradict each other.
    InconsistentSizes,
}

/// Unique thread descriptor. Used in many different perf structures.
#[derive(Debug, Clone, Copy, PartialEq, Eq, Structural)]
pub struct ThreadId {
    pub pid: i32,
    pub tid: i32,
}

/// Generic CPU description. Used in many different perf structures.
#[derive(Debug, Clone, Copy, PartialEq, Eq, Structural)]
pub struct Cpu {
    pub cpu: u32,
    pub res: u32,
}

/// What identifies the sample that a record belongs to.
#[derive(Debug, Clone, Copy, PartialEq, Eq, Structural)]
pub struct SampleId {
    /// if PERF_SAMPLE_TID set
    pub ptid: ThreadId,
    /// if PERF_SAMPLE_TIME set
    pub time: u64,
    /// if PERF_SAMPLE_ID set
    pub id: u64,
    /// if PERF_SAMPLE_STREAM_ID set
    pub stream_id: u64,
    /// if PERF_SAMPLE_CPU set
    pub cpu: Cpu,
    /// if PERF_SAMPLE_IDENTIFIER set
    pub identifier: u64,
}

/// One record of the data section: its header and what its payload decodes to.
#[derive(Debug, Clone, PartialEq, Eq)]
pub struct Event {
    pub header: EventHeader,
    pub data: EventData,
}

/// What the payload of a record decodes to.
#[derive(Debug, Clone, PartialEq, Eq)]
pub enum EventData {
    MMAP(MMAPRecord),
    Lost(LostRecord),
    Comm(CommRecord),
    Exit(ExitRecord),
    Throttle(ThrottleRecord),
    Unthrottle(UnthrottleRecord),
    Fork(ForkRecord),
    Read(ReadRecord),
    Sample(SampleRecord),
    MMAP2(MMAP2Record),
    BuildId(BuildIdRecord),
    /// A record without payload: the end of a round, or a type that has no decoder.
    Empty,
}

/// The eight bytes every record starts with. `size` counts the whole record,
/// these eight bytes included.
#[derive(Debug, Clone, Copy, PartialEq, Eq, Structural)]
pub struct EventHeader {
    pub event_type: EventType,
    pub misc: u16,
    pub size: u16,
}

impl EventHeader {
    /// The size of the whole record in bytes, its header included.
    pub fn size(&self) -> (r: usize)
        ensures
            r == self.size,
    {
        self.size as usize
    }
}

/// The type of a record, by which its payload is decoded.
#[derive(Debug, Clone, Copy, PartialEq, Eq, Structural)]
pub enum EventType {
    Mmap,
    Lost,
    Comm,
    Exit,
    Throttle,
    Unthrottle,
    Fork,
    Read,
    Sample,
    Mmap2,
    BuildId,
    FinishedRound,
    Unknown(u32),
}

impl EventType {
    /// The variant that a type code stands for.
    pub open spec fn of_code(code: u32) -> EventType {
        if code == 1 {
            EventType::Mmap
        } else if code == 2 {
            EventType::Lost
        } else if code == 3 {
            EventType::Comm
        } else if code == 4 {
            EventType::Exit
        } else if code == 5 {
            EventType::Throttle
        } else if code == 6 {
            EventType::Unthrottle
        } else if code == 7 {
            EventType::Fork
        } else if code == 8 {
            EventType::Read
        } else if code == 9 {
            EventType::Sample
        } else if code == 10 {
            EventType::Mmap2
        } else if code == 67 {
            EventType::BuildId
        } else if code == 68 {
            EventType::FinishedRound
        } else {
            EventType::Unknown(code)
        }
    }

    /// The type code that a variant stands for.
    pub open spec fn spec_code(self) -> u32 {
        match self {
            EventType::Mmap => 1,
            EventType::Lost => 2,
            EventType::Comm => 3,
            EventType::Exit => 4,
            EventType::Throttle => 5,
            EventType::Unthrottle => 6,
            EventType::Fork => 7,
            EventType::Read => 8,
            EventType::Sample => 9,
            EventType::Mmap2 => 10,
            EventType::BuildId => 67,
            EventType::FinishedRound => 68,
            EventType::Unknown(code) => code,
        }
    }

    /// Maps a type code to its variant. A code without a variant of its own is
    /// kept in `Unknown`, so that files with newer record types still decode.
    pub fn new(event_type: u32) -> (r: EventType)
        ensures
            r == EventType::of_code(event_type),
            r.spec_code() == event_type,
    {
        match event_type {
            1 => EventType::Mmap,
            2 => EventType::Lost,
            3 => EventType::Comm,
            4 => EventType::Exit,
            5 => EventType::Throttle,
            6 => EventType::Unthrottle,
            7 => EventType::Fork,
            8 => EventType::Read,
            9 => EventType::Sample,
            10 => EventType::Mmap2,
            67 => EventType::BuildId,
            68 => EventType::FinishedRound,
            _ => EventType::Unknown(event_type),
        }
    }

    /// The type code that a variant stands for.
    #[verifier::when_used_as_spec(spec_code)]
    pub fn code(self) -> (r: u32)
        ensures
            r == self.spec_code(),
    {
        match self {
            EventType::Mmap => 1,
            EventType::Lost => 2,
            EventType::Comm => 3,
            EventType::Exit => 4,
            EventType::Throttle => 5,
            EventType::Unthrottle => 6,
            EventType::Fork => 7,
            EventType::Read => 8,
            EventType::Sample => 9,
            EventType::Mmap2 => 10,
            EventType::BuildId => 67,
            EventType::FinishedRound => 68,
            EventType::Unknown(code) => code,
        }
    }

    /// Whether the type has no decoder.
    pub fn is_unknown(&self) -> (r: bool)
        ensures
            r == (*self is Unknown),
    {
        match *self {
            EventType::Unknown(_) => true,
            _ => false,
        }
    }
}

/// This record indicates a fork event.
#[derive(Debug, Clone, Copy, PartialEq, Eq, Structural)]
pub struct ForkRecord {
    pub pid: u32,
    pub ppid: u32,
    pub tid: u32,
    pub ptid: u32,
    pub time: u64,
}

/// This record indicates a process exit event.
#[derive(Debug, Clone, Copy, PartialEq, Eq, Structural)]
pub struct ExitRecord {
    pub pid: u32,
    pub ppid: u32,
    pub tid: u32,
    pub ptid: u32,
    pub time: u64,
}

/// This record indicates that an event was throttled.
#[derive(Debug, Clone, Copy, PartialEq, Eq, Structural)]
pub struct ThrottleRecord {
    pub time: u64,
    pub id: u64,
    pub stream_id: u64,
}

/// This record indicates that the throttling of an event has ended.
#[derive(Debug, Clone, Copy, PartialEq, Eq, Structural)]
pub struct UnthrottleRecord {
    pub time: u64,
    pub id: u64,
    pub stream_id: u64,
}

/// The MMAP events record the PROT_EXEC mappings so that we can correlate user-space IPs to code.
#[derive(Debug, Clone, PartialEq, Eq)]
pub struct MMAPRecord {
    pub pid: i32,
    pub tid: u32,
    pub addr: u64,
    pub len: u64,
    pub pgoff: u64,
    pub filename: String,
}

/// An mmap record that also says which file is mapped, by device and inode.
#[derive(Debug, Clone, PartialEq, Eq)]
pub struct MMAP2Record {
    pub ptid: ThreadId,
    pub addr: u64,
    pub len: u64,
    pub pgoff: u64,
    pub maj: u32,
    pub min: u32,
    pub ino: u64,
    pub ino_generation: u64,
    pub prot: u32,
    pub flags: u32,
    pub filename: String,
}

/// We use the same read format for READ_FORMAT_GROUP and non-grouped reads for simplicity
#[derive(Debug, Clone, PartialEq, Eq)]
pub struct ReadFormat {
    /// if PERF_FORMAT_TOTAL_TIME_ENABLED
    pub time_enabled: Option<u64>,
    /// if PERF_FORMAT_TOTAL_TIME_RUNNING
    pub time_running: Option<u64>,
    /// Collection of (value, Some(id) if PERF_FORMAT_ID)
    pub values: Vec<(u64, Option<u64>)>,
}

impl Default for ReadFormat {
    fn default() -> (r: ReadFormat)
        ensures
            r.time_enabled is None,
            r.time_running is None,
            r.values@.len() == 0,
    {
        ReadFormat { time_enabled: None, time_running: None, values: Vec::new() }
    }
}

/// This record indicates a counter read.
#[derive(Debug, Clone, PartialEq, Eq)]
pub struct ReadRecord {
    pub pid: u32,
    pub tid: u32,
    pub value: ReadFormat,
}

/// One branch of a branch stack: where it came from and where it went.
#[derive(Debug, Clone, Copy, PartialEq, Eq, Structural)]
pub struct BranchEntry {
    pub from: u64,
    pub to: u64,
    pub flags: u64,
}

/// This record indicates a sample.
#[derive(Debug, Clone, PartialEq, Eq)]
pub struct SampleRecord {
    /// if PERF_SAMPLE_IDENTIFIER
    pub sample_id: Option<u64>,
    /// if PERF_SAMPLE_IP
    pub ip: Option<u64>,
    /// if PERF_SAMPLE_TID
    pub ptid: Option<ThreadId>,
    /// if PERF_SAMPLE_TIME
    pub time: Option<u64>,
    /// if PERF_SAMPLE_ADDR
    pub addr: Option<u64>,
    /// if PERF_SAMPLE_ID
    pub id: Option<u64>,
    /// if PERF_SAMPLE_STREAM_ID
    pub stream_id: Option<u64>,
    /// if PERF_SAMPLE_CPU
    pub cpu: Option<Cpu>,
    /// if PERF_SAMPLE_PERIOD
    pub period: Option<u64>,
    /// if PERF_SAMPLE_READ
    pub v: Option<ReadFormat>,
    /// if PERF_SAMPLE_CALLCHAIN
    pub ips: Option<Vec<u64>>,
    /// if PERF_SAMPLE_RAW
    pub raw: Option<Vec<u8>>,
    /// if PERF_SAMPLE_BRANCH_STACK
    pub lbr: Option<Vec<BranchEntry>>,
    /// PERF_SAMPLE_STACK_USER
    pub abi_user: Option<u64>,
    /// PERF_SAMPLE_STACK_USER
    pub regs_user: Option<Vec<u64>>,
    /// PERF_SAMPLE_STACK_USER
    pub user_stack: Option<Vec<u8>>,
    /// PERF_SAMPLE_STACK_USER, and only where the user stack is not empty
    pub dyn_size: Option<u64>,
    /// if PERF_SAMPLE_WEIGHT
    pub weight: Option<u64>,
    /// if PERF_SAMPLE_DATA_SRC
    pub data_src: Option<u64>,
    /// if PERF_SAMPLE_TRANSACTION
    pub transaction: Option<u64>,
    /// if PERF_SAMPLE_REGS_INTR
    pub abi: Option<u64>,
    /// if PERF_SAMPLE_REGS_INTR
    pub regs_intr: Option<Vec<u64>>,
}

impl SampleRecord {
    /// The sample in which every optional field is absent.
    pub fn empty() -> (r: SampleRecord)
        ensures
            r.sample_id is None,
            r.ip is None,
            r.ptid is None,
            r.time is None,
            r.addr is None,
            r.id is None,
            r.stream_id is None,
            r.cpu is None,
            r.period is None,
            r.v is None,
            r.ips is None,
            r.raw is None,
            r.lbr is None,
            r.abi_user is None,
            r.regs_user is None,
            r.user_stack is None,
            r.dyn_size is None,
            r.weight is None,
            r.data_src is None,
            r.transaction is None,
            r.abi is None,
            r.regs_intr is None,
    {
        SampleRecord {
            sample_id: None,
            ip: None,
            ptid: None,
            time: None,
            addr: None,
            id: None,
            stream_id: None,
            cpu: None,
            period: None,
            v: None,
            ips: None,
            raw: None,
            lbr: None,
            abi_user: None,
            regs_user: None,
            user_stack: None,
            dyn_size: None,
            weight: None,
            data_src: None,
            transaction: None,
            abi: None,
            regs_intr: None,
        }
    }
}

/// This record indicates a change in the process name.
#[derive(Debug, Clone, PartialEq, Eq)]
pub struct CommRecord {
    pub ptid: ThreadId,
    pub comm: String,
}

/// This record indicates that events were lost. Nothing of its payload is decoded.
#[derive(Debug, Clone, Copy, PartialEq, Eq, Structural)]
pub struct LostRecord {}

/// The build id of a binary that was profiled, with the name of its file.
#[derive(Debug, Clone, PartialEq, Eq)]
pub struct BuildIdRecord {
    pub pid: i32,
    pub build_id: Vec<u8>,
    pub filename: String,
}

/// The feature sections a file can carry.
#[derive(Debug, Clone, Copy, PartialEq, Eq, Structural)]
pub enum HeaderFlag {
    NrCpus,
    Arch,
    Version,
    OsRelease,
    Hostname,
    BuildId,
    TracingData,
    BranchStack,
    NumaTopology,
    CpuTopology,
    EventDesc,
    CmdLine,
    TotalMem,
    CpuId,
    CpuDesc,
    GroupDesc,
    PmuMappings,
}

/// Which feature sections a file carries, as its header declares them.
#[derive(Debug, Clone, Copy, PartialEq, Eq, Structural)]
pub struct HeaderFlags {
    pub nrcpus: bool,
    pub arch: bool,
    pub version: bool,
    pub osrelease: bool,
    pub hostname: bool,
    pub build_id: bool,
    pub tracing_data: bool,
    pub branch_stack: bool,
    pub numa_topology: bool,
    pub cpu_topology: bool,
    pub event_desc: bool,
    pub cmdline: bool,
    pub total_mem: bool,
    pub cpuid: bool,
    pub cpudesc: bool,
    pub group_desc: bool,
    pub pmu_mappings: bool,
}

/// The `k`-th feature in the order in which the sections lie in the file.
pub open spec fn feature_at(k: int) -> HeaderFlag {
    if k == 0 {
        HeaderFlag::TracingData
    } else if k == 1 {
        HeaderFlag::BuildId
    } else if k == 2 {
        HeaderFlag::Hostname
    } else if k == 3 {
        HeaderFlag::OsRelease
    } else if k == 4 {
        HeaderFlag::Version
    } else if k == 5 {
        HeaderFlag::Arch
    } else if k == 6 {
        HeaderFlag::NrCpus
    } else if k == 7 {
        HeaderFlag::CpuDesc
    } else if k == 8 {
        HeaderFlag::CpuId
    } else if k == 9 {
        HeaderFlag::TotalMem
    } else if k == 10 {
        HeaderFlag::CmdLine
    } else if k == 11 {
        HeaderFlag::EventDesc
    } else if k == 12 {
        HeaderFlag::CpuTopology
    } else if k == 13 {
        HeaderFlag::NumaTopology
    } else if k == 14 {
        HeaderFlag::BranchStack
    } else if k == 15 {
        HeaderFlag::PmuMappings
    } else {
        HeaderFlag::GroupDesc
    }
}

/// The place of a feature in the order in which the sections lie in the file.
pub open spec fn feature_index(flag: HeaderFlag) -> int {
    match flag {
        HeaderFlag::TracingData => 0,
        HeaderFlag::BuildId => 1,
        HeaderFlag::Hostname => 2,
        HeaderFlag::OsRelease => 3,
        HeaderFlag::Version => 4,
        HeaderFlag::Arch => 5,
        HeaderFlag::NrCpus => 6,
        HeaderFlag::CpuDesc => 7,
        HeaderFlag::CpuId => 8,
        HeaderFlag::TotalMem => 9,
        HeaderFlag::CmdLine => 10,
        HeaderFlag::EventDesc => 11,
        HeaderFlag::CpuTopology => 12,
        HeaderFlag::NumaTopology => 13,
        HeaderFlag::BranchStack => 14,
        HeaderFlag::PmuMappings => 15,
        HeaderFlag::GroupDesc => 16,
    }
}

impl HeaderFlags {
    /// Whether the header declares the section of `flag`.
    pub open spec fn has(&self, flag: HeaderFlag) -> bool {
        match flag {
            HeaderFlag::NrCpus => self.nrcpus,
            HeaderFlag::Arch => self.arch,
            HeaderFlag::Version => self.version,
            HeaderFlag::OsRelease => self.osrelease,
            HeaderFlag::Hostname => self.hostname,
            HeaderFlag::BuildId => self.build_id,
            HeaderFlag::TracingData => self.tracing_data,
            HeaderFlag::BranchStack => self.branch_stack,
            HeaderFlag::NumaTopology => self.numa_topology,
            HeaderFlag::CpuTopology => self.cpu_topology,
            HeaderFlag::EventDesc => self.event_desc,
            HeaderFlag::CmdLine => self.cmdline,
            HeaderFlag::TotalMem => self.total_mem,
            HeaderFlag::CpuId => self.cpuid,
            HeaderFlag::CpuDesc => self.cpudesc,
            HeaderFlag::GroupDesc => self.group_desc,
            HeaderFlag::PmuMappings => self.pmu_mappings,
        }
    }

    /// The declared sections among the first `k` features, in file order.
    pub open spec fn present_before(&self, k: int) -> Seq<HeaderFlag>
        decreases k,
    {
        if k <= 0 {
            Seq::empty()
        } else if self.has(feature_at(k - 1)) {
            self.present_before(k - 1).push(feature_at(k - 1))
        } else {
            self.present_before(k - 1)
        }
    }

    /// The declared sections, in the order in which they lie in the file.
    pub open spec fn present(&self) -> Seq<HeaderFlag> {
        self.present_before(17)
    }

    /// How many of the first `k` features the header declares.
    pub open spec fn count_before(&self, k: int) -> nat
        decreases k,
    {
        if k <= 0 {
            0
        } else if self.has(feature_at(k - 1)) {
            self.count_before(k - 1) + 1
        } else {
            self.count_before(k - 1)
        }
    }

    /// How many sections the header declares: the number of flag bits that are set.
    pub open spec fn count(&self) -> nat {
        self.count_before(17)
    }

    /// Whether the header declares the section of `flag`.
    pub fn contains(&self, flag: HeaderFlag) -> (r: bool)
        ensures
            r == self.has(flag),
    {
        match flag {
            HeaderFlag::NrCpus => self.nrcpus,
            HeaderFlag::Arch => self.arch,
            HeaderFlag::Version => self.version,
            HeaderFlag::OsRelease => self.osrelease,
            HeaderFlag::Hostname => self.hostname,
            HeaderFlag::BuildId => self.build_id,
            HeaderFlag::TracingData => self.tracing_data,
            HeaderFlag::BranchStack => self.branch_stack,
            HeaderFlag::NumaTopology => self.numa_topology,
            HeaderFlag::CpuTopology => self.cpu_topology,
            HeaderFlag::EventDesc => self.event_desc,
            HeaderFlag::CmdLine => self.cmdline,
            HeaderFlag::TotalMem => self.total_mem,
            HeaderFlag::CpuId => self.cpuid,
            HeaderFlag::CpuDesc => self.cpudesc,
            HeaderFlag::GroupDesc => self.group_desc,
            HeaderFlag::PmuMappings => self.pmu_mappings,
        }
    }

    /// The declared sections, in the order in which they lie in the file.
    ///
    /// The order matters: the table of section descriptors names no section,
    /// so the `i`-th descriptor belongs to the `i`-th flag that this returns.
    pub fn collect(&self) -> (flags: Vec<HeaderFlag>)
        ensures
            flags@ == self.present(),
            flags@.len() == self.count(),
            flags@.len() <= 17,
    {
        let mut flags: Vec<HeaderFlag> = Vec::with_capacity(17);
        let mut k: usize = 0;
        while k < 17
            invariant
                k <= 17,
                flags@ == self.present_before(k as int),
                flags@.len() == self.count_before(k as int),
                flags@.len() <= k,
            decreases 17 - k,
        {
            let flag = HeaderFlag::nth(k);
            if self.contains(flag) {
                flags.push(flag);
            }
            k = k + 1;
        }
        flags
    }
}

/// The features are counted in file order: the count never falls.
pub proof fn lemma_count_before_monotone(flags: HeaderFlags, a: int, b: int)
    requires
        a <= b,
    ensures
        flags.count_before(a) <= flags.count_before(b),
    decreases b - a,
{
    if a < b {
        lemma_count_before_monotone(flags, a, b - 1);
    }
}

/// A declared feature has a section descriptor: its rank among the declared
/// features is below their number.
pub proof fn lemma_rank_below_count(flags: HeaderFlags, flag: HeaderFlag)
    requires
        flags.has(flag),
    ensures
        flags.count_before(feature_index(flag)) < flags.count(),
{
    let k = feature_index(flag);
    assert(feature_at(k) == flag);
    assert(flags.count_before(k + 1) == flags.count_before(k) + 1);
    lemma_count_before_monotone(flags, k + 1, 17);
}

/// The declared features in file order: as many as are counted, and each at its rank.
pub proof fn lemma_present_before(flags: HeaderFlags, k: int)
    requires
        0 <= k <= 17,
    ensures
        flags.present_before(k).len() == flags.count_before(k),
        forall|j: int|
            0 <= j < k && flags.has(feature_at(j)) ==> flags.present_before(k)[flags.count_before(
                j,
            ) as int] == #[trigger] feature_at(j),
    decreases k,
{
    if k > 0 {
        lemma_present_before(flags, k - 1);
        assert forall|j: int| 0 <= j < k && flags.has(feature_at(j)) implies flags.present_before(
            k,
        )[flags.count_before(j) as int] == #[trigger] feature_at(j) by {
            lemma_count_before_monotone(flags, j + 1, k);
            if j < k - 1 {
                lemma_count_before_monotone(flags, j + 1, k - 1);
            }
        }
    }
}

impl HeaderFlag {
    /// The place of the feature in the order in which the sections lie in the file.
    pub fn position(self) -> (r: usize)
        ensures
            r == feature_index(self),
            r < 17,
            feature_at(r as int) == self,
    {
        match self {
            HeaderFlag::TracingData => 0,
            HeaderFlag::BuildId => 1,
            HeaderFlag::Hostname => 2,
            HeaderFlag::OsRelease => 3,
            HeaderFlag::Version => 4,
            HeaderFlag::Arch => 5,
            HeaderFlag::NrCpus => 6,
            HeaderFlag::CpuDesc => 7,
            HeaderFlag::CpuId => 8,
            HeaderFlag::TotalMem => 9,
            HeaderFlag::CmdLine => 10,
            HeaderFlag::EventDesc => 11,
            HeaderFlag::CpuTopology => 12,
            HeaderFlag::NumaTopology => 13,
            HeaderFlag::BranchStack => 14,
            HeaderFlag::PmuMappings => 15,
            HeaderFlag::GroupDesc => 16,
        }
    }

    /// The `k`-th feature in the order in which the sections lie in the file.
    pub fn nth(k: usize) -> (r: HeaderFlag)
        requires
            k < 17,
        ensures
            r == feature_at(k as int),
    {
        match k {
            0 => HeaderFlag::TracingData,
            1 => HeaderFlag::BuildId,
            2 => HeaderFlag::Hostname,
            3 => HeaderFlag::OsRelease,
            4 => HeaderFlag::Version,
            5 => HeaderFlag::Arch,
            6 => HeaderFlag::NrCpus,
            7 => HeaderFlag::CpuDesc,
            8 => HeaderFlag::CpuId,
            9 => HeaderFlag::TotalMem,
            10 => HeaderFlag::CmdLine,
            11 => HeaderFlag::EventDesc,
            12 => HeaderFlag::CpuTopology,
            13 => HeaderFlag::NumaTopology,
            14 => HeaderFlag::BranchStack,
            15 => HeaderFlag::PmuMappings,
            _ => HeaderFlag::GroupDesc,
        }
    }
}

/// The header of a file: its sizes, where its sections lie, and which features it has.
#[derive(Debug, Clone, Copy, PartialEq, Eq, Structural)]
pub struct PerfFileHeader {
    pub size: u64,
    pub attr_size: u64,
    pub attrs: PerfFileSection,
    pub data: PerfFileSection,
    pub event_types: PerfFileSection,
    pub flags: HeaderFlags,
}

/// Describes one event that was recorded. Its masks govern the layout of the
/// samples of that event.
#[derive(Debug, Clone, Copy, PartialEq, Eq, Structural)]
pub struct EventAttr {
    pub attr_type: u32,
    pub size: u32,
    pub config: u64,
    pub sample_period_freq: u64,
    pub sample_type: SampleFormatFlags,
    pub read_format: ReadFormatFlags,
    pub settings: EventAttrFlags,
    pub wakeup_events_watermark: u32,
    pub bp_type: u32,
    pub config1_or_bp_addr: u64,
    pub config2_or_bp_len: u64,
    pub branch_sample_type: u64,
    pub sample_regs_user: u64,
    pub sample_stack_user: u32,
    pub clock_id: i32,
    pub sample_regs_intr: u64,
    pub aux_watermark: u32,
    pub reserved: u32,
}

impl EventAttr {
    /// The block in which every field is zero.
    pub open spec fn zeroed() -> EventAttr {
        EventAttr {
            attr_type: 0,
            size: 0,
            config: 0,
            sample_period_freq: 0,
            sample_type: SampleFormatFlags { bits: 0 },
            read_format: ReadFormatFlags { bits: 0 },
            settings: EventAttrFlags { bits: 0 },
            wakeup_events_watermark: 0,
            bp_type: 0,
            config1_or_bp_addr: 0,
            config2_or_bp_len: 0,
            branch_sample_type: 0,
            sample_regs_user: 0,
            sample_stack_user: 0,
            clock_id: 0,
            sample_regs_intr: 0,
            aux_watermark: 0,
            reserved: 0,
        }
    }

    /// The type of the event.
    pub fn attr_type(&self) -> (r: EventAttrType)
        ensures
            r == EventAttrType::of_code(self.attr_type),
    {
        EventAttrType::new(self.attr_type)
    }
}

impl Default for EventAttr {
    fn default() -> (r: EventAttr)
        ensures
            r == EventAttr::zeroed(),
    {
        EventAttr {
            attr_type: 0,
            size: 0,
            config: 0,
            sample_period_freq: 0,
            sample_type: SampleFormatFlags::empty(),
            read_format: ReadFormatFlags::empty(),
            settings: EventAttrFlags::empty(),
            wakeup_events_watermark: 0,
            bp_type: 0,
            config1_or_bp_addr: 0,
            config2_or_bp_len: 0,
            branch_sample_type: 0,
            sample_regs_user: 0,
            sample_stack_user: 0,
            clock_id: 0,
            sample_regs_intr: 0,
            aux_watermark: 0,
            reserved: 0,
        }
    }
}

/// The type of an event: where its configuration is looked up.
#[derive(Debug, Clone, Copy, PartialEq, Eq, Structural)]
pub enum EventAttrType {
    Hardware,
    Software,
    TracePoint,
    HwCache,
    Raw,
    Breakpoint,
    Unknown(u32),
}

impl EventAttrType {
    /// The variant that a type code stands for.
    pub open spec fn of_code(code: u32) -> EventAttrType {
        if code == 0 {
            EventAttrType::Hardware
        } else if code == 1 {
            EventAttrType::Software
        } else if code == 2 {
            EventAttrType::TracePoint
        } else if code == 3 {
            EventAttrType::HwCache
        } else if code == 4 {
            EventAttrType::Raw
        } else if code == 5 {
            EventAttrType::Breakpoint
        } else {
            EventAttrType::Unknown(code)
        }
    }

    /// Maps a type code to its variant, and keeps a code without a variant in `Unknown`.
    pub fn new(attr_type: u32) -> (r: EventAttrType)
        ensures
            r == EventAttrType::of_code(attr_type),
    {
        match attr_type {
            0 => EventAttrType::Hardware,
            1 => EventAttrType::Software,
            2 => EventAttrType::TracePoint,
            3 => EventAttrType::HwCache,
            4 => EventAttrType::Raw,
            5 => EventAttrType::Breakpoint,
            _ => EventAttrType::Unknown(attr_type),
        }
    }
}

/// A flag set holds what was inserted into it.
pub proof fn lemma_insert_then_contains(bits: u64, mask: u64)
    ensures
        (bits | mask) & mask == mask,
{
    assert((bits | mask) & mask == mask) by (bit_vector);
}

/// Inserting into a flag set takes nothing out of it.
pub proof fn lemma_insert_keeps(bits: u64, mask: u64, other: u64)
    requires
        bits & other == other,
    ensures
        (bits | mask) & other == other,
{
    assert((bits | mask) & other == other) by (bit_vector)
        requires
            bits & other == other,
    ;
}

/// Inserting into a flag set puts nothing into it but what is inserted: a
/// mask that has no bit in common with the inserted one is held after the
/// insertion exactly if it was held before.
pub proof fn lemma_insert_adds_no_other(bits: u64, mask: u64, other: u64)
    requires
        mask & other == 0,
    ensures
        ((bits | mask) & other == other) <==> (bits & other == other),
{
    assert(((bits | mask) & other == other) <==> (bits & other == other)) by (bit_vector)
        requires
            mask & other == 0,
    ;
}

/// Dropping the bits without a meaning keeps every flag that has one: a mask
/// within `all` is held by `bits & all` exactly if `bits` holds it.
pub proof fn lemma_truncate_keeps_known(bits: u64, all: u64, mask: u64)
    requires
        mask & all == mask,
    ensures
        ((bits & all) & mask == mask) <==> (bits & mask == mask),
        (bits & all) & all == bits & all,
{
    assert(((bits & all) & mask == mask) <==> (bits & mask == mask)) by (bit_vector)
        requires
            mask & all == mask,
    ;
    assert((bits & all) & all == bits & all) by (bit_vector);
}

/// Selects what a counter read reports besides the value.
#[derive(Debug, Clone, Copy, PartialEq, Eq, Structural)]
pub struct ReadFormatFlags {
    pub bits: u64,
}

impl ReadFormatFlags {
    /// Adds the 64-bit time_enabled field.  This can be used to calculate estimated totals if the PMU is overcommitted
    /// and multiplexing is happening.
    pub const FORMAT_TOTAL_TIME_ENABLED: u64 = 0x1;

    /// Adds the 64-bit time_running field.  This can be used to calculate estimated totals if the PMU is  overcommitted
    /// and  multiplexing is happening.
    pub const FORMAT_TOTAL_TIME_RUNNING: u64 = 0x2;

    /// Adds a 64-bit unique value that corresponds to the event group.
    pub const FORMAT_ID: u64 = 0x4;

    /// Allows all counter values in an event group to be read with one read.
    pub const FORMAT_GROUP: u64 = 0x8;

    /// Every bit that has a meaning.
    pub const ALL: u64 = 0xf;

    /// The set without flags.
    pub fn empty() -> (r: ReadFormatFlags)
        ensures
            r.bits == 0,
    {
        ReadFormatFlags { bits: 0 }
    }

    /// The flags as a mask.
    pub fn bits(&self) -> (r: u64)
        ensures
            r == self.bits,
    {
        self.bits
    }

    /// The set of the bits of `bits` that have a meaning; the others are dropped.
    pub fn from_bits_truncate(bits: u64) -> (r: ReadFormatFlags)
        ensures
            r.bits == bits & ReadFormatFlags::ALL,
    {
        ReadFormatFlags { bits: bits & ReadFormatFlags::ALL }
    }

    /// Whether every bit of `mask` is in the set.
    #[verifier::allow_in_spec]
    pub fn contains(&self, mask: u64) -> bool
        returns
            self.bits & mask == mask,
    {
        self.bits & mask == mask
    }

    /// Adds the bits of `mask` to the set.
    pub fn insert(&mut self, mask: u64)
        ensures
            final(self).bits == old(self).bits | mask,
    {
        self.bits = self.bits | mask;
    }

    /// Whether a read holds the time for which the counter was enabled.
    #[verifier::allow_in_spec]
    pub fn has_total_time_enabled(&self) -> bool
        returns
            self.contains(ReadFormatFlags::FORMAT_TOTAL_TIME_ENABLED),
    {
        self.contains(ReadFormatFlags::FORMAT_TOTAL_TIME_ENABLED)
    }

    /// Whether a read holds the time for which the counter was running.
    #[verifier::allow_in_spec]
    pub fn has_total_time_running(&self) -> bool
        returns
            self.contains(ReadFormatFlags::FORMAT_TOTAL_TIME_RUNNING),
    {
        self.contains(ReadFormatFlags::FORMAT_TOTAL_TIME_RUNNING)
    }

    /// Whether a read holds an id with every value.
    #[verifier::allow_in_spec]
    pub fn has_id(&self) -> bool
        returns
            self.contains(ReadFormatFlags::FORMAT_ID),
    {
        self.contains(ReadFormatFlags::FORMAT_ID)
    }

    /// Whether a read holds the values of a whole group.
    #[verifier::allow_in_spec]
    pub fn has_group(&self) -> bool
        returns
            self.contains(ReadFormatFlags::FORMAT_GROUP),
    {
        self.contains(ReadFormatFlags::FORMAT_GROUP)
    }
}

/// Selects the optional fields of a sample record.
#[derive(Debug, Clone, Copy, PartialEq, Eq, Structural)]
pub struct SampleFormatFlags {
    pub bits: u64,
}

impl SampleFormatFlags {
    /// Records instruction pointer.
    pub const PERF_SAMPLE_IP: u64 = 0x1;

    /// Records the process and thread IDs.
    pub const PERF_SAMPLE_TID: u64 = 0x2;

    /// Records a timestamp.
    pub const PERF_SAMPLE_TIME: u64 = 0x4;

    /// Records an address, if applicable.
    pub const PERF_SAMPLE_ADDR: u64 = 0x8;

    /// Record counter values for all events in a group, not just the group leader.
    pub const PERF_SAMPLE_READ: u64 = 0x10;

    /// Records the callchain (stack backtrace).
    pub const PERF_SAMPLE_CALLCHAIN: u64 = 0x20;

    /// Records a unique ID for the opened event's group leader.
    pub const PERF_SAMPLE_ID: u64 = 0x40;

    /// Records CPU number.
    pub const PERF_SAMPLE_CPU: u64 = 0x80;

    /// Records the current sampling period.
    pub const PERF_SAMPLE_PERIOD: u64 = 0x100;

    /// Records  a  unique  ID  for  the  opened  event.  Unlike PERF_SAMPLE_ID the actual ID is returned, not the group
    /// leader.  This ID is the same as the one returned by PERF_FORMAT_ID.
    pub const PERF_SAMPLE_STREAM_ID: u64 = 0x200;

    /// Records additional data, if applicable.  Usually returned by tracepoint events.
    pub const PERF_SAMPLE_RAW: u64 = 0x400;

    /// This provides a record of recent branches, as provided by CPU branch  sampling  hardware  (such  as  Intel  Last
    /// Branch Record).  Not all hardware supports this feature.
    /// See the branch_sample_type field for how to filter which branches are reported.
    pub const PERF_SAMPLE_BRANCH_STACK: u64 = 0x800;

    /// Records the current user-level CPU register state (the values in the process before the kernel was called).
    pub const PERF_SAMPLE_REGS_USER: u64 = 0x1000;

    /// Records the user level stack, allowing stack unwinding.
    pub const PERF_SAMPLE_STACK_USER: u64 = 0x2000;

    /// Records a hardware provided weight value that expresses how costly the sampled event was.
    /// This allows the hardware to highlight expensive events in a profile.
    pub const PERF_SAMPLE_WEIGHT: u64 = 0x4000;

    /// Records the data source: where in the memory hierarchy the data associated with the sampled instruction came from.
    /// This is only available if the underlying hardware supports this feature.
    pub const PERF_SAMPLE_DATA_SRC: u64 = 0x8000;

    /// Puts the id of the group leader at the start of a sample.
    pub const PERF_SAMPLE_IDENTIFIER: u64 = 0x10000;

    /// Records the reasons for transactional memory aborts.
    pub const PERF_SAMPLE_TRANSACTION: u64 = 0x20000;

    /// Records the registers at the interrupt that took the sample.
    pub const PERF_SAMPLE_REGS_INTR: u64 = 0x40000;

    /// Every bit that has a meaning.
    pub const ALL: u64 = 0x7ffff;

    /// The set without flags.
    pub fn empty() -> (r: SampleFormatFlags)
        ensures
            r.bits == 0,
    {
        SampleFormatFlags { bits: 0 }
    }

    /// The flags as a mask.
    pub fn bits(&self) -> (r: u64)
        ensures
            r == self.bits,
    {
        self.bits
    }

    /// The set of the bits of `bits` that have a meaning; the others are dropped.
    pub fn from_bits_truncate(bits: u64) -> (r: SampleFormatFlags)
        ensures
            r.bits == bits & SampleFormatFlags::ALL,
    {
        SampleFormatFlags { bits: bits & SampleFormatFlags::ALL }
    }

    /// Whether every bit of `mask` is in the set.
    #[verifier::allow_in_spec]
    pub fn contains(&self, mask: u64) -> bool
        returns
            self.bits & mask == mask,
    {
        self.bits & mask == mask
    }

    /// Adds the bits of `mask` to the set.
    pub fn insert(&mut self, mask: u64)
        ensures
            final(self).bits == old(self).bits | mask,
    {
        self.bits = self.bits | mask;
    }

    /// Whether samples hold the instruction pointer.
    #[verifier::allow_in_spec]
    pub fn has_ip(&self) -> bool
        returns
            self.contains(SampleFormatFlags::PERF_SAMPLE_IP),
    {
        self.contains(SampleFormatFlags::PERF_SAMPLE_IP)
    }

    /// Whether samples hold the process and the thread.
    #[verifier::allow_in_spec]
    pub fn has_tid(&self) -> bool
        returns
            self.contains(SampleFormatFlags::PERF_SAMPLE_TID),
    {
        self.contains(SampleFormatFlags::PERF_SAMPLE_TID)
    }

    /// Whether samples hold a timestamp.
    #[verifier::allow_in_spec]
    pub fn has_time(&self) -> bool
        returns
            self.contains(SampleFormatFlags::PERF_SAMPLE_TIME),
    {
        self.contains(SampleFormatFlags::PERF_SAMPLE_TIME)
    }

    /// Whether samples hold an address.
    #[verifier::allow_in_spec]
    pub fn has_addr(&self) -> bool
        returns
            self.contains(SampleFormatFlags::PERF_SAMPLE_ADDR),
    {
        self.contains(SampleFormatFlags::PERF_SAMPLE_ADDR)
    }

    /// Whether samples hold a counter read.
    #[verifier::allow_in_spec]
    pub fn has_read(&self) -> bool
        returns
            self.contains(SampleFormatFlags::PERF_SAMPLE_READ),
    {
        self.contains(SampleFormatFlags::PERF_SAMPLE_READ)
    }

    /// Whether samples hold the callchain.
    #[verifier::allow_in_spec]
    pub fn has_callchain(&self) -> bool
        returns
            self.contains(SampleFormatFlags::PERF_SAMPLE_CALLCHAIN),
    {
        self.contains(SampleFormatFlags::PERF_SAMPLE_CALLCHAIN)
    }

    /// Whether samples hold the id of the group leader.
    #[verifier::allow_in_spec]
    pub fn has_sample_id(&self) -> bool
        returns
            self.contains(SampleFormatFlags::PERF_SAMPLE_ID),
    {
        self.contains(SampleFormatFlags::PERF_SAMPLE_ID)
    }

    /// Whether samples hold the CPU number.
    #[verifier::allow_in_spec]
    pub fn has_cpu(&self) -> bool
        returns
            self.contains(SampleFormatFlags::PERF_SAMPLE_CPU),
    {
        self.contains(SampleFormatFlags::PERF_SAMPLE_CPU)
    }

    /// Whether samples hold the sampling period.
    #[verifier::allow_in_spec]
    pub fn has_period(&self) -> bool
        returns
            self.contains(SampleFormatFlags::PERF_SAMPLE_PERIOD),
    {
        self.contains(SampleFormatFlags::PERF_SAMPLE_PERIOD)
    }

    /// Whether samples hold the id of the opened event.
    #[verifier::allow_in_spec]
    pub fn has_stream_id(&self) -> bool
        returns
            self.contains(SampleFormatFlags::PERF_SAMPLE_STREAM_ID),
    {
        self.contains(SampleFormatFlags::PERF_SAMPLE_STREAM_ID)
    }

    /// Whether samples hold raw data.
    #[verifier::allow_in_spec]
    pub fn has_raw(&self) -> bool
        returns
            self.contains(SampleFormatFlags::PERF_SAMPLE_RAW),
    {
        self.contains(SampleFormatFlags::PERF_SAMPLE_RAW)
    }

    /// Whether samples hold a branch stack.
    #[verifier::allow_in_spec]
    pub fn has_branch_stack(&self) -> bool
        returns
            self.contains(SampleFormatFlags::PERF_SAMPLE_BRANCH_STACK),
    {
        self.contains(SampleFormatFlags::PERF_SAMPLE_BRANCH_STACK)
    }

    /// Whether the user-level registers are sampled.
    #[verifier::allow_in_spec]
    pub fn has_regs_user(&self) -> bool
        returns
            self.contains(SampleFormatFlags::PERF_SAMPLE_REGS_USER),
    {
        self.contains(SampleFormatFlags::PERF_SAMPLE_REGS_USER)
    }

    /// Whether samples hold the user-level registers and stack.
    #[verifier::allow_in_spec]
    pub fn has_stack_user(&self) -> bool
        returns
            self.contains(SampleFormatFlags::PERF_SAMPLE_STACK_USER),
    {
        self.contains(SampleFormatFlags::PERF_SAMPLE_STACK_USER)
    }

    /// Whether samples hold a weight.
    #[verifier::allow_in_spec]
    pub fn has_weight(&self) -> bool
        returns
            self.contains(SampleFormatFlags::PERF_SAMPLE_WEIGHT),
    {
        self.contains(SampleFormatFlags::PERF_SAMPLE_WEIGHT)
    }

    /// Whether samples hold the source of the data.
    #[verifier::allow_in_spec]
    pub fn has_data_src(&self) -> bool
        returns
            self.contains(SampleFormatFlags::PERF_SAMPLE_DATA_SRC),
    {
        self.contains(SampleFormatFlags::PERF_SAMPLE_DATA_SRC)
    }

    /// Whether samples start with the id of the group leader.
    #[verifier::allow_in_spec]
    pub fn has_identifier(&self) -> bool
        returns
            self.contains(SampleFormatFlags::PERF_SAMPLE_IDENTIFIER),
    {
        self.contains(SampleFormatFlags::PERF_SAMPLE_IDENTIFIER)
    }

    /// Whether samples hold the reasons for transaction aborts.
    #[verifier::allow_in_spec]
    pub fn has_transaction(&self) -> bool
        returns
            self.contains(SampleFormatFlags::PERF_SAMPLE_TRANSACTION),
    {
        self.contains(SampleFormatFlags::PERF_SAMPLE_TRANSACTION)
    }

    /// Whether samples hold the registers at the interrupt.
    #[verifier::allow_in_spec]
    pub fn has_regs_intr(&self) -> bool
        returns
            self.contains(SampleFormatFlags::PERF_SAMPLE_REGS_INTR),
    {
        self.contains(SampleFormatFlags::PERF_SAMPLE_REGS_INTR)
    }
}

/// The boolean settings of an event.
#[derive(Debug, Clone, Copy, PartialEq, Eq, Structural)]
pub struct EventAttrFlags {
    pub bits: u64,
}

impl EventAttrFlags {
    /// off by default
    pub const EVENT_ATTR_DISABLED: u64 = 0x1;

    /// children inherit it
    pub const EVENT_ATTR_INHERIT: u64 = 0x2;

    /// must always be on PMU
    pub const EVENT_ATTR_PINNED: u64 = 0x4;

    /// only group on PMU
    pub const EVENT_ATTR_EXCLUSIVE: u64 = 0x8;

    /// don't count user
    pub const EVENT_ATTR_EXCLUDE_USER: u64 = 0x10;

    /// ditto kernel
    pub const EVENT_ATTR_EXCLUDE_KERNEL: u64 = 0x20;

    /// ditto hypervisor
    pub const EVENT_ATTR_EXCLUDE_HV: u64 = 0x40;

    /// don't count when idle
    pub const EVENT_ATTR_EXCLUDE_IDLE: u64 = 0x80;

    /// include mmap data
    pub const EVENT_ATTR_MMAP: u64 = 0x100;

    /// include comm data
    pub const EVENT_ATTR_COMM: u64 = 0x200;

    /// use freq, not period
    pub const EVENT_ATTR_FREQ: u64 = 0x400;

    /// per task counts
    pub const EVENT_ATTR_INHERIT_STAT: u64 = 0x800;

    /// next exec enables
    pub const EVENT_ATTR_ENABLE_ON_EXEC: u64 = 0x1000;

    /// trace fork/exit
    pub const EVENT_ATTR_TASK: u64 = 0x2000;

    /// wakeup_watermark
    pub const EVENT_ATTR_WATERMARK: u64 = 0x4000;

    /// SAMPLE_IP can have arbitrary skid
    pub const EVENT_ATTR_SAMPLE_IP_ARBITRARY_SKID: u64 = 0x0;

    /// SAMPLE_IP must have constant skid
    pub const EVENT_ATTR_SAMPLE_IP_CONSTANT_SKID: u64 = 0x8000;

    /// SAMPLE_IP requested to have 0 skid
    pub const EVENT_ATTR_SAMPLE_IP_REQ_ZERO_SKID: u64 = 0x10000;

    /// SAMPLE_IP must have 0 skid
    pub const EVENT_ATTR_SAMPLE_IP_ZERO_SKID: u64 = 0x18000;

    /// non-exec mmap data
    pub const EVENT_ATTR_MMAP_DATA: u64 = 0x20000;

    /// sample_type all events
    pub const EVENT_ATTR_SAMPLE_ID_ALL: u64 = 0x40000;

    /// don't count in host
    pub const EVENT_ATTR_EXCLUDE_HOST: u64 = 0x80000;

    /// don't count in guest
    pub const EVENT_ATTR_EXCLUDE_GUEST: u64 = 0x100000;

    /// exclude kernel callchains
    pub const EVENT_ATTR_EXCLUDE_CALLCHAIN_KERNEL: u64 = 0x200000;

    /// exclude user callchains
    pub const EVENT_ATTR_EXCLUDE_CALLCHAIN_USER: u64 = 0x400000;

    /// include mmap with inode data
    pub const EVENT_ATTR_MMAP2: u64 = 0x800000;

    /// Every bit that has a meaning.
    pub const ALL: u64 = 0xffffff;

    /// The set without flags.
    pub fn empty() -> (r: EventAttrFlags)
        ensures
            r.bits == 0,
    {
        EventAttrFlags { bits: 0 }
    }

    /// The flags as a mask.
    pub fn bits(&self) -> (r: u64)
        ensures
            r == self.bits,
    {
        self.bits
    }

    /// The set of the bits of `bits` that have a meaning; the others are dropped.
    pub fn from_bits_truncate(bits: u64) -> (r: EventAttrFlags)
        ensures
            r.bits == bits & EventAttrFlags::ALL,
    {
        EventAttrFlags { bits: bits & EventAttrFlags::ALL }
    }

    /// Whether every bit of `mask` is in the set.
    #[verifier::allow_in_spec]
    pub fn contains(&self, mask: u64) -> bool
        returns
            self.bits & mask == mask,
    {
        self.bits & mask == mask
    }

    /// Adds the bits of `mask` to the set.
    pub fn insert(&mut self, mask: u64)
        ensures
            final(self).bits == old(self).bits | mask,
    {
        self.bits = self.bits | mask;
    }
}

/// Where a section lies in the file.
#[derive(Debug, Clone, Copy, PartialEq, Eq, Structural)]
pub struct PerfFileSection {
    pub offset: u64,
    pub size: u64,
}

impl PerfFileSection {
    /// Whether the section lies within a file of `len` bytes.
    pub open spec fn within(&self, len: int) -> bool {
        self.offset + self.size <= len
    }

    /// Whether the section lies within a file of `len` bytes.
    pub fn fits(&self, len: usize) -> (r: bool)
        ensures
            r == self.within(len as int),
    {
        let len64: u64 = len as u64;
        self.offset <= len64 && self.size <= len64 - self.offset
    }

    /// Where the section starts.
    pub fn start(&self) -> (r: usize)
        requires
            self.offset <= usize::MAX,
        ensures
            r == self.offset,
    {
        self.offset as usize
    }

    /// Where the section ends: the place behind its last byte.
    pub fn end(&self) -> (r: usize)
        requires
            self.offset + self.size <= usize::MAX,
        ensures
            r == self.offset + self.size,
    {
        (self.offset + self.size) as usize
    }
}

/// How many CPUs the profiled machine had.
#[derive(Debug, Clone, Copy, PartialEq, Eq, Structural)]
pub struct NrCpus {
    /// How many CPUs are online
    pub online: u32,
    /// CPUs not yet online
    pub available: u32,
}

/// The description of an event that was recorded.
#[derive(Debug, Clone, PartialEq, Eq)]
pub struct EventDesc {
    pub attr: EventAttr,
    pub event_string: String,
    pub ids: Vec<u64>,
}

/// Which CPUs are siblings: for each core and for each thread a list of CPUs.
#[derive(Debug, Clone, PartialEq, Eq)]
pub struct CpuTopology {
    pub cores: Vec<String>,
    pub threads: Vec<String>,
}

/// A NUMA node: its memory and its CPUs.
#[derive(Debug, Clone, PartialEq, Eq)]
pub struct NumaNode {
    pub node_nr: u32,
    pub mem_total: u64,
    pub mem_free: u64,
    pub cpus: String,
}

/// A performance monitoring unit: its type and its name.
#[derive(Debug, Clone, PartialEq, Eq)]
pub struct PmuMapping {
    pub pmu_type: u32,
    pub pmu_name: String,
}

/// A group of events that were recorded together.
#[derive(Debug, Clone, PartialEq, Eq)]
pub struct GroupDesc {
    pub string: String,
    pub leader_idx: u32,
    pub nr_members: u32,
}

} // verus!
