//! A wrapper around perf_event open (http://lxr.free-electrons.com/source/tools/perf/design.txt)
//!
//! This module holds what is computed on the way to a counter and back: the
//! arguments of `perf_event_open`, which `PerfCounterBuilderLinux` collects,
//! and the decoders for what the kernel hands out, be it the value read from
//! the counter's file descriptor or the records in the sampling ring buffer.
//! The system calls themselves are made by the program that uses the library.

pub mod features;
pub mod flag_word;
pub mod parser;
pub mod perf_event;
pub mod perf_file;
pub mod perf_format;
pub mod primitives;
pub mod sample;

use self::perf_event::{
    PERF_FLAG_FD_OUTPUT, PERF_FLAG_PID_CGROUP, PERF_RECORD_COMM, PERF_RECORD_EXIT,
    PERF_RECORD_FORK, PERF_RECORD_LOST, PERF_RECORD_MMAP, PERF_RECORD_READ, PERF_RECORD_SAMPLE,
    PERF_RECORD_THROTTLE, PERF_RECORD_UNTHROTTLE, PERF_TYPE_HARDWARE, PERF_TYPE_HW_CACHE,
    PERF_TYPE_RAW, PERF_TYPE_SOFTWARE,
};
use self::perf_format::{
    EventAttr, EventAttrFlags, PerfError, ReadFormatFlags, SampleFormatFlags,
};
use self::primitives::{
    find_nul, fixed_len, le_u16, le_u32, le_u64, lossy_text, need, text_from_bytes, u16_at,
    u32_at, u64_at, until_nul, Extent,
};
use vstd::prelude::*;
use vstd::slice::slice_subrange;

verus! {

/// Collects the arguments of `perf_event_open`.
#[derive(Debug, Clone, Copy, PartialEq, Eq, Structural)]
pub struct PerfCounterBuilderLinux {
    /// The file descriptor of the group leader, or -1 for a counter of its own.
    pub group: isize,
    /// The process to measure, or -1 for all.
    pub pid: i32,
    /// The CPU to measure on, or -1 for all.
    pub cpu: isize,
    /// The flags of the call.
    pub flags: i32,
    /// The attributes of the event.
    pub attrs: EventAttr,
}

impl Default for PerfCounterBuilderLinux {
    fn default() -> (r: PerfCounterBuilderLinux)
        ensures
            r == PerfCounterBuilderLinux::initial(),
    {
        PerfCounterBuilderLinux { group: -1, pid: 0, cpu: -1, flags: 0, attrs: Default::default() }
    }
}

/// The hardware events that the kernel knows on every processor.
#[derive(Debug, Clone, Copy, PartialEq, Eq, Structural)]
pub enum HardwareEventType {
    /// Total cycles.  Be wary of what happens during CPU frequency scaling.
    CPUCycles,
    /// Retired instructions.  Be careful, these can be affected by various issues, most notably
    /// hardware interrupt counts.
    Instructions,
    /// Cache accesses. Usually this indicates Last Level Cache accesses but this may vary depending
    /// on your CPU. This may include prefetches and coherency messages; again this depends on the
    /// design of your CPU.
    CacheReferences,
    /// Cache misses. Usually this indicates Last Level Cache misses; this is intended to be used in
    /// conjunction with the [CacheReferences] event to calculate cache miss rates.
    CacheMisses,
    /// Retired branch instructions.  Prior to Linux 2.6.34, this used the wrong event on AMD
    /// processors.
    BranchInstructions,
    /// Mispredicted branch instructions.
    BranchMisses,
    /// Bus cycles, which can be different from total cycles.
    BusCycles,
    /// Stalled cycles during issue. (Since Linux 3.0)
    StalledCyclesFrontend,
    /// Stalled cycles during retirement. (Since Linux 3.0)
    StalledCyclesBackend,
    /// Total cycles; not affected by CPU frequency scaling. (Since Linux 3.3)
    RefCPUCycles,
}

impl HardwareEventType {
    /// The number by which the kernel knows the event.
    pub open spec fn spec_config(self) -> u64 {
        match self {
            HardwareEventType::CPUCycles => 0,
            HardwareEventType::Instructions => 1,
            HardwareEventType::CacheReferences => 2,
            HardwareEventType::CacheMisses => 3,
            HardwareEventType::BranchInstructions => 4,
            HardwareEventType::BranchMisses => 5,
            HardwareEventType::BusCycles => 6,
            HardwareEventType::StalledCyclesFrontend => 7,
            HardwareEventType::StalledCyclesBackend => 8,
            HardwareEventType::RefCPUCycles => 9,
        }
    }

    /// The number by which the kernel knows the event.
    #[verifier::when_used_as_spec(spec_config)]
    pub fn config(self) -> (r: u64)
        ensures
            r == self.spec_config(),
    {
        match self {
            HardwareEventType::CPUCycles => 0,
            HardwareEventType::Instructions => 1,
            HardwareEventType::CacheReferences => 2,
            HardwareEventType::CacheMisses => 3,
            HardwareEventType::BranchInstructions => 4,
            HardwareEventType::BranchMisses => 5,
            HardwareEventType::BusCycles => 6,
            HardwareEventType::StalledCyclesFrontend => 7,
            HardwareEventType::StalledCyclesBackend => 8,
            HardwareEventType::RefCPUCycles => 9,
        }
    }
}

/// The events that the kernel counts itself.
#[derive(Debug, Clone, Copy, PartialEq, Eq, Structural)]
pub enum SoftwareEventType {
    /// This reports the CPU clock, a high-resolution per-CPU timer.
    CpuClock,
    /// This reports a clock count specific to the task that is running.
    TaskClock,
    /// This reports the number of page faults.
    PageFaults,
    /// This counts context switches.
    ///
    /// Until Linux 2.6.34, these were all reported as user-space events, after that
    /// they are reported as happening in the kernel.
    ContextSwitches,
    /// This reports the number of times the process has migrated to a new CPU.
    CpuMigrations,
    /// This counts the number of minor page faults.  These did not require disk I/O to handle.
    PageFaultsMin,
    /// This counts the number of major page faults.  These required disk I/O to handle.
    PageFaultsMaj,
    /// This counts the number of alignment faults.
    ///
    /// These happen when unaligned memory accesses happen; the kernel
    /// can handle these but it reduces performance. This happens only on some architectures (never on x86).
    ///
    /// (Since Linux 2.6.33)
    AlignmentFaults,
    /// This counts the number of emulation faults.  The kernel sometimes traps on unimplemented  instructions  and
    /// emulates them for user space.  This can negatively impact performance.
    ///
    /// (Since Linux 2.6.33)
    EmulationFaults,
}

impl SoftwareEventType {
    /// The number by which the kernel knows the event.
    pub open spec fn spec_config(self) -> u64 {
        match self {
            SoftwareEventType::CpuClock => 0,
            SoftwareEventType::TaskClock => 1,
            SoftwareEventType::PageFaults => 2,
            SoftwareEventType::ContextSwitches => 3,
            SoftwareEventType::CpuMigrations => 4,
            SoftwareEventType::PageFaultsMin => 5,
            SoftwareEventType::PageFaultsMaj => 6,
            SoftwareEventType::AlignmentFaults => 7,
            SoftwareEventType::EmulationFaults => 8,
        }
    }

    /// The number by which the kernel knows the event.
    #[verifier::when_used_as_spec(spec_config)]
    pub fn config(self) -> (r: u64)
        ensures
            r == self.spec_config(),
    {
        match self {
            SoftwareEventType::CpuClock => 0,
            SoftwareEventType::TaskClock => 1,
            SoftwareEventType::PageFaults => 2,
            SoftwareEventType::ContextSwitches => 3,
            SoftwareEventType::CpuMigrations => 4,
            SoftwareEventType::PageFaultsMin => 5,
            SoftwareEventType::PageFaultsMaj => 6,
            SoftwareEventType::AlignmentFaults => 7,
            SoftwareEventType::EmulationFaults => 8,
        }
    }
}

/// The caches whose events can be counted.
#[derive(Debug, Clone, Copy, PartialEq, Eq, Structural)]
pub enum CacheId {
    /// For measuring Level 1 Data Cache
    L1D,
    /// For measuring Level 1 Instruction Cache
    L1I,
    /// For measuring Last-Level Cache
    LL,
    /// For measuring the Data TLB
    DTLB,
    /// For measuring the Instruction TLB
    ITLB,
    /// For measuring the branch prediction unit
    BPU,
    /// For measuring local memory accesses
    ///
    /// (Since Linux 3.0)
    NODE,
}

impl CacheId {
    /// The number by which the kernel knows the cache.
    pub open spec fn spec_code(self) -> u64 {
        match self {
            CacheId::L1D => 0,
            CacheId::L1I => 1,
            CacheId::LL => 2,
            CacheId::DTLB => 3,
            CacheId::ITLB => 4,
            CacheId::BPU => 5,
            CacheId::NODE => 6,
        }
    }

    /// The number by which the kernel knows the cache.
    #[verifier::when_used_as_spec(spec_code)]
    pub fn code(self) -> (r: u64)
        ensures
            r == self.spec_code(),
    {
        match self {
            CacheId::L1D => 0,
            CacheId::L1I => 1,
            CacheId::LL => 2,
            CacheId::DTLB => 3,
            CacheId::ITLB => 4,
            CacheId::BPU => 5,
            CacheId::NODE => 6,
        }
    }
}

/// The kinds of access to a cache.
#[derive(Debug, Clone, Copy, PartialEq, Eq, Structural)]
pub enum CacheOpId {
    /// For read accesses
    Read,
    /// For write accesses
    Write,
    /// For prefetch accesses
    Prefetch,
}

impl CacheOpId {
    /// The number by which the kernel knows the kind of access.
    pub open spec fn spec_code(self) -> u64 {
        match self {
            CacheOpId::Read => 0,
            CacheOpId::Write => 1,
            CacheOpId::Prefetch => 2,
        }
    }

    /// The number by which the kernel knows the kind of access.
    #[verifier::when_used_as_spec(spec_code)]
    pub fn code(self) -> (r: u64)
        ensures
            r == self.spec_code(),
    {
        match self {
            CacheOpId::Read => 0,
            CacheOpId::Write => 1,
            CacheOpId::Prefetch => 2,
        }
    }
}

/// The outcomes of an access to a cache.
#[derive(Debug, Clone, Copy, PartialEq, Eq, Structural)]
pub enum CacheOpResultId {
    /// To measure accesses.
    Access,
    /// To measure misses.
    Miss,
}

impl CacheOpResultId {
    /// The number by which the kernel knows the outcome.
    pub open spec fn spec_code(self) -> u64 {
        match self {
            CacheOpResultId::Access => 0,
            CacheOpResultId::Miss => 1,
        }
    }

    /// The number by which the kernel knows the outcome.
    #[verifier::when_used_as_spec(spec_code)]
    pub fn code(self) -> (r: u64)
        ensures
            r == self.spec_code(),
    {
        match self {
            CacheOpResultId::Access => 0,
            CacheOpResultId::Miss => 1,
        }
    }
}

/// One or two codes of a hardware event, as the tables of Intel events give them.
#[derive(Debug, Clone, Copy, PartialEq, Eq, Structural)]
pub enum Tuple {
    One(u8),
    Two(u8, u8),
}

/// What the description of an Intel hardware event says of how to program a
/// counter for it.
#[derive(Debug, Clone, Copy, PartialEq, Eq, Structural)]
pub struct IntelEventDescription {
    /// The event select code.
    pub event_code: Tuple,
    /// The unit mask.
    pub umask: Tuple,
    /// The counter mask: how many events must happen in a cycle to count it.
    pub counter_mask: u8,
    /// Count the rising edges of the condition instead of its cycles.
    pub edge_detect: bool,
    /// Count for all threads of the core.
    pub any_thread: bool,
    /// Invert the comparison with the counter mask.
    pub invert: bool,
}

impl IntelEventDescription {
    /// Whether a raw counter can be programmed for the event: its event code
    /// and its unit mask are single codes.
    pub open spec fn is_single(&self) -> bool {
        self.event_code is One && self.umask is One
    }

    /// The configuration word of a raw counter for the event: the event code
    /// in bits 0 to 7, the unit mask in bits 8 to 15, edge detect in bit 18,
    /// any thread in bit 21, invert in bit 23 and the counter mask from bit 24 on.
    pub open spec fn raw_config(&self) -> u64 {
        (self.event_code->One_0 as u64) | ((self.umask->One_0 as u64) << 8) | ((
        self.counter_mask as u64) << 24) | (if self.edge_detect {
            0x4_0000u64
        } else {
            0u64
        }) | (if self.any_thread {
            0x20_0000u64
        } else {
            0u64
        }) | (if self.invert {
            0x80_0000u64
        } else {
            0u64
        })
    }
}

impl PerfCounterBuilderLinux {
    /// The arguments of a counter before anything is asked of it: no group,
    /// the calling process, any CPU, no flags, and attributes that are all zero.
    pub open spec fn initial() -> PerfCounterBuilderLinux {
        PerfCounterBuilderLinux {
            group: -1isize,
            pid: 0,
            cpu: -1isize,
            flags: 0,
            attrs: EventAttr::zeroed(),
        }
    }

    /// The arguments for an event of the type `attr_type` with the configuration `config`.
    pub open spec fn for_event(attr_type: u32, config: u64) -> PerfCounterBuilderLinux {
        PerfCounterBuilderLinux {
            attrs: EventAttr { attr_type, config, ..EventAttr::zeroed() },
            ..PerfCounterBuilderLinux::initial()
        }
    }

    /// The same arguments, with the bits of `mask` added to the settings.
    pub open spec fn with_settings(self, mask: u64) -> PerfCounterBuilderLinux {
        PerfCounterBuilderLinux {
            attrs: EventAttr {
                settings: EventAttrFlags { bits: self.attrs.settings.bits | mask },
                ..self.attrs
            },
            ..self
        }
    }

    /// The same arguments, with the bits of `mask` added to the read format.
    pub open spec fn with_read_format(self, mask: u64) -> PerfCounterBuilderLinux {
        PerfCounterBuilderLinux {
            attrs: EventAttr {
                read_format: ReadFormatFlags { bits: self.attrs.read_format.bits | mask },
                ..self.attrs
            },
            ..self
        }
    }

    /// The same arguments, with the bits of `mask` added to the sample type.
    pub open spec fn with_sample_type(self, mask: u64) -> PerfCounterBuilderLinux {
        PerfCounterBuilderLinux {
            attrs: EventAttr {
                sample_type: SampleFormatFlags { bits: self.attrs.sample_type.bits | mask },
                ..self.attrs
            },
            ..self
        }
    }

    /// Instantiate a generic performance counter for hardware events as defined by the Linux interface.
    pub fn from_hardware_event(event: HardwareEventType) -> (pc: PerfCounterBuilderLinux)
        ensures
            pc == PerfCounterBuilderLinux::for_event(PERF_TYPE_HARDWARE, event.config()),
    {
        let mut pc: PerfCounterBuilderLinux = Default::default();
        pc.attrs.attr_type = PERF_TYPE_HARDWARE;
        pc.attrs.config = event.config();
        pc
    }

    /// Instantiate a generic performance counter for software events as defined by the Linux interface.
    pub fn from_software_event(event: SoftwareEventType) -> (pc: PerfCounterBuilderLinux)
        ensures
            pc == PerfCounterBuilderLinux::for_event(PERF_TYPE_SOFTWARE, event.config()),
    {
        let mut pc: PerfCounterBuilderLinux = Default::default();
        pc.attrs.attr_type = PERF_TYPE_SOFTWARE;
        pc.attrs.config = event.config();
        pc
    }

    /// Instantiate a generic performance counter for cache events as defined by the Linux interface.
    ///
    /// The configuration holds the cache in bits 0 to 7, the kind of access in
    /// bits 8 to 15 and the outcome in bits 16 to 23.
    pub fn from_cache_event(
        cache_id: CacheId,
        cache_op_id: CacheOpId,
        cache_op_result_id: CacheOpResultId,
    ) -> (pc: PerfCounterBuilderLinux)
        ensures
            pc == PerfCounterBuilderLinux::for_event(
                PERF_TYPE_HW_CACHE,
                cache_id.code() | (cache_op_id.code() << 8) | (cache_op_result_id.code() << 16),
            ),
    {
        let mut pc: PerfCounterBuilderLinux = Default::default();
        pc.attrs.attr_type = PERF_TYPE_HW_CACHE;
        pc.attrs.config = cache_id.code() | (cache_op_id.code() << 8) | (cache_op_result_id.code()
            << 16);
        pc
    }

    /// Instantiate a H/W performance counter using a hardware event as described in Intels SDM.
    ///
    /// Events with two event codes or two unit masks cannot be programmed this way.
    pub fn from_intel_event_description(counter: &IntelEventDescription) -> (pc:
        PerfCounterBuilderLinux)
        requires
            counter.is_single(),
        ensures
            pc == PerfCounterBuilderLinux::for_event(PERF_TYPE_RAW, counter.raw_config()),
    {
        let mut pc: PerfCounterBuilderLinux = Default::default();
        let code: u8 = match counter.event_code {
            Tuple::One(code) => code,
            Tuple::Two(code, _) => code,
        };
        let umask: u8 = match counter.umask {
            Tuple::One(code) => code,
            Tuple::Two(code, _) => code,
        };
        let edge: u64 = if counter.edge_detect {
            0x4_0000
        } else {
            0
        };
        let any: u64 = if counter.any_thread {
            0x20_0000
        } else {
            0
        };
        let invert: u64 = if counter.invert {
            0x80_0000
        } else {
            0
        };
        let config: u64 = (code as u64) | ((umask as u64) << 8) | ((counter.counter_mask as u64)
            << 24) | edge | any | invert;
        pc.attrs.attr_type = PERF_TYPE_RAW;
        pc.attrs.config = config;
        pc
    }

    /// Set counter group.
    pub fn set_group<'a>(&'a mut self, group_fd: isize) -> (r: &'a mut PerfCounterBuilderLinux)
        ensures
            *r == (PerfCounterBuilderLinux { group: group_fd, ..*old(self) }),
            *final(self) == *final(r),
    {
        self.group = group_fd;
        self
    }

    /// Sets PERF_FLAG_FD_OUTPUT
    ///
    /// This flag re-routes the output from an event to the group leader.
    pub fn set_flag_fd_output<'a>(&'a mut self) -> (r: &'a mut PerfCounterBuilderLinux)
        ensures
            *r == (PerfCounterBuilderLinux {
                flags: old(self).flags | PERF_FLAG_FD_OUTPUT,
                ..*old(self)
            }),
            *final(self) == *final(r),
    {
        self.flags = self.flags | PERF_FLAG_FD_OUTPUT;
        self
    }

    /// Sets PERF_FLAG_PID_CGROUP
    ///
    /// This flag activates per-container system-wide monitoring.  A
    /// container is an abstraction that isolates a set of resources for
    /// finer grain control (CPUs, memory, etc.).   In  this  mode,  the
    /// event  is  measured  only if the thread running on the monitored
    /// CPU belongs to the designated container (cgroup).
    pub fn set_flag_pid_cgroup<'a>(&'a mut self) -> (r: &'a mut PerfCounterBuilderLinux)
        ensures
            *r == (PerfCounterBuilderLinux {
                flags: old(self).flags | PERF_FLAG_PID_CGROUP,
                ..*old(self)
            }),
            *final(self) == *final(r),
    {
        self.flags = self.flags | PERF_FLAG_PID_CGROUP;
        self
    }

    /// Add a sample period.
    pub fn set_sample_period<'a>(&'a mut self, period: u64) -> (r: &'a mut PerfCounterBuilderLinux)
        ensures
            *r == (PerfCounterBuilderLinux {
                attrs: EventAttr { sample_period_freq: period, ..old(self).attrs },
                ..*old(self)
            }),
            *final(self) == *final(r),
    {
        self.attrs.sample_period_freq = period;
        self
    }

    /// Add a sample frequency.
    pub fn set_sample_frequency<'a>(&'a mut self, frequency: u64) -> (r:
        &'a mut PerfCounterBuilderLinux)
        ensures
            *r == (PerfCounterBuilderLinux {
                attrs: EventAttr { sample_period_freq: frequency, ..old(self).attrs },
                ..*old(self)
            }).with_settings(EventAttrFlags::EVENT_ATTR_FREQ),
            *final(self) == *final(r),
    {
        self.attrs.sample_period_freq = frequency;
        self.attrs.settings.insert(EventAttrFlags::EVENT_ATTR_FREQ);
        self
    }

    /// The counter has  a  sampling  interrupt happen when we cross the wakeup_watermark
    /// boundary.  Otherwise interrupts happen after wakeup_events samples.
    pub fn enable_watermark<'a>(&'a mut self, watermark_events: u32) -> (r:
        &'a mut PerfCounterBuilderLinux)
        ensures
            *r == (PerfCounterBuilderLinux {
                attrs: EventAttr { wakeup_events_watermark: watermark_events, ..old(self).attrs },
                ..*old(self)
            }).with_settings(EventAttrFlags::EVENT_ATTR_WATERMARK),
            *final(self) == *final(r),
    {
        self.attrs.settings.insert(EventAttrFlags::EVENT_ATTR_WATERMARK);
        self.attrs.wakeup_events_watermark = watermark_events;
        self
    }

    /// The counter starts out disabled.
    pub fn disable<'a>(&'a mut self) -> (r: &'a mut PerfCounterBuilderLinux)
        ensures
            *r == old(self).with_settings(EventAttrFlags::EVENT_ATTR_DISABLED),
            *final(self) == *final(r),
    {
        self.attrs.settings.insert(EventAttrFlags::EVENT_ATTR_DISABLED);
        self
    }

    /// This counter should count events of child tasks as well as the task specified.
    pub fn inherit<'a>(&'a mut self) -> (r: &'a mut PerfCounterBuilderLinux)
        ensures
            *r == old(self).with_settings(EventAttrFlags::EVENT_ATTR_INHERIT),
            *final(self) == *final(r),
    {
        self.attrs.settings.insert(EventAttrFlags::EVENT_ATTR_INHERIT);
        self
    }

    /// The pinned bit specifies that the counter should always be on the CPU if at all possible.
    /// It applies only to  hardware counters and only to group leaders.
    pub fn pinned<'a>(&'a mut self) -> (r: &'a mut PerfCounterBuilderLinux)
        ensures
            *r == old(self).with_settings(EventAttrFlags::EVENT_ATTR_PINNED),
            *final(self) == *final(r),
    {
        self.attrs.settings.insert(EventAttrFlags::EVENT_ATTR_PINNED);
        self
    }

    /// The counter is exclusive i.e., when this counter's group is on the CPU,
    /// it should be the only group using the CPU's counters.
    pub fn exclusive<'a>(&'a mut self) -> (r: &'a mut PerfCounterBuilderLinux)
        ensures
            *r == old(self).with_settings(EventAttrFlags::EVENT_ATTR_EXCLUSIVE),
            *final(self) == *final(r),
    {
        self.attrs.settings.insert(EventAttrFlags::EVENT_ATTR_EXCLUSIVE);
        self
    }

    /// The counter excludes events that happen in user space.
    pub fn exclude_user<'a>(&'a mut self) -> (r: &'a mut PerfCounterBuilderLinux)
        ensures
            *r == old(self).with_settings(EventAttrFlags::EVENT_ATTR_EXCLUDE_USER),
            *final(self) == *final(r),
    {
        self.attrs.settings.insert(EventAttrFlags::EVENT_ATTR_EXCLUDE_USER);
        self
    }

    /// The counter excludes events that happen in the kernel.
    pub fn exclude_kernel<'a>(&'a mut self) -> (r: &'a mut PerfCounterBuilderLinux)
        ensures
            *r == old(self).with_settings(EventAttrFlags::EVENT_ATTR_EXCLUDE_KERNEL),
            *final(self) == *final(r),
    {
        self.attrs.settings.insert(EventAttrFlags::EVENT_ATTR_EXCLUDE_KERNEL);
        self
    }

    /// The counter excludes events that happen in the hypervisor.
    pub fn exclude_hv<'a>(&'a mut self) -> (r: &'a mut PerfCounterBuilderLinux)
        ensures
            *r == old(self).with_settings(EventAttrFlags::EVENT_ATTR_EXCLUDE_HV),
            *final(self) == *final(r),
    {
        self.attrs.settings.insert(EventAttrFlags::EVENT_ATTR_EXCLUDE_HV);
        self
    }

    /// The counter doesn't count when the CPU is idle.
    pub fn exclude_idle<'a>(&'a mut self) -> (r: &'a mut PerfCounterBuilderLinux)
        ensures
            *r == old(self).with_settings(EventAttrFlags::EVENT_ATTR_EXCLUDE_IDLE),
            *final(self) == *final(r),
    {
        self.attrs.settings.insert(EventAttrFlags::EVENT_ATTR_EXCLUDE_IDLE);
        self
    }

    /// Enables recording of exec mmap events.
    pub fn enable_mmap<'a>(&'a mut self) -> (r: &'a mut PerfCounterBuilderLinux)
        ensures
            *r == old(self).with_settings(EventAttrFlags::EVENT_ATTR_MMAP),
            *final(self) == *final(r),
    {
        self.attrs.settings.insert(EventAttrFlags::EVENT_ATTR_MMAP);
        self
    }

    /// The counter will save event counts on context switch for inherited tasks.
    /// This is meaningful only if the inherit field is set.
    pub fn inherit_stat<'a>(&'a mut self) -> (r: &'a mut PerfCounterBuilderLinux)
        ensures
            *r == old(self).with_settings(EventAttrFlags::EVENT_ATTR_INHERIT_STAT),
            *final(self) == *final(r),
    {
        self.attrs.settings.insert(EventAttrFlags::EVENT_ATTR_INHERIT_STAT);
        self
    }

    /// The counter is automatically enabled after a call to exec.
    pub fn enable_on_exec<'a>(&'a mut self) -> (r: &'a mut PerfCounterBuilderLinux)
        ensures
            *r == old(self).with_settings(EventAttrFlags::EVENT_ATTR_ENABLE_ON_EXEC),
            *final(self) == *final(r),
    {
        self.attrs.settings.insert(EventAttrFlags::EVENT_ATTR_ENABLE_ON_EXEC);
        self
    }

    /// fork/exit notifications are included in the ring buffer.
    pub fn enable_task_notification<'a>(&'a mut self) -> (r: &'a mut PerfCounterBuilderLinux)
        ensures
            *r == old(self).with_settings(EventAttrFlags::EVENT_ATTR_TASK),
            *final(self) == *final(r),
    {
        self.attrs.settings.insert(EventAttrFlags::EVENT_ATTR_TASK);
        self
    }

    /// Sampled IP counter can have arbitrary skid.
    pub fn set_ip_sample_arbitrary_skid<'a>(&'a mut self) -> (r: &'a mut PerfCounterBuilderLinux)
        ensures
            *r == old(self).with_settings(EventAttrFlags::EVENT_ATTR_SAMPLE_IP_ARBITRARY_SKID),
            *final(self) == *final(r),
    {
        self.attrs.settings.insert(EventAttrFlags::EVENT_ATTR_SAMPLE_IP_ARBITRARY_SKID);
        self
    }

    /// Sampled IP counter requested to have constant skid.
    pub fn set_ip_sample_constant_skid<'a>(&'a mut self) -> (r: &'a mut PerfCounterBuilderLinux)
        ensures
            *r == old(self).with_settings(EventAttrFlags::EVENT_ATTR_SAMPLE_IP_CONSTANT_SKID),
            *final(self) == *final(r),
    {
        self.attrs.settings.insert(EventAttrFlags::EVENT_ATTR_SAMPLE_IP_CONSTANT_SKID);
        self
    }

    /// Sampled IP counter requested to have 0 skid.
    pub fn set_ip_sample_req_zero_skid<'a>(&'a mut self) -> (r: &'a mut PerfCounterBuilderLinux)
        ensures
            *r == old(self).with_settings(EventAttrFlags::EVENT_ATTR_SAMPLE_IP_REQ_ZERO_SKID),
            *final(self) == *final(r),
    {
        self.attrs.settings.insert(EventAttrFlags::EVENT_ATTR_SAMPLE_IP_REQ_ZERO_SKID);
        self
    }

    /// The counterpart of enable_mmap, but enables including data mmap events in the ring-buffer.
    pub fn enable_mmap_data<'a>(&'a mut self) -> (r: &'a mut PerfCounterBuilderLinux)
        ensures
            *r == old(self).with_settings(EventAttrFlags::EVENT_ATTR_MMAP_DATA),
            *final(self) == *final(r),
    {
        self.attrs.settings.insert(EventAttrFlags::EVENT_ATTR_MMAP_DATA);
        self
    }

    /// Sampled IP counter must have 0 skid.
    pub fn set_ip_sample_zero_skid<'a>(&'a mut self) -> (r: &'a mut PerfCounterBuilderLinux)
        ensures
            *r == old(self).with_settings(EventAttrFlags::EVENT_ATTR_SAMPLE_IP_ZERO_SKID),
            *final(self) == *final(r),
    {
        self.attrs.settings.insert(EventAttrFlags::EVENT_ATTR_SAMPLE_IP_ZERO_SKID);
        self
    }

    /// Adds the 64-bit time_enabled field.  This can be used to calculate estimated totals if the PMU is overcommitted
    /// and multiplexing is happening.
    pub fn enable_read_format_time_enabled<'a>(&'a mut self) -> (r: &'a mut PerfCounterBuilderLinux)
        ensures
            *r == old(self).with_read_format(ReadFormatFlags::FORMAT_TOTAL_TIME_ENABLED),
            *final(self) == *final(r),
    {
        self.attrs.read_format.insert(ReadFormatFlags::FORMAT_TOTAL_TIME_ENABLED);
        self
    }

    /// Adds the 64-bit time_running field.  This can be used to calculate estimated totals if the PMU is  overcommitted
    /// and  multiplexing is happening.
    pub fn enable_read_format_time_running<'a>(&'a mut self) -> (r: &'a mut PerfCounterBuilderLinux)
        ensures
            *r == old(self).with_read_format(ReadFormatFlags::FORMAT_TOTAL_TIME_RUNNING),
            *final(self) == *final(r),
    {
        self.attrs.read_format.insert(ReadFormatFlags::FORMAT_TOTAL_TIME_RUNNING);
        self
    }

    /// Adds a 64-bit unique value that corresponds to the event group.
    pub fn enable_read_format_id<'a>(&'a mut self) -> (r: &'a mut PerfCounterBuilderLinux)
        ensures
            *r == old(self).with_read_format(ReadFormatFlags::FORMAT_ID),
            *final(self) == *final(r),
    {
        self.attrs.read_format.insert(ReadFormatFlags::FORMAT_ID);
        self
    }

    /// Allows all counter values in an event group to be read with one read.
    pub fn enable_read_format_group<'a>(&'a mut self) -> (r: &'a mut PerfCounterBuilderLinux)
        ensures
            *r == old(self).with_read_format(ReadFormatFlags::FORMAT_GROUP),
            *final(self) == *final(r),
    {
        self.attrs.read_format.insert(ReadFormatFlags::FORMAT_GROUP);
        self
    }

    /// Samples hold the instruction pointer.
    pub fn enable_sampling_ip<'a>(&'a mut self) -> (r: &'a PerfCounterBuilderLinux)
        ensures
            *r == old(self).with_sample_type(SampleFormatFlags::PERF_SAMPLE_IP),
            *final(self) == *r,
    {
        self.attrs.sample_type.insert(SampleFormatFlags::PERF_SAMPLE_IP);
        self
    }

    /// Samples hold the process and the thread.
    pub fn enable_sampling_tid<'a>(&'a mut self) -> (r: &'a PerfCounterBuilderLinux)
        ensures
            *r == old(self).with_sample_type(SampleFormatFlags::PERF_SAMPLE_TID),
            *final(self) == *r,
    {
        self.attrs.sample_type.insert(SampleFormatFlags::PERF_SAMPLE_TID);
        self
    }

    /// Samples hold a timestamp.
    pub fn enable_sampling_time<'a>(&'a mut self) -> (r: &'a PerfCounterBuilderLinux)
        ensures
            *r == old(self).with_sample_type(SampleFormatFlags::PERF_SAMPLE_TIME),
            *final(self) == *r,
    {
        self.attrs.sample_type.insert(SampleFormatFlags::PERF_SAMPLE_TIME);
        self
    }

    /// Samples hold an address, if applicable.
    pub fn enable_sampling_addr<'a>(&'a mut self) -> (r: &'a PerfCounterBuilderLinux)
        ensures
            *r == old(self).with_sample_type(SampleFormatFlags::PERF_SAMPLE_ADDR),
            *final(self) == *r,
    {
        self.attrs.sample_type.insert(SampleFormatFlags::PERF_SAMPLE_ADDR);
        self
    }

    /// Samples hold the values of all counters of the group.
    pub fn enable_sampling_read<'a>(&'a mut self) -> (r: &'a PerfCounterBuilderLinux)
        ensures
            *r == old(self).with_sample_type(SampleFormatFlags::PERF_SAMPLE_READ),
            *final(self) == *r,
    {
        self.attrs.sample_type.insert(SampleFormatFlags::PERF_SAMPLE_READ);
        self
    }

    /// Samples hold the callchain.
    pub fn enable_sampling_callchain<'a>(&'a mut self) -> (r: &'a PerfCounterBuilderLinux)
        ensures
            *r == old(self).with_sample_type(SampleFormatFlags::PERF_SAMPLE_CALLCHAIN),
            *final(self) == *r,
    {
        self.attrs.sample_type.insert(SampleFormatFlags::PERF_SAMPLE_CALLCHAIN);
        self
    }

    /// Samples hold the id of the group leader.
    pub fn enable_sampling_sample_id<'a>(&'a mut self) -> (r: &'a PerfCounterBuilderLinux)
        ensures
            *r == old(self).with_sample_type(SampleFormatFlags::PERF_SAMPLE_ID),
            *final(self) == *r,
    {
        self.attrs.sample_type.insert(SampleFormatFlags::PERF_SAMPLE_ID);
        self
    }

    /// Samples hold the CPU number.
    pub fn enable_sampling_cpu<'a>(&'a mut self) -> (r: &'a PerfCounterBuilderLinux)
        ensures
            *r == old(self).with_sample_type(SampleFormatFlags::PERF_SAMPLE_CPU),
            *final(self) == *r,
    {
        self.attrs.sample_type.insert(SampleFormatFlags::PERF_SAMPLE_CPU);
        self
    }

    /// Samples hold the current sampling period.
    pub fn enable_sampling_period<'a>(&'a mut self) -> (r: &'a PerfCounterBuilderLinux)
        ensures
            *r == old(self).with_sample_type(SampleFormatFlags::PERF_SAMPLE_PERIOD),
            *final(self) == *r,
    {
        self.attrs.sample_type.insert(SampleFormatFlags::PERF_SAMPLE_PERIOD);
        self
    }

    /// Samples hold the id of the opened event.
    pub fn enable_sampling_stream_id<'a>(&'a mut self) -> (r: &'a PerfCounterBuilderLinux)
        ensures
            *r == old(self).with_sample_type(SampleFormatFlags::PERF_SAMPLE_STREAM_ID),
            *final(self) == *r,
    {
        self.attrs.sample_type.insert(SampleFormatFlags::PERF_SAMPLE_STREAM_ID);
        self
    }

    /// Samples hold additional raw data, if applicable.
    pub fn enable_sampling_raw<'a>(&'a mut self) -> (r: &'a PerfCounterBuilderLinux)
        ensures
            *r == old(self).with_sample_type(SampleFormatFlags::PERF_SAMPLE_RAW),
            *final(self) == *r,
    {
        self.attrs.sample_type.insert(SampleFormatFlags::PERF_SAMPLE_RAW);
        self
    }

    /// Samples hold a record of recent branches.
    pub fn enable_sampling_branch_stack<'a>(&'a mut self) -> (r: &'a PerfCounterBuilderLinux)
        ensures
            *r == old(self).with_sample_type(SampleFormatFlags::PERF_SAMPLE_BRANCH_STACK),
            *final(self) == *r,
    {
        self.attrs.sample_type.insert(SampleFormatFlags::PERF_SAMPLE_BRANCH_STACK);
        self
    }

    /// Samples hold the user-level register state.
    pub fn enable_sampling_regs_user<'a>(&'a mut self) -> (r: &'a PerfCounterBuilderLinux)
        ensures
            *r == old(self).with_sample_type(SampleFormatFlags::PERF_SAMPLE_REGS_USER),
            *final(self) == *r,
    {
        self.attrs.sample_type.insert(SampleFormatFlags::PERF_SAMPLE_REGS_USER);
        self
    }

    /// Samples hold the user-level stack.
    pub fn enable_sampling_stack_user<'a>(&'a mut self) -> (r: &'a PerfCounterBuilderLinux)
        ensures
            *r == old(self).with_sample_type(SampleFormatFlags::PERF_SAMPLE_STACK_USER),
            *final(self) == *r,
    {
        self.attrs.sample_type.insert(SampleFormatFlags::PERF_SAMPLE_STACK_USER);
        self
    }

    /// Samples hold a weight that says how costly the event was.
    pub fn enable_sampling_sample_weight<'a>(&'a mut self) -> (r: &'a PerfCounterBuilderLinux)
        ensures
            *r == old(self).with_sample_type(SampleFormatFlags::PERF_SAMPLE_WEIGHT),
            *final(self) == *r,
    {
        self.attrs.sample_type.insert(SampleFormatFlags::PERF_SAMPLE_WEIGHT);
        self
    }

    /// Samples hold the level of the memory hierarchy that the data came from.
    pub fn enable_sampling_data_src<'a>(&'a mut self) -> (r: &'a PerfCounterBuilderLinux)
        ensures
            *r == old(self).with_sample_type(SampleFormatFlags::PERF_SAMPLE_DATA_SRC),
            *final(self) == *r,
    {
        self.attrs.sample_type.insert(SampleFormatFlags::PERF_SAMPLE_DATA_SRC);
        self
    }

    /// Samples start with the id of the group leader.
    pub fn enable_sampling_identifier<'a>(&'a mut self) -> (r: &'a PerfCounterBuilderLinux)
        ensures
            *r == old(self).with_sample_type(SampleFormatFlags::PERF_SAMPLE_IDENTIFIER),
            *final(self) == *r,
    {
        self.attrs.sample_type.insert(SampleFormatFlags::PERF_SAMPLE_IDENTIFIER);
        self
    }

    /// Samples hold the reasons for transactional memory aborts.
    pub fn enable_sampling_transaction<'a>(&'a mut self) -> (r: &'a PerfCounterBuilderLinux)
        ensures
            *r == old(self).with_sample_type(SampleFormatFlags::PERF_SAMPLE_TRANSACTION),
            *final(self) == *r,
    {
        self.attrs.sample_type.insert(SampleFormatFlags::PERF_SAMPLE_TRANSACTION);
        self
    }

    /// Measure for all PIDs on the core.
    pub fn for_all_pids<'a>(&'a mut self) -> (r: &'a mut PerfCounterBuilderLinux)
        ensures
            *r == (PerfCounterBuilderLinux { pid: -1i32, ..*old(self) }),
            *final(self) == *final(r),
    {
        self.pid = -1;
        self
    }

    /// Measure for a specific PID.
    pub fn for_pid<'a>(&'a mut self, pid: i32) -> (r: &'a mut PerfCounterBuilderLinux)
        ensures
            *r == (PerfCounterBuilderLinux { pid: pid, ..*old(self) }),
            *final(self) == *final(r),
    {
        self.pid = pid;
        self
    }

    /// Pin counter to CPU.
    pub fn on_cpu<'a>(&'a mut self, cpu: isize) -> (r: &'a mut PerfCounterBuilderLinux)
        ensures
            *r == (PerfCounterBuilderLinux { cpu: cpu, ..*old(self) }),
            *final(self) == *final(r),
    {
        self.cpu = cpu;
        self
    }

    /// Measure on all CPUs.
    pub fn on_all_cpus<'a>(&'a mut self) -> (r: &'a mut PerfCounterBuilderLinux)
        ensures
            *r == (PerfCounterBuilderLinux { cpu: -1isize, ..*old(self) }),
            *final(self) == *final(r),
    {
        self.cpu = -1;
        self
    }
}

/// What a read of the counter's file descriptor returns, for a single
/// counter whose read format asks for both times and for the id.
#[derive(Debug, Clone, Copy, PartialEq, Eq, Structural)]
pub struct FileReadFormat {
    /// The value of the event
    pub value: u64,
    /// if PERF_FORMAT_TOTAL_TIME_ENABLED
    pub time_enabled: u64,
    /// if PERF_FORMAT_TOTAL_TIME_RUNNING
    pub time_running: u64,
    /// if PERF_FORMAT_ID
    pub id: u64,
}

impl Default for FileReadFormat {
    fn default() -> (r: FileReadFormat)
        ensures
            r == (FileReadFormat { value: 0, time_enabled: 0, time_running: 0, id: 0 }),
    {
        FileReadFormat { value: 0, time_enabled: 0, time_running: 0, id: 0 }
    }
}

/// What the contract of a decoder of the ring buffer says of its result `r`
/// on the bytes `s`: it fails exactly where fewer than `n` bytes are there,
/// and else returns a value for which `ok` holds.
pub open spec fn decodes_from<T>(
    r: Result<T, PerfError>,
    s: Seq<u8>,
    n: int,
    ok: spec_fn(T) -> bool,
) -> bool {
    match r {
        Ok(v) => s.len() >= n && ok(v),
        Err(e) => fixed_len(s, n) == Err::<int, PerfError>(e),
    }
}

/// The text before the first NUL among the bytes from `at` on.
fn text_at(bytes: &[u8], at: usize) -> (text: String)
    requires
        at <= bytes@.len(),
    ensures
        text@ == lossy_text(until_nul(bytes@.skip(at as int))),
{
    let tail = slice_subrange(bytes, at, bytes.len());
    let end = find_nul(tail);
    text_from_bytes(slice_subrange(tail, 0, end))
}

impl FileReadFormat {
    /// The four `u64` in the 32 bytes from `at` on.
    pub open spec fn at(s: Seq<u8>, at: int) -> FileReadFormat {
        FileReadFormat {
            value: le_u64(s, at),
            time_enabled: le_u64(s, at + 8),
            time_running: le_u64(s, at + 16),
            id: le_u64(s, at + 24),
        }
    }

    /// Decodes what a read of the counter's file descriptor returned.
    pub fn from_bytes(bytes: &[u8]) -> (r: Result<FileReadFormat, PerfError>)
        ensures
            decodes_from(r, bytes@, 32, |v: FileReadFormat| v == FileReadFormat::at(bytes@, 0)),
    {
        need(bytes, 32)?;
        Ok(
            FileReadFormat {
                value: u64_at(bytes, 0),
                time_enabled: u64_at(bytes, 8),
                time_running: u64_at(bytes, 16),
                id: u64_at(bytes, 24),
            },
        )
    }
}

/// The first page of the memory that is shared with the kernel for sampling.
/// Behind it lies the ring buffer of the records.
#[derive(Debug, Clone, Copy)]
pub struct MMAPPage {
    /// version number of this structure
    pub version: u32,
    /// lowest version this is compat with
    pub compat_version: u32,
    /// seqlock for synchronization
    pub lock: u32,
    /// hardware counter identifier
    pub index: u32,
    /// add to hardware counter value
    pub offset: i64,
    /// time event active
    pub time_enabled: u64,
    /// time event on CPU
    pub time_running: u64,
    pub capabilities: u64,
    pub pmc_width: u16,
    pub time_shift: u16,
    pub time_mult: u32,
    pub time_offset: u64,
    /// Pad to 1k
    pub reserved: [u64; 120],
    /// head in the data section
    pub data_head: u64,
    /// user-space written tail
    pub data_tail: u64,
}

impl MMAPPage {
    /// Where in a ring buffer of `events_size` bytes the next record starts,
    /// if the kernel has written one that was not read yet.
    pub open spec fn spec_next_offset(&self, events_size: usize) -> Option<usize> {
        if self.data_tail < self.data_head && events_size > 0 {
            Some((self.data_tail % (events_size as u64)) as usize)
        } else {
            None
        }
    }

    /// Where in a ring buffer of `events_size` bytes the next record starts,
    /// if the kernel has written one that was not read yet.
    #[verifier::when_used_as_spec(spec_next_offset)]
    pub fn next_offset(&self, events_size: usize) -> (r: Option<usize>)
        ensures
            r == self.spec_next_offset(events_size),
            r matches Some(offset) ==> offset < events_size,
    {
        if self.data_tail < self.data_head && events_size > 0 {
            Some((self.data_tail % (events_size as u64)) as usize)
        } else {
            None
        }
    }
}

/// The eight bytes that every record of the ring buffer starts with.
#[derive(Debug, Clone, Copy, PartialEq, Eq, Structural)]
pub struct EventHeader {
    pub event_type: u32,
    pub misc: u16,
    pub size: u16,
}

impl Default for EventHeader {
    fn default() -> (r: EventHeader)
        ensures
            r == (EventHeader { event_type: 0, misc: 0, size: 0 }),
    {
        EventHeader { event_type: 0, misc: 0, size: 0 }
    }
}

impl EventHeader {
    /// The header in the eight bytes that `s` starts with.
    pub open spec fn of(s: Seq<u8>) -> EventHeader {
        EventHeader { event_type: le_u32(s, 0), misc: le_u16(s, 4), size: le_u16(s, 6) }
    }

    /// Decodes the header that a record starts with.
    pub fn from_bytes(bytes: &[u8]) -> (r: Result<EventHeader, PerfError>)
        ensures
            decodes_from(r, bytes@, 8, |v: EventHeader| v == EventHeader::of(bytes@)),
    {
        need(bytes, 8)?;
        Ok(
            EventHeader {
                event_type: u32_at(bytes, 0),
                misc: u16_at(bytes, 4),
                size: u16_at(bytes, 6),
            },
        )
    }
}

/// The MMAP events record the PROT_EXEC mappings so that we can correlate user-space IPs to code.
#[derive(Debug, Clone, PartialEq, Eq)]
pub struct MMAPRecord {
    pub header: EventHeader,
    pub pid: u32,
    pub tid: u32,
    pub addr: u64,
    pub len: u64,
    pub pgoff: u64,
    pub filename: String,
}

impl MMAPRecord {
    /// Whether this is the record that the bytes `s` hold. The file name
    /// starts behind the 40 bytes of header and numbers, and ends at its first NUL.
    pub open spec fn decodes(&self, s: Seq<u8>) -> bool {
        &&& self.header == EventHeader::of(s)
        &&& self.pid == le_u32(s, 8)
        &&& self.tid == le_u32(s, 12)
        &&& self.addr == le_u64(s, 16)
        &&& self.len == le_u64(s, 24)
        &&& self.pgoff == le_u64(s, 32)
        &&& self.filename@ == lossy_text(until_nul(s.skip(40)))
    }

    /// Decodes an mmap record of the ring buffer, header included.
    pub fn from_bytes(bytes: &[u8]) -> (r: Result<MMAPRecord, PerfError>)
        ensures
            decodes_from(r, bytes@, 40, |v: MMAPRecord| v.decodes(bytes@)),
    {
        need(bytes, 40)?;
        Ok(
            MMAPRecord {
                header: EventHeader {
                    event_type: u32_at(bytes, 0),
                    misc: u16_at(bytes, 4),
                    size: u16_at(bytes, 6),
                },
                pid: u32_at(bytes, 8),
                tid: u32_at(bytes, 12),
                addr: u64_at(bytes, 16),
                len: u64_at(bytes, 24),
                pgoff: u64_at(bytes, 32),
                filename: text_at(bytes, 40),
            },
        )
    }
}

/// This record indicates when events are lost.
#[derive(Debug, Clone, Copy, PartialEq, Eq, Structural)]
pub struct LostRecord {
    pub header: EventHeader,
    /// Unique event ID of the samples that were lost.
    pub id: u64,
    /// The number of events that were lost.
    pub lost: u64,
}

impl LostRecord {
    /// The record that the 24 bytes at the start of `s` hold.
    pub open spec fn of(s: Seq<u8>) -> LostRecord {
        LostRecord { header: EventHeader::of(s), id: le_u64(s, 8), lost: le_u64(s, 16) }
    }

    /// Decodes a lost record of the ring buffer, header included.
    pub fn from_bytes(bytes: &[u8]) -> (r: Result<LostRecord, PerfError>)
        ensures
            decodes_from(r, bytes@, 24, |v: LostRecord| v == LostRecord::of(bytes@)),
    {
        need(bytes, 24)?;
        Ok(
            LostRecord {
                header: EventHeader {
                    event_type: u32_at(bytes, 0),
                    misc: u16_at(bytes, 4),
                    size: u16_at(bytes, 6),
                },
                id: u64_at(bytes, 8),
                lost: u64_at(bytes, 16),
            },
        )
    }
}

/// This record indicates a change in the process name.
#[derive(Debug, Clone, PartialEq, Eq)]
pub struct CommRecord {
    pub header: EventHeader,
    pub pid: u32,
    pub tid: u32,
    pub comm: String,
}

impl CommRecord {
    /// Whether this is the record that the bytes `s` hold. The name starts
    /// behind the 16 bytes of header and numbers, and ends at its first NUL.
    pub open spec fn decodes(&self, s: Seq<u8>) -> bool {
        &&& self.header == EventHeader::of(s)
        &&& self.pid == le_u32(s, 8)
        &&& self.tid == le_u32(s, 12)
        &&& self.comm@ == lossy_text(until_nul(s.skip(16)))
    }

    /// Decodes a comm record of the ring buffer, header included.
    pub fn from_bytes(bytes: &[u8]) -> (r: Result<CommRecord, PerfError>)
        ensures
            decodes_from(r, bytes@, 16, |v: CommRecord| v.decodes(bytes@)),
    {
        need(bytes, 16)?;
        Ok(
            CommRecord {
                header: EventHeader {
                    event_type: u32_at(bytes, 0),
                    misc: u16_at(bytes, 4),
                    size: u16_at(bytes, 6),
                },
                pid: u32_at(bytes, 8),
                tid: u32_at(bytes, 12),
                comm: text_at(bytes, 16),
            },
        )
    }
}

/// This record indicates a process exit event.
#[derive(Debug, Clone, Copy, PartialEq, Eq, Structural)]
pub struct ExitRecord {
    pub header: EventHeader,
    pub pid: u32,
    pub ppid: u32,
    pub tid: u32,
    pub ptid: u32,
    pub time: u64,
}

impl ExitRecord {
    /// The record that the 32 bytes at the start of `s` hold.
    pub open spec fn of(s: Seq<u8>) -> ExitRecord {
        ExitRecord {
            header: EventHeader::of(s),
            pid: le_u32(s, 8),
            ppid: le_u32(s, 12),
            tid: le_u32(s, 16),
            ptid: le_u32(s, 20),
            time: le_u64(s, 24),
        }
    }

    /// Decodes an exit record of the ring buffer, header included.
    pub fn from_bytes(bytes: &[u8]) -> (r: Result<ExitRecord, PerfError>)
        ensures
            decodes_from(r, bytes@, 32, |v: ExitRecord| v == ExitRecord::of(bytes@)),
    {
        need(bytes, 32)?;
        Ok(
            ExitRecord {
                header: EventHeader {
                    event_type: u32_at(bytes, 0),
                    misc: u16_at(bytes, 4),
                    size: u16_at(bytes, 6),
                },
                pid: u32_at(bytes, 8),
                ppid: u32_at(bytes, 12),
                tid: u32_at(bytes, 16),
                ptid: u32_at(bytes, 20),
                time: u64_at(bytes, 24),
            },
        )
    }
}

/// This record indicates a throttle/unthrottle event.
#[derive(Debug, Clone, Copy, PartialEq, Eq, Structural)]
pub struct ThrottleRecord {
    pub header: EventHeader,
    pub time: u64,
    pub id: u64,
    pub stream_id: u64,
}

impl ThrottleRecord {
    /// The record that the 32 bytes at the start of `s` hold.
    pub open spec fn of(s: Seq<u8>) -> ThrottleRecord {
        ThrottleRecord {
            header: EventHeader::of(s),
            time: le_u64(s, 8),
            id: le_u64(s, 16),
            stream_id: le_u64(s, 24),
        }
    }

    /// Decodes a throttle or unthrottle record of the ring buffer, header included.
    pub fn from_bytes(bytes: &[u8]) -> (r: Result<ThrottleRecord, PerfError>)
        ensures
            decodes_from(r, bytes@, 32, |v: ThrottleRecord| v == ThrottleRecord::of(bytes@)),
    {
        need(bytes, 32)?;
        Ok(
            ThrottleRecord {
                header: EventHeader {
                    event_type: u32_at(bytes, 0),
                    misc: u16_at(bytes, 4),
                    size: u16_at(bytes, 6),
                },
                time: u64_at(bytes, 8),
                id: u64_at(bytes, 16),
                stream_id: u64_at(bytes, 24),
            },
        )
    }
}

/// This record indicates a fork event.
#[derive(Debug, Clone, Copy, PartialEq, Eq, Structural)]
pub struct ForkRecord {
    pub header: EventHeader,
    pub pid: u32,
    pub ppid: u32,
    pub tid: u32,
    pub ptid: u32,
    pub time: u64,
}

impl ForkRecord {
    /// The record that the 32 bytes at the start of `s` hold.
    pub open spec fn of(s: Seq<u8>) -> ForkRecord {
        ForkRecord {
            header: EventHeader::of(s),
            pid: le_u32(s, 8),
            ppid: le_u32(s, 12),
            tid: le_u32(s, 16),
            ptid: le_u32(s, 20),
            time: le_u64(s, 24),
        }
    }

    /// Decodes a fork record of the ring buffer, header included.
    pub fn from_bytes(bytes: &[u8]) -> (r: Result<ForkRecord, PerfError>)
        ensures
            decodes_from(r, bytes@, 32, |v: ForkRecord| v == ForkRecord::of(bytes@)),
    {
        need(bytes, 32)?;
        Ok(
            ForkRecord {
                header: EventHeader {
                    event_type: u32_at(bytes, 0),
                    misc: u16_at(bytes, 4),
                    size: u16_at(bytes, 6),
                },
                pid: u32_at(bytes, 8),
                ppid: u32_at(bytes, 12),
                tid: u32_at(bytes, 16),
                ptid: u32_at(bytes, 20),
                time: u64_at(bytes, 24),
            },
        )
    }
}

/// This record indicates a read event.
#[derive(Debug, Clone, Copy, PartialEq, Eq, Structural)]
pub struct ReadRecord {
    pub header: EventHeader,
    pub pid: u32,
    pub tid: u32,
    pub value: FileReadFormat,
}

impl ReadRecord {
    /// The record that the 48 bytes at the start of `s` hold.
    pub open spec fn of(s: Seq<u8>) -> ReadRecord {
        ReadRecord {
            header: EventHeader::of(s),
            pid: le_u32(s, 8),
            tid: le_u32(s, 12),
            value: FileReadFormat::at(s, 16),
        }
    }

    /// Decodes a read record of the ring buffer, header included.
    pub fn from_bytes(bytes: &[u8]) -> (r: Result<ReadRecord, PerfError>)
        ensures
            decodes_from(r, bytes@, 48, |v: ReadRecord| v == ReadRecord::of(bytes@)),
    {
        need(bytes, 48)?;
        Ok(
            ReadRecord {
                header: EventHeader {
                    event_type: u32_at(bytes, 0),
                    misc: u16_at(bytes, 4),
                    size: u16_at(bytes, 6),
                },
                pid: u32_at(bytes, 8),
                tid: u32_at(bytes, 12),
                value: FileReadFormat {
                    value: u64_at(bytes, 16),
                    time_enabled: u64_at(bytes, 24),
                    time_running: u64_at(bytes, 32),
                    id: u64_at(bytes, 40),
                },
            },
        )
    }
}

/// One branch of a branch stack: where it came from and where it went.
#[derive(Debug, Clone, Copy, PartialEq, Eq, Structural)]
pub struct BranchEntry {
    pub from: u64,
    pub to: u64,
    pub flags: u64,
}

/// This record indicates a sample.
#[derive(Debug, Clone, PartialEq, Eq)]
pub struct SampleRecord {
    pub header: EventHeader,
    /// if PERF_SAMPLE_IP
    pub ip: u64,
    /// if PERF_SAMPLE_TID
    pub pid: u32,
    /// if PERF_SAMPLE_TID
    pub tid: u32,
    /// if PERF_SAMPLE_TIME
    pub time: u64,
    /// if PERF_SAMPLE_ADDR
    pub addr: u64,
    /// if PERF_SAMPLE_ID
    pub id: u64,
    /// if PERF_SAMPLE_STREAM_ID
    pub stream_id: u64,
    /// if PERF_SAMPLE_CPU
    pub cpu: u32,
    /// if PERF_SAMPLE_CPU
    pub res: u32,
    /// if PERF_SAMPLE_PERIOD
    pub period: u64,
    /// if PERF_SAMPLE_READ
    pub v: FileReadFormat,
    /// if PERF_SAMPLE_CALLCHAIN
    pub ips: Vec<u64>,
    /// if PERF_SAMPLE_RAW
    pub raw_sample: Vec<u8>,
    /// if PERF_SAMPLE_BRANCH_STACK
    pub lbr: Vec<BranchEntry>,
    /// if PERF_SAMPLE_REGS_USER
    pub abi: u64,
    /// if PERF_SAMPLE_REGS_USER
    pub regs: Vec<u64>,
    /// if PERF_SAMPLE_STACK_USER
    pub user_stack: Vec<u8>,
    /// if PERF_SAMPLE_STACK_USER
    pub dyn_size: u64,
    /// if PERF_SAMPLE_WEIGHT
    pub weight: u64,
    /// if PERF_SAMPLE_DATA_SRC
    pub data_str: u64,
}

impl SampleRecord {
    /// Whether this is the sample that the 104 bytes at the start of `s`
    /// hold. Only the fields of fixed size are decoded, each at the place it
    /// has in this layout; the lists are empty and the other numbers zero.
    pub open spec fn decodes(&self, s: Seq<u8>) -> bool {
        &&& self.header == EventHeader::of(s)
        &&& self.ip == le_u64(s, 8)
        &&& self.pid == le_u32(s, 16)
        &&& self.tid == le_u32(s, 20)
        &&& self.time == le_u64(s, 24)
        &&& self.addr == le_u64(s, 32)
        &&& self.id == le_u64(s, 40)
        &&& self.stream_id == le_u64(s, 48)
        &&& self.cpu == le_u32(s, 52)
        &&& self.res == le_u32(s, 56)
        &&& self.period == le_u64(s, 64)
        &&& self.v == FileReadFormat::at(s, 72)
        &&& self.ips@.len() == 0
        &&& self.raw_sample@.len() == 0
        &&& self.lbr@.len() == 0
        &&& self.abi == 0
        &&& self.regs@.len() == 0
        &&& self.user_stack@.len() == 0
        &&& self.dyn_size == 0
        &&& self.weight == 0
        &&& self.data_str == 0
    }

    /// Decodes a sample of the ring buffer, header included.
    pub fn from_bytes(bytes: &[u8]) -> (r: Result<SampleRecord, PerfError>)
        ensures
            decodes_from(r, bytes@, 104, |v: SampleRecord| v.decodes(bytes@)),
    {
        need(bytes, 104)?;
        Ok(
            SampleRecord {
                header: EventHeader {
                    event_type: u32_at(bytes, 0),
                    misc: u16_at(bytes, 4),
                    size: u16_at(bytes, 6),
                },
                ip: u64_at(bytes, 8),
                pid: u32_at(bytes, 16),
                tid: u32_at(bytes, 20),
                time: u64_at(bytes, 24),
                addr: u64_at(bytes, 32),
                id: u64_at(bytes, 40),
                stream_id: u64_at(bytes, 48),
                cpu: u32_at(bytes, 52),
                res: u32_at(bytes, 56),
                period: u64_at(bytes, 64),
                v: FileReadFormat {
                    value: u64_at(bytes, 72),
                    time_enabled: u64_at(bytes, 80),
                    time_running: u64_at(bytes, 88),
                    id: u64_at(bytes, 96),
                },
                ips: Vec::new(),
                raw_sample: Vec::new(),
                lbr: Vec::new(),
                abi: 0,
                regs: Vec::new(),
                user_stack: Vec::new(),
                dyn_size: 0,
                weight: 0,
                data_str: 0,
            },
        )
    }
}

/// A record of the sampling ring buffer.
#[derive(Debug, Clone, PartialEq, Eq)]
pub enum Event {
    MMAP(MMAPRecord),
    Lost(LostRecord),
    Comm(CommRecord),
    Exit(ExitRecord),
    Throttle(ThrottleRecord),
    Unthrottle(ThrottleRecord),
    Fork(ForkRecord),
    Read(ReadRecord),
    Sample(SampleRecord),
}

/// How many bytes the decoder of a record of the type `event_type` needs, or
/// that there is no decoder for the type.
pub open spec fn ring_record_len(event_type: u32) -> Extent {
    if event_type == PERF_RECORD_MMAP {
        Ok(40)
    } else if event_type == PERF_RECORD_LOST {
        Ok(24)
    } else if event_type == PERF_RECORD_COMM {
        Ok(16)
    } else if event_type == PERF_RECORD_EXIT || event_type == PERF_RECORD_THROTTLE || event_type
        == PERF_RECORD_UNTHROTTLE || event_type == PERF_RECORD_FORK {
        Ok(32)
    } else if event_type == PERF_RECORD_READ {
        Ok(48)
    } else if event_type == PERF_RECORD_SAMPLE {
        Ok(104)
    } else {
        Err(PerfError::UnknownRecordType(event_type))
    }
}

/// The extent of what is decoded of the record that the bytes `s` start with.
pub open spec fn ring_event_len(s: Seq<u8>) -> Extent {
    if s.len() < 8 {
        fixed_len(s, 8)
    } else {
        match ring_record_len(le_u32(s, 0)) {
            Ok(n) => fixed_len(s, n),
            Err(e) => Err(e),
        }
    }
}

impl Event {
    /// Whether this is the record that the bytes `s` start with: the type
    /// code in its header picks the variant.
    pub open spec fn decodes(&self, s: Seq<u8>) -> bool {
        match *self {
            Event::MMAP(v) => le_u32(s, 0) == PERF_RECORD_MMAP && v.decodes(s),
            Event::Lost(v) => le_u32(s, 0) == PERF_RECORD_LOST && v == LostRecord::of(s),
            Event::Comm(v) => le_u32(s, 0) == PERF_RECORD_COMM && v.decodes(s),
            Event::Exit(v) => le_u32(s, 0) == PERF_RECORD_EXIT && v == ExitRecord::of(s),
            Event::Throttle(v) => le_u32(s, 0) == PERF_RECORD_THROTTLE && v == ThrottleRecord::of(
                s,
            ),
            Event::Unthrottle(v) => le_u32(s, 0) == PERF_RECORD_UNTHROTTLE && v
                == ThrottleRecord::of(s),
            Event::Fork(v) => le_u32(s, 0) == PERF_RECORD_FORK && v == ForkRecord::of(s),
            Event::Read(v) => le_u32(s, 0) == PERF_RECORD_READ && v == ReadRecord::of(s),
            Event::Sample(v) => le_u32(s, 0) == PERF_RECORD_SAMPLE && v.decodes(s),
        }
    }

    /// Decodes the record of the ring buffer that `bytes` starts with.
    ///
    /// The records are copied out of the buffer, so that the room they take
    /// there can be handed back to the kernel. A record of a type that has no
    /// decoder gives `UnknownRecordType`.
    pub fn from_bytes(bytes: &[u8]) -> (r: Result<Event, PerfError>)
        ensures
            match r {
                Ok(v) => ring_event_len(bytes@) is Ok && v.decodes(bytes@),
                Err(e) => ring_event_len(bytes@) == Err::<int, PerfError>(e),
            },
    {
        let header = EventHeader::from_bytes(bytes)?;
        match header.event_type {
            PERF_RECORD_MMAP => Ok(Event::MMAP(MMAPRecord::from_bytes(bytes)?)),
            PERF_RECORD_LOST => Ok(Event::Lost(LostRecord::from_bytes(bytes)?)),
            PERF_RECORD_COMM => Ok(Event::Comm(CommRecord::from_bytes(bytes)?)),
            PERF_RECORD_EXIT => Ok(Event::Exit(ExitRecord::from_bytes(bytes)?)),
            PERF_RECORD_THROTTLE => Ok(Event::Throttle(ThrottleRecord::from_bytes(bytes)?)),
            PERF_RECORD_UNTHROTTLE => Ok(Event::Unthrottle(ThrottleRecord::from_bytes(bytes)?)),
            PERF_RECORD_FORK => Ok(Event::Fork(ForkRecord::from_bytes(bytes)?)),
            PERF_RECORD_READ => Ok(Event::Read(ReadRecord::from_bytes(bytes)?)),
            PERF_RECORD_SAMPLE => Ok(Event::Sample(SampleRecord::from_bytes(bytes)?)),
            other => Err(PerfError::UnknownRecordType(other)),
        }
    }
}

} // verus!
