//! Numbers of the `perf_event_open` interface of the kernel.

use vstd::prelude::*;

verus! {

/// The type of the hardware events that the kernel knows on every processor.
pub const PERF_TYPE_HARDWARE: u32 = 0;

/// The type of the events that the kernel counts itself.
pub const PERF_TYPE_SOFTWARE: u32 = 1;

/// The type of the tracepoints of the kernel.
pub const PERF_TYPE_TRACEPOINT: u32 = 2;

/// The type of the cache events.
pub const PERF_TYPE_HW_CACHE: u32 = 3;

/// The type of the events that are given by their raw configuration.
pub const PERF_TYPE_RAW: u32 = 4;

/// The type of the hardware breakpoints.
pub const PERF_TYPE_BREAKPOINT: u32 = 5;

/// The record of a mapping of executable memory.
pub const PERF_RECORD_MMAP: u32 = 1;

/// The record of events that were lost.
pub const PERF_RECORD_LOST: u32 = 2;

/// The record of a change of a process name.
pub const PERF_RECORD_COMM: u32 = 3;

/// The record of the exit of a process.
pub const PERF_RECORD_EXIT: u32 = 4;

/// The record of the throttling of an event.
pub const PERF_RECORD_THROTTLE: u32 = 5;

/// The record of the end of a throttling.
pub const PERF_RECORD_UNTHROTTLE: u32 = 6;

/// The record of a fork.
pub const PERF_RECORD_FORK: u32 = 7;

/// The record of a counter read.
pub const PERF_RECORD_READ: u32 = 8;

/// The record of a sample.
pub const PERF_RECORD_SAMPLE: u32 = 9;

/// The record of a mapping, with the inode of the mapped file.
pub const PERF_RECORD_MMAP2: u32 = 10;

/// Re-routes the output of an event to the group leader.
pub const PERF_FLAG_FD_OUTPUT: i32 = 0x02;

/// The pid names a cgroup: the event is measured for the threads of that container.
pub const PERF_FLAG_PID_CGROUP: i32 = 0x04;

/// The request that starts a counter.
pub const PERF_EVENT_IOC_ENABLE: u64 = 0x2400;

/// The request that stops a counter.
pub const PERF_EVENT_IOC_DISABLE: u64 = 0x2401;

/// The request that sets a counter back to zero.
pub const PERF_EVENT_IOC_RESET: u64 = 0x2403;

} // verus!
