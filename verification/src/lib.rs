//! Decoding of recorded `perf.data` profiles, and the data that programs the
//! Linux performance-monitoring subsystem.
//!
//! The library holds what is computed: how the arguments of `perf_event_open`
//! are put together, and how the bytes that the kernel and the `perf` tool
//! write are decoded. Opening a counter, reading its file descriptor and
//! mapping its ring buffer is left to the program that uses the library,
//! which implements `AbstractPerfCounter` for its counter.

pub mod intel;
pub mod linux;
pub mod parser;

use vstd::prelude::*;

verus! {

/// `std::io::Error`, the error of a system call. It is carried through as it
/// is: nothing is stated of what it holds.
#[verifier::external_type_specification]
#[verifier::external_body]
pub struct ExIoError(std::io::Error);

/// Abstract trait to control performance counters.
pub trait AbstractPerfCounter {
    /// Reset performance counter.
    fn reset(&self) -> Result<(), std::io::Error>;

    /// Start measuring.
    fn start(&self) -> Result<(), std::io::Error>;

    /// Stop measuring.
    fn stop(&self) -> Result<(), std::io::Error>;

    /// Read the counter value.
    fn read(&mut self) -> Result<u64, std::io::Error>;
}

} // verus!
