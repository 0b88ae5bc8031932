//! Trusted window onto the sysinfo crate: the opaque system handle and the
//! calls that read the host's processor and memory counters. The counters
//! are machine state, so nothing is promised of the values read.

use vstd::prelude::*;

verus! {

#[verifier::external_type_specification]
#[verifier::external_body]
pub struct ExSystem(sysinfo::System);

/// Relies on sysinfo::System::new: a fresh handle with no data loaded.
#[verifier::external_body]
pub(crate) fn system_new() -> sysinfo::System {
    sysinfo::System::new()
}

/// Relies on sysinfo::System::refresh_cpu_usage: re-reads the processor
/// counters into the handle.
#[verifier::external_body]
pub(crate) fn refresh_cpu(s: &mut sysinfo::System) {
    s.refresh_cpu_usage();
}

/// Relies on sysinfo::System::global_cpu_usage: the average processor load
/// since the previous refresh, in percent; handed on as hundredths of a
/// percent — the load scaled by one hundred (built by repeated addition)
/// and rounded to the nearest whole.
#[verifier::external_body]
pub(crate) fn cpu_usage_hundredths(s: &sysinfo::System) -> u64 {
    let x = s.global_cpu_usage();
    let x10 = x + x + x + x + x + x + x + x + x + x;
    let x100 = x10 + x10 + x10 + x10 + x10 + x10 + x10 + x10 + x10 + x10;
    x100.round() as u64
}

/// Relies on sysinfo::System::refresh_memory: re-reads the memory counters
/// into the handle.
#[verifier::external_body]
pub(crate) fn refresh_memory(s: &mut sysinfo::System) {
    s.refresh_memory();
}

/// Relies on sysinfo::System::used_memory: the used RAM in bytes.
#[verifier::external_body]
pub(crate) fn used_memory_bytes(s: &sysinfo::System) -> u64 {
    s.used_memory()
}

} // verus!
