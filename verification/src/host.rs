//! The host state handle: exclusive access to one live snapshot of the
//! operating system's process table, CPU array and memory counters, with
//! targeted refresh operations.
//!
//! The snapshot itself is `sysinfo::System`, an opaque value to the verifier.
//! What a given snapshot holds is described by uninterpreted observation
//! functions (`total_memory_of`, `cpu_records_of`, ...); the trusted wrappers
//! below relate each `sysinfo` call to those observations, and everything
//! downstream is verified against them.

use vstd::multiset::Multiset;
use vstd::prelude::*;

use crate::cpu::CpuRecord;

verus! {

/// Verifier-visible declaration of `sysinfo::System`, the operating system
/// snapshot type. Its contents are reached only through the observation
/// functions below.
#[verifier::external_type_specification]
#[verifier::external_body]
pub struct ExSystem(sysinfo::System);

/// The RAM size, in bytes, that the snapshot holds (`System::total_memory`).
pub uninterp spec fn total_memory_of(s: sysinfo::System) -> u64;

/// The free RAM, in bytes, that the snapshot holds (`System::free_memory`).
pub uninterp spec fn free_memory_of(s: sysinfo::System) -> u64;

/// The available RAM, in bytes, that the snapshot holds
/// (`System::available_memory`).
pub uninterp spec fn available_memory_of(s: sysinfo::System) -> u64;

/// The used RAM, in bytes, that the snapshot reports (`System::used_memory`).
pub uninterp spec fn used_memory_of(s: sysinfo::System) -> u64;

/// The swap size, in bytes, that the snapshot holds (`System::total_swap`).
pub uninterp spec fn total_swap_of(s: sysinfo::System) -> u64;

/// The free swap, in bytes, that the snapshot holds (`System::free_swap`).
pub uninterp spec fn free_swap_of(s: sysinfo::System) -> u64;

/// The used swap, in bytes, that the snapshot reports (`System::used_swap`).
pub uninterp spec fn used_swap_of(s: sysinfo::System) -> u64;

/// The per-core records that the snapshot's CPU array holds, in the
/// enumeration order the operating system reported (`System::cpus`).
pub uninterp spec fn cpu_records_of(s: sysinfo::System) -> Seq<CpuRecord>;

/// The global CPU usage percentage that the snapshot holds, carried as the
/// raw bit pattern of the 32-bit value `System::global_cpu_usage` returns.
pub uninterp spec fn global_usage_bits_of(s: sysinfo::System) -> u32;

/// One entry per process in the snapshot's process table: the parent process
/// id, if one is reported (`System::processes`, `Process::parent`). A
/// multiset, because the table carries no order.
pub uninterp spec fn process_parents_of(s: sysinfo::System) -> Multiset<Option<u32>>;

/// The memory section of a snapshot: every memory and swap observation,
/// gathered so that contracts can say "the refresh left memory alone".
pub open spec fn mem_section(s: sysinfo::System) -> Seq<u64> {
    seq![
        total_memory_of(s),
        free_memory_of(s),
        available_memory_of(s),
        used_memory_of(s),
        total_swap_of(s),
        free_swap_of(s),
        used_swap_of(s),
    ]
}

/// The process-and-CPU handle to the live host state. One value of this type
/// is meant to be shared per process (the presentation layer keeps it behind
/// a lock); every aggregator refreshes the part it reads and then reads it.
pub struct HostState {
    pub(crate) sys: sysinfo::System,
}

impl HostState {
    /// The snapshot currently held.
    pub closed spec fn sys(&self) -> sysinfo::System {
        self.sys
    }

    /// Relies on `sysinfo::System::new_all`: a fully populated first snapshot
    /// of the process table, CPU array and memory counters.
    #[verifier::external_body]
    pub fn new() -> (st: HostState) {
        HostState { sys: sysinfo::System::new_all() }
    }
}

/// Relies on `sysinfo::System::refresh_processes(ProcessesToUpdate::All, false)`:
/// it re-reads the process table (and, on this platform, resamples the global
/// CPU usage aggregate), leaving the memory counters exactly as they were. A
/// populated per-core CPU list is left as it was too; only on a snapshot
/// whose CPU list is still empty may the resampling fill that list in.
#[verifier::external_body]
pub fn refresh_processes(st: &mut HostState)
    ensures
        cpu_records_of(old(st).sys()).len() > 0 ==> cpu_records_of(final(st).sys())
            == cpu_records_of(old(st).sys()),
        mem_section(final(st).sys()) == mem_section(old(st).sys()),
{
    st.sys.refresh_processes(sysinfo::ProcessesToUpdate::All, false);
}

/// Relies on `sysinfo::System::refresh_memory`: it re-reads the memory and
/// swap counters and touches neither the CPU array nor the process table.
#[verifier::external_body]
pub fn refresh_memory(st: &mut HostState)
    ensures
        cpu_records_of(final(st).sys()) == cpu_records_of(old(st).sys()),
        global_usage_bits_of(final(st).sys()) == global_usage_bits_of(old(st).sys()),
        process_parents_of(final(st).sys()) == process_parents_of(old(st).sys()),
{
    st.sys.refresh_memory();
}

/// Relies on `sysinfo::System::refresh_cpu_all`: it resamples per-core usage
/// and frequency and the global usage aggregate, and touches neither the
/// memory counters nor the process table.
#[verifier::external_body]
pub fn refresh_cpu(st: &mut HostState)
    ensures
        mem_section(final(st).sys()) == mem_section(old(st).sys()),
        process_parents_of(final(st).sys()) == process_parents_of(old(st).sys()),
{
    st.sys.refresh_cpu_all();
}

} // verus!
