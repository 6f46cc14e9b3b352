//! The CPU aggregator: refresh the CPU part of the host state, then reduce
//! the per-core array to a summary tuple.
//!
//! Usage percentages come from the operating system as 32-bit floating-point
//! values; the library carries each one untouched, as its raw bit pattern,
//! and the presentation layer turns the bits back into a percentage.

use vstd::prelude::*;

use crate::host::cpu_records_of;
use crate::host::global_usage_bits_of;
use crate::host::mem_section;
use crate::host::process_parents_of;
use crate::host::HostState;

verus! {

/// One CPU core of the snapshot, in plain values: brand and name as the
/// operating system reports them, frequency in MHz, and the usage percentage
/// as the raw bit pattern of the 32-bit value the snapshot holds.
#[derive(Debug)]
pub struct CpuRecord {
    pub brand: String,
    pub name: String,
    pub frequency: u64,
    pub usage_bits: u32,
}

/// Relies on `sysinfo::System::cpus` and the per-core accessors
/// `Cpu::brand`, `Cpu::name`, `Cpu::frequency` and `Cpu::cpu_usage`: one
/// record per core, in enumeration order, each field copied verbatim (the
/// usage as its raw bit pattern).
#[verifier::external_body]
fn cpu_records(st: &HostState) -> (r: Vec<CpuRecord>)
    ensures
        r@ == cpu_records_of(st.sys()),
{
    st.sys
        .cpus()
        .iter()
        .map(|c| CpuRecord {
            brand: c.brand().to_string(),
            name: c.name().to_string(),
            frequency: c.frequency(),
            usage_bits: c.cpu_usage().to_bits(),
        })
        .collect()
}

/// Relies on `sysinfo::System::global_cpu_usage`: the global usage aggregate
/// the snapshot holds, carried as its raw bit pattern.
#[verifier::external_body]
fn global_usage_bits(st: &HostState) -> (r: u32)
    ensures
        r == global_usage_bits_of(st.sys()),
{
    st.sys.global_cpu_usage().to_bits()
}

/// Relies on `sysinfo::System::physical_core_count`: a fresh query of the
/// operating system, `None` where the platform cannot report the count.
#[verifier::external_body]
fn physical_core_count() -> (r: Option<usize>) {
    sysinfo::System::physical_core_count()
}

/// Reduces the raw pieces of a CPU summary to the summary tuple: the
/// physical core count with `None` flattened to 0 (an unsupported-platform
/// signal, not an error), the logical core count as the number of records,
/// the global usage, and the records themselves, untouched and in order.
pub fn assemble_cpu_summary(physical: Option<usize>, records: Vec<CpuRecord>, usage_bits: u32) -> (r: (
    usize,
    usize,
    u32,
    Vec<CpuRecord>,
))
    ensures
        r.0 == (match physical {
            Some(n) => n,
            None => 0usize,
        }),
        r.1 == records@.len(),
        r.2 == usage_bits,
        r.3 == records,
{
    let physical_num: usize = match physical {
        Some(n) => n,
        None => 0,
    };
    let logical_num: usize = records.len();
    (physical_num, logical_num, usage_bits, records)
}

/// Reads the CPU summary out of the snapshot as it stands, without
/// refreshing first: `(physical_core_count, logical_core_count,
/// global_usage_bits, per_core_records)`. The logical count always equals
/// the number of records, and a host that reports no cores yields zero
/// records, never a failure.
pub fn read_cpu_brief_info(st: &HostState) -> (r: (usize, usize, u32, Vec<CpuRecord>))
    ensures
        r.1 == cpu_records_of(st.sys()).len(),
        r.2 == global_usage_bits_of(st.sys()),
        r.3@ == cpu_records_of(st.sys()),
        r.1 == r.3@.len(),
{
    let physical = physical_core_count();
    let records = cpu_records(st);
    let usage_bits = global_usage_bits(st);
    assemble_cpu_summary(physical, records, usage_bits)
}

/// The CPU aggregator: refreshes the CPU part of the host state, then reads
/// the summary from the refreshed snapshot. The memory counters and the
/// process table are left as they were. A caller that wants the
/// delta-sampled variant refreshes, waits, and then calls
/// [`read_cpu_brief_info`] itself.
pub fn get_cpu_brief_info(st: &mut HostState) -> (r: (usize, usize, u32, Vec<CpuRecord>))
    ensures
        mem_section(final(st).sys()) == mem_section(old(st).sys()),
        process_parents_of(final(st).sys()) == process_parents_of(old(st).sys()),
        r.1 == cpu_records_of(final(st).sys()).len(),
        r.2 == global_usage_bits_of(final(st).sys()),
        r.3@ == cpu_records_of(final(st).sys()),
        r.1 == r.3@.len(),
{
    crate::host::refresh_cpu(st);
    read_cpu_brief_info(st)
}

} // verus!
