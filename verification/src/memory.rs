//! The memory aggregator: refresh the memory counters, then read the six of
//! them verbatim.
//!
//! On this platform `sysinfo` derives the "used" counters by subtraction
//! (`used_swap = total_swap - free_swap`, `used_memory = total_memory -
//! available_memory`), so the aggregator reads the operands first and calls
//! the derived getter only where the subtraction cannot underflow; on the
//! degenerate snapshots where it would, the used counter is reported as 0.

use vstd::prelude::*;

use crate::host::available_memory_of;
use crate::host::cpu_records_of;
use crate::host::free_memory_of;
use crate::host::free_swap_of;
use crate::host::global_usage_bits_of;
use crate::host::process_parents_of;
use crate::host::total_memory_of;
use crate::host::total_swap_of;
use crate::host::used_memory_of;
use crate::host::used_swap_of;
use crate::host::HostState;

verus! {

/// Relies on `sysinfo::System::total_memory`: the snapshot's RAM size.
#[verifier::external_body]
fn total_memory(st: &HostState) -> (r: u64)
    ensures
        r == total_memory_of(st.sys()),
{
    st.sys.total_memory()
}

/// Relies on `sysinfo::System::free_memory`: the snapshot's free RAM.
#[verifier::external_body]
fn free_memory(st: &HostState) -> (r: u64)
    ensures
        r == free_memory_of(st.sys()),
{
    st.sys.free_memory()
}

/// Relies on `sysinfo::System::available_memory`: the snapshot's available
/// RAM.
#[verifier::external_body]
fn available_memory(st: &HostState) -> (r: u64)
    ensures
        r == available_memory_of(st.sys()),
{
    st.sys.available_memory()
}

/// Relies on `sysinfo::System::used_memory`: on this platform it computes
/// `total_memory - available_memory` from the same snapshot, so it is called
/// only where that cannot underflow.
#[verifier::external_body]
fn used_memory(st: &HostState) -> (r: u64)
    requires
        available_memory_of(st.sys()) <= total_memory_of(st.sys()),
    ensures
        r == used_memory_of(st.sys()),
        r == total_memory_of(st.sys()) - available_memory_of(st.sys()),
{
    st.sys.used_memory()
}

/// Relies on `sysinfo::System::total_swap`: the snapshot's swap size.
#[verifier::external_body]
fn total_swap(st: &HostState) -> (r: u64)
    ensures
        r == total_swap_of(st.sys()),
{
    st.sys.total_swap()
}

/// Relies on `sysinfo::System::free_swap`: the snapshot's free swap.
#[verifier::external_body]
fn free_swap(st: &HostState) -> (r: u64)
    ensures
        r == free_swap_of(st.sys()),
{
    st.sys.free_swap()
}

/// Relies on `sysinfo::System::used_swap`: on this platform it computes
/// `total_swap - free_swap` from the same snapshot, so it is called only
/// where that cannot underflow.
#[verifier::external_body]
fn used_swap(st: &HostState) -> (r: u64)
    requires
        free_swap_of(st.sys()) <= total_swap_of(st.sys()),
    ensures
        r == used_swap_of(st.sys()),
        r == total_swap_of(st.sys()) - free_swap_of(st.sys()),
{
    st.sys.used_swap()
}

/// The memory aggregator: refreshes the memory counters and returns
/// `(total_mem, free_mem, used_mem, total_swap, free_swap, used_swap)`, all
/// byte counts read verbatim from the refreshed snapshot. The CPU array and
/// the process table are left as they were.
///
/// Swap accounting: whenever the snapshot reports `free_swap <= total_swap`
/// (every real host does), `used_swap + free_swap == total_swap`; in
/// particular, with no swap configured all three are 0. The same identity
/// links used and available RAM. On a degenerate snapshot where the
/// subtraction would underflow, the used counter is reported as 0.
pub fn get_memory_brief_info(st: &mut HostState) -> (r: (u64, u64, u64, u64, u64, u64))
    ensures
        cpu_records_of(final(st).sys()) == cpu_records_of(old(st).sys()),
        global_usage_bits_of(final(st).sys()) == global_usage_bits_of(old(st).sys()),
        process_parents_of(final(st).sys()) == process_parents_of(old(st).sys()),
        r.0 == total_memory_of(final(st).sys()),
        r.1 == free_memory_of(final(st).sys()),
        r.3 == total_swap_of(final(st).sys()),
        r.4 == free_swap_of(final(st).sys()),
        available_memory_of(final(st).sys()) <= r.0 ==> {
            &&& r.2 == used_memory_of(final(st).sys())
            &&& r.2 + available_memory_of(final(st).sys()) == r.0
        },
        available_memory_of(final(st).sys()) > r.0 ==> r.2 == 0,
        r.4 <= r.3 ==> {
            &&& r.5 == used_swap_of(final(st).sys())
            &&& r.5 + r.4 == r.3
        },
        r.4 > r.3 ==> r.5 == 0,
        (r.4 <= r.3 && r.3 == 0) ==> (r.4 == 0 && r.5 == 0),
{
    crate::host::refresh_memory(st);
    let total_mem = total_memory(st);
    let free_mem = free_memory(st);
    let avail_mem = available_memory(st);
    let used_mem = if avail_mem <= total_mem {
        used_memory(st)
    } else {
        0
    };
    let swap_total = total_swap(st);
    let swap_free = free_swap(st);
    let swap_used = if swap_free <= swap_total {
        used_swap(st)
    } else {
        0
    };
    (total_mem, free_mem, used_mem, swap_total, swap_free, swap_used)
}

} // verus!
