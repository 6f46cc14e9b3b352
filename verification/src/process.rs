//! The process census aggregator: refresh the process table in full, then
//! count the processes, and among them the ones that look root-like.
//!
//! "Root" is a heuristic: a process whose parent is unreported, or whose
//! parent is the platform's reserved process id 0. No ancestry chain is
//! walked.

use vstd::multiset::Multiset;
use vstd::prelude::*;

use crate::host::cpu_records_of;
use crate::host::mem_section;
use crate::host::process_parents_of;
use crate::host::HostState;

verus! {

/// Whether a parent entry marks its process as root-like: no parent
/// reported, or parent process id 0.
pub open spec fn is_root_parent(p: Option<u32>) -> bool {
    match p {
        Option::None => true,
        Option::Some(pid) => pid == 0u32,
    }
}

/// [`is_root_parent`] as a function value, so that every filter below speaks
/// of one and the same predicate.
pub open spec fn root_pred() -> spec_fn(Option<u32>) -> bool {
    |p: Option<u32>| is_root_parent(p)
}

/// How many parent entries of the table mark their process as root-like.
pub open spec fn root_count(parents: Multiset<Option<u32>>) -> nat {
    parents.filter(root_pred()).len()
}

/// Inserting one entry raises the root count by one exactly when the entry
/// is root-like.
proof fn lemma_root_count_insert(m: Multiset<Option<u32>>, x: Option<u32>)
    ensures
        is_root_parent(x) ==> root_count(m.insert(x)) == root_count(m) + 1,
        !is_root_parent(x) ==> root_count(m.insert(x)) == root_count(m),
{
    broadcast use vstd::multiset::group_multiset_axioms;

    if is_root_parent(x) {
        assert(m.insert(x).filter(root_pred()) =~= m.filter(root_pred()).insert(x));
    } else {
        assert(m.insert(x).filter(root_pred()) =~= m.filter(root_pred()));
    }
}

/// Relies on `sysinfo::System::processes` and `sysinfo::Process::parent`:
/// one entry per process of the snapshot's table, holding the parent process
/// id if one is reported. The table carries no order, so only the multiset
/// of entries is pinned.
#[verifier::external_body]
fn process_parents(st: &HostState) -> (r: Vec<Option<u32>>)
    ensures
        r@.to_multiset() == process_parents_of(st.sys()),
{
    st.sys.processes().values().map(|p| p.parent().map(|pid| pid.as_u32())).collect()
}

/// The process census aggregator: refreshes the process table in full, then
/// returns `(process_count, root_count)` for the refreshed snapshot. The
/// root count never exceeds the process count. The memory counters are left
/// as they were, and so is the per-core CPU list whenever it was populated.
pub fn get_processes_brief_info(st: &mut HostState) -> (r: (usize, usize))
    ensures
        cpu_records_of(old(st).sys()).len() > 0 ==> cpu_records_of(final(st).sys())
            == cpu_records_of(old(st).sys()),
        mem_section(final(st).sys()) == mem_section(old(st).sys()),
        r.0 == process_parents_of(final(st).sys()).len(),
        r.1 == root_count(process_parents_of(final(st).sys())),
        r.1 <= r.0,
{
    crate::host::refresh_processes(st);
    let parents = process_parents(st);
    let n = parents.len();
    let mut root: usize = 0;
    let mut i: usize = 0;
    proof {
        broadcast use vstd::multiset::group_multiset_axioms;
        broadcast use vstd::seq_lib::group_to_multiset_ensures;

        let m0 = parents@.take(0).to_multiset();
        assert(parents@.take(0) =~= Seq::<Option<u32>>::empty());
        assert(m0.len() == 0);
        vstd::multiset::lemma_multiset_empty_len(m0);
        assert(m0.filter(root_pred()) =~= Multiset::<Option<u32>>::empty());
    }
    while i < n
        invariant
            n == parents@.len(),
            i <= n,
            root <= i,
            root == root_count(parents@.take(i as int).to_multiset()),
        decreases n - i,
    {
        let p = parents[i];
        let root_here = match p {
            Option::None => true,
            Option::Some(pid) => pid == 0,
        };
        proof {
            broadcast use vstd::seq_lib::group_to_multiset_ensures;

            assert(parents@.take(i as int + 1) =~= parents@.take(i as int).push(
                parents@[i as int],
            ));
            lemma_root_count_insert(
                parents@.take(i as int).to_multiset(),
                parents@[i as int],
            );
        }
        if root_here {
            root = root + 1;
        }
        i = i + 1;
    }
    proof {
        broadcast use vstd::seq_lib::group_to_multiset_ensures;

        assert(parents@.take(n as int) =~= parents@);
    }
    (n, root)
}

} // verus!
