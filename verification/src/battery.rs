//! The battery aggregator's reduction: an all-or-nothing fold over
//! per-battery readings.
//!
//! Enumerating batteries is the presentation layer's job (the battery
//! subsystem speaks in floating-point quantities, which this library does
//! not hold); it hands over one fixed-point `(energy, energy_full)` pair per
//! battery, `None` for a battery whose data could not be read, and `None`
//! for the whole list when the subsystem could not be opened or enumerated.
//! One unreadable battery discards the whole summary: a partial sum would
//! silently understate capacity.

use vstd::prelude::*;

verus! {

/// Whether every battery of the list was read successfully.
pub open spec fn all_readable(rs: Seq<Option<(u64, u64)>>) -> bool {
    forall|i: int| 0 <= i < rs.len() ==> rs[i] is Some
}

/// The energy a reading contributes: its first component, 0 if unreadable.
pub open spec fn reading_energy(r: Option<(u64, u64)>) -> int {
    match r {
        Option::Some(p) => p.0 as int,
        Option::None => 0,
    }
}

/// The full-charge energy a reading contributes: its second component, 0 if
/// unreadable.
pub open spec fn reading_energy_full(r: Option<(u64, u64)>) -> int {
    match r {
        Option::Some(p) => p.1 as int,
        Option::None => 0,
    }
}

/// The exact sum of the energies of all readings.
pub open spec fn sum_energy(rs: Seq<Option<(u64, u64)>>) -> int
    decreases rs.len(),
{
    if rs.len() == 0 {
        0
    } else {
        reading_energy(rs[0]) + sum_energy(rs.drop_first())
    }
}

/// The exact sum of the full-charge energies of all readings.
pub open spec fn sum_energy_full(rs: Seq<Option<(u64, u64)>>) -> int
    decreases rs.len(),
{
    if rs.len() == 0 {
        0
    } else {
        reading_energy_full(rs[0]) + sum_energy_full(rs.drop_first())
    }
}

/// What a 64-bit counter reports of an exact sum: the sum itself, saturated
/// at the largest representable value.
pub open spec fn clip64(x: int) -> u64 {
    if x > u64::MAX as int {
        u64::MAX
    } else {
        x as u64
    }
}

proof fn lemma_sum_energy_push(rs: Seq<Option<(u64, u64)>>, x: Option<(u64, u64)>)
    ensures
        sum_energy(rs.push(x)) == sum_energy(rs) + reading_energy(x),
    decreases rs.len(),
{
    if rs.len() == 0 {
        assert(rs.push(x)[0] == x);
        assert(rs.push(x).drop_first() =~= Seq::<Option<(u64, u64)>>::empty());
        assert(sum_energy(Seq::<Option<(u64, u64)>>::empty()) == 0);
    } else {
        assert(rs.push(x).drop_first() =~= rs.drop_first().push(x));
        lemma_sum_energy_push(rs.drop_first(), x);
        assert(rs.push(x)[0] == rs[0]);
    }
}

proof fn lemma_sum_energy_full_push(rs: Seq<Option<(u64, u64)>>, x: Option<(u64, u64)>)
    ensures
        sum_energy_full(rs.push(x)) == sum_energy_full(rs) + reading_energy_full(x),
    decreases rs.len(),
{
    if rs.len() == 0 {
        assert(rs.push(x)[0] == x);
        assert(rs.push(x).drop_first() =~= Seq::<Option<(u64, u64)>>::empty());
        assert(sum_energy_full(Seq::<Option<(u64, u64)>>::empty()) == 0);
    } else {
        assert(rs.push(x).drop_first() =~= rs.drop_first().push(x));
        lemma_sum_energy_full_push(rs.drop_first(), x);
        assert(rs.push(x)[0] == rs[0]);
    }
}

/// The battery aggregator's reduction: `None` exactly when the subsystem
/// failed (`readings` is `None`) or any single battery was unreadable;
/// otherwise the two sums over all batteries, saturated at the counter's
/// width. Zero batteries give `Some((0, 0))`: present, not absent.
pub fn get_battery_brief_info(readings: Option<Vec<Option<(u64, u64)>>>) -> (r: Option<
    (u64, u64),
>)
    ensures
        (match readings {
            Option::Some(v) => {
                &&& (r is Some <==> all_readable(v@))
                &&& (all_readable(v@) ==> r == Option::Some(
                    (clip64(sum_energy(v@)), clip64(sum_energy_full(v@))),
                ))
            },
            Option::None => r is None,
        }),
{
    let rs = match readings {
        Option::Some(v) => v,
        Option::None => {
            return Option::None;
        },
    };
    let n = rs.len();
    let mut sum_e: u64 = 0;
    let mut sum_f: u64 = 0;
    let mut i: usize = 0;
    while i < n
        invariant
            readings == Option::Some(rs),
            n == rs@.len(),
            i <= n,
            all_readable(rs@.take(i as int)),
            sum_energy(rs@.take(i as int)) >= 0,
            sum_energy_full(rs@.take(i as int)) >= 0,
            sum_e == clip64(sum_energy(rs@.take(i as int))),
            sum_f == clip64(sum_energy_full(rs@.take(i as int))),
        decreases n - i,
    {
        match rs[i] {
            Option::None => {
                proof {
                    assert(rs@[i as int] is None);
                    assert(!all_readable(rs@));
                }
                return Option::None;
            },
            Option::Some(p) => {
                proof {
                    assert(rs@.take(i as int + 1) =~= rs@.take(i as int).push(rs@[i as int]));
                    lemma_sum_energy_push(rs@.take(i as int), rs@[i as int]);
                    lemma_sum_energy_full_push(rs@.take(i as int), rs@[i as int]);
                    assert(forall|j: int|
                        0 <= j < i as int + 1 ==> #[trigger] rs@.take(i as int + 1)[j] is Some);
                }
                let (e, f) = p;
                sum_e = if e <= u64::MAX - sum_e {
                    sum_e + e
                } else {
                    u64::MAX
                };
                sum_f = if f <= u64::MAX - sum_f {
                    sum_f + f
                } else {
                    u64::MAX
                };
            },
        }
        i = i + 1;
    }
    proof {
        assert(rs@.take(n as int) =~= rs@);
    }
    Option::Some((sum_e, sum_f))
}

} // verus!
