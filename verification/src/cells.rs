//! Timing model of a shared sensor cell.
//!
//! A cell has exactly one producer task, which samples a quantity and stores
//! it once per sampling period, and any number of readers. Visibility is
//! relaxed: a store is visible to every read that happens strictly after it
//! completes, and nothing more is promised. The model below makes the
//! producer's schedule explicit and bounds how stale an observed value can
//! be.

use vstd::prelude::*;

verus! {

/// A producer schedule: cycle `j` samples the quantity at `samples[j]` and
/// its store completes at `writes[j]`. The producer executes continuously:
/// each store completes within one period of its sample, and consecutive
/// stores complete within one period of each other.
pub open spec fn continuous_schedule(samples: Seq<int>, writes: Seq<int>, period: int) -> bool {
    &&& samples.len() == writes.len()
    &&& forall|j: int|
        0 <= j < writes.len() ==> samples[j] <= #[trigger] writes[j] <= samples[j] + period
    &&& forall|j: int| 0 <= j + 1 < writes.len() ==> #[trigger] writes[j + 1] <= writes[j] + period
}

/// A read at time `t` observes the value of store `j` when that store
/// completed strictly before the read and the reader saw no later store.
pub open spec fn observes(writes: Seq<int>, j: int, t: int) -> bool {
    &&& 0 <= j < writes.len()
    &&& writes[j] < t
    &&& j + 1 < writes.len() ==> t <= writes[j + 1]
}

/// Law (staleness bound): under continuous producer execution — there is a
/// store still to come at the time of the read — a reader never observes a
/// value sampled more than two full sampling periods before the read.
pub proof fn lemma_staleness_bound(
    samples: Seq<int>,
    writes: Seq<int>,
    period: int,
    j: int,
    t: int,
)
    requires
        period >= 0,
        continuous_schedule(samples, writes, period),
        observes(writes, j, t),
        j + 1 < writes.len(),
    ensures
        t - samples[j] <= 2 * period,
{
    assert(writes[j + 1] <= writes[j] + period);
    assert(samples[j] <= writes[j] <= samples[j] + period);
}

/// The store a reader at time `t` observes, over a producer's completed
/// store times so far (in completion order): the latest store that completed
/// strictly before the read, or nothing if no store has completed yet.
pub fn latest_visible_index(writes: &Vec<i64>, t: i64) -> (r: Option<usize>)
    requires
        forall|a: int, b: int|
            0 <= a <= b < writes@.len() ==> #[trigger] writes@[a] <= #[trigger] writes@[b],
    ensures
        r matches Some(j) ==> observes(
            writes@.map_values(|w: i64| w as int),
            j as int,
            t as int,
        ),
        r is None ==> forall|j: int| 0 <= j < writes@.len() ==> !(writes@[j] < t),
{
    let mut i: usize = 0;
    while i < writes.len() && writes[i] < t
        invariant
            i <= writes@.len(),
            forall|j: int| 0 <= j < i ==> writes@[j] < t,
        decreases writes@.len() - i,
    {
        i = i + 1;
    }
    if i == 0 {
        None
    } else {
        Some(i - 1)
    }
}

/// Law: a reader that a store has already reached never observes an older
/// store than it; observation indices only advance with time.
pub proof fn lemma_observation_monotonic(writes: Seq<int>, j1: int, t1: int, j2: int, t2: int)
    requires
        t1 <= t2,
        observes(writes, j1, t1),
        observes(writes, j2, t2),
        forall|a: int, b: int|
            0 <= a <= b < writes.len() ==> #[trigger] writes[a] <= #[trigger] writes[b],
    ensures
        j1 <= j2,
{
    if j1 > j2 {
        assert(writes[j2 + 1] <= writes[j1]);
    }
}

} // verus!
