//! Runs of pool operations, and what holds of a pool along every run.

use vstd::prelude::*;
use crate::particles::{
    alive_at, integrated, is_survivor_of, lemma_all_expired_none_survive, lemma_death_correctness,
    spawned, survivors, ParticleParams, Particles,
};

verus! {

/// One of the calls that change a pool.
pub enum PoolOp {
    /// `spawn` with these parameters.
    Spawn(ParticleParams),
    /// `advance_particles` by this many microseconds.
    Advance(u64),
    /// `clear`.
    Clear,
}

/// Whether `after` is a pool that the call `op` can leave of the pool
/// `before`: what the contract of that call promises.
pub open spec fn follows(before: Particles, op: PoolOp, after: Particles) -> bool {
    match op {
        PoolOp::Spawn(params) => {
            &&& after.wf()
            &&& after.spec_clock() == before.spec_clock()
            &&& after@ == before@.push(spawned(params, before.spec_clock()))
        },
        PoolOp::Advance(delta) => {
            &&& after.wf()
            &&& after.spec_clock() == before.spec_clock() + delta
            &&& after@.to_multiset() == survivors(
                before@,
                after.spec_clock() as int,
                delta as int,
            ).to_multiset()
        },
        PoolOp::Clear => {
            &&& after.wf()
            &&& after.spec_clock() == 0
            &&& after@.len() == 0
        },
    }
}

/// Whether `states` are the pools of a run of the calls `ops`: `states[i]` is
/// the pool before call `i`, `states[i + 1]` the pool after it.
pub open spec fn is_run(states: Seq<Particles>, ops: Seq<PoolOp>) -> bool {
    &&& states.len() == ops.len() + 1
    &&& forall|i: int| 0 <= i < ops.len() ==> follows(states[i], #[trigger] ops[i], states[i + 1])
}

/// The time that the calls `ops` advance a pool by after the last `clear`
/// among them: the sum of the deltas of the advances that follow it.
pub open spec fn time_since_clear(ops: Seq<PoolOp>) -> int
    decreases ops.len(),
{
    if ops.len() == 0 {
        0
    } else {
        match ops.last() {
            PoolOp::Spawn(_) => time_since_clear(ops.drop_last()),
            PoolOp::Advance(delta) => time_since_clear(ops.drop_last()) + delta,
            PoolOp::Clear => 0,
        }
    }
}

/// Compaction count: a tick that no particle outlives leaves the pool empty.
pub proof fn lemma_tick_past_all_expirations(before: Particles, delta: u64, after: Particles)
    requires
        follows(before, PoolOp::Advance(delta), after),
        forall|i: int| 0 <= i < before@.len() ==> (#[trigger] before@[i]).expiration <= after.spec_clock(),
    ensures
        after@.len() == 0,
{
    lemma_all_expired_none_survive(before@, after.spec_clock() as int, delta as int);
    vstd::seq_lib::to_multiset_len(after@);
    vstd::seq_lib::to_multiset_len(survivors(before@, after.spec_clock() as int, delta as int));
}

/// Death correctness: after a tick no particle is left that has expired, and
/// every particle that has not expired is there as its moved self, and
/// nothing else is.
pub proof fn lemma_tick_keeps_the_living(before: Particles, delta: u64, after: Particles)
    requires
        follows(before, PoolOp::Advance(delta), after),
    ensures
        forall|i: int| 0 <= i < after@.len() ==> (#[trigger] after@[i]).expiration > after.spec_clock(),
        forall|j: int|
            0 <= j < before@.len() && (#[trigger] before@[j]).expiration > after.spec_clock()
                ==> after@.contains(integrated(before@[j], delta as int)),
        forall|i: int|
            0 <= i < after@.len() ==> is_survivor_of(
                #[trigger] after@[i],
                before@,
                after.spec_clock() as int,
                delta as int,
            ),
        after@.len() == before@.filter(alive_at(after.spec_clock() as int)).len(),
{
    lemma_death_correctness(before@, after@, after.spec_clock() as int, delta as int);
}

/// Array parity is an invariant: along every run that starts from a pool
/// whose attribute columns have the same length, the columns of every pool
/// have the same length.
pub proof fn lemma_parity_along_run(states: Seq<Particles>, ops: Seq<PoolOp>)
    requires
        is_run(states, ops),
        states[0].wf(),
    ensures
        forall|i: int| 0 <= i < states.len() ==> (#[trigger] states[i]).columns().aligned(),
{
    assert forall|i: int| 0 <= i < states.len() implies (#[trigger] states[i]).columns().aligned() by {
        if i > 0 {
            assert(follows(states[i - 1], ops[i - 1], states[i]));
        }
    }
}

/// The clock of a pool that was empty and at zero when a run began reads the
/// sum of the deltas of all advances since the last clear.
pub proof fn lemma_clock_is_time_since_clear(states: Seq<Particles>, ops: Seq<PoolOp>)
    requires
        is_run(states, ops),
        states[0].spec_clock() == 0,
    ensures
        states.last().spec_clock() == time_since_clear(ops),
    decreases ops.len(),
{
    if ops.len() > 0 {
        let n = ops.len() as int;
        assert(follows(states[n - 1], ops[n - 1], states[n]));
        assert forall|i: int| 0 <= i < ops.drop_last().len() implies follows(
            states.drop_last()[i],
            #[trigger] ops.drop_last()[i],
            states.drop_last()[i + 1],
        ) by {
            assert(follows(states[i], ops[i], states[i + 1]));
        }
        lemma_clock_is_time_since_clear(states.drop_last(), ops.drop_last());
    }
}

/// The clock never decreases: no call but `clear` sets it back.
pub proof fn lemma_clock_never_decreases(states: Seq<Particles>, ops: Seq<PoolOp>, i: int, j: int)
    requires
        is_run(states, ops),
        0 <= i <= j < states.len(),
        forall|k: int| i <= k < j ==> !(#[trigger] ops[k] is Clear),
    ensures
        states[i].spec_clock() <= states[j].spec_clock(),
    decreases j - i,
{
    if i < j {
        lemma_clock_never_decreases(states, ops, i, j - 1);
        assert(follows(states[j - 1], ops[j - 1], states[j]));
    }
}

} // verus!
