//! The batch driver: run the adaptive stepper for a fixed number of sample
//! intervals over each of a collection of independent initial states.
//!
//! Each orbit's output is an ordered sequence of `k + 1` records: the initial
//! state with a sub-step count of 0, followed by the state after each of `k`
//! sample intervals together with the number of adaptive sub-steps that
//! interval consumed. Orbits are fully independent: an orbit's records are a
//! function of the run configuration and its own initial state alone, which
//! is what lets a caller process orbits in any order or concurrently.

use vstd::prelude::*;
use crate::state::{Position, Velocity};
use crate::stepper::{interval_v, one_step};

verus! {

/// One time-sampled state of one orbit, with the number of adaptive
/// sub-steps the stepper consumed to reach it (0 for the initial record;
/// diagnostic only).
#[derive(Clone, Copy, Debug, PartialEq, Eq, Structural)]
pub struct SampleRecord {
    pub x: i64,
    pub y: i64,
    pub vx: i64,
    pub vy: i64,
    pub substeps: u64,
}

/// A rejected run configuration.
#[derive(Clone, Copy, Debug, PartialEq, Eq, Structural)]
pub enum ConfigError {
    /// The central mass was not positive.
    NonPositiveMass,
    /// The sample interval was not positive.
    NonPositiveInterval,
    /// The sample count was zero.
    ZeroSampleCount,
}

/// The state after `n` full sample intervals from `(pos, vel)`, with the
/// sub-step count of the `n`-th interval (0 for `n == 0`).
pub open spec fn orbit_state_v(
    mass: i64,
    eta: i64,
    s: i64,
    n: nat,
    pos: Position,
    vel: Velocity,
) -> (Position, Velocity, int)
    decreases n,
{
    if n == 0 {
        (pos, vel, 0)
    } else {
        let prev = orbit_state_v(mass, eta, s, (n - 1) as nat, pos, vel);
        interval_v(mass, eta, s, 0, prev.0, prev.1)
    }
}

/// The record emitted for a sampled state.
pub open spec fn record_v(pos: Position, vel: Velocity, substeps: int) -> SampleRecord {
    SampleRecord { x: pos.x, y: pos.y, vx: vel.x, vy: vel.y, substeps: substeps as u64 }
}

/// The full ordered output of one orbit: `k + 1` records, the `i`-th being
/// the state after exactly `i` sample intervals.
pub open spec fn orbit_records_v(
    mass: i64,
    eta: i64,
    s: i64,
    k: nat,
    pos: Position,
    vel: Velocity,
) -> Seq<SampleRecord> {
    Seq::new(
        k + 1,
        |i: int|
            {
                let st = orbit_state_v(mass, eta, s, i as nat, pos, vel);
                record_v(st.0, st.1, st.2)
            },
    )
}

/// The full output of a batch: one record sequence per initial state.
pub open spec fn batch_records_v(
    mass: i64,
    eta: i64,
    s: i64,
    k: nat,
    states: Seq<(Position, Velocity)>,
) -> Seq<Seq<SampleRecord>> {
    Seq::new(states.len(), |i: int| orbit_records_v(mass, eta, s, k, states[i].0, states[i].1))
}

/// Run one orbit for `k` sample intervals and emit its `k + 1` records.
pub fn run_orbit(
    mass: i64,
    eta: i64,
    s: i64,
    k: usize,
    init_pos: Position,
    init_vel: Velocity,
) -> (records: Vec<SampleRecord>)
    requires
        1 <= s,
        1 <= k,
    ensures
        records@ == orbit_records_v(mass, eta, s, k as nat, init_pos, init_vel),
        records@.len() == k + 1,
{
    let mut pos = init_pos;
    let mut vel = init_vel;
    let mut records: Vec<SampleRecord> = Vec::new();
    records.push(SampleRecord { x: pos.x, y: pos.y, vx: vel.x, vy: vel.y, substeps: 0 });
    proof {
        assert(records@ =~= orbit_records_v(mass, eta, s, 0, init_pos, init_vel));
    }
    let mut i: usize = 0;
    while i < k
        invariant
            1 <= s,
            i <= k,
            records@ == orbit_records_v(mass, eta, s, i as nat, init_pos, init_vel),
            pos == orbit_state_v(mass, eta, s, i as nat, init_pos, init_vel).0,
            vel == orbit_state_v(mass, eta, s, i as nat, init_pos, init_vel).1,
        decreases k - i,
    {
        let count = one_step(mass, eta, s, &mut pos, &mut vel);
        records.push(SampleRecord { x: pos.x, y: pos.y, vx: vel.x, vy: vel.y, substeps: count });
        i = i + 1;
        proof {
            assert(records@ =~= orbit_records_v(mass, eta, s, i as nat, init_pos, init_vel));
        }
    }
    records
}

/// Validate the run configuration and, if it is acceptable, run every orbit
/// of the batch for `k` sample intervals. The output holds one record
/// sequence per initial state, in order; each orbit's records depend on the
/// configuration and that orbit's own initial state alone.
pub fn run_batch(
    mass: i64,
    eta: i64,
    s: i64,
    k: usize,
    states: &Vec<(Position, Velocity)>,
) -> (result: Result<Vec<Vec<SampleRecord>>, ConfigError>)
    ensures
        mass <= 0 ==> result == Err::<Vec<Vec<SampleRecord>>, ConfigError>(
            ConfigError::NonPositiveMass,
        ),
        mass > 0 && s <= 0 ==> result == Err::<Vec<Vec<SampleRecord>>, ConfigError>(
            ConfigError::NonPositiveInterval,
        ),
        mass > 0 && s > 0 && k == 0 ==> result == Err::<Vec<Vec<SampleRecord>>, ConfigError>(
            ConfigError::ZeroSampleCount,
        ),
        mass > 0 && s > 0 && k > 0 ==> result is Ok,
        result is Ok ==> mass > 0 && s > 0 && k > 0,
        result is Ok ==> ({
            let out = result->Ok_0;
            out@.len() == states@.len() && forall|i: int|
                0 <= i < states@.len() ==> #[trigger] out@[i]@ == orbit_records_v(
                    mass,
                    eta,
                    s,
                    k as nat,
                    states@[i].0,
                    states@[i].1,
                )
        }),
{
    if mass <= 0 {
        return Err(ConfigError::NonPositiveMass);
    }
    if s <= 0 {
        return Err(ConfigError::NonPositiveInterval);
    }
    if k == 0 {
        return Err(ConfigError::ZeroSampleCount);
    }
    let mut out: Vec<Vec<SampleRecord>> = Vec::new();
    let mut i: usize = 0;
    while i < states.len()
        invariant
            mass > 0,
            s > 0,
            k > 0,
            i <= states@.len(),
            out@.len() == i,
            forall|j: int|
                0 <= j < i ==> #[trigger] out@[j]@ == orbit_records_v(
                    mass,
                    eta,
                    s,
                    k as nat,
                    states@[j].0,
                    states@[j].1,
                ),
        decreases states@.len() - i,
    {
        let st = states[i];
        out.push(run_orbit(mass, eta, s, k, st.0, st.1));
        i = i + 1;
    }
    Ok(out)
}

/// Determinism: the batch output is a mathematical function of the
/// configuration and the initial states alone, so repeated runs on equal
/// inputs produce identical record sequences.
pub proof fn lemma_batch_deterministic(
    mass1: i64,
    eta1: i64,
    s1: i64,
    k1: nat,
    states1: Seq<(Position, Velocity)>,
    mass2: i64,
    eta2: i64,
    s2: i64,
    k2: nat,
    states2: Seq<(Position, Velocity)>,
)
    requires
        mass1 == mass2,
        eta1 == eta2,
        s1 == s2,
        k1 == k2,
        states1 == states2,
    ensures
        batch_records_v(mass1, eta1, s1, k1, states1) == batch_records_v(
            mass2,
            eta2,
            s2,
            k2,
            states2,
        ),
{
}

/// Independence: an orbit's records in a batch depend only on that orbit's
/// own initial state, so running it alone or beside any other orbits gives
/// identical records.
pub proof fn lemma_orbit_independence(
    mass: i64,
    eta: i64,
    s: i64,
    k: nat,
    states1: Seq<(Position, Velocity)>,
    states2: Seq<(Position, Velocity)>,
    i: int,
    j: int,
)
    requires
        0 <= i < states1.len(),
        0 <= j < states2.len(),
        states1[i] == states2[j],
    ensures
        batch_records_v(mass, eta, s, k, states1)[i] == batch_records_v(mass, eta, s, k, states2)[j],
{
    assert(batch_records_v(mass, eta, s, k, states1)[i] == orbit_records_v(
        mass,
        eta,
        s,
        k,
        states1[i].0,
        states1[i].1,
    ));
    assert(batch_records_v(mass, eta, s, k, states2)[j] == orbit_records_v(
        mass,
        eta,
        s,
        k,
        states2[j].0,
        states2[j].1,
    ));
}

} // verus!
