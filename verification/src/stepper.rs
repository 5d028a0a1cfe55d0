//! The adaptive stepper: advance one orbit by exactly one fixed sample
//! interval, using as many adaptively sized Hermite predictor-corrector
//! sub-steps as the local step-size criterion demands.
//!
//! The candidate sub-step size is `eta * sqrt(|acc|^2 / |jerk|^2)`, floored at
//! one fixed-point quantum so that every sub-step makes positive progress; a
//! candidate that would overshoot the sample boundary is clamped to the exact
//! remainder, so the sub-step sequence lands exactly on the boundary. The
//! whole interval is specified by the recursive spec function [`interval_v`],
//! and [`lemma_exact_interval_landing`] proves that the sub-step sizes
//! consumed sum exactly to the sample interval.

use vstd::prelude::*;
use crate::fx::{fx_add, fx_add_v, fx_div, fx_div_v, fx_mul, fx_mul_v, fx_sqrt, fx_sqrt_v};
use crate::state::{
    acceleration_v, coefficients_v, corrected_position, corrected_velocity, jerk_v,
    predicted_position, predicted_velocity, Acceleration, Coefficient, Jerk, Position, Velocity,
};

verus! {

/// Default value of the adaptive-step safety constant (0.001, truncated to
/// fixed point).
pub const FX_ETA: i64 = 1099511627;

/// The adaptive step-size criterion: `eta * sqrt(|acc|^2 / |jerk|^2)`.
pub open spec fn delta_t_raw_v(eta: i64, acc: Acceleration, jerk: Jerk) -> i64 {
    fx_mul_v(
        eta,
        fx_sqrt_v(
            fx_div_v(
                fx_add_v(fx_mul_v(acc.x, acc.x), fx_mul_v(acc.y, acc.y)),
                fx_add_v(fx_mul_v(jerk.x, jerk.x), fx_mul_v(jerk.y, jerk.y)),
            ),
        ),
    )
}

/// The adaptive step-size candidate evaluated at a state.
#[verifier::opaque]
pub open spec fn step_candidate_v(mass: i64, eta: i64, pos: Position, vel: Velocity) -> i64 {
    delta_t_raw_v(eta, acceleration_v(mass, pos), jerk_v(mass, pos, vel))
}

/// The sub-step size taken from a state: the adaptive candidate, floored at
/// one fixed-point quantum so a sub-step always consumes positive time.
pub open spec fn delta_t_v(mass: i64, eta: i64, pos: Position, vel: Velocity) -> i64 {
    let raw = step_candidate_v(mass, eta, pos, vel);
    if raw < 1 {
        1
    } else {
        raw
    }
}

/// One full predictor-corrector sub-step of size `delta_t` from `(pos, vel)`.
#[verifier::opaque]
pub open spec fn substep_v(mass: i64, pos: Position, vel: Velocity, delta_t: i64) -> (
    Position,
    Velocity,
) {
    let acc0 = acceleration_v(mass, pos);
    let jerk0 = jerk_v(mass, pos, vel);
    let pos1 = predicted_position(pos, vel, acc0, jerk0, delta_t);
    let vel1 = predicted_velocity(vel, acc0, jerk0, delta_t);
    let acc1 = acceleration_v(mass, pos1);
    let jerk1 = jerk_v(mass, pos1, vel1);
    let coe = coefficients_v(acc0, acc1, jerk0, jerk1, delta_t);
    (
        corrected_position(pos1, coe.0, coe.1, delta_t),
        corrected_velocity(vel1, coe.0, coe.1, delta_t),
    )
}

/// The state reached, and the number of sub-steps consumed, when advancing
/// from `(pos, vel)` at elapsed time `t` to the end of a sample interval of
/// length `s`. A candidate sub-step that would overshoot the boundary is
/// clamped to the exact remainder and ends the interval.
pub open spec fn interval_v(mass: i64, eta: i64, s: i64, t: i64, pos: Position, vel: Velocity) -> (
    Position,
    Velocity,
    int,
)
    decreases s - t,
{
    let dt = delta_t_v(mass, eta, pos, vel);
    if dt > s - t {
        let stepped = substep_v(mass, pos, vel, (s - t) as i64);
        (stepped.0, stepped.1, 1)
    } else {
        let stepped = substep_v(mass, pos, vel, dt);
        let rest = interval_v(mass, eta, s, (t + dt) as i64, stepped.0, stepped.1);
        (rest.0, rest.1, rest.2 + 1)
    }
}

/// The sizes of the sub-steps consumed by [`interval_v`], in order.
pub open spec fn interval_sizes_v(
    mass: i64,
    eta: i64,
    s: i64,
    t: i64,
    pos: Position,
    vel: Velocity,
) -> Seq<i64>
    decreases s - t,
{
    let dt = delta_t_v(mass, eta, pos, vel);
    if dt > s - t {
        seq![(s - t) as i64]
    } else {
        let stepped = substep_v(mass, pos, vel, dt);
        seq![dt] + interval_sizes_v(mass, eta, s, (t + dt) as i64, stepped.0, stepped.1)
    }
}

/// The sum of a sequence of fixed-point step sizes.
pub open spec fn sum_sizes(sizes: Seq<i64>) -> int
    decreases sizes.len(),
{
    if sizes.len() == 0 {
        0
    } else {
        sizes[0] + sum_sizes(sizes.drop_first())
    }
}

/// The sub-step sizes consumed over the rest of an interval sum exactly to
/// the remaining time, and there is one size per counted sub-step.
#[verifier::rlimit(100)]
#[verifier::spinoff_prover]
pub proof fn lemma_interval_sizes_sum(
    mass: i64,
    eta: i64,
    s: i64,
    t: i64,
    pos: Position,
    vel: Velocity,
)
    requires
        0 <= t <= s,
    ensures
        sum_sizes(interval_sizes_v(mass, eta, s, t, pos, vel)) == s - t,
        interval_sizes_v(mass, eta, s, t, pos, vel).len() == interval_v(
            mass,
            eta,
            s,
            t,
            pos,
            vel,
        ).2,
    decreases s - t,
{
    reveal_with_fuel(sum_sizes, 3);
    let dt = delta_t_v(mass, eta, pos, vel);
    let sizes = interval_sizes_v(mass, eta, s, t, pos, vel);
    if dt > s - t {
        assert(sizes == seq![(s - t) as i64]);
        assert(sizes.drop_first().len() == 0);
    } else {
        let stepped = substep_v(mass, pos, vel, dt);
        let tail = interval_sizes_v(mass, eta, s, (t + dt) as i64, stepped.0, stepped.1);
        lemma_interval_sizes_sum(mass, eta, s, (t + dt) as i64, stepped.0, stepped.1);
        assert(sizes == seq![dt] + tail);
        assert(sizes.drop_first() =~= tail);
        assert(sizes[0] == dt);
    }
}

/// Every sub-step leaves the position well-formed: both the predictor and
/// the corrector end by refreshing the cached norm from the coordinates.
pub proof fn lemma_substep_wf(mass: i64, pos: Position, vel: Velocity, delta_t: i64)
    ensures
        substep_v(mass, pos, vel, delta_t).0.wf(),
{
    reveal(substep_v);
}

/// The position at the end of a sample interval is well-formed, whatever
/// state the interval started from.
pub proof fn lemma_interval_wf(mass: i64, eta: i64, s: i64, t: i64, pos: Position, vel: Velocity)
    ensures
        interval_v(mass, eta, s, t, pos, vel).0.wf(),
    decreases s - t,
{
    let dt = delta_t_v(mass, eta, pos, vel);
    if dt > s - t {
        lemma_substep_wf(mass, pos, vel, (s - t) as i64);
    } else {
        let stepped = substep_v(mass, pos, vel, dt);
        lemma_interval_wf(mass, eta, s, (t + dt) as i64, stepped.0, stepped.1);
    }
}

/// Exact interval landing: after one full Adaptive Stepper call the internal
/// sub-step sizes consumed sum exactly to the sample interval `s`, whatever
/// their number, and their number is exactly the reported sub-step count.
pub proof fn lemma_exact_interval_landing(
    mass: i64,
    eta: i64,
    s: i64,
    pos: Position,
    vel: Velocity,
)
    requires
        1 <= s,
    ensures
        sum_sizes(interval_sizes_v(mass, eta, s, 0, pos, vel)) == s,
        interval_sizes_v(mass, eta, s, 0, pos, vel).len() == interval_v(
            mass,
            eta,
            s,
            0,
            pos,
            vel,
        ).2,
{
    lemma_interval_sizes_sum(mass, eta, s, 0, pos, vel);
}

/// Compute the adaptive step-size candidate from the current acceleration
/// and jerk.
pub fn comp_delta_t(eta: i64, acc: &Acceleration, jerk: &Jerk) -> (delta_t: i64)
    ensures
        delta_t == delta_t_raw_v(eta, *acc, *jerk),
{
    fx_mul(
        eta,
        fx_sqrt(
            fx_div(
                fx_add(fx_mul(acc.x, acc.x), fx_mul(acc.y, acc.y)),
                fx_add(fx_mul(jerk.x, jerk.x), fx_mul(jerk.y, jerk.y)),
            ),
        ),
    )
}

/// Apply one predictor-corrector sub-step of size `delta_t` in place, given
/// the acceleration and jerk already computed at the current state.
fn apply_substep(
    mass: i64,
    pos: &mut Position,
    vel: &mut Velocity,
    acc0: Acceleration,
    jerk0: Jerk,
    delta_t: i64,
)
    requires
        acc0 == acceleration_v(mass, *old(pos)),
        jerk0 == jerk_v(mass, *old(pos), *old(vel)),
    ensures
        (*final(pos), *final(vel)) == substep_v(mass, *old(pos), *old(vel), delta_t),
{
    proof {
        reveal(substep_v);
    }
    pos.predict(vel, &acc0, &jerk0, delta_t);
    vel.predict(&acc0, &jerk0, delta_t);
    let acc1 = Acceleration::new(mass, pos);
    let jerk1 = Jerk::new(mass, pos, vel);
    let (coe0, coe1) = Coefficient::new(&acc0, &acc1, &jerk0, &jerk1, delta_t);
    pos.correct(&coe0, &coe1, delta_t);
    vel.correct(&coe0, &coe1, delta_t);
}

/// Advance from elapsed time `t` to the end of the sample interval.
fn interval_rec(
    mass: i64,
    eta: i64,
    s: i64,
    t: i64,
    pos: &mut Position,
    vel: &mut Velocity,
) -> (count: u64)
    requires
        0 <= t <= s,
    ensures
        ({
            let r = interval_v(mass, eta, s, t, *old(pos), *old(vel));
            *final(pos) == r.0 && *final(vel) == r.1 && count as int == r.2
        }),
        1 <= count,
        count as int <= s - t + 1,
    decreases s - t,
{
    let acc0 = Acceleration::new(mass, pos);
    let jerk0 = Jerk::new(mass, pos, vel);
    let raw = comp_delta_t(eta, &acc0, &jerk0);
    proof {
        reveal(step_candidate_v);
    }
    let dt: i64 = if raw < 1 {
        1
    } else {
        raw
    };
    if dt > s - t {
        apply_substep(mass, pos, vel, acc0, jerk0, s - t);
        1
    } else {
        apply_substep(mass, pos, vel, acc0, jerk0, dt);
        let c = interval_rec(mass, eta, s, t + dt, pos, vel);
        c + 1
    }
}

/// Advance `(pos, vel)` in place by exactly one sample interval of length
/// `s`, taking as many adaptive sub-steps as the step-size criterion demands,
/// and return the number of sub-steps consumed.
pub fn one_step(
    mass: i64,
    eta: i64,
    s: i64,
    pos: &mut Position,
    vel: &mut Velocity,
) -> (count: u64)
    requires
        1 <= s,
    ensures
        ({
            let r = interval_v(mass, eta, s, 0, *old(pos), *old(vel));
            *final(pos) == r.0 && *final(vel) == r.1 && count as int == r.2
        }),
        1 <= count,
        count as int <= s + 1,
        final(pos).wf(),
{
    let count = interval_rec(mass, eta, s, 0, pos, vel);
    proof {
        lemma_interval_wf(mass, eta, s, 0, *old(pos), *old(vel));
    }
    count
}

} // verus!
