//! Kinematic state of one orbit and the Hermite scheme's pure functions:
//! acceleration, jerk, correction coefficients, and the predictor and
//! corrector updates of position and velocity.
//!
//! All components are fixed-point scalars (see [`crate::fx`]). Every
//! executable function is specified exactly by a spec-level mirror, so the
//! whole predictor-corrector substep is a mathematical function of the state.

use vstd::prelude::*;
use crate::fx::{
    fx_add, fx_add_v, fx_div_v, fx_mul, fx_mul_v, fx_neg_v, fx_sqrt, fx_sqrt_v, fx_sub, fx_sub_v,
    fx_div, fx_neg, FX_ONE,
};

verus! {

/// Fixed-point representation of 1/2.
pub const FX_HALF: i64 = 549755813888;

/// Fixed-point representation of 1/6, truncated toward zero.
pub const FX_SIXTH: i64 = 183251937962;

/// Fixed-point representation of 1/24, truncated toward zero.
pub const FX_TWENTY_FOURTH: i64 = 45812984490;

/// Fixed-point representation of 1/120, truncated toward zero.
pub const FX_ONE_HUNDRED_TWENTIETH: i64 = 9162596898;

/// Fixed-point representation of 2.
pub const FX_TWO: i64 = 2199023255552;

/// Fixed-point representation of 3.
pub const FX_THREE: i64 = 3298534883328;

/// Fixed-point representation of 4.
pub const FX_FOUR: i64 = 4398046511104;

/// Fixed-point representation of 6.
pub const FX_SIX: i64 = 6597069766656;

/// Fixed-point representation of -6.
pub const FX_NEG_SIX: i64 = -6597069766656;

/// Fixed-point representation of 12.
pub const FX_TWELVE: i64 = 13194139533312;

/// The Euclidean norm of a fixed-point vector, `sqrt(x^2 + y^2)`.
pub open spec fn norm_v(x: i64, y: i64) -> i64 {
    fx_sqrt_v(fx_add_v(fx_mul_v(x, x), fx_mul_v(y, y)))
}

/// Particle position, with its Euclidean norm cached in `abs`.
#[derive(Clone, Copy, Debug, PartialEq, Eq, Structural)]
pub struct Position {
    pub x: i64,
    pub y: i64,
    pub abs: i64,
}

/// Particle velocity.
#[derive(Clone, Copy, Debug, PartialEq, Eq, Structural)]
pub struct Velocity {
    pub x: i64,
    pub y: i64,
}

/// Gravitational acceleration, always derived fresh from `(mass, Position)`.
#[derive(Clone, Copy, Debug, PartialEq, Eq, Structural)]
pub struct Acceleration {
    pub x: i64,
    pub y: i64,
}

/// Time-derivative of the acceleration, derived fresh from
/// `(mass, Position, Velocity)`.
#[derive(Clone, Copy, Debug, PartialEq, Eq, Structural)]
pub struct Jerk {
    pub x: i64,
    pub y: i64,
}

/// One of the two Hermite correction coefficient vectors.
#[derive(Clone, Copy, Debug, PartialEq, Eq, Structural)]
pub struct Coefficient {
    pub x: i64,
    pub y: i64,
}

/// Central inverse-square acceleration toward the origin:
/// `p = mass / abs^3`, `acc = (-p * x, -p * y)`.
pub open spec fn acceleration_v(mass: i64, pos: Position) -> Acceleration {
    let inv_dist = fx_div_v(FX_ONE, pos.abs);
    let p = fx_mul_v(fx_mul_v(fx_mul_v(mass, inv_dist), inv_dist), inv_dist);
    Acceleration { x: fx_mul_v(fx_neg_v(p), pos.x), y: fx_mul_v(fx_neg_v(p), pos.y) }
}

/// Analytic time-derivative of the acceleration along the velocity:
/// `p1 = mass / abs^3`, `p2 = 3 * (pos . vel) / abs^2`,
/// `jerk = ((p2 * pos) - vel) * p1` component-wise.
pub open spec fn jerk_v(mass: i64, pos: Position, vel: Velocity) -> Jerk {
    let inv_dist = fx_div_v(FX_ONE, pos.abs);
    let p1 = fx_mul_v(fx_mul_v(fx_mul_v(mass, inv_dist), inv_dist), inv_dist);
    let dot = fx_add_v(fx_mul_v(pos.x, vel.x), fx_mul_v(pos.y, vel.y));
    let p2 = fx_mul_v(fx_mul_v(fx_mul_v(FX_THREE, dot), inv_dist), inv_dist);
    Jerk {
        x: fx_mul_v(fx_sub_v(fx_mul_v(p2, pos.x), vel.x), p1),
        y: fx_mul_v(fx_sub_v(fx_mul_v(p2, pos.y), vel.y), p1),
    }
}

/// The two correction coefficient vectors of the Hermite scheme:
/// `C0 = -6 * (acc0 - acc1) - delta_t * (4 * jerk0 + 2 * jerk1)` and
/// `C1 = 12 * (acc0 - acc1) + 6 * delta_t * (jerk0 + jerk1)`.
pub open spec fn coefficients_v(
    acc0: Acceleration,
    acc1: Acceleration,
    jerk0: Jerk,
    jerk1: Jerk,
    delta_t: i64,
) -> (Coefficient, Coefficient) {
    let dx = fx_sub_v(acc0.x, acc1.x);
    let dy = fx_sub_v(acc0.y, acc1.y);
    (
        Coefficient {
            x: fx_sub_v(
                fx_mul_v(FX_NEG_SIX, dx),
                fx_mul_v(delta_t, fx_add_v(fx_mul_v(FX_FOUR, jerk0.x), fx_mul_v(FX_TWO, jerk1.x))),
            ),
            y: fx_sub_v(
                fx_mul_v(FX_NEG_SIX, dy),
                fx_mul_v(delta_t, fx_add_v(fx_mul_v(FX_FOUR, jerk0.y), fx_mul_v(FX_TWO, jerk1.y))),
            ),
        },
        Coefficient {
            x: fx_add_v(
                fx_mul_v(FX_TWELVE, dx),
                fx_mul_v(fx_mul_v(FX_SIX, delta_t), fx_add_v(jerk0.x, jerk1.x)),
            ),
            y: fx_add_v(
                fx_mul_v(FX_TWELVE, dy),
                fx_mul_v(fx_mul_v(FX_SIX, delta_t), fx_add_v(jerk0.y, jerk1.y)),
            ),
        },
    )
}

/// The explicit Taylor predictor applied to a position:
/// `pos += vel*dt + 1/2*acc*dt^2 + 1/6*jerk*dt^3`, with `abs` refreshed.
pub open spec fn predicted_position(
    pos: Position,
    vel: Velocity,
    acc: Acceleration,
    jerk: Jerk,
    delta_t: i64,
) -> Position {
    let dt2 = fx_mul_v(delta_t, delta_t);
    let dt3 = fx_mul_v(dt2, delta_t);
    let x = fx_add_v(
        pos.x,
        fx_add_v(
            fx_add_v(fx_mul_v(vel.x, delta_t), fx_mul_v(fx_mul_v(FX_HALF, acc.x), dt2)),
            fx_mul_v(fx_mul_v(FX_SIXTH, jerk.x), dt3),
        ),
    );
    let y = fx_add_v(
        pos.y,
        fx_add_v(
            fx_add_v(fx_mul_v(vel.y, delta_t), fx_mul_v(fx_mul_v(FX_HALF, acc.y), dt2)),
            fx_mul_v(fx_mul_v(FX_SIXTH, jerk.y), dt3),
        ),
    );
    Position { x, y, abs: norm_v(x, y) }
}

/// The Hermite corrector applied to a position:
/// `pos += 1/24*C0*dt^2 + 1/120*C1*dt^2`, with `abs` refreshed.
pub open spec fn corrected_position(
    pos: Position,
    coe0: Coefficient,
    coe1: Coefficient,
    delta_t: i64,
) -> Position {
    let dt2 = fx_mul_v(delta_t, delta_t);
    let x = fx_add_v(
        pos.x,
        fx_add_v(
            fx_mul_v(fx_mul_v(FX_TWENTY_FOURTH, coe0.x), dt2),
            fx_mul_v(fx_mul_v(FX_ONE_HUNDRED_TWENTIETH, coe1.x), dt2),
        ),
    );
    let y = fx_add_v(
        pos.y,
        fx_add_v(
            fx_mul_v(fx_mul_v(FX_TWENTY_FOURTH, coe0.y), dt2),
            fx_mul_v(fx_mul_v(FX_ONE_HUNDRED_TWENTIETH, coe1.y), dt2),
        ),
    );
    Position { x, y, abs: norm_v(x, y) }
}

/// The explicit Taylor predictor applied to a velocity:
/// `vel += acc*dt + 1/2*jerk*dt^2`.
pub open spec fn predicted_velocity(
    vel: Velocity,
    acc: Acceleration,
    jerk: Jerk,
    delta_t: i64,
) -> Velocity {
    let dt2 = fx_mul_v(delta_t, delta_t);
    Velocity {
        x: fx_add_v(
            vel.x,
            fx_add_v(fx_mul_v(acc.x, delta_t), fx_mul_v(fx_mul_v(FX_HALF, jerk.x), dt2)),
        ),
        y: fx_add_v(
            vel.y,
            fx_add_v(fx_mul_v(acc.y, delta_t), fx_mul_v(fx_mul_v(FX_HALF, jerk.y), dt2)),
        ),
    }
}

/// The Hermite corrector applied to a velocity:
/// `vel += (1/6*C0 + 1/24*C1) * dt`.
pub open spec fn corrected_velocity(
    vel: Velocity,
    coe0: Coefficient,
    coe1: Coefficient,
    delta_t: i64,
) -> Velocity {
    Velocity {
        x: fx_add_v(
            vel.x,
            fx_mul_v(
                fx_add_v(fx_mul_v(FX_SIXTH, coe0.x), fx_mul_v(FX_TWENTY_FOURTH, coe1.x)),
                delta_t,
            ),
        ),
        y: fx_add_v(
            vel.y,
            fx_mul_v(
                fx_add_v(fx_mul_v(FX_SIXTH, coe0.y), fx_mul_v(FX_TWENTY_FOURTH, coe1.y)),
                delta_t,
            ),
        ),
    }
}

impl Position {
    /// The cached norm is exactly the norm of the coordinates.
    pub open spec fn wf(self) -> bool {
        self.abs == norm_v(self.x, self.y)
    }

    /// Refresh the cached norm from the coordinates.
    fn set_abs(&mut self)
        ensures
            final(self).x == old(self).x,
            final(self).y == old(self).y,
            final(self).abs == norm_v(old(self).x, old(self).y),
            final(self).wf(),
    {
        self.abs = fx_sqrt(fx_add(fx_mul(self.x, self.x), fx_mul(self.y, self.y)));
    }

    /// Apply the explicit Taylor predictor in place.
    pub fn predict(&mut self, vel: &Velocity, acc: &Acceleration, jerk: &Jerk, delta_t: i64)
        ensures
            *final(self) == predicted_position(*old(self), *vel, *acc, *jerk, delta_t),
            final(self).wf(),
    {
        let delta_t2 = fx_mul(delta_t, delta_t);
        let delta_t3 = fx_mul(delta_t2, delta_t);
        self.x = fx_add(
            self.x,
            fx_add(
                fx_add(
                    fx_mul(vel.x, delta_t),
                    fx_mul(fx_mul(FX_HALF, acc.x), delta_t2),
                ),
                fx_mul(fx_mul(FX_SIXTH, jerk.x), delta_t3),
            ),
        );
        self.y = fx_add(
            self.y,
            fx_add(
                fx_add(
                    fx_mul(vel.y, delta_t),
                    fx_mul(fx_mul(FX_HALF, acc.y), delta_t2),
                ),
                fx_mul(fx_mul(FX_SIXTH, jerk.y), delta_t3),
            ),
        );
        self.set_abs();
    }

    /// Apply the Hermite corrector in place.
    pub fn correct(&mut self, coe0: &Coefficient, coe1: &Coefficient, delta_t: i64)
        ensures
            *final(self) == corrected_position(*old(self), *coe0, *coe1, delta_t),
            final(self).wf(),
    {
        let delta_t2 = fx_mul(delta_t, delta_t);
        self.x = fx_add(
            self.x,
            fx_add(
                fx_mul(fx_mul(FX_TWENTY_FOURTH, coe0.x), delta_t2),
                fx_mul(fx_mul(FX_ONE_HUNDRED_TWENTIETH, coe1.x), delta_t2),
            ),
        );
        self.y = fx_add(
            self.y,
            fx_add(
                fx_mul(fx_mul(FX_TWENTY_FOURTH, coe0.y), delta_t2),
                fx_mul(fx_mul(FX_ONE_HUNDRED_TWENTIETH, coe1.y), delta_t2),
            ),
        );
        self.set_abs();
    }
}

impl Velocity {
    /// Apply the explicit Taylor predictor in place.
    pub fn predict(&mut self, acc: &Acceleration, jerk: &Jerk, delta_t: i64)
        ensures
            *final(self) == predicted_velocity(*old(self), *acc, *jerk, delta_t),
    {
        let delta_t2 = fx_mul(delta_t, delta_t);
        self.x = fx_add(
            self.x,
            fx_add(fx_mul(acc.x, delta_t), fx_mul(fx_mul(FX_HALF, jerk.x), delta_t2)),
        );
        self.y = fx_add(
            self.y,
            fx_add(fx_mul(acc.y, delta_t), fx_mul(fx_mul(FX_HALF, jerk.y), delta_t2)),
        );
    }

    /// Apply the Hermite corrector in place.
    pub fn correct(&mut self, coe0: &Coefficient, coe1: &Coefficient, delta_t: i64)
        ensures
            *final(self) == corrected_velocity(*old(self), *coe0, *coe1, delta_t),
    {
        self.x = fx_add(
            self.x,
            fx_mul(
                fx_add(fx_mul(FX_SIXTH, coe0.x), fx_mul(FX_TWENTY_FOURTH, coe1.x)),
                delta_t,
            ),
        );
        self.y = fx_add(
            self.y,
            fx_mul(
                fx_add(fx_mul(FX_SIXTH, coe0.y), fx_mul(FX_TWENTY_FOURTH, coe1.y)),
                delta_t,
            ),
        );
    }
}

impl Acceleration {
    /// Compute the acceleration at `pos` due to the central mass.
    pub fn new(mass: i64, pos: &Position) -> (acc: Acceleration)
        ensures
            acc == acceleration_v(mass, *pos),
    {
        let inv_dist = fx_div(FX_ONE, pos.abs);
        let p = fx_mul(fx_mul(fx_mul(mass, inv_dist), inv_dist), inv_dist);
        let np = fx_neg(p);
        Acceleration { x: fx_mul(np, pos.x), y: fx_mul(np, pos.y) }
    }
}

impl Jerk {
    /// Compute the jerk at `(pos, vel)` due to the central mass.
    pub fn new(mass: i64, pos: &Position, vel: &Velocity) -> (jerk: Jerk)
        ensures
            jerk == jerk_v(mass, *pos, *vel),
    {
        let inv_dist = fx_div(FX_ONE, pos.abs);
        let p1 = fx_mul(fx_mul(fx_mul(mass, inv_dist), inv_dist), inv_dist);
        let dot = fx_add(fx_mul(pos.x, vel.x), fx_mul(pos.y, vel.y));
        let p2 = fx_mul(fx_mul(fx_mul(FX_THREE, dot), inv_dist), inv_dist);
        Jerk {
            x: fx_mul(fx_sub(fx_mul(p2, pos.x), vel.x), p1),
            y: fx_mul(fx_sub(fx_mul(p2, pos.y), vel.y), p1),
        }
    }
}

impl Coefficient {
    /// Compute the pair of Hermite correction coefficient vectors.
    pub fn new(
        acc0: &Acceleration,
        acc1: &Acceleration,
        jerk0: &Jerk,
        jerk1: &Jerk,
        delta_t: i64,
    ) -> (coe: (Coefficient, Coefficient))
        ensures
            coe == coefficients_v(*acc0, *acc1, *jerk0, *jerk1, delta_t),
    {
        let dx = fx_sub(acc0.x, acc1.x);
        let dy = fx_sub(acc0.y, acc1.y);
        (
            Coefficient {
                x: fx_sub(
                    fx_mul(FX_NEG_SIX, dx),
                    fx_mul(delta_t, fx_add(fx_mul(FX_FOUR, jerk0.x), fx_mul(FX_TWO, jerk1.x))),
                ),
                y: fx_sub(
                    fx_mul(FX_NEG_SIX, dy),
                    fx_mul(delta_t, fx_add(fx_mul(FX_FOUR, jerk0.y), fx_mul(FX_TWO, jerk1.y))),
                ),
            },
            Coefficient {
                x: fx_add(
                    fx_mul(FX_TWELVE, dx),
                    fx_mul(fx_mul(FX_SIX, delta_t), fx_add(jerk0.x, jerk1.x)),
                ),
                y: fx_add(
                    fx_mul(FX_TWELVE, dy),
                    fx_mul(fx_mul(FX_SIX, delta_t), fx_add(jerk0.y, jerk1.y)),
                ),
            },
        )
    }
}

} // verus!
