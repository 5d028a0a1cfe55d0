//! Whole-orbit tests: the circular-orbit scenario, energy conservation,
//! refinement of the safety constant, determinism, independence, and
//! configuration validation.

use gravity::driver::{run_batch, run_orbit, ConfigError, SampleRecord};
use gravity::fx::FX_ONE;
use gravity::state::{Position, Velocity};
use gravity::stepper::FX_ETA;

const SAMPLE_STEP: i64 = 439804651110; // 0.4, truncated to fixed point

fn to_f64(raw: i64) -> f64 {
    raw as f64 / 1099511627776.0
}

/// Specific orbital energy of a record: `E = |v|^2 / 2 - mass / |r|`.
fn energy(mass: f64, rec: &SampleRecord) -> f64 {
    let x = to_f64(rec.x);
    let y = to_f64(rec.y);
    let vx = to_f64(rec.vx);
    let vy = to_f64(rec.vy);
    0.5 * (vx * vx + vy * vy) - mass / (x * x + y * y).sqrt()
}

fn circular_state() -> (Position, Velocity) {
    (Position { x: FX_ONE, y: 0, abs: FX_ONE }, Velocity { x: 0, y: FX_ONE })
}

fn eccentric_state() -> (Position, Velocity) {
    (Position { x: FX_ONE, y: 0, abs: FX_ONE }, Velocity { x: 0, y: 879609302221 })
}

/// Largest relative energy drift between consecutive records.
fn max_energy_drift(records: &[SampleRecord]) -> f64 {
    let e0 = energy(1.0, &records[0]);
    let mut worst = 0.0f64;
    for pair in records.windows(2) {
        let drift = ((energy(1.0, &pair[1]) - energy(1.0, &pair[0])) / e0).abs();
        if drift > worst {
            worst = drift;
        }
    }
    worst
}

#[test]
fn circular_orbit_stays_on_unit_circle() {
    let (pos, vel) = circular_state();
    let records = run_orbit(FX_ONE, FX_ETA, SAMPLE_STEP, 5, pos, vel);
    assert_eq!(records.len(), 6);
    // record 0 is the initial state with no sub-steps consumed
    assert_eq!(records[0].x, FX_ONE);
    assert_eq!(records[0].y, 0);
    assert_eq!(records[0].vx, 0);
    assert_eq!(records[0].vy, FX_ONE);
    assert_eq!(records[0].substeps, 0);
    for rec in records.iter().skip(1) {
        let x = to_f64(rec.x);
        let y = to_f64(rec.y);
        let radius = (x * x + y * y).sqrt();
        assert!((radius - 1.0).abs() < 1e-4);
        // adaptive refinement subdivides the interval into many sub-steps
        assert!(rec.substeps > 1);
        assert!(rec.substeps < 5000);
    }
}

#[test]
fn energy_is_conserved_along_samples() {
    for (pos, vel) in [circular_state(), eccentric_state()] {
        let records = run_orbit(FX_ONE, FX_ETA, SAMPLE_STEP, 8, pos, vel);
        assert!(max_energy_drift(&records) < 1e-6);
    }
}

#[test]
fn halving_eta_does_not_hurt_accuracy() {
    // compare at a coarse eta, where the scheme's discretization error
    // dominates the fixed-point rounding noise
    let eta = FX_ETA * 32;
    let (pos, vel) = eccentric_state();
    let coarse = run_orbit(FX_ONE, eta, SAMPLE_STEP, 5, pos, vel);
    let fine = run_orbit(FX_ONE, eta / 2, SAMPLE_STEP, 5, pos, vel);
    // the energy drift must not get worse, while the sub-step counts grow
    assert!(max_energy_drift(&fine) <= max_energy_drift(&coarse) + 1e-9);
    let coarse_steps: u64 = coarse.iter().map(|r| r.substeps).sum();
    let fine_steps: u64 = fine.iter().map(|r| r.substeps).sum();
    assert!(fine_steps > coarse_steps);
}

#[test]
fn repeated_runs_are_bit_identical() {
    let states = vec![circular_state(), eccentric_state()];
    let first = run_batch(FX_ONE, FX_ETA, SAMPLE_STEP, 4, &states).unwrap();
    let second = run_batch(FX_ONE, FX_ETA, SAMPLE_STEP, 4, &states).unwrap();
    assert_eq!(first, second);
}

#[test]
fn orbits_are_independent() {
    let alone = run_batch(FX_ONE, FX_ETA, SAMPLE_STEP, 4, &vec![circular_state()]).unwrap();
    let together = run_batch(
        FX_ONE,
        FX_ETA,
        SAMPLE_STEP,
        4,
        &vec![circular_state(), eccentric_state()],
    )
    .unwrap();
    assert_eq!(alone[0], together[0]);
}

#[test]
fn batch_output_shape() {
    let states = vec![circular_state(), eccentric_state()];
    let out = run_batch(FX_ONE, FX_ETA, SAMPLE_STEP, 3, &states).unwrap();
    assert_eq!(out.len(), 2);
    for orbit in &out {
        assert_eq!(orbit.len(), 4);
    }
    // each orbit's rows equal an individual run from the same initial state
    for (i, (pos, vel)) in states.iter().enumerate() {
        assert_eq!(out[i], run_orbit(FX_ONE, FX_ETA, SAMPLE_STEP, 3, *pos, *vel));
    }
}

#[test]
fn non_positive_mass_is_rejected() {
    let states = vec![circular_state()];
    assert_eq!(
        run_batch(0, FX_ETA, SAMPLE_STEP, 3, &states),
        Err(ConfigError::NonPositiveMass)
    );
    assert_eq!(
        run_batch(-FX_ONE, FX_ETA, SAMPLE_STEP, 3, &states),
        Err(ConfigError::NonPositiveMass)
    );
}

#[test]
fn non_positive_interval_is_rejected() {
    let states = vec![circular_state()];
    assert_eq!(
        run_batch(FX_ONE, FX_ETA, 0, 3, &states),
        Err(ConfigError::NonPositiveInterval)
    );
    assert_eq!(
        run_batch(FX_ONE, FX_ETA, -1, 3, &states),
        Err(ConfigError::NonPositiveInterval)
    );
}

#[test]
fn zero_sample_count_is_rejected() {
    let states = vec![circular_state()];
    assert_eq!(
        run_batch(FX_ONE, FX_ETA, SAMPLE_STEP, 0, &states),
        Err(ConfigError::ZeroSampleCount)
    );
}

#[test]
fn config_errors_are_reported_in_order() {
    // an invalid mass is reported before the other invalid settings
    let states = vec![circular_state()];
    assert_eq!(run_batch(0, FX_ETA, 0, 0, &states), Err(ConfigError::NonPositiveMass));
    assert_eq!(run_batch(FX_ONE, FX_ETA, 0, 0, &states), Err(ConfigError::NonPositiveInterval));
}

#[test]
fn empty_batch_is_allowed() {
    let out = run_batch(FX_ONE, FX_ETA, SAMPLE_STEP, 3, &Vec::new()).unwrap();
    assert!(out.is_empty());
}

#[test]
fn smallest_interval_is_a_single_substep() {
    // an interval of one fixed-point quantum is consumed by one clamped sub-step
    let (mut pos, mut vel) = circular_state();
    let count = gravity::stepper::one_step(FX_ONE, FX_ETA, 1, &mut pos, &mut vel);
    assert_eq!(count, 1);
}
