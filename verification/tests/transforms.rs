//! Rotation and flip state: stepping, reconciliation, normalization.

use noctua::transform::{FlipDirection, Rotation, RotationMode, TransformState};

#[test]
fn standard_rotation_steps_clockwise() {
    assert_eq!(Rotation::Zero.step_cw(), Rotation::Cw90);
    assert_eq!(Rotation::Cw90.step_cw(), Rotation::Cw180);
    assert_eq!(Rotation::Cw180.step_cw(), Rotation::Cw270);
    assert_eq!(Rotation::Cw270.step_cw(), Rotation::Zero);
}

#[test]
fn standard_rotation_steps_counter_clockwise() {
    assert_eq!(Rotation::Zero.step_ccw(), Rotation::Cw270);
    assert_eq!(Rotation::Cw270.step_ccw(), Rotation::Cw180);
    assert_eq!(Rotation::Cw180.step_ccw(), Rotation::Cw90);
    assert_eq!(Rotation::Cw90.step_ccw(), Rotation::Zero);
}

#[test]
fn four_cw_steps_restore_rotation_mode() {
    let m = RotationMode::Standard(Rotation::Cw90);
    let m4 = m.rotate_cw().rotate_cw().rotate_cw().rotate_cw();
    assert_eq!(m4, m);
}

#[test]
fn to_degrees_values() {
    assert_eq!(Rotation::Zero.to_degrees(), 0);
    assert_eq!(Rotation::Cw90.to_degrees(), 90);
    assert_eq!(Rotation::Cw180.to_degrees(), 180);
    assert_eq!(Rotation::Cw270.to_degrees(), 270);
}

#[test]
fn fine_47_degrees_reconciles_to_180_on_cw_step() {
    // 47 degrees rounds to 90; stepping clockwise gives 180.
    let m = RotationMode::Fine(4700);
    assert_eq!(m.rotate_cw(), RotationMode::Standard(Rotation::Cw180));
}

#[test]
fn fine_snap_ties_round_away_from_zero() {
    // Exactly 45 degrees snaps up to 90.
    assert_eq!(RotationMode::Fine(4500).snap(), Rotation::Cw90);
    // Just below the tie snaps down to 0.
    assert_eq!(RotationMode::Fine(4499).snap(), Rotation::Zero);
}

#[test]
fn fine_negative_angle_snaps_modulo_full_turn() {
    // -47 degrees snaps to -90, which is 270 in [0, 360).
    assert_eq!(RotationMode::Fine(-4700).snap(), Rotation::Cw270);
    assert_eq!(RotationMode::Fine(-4700).rotate_ccw(), RotationMode::Standard(Rotation::Cw180));
}

#[test]
fn fine_large_angle_wraps() {
    // 407 degrees snaps to 360 + 45 -> 450 / 90 = 5 quarter turns = 1 mod 4.
    assert_eq!(RotationMode::Fine(40700).snap(), Rotation::Cw90);
}

#[test]
fn cw_then_ccw_cancels() {
    let m = RotationMode::Standard(Rotation::Cw180);
    assert_eq!(m.rotate_cw().rotate_ccw(), m);
}

#[test]
fn flip_toggles_are_independent() {
    let t = TransformState::identity();
    let th = t.toggled(FlipDirection::Horizontal);
    assert!(th.flip_h);
    assert!(!th.flip_v);
    let thv = th.toggled(FlipDirection::Vertical);
    assert!(thv.flip_h);
    assert!(thv.flip_v);
    let back = thv.toggled(FlipDirection::Horizontal).toggled(FlipDirection::Vertical);
    assert_eq!(back, t);
}

#[test]
fn default_transform_is_identity() {
    let t: TransformState = Default::default();
    assert_eq!(t, TransformState::identity());
    assert_eq!(t.rotation, RotationMode::Standard(Rotation::Zero));
}
