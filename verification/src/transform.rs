//! Rotation and flip state, with the rules that compose them.
//!
//! Rotation lives in one of two representations: quarter-turn steps
//! ([`Rotation`]) or a fine-grained angle in hundredths of a degree
//! ([`RotationMode::Fine`]).  Exactly one representation is authoritative
//! at a time; stepping a fine angle by a quarter turn first snaps it to
//! the nearest multiple of 90 degrees (ties round away from zero), so a
//! backend that only understands quarter turns never sees a fine angle.

use vstd::prelude::*;

verus! {

/// Direction of a mirror flip.
#[derive(Clone, Copy, PartialEq, Eq, Structural, Debug)]
pub enum FlipDirection {
    Horizontal,
    Vertical,
}

/// Rotation constrained to quarter turns, measured clockwise.
#[derive(Clone, Copy, PartialEq, Eq, Structural, Debug)]
pub enum Rotation {
    Zero,
    Cw90,
    Cw180,
    Cw270,
}

impl Rotation {
    /// Number of clockwise quarter turns, in `0..4`.
    pub open spec fn spec_qturns(self) -> int {
        match self {
            Rotation::Zero => 0,
            Rotation::Cw90 => 1,
            Rotation::Cw180 => 2,
            Rotation::Cw270 => 3,
        }
    }

    /// The rotation angle in degrees, in `{0, 90, 180, 270}`.
    pub open spec fn spec_degrees(self) -> int {
        self.spec_qturns() * 90
    }

    /// The rotation for a quarter-turn count in `0..4`.
    pub open spec fn spec_from_qturns(q: int) -> Rotation {
        if q == 1 {
            Rotation::Cw90
        } else if q == 2 {
            Rotation::Cw180
        } else if q == 3 {
            Rotation::Cw270
        } else {
            Rotation::Zero
        }
    }

    /// The number of clockwise quarter turns.
    pub fn qturns(self) -> (q: u32)
        ensures
            q == self.spec_qturns(),
    {
        match self {
            Rotation::Zero => 0,
            Rotation::Cw90 => 1,
            Rotation::Cw180 => 2,
            Rotation::Cw270 => 3,
        }
    }

    /// The rotation angle in degrees.
    pub fn to_degrees(self) -> (d: u32)
        ensures
            d == self.spec_degrees(),
    {
        match self {
            Rotation::Zero => 0,
            Rotation::Cw90 => 90,
            Rotation::Cw180 => 180,
            Rotation::Cw270 => 270,
        }
    }

    /// Build a rotation from a quarter-turn count.
    pub fn from_qturns(q: u32) -> (r: Rotation)
        requires
            q < 4,
        ensures
            r == Rotation::spec_from_qturns(q as int),
    {
        if q == 1 {
            Rotation::Cw90
        } else if q == 2 {
            Rotation::Cw180
        } else if q == 3 {
            Rotation::Cw270
        } else {
            Rotation::Zero
        }
    }

    /// One quarter turn clockwise.
    pub fn step_cw(self) -> (r: Rotation)
        ensures
            r == Rotation::spec_from_qturns((self.spec_qturns() + 1) % 4),
    {
        match self {
            Rotation::Zero => Rotation::Cw90,
            Rotation::Cw90 => Rotation::Cw180,
            Rotation::Cw180 => Rotation::Cw270,
            Rotation::Cw270 => Rotation::Zero,
        }
    }

    /// One quarter turn counter-clockwise.
    pub fn step_ccw(self) -> (r: Rotation)
        ensures
            r == Rotation::spec_from_qturns((self.spec_qturns() + 3) % 4),
    {
        match self {
            Rotation::Zero => Rotation::Cw270,
            Rotation::Cw90 => Rotation::Zero,
            Rotation::Cw180 => Rotation::Cw90,
            Rotation::Cw270 => Rotation::Cw180,
        }
    }
}

/// The quarter-turn count, in `0..4`, that a fine angle in hundredths of
/// a degree snaps to: the nearest multiple of 90 degrees, with ties
/// rounding away from zero, taken modulo a full rotation.
pub open spec fn spec_snap_qturns(centi: int) -> int {
    let mag = if centi >= 0 {
        centi
    } else {
        -centi
    };
    let q = (mag + 4500) / 9000;
    if centi >= 0 {
        q % 4
    } else {
        (4 - q % 4) % 4
    }
}

/// Which rotation representation is authoritative.
#[derive(Clone, Copy, PartialEq, Eq, Structural, Debug)]
pub enum RotationMode {
    /// A quarter-turn rotation.
    Standard(Rotation),
    /// An arbitrary angle, in hundredths of a degree (clockwise).
    Fine(i32),
}

impl RotationMode {
    /// The quarter-turn count this mode stands for, snapping a fine
    /// angle to the nearest multiple of 90 degrees.
    pub open spec fn spec_qturns(self) -> int {
        match self {
            RotationMode::Standard(r) => r.spec_qturns(),
            RotationMode::Fine(c) => spec_snap_qturns(c as int),
        }
    }

    /// The result of stepping this mode one quarter turn clockwise:
    /// always a standard rotation.
    pub open spec fn spec_rotate_cw(self) -> RotationMode {
        RotationMode::Standard(Rotation::spec_from_qturns((self.spec_qturns() + 1) % 4))
    }

    /// The result of stepping this mode one quarter turn
    /// counter-clockwise: always a standard rotation.
    pub open spec fn spec_rotate_ccw(self) -> RotationMode {
        RotationMode::Standard(Rotation::spec_from_qturns((self.spec_qturns() + 3) % 4))
    }

    /// Reconcile this mode to a plain quarter-turn rotation.
    pub fn snap(self) -> (r: Rotation)
        ensures
            r.spec_qturns() == self.spec_qturns(),
            r == Rotation::spec_from_qturns(self.spec_qturns()),
    {
        match self {
            RotationMode::Standard(r) => r,
            RotationMode::Fine(c) => {
                let neg = c < 0;
                let mag: u64 = if neg {
                    (-(c as i64)) as u64
                } else {
                    c as u64
                };
                let q: u64 = (mag + 4500) / 9000;
                let q4: u64 = q % 4;
                let snapped: u64 = if neg {
                    (4 - q4) % 4
                } else {
                    q4
                };
                Rotation::from_qturns(snapped as u32)
            },
        }
    }

    /// Step one quarter turn clockwise, reconciling a fine angle first.
    pub fn rotate_cw(self) -> (r: RotationMode)
        ensures
            r == self.spec_rotate_cw(),
            r is Standard,
    {
        RotationMode::Standard(self.snap().step_cw())
    }

    /// Step one quarter turn counter-clockwise, reconciling a fine angle
    /// first.
    pub fn rotate_ccw(self) -> (r: RotationMode)
        ensures
            r == self.spec_rotate_ccw(),
            r is Standard,
    {
        RotationMode::Standard(self.snap().step_ccw())
    }
}

/// Accumulated rotation and flip state of a document.
///
/// The flip flags are independent booleans; two flips on the same axis
/// cancel in the produced pixels but are not collapsed here.
#[derive(Clone, Copy, PartialEq, Eq, Structural, Debug)]
pub struct TransformState {
    pub rotation: RotationMode,
    pub flip_h: bool,
    pub flip_v: bool,
}

impl TransformState {
    /// The state of a freshly opened document: no rotation, no flips.
    pub open spec fn spec_identity() -> TransformState {
        TransformState { rotation: RotationMode::Standard(Rotation::Zero), flip_h: false, flip_v: false }
    }

    /// Build the identity state.
    pub fn identity() -> (t: TransformState)
        ensures
            t == TransformState::spec_identity(),
    {
        TransformState { rotation: RotationMode::Standard(Rotation::Zero), flip_h: false, flip_v: false }
    }

    /// The state with the flip flag for one axis toggled.
    pub open spec fn spec_toggled(self, direction: FlipDirection) -> TransformState {
        match direction {
            FlipDirection::Horizontal => TransformState { flip_h: !self.flip_h, ..self },
            FlipDirection::Vertical => TransformState { flip_v: !self.flip_v, ..self },
        }
    }

    /// Toggle the flip flag for one axis.
    pub fn toggled(self, direction: FlipDirection) -> (t: TransformState)
        ensures
            t == self.spec_toggled(direction),
    {
        match direction {
            FlipDirection::Horizontal => TransformState { flip_h: !self.flip_h, ..self },
            FlipDirection::Vertical => TransformState { flip_v: !self.flip_v, ..self },
        }
    }
}

impl Default for TransformState {
    /// The identity transform.
    fn default() -> (t: Self)
        ensures
            t == TransformState::spec_identity(),
    {
        TransformState::identity()
    }
}

/// Four clockwise quarter-turn steps return any rotation state to the
/// quarter-turn count it started from, reconciled to standard form.
pub proof fn lemma_rotate_cw_four_restores(m: RotationMode)
    ensures
        m.spec_rotate_cw().spec_rotate_cw().spec_rotate_cw().spec_rotate_cw()
            == RotationMode::Standard(Rotation::spec_from_qturns(m.spec_qturns())),
        m is Standard ==> m.spec_rotate_cw().spec_rotate_cw().spec_rotate_cw().spec_rotate_cw() == m,
{
}

/// Stepping clockwise and then counter-clockwise (or the other way
/// round) restores the reconciled rotation.
pub proof fn lemma_rotate_cw_ccw_cancel(m: RotationMode)
    ensures
        m.spec_rotate_cw().spec_rotate_ccw() == RotationMode::Standard(
            Rotation::spec_from_qturns(m.spec_qturns()),
        ),
        m.spec_rotate_ccw().spec_rotate_cw() == RotationMode::Standard(
            Rotation::spec_from_qturns(m.spec_qturns()),
        ),
{
}

} // verus!
