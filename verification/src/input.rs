//! The input vocabulary: axes, buttons, directions, and the dead-zone
//! filter applied to raw axis samples.

use vstd::prelude::*;

verus! {

/// Fixed-point scale of analog values: this many units are one unit of
/// full deflection, so a normalized sample `v` is stored as `v * AXIS_SCALE`.
pub const AXIS_SCALE: i64 = 10000;

/// Raw samples strictly closer to zero than this (0.12 of full deflection)
/// are flattened to zero when axes are finalized.
pub const DEAD_ZONE: i64 = 1200;

/// One of the six analog axes a controller reports.
#[derive(Clone, Copy, Debug, Hash, PartialEq, Eq, Structural)]
pub enum Axis {
    LeftX,
    LeftY,
    RightX,
    RightY,
    TriggerLeft,
    TriggerRight,
}

/// A digital button on a controller.
#[derive(Clone, Copy, Debug, Hash, PartialEq, Eq, Structural)]
pub enum Button {
    South,
    East,
    West,
    North,

    Back,
    Guide,
    Start,
    LeftStick,
    RightStick,
    LeftShoulder,
    RightShoulder,
    DPadUp,
    DPadDown,
    DPadLeft,
    DPadRight,
}

/// The directional requirement of an axis query.
///
/// `Neutral` is the "no directional requirement" sentinel and never matches.
/// `Up`/`Left` share the negative branch of the comparison, `Down`/`Right`
/// the positive one, and `Either` asks only for a nonzero value.
#[derive(Clone, Copy, Debug, PartialEq, Eq, Structural)]
pub enum AxisDirection {
    Neutral,
    Either,
    Up,
    Left,
    Right,
    Down,
}

/// A logical input as the mapping layer describes it: a single button, a
/// single axis, or "either of this button and this axis".
#[derive(Clone, Copy, Debug, PartialEq, Eq, Structural)]
pub enum PlayerControllerInputType {
    ButtonInput(Button),
    AxisInput(Axis),
    Either(Button, Axis),
}

impl AxisDirection {
    /// What it means for a filtered axis value to satisfy this direction at a
    /// given (nonnegative) sensitivity threshold. Values within
    /// `[-sensitivity, sensitivity]` inclusive satisfy neither `Up`/`Left`
    /// nor `Down`/`Right`.
    pub open spec fn spec_compare(self, value: int, axis_sensitivity: int) -> bool {
        match self {
            AxisDirection::Neutral => false,
            AxisDirection::Either => value != 0,
            AxisDirection::Down | AxisDirection::Right => value > axis_sensitivity,
            AxisDirection::Up | AxisDirection::Left => value < -axis_sensitivity,
        }
    }

    /// Decide whether `value` satisfies this direction at threshold
    /// `axis_sensitivity`.
    pub fn compare(&self, value: i64, axis_sensitivity: i64) -> (r: bool)
        requires
            0 <= axis_sensitivity,
        ensures
            r == self.spec_compare(value as int, axis_sensitivity as int),
    {
        match self {
            AxisDirection::Neutral => false,
            AxisDirection::Either => value != 0,
            AxisDirection::Down | AxisDirection::Right => value > axis_sensitivity,
            AxisDirection::Up | AxisDirection::Left => value < -axis_sensitivity,
        }
    }
}

/// The dead-zone filter: raw samples with `|raw| < DEAD_ZONE` become zero,
/// anything else passes through unchanged.
pub open spec fn spec_apply_dead_zone(raw: int) -> int {
    if -DEAD_ZONE < raw && raw < DEAD_ZONE {
        0
    } else {
        raw
    }
}

/// Apply the dead-zone filter to one raw sample.
pub fn apply_dead_zone(raw: i64) -> (r: i64)
    ensures
        r == spec_apply_dead_zone(raw as int),
{
    if -DEAD_ZONE < raw && raw < DEAD_ZONE {
        0
    } else {
        raw
    }
}

} // verus!
