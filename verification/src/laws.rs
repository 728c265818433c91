//! Registry-wide laws: how the mutators compose and what the activation
//! predicates mean, proved once and for all states the API can reach.

use vstd::prelude::*;

use crate::input::{Axis, AxisDirection, Button, DEAD_ZONE};
use crate::registry::{
    add_rel, finalized_value, remove_rel, set_button_rel, update_axes_rel, GamepadContext,
};

verus! {

/// Pressing a button and then releasing it on the same known device makes
/// `is_button_active` answer `true` in between and `false` afterwards, at
/// the index of that device.
pub proof fn lemma_button_press_release(
    s0: GamepadContext,
    s1: GamepadContext,
    s2: GamepadContext,
    gamepad_id: u32,
    button: Button,
)
    requires
        s0.wf(),
        set_button_rel(s0, s1, gamepad_id, button, true),
        set_button_rel(s1, s2, gamepad_id, button, false),
    ensures
        forall|k: u32|
            (k as int) < s0.gamepads@.len() && (#[trigger] s0.gamepads@[k as int]).device_id
                == gamepad_id ==> s1.spec_is_button_active(k, button)
                && !s2.spec_is_button_active(k, button),
{
    assert forall|k: u32|
        (k as int) < s0.gamepads@.len() && (#[trigger] s0.gamepads@[k as int]).device_id
            == gamepad_id implies s1.spec_is_button_active(k, button) && !s2.spec_is_button_active(
        k,
        button,
    ) by {
        let ki = k as int;
        assert(s1.gamepads@[ki].pressed(button));
        assert(s1.gamepads@[ki].device_id == gamepad_id);
        assert(!s2.gamepads@[ki].pressed(button));
    }
}

/// A button event leaves every other button, and every other device,
/// exactly as it was: the active state of `(k, other)` survives a
/// `set_button` aimed at a different button or a different device id.
pub proof fn lemma_set_button_independent(
    s0: GamepadContext,
    s1: GamepadContext,
    gamepad_id: u32,
    button: Button,
    pressed: bool,
    k: u32,
    other: Button,
)
    requires
        s0.wf(),
        set_button_rel(s0, s1, gamepad_id, button, pressed),
        (k as int) < s0.gamepads@.len() ==> (s0.gamepads@[k as int].device_id != gamepad_id
            || other != button),
    ensures
        s1.spec_is_button_active(k, other) == s0.spec_is_button_active(k, other),
{
    let ki = k as int;
    if ki < s0.gamepads@.len() {
        if s0.gamepads@[ki].device_id == gamepad_id {
            assert(s1.gamepads@[ki].pressed(other) == s0.gamepads@[ki].pressed(other));
        } else {
            assert(s1.gamepads@[ki] == s0.gamepads@[ki]);
        }
    }
}

/// Dead-zone floor: a raw sample strictly inside the dead zone finalizes
/// to exactly zero, regardless of sign.
pub proof fn lemma_finalize_dead_zone_floor(
    s0: GamepadContext,
    s1: GamepadContext,
    gamepad_id: u32,
    k: int,
    axis: Axis,
    v: i64,
)
    requires
        s0.wf(),
        update_axes_rel(s0, s1, gamepad_id),
        0 <= k < s0.gamepads@.len(),
        s0.gamepads@[k].device_id == gamepad_id,
        s0.gamepads@[k].raw_sample(axis) == Some(v),
        -DEAD_ZONE < v < DEAD_ZONE,
    ensures
        s1.gamepads@[k].filtered(axis) == 0,
{
    assert(s1.gamepads@[k].filtered(axis) as int == finalized_value(
        s0.gamepads@[k].raw_sample(axis),
        s0.gamepads@[k].filtered(axis),
    ));
}

/// Pass-through: a raw sample at or beyond the dead zone finalizes to
/// itself, unchanged.
pub proof fn lemma_finalize_passes_strong_samples(
    s0: GamepadContext,
    s1: GamepadContext,
    gamepad_id: u32,
    k: int,
    axis: Axis,
    v: i64,
)
    requires
        s0.wf(),
        update_axes_rel(s0, s1, gamepad_id),
        0 <= k < s0.gamepads@.len(),
        s0.gamepads@[k].device_id == gamepad_id,
        s0.gamepads@[k].raw_sample(axis) == Some(v),
        v <= -DEAD_ZONE || DEAD_ZONE <= v,
    ensures
        s1.gamepads@[k].filtered(axis) == v,
{
    assert(s1.gamepads@[k].filtered(axis) as int == finalized_value(
        s0.gamepads@[k].raw_sample(axis),
        s0.gamepads@[k].filtered(axis),
    ));
}

/// What the directional axis queries mean on an in-range index: `Up` and
/// `Left` hold exactly below `-sensitivity`, `Down` and `Right` exactly
/// above `sensitivity`, and a filtered value within
/// `[-sensitivity, sensitivity]` inclusive — the threshold itself included —
/// is inactive in all four directions.
pub proof fn lemma_axis_activation_thresholds(s: GamepadContext, gamepad_index: u32, axis: Axis)
    requires
        (gamepad_index as int) < s.gamepads@.len(),
    ensures
        s.spec_is_axis_active(gamepad_index, axis, AxisDirection::Up) <==> (s.gamepads@[
            gamepad_index as int
        ].filtered(axis) as int) < -(s.gamepads@[gamepad_index as int].query_sensitivity(axis)
            as int),
        s.spec_is_axis_active(gamepad_index, axis, AxisDirection::Left) <==> (s.gamepads@[
            gamepad_index as int
        ].filtered(axis) as int) < -(s.gamepads@[gamepad_index as int].query_sensitivity(axis)
            as int),
        s.spec_is_axis_active(gamepad_index, axis, AxisDirection::Down) <==> (s.gamepads@[
            gamepad_index as int
        ].filtered(axis) as int) > (s.gamepads@[gamepad_index as int].query_sensitivity(axis)
            as int),
        s.spec_is_axis_active(gamepad_index, axis, AxisDirection::Right) <==> (s.gamepads@[
            gamepad_index as int
        ].filtered(axis) as int) > (s.gamepads@[gamepad_index as int].query_sensitivity(axis)
            as int),
        -(s.gamepads@[gamepad_index as int].query_sensitivity(axis) as int) <= (s.gamepads@[
            gamepad_index as int
        ].filtered(axis) as int) <= (s.gamepads@[gamepad_index as int].query_sensitivity(axis)
            as int) ==> {
            &&& !s.spec_is_axis_active(gamepad_index, axis, AxisDirection::Up)
            &&& !s.spec_is_axis_active(gamepad_index, axis, AxisDirection::Down)
            &&& !s.spec_is_axis_active(gamepad_index, axis, AxisDirection::Left)
            &&& !s.spec_is_axis_active(gamepad_index, axis, AxisDirection::Right)
        },
{
}

/// Registering a device and immediately unregistering the same id leaves
/// the registry observably as it was: the same slots, in the same order,
/// at the same indices.
pub proof fn lemma_register_unregister(
    s0: GamepadContext,
    s1: GamepadContext,
    s2: GamepadContext,
    device_id: u32,
    axis_sensitivity: i64,
)
    requires
        s0.wf(),
        !s0.has_gamepad(device_id),
        add_rel(s0, s1, device_id, axis_sensitivity),
        remove_rel(s1, s2, device_id),
    ensures
        s2.gamepads@ == s0.gamepads@,
{
    let n = s0.gamepads@.len() as int;
    assert(s1.gamepads@[n].device_id == device_id);
    assert(s2.gamepads@ == s1.gamepads@.remove(n));
    assert forall|j: int| 0 <= j < n implies s2.gamepads@[j] == s0.gamepads@[j] by {
        assert(s1.gamepads@[j] == s0.gamepads@[j]);
        assert(s2.gamepads@[j] == s1.gamepads@[j]);
    }
    assert(s2.gamepads@ =~= s0.gamepads@);
}

/// Removal shifts: unregistering the device at index `k` moves every slot
/// that was at an index above `k` down by one and leaves the slots below
/// `k` in place — stale indices taken after a removal therefore address
/// the shifted neighbours, not the removed device.
pub proof fn lemma_remove_shifts_down(
    s0: GamepadContext,
    s1: GamepadContext,
    gamepad_id: u32,
    k: int,
)
    requires
        s0.wf(),
        remove_rel(s0, s1, gamepad_id),
        0 <= k < s0.gamepads@.len(),
        s0.gamepads@[k].device_id == gamepad_id,
    ensures
        s1.gamepads@.len() == s0.gamepads@.len() - 1,
        forall|j: int| 0 <= j < k ==> #[trigger] s1.gamepads@[j] == s0.gamepads@[j],
        forall|j: int|
            k < j < s0.gamepads@.len() ==> #[trigger] s1.gamepads@[j - 1] == s0.gamepads@[j],
{
    assert(s1.gamepads@ == s0.gamepads@.remove(k));
}

} // verus!
