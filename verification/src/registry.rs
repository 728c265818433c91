//! The gamepad registry: one slot per connected controller, addressed by
//! stable device id for event correlation and by positional index for
//! gameplay queries.

use vstd::prelude::*;

use crate::input::{
    apply_dead_zone, spec_apply_dead_zone, Axis, AxisDirection, Button, PlayerControllerInputType,
};

verus! {

/// The state kept for one connected controller.
///
/// `device_id` is the stable identifier the backend assigned at connection
/// time; it is never shared by two live slots. Analog values are fixed-point
/// integers (see [`crate::input::AXIS_SCALE`]). Raw samples accumulate as
/// events arrive; the six filtered fields are only ever written by
/// [`GamepadContext::update_axes`], so queries never see a half-delivered
/// frame.
pub struct GamepadData {
    pub device_id: u32,

    pub axis_sensitivity: i64,

    pub pressed_buttons: Vec<Button>,

    pub raw_left_x: Option<i64>,
    pub raw_left_y: Option<i64>,
    pub raw_right_x: Option<i64>,
    pub raw_right_y: Option<i64>,
    pub raw_trigger_left: Option<i64>,
    pub raw_trigger_right: Option<i64>,

    pub left_x: i64,
    pub left_y: i64,
    pub right_x: i64,
    pub right_y: i64,
    pub trigger_left: i64,
    pub trigger_right: i64,
}

impl GamepadData {
    /// Whether `b` is currently held on this controller.
    pub open spec fn pressed(self, b: Button) -> bool {
        self.pressed_buttons@.contains(b)
    }

    /// The last raw sample received for `axis`, if any arrived yet.
    pub open spec fn raw_sample(self, axis: Axis) -> Option<i64> {
        match axis {
            Axis::LeftX => self.raw_left_x,
            Axis::LeftY => self.raw_left_y,
            Axis::RightX => self.raw_right_x,
            Axis::RightY => self.raw_right_y,
            Axis::TriggerLeft => self.raw_trigger_left,
            Axis::TriggerRight => self.raw_trigger_right,
        }
    }

    /// The dead-zone-filtered value queries read for `axis`.
    pub open spec fn filtered(self, axis: Axis) -> i64 {
        match axis {
            Axis::LeftX => self.left_x,
            Axis::LeftY => self.left_y,
            Axis::RightX => self.right_x,
            Axis::RightY => self.right_y,
            Axis::TriggerLeft => self.trigger_left,
            Axis::TriggerRight => self.trigger_right,
        }
    }

    /// The sensitivity threshold axis queries compare against: the
    /// per-device stick sensitivity, except for the two trigger axes,
    /// which always use zero.
    pub open spec fn query_sensitivity(self, axis: Axis) -> i64 {
        match axis {
            Axis::TriggerLeft | Axis::TriggerRight => 0,
            _ => self.axis_sensitivity,
        }
    }

    /// Well-formedness: the sensitivity threshold is nonnegative and the
    /// pressed-button list holds no duplicates, so it denotes a set.
    pub open spec fn wf(self) -> bool {
        &&& 0 <= self.axis_sensitivity
        &&& forall|i: int, j: int|
            0 <= i < j < self.pressed_buttons@.len()
                ==> self.pressed_buttons@[i] != self.pressed_buttons@[j]
    }

    /// A freshly registered slot: all buttons released, no raw samples,
    /// all filtered values zero.
    pub open spec fn is_fresh(self, device_id: u32, axis_sensitivity: i64) -> bool {
        &&& self.device_id == device_id
        &&& self.axis_sensitivity == axis_sensitivity
        &&& self.pressed_buttons@.len() == 0
        &&& forall|a: Axis| (#[trigger] self.raw_sample(a)) is None
        &&& forall|a: Axis| #[trigger] self.filtered(a) == 0
    }

    /// Build the state for a newly connected controller.
    pub fn new(device_id: u32, axis_sensitivity: i64) -> (r: GamepadData)
        requires
            0 <= axis_sensitivity,
        ensures
            r.wf(),
            r.is_fresh(device_id, axis_sensitivity),
    {
        GamepadData {
            device_id,
            axis_sensitivity,
            pressed_buttons: Vec::new(),
            raw_left_x: None,
            raw_left_y: None,
            raw_right_x: None,
            raw_right_y: None,
            raw_trigger_left: None,
            raw_trigger_right: None,
            left_x: 0,
            left_y: 0,
            right_x: 0,
            right_y: 0,
            trigger_left: 0,
            trigger_right: 0,
        }
    }

    /// Scan for `b` in `buttons`; the position if present.
    fn find_button(buttons: &Vec<Button>, b: Button) -> (r: Option<usize>)
        ensures
            match r {
                Some(i) => i < buttons@.len() && buttons@[i as int] == b,
                None => !buttons@.contains(b),
            },
    {
        let mut i: usize = 0;
        while i < buttons.len()
            invariant
                i <= buttons@.len(),
                forall|j: int| 0 <= j < i ==> buttons@[j] != b,
            decreases buttons@.len() - i,
        {
            if buttons[i] == b {
                return Some(i);
            }
            i += 1;
        }
        None
    }

    /// Whether `b` is currently held.
    pub fn is_pressed(&self, b: Button) -> (r: bool)
        ensures
            r == self.pressed(b),
    {
        Self::find_button(&self.pressed_buttons, b).is_some()
    }

    /// Mark `b` as held. Idempotent: pressing an already-held button
    /// changes nothing observable.
    fn press(&mut self, b: Button)
        requires
            old(self).wf(),
        ensures
            final(self).wf(),
            same_except_buttons(*old(self), *final(self)),
            forall|x: Button| #[trigger]
                final(self).pressed(x) <==> (old(self).pressed(x) || x == b),
    {
        if Self::find_button(&self.pressed_buttons, b).is_none() {
            self.pressed_buttons.push(b);
            proof {
                let s0 = old(self).pressed_buttons@;
                let s1 = self.pressed_buttons@;
                assert(s1 == s0.push(b));
                assert forall|x: Button| #[trigger] s1.contains(x) implies (s0.contains(x) || x
                    == b) by {
                    let i = choose|i: int| 0 <= i < s1.len() && s1[i] == x;
                    if i < s0.len() {
                        assert(s0[i] == x);
                    }
                }
                assert forall|x: Button| s0.contains(x) || x == b implies #[trigger] s1.contains(
                    x,
                ) by {
                    if s0.contains(x) {
                        let i = choose|i: int| 0 <= i < s0.len() && s0[i] == x;
                        assert(s1[i] == x);
                    } else {
                        assert(s1[s0.len() as int] == b);
                    }
                }
                assert forall|i: int, j: int| 0 <= i < j < s1.len() implies s1[i] != s1[j] by {
                    if j == s0.len() {
                        if s1[i] == b {
                            assert(s0[i] == b);
                            assert(s0.contains(b));
                        }
                    }
                }
            }
        }
    }

    /// Mark `b` as released. A no-op if it was not held.
    fn release(&mut self, b: Button)
        requires
            old(self).wf(),
        ensures
            final(self).wf(),
            same_except_buttons(*old(self), *final(self)),
            forall|x: Button| #[trigger]
                final(self).pressed(x) <==> (old(self).pressed(x) && x != b),
    {
        if let Some(i) = Self::find_button(&self.pressed_buttons, b) {
            self.pressed_buttons.remove(i);
            proof {
                let s0 = old(self).pressed_buttons@;
                let s1 = self.pressed_buttons@;
                let ii = i as int;
                assert(s1 == s0.remove(ii));
                assert forall|j: int| 0 <= j < s1.len() implies (if j < ii {
                    s1[j] == s0[j]
                } else {
                    s1[j] == s0[j + 1]
                }) by {}
                assert forall|x: Button| #[trigger] s1.contains(x) implies (s0.contains(x) && x
                    != b) by {
                    let j = choose|j: int| 0 <= j < s1.len() && s1[j] == x;
                    if j < ii {
                        assert(s0[j] == x);
                        if x == b {
                            assert(s0[j] == s0[ii]);
                            assert(false);
                        }
                    } else {
                        assert(s0[j + 1] == x);
                        if x == b {
                            assert(s0[j + 1] == s0[ii]);
                            assert(false);
                        }
                    }
                }
                assert forall|x: Button| s0.contains(x) && x != b implies #[trigger] s1.contains(
                    x,
                ) by {
                    let j = choose|j: int| 0 <= j < s0.len() && s0[j] == x;
                    if j < ii {
                        assert(s1[j] == x);
                    } else {
                        assert(j != ii);
                        assert(s1[j - 1] == x);
                    }
                }
                assert forall|p: int, q: int| 0 <= p < q < s1.len() implies s1[p] != s1[q] by {
                    let p0 = if p < ii { p } else { p + 1 };
                    let q0 = if q < ii { q } else { q + 1 };
                    assert(s1[p] == s0[p0]);
                    assert(s1[q] == s0[q0]);
                }
            }
        }
    }

    /// Record the latest raw sample for `axis`. Filtered values are
    /// untouched until the next finalize step.
    fn set_raw(&mut self, axis: Axis, value: i64)
        ensures
            same_except_raw(*old(self), *final(self)),
            final(self).raw_sample(axis) == Some(value),
            forall|a: Axis| a != axis ==> #[trigger] final(self).raw_sample(a) == old(
                self,
            ).raw_sample(a),
    {
        match axis {
            Axis::LeftX => self.raw_left_x = Some(value),
            Axis::LeftY => self.raw_left_y = Some(value),
            Axis::RightX => self.raw_right_x = Some(value),
            Axis::RightY => self.raw_right_y = Some(value),
            Axis::TriggerLeft => self.raw_trigger_left = Some(value),
            Axis::TriggerRight => self.raw_trigger_right = Some(value),
        }
    }

    /// Run the dead-zone filter over every axis that has received a raw
    /// sample; axes without a sample keep their previous filtered value.
    fn finalize(&mut self)
        ensures
            same_except_filtered(*old(self), *final(self)),
            forall|a: Axis| #[trigger]
                final(self).filtered(a) as int == finalized_value(
                    old(self).raw_sample(a),
                    old(self).filtered(a),
                ),
    {
        if let Some(v) = self.raw_left_x {
            self.left_x = apply_dead_zone(v);
        }
        if let Some(v) = self.raw_left_y {
            self.left_y = apply_dead_zone(v);
        }
        if let Some(v) = self.raw_right_x {
            self.right_x = apply_dead_zone(v);
        }
        if let Some(v) = self.raw_right_y {
            self.right_y = apply_dead_zone(v);
        }
        if let Some(v) = self.raw_trigger_left {
            self.trigger_left = apply_dead_zone(v);
        }
        if let Some(v) = self.raw_trigger_right {
            self.trigger_right = apply_dead_zone(v);
        }
    }

    /// The filtered value queries read for `axis`.
    pub fn filtered_value(&self, axis: Axis) -> (r: i64)
        ensures
            r == self.filtered(axis),
    {
        match axis {
            Axis::LeftX => self.left_x,
            Axis::LeftY => self.left_y,
            Axis::RightX => self.right_x,
            Axis::RightY => self.right_y,
            Axis::TriggerLeft => self.trigger_left,
            Axis::TriggerRight => self.trigger_right,
        }
    }

    /// The sensitivity threshold used when querying `axis`.
    pub fn query_sensitivity_value(&self, axis: Axis) -> (r: i64)
        ensures
            r == self.query_sensitivity(axis),
    {
        match axis {
            Axis::TriggerLeft | Axis::TriggerRight => 0,
            _ => self.axis_sensitivity,
        }
    }
}

/// The two slots agree on everything but which buttons are held.
pub open spec fn same_except_buttons(pre: GamepadData, post: GamepadData) -> bool {
    &&& post.device_id == pre.device_id
    &&& post.axis_sensitivity == pre.axis_sensitivity
    &&& forall|a: Axis| #[trigger] post.raw_sample(a) == pre.raw_sample(a)
    &&& forall|a: Axis| #[trigger] post.filtered(a) == pre.filtered(a)
}

/// The two slots agree on everything but their raw samples.
pub open spec fn same_except_raw(pre: GamepadData, post: GamepadData) -> bool {
    &&& post.device_id == pre.device_id
    &&& post.axis_sensitivity == pre.axis_sensitivity
    &&& post.pressed_buttons@ == pre.pressed_buttons@
    &&& forall|a: Axis| #[trigger] post.filtered(a) == pre.filtered(a)
}

/// The two slots agree on everything but their filtered values.
pub open spec fn same_except_filtered(pre: GamepadData, post: GamepadData) -> bool {
    &&& post.device_id == pre.device_id
    &&& post.axis_sensitivity == pre.axis_sensitivity
    &&& post.pressed_buttons@ == pre.pressed_buttons@
    &&& forall|a: Axis| #[trigger] post.raw_sample(a) == pre.raw_sample(a)
}

/// What finalize leaves in a filtered field: the dead-zone filter of the
/// raw sample if one arrived, the previous filtered value otherwise.
pub open spec fn finalized_value(raw: Option<i64>, prev: i64) -> int {
    match raw {
        Some(v) => spec_apply_dead_zone(v as int),
        None => prev as int,
    }
}

/// Some slot of `s` carries the device id `id`.
pub open spec fn seq_has_id(s: Seq<GamepadData>, id: u32) -> bool {
    exists|i: int| 0 <= i < s.len() && (#[trigger] s[i]).device_id == id
}

/// The registry of connected controllers.
///
/// Slots are appended on connect, so a controller's index is stable while
/// it stays connected; removing a slot shifts everything after it down by
/// one. Mutators address slots by device id and silently ignore unknown
/// ids; queries address slots by index and answer `false` out of range.
pub struct GamepadContext {
    pub gamepads: Vec<GamepadData>,
}

/// Registering `id` appended one fresh slot and left every existing slot
/// unchanged.
pub open spec fn add_rel(
    pre: GamepadContext,
    post: GamepadContext,
    device_id: u32,
    axis_sensitivity: i64,
) -> bool {
    &&& post.gamepads@.len() == pre.gamepads@.len() + 1
    &&& forall|i: int|
        0 <= i < pre.gamepads@.len() ==> #[trigger] post.gamepads@[i] == pre.gamepads@[i]
    &&& post.gamepads@[pre.gamepads@.len() as int].is_fresh(device_id, axis_sensitivity)
}

/// Unregistering `id` removed exactly the slot carrying it, shifting the
/// later slots down by one, and was a no-op if no slot carried it.
pub open spec fn remove_rel(pre: GamepadContext, post: GamepadContext, device_id: u32) -> bool {
    &&& !seq_has_id(pre.gamepads@, device_id) ==> post == pre
    &&& forall|k: int|
        0 <= k < pre.gamepads@.len() && (#[trigger] pre.gamepads@[k]).device_id == device_id
            ==> post.gamepads@ == pre.gamepads@.remove(k)
}

/// A button event for `device_id` changed at most the membership of
/// `button` in that device's pressed set, and nothing on any other device.
pub open spec fn set_button_rel(
    pre: GamepadContext,
    post: GamepadContext,
    device_id: u32,
    button: Button,
    pressed: bool,
) -> bool {
    &&& post.gamepads@.len() == pre.gamepads@.len()
    &&& forall|i: int|
        0 <= i < pre.gamepads@.len() && (#[trigger] pre.gamepads@[i]).device_id != device_id
            ==> post.gamepads@[i] == pre.gamepads@[i]
    &&& forall|i: int|
        0 <= i < pre.gamepads@.len() && (#[trigger] pre.gamepads@[i]).device_id == device_id ==> {
            &&& same_except_buttons(pre.gamepads@[i], post.gamepads@[i])
            &&& forall|x: Button| #[trigger]
                post.gamepads@[i].pressed(x) <==> (if pressed {
                    pre.gamepads@[i].pressed(x) || x == button
                } else {
                    pre.gamepads@[i].pressed(x) && x != button
                })
        }
}

/// An axis event for `device_id` overwrote only that device's raw sample
/// for `axis`; filtered values and every other device are untouched.
pub open spec fn set_axis_rel(
    pre: GamepadContext,
    post: GamepadContext,
    device_id: u32,
    axis: Axis,
    value: i64,
) -> bool {
    &&& post.gamepads@.len() == pre.gamepads@.len()
    &&& forall|i: int|
        0 <= i < pre.gamepads@.len() && (#[trigger] pre.gamepads@[i]).device_id != device_id
            ==> post.gamepads@[i] == pre.gamepads@[i]
    &&& forall|i: int|
        0 <= i < pre.gamepads@.len() && (#[trigger] pre.gamepads@[i]).device_id == device_id ==> {
            &&& same_except_raw(pre.gamepads@[i], post.gamepads@[i])
            &&& post.gamepads@[i].raw_sample(axis) == Some(value)
            &&& forall|a: Axis|
                a != axis ==> #[trigger] post.gamepads@[i].raw_sample(a) == pre.gamepads@[i].raw_sample(a)
        }
}

/// Finalizing `device_id` ran the dead-zone filter over that device's
/// sampled axes and touched nothing else.
pub open spec fn update_axes_rel(pre: GamepadContext, post: GamepadContext, device_id: u32) -> bool {
    &&& post.gamepads@.len() == pre.gamepads@.len()
    &&& forall|i: int|
        0 <= i < pre.gamepads@.len() && (#[trigger] pre.gamepads@[i]).device_id != device_id
            ==> post.gamepads@[i] == pre.gamepads@[i]
    &&& forall|i: int|
        0 <= i < pre.gamepads@.len() && (#[trigger] pre.gamepads@[i]).device_id == device_id ==> {
            &&& same_except_filtered(pre.gamepads@[i], post.gamepads@[i])
            &&& forall|a: Axis| #[trigger]
                post.gamepads@[i].filtered(a) as int == finalized_value(
                    pre.gamepads@[i].raw_sample(a),
                    pre.gamepads@[i].filtered(a),
                )
        }
}

impl GamepadContext {
    /// Well-formedness: every slot is well formed and no two slots share a
    /// device id.
    pub open spec fn wf(self) -> bool {
        &&& forall|i: int|
            0 <= i < self.gamepads@.len() ==> (#[trigger] self.gamepads@[i]).wf()
        &&& forall|i: int, j: int|
            0 <= i < j < self.gamepads@.len() ==> (#[trigger] self.gamepads@[i]).device_id != (
            #[trigger] self.gamepads@[j]).device_id
    }

    /// Some slot carries the device id `id`.
    pub open spec fn has_gamepad(self, id: u32) -> bool {
        seq_has_id(self.gamepads@, id)
    }

    /// An empty registry.
    pub fn new() -> (r: GamepadContext)
        ensures
            r.wf(),
            r.gamepads@.len() == 0,
    {
        GamepadContext { gamepads: Vec::new() }
    }

    /// Scan for the slot carrying `gamepad_id`.
    fn find_index(gamepads: &Vec<GamepadData>, gamepad_id: u32) -> (r: Option<usize>)
        ensures
            match r {
                Some(i) => i < gamepads@.len() && gamepads@[i as int].device_id == gamepad_id,
                None => !seq_has_id(gamepads@, gamepad_id),
            },
    {
        let mut i: usize = 0;
        while i < gamepads.len()
            invariant
                i <= gamepads@.len(),
                forall|j: int| 0 <= j < i ==> (#[trigger] gamepads@[j]).device_id != gamepad_id,
            decreases gamepads@.len() - i,
        {
            if gamepads[i].device_id == gamepad_id {
                return Some(i);
            }
            i += 1;
        }
        None
    }

    /// Is some controller with this device id currently connected?
    pub fn has_device(&self, gamepad_id: u32) -> (r: bool)
        ensures
            r == self.has_gamepad(gamepad_id),
    {
        Self::find_index(&self.gamepads, gamepad_id).is_some()
    }

    /// Append a slot for a newly connected controller. Its index is the
    /// previous device count; existing indices do not move.
    pub fn add_gamepad(&mut self, device_id: u32, axis_sensitivity: i64)
        requires
            old(self).wf(),
            !old(self).has_gamepad(device_id),
            0 <= axis_sensitivity,
        ensures
            final(self).wf(),
            add_rel(*old(self), *final(self), device_id, axis_sensitivity),
    {
        self.gamepads.push(GamepadData::new(device_id, axis_sensitivity));
    }

    /// Drop the slot carrying `gamepad_id`, shifting later slots down by
    /// one; a no-op for an unknown id.
    pub fn remove_gamepad(&mut self, gamepad_id: u32)
        requires
            old(self).wf(),
        ensures
            final(self).wf(),
            remove_rel(*old(self), *final(self), gamepad_id),
    {
        if let Some(i) = Self::find_index(&self.gamepads, gamepad_id) {
            self.gamepads.remove(i);
            proof {
                let s0 = old(self).gamepads@;
                let s1 = self.gamepads@;
                let ii = i as int;
                assert forall|k: int|
                    0 <= k < s0.len() && (#[trigger] s0[k]).device_id == gamepad_id implies s1
                    == s0.remove(k) by {
                    if k != ii {
                        if k < ii {
                            assert(s0[k].device_id != s0[ii].device_id);
                        } else {
                            assert(s0[ii].device_id != s0[k].device_id);
                        }
                    }
                }
                assert forall|p: int| 0 <= p < s1.len() implies (#[trigger] s1[p]).wf() by {
                    if p < ii {
                        assert(s1[p] == s0[p]);
                    } else {
                        assert(s1[p] == s0[p + 1]);
                    }
                }
                assert forall|p: int, q: int| 0 <= p < q < s1.len() implies (
                #[trigger] s1[p]).device_id != (#[trigger] s1[q]).device_id by {
                    let p0 = if p < ii { p } else { p + 1 };
                    let q0 = if q < ii { q } else { q + 1 };
                    assert(s1[p] == s0[p0]);
                    assert(s1[q] == s0[q0]);
                }
            }
        }
    }

    /// Record a button edge for `gamepad_id`; unknown ids are ignored.
    pub fn set_button(&mut self, gamepad_id: u32, button: Button, pressed: bool)
        requires
            old(self).wf(),
        ensures
            final(self).wf(),
            set_button_rel(*old(self), *final(self), gamepad_id, button, pressed),
    {
        if let Some(i) = Self::find_index(&self.gamepads, gamepad_id) {
            proof {
                assert(old(self).gamepads@[i as int].wf());
            }
            let slot = &mut self.gamepads[i];
            if pressed {
                slot.press(button);
            } else {
                slot.release(button);
            }
            proof {
                lemma_slot_update_wf(*old(self), *self, i as int);
                assert forall|k: int|
                    0 <= k < old(self).gamepads@.len() && (
                    #[trigger] old(self).gamepads@[k]).device_id == gamepad_id implies k == i
                    as int by {
                    slot_id_unique(*old(self), k, i as int, gamepad_id);
                }
            }
        }
    }

    /// Record a raw axis sample for `gamepad_id`; unknown ids are ignored.
    /// Queries are unaffected until the next finalize step.
    pub fn set_axis_value(&mut self, gamepad_id: u32, axis: Axis, value: i64)
        requires
            old(self).wf(),
        ensures
            final(self).wf(),
            set_axis_rel(*old(self), *final(self), gamepad_id, axis, value),
    {
        if let Some(i) = Self::find_index(&self.gamepads, gamepad_id) {
            let slot = &mut self.gamepads[i];
            slot.set_raw(axis, value);
            proof {
                lemma_slot_update_wf(*old(self), *self, i as int);
                assert forall|k: int|
                    0 <= k < old(self).gamepads@.len() && (
                    #[trigger] old(self).gamepads@[k]).device_id == gamepad_id implies k == i
                    as int by {
                    slot_id_unique(*old(self), k, i as int, gamepad_id);
                }
            }
        }
    }

    /// Finalize the frame for `gamepad_id`: apply the dead-zone filter to
    /// every axis that received a raw sample; unknown ids are ignored.
    pub fn update_axes(&mut self, gamepad_id: u32)
        requires
            old(self).wf(),
        ensures
            final(self).wf(),
            update_axes_rel(*old(self), *final(self), gamepad_id),
    {
        if let Some(i) = Self::find_index(&self.gamepads, gamepad_id) {
            let slot = &mut self.gamepads[i];
            slot.finalize();
            proof {
                lemma_slot_update_wf(*old(self), *self, i as int);
                assert forall|k: int|
                    0 <= k < old(self).gamepads@.len() && (
                    #[trigger] old(self).gamepads@[k]).device_id == gamepad_id implies k == i
                    as int by {
                    slot_id_unique(*old(self), k, i as int, gamepad_id);
                }
            }
        }
    }

    /// What `is_button_active` answers: the slot at `gamepad_index` exists
    /// and currently holds `button`.
    pub open spec fn spec_is_button_active(self, gamepad_index: u32, button: Button) -> bool {
        &&& (gamepad_index as int) < self.gamepads@.len()
        &&& self.gamepads@[gamepad_index as int].pressed(button)
    }

    /// What `is_axis_active` answers: the slot at `gamepad_index` exists
    /// and its filtered value for `axis` satisfies `direction` at that
    /// slot's query sensitivity.
    pub open spec fn spec_is_axis_active(
        self,
        gamepad_index: u32,
        axis: Axis,
        direction: AxisDirection,
    ) -> bool {
        &&& (gamepad_index as int) < self.gamepads@.len()
        &&& direction.spec_compare(
            self.gamepads@[gamepad_index as int].filtered(axis) as int,
            self.gamepads@[gamepad_index as int].query_sensitivity(axis) as int,
        )
    }

    /// What `is_active` answers: the dispatch over the three descriptor
    /// shapes, with the combined shape an `or` of its two checks.
    pub open spec fn spec_is_active(
        self,
        gamepad_index: u32,
        input_type: PlayerControllerInputType,
        direction: AxisDirection,
    ) -> bool {
        match input_type {
            PlayerControllerInputType::ButtonInput(button) => self.spec_is_button_active(
                gamepad_index,
                button,
            ),
            PlayerControllerInputType::AxisInput(axis) => self.spec_is_axis_active(
                gamepad_index,
                axis,
                direction,
            ),
            PlayerControllerInputType::Either(button, axis) => self.spec_is_button_active(
                gamepad_index,
                button,
            ) || self.spec_is_axis_active(gamepad_index, axis, direction),
        }
    }

    /// Is `button` held on the controller at `gamepad_index`? `false` when
    /// the index is out of range.
    pub fn is_button_active(&self, gamepad_index: u32, button: Button) -> (r: bool)
        ensures
            r == self.spec_is_button_active(gamepad_index, button),
    {
        let idx = gamepad_index as usize;
        if idx < self.gamepads.len() {
            self.gamepads[idx].is_pressed(button)
        } else {
            false
        }
    }

    /// Does the filtered value of `axis` on the controller at
    /// `gamepad_index` satisfy `direction`? `false` when the index is out
    /// of range.
    pub fn is_axis_active(&self, gamepad_index: u32, axis: Axis, direction: AxisDirection) -> (r:
        bool)
        requires
            self.wf(),
        ensures
            r == self.spec_is_axis_active(gamepad_index, axis, direction),
    {
        let idx = gamepad_index as usize;
        if idx < self.gamepads.len() {
            let slot = &self.gamepads[idx];
            direction.compare(slot.filtered_value(axis), slot.query_sensitivity_value(axis))
        } else {
            false
        }
    }

    /// Is the logical input `input_type` active on the controller at
    /// `gamepad_index`? `false` when the index is out of range.
    pub fn is_active(
        &self,
        gamepad_index: u32,
        input_type: &PlayerControllerInputType,
        axis_direction: AxisDirection,
    ) -> (r: bool)
        requires
            self.wf(),
        ensures
            r == self.spec_is_active(gamepad_index, *input_type, axis_direction),
    {
        match input_type {
            PlayerControllerInputType::ButtonInput(button) => self.is_button_active(
                gamepad_index,
                *button,
            ),
            PlayerControllerInputType::AxisInput(axis) => self.is_axis_active(
                gamepad_index,
                *axis,
                axis_direction,
            ),
            PlayerControllerInputType::Either(button, axis) => self.is_button_active(
                gamepad_index,
                *button,
            ) || self.is_axis_active(gamepad_index, *axis, axis_direction),
        }
    }
}

impl Default for GamepadContext {
    /// An empty registry.
    fn default() -> (r: GamepadContext)
        ensures
            r.wf(),
            r.gamepads@.len() == 0,
    {
        GamepadContext::new()
    }
}

/// Two slots of a well-formed registry carrying the same device id are the
/// same slot.
proof fn slot_id_unique(ctx: GamepadContext, k: int, i: int, id: u32)
    requires
        ctx.wf(),
        0 <= k < ctx.gamepads@.len(),
        0 <= i < ctx.gamepads@.len(),
        ctx.gamepads@[k].device_id == id,
        ctx.gamepads@[i].device_id == id,
    ensures
        k == i,
{
    if k < i {
        assert(ctx.gamepads@[k].device_id != ctx.gamepads@[i].device_id);
    } else if i < k {
        assert(ctx.gamepads@[i].device_id != ctx.gamepads@[k].device_id);
    }
}

/// Replacing one slot by a well-formed slot with the same device id keeps
/// the registry well formed.
proof fn lemma_slot_update_wf(pre: GamepadContext, post: GamepadContext, i: int)
    requires
        pre.wf(),
        0 <= i < pre.gamepads@.len(),
        post.gamepads@ == pre.gamepads@.update(i, post.gamepads@[i]),
        post.gamepads@[i].wf(),
        post.gamepads@[i].device_id == pre.gamepads@[i].device_id,
    ensures
        post.wf(),
{
    assert forall|p: int| 0 <= p < post.gamepads@.len() implies (#[trigger] post.gamepads@[p]).wf() by {
        if p != i {
            assert(post.gamepads@[p] == pre.gamepads@[p]);
        }
    }
    assert forall|p: int, q: int| 0 <= p < q < post.gamepads@.len() implies (
    #[trigger] post.gamepads@[p]).device_id != (#[trigger] post.gamepads@[q]).device_id by {
        assert(post.gamepads@[p].device_id == pre.gamepads@[p].device_id);
        assert(post.gamepads@[q].device_id == pre.gamepads@[q].device_id);
    }
}

/// Register a newly connected controller with the registry owned by the
/// execution context.
pub fn add_gamepad(context: &mut GamepadContext, device_id: u32, axis_sensitivity: i64)
    requires
        old(context).wf(),
        !old(context).has_gamepad(device_id),
        0 <= axis_sensitivity,
    ensures
        final(context).wf(),
        add_rel(*old(context), *final(context), device_id, axis_sensitivity),
{
    context.add_gamepad(device_id, axis_sensitivity);
}

/// Drop a disconnected controller from the registry owned by the execution
/// context.
pub fn remove_gamepad(context: &mut GamepadContext, gamepad_id: u32)
    requires
        old(context).wf(),
    ensures
        final(context).wf(),
        remove_rel(*old(context), *final(context), gamepad_id),
{
    context.remove_gamepad(gamepad_id);
}

/// Is the logical input `input_type` active on the controller at
/// `gamepad_index`?
pub fn is_active(
    ctx: &GamepadContext,
    gamepad_index: u32,
    input_type: &PlayerControllerInputType,
    axis_direction: AxisDirection,
) -> (r: bool)
    requires
        ctx.wf(),
    ensures
        r == ctx.spec_is_active(gamepad_index, *input_type, axis_direction),
{
    ctx.is_active(gamepad_index, input_type, axis_direction)
}

/// Is `button` held on the controller at `gamepad_index`?
pub fn is_button_active(ctx: &GamepadContext, gamepad_index: u32, button: Button) -> (r: bool)
    ensures
        r == ctx.spec_is_button_active(gamepad_index, button),
{
    ctx.is_button_active(gamepad_index, button)
}

/// Does the filtered value of `axis` on the controller at `gamepad_index`
/// satisfy `direction`?
pub fn is_axis_active(
    ctx: &GamepadContext,
    gamepad_index: u32,
    axis: Axis,
    direction: AxisDirection,
) -> (r: bool)
    requires
        ctx.wf(),
    ensures
        r == ctx.spec_is_axis_active(gamepad_index, axis, direction),
{
    ctx.is_axis_active(gamepad_index, axis, direction)
}

} // verus!
