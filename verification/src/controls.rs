//! Per-user input state with edge detection.
//!
//! Arbitrarily many asynchronous network updates may arrive between two
//! simulation ticks. The button store must not lose or duplicate button
//! transitions across that boundary: a rising edge latches `just_pressed`
//! until the simulation's single consuming read per tick, and a press that
//! repeats while already latched does not clear the latch early.

use vstd::prelude::*;
use crate::protocol::{AxisValue, ButtonType, JoystickAxis};

verus! {

/// Most recent state of one button, with edge latches.
#[derive(Clone, Copy, Debug, PartialEq, Eq, Structural)]
pub struct ButtonState {
    /// The `pressed` argument of the most recent update.
    pub pressed: bool,
    /// Latched on a rising edge; cleared only by a consuming read
    /// or by a release.
    pub just_pressed: bool,
    /// Latched on a falling edge; cleared only by a consuming read
    /// or by a press.
    pub just_released: bool,
}

/// The state a button reaches when `update(pressed)` is applied to `s`.
///
/// A rising edge latches `just_pressed`, and a repeated press while the
/// latch is still set keeps it set; symmetrically for `just_released`.
pub open spec fn spec_update(s: ButtonState, pressed: bool) -> ButtonState {
    ButtonState {
        pressed,
        just_pressed: pressed && (!s.pressed || s.just_pressed),
        just_released: !pressed && (s.pressed || s.just_released),
    }
}

/// The state a button reaches after a whole sequence of updates.
pub open spec fn apply_updates(s: ButtonState, updates: Seq<bool>) -> ButtonState
    decreases updates.len(),
{
    if updates.len() == 0 {
        s
    } else {
        apply_updates(spec_update(s, updates[0]), updates.skip(1))
    }
}

/// After any non-empty sequence of updates, `pressed` equals the argument
/// of the most recent update, whatever the starting state was.
pub proof fn lemma_pressed_is_last_update(s: ButtonState, updates: Seq<bool>)
    requires
        updates.len() > 0,
    ensures
        apply_updates(s, updates).pressed == updates.last(),
    decreases updates.len(),
{
    if updates.len() == 1 {
        assert(apply_updates(s, updates) == apply_updates(spec_update(s, updates[0]), updates.skip(1)));
    } else {
        lemma_pressed_is_last_update(spec_update(s, updates[0]), updates.skip(1));
        assert(updates.skip(1).last() == updates.last());
    }
}

/// An idempotent press does not re-arm the edge latch: once a button is
/// held and its `just_pressed` latch has been consumed, any further run of
/// `update(true)` calls leaves the latch clear, so a consuming read
/// reports each rising edge at most once.
pub proof fn lemma_held_press_does_not_rearm(s: ButtonState, updates: Seq<bool>)
    requires
        s.pressed,
        !s.just_pressed,
        forall|i: int| 0 <= i < updates.len() ==> updates[i] == true,
    ensures
        !apply_updates(s, updates).just_pressed,
        apply_updates(s, updates).pressed,
    decreases updates.len(),
{
    if updates.len() > 0 {
        let s1 = spec_update(s, updates[0]);
        assert(s1.pressed && !s1.just_pressed);
        lemma_held_press_does_not_rearm(s1, updates.skip(1));
    }
}

impl ButtonState {
    /// A button that has never been touched: released, no latched edges.
    pub fn new() -> (r: ButtonState)
        ensures
            r == (ButtonState { pressed: false, just_pressed: false, just_released: false }),
    {
        ButtonState { pressed: false, just_pressed: false, just_released: false }
    }

    /// Records a new raw state from the network; latches edges so that
    /// they persist until consumed or overridden by the opposite edge.
    pub fn update(&mut self, pressed: bool)
        ensures
            *final(self) == spec_update(*old(self), pressed),
    {
        self.just_pressed = (!self.pressed || self.just_pressed) && pressed;
        self.just_released = if pressed {
            false
        } else {
            self.just_released || self.pressed
        };
        self.pressed = pressed;
    }

    /// Non-consuming read of the most recently written raw state.
    pub fn is_pressed(&self) -> (r: bool)
        ensures
            r == self.pressed,
    {
        self.pressed
    }

    /// Consuming read of the rising-edge latch: reports the latch only
    /// while the press still holds, and always clears it.
    pub fn just_pressed(&mut self) -> (r: bool)
        ensures
            r == (old(self).pressed && old(self).just_pressed),
            *final(self) == (ButtonState { just_pressed: false, ..*old(self) }),
    {
        if self.pressed {
            let b = self.just_pressed;
            self.just_pressed = false;
            b
        } else {
            self.just_pressed = false;
            false
        }
    }

    /// Consuming read of the falling-edge latch: reports the latch only
    /// while the button is still released, and always clears it.
    pub fn just_released(&mut self) -> (r: bool)
        ensures
            r == (!old(self).pressed && old(self).just_released),
            *final(self) == (ButtonState { just_released: false, ..*old(self) }),
    {
        if !self.pressed {
            let b = self.just_released;
            self.just_released = false;
            b
        } else {
            self.just_released = false;
            false
        }
    }
}

/// Most recent state of one joystick axis: last write wins, no smoothing
/// and no edge semantics.
#[derive(Clone, Copy, Debug, PartialEq, Eq, Structural)]
pub struct JoystickState {
    pub value: AxisValue,
}

impl JoystickState {
    /// An axis at rest.
    pub fn new() -> (r: JoystickState)
        ensures
            r.value.millis == 0,
    {
        JoystickState { value: AxisValue::zero() }
    }

    /// Overwrites the axis with the most recent value.
    pub fn update(&mut self, value: AxisValue)
        ensures
            final(self).value == value,
    {
        self.value = value;
    }

    /// The most recently written value.
    pub fn get(&self) -> (r: AxisValue)
        ensures
            r == self.value,
    {
        self.value
    }
}

/// Most recent input state of one player: a total mapping from every
/// button and every axis to its state (every key always present).
#[derive(Clone, Copy, Debug, PartialEq, Eq, Structural)]
pub struct PlayerInput {
    pub a: ButtonState,
    pub b: ButtonState,
    pub x: ButtonState,
    pub y: ButtonState,
    pub up: ButtonState,
    pub down: ButtonState,
    pub left: ButtonState,
    pub right: ButtonState,
    pub left_x: JoystickState,
    pub left_y: JoystickState,
    pub right_x: JoystickState,
    pub right_y: JoystickState,
}

/// The stored state of one button of a player.
pub open spec fn spec_button(pi: PlayerInput, bt: ButtonType) -> ButtonState {
    match bt {
        ButtonType::A => pi.a,
        ButtonType::B => pi.b,
        ButtonType::X => pi.x,
        ButtonType::Y => pi.y,
        ButtonType::Up => pi.up,
        ButtonType::Down => pi.down,
        ButtonType::Left => pi.left,
        ButtonType::Right => pi.right,
    }
}

/// The stored state of one joystick axis of a player.
pub open spec fn spec_joystick(pi: PlayerInput, axis: JoystickAxis) -> JoystickState {
    match axis {
        JoystickAxis::LeftX => pi.left_x,
        JoystickAxis::LeftY => pi.left_y,
        JoystickAxis::RightX => pi.right_x,
        JoystickAxis::RightY => pi.right_y,
    }
}

/// A player whose buttons are all released and whose axes are at rest.
pub open spec fn spec_player_input_new() -> PlayerInput {
    PlayerInput {
        a: ButtonState { pressed: false, just_pressed: false, just_released: false },
        b: ButtonState { pressed: false, just_pressed: false, just_released: false },
        x: ButtonState { pressed: false, just_pressed: false, just_released: false },
        y: ButtonState { pressed: false, just_pressed: false, just_released: false },
        up: ButtonState { pressed: false, just_pressed: false, just_released: false },
        down: ButtonState { pressed: false, just_pressed: false, just_released: false },
        left: ButtonState { pressed: false, just_pressed: false, just_released: false },
        right: ButtonState { pressed: false, just_pressed: false, just_released: false },
        left_x: JoystickState { value: AxisValue { millis: 0 } },
        left_y: JoystickState { value: AxisValue { millis: 0 } },
        right_x: JoystickState { value: AxisValue { millis: 0 } },
        right_y: JoystickState { value: AxisValue { millis: 0 } },
    }
}

/// A player's state after one button update.
pub open spec fn spec_update_button(pi: PlayerInput, bt: ButtonType, pressed: bool) -> PlayerInput {
    match bt {
        ButtonType::A => PlayerInput { a: spec_update(pi.a, pressed), ..pi },
        ButtonType::B => PlayerInput { b: spec_update(pi.b, pressed), ..pi },
        ButtonType::X => PlayerInput { x: spec_update(pi.x, pressed), ..pi },
        ButtonType::Y => PlayerInput { y: spec_update(pi.y, pressed), ..pi },
        ButtonType::Up => PlayerInput { up: spec_update(pi.up, pressed), ..pi },
        ButtonType::Down => PlayerInput { down: spec_update(pi.down, pressed), ..pi },
        ButtonType::Left => PlayerInput { left: spec_update(pi.left, pressed), ..pi },
        ButtonType::Right => PlayerInput { right: spec_update(pi.right, pressed), ..pi },
    }
}

/// A player's state after one joystick update.
pub open spec fn spec_update_joystick(pi: PlayerInput, axis: JoystickAxis, value: AxisValue) -> PlayerInput {
    match axis {
        JoystickAxis::LeftX => PlayerInput { left_x: JoystickState { value }, ..pi },
        JoystickAxis::LeftY => PlayerInput { left_y: JoystickState { value }, ..pi },
        JoystickAxis::RightX => PlayerInput { right_x: JoystickState { value }, ..pi },
        JoystickAxis::RightY => PlayerInput { right_y: JoystickState { value }, ..pi },
    }
}

/// A player's state after one input update of either kind.
pub open spec fn spec_apply_input(pi: PlayerInput, update: crate::protocol::InputUpdate) -> PlayerInput {
    match update {
        crate::protocol::InputUpdate::Button(bt, pressed) => spec_update_button(pi, bt, pressed),
        crate::protocol::InputUpdate::Joystick(axis, value) => spec_update_joystick(pi, axis, value),
    }
}

impl PlayerInput {
    /// A player whose buttons are all released and whose axes are at rest.
    pub fn new() -> (r: PlayerInput)
        ensures
            r == spec_player_input_new(),
            forall|bt: ButtonType|
                spec_button(r, bt) == (ButtonState {
                    pressed: false,
                    just_pressed: false,
                    just_released: false,
                }),
            forall|axis: JoystickAxis| spec_joystick(r, axis).value.millis == 0,
    {
        PlayerInput {
            a: ButtonState::new(),
            b: ButtonState::new(),
            x: ButtonState::new(),
            y: ButtonState::new(),
            up: ButtonState::new(),
            down: ButtonState::new(),
            left: ButtonState::new(),
            right: ButtonState::new(),
            left_x: JoystickState::new(),
            left_y: JoystickState::new(),
            right_x: JoystickState::new(),
            right_y: JoystickState::new(),
        }
    }

    /// Applies one button update from the network to the named button,
    /// leaving every other button and every axis untouched.
    pub fn update_button(&mut self, button_type: ButtonType, pressed: bool)
        ensures
            *final(self) == spec_update_button(*old(self), button_type, pressed),
            spec_button(*final(self), button_type)
                == spec_update(spec_button(*old(self), button_type), pressed),
            forall|bt: ButtonType| bt != button_type
                ==> spec_button(*final(self), bt) == spec_button(*old(self), bt),
            forall|axis: JoystickAxis|
                spec_joystick(*final(self), axis) == spec_joystick(*old(self), axis),
    {
        match button_type {
            ButtonType::A => self.a.update(pressed),
            ButtonType::B => self.b.update(pressed),
            ButtonType::X => self.x.update(pressed),
            ButtonType::Y => self.y.update(pressed),
            ButtonType::Up => self.up.update(pressed),
            ButtonType::Down => self.down.update(pressed),
            ButtonType::Left => self.left.update(pressed),
            ButtonType::Right => self.right.update(pressed),
        }
    }

    /// Overwrites the named axis with the most recent value, leaving every
    /// other axis and every button untouched.
    pub fn update_joystick(&mut self, joystick_axis: JoystickAxis, value: AxisValue)
        ensures
            *final(self) == spec_update_joystick(*old(self), joystick_axis, value),
            spec_joystick(*final(self), joystick_axis).value == value,
            forall|axis: JoystickAxis| axis != joystick_axis
                ==> spec_joystick(*final(self), axis) == spec_joystick(*old(self), axis),
            forall|bt: ButtonType|
                spec_button(*final(self), bt) == spec_button(*old(self), bt),
    {
        match joystick_axis {
            JoystickAxis::LeftX => self.left_x.update(value),
            JoystickAxis::LeftY => self.left_y.update(value),
            JoystickAxis::RightX => self.right_x.update(value),
            JoystickAxis::RightY => self.right_y.update(value),
        }
    }

    /// Non-consuming read of one button's most recent raw state.
    pub fn is_pressed(&self, button_type: ButtonType) -> (r: bool)
        ensures
            r == spec_button(*self, button_type).pressed,
    {
        match button_type {
            ButtonType::A => self.a.pressed,
            ButtonType::B => self.b.pressed,
            ButtonType::X => self.x.pressed,
            ButtonType::Y => self.y.pressed,
            ButtonType::Up => self.up.pressed,
            ButtonType::Down => self.down.pressed,
            ButtonType::Left => self.left.pressed,
            ButtonType::Right => self.right.pressed,
        }
    }
}

/// Acceleration and turn rate a player asks for, in the same fixed-point
/// unit as the speeds handed in.
#[derive(Clone, Copy, Debug, PartialEq, Eq, Structural)]
pub struct ControlOutput {
    pub acceleration: i64,
    pub turn: i64,
}

/// Derives the control output from the direction buttons: up and down
/// add and subtract the acceleration speed, left and right add and
/// subtract the turn speed, opposite buttons cancel.
pub fn get_control_acc(pi: &PlayerInput, acc_speed: i64, turn_speed: i64) -> (co: ControlOutput)
    requires
        0 <= acc_speed <= 0x1000000000000000,
        0 <= turn_speed <= 0x1000000000000000,
    ensures
        co.acceleration == (if pi.up.pressed { acc_speed as int } else { 0 }) - (if pi
            .down.pressed {
            acc_speed as int
        } else {
            0
        }),
        co.turn == (if pi.left.pressed { turn_speed as int } else { 0 }) - (if pi.right.pressed {
            turn_speed as int
        } else {
            0
        }),
{
    let mut co = ControlOutput { acceleration: 0, turn: 0 };
    if pi.is_pressed(ButtonType::Up) {
        co.acceleration = co.acceleration + acc_speed;
    }
    if pi.is_pressed(ButtonType::Down) {
        co.acceleration = co.acceleration - acc_speed;
    }
    if pi.is_pressed(ButtonType::Right) {
        co.turn = co.turn - turn_speed;
    }
    if pi.is_pressed(ButtonType::Left) {
        co.turn = co.turn + turn_speed;
    }
    co
}

} // verus!
