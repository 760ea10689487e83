use vstd::prelude::*;
use crate::display::Display;
use crate::lvgl::Lvgl;

verus! {

// Native input-device kinds, kept in lockstep with the engine's ABI.
pub const LV_INDEV_TYPE_NONE: u32 = 0;
pub const LV_INDEV_TYPE_POINTER: u32 = 1;
pub const LV_INDEV_TYPE_KEYPAD: u32 = 2;
pub const LV_INDEV_TYPE_BUTTON: u32 = 3;
pub const LV_INDEV_TYPE_ENCODER: u32 = 4;

/// The state a poll record reports: released or pressed.
#[derive(Copy, Clone, Eq, PartialEq, Structural, Debug)]
pub enum IndevState {
    Released,
    Pressed,
}

impl IndevState {
    /// The native integer of this state.
    pub fn raw_value(self) -> (v: u32)
        ensures
            v == (match self {
                IndevState::Released => 0u32,
                IndevState::Pressed => 1u32,
            }),
    {
        match self {
            IndevState::Released => 0,
            IndevState::Pressed => 1,
        }
    }
}

/// The native poll record the engine reads once per scheduler pass:
/// the pointer position and whether it is pressed.
#[derive(Copy, Clone, Eq, PartialEq, Structural, Debug)]
pub struct IndevData {
    pub point_x: i16,
    pub point_y: i16,
    pub state: IndevState,
}

impl Default for IndevData {
    /// A poll record before any poll: released at the origin.
    fn default() -> (d: IndevData)
        ensures
            d == (IndevData { point_x: 0i16, point_y: 0i16, state: IndevState::Released }),
    {
        IndevData { point_x: 0, point_y: 0, state: IndevState::Released }
    }
}

/// A host-supplied device-state value: it reports its native device kind
/// and fills the native poll record from its current state.
pub trait InputDeviceState: Sized {
    /// What filling a poll record that previously held `prev` leaves in it.
    spec fn spec_populate(&self, prev: IndevData) -> IndevData;

    /// The native kind of this device.
    spec fn spec_device_type() -> u32;

    /// Fills the native poll record from the current state.
    fn populate_lv_indev_data(&self, data: &mut IndevData)
        ensures
            *final(data) == self.spec_populate(*old(data)),
    ;

    /// Reports the native kind of this device.
    fn input_device_type() -> (k: u32)
        ensures
            k == Self::spec_device_type(),
    ;
}

/// An input-device binding: the engine polls the held state once per
/// scheduler pass through `indev_read`; the host mutates the state between
/// passes through `state`.
pub struct InputDevice<S> {
    pub state: S,
}

impl<S: InputDeviceState> InputDevice<S> {
    /// Registers an input device of `S`'s kind against the display and
    /// takes `initial` as its starting state.
    pub fn new<T>(lv: &mut Lvgl, display: &Display<T>, initial: S) -> (d: InputDevice<S>)
        requires
            old(lv).display is Some,
        ensures
            d.state == initial,
            final(lv).indev_kinds@ == old(lv).indev_kinds@.push(S::spec_device_type()),
            *final(lv) == (Lvgl { indev_kinds: final(lv).indev_kinds, ..*old(lv) }),
            crate::lvgl::spec_engine_wf(*old(lv)) ==> crate::lvgl::spec_engine_wf(*final(lv)),
    {
        let _ = display;
        let kind = S::input_device_type();
        lv.indev_kinds.push(kind);
        InputDevice { state: initial }
    }

    /// The read callback: fills the poll record from the current state.
    /// The engine invokes it once per scheduler pass; only the state at
    /// poll time is observed, so presses both made and released between
    /// two polls are lost by design.
    pub fn indev_read(&self, data: &mut IndevData)
        ensures
            *final(data) == self.state.spec_populate(*old(data)),
    {
        self.state.populate_lv_indev_data(data);
    }

    /// The held device state, for the host to mutate between passes.
    pub fn state(&mut self) -> (r: &mut S)
        ensures
            *r == old(self).state,
            final(self).state == *final(r),
    {
        &mut self.state
    }
}

/// A touch pad, the reference pointer-device state: either released, or
/// pressed at a position.
#[derive(Copy, Clone, Eq, PartialEq, Structural, Debug)]
pub enum TouchPad {
    Released,
    Pressed { x: i16, y: i16 },
}

impl Default for TouchPad {
    fn default() -> (t: TouchPad)
        ensures
            t == TouchPad::Released,
    {
        TouchPad::Released
    }
}

impl InputDeviceState for TouchPad {
    open spec fn spec_populate(&self, prev: IndevData) -> IndevData {
        match *self {
            TouchPad::Pressed { x, y } => IndevData {
                point_x: x,
                point_y: y,
                state: IndevState::Pressed,
            },
            TouchPad::Released => IndevData { state: IndevState::Released, ..prev },
        }
    }

    open spec fn spec_device_type() -> u32 {
        LV_INDEV_TYPE_POINTER
    }

    /// Pressed writes the position and a pressed state; released writes a
    /// released state and leaves the position bytes as they were (their
    /// content is meaningless while released).
    fn populate_lv_indev_data(&self, data: &mut IndevData) {
        match self {
            TouchPad::Pressed { x, y } => {
                data.point_x = *x;
                data.point_y = *y;
                data.state = IndevState::Pressed;
            },
            TouchPad::Released => {
                data.state = IndevState::Released;
            },
        }
    }

    fn input_device_type() -> u32 {
        LV_INDEV_TYPE_POINTER
    }
}

/// Input-state round trip: a touch pad set to "pressed at a position"
/// makes the next poll report exactly that position as pressed, and one
/// set to "released" makes the next poll report released, whatever the
/// record held before.
pub proof fn lemma_touchpad_round_trip(prev: IndevData, x: i16, y: i16)
    ensures
        (TouchPad::Pressed { x, y }).spec_populate(prev) == (IndevData {
            point_x: x,
            point_y: y,
            state: IndevState::Pressed,
        }),
        (TouchPad::Released).spec_populate(prev).state == IndevState::Released,
{
}

} // verus!
