//! The events that the host hands in, and the library-native events they become.
use vstd::prelude::*;

verus! {

/// What a finger did, as the host reports it.
#[derive(Clone, Copy, Debug, PartialEq, Eq, Structural)]
pub enum TouchAction {
    Down,
    Move,
    Up,
}

/// The action for a raw host code: 0 is down, 2 is move, and every other code is
/// taken as up, the safe terminal state.
pub open spec fn touch_action_of(code: i32) -> TouchAction {
    if code == 0 {
        TouchAction::Down
    } else if code == 2 {
        TouchAction::Move
    } else {
        TouchAction::Up
    }
}

impl From<i32> for TouchAction {
    fn from(value: i32) -> Self {
        match value {
            0 => TouchAction::Down,
            2 => TouchAction::Move,
            _ => TouchAction::Up,
        }
    }
}

impl vstd::std_specs::convert::FromSpecImpl<i32> for TouchAction {
    open spec fn obeys_from_spec() -> bool {
        true
    }

    open spec fn from_spec(v: i32) -> Self {
        touch_action_of(v)
    }
}

/// An event as the host's entry points produce it. Touch coordinates are in
/// thousandths of a logical pixel.
#[derive(Clone, Copy, Debug, PartialEq, Eq, Structural)]
pub enum MobileEvent {
    Render,
    Touch { x: i64, y: i64, action: TouchAction },
    Resize { width: u32, height: u32 },
    Exit,
}

/// An event in the form the frame loop consumes it.
#[derive(Clone, Copy, Debug, PartialEq, Eq, Structural)]
pub enum NativeEvent {
    TouchStart { id: u64, x: i64, y: i64 },
    TouchMove { id: u64, x: i64, y: i64 },
    TouchEnd { id: u64, x: i64, y: i64 },
    WindowResize { width: u32, height: u32 },
}

/// The native event for a touch of the single tracked finger: coordinates pass
/// through unchanged.
pub open spec fn native_touch(x: i64, y: i64, action: TouchAction) -> NativeEvent {
    match action {
        TouchAction::Down => NativeEvent::TouchStart { id: 0, x, y },
        TouchAction::Move => NativeEvent::TouchMove { id: 0, x, y },
        TouchAction::Up => NativeEvent::TouchEnd { id: 0, x, y },
    }
}

/// Translates a touch into its native event; any other event has no touch form.
pub fn process_events(event: &MobileEvent) -> (r: Option<NativeEvent>)
    ensures
        r == (match *event {
            MobileEvent::Touch { x, y, action } => Some(native_touch(x, y, action)),
            _ => None,
        }),
{
    match *event {
        MobileEvent::Touch { x, y, action } => Some(
            match action {
                TouchAction::Down => NativeEvent::TouchStart { id: 0, x, y },
                TouchAction::Move => NativeEvent::TouchMove { id: 0, x, y },
                TouchAction::Up => NativeEvent::TouchEnd { id: 0, x, y },
            },
        ),
        _ => None,
    }
}

} // verus!
