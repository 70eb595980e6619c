//! User-input events and their host-boundary twins.
//!
//! The `CGO`-prefixed records mirror the structs the host process passes
//! across the boundary; they hold plain values only and convert one-to-one
//! into the session's own event types.

use vstd::prelude::*;

verus! {

/// Which mouse button a pointer event reports.
#[derive(Clone, Copy, Debug, PartialEq, Eq, Structural)]
pub enum PointerButton {
    NoButton,
    Left,
    Right,
    Middle,
}

/// Which wheel a pointer event reports.
#[derive(Clone, Copy, Debug, PartialEq, Eq, Structural)]
pub enum PointerWheel {
    NoWheel,
    Vertical,
    Horizontal,
}

/// A mouse move, click, or wheel update from the user.
#[derive(Clone, Copy, Debug, PartialEq, Eq, Structural)]
pub struct PointerEvent {
    pub x: u16,
    pub y: u16,
    pub button: PointerButton,
    pub down: bool,
    pub wheel: PointerWheel,
    pub wheel_delta: i16,
}

/// A keyboard update from the user; one key code per event.
#[derive(Clone, Copy, Debug, PartialEq, Eq, Structural)]
pub struct KeyboardEvent {
    pub code: u16,
    pub down: bool,
}

/// Status handed back to the host: success or failure; detail goes to the
/// log.
#[derive(Clone, Copy, Debug, PartialEq, Eq, Structural)]
pub enum CGOErrCode {
    ErrCodeSuccess,
    ErrCodeFailure,
}

/// Host-boundary twin of `PointerButton`.
#[derive(Clone, Copy, Debug, PartialEq, Eq, Structural)]
pub enum CGOPointerButton {
    PointerButtonNone,
    PointerButtonLeft,
    PointerButtonRight,
    PointerButtonMiddle,
}

/// Host-boundary twin of `PointerWheel`.
#[derive(Clone, Copy, Debug, PartialEq, Eq, Structural)]
pub enum CGOPointerWheel {
    PointerWheelNone,
    PointerWheelVertical,
    PointerWheelHorizontal,
}

/// Host-boundary twin of `PointerEvent`.
#[derive(Clone, Copy, Debug, PartialEq, Eq, Structural)]
pub struct CGOMousePointerEvent {
    pub x: u16,
    pub y: u16,
    pub button: CGOPointerButton,
    pub down: bool,
    pub wheel: CGOPointerWheel,
    pub wheel_delta: i16,
}

/// Host-boundary twin of `KeyboardEvent`.
#[derive(Clone, Copy, Debug, PartialEq, Eq, Structural)]
pub struct CGOKeyboardEvent {
    pub code: u16,
    pub down: bool,
}

/// The session-side button of a host-side one.
pub open spec fn spec_button_from(b: CGOPointerButton) -> PointerButton {
    match b {
        CGOPointerButton::PointerButtonNone => PointerButton::NoButton,
        CGOPointerButton::PointerButtonLeft => PointerButton::Left,
        CGOPointerButton::PointerButtonRight => PointerButton::Right,
        CGOPointerButton::PointerButtonMiddle => PointerButton::Middle,
    }
}

/// The session-side wheel of a host-side one.
pub open spec fn spec_wheel_from(w: CGOPointerWheel) -> PointerWheel {
    match w {
        CGOPointerWheel::PointerWheelNone => PointerWheel::NoWheel,
        CGOPointerWheel::PointerWheelVertical => PointerWheel::Vertical,
        CGOPointerWheel::PointerWheelHorizontal => PointerWheel::Horizontal,
    }
}

/// The session-side event of a host-side pointer event.
pub open spec fn spec_pointer_from(p: CGOMousePointerEvent) -> PointerEvent {
    PointerEvent {
        x: p.x,
        y: p.y,
        button: spec_button_from(p.button),
        down: p.down,
        wheel: spec_wheel_from(p.wheel),
        wheel_delta: p.wheel_delta,
    }
}

/// The session-side event of a host-side keyboard event.
pub open spec fn spec_key_from(k: CGOKeyboardEvent) -> KeyboardEvent {
    KeyboardEvent { code: k.code, down: k.down }
}

impl From<CGOMousePointerEvent> for PointerEvent {
    fn from(p: CGOMousePointerEvent) -> (r: PointerEvent) {
        PointerEvent {
            x: p.x,
            y: p.y,
            button: match p.button {
                CGOPointerButton::PointerButtonNone => PointerButton::NoButton,
                CGOPointerButton::PointerButtonLeft => PointerButton::Left,
                CGOPointerButton::PointerButtonRight => PointerButton::Right,
                CGOPointerButton::PointerButtonMiddle => PointerButton::Middle,
            },
            down: p.down,
            wheel: match p.wheel {
                CGOPointerWheel::PointerWheelNone => PointerWheel::NoWheel,
                CGOPointerWheel::PointerWheelVertical => PointerWheel::Vertical,
                CGOPointerWheel::PointerWheelHorizontal => PointerWheel::Horizontal,
            },
            wheel_delta: p.wheel_delta,
        }
    }
}

impl vstd::std_specs::convert::FromSpecImpl<CGOMousePointerEvent> for PointerEvent {
    open spec fn obeys_from_spec() -> bool {
        true
    }

    open spec fn from_spec(p: CGOMousePointerEvent) -> PointerEvent {
        spec_pointer_from(p)
    }
}

impl From<CGOKeyboardEvent> for KeyboardEvent {
    fn from(k: CGOKeyboardEvent) -> (r: KeyboardEvent) {
        KeyboardEvent { code: k.code, down: k.down }
    }
}

impl vstd::std_specs::convert::FromSpecImpl<CGOKeyboardEvent> for KeyboardEvent {
    open spec fn obeys_from_spec() -> bool {
        true
    }

    open spec fn from_spec(k: CGOKeyboardEvent) -> KeyboardEvent {
        spec_key_from(k)
    }
}

} // verus!
