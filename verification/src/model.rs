//! Core data model: tags, buttons, events, user modes.

use vstd::prelude::*;

verus! {

/// The event-type code the input subsystem uses for key events.
pub const EV_KEY: u16 = 1;

/// A raw key event reports this value on a key release.
pub const KEY_RELEASED: i32 = 0;

/// An opaque identifier scanned from a physical badge or token.
/// Equality is by value; no further structure is assumed.
#[derive(Clone, Debug, PartialEq, Eq, Hash)]
pub struct Tag {
    pub value: String,
}

/// One of the eight physical buttons on the panel.
#[derive(Clone, Copy, PartialEq, Eq, Structural, Debug, Hash)]
pub enum Button {
    Button1,
    Button2,
    Button3,
    Button4,
    Button5,
    Button6,
    Button7,
    Button8,
}

/// A domain event produced by the listeners or the signal handler and
/// consumed by the session coordinator.
#[derive(Clone, Debug)]
pub enum Event {
    TagRead { tag: Tag },
    ButtonPressed { button: Button },
    ShutdownRequested,
}

/// Process-wide user identification mode, fixed at startup.
#[derive(Clone, Debug)]
pub enum UserMode {
    SingleUser(String),
    MultiUser,
}

/// The transient per-interaction session state: either no user has been
/// identified yet, an administrative tag was scanned, or a tag resolved to
/// a concrete user.
#[derive(Clone, Debug, PartialEq, Eq)]
pub enum CurrentUser {
    Nobody,
    Admin,
    User(String),
}

/// A raw key event as the input subsystem reports it: an event-type code,
/// a key code, and a value that distinguishes press from release.
#[derive(Clone, Copy, PartialEq, Eq, Structural, Debug)]
pub struct RawKeyEvent {
    pub event_type: u16,
    pub code: u16,
    pub value: i32,
}

/// Whether a raw key event is a key-release transition.  Presses are
/// ignored throughout, so a held or repeated key fires only once.
pub open spec fn spec_is_key_released(event: RawKeyEvent) -> bool {
    event.event_type == EV_KEY && event.value == KEY_RELEASED
}

} // verus!
