//! Controller logic for a physical check-in kiosk: a tag reader and a
//! panel of buttons feed one ordered event stream, and a session state
//! machine turns those events into status updates and audio feedback.
//!
//! The crate holds the verified core: the key-code translator, the two
//! listeners' decoding logic, the session coordinator's state machine and
//! the configuration getters.  Device access, audio playback, the remote
//! service and the event channel are outside concerns; the coordinator
//! names the call to make in a `session::Directive` and the surrounding
//! program performs it.

pub mod audio;
pub mod buttons;
pub mod config;
pub mod keycodenames;
pub mod model;
pub mod session;
pub mod tagreader;
