//! Feedback sounds and their file-base names.
//!
//! Playing a sound is an outside concern; this module only fixes, for every
//! outcome the session coordinator can reach, which sound is meant and what
//! its name is.

use vstd::prelude::*;

verus! {

/// A feedback sound, one per outcome of the session state machine.
/// Custom variants carry a configured sound name.
#[derive(Clone, Debug, PartialEq, Eq)]
pub enum Sound {
    AdminModeEntered,
    AdminModeLeft,
    SignOnSuccessful,
    SignOnFailed,
    SignOffSuccessful,
    SignOffFailed,
    UserTagCustomGreeting(String),
    UserTagUnknown,
    WhereaboutsStatusUpdated,
    WhereaboutsStatusUpdatedCustom(String),
    CommunicationFailed,
}

impl Sound {
    /// The name of this sound, as a sequence of characters.
    pub open spec fn spec_name(self) -> Seq<char> {
        match self {
            Sound::AdminModeEntered => "admin_mode_entered"@,
            Sound::AdminModeLeft => "admin_mode_left"@,
            Sound::SignOnSuccessful => "sign_on_successful"@,
            Sound::SignOnFailed => "sign_on_failed"@,
            Sound::SignOffSuccessful => "sign_off_successful"@,
            Sound::SignOffFailed => "sign_off_failed"@,
            Sound::UserTagCustomGreeting(name) => name@,
            Sound::UserTagUnknown => "user_tag_unknown"@,
            Sound::WhereaboutsStatusUpdated => "whereabouts_status_updated"@,
            Sound::WhereaboutsStatusUpdatedCustom(name) => name@,
            Sound::CommunicationFailed => "communication_failed"@,
        }
    }

    /// Returns the name under which this sound's file is looked up.
    pub fn get_name(&self) -> (r: String)
        ensures
            r@ == self.spec_name(),
    {
        match self {
            Sound::AdminModeEntered => "admin_mode_entered".to_owned(),
            Sound::AdminModeLeft => "admin_mode_left".to_owned(),
            Sound::SignOnSuccessful => "sign_on_successful".to_owned(),
            Sound::SignOnFailed => "sign_on_failed".to_owned(),
            Sound::SignOffSuccessful => "sign_off_successful".to_owned(),
            Sound::SignOffFailed => "sign_off_failed".to_owned(),
            Sound::UserTagCustomGreeting(name) => name.clone(),
            Sound::UserTagUnknown => "user_tag_unknown".to_owned(),
            Sound::WhereaboutsStatusUpdated => "whereabouts_status_updated".to_owned(),
            Sound::WhereaboutsStatusUpdatedCustom(name) => name.clone(),
            Sound::CommunicationFailed => "communication_failed".to_owned(),
        }
    }
}

} // verus!
