//! Scenario tests for the session coordinator's state machine: identified
//! and unidentified button presses, unknown tags, admin tags, single-user
//! mode, shutdown, and feedback-sound selection.

use verbleiber::audio::Sound;
use verbleiber::model::{Button, CurrentUser, Event, Tag, UserMode};
use verbleiber::session::{Directive, SessionCoordinator, TagLookup};

fn tag(value: &str) -> Tag {
    Tag { value: value.to_string() }
}

fn multi_user_coordinator() -> SessionCoordinator {
    SessionCoordinator::new(
        UserMode::MultiUser,
        vec![tag("999")],
        vec![(Button::Button3, "lounge".to_string())],
        vec![("lounge".to_string(), vec!["going_to_lounge".to_string()])],
    )
}

#[test]
fn identified_button_press_updates_status_once() {
    let mut coordinator = multi_user_coordinator();

    let lookup = coordinator.handle_event(Event::TagRead { tag: tag("42") });
    assert_eq!(lookup, Directive::LookupTag(tag("42")));

    let greeting = coordinator.apply_lookup_outcome(TagLookup::Match {
        user_id: "u42".to_string(),
        sound_name: None,
    });
    assert_eq!(greeting, None);
    assert_eq!(coordinator.current_user, CurrentUser::User("u42".to_string()));

    let update = coordinator.handle_event(Event::ButtonPressed { button: Button::Button3 });
    assert_eq!(
        update,
        Directive::UpdateStatus {
            user_id: "u42".to_string(),
            whereabouts_name: "lounge".to_string(),
        }
    );
    // the user resets to the mode default whether or not the update succeeds
    assert_eq!(coordinator.current_user, CurrentUser::Nobody);

    let success = coordinator.update_feedback(&"lounge".to_string(), true, 0);
    assert_eq!(
        success,
        Sound::WhereaboutsStatusUpdatedCustom("going_to_lounge".to_string())
    );
    let failure = coordinator.update_feedback(&"lounge".to_string(), false, 0);
    assert_eq!(failure, Sound::CommunicationFailed);
}

#[test]
fn custom_greeting_plays_on_match() {
    let mut coordinator = multi_user_coordinator();
    coordinator.handle_event(Event::TagRead { tag: tag("42") });
    let greeting = coordinator.apply_lookup_outcome(TagLookup::Match {
        user_id: "u42".to_string(),
        sound_name: Some("hello_there".to_string()),
    });
    assert_eq!(
        greeting,
        Some(Sound::UserTagCustomGreeting("hello_there".to_string()))
    );
}

#[test]
fn unknown_tag_plays_its_sound_and_resets() {
    let mut coordinator = multi_user_coordinator();
    let lookup = coordinator.handle_event(Event::TagRead { tag: tag("UNKNOWN") });
    assert_eq!(lookup, Directive::LookupTag(tag("UNKNOWN")));
    let sound = coordinator.apply_lookup_outcome(TagLookup::NoMatch);
    assert_eq!(sound, Some(Sound::UserTagUnknown));
    assert_eq!(coordinator.current_user, CurrentUser::Nobody);
}

#[test]
fn failed_lookup_plays_communication_failed() {
    let mut coordinator = multi_user_coordinator();
    coordinator.handle_event(Event::TagRead { tag: tag("42") });
    let sound = coordinator.apply_lookup_outcome(TagLookup::Failed);
    assert_eq!(sound, Some(Sound::CommunicationFailed));
    assert_eq!(coordinator.current_user, CurrentUser::Nobody);
}

#[test]
fn buttons_without_identified_user_do_nothing() {
    let mut coordinator = multi_user_coordinator();
    for _ in 0..5 {
        let d = coordinator.handle_event(Event::ButtonPressed { button: Button::Button3 });
        assert_eq!(d, Directive::Idle);
        assert_eq!(coordinator.current_user, CurrentUser::Nobody);
    }
}

#[test]
fn unassigned_button_is_a_no_op() {
    let mut coordinator = multi_user_coordinator();
    coordinator.handle_event(Event::TagRead { tag: tag("42") });
    coordinator.apply_lookup_outcome(TagLookup::Match {
        user_id: "u42".to_string(),
        sound_name: None,
    });
    let d = coordinator.handle_event(Event::ButtonPressed { button: Button::Button1 });
    assert_eq!(d, Directive::Idle);
    assert_eq!(coordinator.current_user, CurrentUser::Nobody);
}

#[test]
fn admin_tag_enters_and_button_leaves_admin_state() {
    let mut coordinator = multi_user_coordinator();
    let entered = coordinator.handle_event(Event::TagRead { tag: tag("999") });
    assert_eq!(entered, Directive::Play(Sound::AdminModeEntered));
    assert_eq!(coordinator.current_user, CurrentUser::Admin);
    let left = coordinator.handle_event(Event::ButtonPressed { button: Button::Button3 });
    assert_eq!(left, Directive::Play(Sound::AdminModeLeft));
    assert_eq!(coordinator.current_user, CurrentUser::Nobody);
}

#[test]
fn single_user_tag_read_is_ignored() {
    let mut coordinator = SessionCoordinator::new(
        UserMode::SingleUser("fixed".to_string()),
        vec![],
        vec![(Button::Button1, "away".to_string())],
        vec![],
    );
    let d = coordinator.handle_event(Event::TagRead { tag: tag("42") });
    assert_eq!(d, Directive::Idle);
    assert_eq!(coordinator.current_user, CurrentUser::User("fixed".to_string()));
}

#[test]
fn single_user_button_press_acts_for_the_fixed_user() {
    let mut coordinator = SessionCoordinator::new(
        UserMode::SingleUser("fixed".to_string()),
        vec![],
        vec![(Button::Button1, "away".to_string())],
        vec![],
    );
    let d = coordinator.handle_event(Event::ButtonPressed { button: Button::Button1 });
    assert_eq!(
        d,
        Directive::UpdateStatus {
            user_id: "fixed".to_string(),
            whereabouts_name: "away".to_string(),
        }
    );
    assert_eq!(coordinator.current_user, CurrentUser::User("fixed".to_string()));
}

#[test]
fn shutdown_signs_off_exactly_once() {
    let mut coordinator = multi_user_coordinator();
    let first = coordinator.handle_event(Event::ShutdownRequested);
    assert_eq!(first, Directive::SignOff);
    let second = coordinator.handle_event(Event::ShutdownRequested);
    assert_eq!(second, Directive::Idle);
    let third = coordinator.handle_event(Event::ButtonPressed { button: Button::Button3 });
    assert_eq!(third, Directive::Idle);
}

#[test]
fn update_feedback_picks_among_configured_sounds() {
    let coordinator = SessionCoordinator::new(
        UserMode::MultiUser,
        vec![],
        vec![(Button::Button1, "lunch".to_string())],
        vec![(
            "lunch".to_string(),
            vec!["bon_appetit".to_string(), "enjoy".to_string()],
        )],
    );
    let name = "lunch".to_string();
    assert_eq!(
        coordinator.update_feedback(&name, true, 0),
        Sound::WhereaboutsStatusUpdatedCustom("bon_appetit".to_string())
    );
    assert_eq!(
        coordinator.update_feedback(&name, true, 3),
        Sound::WhereaboutsStatusUpdatedCustom("enjoy".to_string())
    );
}

#[test]
fn update_feedback_without_custom_sounds_is_generic() {
    let coordinator = SessionCoordinator::new(
        UserMode::MultiUser,
        vec![],
        vec![(Button::Button1, "desk".to_string())],
        vec![],
    );
    let name = "desk".to_string();
    assert_eq!(
        coordinator.update_feedback(&name, true, 7),
        Sound::WhereaboutsStatusUpdated
    );
}

#[test]
fn sign_on_and_sign_off_feedback_sounds() {
    assert_eq!(
        SessionCoordinator::sign_on_feedback(true),
        Sound::SignOnSuccessful
    );
    assert_eq!(SessionCoordinator::sign_on_feedback(false), Sound::SignOnFailed);
    assert_eq!(
        SessionCoordinator::sign_off_feedback(true),
        Sound::SignOffSuccessful
    );
    assert_eq!(
        SessionCoordinator::sign_off_feedback(false),
        Sound::SignOffFailed
    );
}
