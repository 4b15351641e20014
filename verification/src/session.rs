//! The session coordinator: the sole consumer of the event stream.  It
//! holds the transient session state and decides, for every incoming
//! event, which remote call to make and which feedback sound to play.
//!
//! The coordinator itself performs no outside work.  `handle_event` maps an
//! event to a `Directive` naming the call the surrounding loop must make;
//! the loop feeds a tag lookup's outcome back through
//! `apply_lookup_outcome`, and asks `update_feedback`, `sign_on_feedback`
//! and `sign_off_feedback` which sound an outcome earns.

use vstd::prelude::*;
use crate::audio::Sound;
use crate::model::{Button, CurrentUser, Event, Tag, UserMode};

verus! {

/// The outside call that the surrounding loop must make next, if any.
#[derive(Clone, Debug, PartialEq, Eq)]
pub enum Directive {
    /// Nothing to do.
    Idle,
    /// Play a feedback sound.
    Play(Sound),
    /// Look the tag up with the remote service, then feed the outcome to
    /// `apply_lookup_outcome`.
    LookupTag(Tag),
    /// Record the user's whereabouts choice with the remote service, then
    /// ask `update_feedback` for the sound the outcome earns.
    UpdateStatus { user_id: String, whereabouts_name: String },
    /// Attempt the sign-off call; the receive loop ends.
    SignOff,
}

/// The outcome of a remote tag lookup.
#[derive(Clone, Debug, PartialEq, Eq)]
pub enum TagLookup {
    /// The tag resolved to a user, with an optional greeting-sound name.
    Match { user_id: String, sound_name: Option<String> },
    /// The lookup succeeded but no user wears this tag.
    NoMatch,
    /// The lookup call failed.
    Failed,
}

/// The session state the coordinator returns to after every completed or
/// aborted interaction: the configured user in single-user mode, nobody in
/// multi-user mode.
pub open spec fn default_user(mode: UserMode) -> CurrentUser {
    match mode {
        UserMode::SingleUser(id) => CurrentUser::User(id),
        UserMode::MultiUser => CurrentUser::Nobody,
    }
}

/// First-match lookup of a button's whereabouts name.
pub open spec fn whereabouts_lookup(entries: Seq<(Button, String)>, button: Button) -> Option<
    String,
>
    decreases entries.len(),
{
    if entries.len() == 0 {
        None
    } else if entries[0].0 == button {
        Some(entries[0].1)
    } else {
        whereabouts_lookup(entries.drop_first(), button)
    }
}

/// First-match lookup of a whereabouts name's configured sound names.
pub open spec fn sounds_lookup(entries: Seq<(String, Vec<String>)>, name: Seq<char>) -> Option<
    Seq<String>,
>
    decreases entries.len(),
{
    if entries.len() == 0 {
        None
    } else if entries[0].0@ == name {
        Some(entries[0].1@)
    } else {
        sounds_lookup(entries.drop_first(), name)
    }
}

/// The session coordinator's state: the fixed configuration it dispatches
/// on, the transient current user, and whether shutdown has begun.
pub struct SessionCoordinator {
    pub user_mode: UserMode,
    pub admin_tags: Vec<Tag>,
    pub buttons_to_whereabouts: Vec<(Button, String)>,
    pub whereabouts_sounds: Vec<(String, Vec<String>)>,
    pub current_user: CurrentUser,
    pub done: bool,
}

impl SessionCoordinator {
    /// The state this coordinator resets to between interactions.
    pub open spec fn spec_default_user(self) -> CurrentUser {
        default_user(self.user_mode)
    }

    /// Whether a tag value is configured as an administrative credential.
    pub open spec fn is_admin_tag(self, value: Seq<char>) -> bool {
        exists|i: int|
            0 <= i < self.admin_tags@.len() && #[trigger] self.admin_tags@[i].value@ == value
    }

    /// The whereabouts name the given button is assigned to, if any.
    pub open spec fn spec_whereabouts_for(self, button: Button) -> Option<String> {
        whereabouts_lookup(self.buttons_to_whereabouts@, button)
    }

    /// The custom sound names configured for a whereabouts name, if any.
    pub open spec fn spec_sounds_for(self, name: Seq<char>) -> Option<Seq<String>> {
        sounds_lookup(self.whereabouts_sounds@, name)
    }
}

/// The directive an identified user's button press earns: an update of the
/// assigned whereabouts, or nothing for an unassigned button.
pub open spec fn spec_dispatch(s: SessionCoordinator, user_id: String, button: Button) -> Directive {
    match s.spec_whereabouts_for(button) {
        Some(name) => Directive::UpdateStatus { user_id, whereabouts_name: name },
        None => Directive::Idle,
    }
}

/// The coordinator's transition function: the state after one event, and
/// the directive the event earns.
///
/// After shutdown has begun every event is ignored.  A shutdown request
/// marks the coordinator done and asks for the one sign-off.  In
/// single-user mode a tag read is unexpected and ignored, and a button
/// press acts for the configured user.  In multi-user mode an
/// administrative tag enters admin state, any other tag is looked up, and
/// a button press acts for the identified user, leaves admin state, or is
/// ignored when nobody is identified.  The current user returns to the
/// mode's default after every completed or aborted interaction.
pub open spec fn spec_step(s: SessionCoordinator, event: Event) -> (SessionCoordinator, Directive) {
    if s.done {
        (s, Directive::Idle)
    } else {
        match event {
            Event::ShutdownRequested => (
                SessionCoordinator { done: true, ..s },
                Directive::SignOff,
            ),
            Event::TagRead { tag } => match s.user_mode {
                UserMode::SingleUser(_) => (
                    SessionCoordinator { current_user: s.spec_default_user(), ..s },
                    Directive::Idle,
                ),
                UserMode::MultiUser => if s.is_admin_tag(tag.value@) {
                    (
                        SessionCoordinator { current_user: CurrentUser::Admin, ..s },
                        Directive::Play(Sound::AdminModeEntered),
                    )
                } else {
                    (
                        SessionCoordinator { current_user: CurrentUser::Nobody, ..s },
                        Directive::LookupTag(tag),
                    )
                },
            },
            Event::ButtonPressed { button } => match s.user_mode {
                UserMode::SingleUser(id) => (
                    SessionCoordinator { current_user: s.spec_default_user(), ..s },
                    spec_dispatch(s, id, button),
                ),
                UserMode::MultiUser => match s.current_user {
                    CurrentUser::User(id) => (
                        SessionCoordinator { current_user: CurrentUser::Nobody, ..s },
                        spec_dispatch(s, id, button),
                    ),
                    CurrentUser::Admin => (
                        SessionCoordinator { current_user: CurrentUser::Nobody, ..s },
                        Directive::Play(Sound::AdminModeLeft),
                    ),
                    CurrentUser::Nobody => (s, Directive::Idle),
                },
            },
        }
    }
}

/// The state after a tag lookup's outcome, and the sound it earns: a match
/// identifies the user and may greet; no match plays the unknown-tag
/// sound; a failed call plays the communication-failure sound.  Without a
/// match the current user returns to the mode's default.
pub open spec fn spec_apply_lookup(s: SessionCoordinator, outcome: TagLookup) -> (
    SessionCoordinator,
    Option<Sound>,
) {
    match outcome {
        TagLookup::Match { user_id, sound_name } => (
            SessionCoordinator { current_user: CurrentUser::User(user_id), ..s },
            match sound_name {
                Some(name) => Some(Sound::UserTagCustomGreeting(name)),
                None => None,
            },
        ),
        TagLookup::NoMatch => (
            SessionCoordinator { current_user: s.spec_default_user(), ..s },
            Some(Sound::UserTagUnknown),
        ),
        TagLookup::Failed => (
            SessionCoordinator { current_user: s.spec_default_user(), ..s },
            Some(Sound::CommunicationFailed),
        ),
    }
}

/// The sound a status update's outcome earns: on success, one of the
/// whereabouts' configured custom sounds picked by the injected random
/// value, or the generic updated sound when none is configured; on
/// failure, the communication-failure sound.
pub open spec fn spec_update_feedback(
    s: SessionCoordinator,
    name: Seq<char>,
    ok: bool,
    pick: int,
) -> Sound {
    if !ok {
        Sound::CommunicationFailed
    } else {
        match s.spec_sounds_for(name) {
            Some(sounds) => if sounds.len() > 0 {
                Sound::WhereaboutsStatusUpdatedCustom(sounds[pick % (sounds.len() as int)])
            } else {
                Sound::WhereaboutsStatusUpdated
            },
            None => Sound::WhereaboutsStatusUpdated,
        }
    }
}

impl SessionCoordinator {
    /// A coordinator over the given configuration, with the mode's default
    /// current user and shutdown not begun.
    pub fn new(
        user_mode: UserMode,
        admin_tags: Vec<Tag>,
        buttons_to_whereabouts: Vec<(Button, String)>,
        whereabouts_sounds: Vec<(String, Vec<String>)>,
    ) -> (r: Self)
        ensures
            r.user_mode == user_mode,
            r.admin_tags == admin_tags,
            r.buttons_to_whereabouts == buttons_to_whereabouts,
            r.whereabouts_sounds == whereabouts_sounds,
            r.current_user == r.spec_default_user(),
            !r.done,
    {
        let current_user = match &user_mode {
            UserMode::SingleUser(id) => CurrentUser::User(id.clone()),
            UserMode::MultiUser => CurrentUser::Nobody,
        };
        SessionCoordinator {
            user_mode,
            admin_tags,
            buttons_to_whereabouts,
            whereabouts_sounds,
            current_user,
            done: false,
        }
    }

    /// Whether the given tag is configured as an administrative credential.
    fn is_admin(&self, tag: &Tag) -> (r: bool)
        ensures
            r == self.is_admin_tag(tag.value@),
    {
        let mut i: usize = 0;
        while i < self.admin_tags.len()
            invariant
                0 <= i <= self.admin_tags@.len(),
                forall|j: int| 0 <= j < i ==> #[trigger] self.admin_tags@[j].value@ != tag.value@,
            decreases self.admin_tags@.len() - i,
        {
            if self.admin_tags[i].value == tag.value {
                return true;
            }
            i = i + 1;
        }
        false
    }

    /// The whereabouts name the given button is assigned to, if any.
    fn find_whereabouts(&self, button: Button) -> (r: Option<String>)
        ensures
            r == self.spec_whereabouts_for(button),
    {
        let ghost full = self.buttons_to_whereabouts@;
        proof {
            assert(full.subrange(0, full.len() as int) =~= full);
        }
        let mut i: usize = 0;
        while i < self.buttons_to_whereabouts.len()
            invariant
                0 <= i <= full.len(),
                full == self.buttons_to_whereabouts@,
                self.spec_whereabouts_for(button) == whereabouts_lookup(
                    full.subrange(i as int, full.len() as int),
                    button,
                ),
            decreases full.len() - i,
        {
            proof {
                let rest = full.subrange(i as int, full.len() as int);
                assert(rest[0] == full[i as int]);
                assert(rest.drop_first() =~= full.subrange(i as int + 1, full.len() as int));
            }
            let (b, name) = &self.buttons_to_whereabouts[i];
            if *b == button {
                return Some(name.clone());
            }
            i = i + 1;
        }
        None
    }

    /// The custom sound names configured for a whereabouts name, if any.
    fn find_sounds(&self, name: &String) -> (r: Option<Vec<String>>)
        ensures
            match r {
                Some(sounds) => self.spec_sounds_for(name@) == Some(sounds@),
                None => self.spec_sounds_for(name@) is None,
            },
    {
        let ghost full = self.whereabouts_sounds@;
        proof {
            assert(full.subrange(0, full.len() as int) =~= full);
        }
        let mut i: usize = 0;
        while i < self.whereabouts_sounds.len()
            invariant
                0 <= i <= full.len(),
                full == self.whereabouts_sounds@,
                self.spec_sounds_for(name@) == sounds_lookup(
                    full.subrange(i as int, full.len() as int),
                    name@,
                ),
            decreases full.len() - i,
        {
            proof {
                let rest = full.subrange(i as int, full.len() as int);
                assert(rest[0] == full[i as int]);
                assert(rest.drop_first() =~= full.subrange(i as int + 1, full.len() as int));
            }
            let (n, sounds) = &self.whereabouts_sounds[i];
            if *n == *name {
                let copied = sounds.clone();
                proof {
                    assert(copied@ =~= full[i as int].1@);
                }
                return Some(copied);
            }
            i = i + 1;
        }
        None
    }

    /// Handles one event: updates the session state and names the outside
    /// call the surrounding loop must make.
    pub fn handle_event(&mut self, event: Event) -> (d: Directive)
        ensures
            *final(self) == spec_step(*old(self), event).0,
            d == spec_step(*old(self), event).1,
    {
        if self.done {
            return Directive::Idle;
        }
        let single_id: Option<String> = match &self.user_mode {
            UserMode::SingleUser(id) => Some(id.clone()),
            UserMode::MultiUser => None,
        };
        match single_id {
            Some(id) => self.handle_single_user_event(event, id),
            None => self.handle_multi_user_event(event),
        }
    }

    /// Handles one event in single-user mode: a tag read is unexpected and
    /// ignored, a button press acts for the configured user, a shutdown
    /// request begins shutdown.
    pub fn handle_single_user_event(&mut self, event: Event, single_user_id: String) -> (d:
        Directive)
        requires
            !old(self).done,
            old(self).user_mode matches UserMode::SingleUser(id) && id == single_user_id,
        ensures
            *final(self) == spec_step(*old(self), event).0,
            d == spec_step(*old(self), event).1,
    {
        match event {
            Event::TagRead { tag: _ } => {
                self.current_user = CurrentUser::User(single_user_id);
                Directive::Idle
            },
            Event::ButtonPressed { button } => {
                let d = self.handle_button_press_with_identified_user(
                    single_user_id.clone(),
                    button,
                );
                self.current_user = CurrentUser::User(single_user_id);
                d
            },
            Event::ShutdownRequested => {
                self.done = true;
                Directive::SignOff
            },
        }
    }

    /// Handles one event in multi-user mode: tags identify users or enter
    /// admin state, button presses act for the identified user, a
    /// shutdown request begins shutdown.
    pub fn handle_multi_user_event(&mut self, event: Event) -> (d: Directive)
        requires
            !old(self).done,
            old(self).user_mode is MultiUser,
        ensures
            *final(self) == spec_step(*old(self), event).0,
            d == spec_step(*old(self), event).1,
    {
        match event {
            Event::TagRead { tag } => self.handle_tag_read(tag),
            Event::ButtonPressed { button } => {
                let identified: Option<String> = match &self.current_user {
                    CurrentUser::User(id) => Some(id.clone()),
                    _ => None,
                };
                match identified {
                    Some(id) => {
                        let d = self.handle_button_press_with_identified_user(id, button);
                        self.current_user = CurrentUser::Nobody;
                        d
                    },
                    None => match &self.current_user {
                        CurrentUser::Admin => {
                            self.current_user = CurrentUser::Nobody;
                            Directive::Play(Sound::AdminModeLeft)
                        },
                        _ => Directive::Idle,
                    },
                }
            },
            Event::ShutdownRequested => {
                self.done = true;
                Directive::SignOff
            },
        }
    }

    /// Handles a tag read in multi-user mode: an administrative tag enters
    /// admin state; any other tag must be looked up, with nobody
    /// identified until the outcome arrives.
    pub fn handle_tag_read(&mut self, tag: Tag) -> (d: Directive)
        requires
            !old(self).done,
            old(self).user_mode is MultiUser,
        ensures
            *final(self) == spec_step(*old(self), Event::TagRead { tag }).0,
            d == spec_step(*old(self), Event::TagRead { tag }).1,
    {
        if self.is_admin(&tag) {
            self.current_user = CurrentUser::Admin;
            Directive::Play(Sound::AdminModeEntered)
        } else {
            self.current_user = CurrentUser::Nobody;
            Directive::LookupTag(tag)
        }
    }

    /// The directive an identified user's button press earns: an update of
    /// the assigned whereabouts, or nothing for an unassigned button.
    pub fn handle_button_press_with_identified_user(&self, user_id: String, button: Button) -> (d:
        Directive)
        ensures
            d == spec_dispatch(*self, user_id, button),
    {
        match self.find_whereabouts(button) {
            Some(name) => Directive::UpdateStatus { user_id, whereabouts_name: name },
            None => Directive::Idle,
        }
    }

    /// Applies a tag lookup's outcome: a match identifies the user and may
    /// name a greeting sound; otherwise the session resets and the
    /// outcome's sound plays.
    pub fn apply_lookup_outcome(&mut self, outcome: TagLookup) -> (r: Option<Sound>)
        ensures
            *final(self) == spec_apply_lookup(*old(self), outcome).0,
            r == spec_apply_lookup(*old(self), outcome).1,
    {
        match outcome {
            TagLookup::Match { user_id, sound_name } => {
                self.current_user = CurrentUser::User(user_id);
                match sound_name {
                    Some(name) => Some(Sound::UserTagCustomGreeting(name)),
                    None => None,
                }
            },
            TagLookup::NoMatch => {
                self.reset_current_user();
                Some(Sound::UserTagUnknown)
            },
            TagLookup::Failed => {
                self.reset_current_user();
                Some(Sound::CommunicationFailed)
            },
        }
    }

    /// Resets the current user to the mode's default.
    fn reset_current_user(&mut self)
        ensures
            *final(self) == (SessionCoordinator {
                current_user: old(self).spec_default_user(),
                ..*old(self)
            }),
    {
        let current_user = match &self.user_mode {
            UserMode::SingleUser(id) => CurrentUser::User(id.clone()),
            UserMode::MultiUser => CurrentUser::Nobody,
        };
        self.current_user = current_user;
    }

    /// The sound a status update's outcome earns; `pick` is the injected
    /// random value used to choose among several configured sounds.
    pub fn update_feedback(&self, whereabouts_name: &String, ok: bool, pick: usize) -> (r: Sound)
        ensures
            r == spec_update_feedback(*self, whereabouts_name@, ok, pick as int),
    {
        if !ok {
            return Sound::CommunicationFailed;
        }
        match self.find_sounds(whereabouts_name) {
            Some(sounds) => {
                if sounds.len() > 0 {
                    let idx = pick % sounds.len();
                    Sound::WhereaboutsStatusUpdatedCustom(sounds[idx].clone())
                } else {
                    Sound::WhereaboutsStatusUpdated
                }
            },
            None => Sound::WhereaboutsStatusUpdated,
        }
    }

    /// The sound the sign-on attempt's outcome earns.
    pub fn sign_on_feedback(ok: bool) -> (r: Sound)
        ensures
            r == (if ok {
                Sound::SignOnSuccessful
            } else {
                Sound::SignOnFailed
            }),
    {
        if ok {
            Sound::SignOnSuccessful
        } else {
            Sound::SignOnFailed
        }
    }

    /// The sound the sign-off attempt's outcome earns.
    pub fn sign_off_feedback(ok: bool) -> (r: Sound)
        ensures
            r == (if ok {
                Sound::SignOffSuccessful
            } else {
                Sound::SignOffFailed
            }),
    {
        if ok {
            Sound::SignOffSuccessful
        } else {
            Sound::SignOffFailed
        }
    }
}


/// One input consumed during a run: an event from the channel, or the
/// outcome of a tag lookup the surrounding loop performed.
pub enum SessionInput {
    Arrived(Event),
    LookupResolved(TagLookup),
}

/// Whether an input is a button press arriving from the channel.
pub open spec fn is_button_input(input: SessionInput) -> bool {
    match input {
        SessionInput::Arrived(event) => event is ButtonPressed,
        SessionInput::LookupResolved(_) => false,
    }
}

/// Whether a directive asks the surrounding loop for a remote call.
pub open spec fn is_api_call(d: Directive) -> bool {
    d is LookupTag || d is UpdateStatus || d is SignOff
}

/// The coordinator's state after one input.
pub open spec fn apply_input(s: SessionCoordinator, input: SessionInput) -> SessionCoordinator {
    match input {
        SessionInput::Arrived(event) => spec_step(s, event).0,
        SessionInput::LookupResolved(outcome) => spec_apply_lookup(s, outcome).0,
    }
}

/// The coordinator's state after a whole input sequence.
pub open spec fn run_state(s: SessionCoordinator, inputs: Seq<SessionInput>) -> SessionCoordinator
    decreases inputs.len(),
{
    if inputs.len() == 0 {
        s
    } else {
        run_state(apply_input(s, inputs[0]), inputs.drop_first())
    }
}

/// How many sign-off attempts a run asks for.
pub open spec fn sign_off_count(s: SessionCoordinator, inputs: Seq<SessionInput>) -> nat
    decreases inputs.len(),
{
    if inputs.len() == 0 {
        0
    } else {
        (match inputs[0] {
            SessionInput::Arrived(event) => if spec_step(s, event).1 is SignOff {
                1nat
            } else {
                0nat
            },
            SessionInput::LookupResolved(_) => 0nat,
        }) + sign_off_count(apply_input(s, inputs[0]), inputs.drop_first())
    }
}

/// How many remote calls a run asks for.
pub open spec fn api_call_count(s: SessionCoordinator, inputs: Seq<SessionInput>) -> nat
    decreases inputs.len(),
{
    if inputs.len() == 0 {
        0
    } else {
        (match inputs[0] {
            SessionInput::Arrived(event) => if is_api_call(spec_step(s, event).1) {
                1nat
            } else {
                0nat
            },
            SessionInput::LookupResolved(_) => 0nat,
        }) + api_call_count(apply_input(s, inputs[0]), inputs.drop_first())
    }
}

/// A shutdown request triggers exactly one sign-off attempt, whatever the
/// session state: over any input sequence, a coordinator that has not
/// begun shutdown asks for at most one sign-off, asks for exactly one if a
/// shutdown request arrives, and a coordinator that has begun shutdown
/// never asks for another, so a second shutdown request cannot cause a
/// second sign-off.
pub proof fn lemma_shutdown_single_sign_off(s: SessionCoordinator, inputs: Seq<SessionInput>)
    ensures
        s.done ==> sign_off_count(s, inputs) == 0 && run_state(s, inputs).done,
        sign_off_count(s, inputs) <= 1,
        !s.done && (exists|i: int|
            0 <= i < inputs.len() && inputs[i] == SessionInput::Arrived(
                Event::ShutdownRequested,
            )) ==> sign_off_count(s, inputs) == 1 && run_state(s, inputs).done,
    decreases inputs.len(),
{
    if inputs.len() > 0 {
        let s1 = apply_input(s, inputs[0]);
        lemma_shutdown_single_sign_off(s1, inputs.drop_first());
        assert(s1.done == (s.done || inputs[0] == SessionInput::Arrived(
            Event::ShutdownRequested,
        )));
        if !s.done && (exists|i: int|
            0 <= i < inputs.len() && inputs[i] == SessionInput::Arrived(Event::ShutdownRequested))
            && inputs[0] != SessionInput::Arrived(Event::ShutdownRequested) {
            let i = choose|i: int|
                0 <= i < inputs.len() && inputs[i] == SessionInput::Arrived(
                    Event::ShutdownRequested,
                );
            assert(inputs.drop_first()[i - 1] == inputs[i]);
        }
    }
}

/// In single-user mode a tag read never changes the configured user and
/// never asks for a lookup call: the event only resets the session to the
/// configured fixed user, and no directive asks for any remote call.
pub proof fn lemma_single_user_tag_read_is_inert(s: SessionCoordinator, tag: Tag)
    requires
        s.user_mode is SingleUser,
    ensures
        !is_api_call(spec_step(s, Event::TagRead { tag }).1),
        spec_step(s, Event::TagRead { tag }).0.user_mode == s.user_mode,
        spec_step(s, Event::TagRead { tag }).0.current_user == if s.done {
            s.current_user
        } else {
            s.spec_default_user()
        },
{
}

/// With nobody identified in multi-user mode, button presses alone make
/// no remote call and change nothing: the user stays unidentified, so no
/// status update can happen until a tag resolves to a user.
pub proof fn lemma_buttons_alone_do_nothing(s: SessionCoordinator, inputs: Seq<SessionInput>)
    requires
        s.user_mode is MultiUser,
        s.current_user is Nobody,
        forall|i: int| 0 <= i < inputs.len() ==> is_button_input(#[trigger] inputs[i]),
    ensures
        api_call_count(s, inputs) == 0,
        run_state(s, inputs) == s,
    decreases inputs.len(),
{
    if inputs.len() > 0 {
        assert(is_button_input(inputs[0]));
        let s1 = apply_input(s, inputs[0]);
        assert(s1 == s);
        assert(forall|i: int|
            0 <= i < inputs.drop_first().len() ==> is_button_input(
                #[trigger] inputs.drop_first()[i],
            ));
        lemma_buttons_alone_do_nothing(s1, inputs.drop_first());
    }
}

} // verus!
