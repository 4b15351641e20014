//! The button listener's decoding logic: a mapping from raw device key
//! codes to logical buttons, built once from the configured button-to-key
//! assignments and the key-code translator, and the rule that turns one raw
//! key event into at most one `ButtonPressed` event.

use vstd::prelude::*;
use crate::keycodenames::KeyCodeNameMapping;
use crate::model::{Button, Event, RawKeyEvent, EV_KEY, KEY_RELEASED, spec_is_key_released};

verus! {

/// An error building the key-code-to-button mapping.
#[derive(Debug, Clone, PartialEq, Eq)]
pub enum MappingError {
    /// A configured key name is not in the key-code translator's table.
    UnknownKeyName(String),
}

/// The map that a sequence of (code, button) entries builds; a later entry
/// overwrites an earlier one with the same code.
pub open spec fn btn_map(entries: Seq<(u16, Button)>) -> Map<u16, Button>
    decreases entries.len(),
{
    if entries.len() == 0 {
        Map::empty()
    } else {
        btn_map(entries.drop_last()).insert(entries.last().0, entries.last().1)
    }
}

/// Whether every assigned key name is in the translator's table.
pub open spec fn all_names_known(
    mapping: KeyCodeNameMapping,
    assignments: Seq<(Button, String)>,
) -> bool {
    forall|i: int|
        0 <= i < assignments.len() ==> mapping.pairs().dom().contains(
            #[trigger] assignments[i].1@,
        )
}

/// The (code, button) entries the assignments translate to.
pub open spec fn assigned_entries(
    mapping: KeyCodeNameMapping,
    assignments: Seq<(Button, String)>,
) -> Seq<(u16, Button)> {
    assignments.map_values(|p: (Button, String)| (mapping.pairs()[p.1@], p.0))
}

/// Mapping from raw device key codes to logical buttons.
pub struct KeyCodeToButtonMapping {
    entries: Vec<(u16, Button)>,
}

impl KeyCodeToButtonMapping {
    /// The code-to-button map this mapping holds.
    pub closed spec fn map(self) -> Map<u16, Button> {
        btn_map(self.entries@)
    }

    /// Translates each configured button-to-key-name assignment into a
    /// key-code-to-button entry; a key name the translator does not know
    /// is an error.
    pub fn new(
        key_code_name_mapping: &KeyCodeNameMapping,
        buttons_to_key_code_names: &Vec<(Button, String)>,
    ) -> (r: Result<Self, MappingError>)
        ensures
            r is Ok <==> all_names_known(*key_code_name_mapping, buttons_to_key_code_names@),
            match r {
                Ok(m) => m.map() == btn_map(
                    assigned_entries(*key_code_name_mapping, buttons_to_key_code_names@),
                ),
                Err(e) => ({
                    &&& e matches MappingError::UnknownKeyName(name)
                    &&& exists|i: int|
                        {
                            &&& 0 <= i < buttons_to_key_code_names@.len()
                            &&& !key_code_name_mapping.pairs().dom().contains(
                                #[trigger] buttons_to_key_code_names@[i].1@,
                            )
                            &&& name@ == buttons_to_key_code_names@[i].1@
                        }
                }),
            },
    {
        let ghost asg = buttons_to_key_code_names@;
        let mut entries: Vec<(u16, Button)> = Vec::new();
        let mut i: usize = 0;
        while i < buttons_to_key_code_names.len()
            invariant
                0 <= i <= asg.len(),
                asg == buttons_to_key_code_names@,
                forall|j: int|
                    0 <= j < i ==> key_code_name_mapping.pairs().dom().contains(
                        #[trigger] asg[j].1@,
                    ),
                entries@ == assigned_entries(*key_code_name_mapping, asg.take(i as int)),
            decreases asg.len() - i,
        {
            let (button, name) = &buttons_to_key_code_names[i];
            match key_code_name_mapping.find_code_for_name(name.as_str()) {
                Some(code) => {
                    entries.push((code, *button));
                    proof {
                        assert(asg.take(i + 1).drop_last() =~= asg.take(i as int));
                        assert(entries@ =~= assigned_entries(
                            *key_code_name_mapping,
                            asg.take(i + 1),
                        ));
                    }
                },
                None => {
                    return Err(MappingError::UnknownKeyName(name.clone()));
                },
            }
            i = i + 1;
        }
        proof {
            assert(asg.take(asg.len() as int) =~= asg);
        }
        Ok(KeyCodeToButtonMapping { entries })
    }

    /// Looks up the logical button configured for a device key code.
    pub fn find_button_for_key_code(&self, key_code: u16) -> (r: Option<Button>)
        ensures
            r == map_get(self.map(), key_code),
    {
        let mut i: usize = self.entries.len();
        proof {
            assert(self.entries@.take(self.entries@.len() as int) =~= self.entries@);
        }
        while i > 0
            invariant
                i <= self.entries@.len(),
                map_get(btn_map(self.entries@), key_code) == map_get(
                    btn_map(self.entries@.take(i as int)),
                    key_code,
                ),
            decreases i,
        {
            i = i - 1;
            let (code, button) = self.entries[i];
            proof {
                assert(self.entries@.take(i + 1).drop_last() =~= self.entries@.take(i as int));
            }
            if code == key_code {
                return Some(button);
            }
        }
        None
    }

    /// Decodes one raw key event: a key release whose code is configured
    /// yields the corresponding `ButtonPressed` event; anything else is
    /// silently dropped.
    pub fn decode_key_event(&self, event: RawKeyEvent) -> (r: Option<Event>)
        ensures
            r == spec_decode_key_event(self.map(), event),
    {
        if event.event_type == EV_KEY && event.value == KEY_RELEASED {
            match self.find_button_for_key_code(event.code) {
                Some(button) => Some(Event::ButtonPressed { button }),
                None => None,
            }
        } else {
            None
        }
    }
}

/// What looking a code up in a code-to-button map yields.
pub open spec fn map_get(m: Map<u16, Button>, code: u16) -> Option<Button> {
    if m.dom().contains(code) {
        Some(m[code])
    } else {
        None
    }
}

/// What decoding one raw key event through a code-to-button map yields.
pub open spec fn spec_decode_key_event(m: Map<u16, Button>, event: RawKeyEvent) -> Option<Event> {
    if spec_is_key_released(event) && m.dom().contains(event.code) {
        Some(Event::ButtonPressed { button: m[event.code] })
    } else {
        None
    }
}

/// In the mapping built from assignments with pairwise-distinct key names,
/// every assignment's code is bound to its button.
proof fn lemma_assigned_entries_pair(
    mapping: KeyCodeNameMapping,
    assignments: Seq<(Button, String)>,
    i: int,
)
    requires
        mapping.wf(),
        all_names_known(mapping, assignments),
        forall|j: int, k: int|
            0 <= j < k < assignments.len() ==> assignments[j].1@ != assignments[k].1@,
        0 <= i < assignments.len(),
    ensures
        btn_map(assigned_entries(mapping, assignments)).contains_pair(
            mapping.pairs()[assignments[i].1@],
            assignments[i].0,
        ),
    decreases assignments.len(),
{
    let s = assigned_entries(mapping, assignments);
    assert(s.last() == (mapping.pairs()[assignments.last().1@], assignments.last().0));
    if i < assignments.len() - 1 {
        let shorter = assignments.drop_last();
        assert(all_names_known(mapping, shorter)) by {
            assert(forall|j: int|
                0 <= j < shorter.len() ==> #[trigger] shorter[j] == assignments[j]);
        }
        lemma_assigned_entries_pair(mapping, shorter, i);
        assert(assigned_entries(mapping, shorter) =~= s.drop_last());
        let code_i = mapping.pairs()[assignments[i].1@];
        let code_last = mapping.pairs()[assignments.last().1@];
        assert(assignments[i].1@ != assignments.last().1@);
        assert(code_i != code_last) by {
            if code_i == code_last {
                assert(mapping.pairs().dom().contains(assignments[i].1@));
                assert(mapping.pairs().dom().contains(assignments.last().1@));
            }
        }
    }
}

/// Round trip: for every configured button-to-key-name assignment, feeding
/// the corresponding raw key-release code through the button listener's
/// decoding yields exactly the configured `ButtonPressed` event.  The
/// assignments must use pairwise-distinct key names, all known to the
/// translator.
pub proof fn lemma_button_round_trip(
    mapping: KeyCodeNameMapping,
    assignments: Seq<(Button, String)>,
    i: int,
)
    requires
        mapping.wf(),
        all_names_known(mapping, assignments),
        forall|j: int, k: int|
            0 <= j < k < assignments.len() ==> assignments[j].1@ != assignments[k].1@,
        0 <= i < assignments.len(),
    ensures
        spec_decode_key_event(
            btn_map(assigned_entries(mapping, assignments)),
            RawKeyEvent {
                event_type: EV_KEY,
                code: mapping.pairs()[assignments[i].1@],
                value: KEY_RELEASED,
            },
        ) == Some(Event::ButtonPressed { button: assignments[i].0 }),
{
    lemma_assigned_entries_pair(mapping, assignments, i);
}

} // verus!
