//! The key-code translator: a bijective mapping between human-readable key
//! names and raw device key codes, built once from a fixed built-in table
//! covering the mouse, joystick, gamepad, directional-pad and
//! "trigger-happy" code families of the Linux input subsystem.
//!
//! The mapping itself is held in a `bimap::BiHashMap`; the contracts below
//! describe it through the spec-level map of its pairs.

use vstd::prelude::*;
use vstd::assert_seqs_equal;

verus! {

#[verifier::external_type_specification]
#[verifier::external_body]
#[verifier::reject_recursive_types(L)]
#[verifier::reject_recursive_types(R)]
#[verifier::reject_recursive_types(LS)]
#[verifier::reject_recursive_types(RS)]
pub struct ExBiHashMap<L, R, LS, RS>(bimap::BiHashMap<L, R, LS, RS>);

/// The pairs a name-to-code bimap holds, as a map from key name to key code.
pub uninterp spec fn bimap_pairs(m: bimap::BiMap<String, u16>) -> Map<Seq<char>, u16>;

/// Relies on bimap::BiHashMap::new: the new bimap holds no pairs.
#[verifier::external_body]
fn bimap_new() -> (r: bimap::BiMap<String, u16>)
    ensures
        forall|n: Seq<char>| !(#[trigger] bimap_pairs(r).dom().contains(n)),
{
    bimap::BiMap::new()
}

/// Relies on bimap::BiHashMap::insert: inserting a pair removes any pair
/// sharing its left value and any pair sharing its right value, then binds
/// the left value to the right value.
#[verifier::external_body]
fn bimap_insert(m: &mut bimap::BiMap<String, u16>, name: &str, code: u16)
    ensures
        bimap_pairs(*final(m)) == insert_pair(bimap_pairs(*old(m)), name@, code),
{
    m.insert(name.to_owned(), code);
}

/// Relies on bimap::BiHashMap::get_by_left: returns the right value paired
/// with the given left value, if the pair exists.
#[verifier::external_body]
fn bimap_get_by_left(m: &bimap::BiMap<String, u16>, name: &str) -> (r: Option<u16>)
    ensures
        r == (if bimap_pairs(*m).dom().contains(name@) {
            Some(bimap_pairs(*m)[name@])
        } else {
            None::<u16>
        }),
{
    m.get_by_left(name).copied()
}

/// Relies on bimap::BiHashMap::get_by_right: returns the left value paired
/// with the given right value, if the pair exists.
#[verifier::external_body]
fn bimap_get_by_right(m: &bimap::BiMap<String, u16>, code: u16) -> (r: Option<String>)
    ensures
        match r {
            Some(name) => bimap_pairs(*m).dom().contains(name@) && bimap_pairs(*m)[name@]
                == code,
            None => forall|n: Seq<char>| #[trigger]
                bimap_pairs(*m).dom().contains(n) ==> bimap_pairs(*m)[n] != code,
        },
{
    m.get_by_right(&code).cloned()
}

/// The effect of inserting one pair with overwrite-both-sides semantics:
/// any pair sharing the new code goes away, then the name is bound to the code.
pub open spec fn insert_pair(m: Map<Seq<char>, u16>, name: Seq<char>, code: u16) -> Map<
    Seq<char>,
    u16,
> {
    m.remove_keys(Set::new(|n: Seq<char>| m.dom().contains(n) && m[n] == code)).insert(name, code)
}

/// The map that inserting a sequence of (name, code) entries in order builds.
pub open spec fn table_of(entries: Seq<(Seq<char>, u16)>) -> Map<Seq<char>, u16>
    decreases entries.len(),
{
    if entries.len() == 0 {
        Map::empty()
    } else {
        insert_pair(table_of(entries.drop_last()), entries.last().0, entries.last().1)
    }
}

/// No two names are bound to the same code.
pub open spec fn injective(m: Map<Seq<char>, u16>) -> bool {
    forall|n1: Seq<char>, n2: Seq<char>|
        m.dom().contains(n1) && m.dom().contains(n2) && #[trigger] m[n1] == #[trigger] m[n2]
            ==> n1 == n2
}

/// Inserting a pair with overwrite-both-sides semantics keeps the map
/// injective.
pub proof fn lemma_insert_pair_injective(m: Map<Seq<char>, u16>, name: Seq<char>, code: u16)
    requires
        injective(m),
    ensures
        injective(insert_pair(m, name, code)),
{
    let m2 = insert_pair(m, name, code);
    assert forall|n1: Seq<char>, n2: Seq<char>|
        m2.dom().contains(n1) && m2.dom().contains(n2) && #[trigger] m2[n1] == #[trigger] m2[n2]
        implies n1 == n2 by {
        if n1 != name && n2 != name {
            assert(m2[n1] == m[n1] && m2[n2] == m[n2]);
        } else if n1 == name && n2 != name {
            assert(m2[n2] != code);
        } else if n1 != name && n2 == name {
            assert(m2[n1] != code);
        }
    }
}

/// Building a table from any entry sequence yields an injective map.
pub proof fn lemma_table_of_injective(entries: Seq<(Seq<char>, u16)>)
    ensures
        injective(table_of(entries)),
    decreases entries.len(),
{
    if entries.len() == 0 {
        assert(injective(Map::<Seq<char>, u16>::empty()));
    } else {
        lemma_table_of_injective(entries.drop_last());
        lemma_insert_pair_injective(
            table_of(entries.drop_last()),
            entries.last().0,
            entries.last().1,
        );
    }
}

/// The view of one raw table entry.
pub open spec fn entry_view(p: (&str, u16)) -> (Seq<char>, u16) {
    (p.0@, p.1)
}

/// Static bijective mapping between logical key names and device key codes.
pub struct KeyCodeNameMapping {
    names_to_codes: bimap::BiMap<String, u16>,
}

impl KeyCodeNameMapping {
    /// The pairs this mapping holds, as a map from key name to key code.
    pub closed spec fn pairs(self) -> Map<Seq<char>, u16> {
        bimap_pairs(self.names_to_codes)
    }

    /// Well-formedness: the pairs form an injective map, so the mapping is
    /// a bijection between its names and its codes.
    pub open spec fn wf(self) -> bool {
        injective(self.pairs())
    }

    /// What looking a name up yields.
    pub open spec fn spec_code_for_name(self, name: Seq<char>) -> Option<u16> {
        if self.pairs().dom().contains(name) {
            Some(self.pairs()[name])
        } else {
            None
        }
    }

    /// Whether some name is bound to the given code.
    pub open spec fn has_code(self, code: u16) -> bool {
        exists|n: Seq<char>| #[trigger] self.pairs().dom().contains(n) && self.pairs()[n] == code
    }

    /// Builds a mapping by inserting the given entries in order; a later
    /// entry overwrites an earlier one that shares its name or its code.
    pub fn from_entries(entries: &Vec<(&'static str, u16)>) -> (r: Self)
        ensures
            r.pairs() == table_of(entries@.map_values(|p: (&'static str, u16)| entry_view(p))),
            r.wf(),
    {
        let ghost all = entries@.map_values(|p: (&'static str, u16)| entry_view(p));
        let mut m = bimap_new();
        proof {
            assert(bimap_pairs(m) =~= table_of(all.take(0)));
        }
        let mut i: usize = 0;
        while i < entries.len()
            invariant
                0 <= i <= entries.len(),
                all == entries@.map_values(|p: (&'static str, u16)| entry_view(p)),
                bimap_pairs(m) == table_of(all.take(i as int)),
            decreases entries.len() - i,
        {
            let (name, code) = entries[i];
            bimap_insert(&mut m, name, code);
            proof {
                assert(all.take(i + 1).drop_last() =~= all.take(i as int));
                assert(all.take(i + 1).last() == entry_view(entries@[i as int]));
            }
            i = i + 1;
        }
        proof {
            assert(all.take(entries@.len() as int) =~= all);
            lemma_table_of_injective(all);
        }
        KeyCodeNameMapping { names_to_codes: m }
    }

    /// Builds the mapping from the built-in table.
    pub fn new() -> (r: Self)
        ensures
            r.pairs() == builtin_table(),
            r.wf(),
    {
        let entries = builtin_entries_vec();
        Self::from_entries(&entries)
    }

    /// Looks up the device key code configured for a logical key name.
    pub fn find_code_for_name(&self, name: &str) -> (r: Option<u16>)
        ensures
            r == self.spec_code_for_name(name@),
    {
        bimap_get_by_left(&self.names_to_codes, name)
    }

    /// Looks up the logical key name bound to a device key code.
    pub fn find_name_for_code(&self, code: u16) -> (r: Option<String>)
        ensures
            match r {
                Some(name) => self.pairs().dom().contains(name@) && self.pairs()[name@] == code,
                None => !self.has_code(code),
            },
    {
        bimap_get_by_right(&self.names_to_codes, code)
    }
}

/// The mapping is a true bijection: every pair it holds is found again by a
/// lookup in either direction, and a name or code outside the table is
/// found by neither.
pub proof fn lemma_mapping_bijective(m: KeyCodeNameMapping)
    requires
        m.wf(),
    ensures
        forall|n: Seq<char>, c: u16| #[trigger]
            m.pairs().contains_pair(n, c) ==> m.spec_code_for_name(n) == Some(c),
        forall|n: Seq<char>, c: u16| #[trigger]
            m.pairs().contains_pair(n, c) ==> m.has_code(c),
        forall|n: Seq<char>, c1: u16, c2: u16|
            m.pairs().contains_pair(n, c1) && m.spec_code_for_name(n) == Some(c2) ==> c1 == c2,
        forall|n1: Seq<char>, n2: Seq<char>, c: u16|
            m.pairs().contains_pair(n1, c) && m.pairs().contains_pair(n2, c) ==> n1 == n2,
        forall|n: Seq<char>|
            !m.pairs().dom().contains(n) ==> m.spec_code_for_name(n) is None,
{
    assert forall|n1: Seq<char>, n2: Seq<char>, c: u16|
        m.pairs().contains_pair(n1, c) && m.pairs().contains_pair(n2, c) implies n1 == n2 by {
        assert(m.pairs()[n1] == m.pairs()[n2]);
    }
}

/// One entry of the built-in table, by position: the mouse, joystick,
/// gamepad, directional-pad and "trigger-happy" code families of the Linux
/// input subsystem, in that order.
pub open spec fn builtin_entry(i: int) -> (Seq<char>, u16) {
    if i == 0 {
        ("left"@, 0x110)
    } else if i == 1 {
        ("right"@, 0x111)
    } else if i == 2 {
        ("middle"@, 0x112)
    } else if i == 3 {
        ("side"@, 0x113)
    } else if i == 4 {
        ("extra"@, 0x114)
    } else if i == 5 {
        ("forward"@, 0x115)
    } else if i == 6 {
        ("back"@, 0x116)
    } else if i == 7 {
        ("task"@, 0x117)
    } else if i == 8 {
        ("trigger"@, 0x120)
    } else if i == 9 {
        ("thumb"@, 0x121)
    } else if i == 10 {
        ("thumb2"@, 0x122)
    } else if i == 11 {
        ("top"@, 0x123)
    } else if i == 12 {
        ("top2"@, 0x124)
    } else if i == 13 {
        ("pinkie"@, 0x125)
    } else if i == 14 {
        ("base"@, 0x126)
    } else if i == 15 {
        ("base2"@, 0x127)
    } else if i == 16 {
        ("base3"@, 0x128)
    } else if i == 17 {
        ("base4"@, 0x129)
    } else if i == 18 {
        ("base5"@, 0x12a)
    } else if i == 19 {
        ("base6"@, 0x12b)
    } else if i == 20 {
        ("dead"@, 0x12f)
    } else if i == 21 {
        ("a"@, 0x130)
    } else if i == 22 {
        ("b"@, 0x131)
    } else if i == 23 {
        ("c"@, 0x132)
    } else if i == 24 {
        ("x"@, 0x133)
    } else if i == 25 {
        ("y"@, 0x134)
    } else if i == 26 {
        ("z"@, 0x135)
    } else if i == 27 {
        ("tl"@, 0x136)
    } else if i == 28 {
        ("tr"@, 0x137)
    } else if i == 29 {
        ("tl2"@, 0x138)
    } else if i == 30 {
        ("tr2"@, 0x139)
    } else if i == 31 {
        ("select"@, 0x13a)
    } else if i == 32 {
        ("start"@, 0x13b)
    } else if i == 33 {
        ("mode"@, 0x13c)
    } else if i == 34 {
        ("thumbl"@, 0x13d)
    } else if i == 35 {
        ("thumbr"@, 0x13e)
    } else if i == 36 {
        ("dpad_up"@, 0x220)
    } else if i == 37 {
        ("dpad_down"@, 0x221)
    } else if i == 38 {
        ("dpad_left"@, 0x222)
    } else if i == 39 {
        ("dpad_right"@, 0x223)
    } else if i == 40 {
        ("trigger_happy1"@, 0x2c0)
    } else if i == 41 {
        ("trigger_happy2"@, 0x2c1)
    } else if i == 42 {
        ("trigger_happy3"@, 0x2c2)
    } else if i == 43 {
        ("trigger_happy4"@, 0x2c3)
    } else if i == 44 {
        ("trigger_happy5"@, 0x2c4)
    } else if i == 45 {
        ("trigger_happy6"@, 0x2c5)
    } else if i == 46 {
        ("trigger_happy7"@, 0x2c6)
    } else if i == 47 {
        ("trigger_happy8"@, 0x2c7)
    } else {
        (""@, 0)
    }
}

/// The built-in table as an entry sequence.
pub open spec fn builtin_entries() -> Seq<(Seq<char>, u16)> {
    Seq::new(48, |i: int| builtin_entry(i))
}

/// The name-to-code map that the built-in table builds.
pub open spec fn builtin_table() -> Map<Seq<char>, u16> {
    table_of(builtin_entries())
}

/// The built-in table as a vector of raw entries.
pub fn builtin_entries_vec() -> (v: Vec<(&'static str, u16)>)
    ensures
        v@.map_values(|p: (&'static str, u16) | entry_view(p)) == builtin_entries(),
{
    let mut v: Vec<(&'static str, u16)> = Vec::new();
        v.push(("left", 0x110));
        v.push(("right", 0x111));
        v.push(("middle", 0x112));
        v.push(("side", 0x113));
        v.push(("extra", 0x114));
        v.push(("forward", 0x115));
        v.push(("back", 0x116));
        v.push(("task", 0x117));
        v.push(("trigger", 0x120));
        v.push(("thumb", 0x121));
        v.push(("thumb2", 0x122));
        v.push(("top", 0x123));
        v.push(("top2", 0x124));
        v.push(("pinkie", 0x125));
        v.push(("base", 0x126));
        v.push(("base2", 0x127));
        v.push(("base3", 0x128));
        v.push(("base4", 0x129));
        v.push(("base5", 0x12a));
        v.push(("base6", 0x12b));
        v.push(("dead", 0x12f));
        v.push(("a", 0x130));
        v.push(("b", 0x131));
        v.push(("c", 0x132));
        v.push(("x", 0x133));
        v.push(("y", 0x134));
        v.push(("z", 0x135));
        v.push(("tl", 0x136));
        v.push(("tr", 0x137));
        v.push(("tl2", 0x138));
        v.push(("tr2", 0x139));
        v.push(("select", 0x13a));
        v.push(("start", 0x13b));
        v.push(("mode", 0x13c));
        v.push(("thumbl", 0x13d));
        v.push(("thumbr", 0x13e));
        v.push(("dpad_up", 0x220));
        v.push(("dpad_down", 0x221));
        v.push(("dpad_left", 0x222));
        v.push(("dpad_right", 0x223));
        v.push(("trigger_happy1", 0x2c0));
        v.push(("trigger_happy2", 0x2c1));
        v.push(("trigger_happy3", 0x2c2));
        v.push(("trigger_happy4", 0x2c3));
        v.push(("trigger_happy5", 0x2c4));
        v.push(("trigger_happy6", 0x2c5));
        v.push(("trigger_happy7", 0x2c6));
        v.push(("trigger_happy8", 0x2c7));
    proof {
        assert_seqs_equal!(
            v@.map_values(|p: (&'static str, u16)| entry_view(p)) == builtin_entries()
        );
    }
    v
}

} // verus!
