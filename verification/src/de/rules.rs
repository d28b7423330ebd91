use vstd::prelude::*;
use std::collections::HashMap;

verus! {

broadcast use vstd::std_specs::hash::group_hash_axioms;

/// What typing a rule's trigger key does to the text before it.
#[derive(Clone, Copy, Debug, PartialEq, Eq, Structural)]
pub enum Action {
    /// `ae`, `oe`, `ue` (in any letter case) become `ä`, `ö`, `ü`.
    ModifyToUmlaut,
    /// `ss` (in any letter case) becomes `ß`.
    ModifyToEszett,
}

/// The table of trigger keys: a lower-case key maps to the action it starts.
///
/// The table is keyed by the character's code point, so that the lookup is
/// a plain integer lookup.
pub struct Definition {
    table: HashMap<u32, Action>,
}

impl View for Definition {
    type V = Map<char, Action>;

    closed spec fn view(&self) -> Map<char, Action> {
        Map::new(
            |c: char| self.table@.contains_key(c as u32),
            |c: char| self.table@[c as u32],
        )
    }
}

impl Definition {
    /// An empty table.
    pub fn new() -> (d: Self)
        ensures
            d@ == Map::<char, Action>::empty(),
    {
        let d = Definition { table: HashMap::new() };
        assert(d@ =~= Map::<char, Action>::empty());
        d
    }

    /// Binds `key` to `action`, replacing any earlier binding of `key`.
    pub fn insert(&mut self, key: char, action: Action)
        ensures
            final(self)@ == old(self)@.insert(key, action),
    {
        let code: u32 = key as u32;
        self.table.insert(code, action);
        assert(self.table@ == old(self).table@.insert(code, action));
        assert forall|c: char|
            #[trigger] self@.contains_key(c) == old(self)@.insert(key, action).contains_key(c)
                && (self@.contains_key(c) ==> self@[c] == old(self)@.insert(key, action)[c]) by {
            vstd::utf8::char_u32_cast(c, c as u32);
            vstd::utf8::char_u32_cast(key, code);
        }
        assert(self@ =~= old(self)@.insert(key, action));
    }

    /// The action bound to `key`, if any.
    pub fn get(&self, key: char) -> (r: Option<&Action>)
        ensures
            match r {
                Some(a) => self@.contains_key(key) && self@[key] == *a,
                None => !self@.contains_key(key),
            },
    {
        let code: u32 = key as u32;
        self.table.get(&code)
    }
}

/// The spec of the default table: `e`/`E` start an umlaut, `s`/`S` an eszett.
pub open spec fn default_rules() -> Map<char, Action> {
    map![
        'e' => Action::ModifyToUmlaut,
        'E' => Action::ModifyToUmlaut,
        's' => Action::ModifyToEszett,
        'S' => Action::ModifyToEszett,
    ]
}

/// The default table of trigger keys.
pub fn get_default_rules() -> (m: Definition)
    ensures
        m@ == default_rules(),
{
    let mut m = Definition::new();
    m.insert('e', Action::ModifyToUmlaut);
    m.insert('E', Action::ModifyToUmlaut);
    m.insert('s', Action::ModifyToEszett);
    m.insert('S', Action::ModifyToEszett);
    m
}

} // verus!
