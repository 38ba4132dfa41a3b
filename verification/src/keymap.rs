//! The folders that the keys are bound to.

use std::collections::BTreeMap;
use vstd::prelude::*;

verus! {

/// The code point of a key.
pub open spec fn code(key: char) -> u32 {
    key as u32
}

/// Two keys with one code point are one key.
proof fn lemma_code_injective(a: char, b: char)
    ensures
        code(a) == code(b) <==> a == b,
{
}

/// The key bindings of a session: for each bound key the folder that it sends
/// an image to. They are kept by the key's code point, so that they are listed
/// in the order of the keys.
pub struct KeyMap {
    map: BTreeMap<u32, (char, String)>,
}

impl View for KeyMap {
    type V = Map<char, Seq<char>>;

    closed spec fn view(&self) -> Map<char, Seq<char>> {
        Map::new(
            |key: char| self.map@.contains_key(code(key)),
            |key: char| self.map@[code(key)].1@,
        )
    }
}

impl KeyMap {
    /// What holds of every value of the type.
    #[verifier::type_invariant]
    spec fn inv(&self) -> bool {
        forall|code: u32| #[trigger]
            self.map@.contains_key(code) ==> self::code(self.map@[code].0) == code
    }

    /// No key is bound.
    pub fn new() -> (keys: KeyMap)
        ensures
            keys@ == Map::<char, Seq<char>>::empty(),
    {
        KeyMap { map: BTreeMap::new() }
    }

    /// Binds `key` to `folder`. An earlier binding of the key is replaced.
    pub fn insert(&mut self, key: char, folder: String)
        ensures
            final(self)@ == old(self)@.insert(key, folder@),
    {
        proof {
            use_type_invariant(&*self);
        }
        let mut map = BTreeMap::new();
        std::mem::swap(&mut map, &mut self.map);
        map.insert(key as u32, (key, folder));
        self.map = map;
        assert forall|other: char| #[trigger]
            self@.contains_key(other) == old(self)@.insert(key, folder@).contains_key(other) by {
            lemma_code_injective(other, key);
        }
        assert forall|other: char| self@.contains_key(other) implies #[trigger] self@[other]
            == old(self)@.insert(key, folder@)[other] by {
            lemma_code_injective(other, key);
        }
    }

    /// The folder that `key` is bound to.
    pub fn get(&self, key: char) -> (folder: Option<&String>)
        ensures
            match folder {
                Some(path) => self@.contains_key(key) && self@[key] == path@,
                None => !self@.contains_key(key),
            },
    {
        let code = key as u32;
        match self.map.get(&code) {
            Some(bound) => Some(&bound.1),
            None => None,
        }
    }

    /// The bindings by code point, each with its key and its folder.
    pub fn as_map(&self) -> (map: &BTreeMap<u32, (char, String)>)
        ensures
            forall|code: u32| #[trigger]
                map@.contains_key(code) ==> {
                    &&& self::code(map@[code].0) == code
                    &&& self@.contains_key(map@[code].0)
                    &&& self@[map@[code].0] == map@[code].1@
                },
            forall|key: char| #[trigger] self@.contains_key(key) ==> map@.contains_key(code(key)),
    {
        proof {
            use_type_invariant(self);
        }
        &self.map
    }
}

} // verus!
