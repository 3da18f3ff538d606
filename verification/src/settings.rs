//! The settings mapping: raw text values by case-sensitive key.

use vstd::prelude::*;
use vstd::hash_map::StringHashMap;

verus! {

/// A mapping from setting key to raw text value.
///
/// It holds what the configuration files said, or a snapshot of the process
/// environment. Keys are case-sensitive and a later `insert` for a key
/// replaces the earlier value.
pub struct Settings {
    entries: StringHashMap<String>,
}

impl View for Settings {
    type V = Map<Seq<char>, Seq<char>>;

    closed spec fn view(&self) -> Map<Seq<char>, Seq<char>> {
        self.entries@.map_values(|v: String| v@)
    }
}

impl Settings {
    /// The empty mapping.
    pub fn new() -> (out: Settings)
        ensures
            out@ == Map::<Seq<char>, Seq<char>>::empty(),
    {
        let out = Settings { entries: StringHashMap::new() };
        proof {
            assert(out@ =~= Map::<Seq<char>, Seq<char>>::empty());
        }
        out
    }

    /// Sets `key` to `value`, replacing what the key held before.
    pub fn insert(&mut self, key: String, value: String)
        ensures
            final(self)@ == old(self)@.insert(key@, value@),
    {
        self.entries.insert(key, value);
        proof {
            assert(self@ =~= old(self)@.insert(key@, value@));
        }
    }

    /// Whether `key` has a value.
    pub fn contains_key(&self, key: &str) -> (r: bool)
        ensures
            r == self@.contains_key(key@),
    {
        self.entries.contains_key(key)
    }

    /// The value of `key`, if it has one.
    pub fn get(&self, key: &str) -> (r: Option<&String>)
        ensures
            r is Some <==> self@.contains_key(key@),
            r matches Some(v) ==> v@ == self@[key@],
    {
        self.entries.get(key)
    }
}

} // verus!
