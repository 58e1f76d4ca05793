//! The session registry: which remote session continues which conversation.

use vstd::prelude::*;
use vstd::hash_map::StringHashMap;

verus! {

/// Maps a conversation key to the id of the remote session that was last
/// stored for it. Entries are never dropped.
pub struct SessionRegistry {
    sessions: StringHashMap<String>,
}

impl View for SessionRegistry {
    type V = Map<Seq<char>, Seq<char>>;

    closed spec fn view(&self) -> Map<Seq<char>, Seq<char>> {
        self.sessions@.map_values(|id: String| id@)
    }
}

impl SessionRegistry {
    /// A registry without entries.
    pub fn new() -> (r: SessionRegistry)
        ensures
            r@ == Map::<Seq<char>, Seq<char>>::empty(),
    {
        SessionRegistry { sessions: StringHashMap::new() }
    }

    /// The session id last stored for `key`, if one was.
    pub fn get(&self, key: &str) -> (r: Option<String>)
        ensures
            match r {
                Some(id) => self@.contains_key(key@) && self@[key@] == id@,
                None => !self@.contains_key(key@),
            },
    {
        match self.sessions.get(key) {
            Some(id) => Some(id.clone()),
            None => None,
        }
    }

    /// Stores `session_id` for `key`, in place of what was stored before.
    pub fn set(&mut self, key: &str, session_id: String)
        ensures
            final(self)@ == old(self)@.insert(key@, session_id@),
    {
        self.sessions.insert(key.to_owned(), session_id);
    }
}

} // verus!
