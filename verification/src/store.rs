//! What a shard keeps: the append log, and the latest value of every key.
//!
//! The log is the truth. Version `n` is its entry `n - 1`, so the highest
//! version is its length. The map is the log replayed: the value under a key
//! is that of the last entry with the key.

use crate::messages::responses::get_version_response::{
    GetVersionResponse, GetVersionResponseError, GetVersionResponseView,
};
use crate::utils::text::bytes_of;
use vstd::hash_map::StringHashMap;
use vstd::prelude::*;
use vstd::utf8::encode_utf8;

verus! {

/// A key and its value, as text.
pub type Entry = (Seq<char>, Seq<char>);

/// The map that a log leaves behind: each key with the value of its last
/// entry.
pub open spec fn replay(log: Seq<Entry>) -> Map<Seq<char>, Seq<char>>
    decreases log.len(),
{
    if log.len() == 0 {
        Map::empty()
    } else {
        replay(log.drop_last()).insert(log.last().0, log.last().1)
    }
}

/// The answer to a request for one version of a log: the entry, for a
/// version from 1 to the log's length, and an error with an empty key and
/// value for any other.
pub open spec fn spec_get_version(log: Seq<Entry>, version: u64) -> GetVersionResponseView {
    if 1 <= version <= log.len() {
        GetVersionResponseView {
            version,
            key: encode_utf8(log[version - 1].0),
            value: encode_utf8(log[version - 1].1),
            error: GetVersionResponseError::NoError.code(),
        }
    } else {
        GetVersionResponseView {
            version,
            key: Seq::empty(),
            value: Seq::empty(),
            error: GetVersionResponseError::KeyNotFound.code(),
        }
    }
}

/// A key is in the replayed map exactly if an entry has it, and its value is
/// that of the last such entry.
pub proof fn lemma_replay_is_latest(log: Seq<Entry>, key: Seq<char>)
    ensures
        replay(log).contains_key(key) <==> exists|i: int|
            0 <= i < log.len() && (#[trigger] log[i]).0 == key,
        forall|i: int|
            0 <= i < log.len() && (#[trigger] log[i]).0 == key && (forall|j: int|
                i < j < log.len() ==> (#[trigger] log[j]).0 != key) ==> replay(log)[key]
                == log[i].1,
    decreases log.len(),
{
    if log.len() > 0 {
        let front = log.drop_last();
        lemma_replay_is_latest(front, key);
        if log.last().0 == key {
            assert(log[log.len() - 1].0 == key);
        } else {
            if replay(front).contains_key(key) {
                let i = choose|i: int| 0 <= i < front.len() && (#[trigger] front[i]).0 == key;
                assert(log[i].0 == key);
            }
            if exists|i: int| 0 <= i < log.len() && (#[trigger] log[i]).0 == key {
                let i = choose|i: int| 0 <= i < log.len() && (#[trigger] log[i]).0 == key;
                assert(front[i].0 == key);
            }
        }
        assert forall|i: int|
            0 <= i < log.len() && (#[trigger] log[i]).0 == key && (forall|j: int|
                i < j < log.len() ==> (#[trigger] log[j]).0 != key) implies replay(log)[key]
            == log[i].1 by {
            if i < front.len() {
                assert(front[i] == log[i]);
                assert(log[log.len() - 1].0 != key);
                assert forall|j: int| i < j < front.len() implies (#[trigger] front[j]).0
                    != key by {
                    assert(log[j].0 != key);
                }
            }
        }
    }
}

/// The log and the map of a shard.
pub struct Store {
    data: StringHashMap<String>,
    history: Vec<(String, String)>,
}

impl Store {
    /// The entries, oldest first.
    pub closed spec fn log(&self) -> Seq<Entry> {
        Seq::new(self.history@.len(), |i: int| (self.history@[i].0@, self.history@[i].1@))
    }

    /// The map is the log replayed.
    pub closed spec fn wf(&self) -> bool {
        forall|k: Seq<char>|
            {
                &&& self.data@.contains_key(k) == #[trigger] replay(self.log()).contains_key(k)
                &&& self.data@.contains_key(k) ==> self.data@[k]@ == replay(self.log())[k]
            }
    }

    /// A store with nothing in it.
    pub fn new() -> (store: Self)
        ensures
            store.wf(),
            store.log() == Seq::<Entry>::empty(),
    {
        let store = Store { data: StringHashMap::new(), history: Vec::new() };
        assert(store.log() =~= Seq::<Entry>::empty());
        store
    }

    /// How many entries the log has.
    pub fn len(&self) -> (n: usize)
        ensures
            n == self.log().len(),
    {
        self.history.len()
    }

    /// Appends an entry and takes it into the map.
    pub fn append(&mut self, key: String, value: String)
        requires
            old(self).wf(),
        ensures
            final(self).wf(),
            final(self).log() == old(self).log().push((key@, value@)),
    {
        let ghost before = self.log();
        self.data.insert(key.clone(), value.clone());
        self.history.push((key, value));
        proof {
            let after = self.log();
            assert(after =~= before.push((key@, value@)));
            assert(after.drop_last() =~= before);
            assert forall|k: Seq<char>|
                {
                    &&& self.data@.contains_key(k) == #[trigger] replay(after).contains_key(k)
                    &&& self.data@.contains_key(k) ==> self.data@[k]@ == replay(after)[k]
                } by {
                assert(old(self).data@.contains_key(k) == replay(before).contains_key(k));
            }
        }
    }

    /// The latest value under a key.
    pub fn get(&self, key: &str) -> (value: Option<&String>)
        requires
            self.wf(),
        ensures
            match value {
                Some(v) => replay(self.log()).contains_key(key@) && v@ == replay(self.log())[key@],
                None => !replay(self.log()).contains_key(key@),
            },
    {
        let value = self.data.get(key);
        assert(self.data@.contains_key(key@) == replay(self.log()).contains_key(key@));
        value
    }

    /// Answers a request for one version of the log.
    pub fn get_version(&self, version: u64) -> (res: GetVersionResponse)
        ensures
            res@ == spec_get_version(self.log(), version),
    {
        let n = self.history.len();
        if version >= 1 && version - 1 < n as u64 {
            let entry = &self.history[(version - 1) as usize];
            GetVersionResponse {
                version,
                key: bytes_of(&entry.0),
                value: bytes_of(&entry.1),
                error: GetVersionResponseError::NoError.as_u8(),
            }
        } else {
            GetVersionResponse {
                version,
                key: Vec::new(),
                value: Vec::new(),
                error: GetVersionResponseError::KeyNotFound.as_u8(),
            }
        }
    }
}

} // verus!
