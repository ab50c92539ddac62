//! The local cache of configuration contents, keyed by data id and group.

use vstd::prelude::*;
use crate::config_mgr::{changed_keys, key_view, parse_changed, ConfigKey};
use crate::text::{str_eq, to_owned_string};

verus! {

/// One cached configuration.
#[derive(Debug)]
pub struct CacheEntry {
    pub data_id: String,
    pub group: String,
    pub content: String,
}

pub open spec fn entry_key(e: CacheEntry) -> (Seq<char>, Seq<char>) {
    (e.data_id@, e.group@)
}

/// The contents the entries hold: a later entry for a key wins.
pub open spec fn entries_map(s: Seq<CacheEntry>) -> Map<(Seq<char>, Seq<char>), Seq<char>>
    decreases s.len(),
{
    if s.len() == 0 {
        Map::empty()
    } else {
        entries_map(s.drop_last()).insert(entry_key(s.last()), s.last().content@)
    }
}

/// The contents left once the given configurations are forgotten.
pub open spec fn removed_keys(m: Map<(Seq<char>, Seq<char>), Seq<char>>, keys: Seq<ConfigKey>) -> Map<(Seq<char>, Seq<char>), Seq<char>>
    decreases keys.len(),
{
    if keys.len() == 0 {
        m
    } else {
        removed_keys(m, keys.drop_last()).remove(key_view(keys.last()))
    }
}

/// Cached configuration contents.
pub struct ConfigCache {
    entries: Vec<CacheEntry>,
}

impl View for ConfigCache {
    type V = Map<(Seq<char>, Seq<char>), Seq<char>>;

    closed spec fn view(&self) -> Map<(Seq<char>, Seq<char>), Seq<char>> {
        entries_map(self.entries@)
    }
}

impl ConfigCache {
    /// An empty cache.
    pub fn new() -> (c: ConfigCache)
        ensures
            c@ == Map::<(Seq<char>, Seq<char>), Seq<char>>::empty(),
    {
        ConfigCache { entries: Vec::new() }
    }

    /// The cached content of a configuration, if any.
    pub fn get(&self, data_id: &str, group: &str) -> (r: Option<String>)
        ensures
            match r {
                Some(c) => self@.contains_key((data_id@, group@)) && c@ == self@[(data_id@, group@)],
                None => !self@.contains_key((data_id@, group@)),
            },
    {
        let ghost k = (data_id@, group@);
        let mut found: Option<usize> = None;
        let mut i: usize = 0;
        while i < self.entries.len()
            invariant
                i <= self.entries.len(),
                k == (data_id@, group@),
                match found {
                    Some(j) => j < i && entries_map(self.entries@.take(i as int)).contains_key(k)
                        && entries_map(self.entries@.take(i as int))[k] == self.entries@[j as int].content@,
                    None => !entries_map(self.entries@.take(i as int)).contains_key(k),
                },
            decreases self.entries.len() - i,
        {
            let e = &self.entries[i];
            proof {
                assert(self.entries@.take(i + 1).drop_last() =~= self.entries@.take(i as int));
            }
            if str_eq(e.data_id.as_str(), data_id) && str_eq(e.group.as_str(), group) {
                found = Some(i);
            }
            i = i + 1;
        }
        proof {
            assert(self.entries@.take(self.entries.len() as int) =~= self.entries@);
        }
        match found {
            Some(j) => Some(to_owned_string(self.entries[j].content.as_str())),
            None => None,
        }
    }

    /// Forgets the content of a configuration.
    pub fn remove(&mut self, data_id: &str, group: &str)
        ensures
            final(self)@ == old(self)@.remove((data_id@, group@)),
    {
        let ghost k = (data_id@, group@);
        let mut kept: Vec<CacheEntry> = Vec::new();
        let mut i: usize = 0;
        while i < self.entries.len()
            invariant
                i <= self.entries.len(),
                k == (data_id@, group@),
                entries_map(kept@) == entries_map(self.entries@.take(i as int)).remove(k),
            decreases self.entries.len() - i,
        {
            let e = &self.entries[i];
            let ghost before = entries_map(kept@);
            proof {
                assert(self.entries@.take(i + 1).drop_last() =~= self.entries@.take(i as int));
            }
            if !(str_eq(e.data_id.as_str(), data_id) && str_eq(e.group.as_str(), group)) {
                let copy = CacheEntry {
                    data_id: to_owned_string(e.data_id.as_str()),
                    group: to_owned_string(e.group.as_str()),
                    content: to_owned_string(e.content.as_str()),
                };
                let ghost old_kept = kept@;
                let ghost ke = entry_key(copy);
                let ghost cv = copy.content@;
                kept.push(copy);
                proof {
                    assert(kept@.drop_last() =~= old_kept);
                    assert(ke != k);
                    assert(ke == entry_key(self.entries@[i as int]));
                    assert(entries_map(kept@) == before.insert(ke, cv));
                    assert(entries_map(self.entries@.take(i + 1)) == entries_map(self.entries@.take(i as int)).insert(ke, cv));
                    assert(entries_map(kept@) =~= entries_map(self.entries@.take(i + 1)).remove(k));
                }
            } else {
                proof {
                    assert(entries_map(kept@) =~= entries_map(self.entries@.take(i + 1)).remove(k));
                }
            }
            i = i + 1;
        }
        proof {
            assert(self.entries@.take(self.entries.len() as int) =~= self.entries@);
        }
        self.entries = kept;
    }

    /// Forgets the contents of all the given configurations (those a
    /// listener reported as changed).
    pub fn remove_keys(&mut self, keys: &[ConfigKey])
        ensures
            final(self)@ == removed_keys(old(self)@, keys@),
    {
        let mut i: usize = 0;
        while i < keys.len()
            invariant
                i <= keys.len(),
                self@ == removed_keys(old(self)@, keys@.take(i as int)),
            decreases keys.len() - i,
        {
            proof {
                assert(keys@.take(i + 1).drop_last() =~= keys@.take(i as int));
                assert(keys@.take(i + 1).last() == keys@[i as int]);
            }
            self.remove(keys[i].data_id.as_str(), keys[i].group.as_str());
            i = i + 1;
        }
        proof {
            assert(keys@.take(keys.len() as int) =~= keys@);
        }
    }

    /// Caches the content of a configuration, replacing any earlier content.
    pub fn insert(&mut self, data_id: &str, group: &str, content: &str)
        ensures
            final(self)@ == old(self)@.insert((data_id@, group@), content@),
    {
        self.remove(data_id, group);
        let e = CacheEntry {
            data_id: to_owned_string(data_id),
            group: to_owned_string(group),
            content: to_owned_string(content),
        };
        let ghost before = self.entries@;
        self.entries.push(e);
        proof {
            assert(self.entries@.drop_last() =~= before);
            assert(self@ =~= old(self)@.insert((data_id@, group@), content@));
        }
    }
}

/// Reading a configuration after caching it gives the cached content, and
/// caching leaves other configurations as they were.
pub proof fn lemma_cache_read_after_write(
    m: Map<(Seq<char>, Seq<char>), Seq<char>>,
    k: (Seq<char>, Seq<char>),
    v: Seq<char>,
    other: (Seq<char>, Seq<char>),
)
    requires
        other != k,
    ensures
        m.insert(k, v).contains_key(k) && m.insert(k, v)[k] == v,
        m.insert(k, v).contains_key(other) == m.contains_key(other),
        m.contains_key(other) ==> m.insert(k, v)[other] == m[other],
        !m.remove(k).contains_key(k),
{
}

/// Reads a listener answer and forgets the cached contents of the
/// configurations it reports as changed; the changed keys, in order.
pub fn apply_listener_answer(cache: &mut ConfigCache, body: &str) -> (r: Vec<ConfigKey>)
    ensures
        r@.map_values(|k: ConfigKey| key_view(k)) == changed_keys(body@),
        final(cache)@ == removed_keys(old(cache)@, r@),
{
    let changed = parse_changed(body);
    cache.remove_keys(changed.as_slice());
    changed
}

} // verus!
