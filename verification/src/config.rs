//! Application settings and the secret store.
//!
//! The settings are plain values persisted by the shell; the store keeps
//! credentials as an explicit owned value — never a process-wide static —
//! so several independent stores can live in one test process. Its
//! contents are modeled as a map from key to secret.

use vstd::prelude::*;

verus! {

/// Non-sensitive application settings, persisted by the shell in the
/// app's data directory.
#[derive(Clone, Copy, Debug)]
pub struct AppSettings {
    pub auto_start_service: bool,
    pub service_port: u16,
}

impl AppSettings {
    /// The settings used when none were saved yet: start the service
    /// automatically, on the service's default port.
    pub fn default_settings() -> (r: Self)
        ensures
            r.auto_start_service,
            r.service_port == 8000,
    {
        AppSettings { auto_start_service: true, service_port: 8000 }
    }
}

/// The contents of an entry list as a map, later entries shadowing
/// earlier ones (the store keeps its keys unique, so nothing shadows).
pub open spec fn map_of(entries: Seq<(String, String)>) -> Map<Seq<char>, Seq<char>>
    decreases entries.len(),
{
    if entries.len() == 0 {
        Map::empty()
    } else {
        map_of(entries.drop_last()).insert(entries.last().0@, entries.last().1@)
    }
}

/// No two entries share a key.
pub open spec fn keys_unique(entries: Seq<(String, String)>) -> bool {
    forall|i: int, j: int|
        0 <= i < j < entries.len() ==> entries[i].0@ != entries[j].0@
}

proof fn lemma_map_of_contains(entries: Seq<(String, String)>, k: Seq<char>)
    ensures
        map_of(entries).contains_key(k) <==> (exists|i: int|
            0 <= i < entries.len() && entries[i].0@ == k),
    decreases entries.len(),
{
    if entries.len() > 0 {
        lemma_map_of_contains(entries.drop_last(), k);
        if entries.last().0@ == k {
            assert(entries[entries.len() - 1].0@ == k);
        } else if map_of(entries).contains_key(k) {
            let i = choose|i: int| 0 <= i < entries.drop_last().len() && entries.drop_last()[i].0@
                == k;
            assert(entries[i].0@ == k);
        } else if exists|i: int| 0 <= i < entries.len() && entries[i].0@ == k {
            let i = choose|i: int| 0 <= i < entries.len() && entries[i].0@ == k;
            assert(entries.drop_last()[i].0@ == k);
        }
    }
}

proof fn lemma_map_of_get(entries: Seq<(String, String)>, i: int)
    requires
        keys_unique(entries),
        0 <= i < entries.len(),
    ensures
        map_of(entries).contains_key(entries[i].0@),
        map_of(entries)[entries[i].0@] == entries[i].1@,
    decreases entries.len(),
{
    if i < entries.len() - 1 {
        lemma_map_of_get(entries.drop_last(), i);
        assert(entries.drop_last()[i] == entries[i]);
    }
}

proof fn lemma_map_of_absent_remove(entries: Seq<(String, String)>, k: Seq<char>)
    requires
        forall|i: int| 0 <= i < entries.len() ==> entries[i].0@ != k,
    ensures
        map_of(entries).remove(k) =~= map_of(entries),
{
    lemma_map_of_contains(entries, k);
}

proof fn lemma_map_of_remove(entries: Seq<(String, String)>, i: int)
    requires
        keys_unique(entries),
        0 <= i < entries.len(),
    ensures
        map_of(entries.remove(i)) =~= map_of(entries).remove(entries[i].0@),
    decreases entries.len(),
{
    let k = entries[i].0@;
    if i == entries.len() - 1 {
        assert(entries.remove(i) =~= entries.drop_last());
        lemma_map_of_contains(entries.drop_last(), k);
        assert(map_of(entries.drop_last()).remove(k) =~= map_of(entries.drop_last()));
        assert(map_of(entries).remove(k) =~= map_of(entries.drop_last()).insert(
            k,
            entries.last().1@,
        ).remove(k));
    } else {
        let shorter = entries.drop_last();
        lemma_map_of_remove(shorter, i);
        assert(entries.remove(i).drop_last() =~= shorter.remove(i));
        assert(entries.remove(i).last() == entries.last());
        assert(shorter[i] == entries[i]);
        assert(entries.last().0@ != k);
        assert(map_of(entries.remove(i)) =~= map_of(shorter.remove(i)).insert(
            entries.last().0@,
            entries.last().1@,
        ));
        assert(map_of(shorter).remove(k).insert(entries.last().0@, entries.last().1@) =~= map_of(
            shorter,
        ).insert(entries.last().0@, entries.last().1@).remove(k));
    }
}

/// In-memory credential store: the platform-independent stand-in for a
/// system keychain, owned by whoever configures the shell.
pub struct SecretStore {
    entries: Vec<(String, String)>,
}

impl View for SecretStore {
    type V = Map<Seq<char>, Seq<char>>;

    closed spec fn view(&self) -> Map<Seq<char>, Seq<char>> {
        map_of(self.entries@)
    }
}

impl SecretStore {
    #[verifier::type_invariant]
    spec fn type_inv(self) -> bool {
        keys_unique(self.entries@)
    }

    /// An empty store.
    pub fn new() -> (r: Self)
        ensures
            r@ == Map::<Seq<char>, Seq<char>>::empty(),
    {
        SecretStore { entries: Vec::new() }
    }

    /// The position of the entry with the given key, if one exists.
    fn position_of(entries: &Vec<(String, String)>, key: &String) -> (r: Option<usize>)
        ensures
            r matches Some(i) ==> i < entries@.len() && entries@[i as int].0@ == key@,
            r is None ==> forall|j: int| 0 <= j < entries@.len() ==> entries@[j].0@ != key@,
    {
        let mut i: usize = 0;
        while i < entries.len()
            invariant
                i <= entries@.len(),
                forall|j: int| 0 <= j < i ==> entries@[j].0@ != key@,
            decreases entries@.len() - i,
        {
            if entries[i].0.eq(key) {
                return Some(i);
            }
            i = i + 1;
        }
        None
    }

    /// Stores a secret under the key, replacing any earlier value.
    pub fn set_secret(&mut self, key: &str, value: &str) -> (r: Result<(), String>)
        ensures
            r is Ok,
            final(self)@ == old(self)@.insert(key@, value@),
    {
        proof {
            use_type_invariant(&*self);
        }
        let k = key.to_owned();
        let mut entries: Vec<(String, String)> = Vec::new();
        std::mem::swap(&mut entries, &mut self.entries);
        let ghost before = entries@;
        match Self::position_of(&entries, &k) {
            Some(i) => {
                entries.remove(i);
                proof {
                    lemma_map_of_remove(before, i as int);
                    assert forall|a: int, b: int|
                        0 <= a < b < entries@.len() implies entries@[a].0@ != entries@[b].0@ by {
                        assert(entries@[a] == if a < i { before[a] } else { before[a + 1] });
                        assert(entries@[b] == if b < i { before[b] } else { before[b + 1] });
                    }
                    lemma_map_of_contains(entries@, key@);
                }
            },
            None => {
                proof {
                    lemma_map_of_absent_remove(entries@, key@);
                }
            },
        }
        let ghost cleared = entries@;
        proof {
            lemma_map_of_contains(cleared, key@);
            assert(forall|j: int| 0 <= j < cleared.len() ==> cleared[j].0@ != key@);
        }
        entries.push((k, value.to_owned()));
        proof {
            assert(entries@.drop_last() =~= cleared);
            assert(map_of(entries@) =~= map_of(cleared).insert(key@, value@));
            assert(map_of(cleared).insert(key@, value@) =~= map_of(before).insert(key@, value@));
        }
        self.entries = entries;
        Ok(())
    }

    /// Retrieves the secret stored under the key, if any. The in-memory
    /// store itself never fails.
    pub fn get_secret(&self, key: &str) -> (r: Result<Option<String>, String>)
        ensures
            r matches Ok(found) && (match found {
                Some(v) => self@.contains_key(key@) && v@ == self@[key@],
                None => !self@.contains_key(key@),
            }),
    {
        proof {
            use_type_invariant(&*self);
        }
        let k = key.to_owned();
        match Self::position_of(&self.entries, &k) {
            Some(i) => {
                proof {
                    lemma_map_of_get(self.entries@, i as int);
                }
                Ok(Some(self.entries[i].1.clone()))
            },
            None => {
                proof {
                    lemma_map_of_contains(self.entries@, key@);
                }
                Ok(None)
            },
        }
    }

    /// Removes the secret stored under the key; removing an absent key
    /// succeeds as a no-op.
    pub fn delete_secret(&mut self, key: &str) -> (r: Result<(), String>)
        ensures
            r is Ok,
            final(self)@ == old(self)@.remove(key@),
    {
        proof {
            use_type_invariant(&*self);
        }
        let k = key.to_owned();
        let mut entries: Vec<(String, String)> = Vec::new();
        std::mem::swap(&mut entries, &mut self.entries);
        let ghost before = entries@;
        match Self::position_of(&entries, &k) {
            Some(i) => {
                entries.remove(i);
                proof {
                    lemma_map_of_remove(before, i as int);
                    assert forall|a: int, b: int|
                        0 <= a < b < entries@.len() implies entries@[a].0@ != entries@[b].0@ by {
                        assert(entries@[a] == if a < i { before[a] } else { before[a + 1] });
                        assert(entries@[b] == if b < i { before[b] } else { before[b + 1] });
                    }
                }
            },
            None => {
                proof {
                    lemma_map_of_absent_remove(entries@, key@);
                }
            },
        }
        self.entries = entries;
        Ok(())
    }

    /// Whether a secret exists under the key, without revealing it.
    pub fn has_secret(&self, key: &str) -> (r: bool)
        ensures
            r == self@.contains_key(key@),
    {
        proof {
            use_type_invariant(&*self);
        }
        let k = key.to_owned();
        let found = Self::position_of(&self.entries, &k);
        proof {
            lemma_map_of_contains(self.entries@, key@);
            if found is Some {
                let i = found->Some_0;
                assert(self.entries@[i as int].0@ == key@);
            }
        }
        found.is_some()
    }
}

} // verus!
