//! The book of saved contacts: each contact name is bound to the key
//! agreed with that peer and to the time the contact was added.

use vstd::prelude::*;

verus! {

/// One saved contact.
pub struct SavedContact {
    pub name: String,
    pub key: Vec<u8>,
    pub added: i64,
}

/// Contacts saved after pairing with a peer, at most one per name.
pub struct ContactBook {
    entries: Vec<SavedContact>,
}

/// No name occurs twice.
pub open spec fn names_unique(s: Seq<SavedContact>) -> bool {
    forall|i: int, j: int|
        0 <= i < s.len() && 0 <= j < s.len() && i != j ==> #[trigger] s[i].name@ != #[trigger] s[j].name@
}

/// Some contact is saved under `name`.
pub open spec fn seq_has(s: Seq<SavedContact>, name: Seq<char>) -> bool {
    exists|i: int| 0 <= i < s.len() && #[trigger] s[i].name@ == name
}

/// What is saved under `name`: its key and the time it was added.
pub open spec fn seq_entry(s: Seq<SavedContact>, name: Seq<char>) -> Option<(Seq<u8>, i64)> {
    if seq_has(s, name) {
        let i = choose|i: int| 0 <= i < s.len() && #[trigger] s[i].name@ == name;
        Some((s[i].key@, s[i].added))
    } else {
        None
    }
}

proof fn lemma_entry_at(s: Seq<SavedContact>, k: int)
    requires
        names_unique(s),
        0 <= k < s.len(),
    ensures
        seq_entry(s, s[k].name@) == Some((s[k].key@, s[k].added)),
{
    let n = s[k].name@;
    assert(seq_has(s, n));
    let i = choose|i: int| 0 <= i < s.len() && #[trigger] s[i].name@ == n;
    assert(i == k);
}

/// Replacing the contact at `k` by one of the same name changes only what
/// that name is bound to.
proof fn lemma_entry_update(s: Seq<SavedContact>, k: int, c: SavedContact, n: Seq<char>)
    requires
        names_unique(s),
        0 <= k < s.len(),
        c.name@ == s[k].name@,
    ensures
        names_unique(s.update(k, c)),
        seq_entry(s.update(k, c), n) == if n == c.name@ {
            Some((c.key@, c.added))
        } else {
            seq_entry(s, n)
        },
{
    let t = s.update(k, c);
    assert forall|i: int, j: int|
        0 <= i < t.len() && 0 <= j < t.len() && i != j implies #[trigger] t[i].name@
        != #[trigger] t[j].name@ by {
        assert(t[i].name@ == s[i].name@);
        assert(t[j].name@ == s[j].name@);
    }
    if n == c.name@ {
        assert(t[k] == c);
        lemma_entry_at(t, k);
    } else {
        if seq_has(s, n) {
            let j = choose|i: int| 0 <= i < s.len() && #[trigger] s[i].name@ == n;
            assert(t[j] == s[j]);
            lemma_entry_at(s, j);
            lemma_entry_at(t, j);
        } else {
            assert forall|i: int| 0 <= i < t.len() implies #[trigger] t[i].name@ != n by {
                assert(t[i].name@ == s[i].name@);
            }
        }
    }
}

/// Adding a contact under a new name binds that name and nothing else.
proof fn lemma_entry_push(s: Seq<SavedContact>, c: SavedContact, n: Seq<char>)
    requires
        names_unique(s),
        !seq_has(s, c.name@),
    ensures
        names_unique(s.push(c)),
        seq_entry(s.push(c), n) == if n == c.name@ {
            Some((c.key@, c.added))
        } else {
            seq_entry(s, n)
        },
{
    let t = s.push(c);
    assert forall|i: int, j: int|
        0 <= i < t.len() && 0 <= j < t.len() && i != j implies #[trigger] t[i].name@
        != #[trigger] t[j].name@ by {
        if i < s.len() && j < s.len() {
            assert(t[i] == s[i]);
            assert(t[j] == s[j]);
        } else if i < s.len() {
            assert(t[i] == s[i]);
        } else {
            assert(t[j] == s[j]);
        }
    }
    if n == c.name@ {
        lemma_entry_at(t, s.len() as int);
    } else {
        if seq_has(s, n) {
            let j = choose|i: int| 0 <= i < s.len() && #[trigger] s[i].name@ == n;
            assert(t[j] == s[j]);
            lemma_entry_at(s, j);
            lemma_entry_at(t, j);
        } else {
            assert forall|i: int| 0 <= i < t.len() implies #[trigger] t[i].name@ != n by {
                if i < s.len() {
                    assert(t[i] == s[i]);
                }
            }
        }
    }
}

/// Taking out the contact at `k` unbinds its name and nothing else.
proof fn lemma_entry_remove(s: Seq<SavedContact>, k: int, n: Seq<char>)
    requires
        names_unique(s),
        0 <= k < s.len(),
    ensures
        names_unique(s.remove(k)),
        seq_entry(s.remove(k), n) == if n == s[k].name@ {
            None
        } else {
            seq_entry(s, n)
        },
{
    let t = s.remove(k);
    assert forall|i: int, j: int|
        0 <= i < t.len() && 0 <= j < t.len() && i != j implies #[trigger] t[i].name@
        != #[trigger] t[j].name@ by {
        let oi = if i < k { i } else { i + 1 };
        let oj = if j < k { j } else { j + 1 };
        assert(t[i] == s[oi]);
        assert(t[j] == s[oj]);
    }
    if n == s[k].name@ {
        assert forall|i: int| 0 <= i < t.len() implies #[trigger] t[i].name@ != n by {
            let oi = if i < k { i } else { i + 1 };
            assert(t[i] == s[oi]);
        }
    } else {
        if seq_has(s, n) {
            let j = choose|i: int| 0 <= i < s.len() && #[trigger] s[i].name@ == n;
            let tj = if j < k { j } else { j - 1 };
            assert(j != k);
            assert(t[tj] == s[j]);
            lemma_entry_at(s, j);
            lemma_entry_at(t, tj);
        } else {
            assert forall|i: int| 0 <= i < t.len() implies #[trigger] t[i].name@ != n by {
                let oi = if i < k { i } else { i + 1 };
                assert(t[i] == s[oi]);
            }
        }
    }
}

/// `after` is `before` with `key`, added at `added`, saved under `name`.
pub open spec fn is_added(
    before: &ContactBook,
    after: &ContactBook,
    name: Seq<char>,
    key: Seq<u8>,
    added: i64,
) -> bool {
    forall|n: Seq<char>| #[trigger]
        after.entry(n) == if n == name {
            Some((key, added))
        } else {
            before.entry(n)
        }
}

/// `after` is `before` without the contact saved under `name`.
pub open spec fn is_deleted(before: &ContactBook, after: &ContactBook, name: Seq<char>) -> bool {
    forall|n: Seq<char>| #[trigger]
        after.entry(n) == if n == name {
            None
        } else {
            before.entry(n)
        }
}

/// `after` is `before` with the contact `old` (if any) forgotten and `key`
/// saved under `name`.
pub open spec fn is_replaced(
    before: &ContactBook,
    after: &ContactBook,
    name: Seq<char>,
    old: Option<Seq<char>>,
    key: Seq<u8>,
    added: i64,
) -> bool {
    forall|n: Seq<char>| #[trigger]
        after.entry(n) == if n == name {
            Some((key, added))
        } else if old == Some(n) {
            None
        } else {
            before.entry(n)
        }
}

impl ContactBook {
    /// Every name is saved at most once.
    #[verifier::type_invariant]
    spec fn wf(self) -> bool {
        names_unique(self.entries@)
    }

    /// What is saved under `name`, if anything: the key and the time it was
    /// added.
    pub closed spec fn entry(&self, name: Seq<char>) -> Option<(Seq<u8>, i64)> {
        seq_entry(self.entries@, name)
    }

    /// The number of saved contacts.
    pub closed spec fn size(&self) -> nat {
        self.entries@.len()
    }

    /// A book with no contacts.
    pub fn empty() -> (r: Self)
        ensures
            r.size() == 0,
            forall|n: Seq<char>| #[trigger] r.entry(n) == None::<(Seq<u8>, i64)>,
    {
        ContactBook { entries: Vec::new() }
    }

    fn find(&self, name: &String) -> (r: Option<usize>)
        ensures
            match r {
                Some(k) => k < self.entries@.len() && self.entries@[k as int].name@ == name@,
                None => !seq_has(self.entries@, name@),
            },
    {
        let mut i: usize = 0;
        while i < self.entries.len()
            invariant
                i <= self.entries@.len(),
                forall|j: int| 0 <= j < i ==> #[trigger] self.entries@[j].name@ != name@,
            decreases self.entries@.len() - i,
        {
            if self.entries[i].name == *name {
                return Some(i);
            }
            i = i + 1;
        }
        None
    }

    /// Whether a contact is saved under `name`.
    pub fn contains(&self, name: &str) -> (r: bool)
        ensures
            r == (self.entry(name@) is Some),
    {
        proof {
            use_type_invariant(self);
        }
        let target = name.to_owned();
        match self.find(&target) {
            Some(k) => {
                proof {
                    lemma_entry_at(self.entries@, k as int);
                }
                true
            },
            None => false,
        }
    }

    /// The key saved under `name`, if any.
    pub fn get(&self, name: &str) -> (r: Option<Vec<u8>>)
        ensures
            match self.entry(name@) {
                Some(e) => r matches Some(k) && k@ == e.0,
                None => r is None,
            },
    {
        proof {
            use_type_invariant(self);
        }
        let target = name.to_owned();
        match self.find(&target) {
            Some(k) => {
                proof {
                    lemma_entry_at(self.entries@, k as int);
                }
                Some(vstd::slice::slice_to_vec(self.entries[k].key.as_slice()))
            },
            None => None,
        }
    }

    /// Saves `key` under `name`, replacing whatever that name was bound to.
    pub fn add(&mut self, name: String, key: Vec<u8>, added: i64)
        ensures
            is_added(old(self), final(self), name@, key@, added),
    {
        proof {
            use_type_invariant(&*self);
        }
        let ghost old_entries = self.entries@;
        let ghost nm = name@;
        let ghost k_view = key@;
        let found = self.find(&name);
        let c = SavedContact { name, key, added };
        let mut entries: Vec<SavedContact> = Vec::new();
        std::mem::swap(&mut entries, &mut self.entries);
        match found {
            Some(k) => {
                entries.set(k, c);
                proof {
                    lemma_entry_update(old_entries, k as int, c, nm);
                }
                self.entries = entries;
                proof {
                    assert(self.entries@ == old_entries.update(k as int, c));
                    assert forall|n: Seq<char>| #[trigger]
                        self.entry(n) == if n == nm {
                            Some((k_view, added))
                        } else {
                            seq_entry(old_entries, n)
                        } by {
                        lemma_entry_update(old_entries, k as int, c, n);
                    }
                    lemma_entry_update(old_entries, k as int, c, nm);
                }
            },
            None => {
                entries.push(c);
                proof {
                    lemma_entry_push(old_entries, c, nm);
                }
                self.entries = entries;
                proof {
                    assert(self.entries@ == old_entries.push(c));
                    assert forall|n: Seq<char>| #[trigger]
                        self.entry(n) == if n == nm {
                            Some((k_view, added))
                        } else {
                            seq_entry(old_entries, n)
                        } by {
                        lemma_entry_push(old_entries, c, n);
                    }
                    lemma_entry_push(old_entries, c, nm);
                }
            },
        }
    }

    /// Forgets the contact saved under `name`; tells whether there was one.
    pub fn delete(&mut self, name: &str) -> (r: bool)
        ensures
            r == (old(self).entry(name@) is Some),
            is_deleted(old(self), final(self), name@),
    {
        proof {
            use_type_invariant(&*self);
        }
        let ghost old_entries = self.entries@;
        let target = name.to_owned();
        match self.find(&target) {
            Some(k) => {
                proof {
                    lemma_entry_at(old_entries, k as int);
                    lemma_entry_remove(old_entries, k as int, name@);
                }
                let mut entries: Vec<SavedContact> = Vec::new();
                std::mem::swap(&mut entries, &mut self.entries);
                entries.remove(k);
                self.entries = entries;
                proof {
                    assert forall|n: Seq<char>| #[trigger]
                        self.entry(n) == if n == name@ {
                            None
                        } else {
                            seq_entry(old_entries, n)
                        } by {
                        lemma_entry_remove(old_entries, k as int, n);
                    }
                    lemma_entry_remove(old_entries, k as int, name@);
                }
                true
            },
            None => {
                proof {
                    assert forall|n: Seq<char>| n == name@ implies #[trigger] self.entry(n) == None::<(Seq<u8>, i64)> by {}
                }
                false
            },
        }
    }

    /// Saves `key` under `name` after forgetting the contact `previous`, when one
    /// is given: the contact that was used to reach the peer is renamed.
    pub fn replace(&mut self, name: String, previous: Option<String>, key: Vec<u8>, added: i64)
        ensures
            is_replaced(
                old(self),
                final(self),
                name@,
                match previous {
                    Some(o) => Some(o@),
                    None => None,
                },
                key@,
                added,
            ),
    {
        let ghost before = *self;
        let ghost nm = name@;
        let ghost kv = key@;
        let ghost ov: Option<Seq<char>> = match &previous {
            Some(o) => Some(o@),
            None => None,
        };
        match previous {
            Some(o) => {
                self.delete(o.as_str());
            },
            None => {},
        }
        let ghost middle = *self;
        self.add(name, key, added);
        proof {
            assert forall|n: Seq<char>| #[trigger]
                self.entry(n) == if n == nm {
                    Some((kv, added))
                } else if ov == Some(n) {
                    None
                } else {
                    before.entry(n)
                } by {
                assert(self.entry(n) == if n == nm {
                    Some((kv, added))
                } else {
                    middle.entry(n)
                });
                if ov is None {
                    assert(middle == before);
                }
            }
        }
    }

    /// Every saved contact once, by name, with the time it was added.
    pub fn list(&self) -> (r: Vec<(String, i64)>)
        ensures
            r@.len() == self.size(),
            forall|i: int|
                0 <= i < r@.len() ==> (#[trigger] self.entry(r@[i].0@) matches Some(e) && e.1
                    == r@[i].1),
            forall|i: int, j: int|
                0 <= i < r@.len() && 0 <= j < r@.len() && i != j ==> #[trigger] r@[i].0@
                    != #[trigger] r@[j].0@,
            forall|n: Seq<char>|
                #[trigger] self.entry(n) is Some ==> exists|i: int|
                    0 <= i < r@.len() && #[trigger] r@[i].0@ == n,
    {
        proof {
            use_type_invariant(self);
        }
        let mut r: Vec<(String, i64)> = Vec::new();
        let mut i: usize = 0;
        while i < self.entries.len()
            invariant
                names_unique(self.entries@),
                i <= self.entries@.len(),
                r@.len() == i,
                forall|j: int|
                    0 <= j < i ==> #[trigger] r@[j].0@ == self.entries@[j].name@ && r@[j].1
                        == self.entries@[j].added,
            decreases self.entries@.len() - i,
        {
            let name = self.entries[i].name.clone();
            r.push((name, self.entries[i].added));
            i = i + 1;
        }
        proof {
            let s = self.entries@;
            assert forall|i: int|
                0 <= i < r@.len() implies (#[trigger] self.entry(r@[i].0@) matches Some(e) && e.1
                == r@[i].1) by {
                lemma_entry_at(s, i);
            }
            assert forall|i: int, j: int|
                0 <= i < r@.len() && 0 <= j < r@.len() && i != j implies #[trigger] r@[i].0@
                != #[trigger] r@[j].0@ by {
                assert(s[i].name@ != s[j].name@);
            }
            assert forall|n: Seq<char>| #[trigger] self.entry(n) is Some implies exists|i: int|
                0 <= i < r@.len() && #[trigger] r@[i].0@ == n by {
                let i = choose|i: int| 0 <= i < s.len() && #[trigger] s[i].name@ == n;
                assert(r@[i].0@ == n);
            }
        }
        r
    }
}

/// Reading a contact back after saving it gives the key that was saved.
pub proof fn law_get_after_add(
    before: &ContactBook,
    after: &ContactBook,
    name: Seq<char>,
    key: Seq<u8>,
    added: i64,
)
    requires
        is_added(before, after, name, key, added),
    ensures
        after.entry(name) == Some((key, added)),
{
}

/// Saving a contact leaves every other contact as it was.
pub proof fn law_add_keeps_others(
    before: &ContactBook,
    after: &ContactBook,
    name: Seq<char>,
    key: Seq<u8>,
    added: i64,
    other: Seq<char>,
)
    requires
        is_added(before, after, name, key, added),
        other != name,
    ensures
        after.entry(other) == before.entry(other),
{
}

/// A deleted contact can no longer be found.
pub proof fn law_delete_then_absent(before: &ContactBook, after: &ContactBook, name: Seq<char>)
    requires
        is_deleted(before, after, name),
    ensures
        after.entry(name) is None,
{
}

/// Deleting a contact that was just saved under a new name undoes the save.
pub proof fn law_delete_undoes_add(
    b0: &ContactBook,
    b1: &ContactBook,
    b2: &ContactBook,
    name: Seq<char>,
    key: Seq<u8>,
    added: i64,
)
    requires
        b0.entry(name) is None,
        is_added(b0, b1, name, key, added),
        is_deleted(b1, b2, name),
    ensures
        forall|n: Seq<char>| #[trigger] b2.entry(n) == b0.entry(n),
{
    assert forall|n: Seq<char>| #[trigger] b2.entry(n) == b0.entry(n) by {
        assert(b2.entry(n) == if n == name { None } else { b1.entry(n) });
        assert(b1.entry(n) == if n == name { Some((key, added)) } else { b0.entry(n) });
    }
}

/// Renaming a contact binds the new name to the new key and forgets the old
/// name.
pub proof fn law_replace_renames(
    before: &ContactBook,
    after: &ContactBook,
    name: Seq<char>,
    old: Seq<char>,
    key: Seq<u8>,
    added: i64,
)
    requires
        is_replaced(before, after, name, Some(old), key, added),
        old != name,
    ensures
        after.entry(name) == Some((key, added)),
        after.entry(old) is None,
{
    assert(after.entry(old) == if old == name {
        Some((key, added))
    } else if Some(old) == Some(old) {
        None
    } else {
        before.entry(old)
    });
}

} // verus!
