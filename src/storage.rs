//! The key/value keyspace that one guest instance sees for the length of a
//! call. Keys and values are byte strings, copied in and out on every access.

use vstd::prelude::*;

verus! {

/// The value stored last under `key` in `entries`.
pub open spec fn lookup_entry(entries: Seq<(Vec<u8>, Vec<u8>)>, key: Seq<u8>) -> Option<Seq<u8>>
    decreases entries.len(),
{
    if entries.len() == 0 {
        None
    } else if entries.last().0@ == key {
        Some(entries.last().1@)
    } else {
        lookup_entry(entries.drop_last(), key)
    }
}

fn bytes_eq(a: &Vec<u8>, b: &Vec<u8>) -> (r: bool)
    ensures
        r == (a@ == b@),
{
    if a.len() != b.len() {
        return false;
    }
    let mut i: usize = 0;
    while i < a.len()
        invariant
            a@.len() == b@.len(),
            i <= a@.len(),
            forall|j: int| 0 <= j < i ==> a@[j] == b@[j],
        decreases a@.len() - i,
    {
        if a[i] != b[i] {
            return false;
        }
        i = i + 1;
    }
    assert(a@ =~= b@);
    true
}

fn copy_bytes(a: &Vec<u8>) -> (r: Vec<u8>)
    ensures
        r@ == a@,
{
    let r = a.clone();
    assert(r@ =~= a@);
    r
}

/// A keyspace of byte-string keys and values.
pub struct Storage {
    entries: Vec<(Vec<u8>, Vec<u8>)>,
}

impl View for Storage {
    type V = Map<Seq<u8>, Seq<u8>>;

    closed spec fn view(&self) -> Map<Seq<u8>, Seq<u8>> {
        Map::new(
            |k: Seq<u8>| lookup_entry(self.entries@, k).is_some(),
            |k: Seq<u8>| lookup_entry(self.entries@, k).unwrap(),
        )
    }
}

/// The bytes that an optional buffer holds.
pub open spec fn opt_bytes(r: Option<Vec<u8>>) -> Option<Seq<u8>> {
    match r {
        Some(v) => Some(v@),
        None => None,
    }
}

/// The value under `key`, if any.
pub open spec fn stored(m: Map<Seq<u8>, Seq<u8>>, key: Seq<u8>) -> Option<Seq<u8>> {
    if m.contains_key(key) {
        Some(m[key])
    } else {
        None
    }
}

impl Storage {
    proof fn lemma_view(&self, k: Seq<u8>)
        ensures
            stored(self@, k) == lookup_entry(self.entries@, k),
    {
    }

    /// An empty keyspace.
    pub fn new() -> (r: Storage)
        ensures
            r@ == Map::<Seq<u8>, Seq<u8>>::empty(),
    {
        let r = Storage { entries: Vec::new() };
        assert(r@ =~= Map::<Seq<u8>, Seq<u8>>::empty());
        r
    }

    /// A copy of the value under `key`, if any.
    pub fn read(&self, key: &Vec<u8>) -> (r: Option<Vec<u8>>)
        ensures
            opt_bytes(r) == stored(self@, key@),
    {
        proof {
            self.lemma_view(key@);
        }
        let mut i: usize = self.entries.len();
        assert(self.entries@.subrange(0, i as int) =~= self.entries@);
        while i > 0
            invariant
                i <= self.entries@.len(),
                lookup_entry(self.entries@, key@) == lookup_entry(
                    self.entries@.subrange(0, i as int),
                    key@,
                ),
            decreases i,
        {
            i = i - 1;
            assert(self.entries@.subrange(0, i + 1).drop_last() =~= self.entries@.subrange(
                0,
                i as int,
            ));
            if bytes_eq(&self.entries[i].0, key) {
                return Some(copy_bytes(&self.entries[i].1));
            }
        }
        None
    }

    /// Whether a value is stored under `key`.
    pub fn has(&self, key: &Vec<u8>) -> (r: bool)
        ensures
            r == self@.contains_key(key@),
    {
        self.read(key).is_some()
    }

    /// Stores `value` under `key` and returns the value it replaces, if any.
    pub fn write(&mut self, key: Vec<u8>, value: Vec<u8>) -> (r: Option<Vec<u8>>)
        ensures
            final(self)@ == old(self)@.insert(key@, value@),
            opt_bytes(r) == stored(old(self)@, key@),
    {
        let previous = self.read(&key);
        let ghost (k, v) = (key@, value@);
        self.entries.push((key, value));
        proof {
            assert(self.entries@.drop_last() =~= old(self).entries@);
            assert forall|q: Seq<u8>| #[trigger]
                lookup_entry(self.entries@, q) == stored(old(self)@.insert(k, v), q) by {
                old(self).lemma_view(q);
            }
            assert(self@ =~= old(self)@.insert(k, v));
        }
        previous
    }

    /// Takes the value under `key` out of the keyspace and returns it, if any.
    pub fn remove(&mut self, key: &Vec<u8>) -> (r: Option<Vec<u8>>)
        ensures
            final(self)@ == old(self)@.remove(key@),
            opt_bytes(r) == stored(old(self)@, key@),
    {
        let previous = self.read(key);
        let mut kept: Vec<(Vec<u8>, Vec<u8>)> = Vec::new();
        let mut i: usize = 0;
        while i < self.entries.len()
            invariant
                self.entries == old(self).entries,
                i <= self.entries@.len(),
                forall|q: Seq<u8>| #[trigger]
                    lookup_entry(kept@, q) == if q == key@ {
                        None
                    } else {
                        lookup_entry(self.entries@.subrange(0, i as int), q)
                    },
            decreases self.entries@.len() - i,
        {
            let ghost before = kept@;
            let ghost prefix = self.entries@.subrange(0, i as int);
            proof {
                assert(self.entries@.subrange(0, i + 1).drop_last() =~= prefix);
            }
            if !bytes_eq(&self.entries[i].0, key) {
                let entry = (copy_bytes(&self.entries[i].0), copy_bytes(&self.entries[i].1));
                kept.push(entry);
                proof {
                    assert(kept@.drop_last() =~= before);
                    assert forall|q: Seq<u8>| #[trigger]
                        lookup_entry(kept@, q) == if q == key@ {
                            None
                        } else {
                            lookup_entry(self.entries@.subrange(0, i + 1), q)
                        } by {
                        assert(lookup_entry(before, q) == lookup_entry(prefix, q) || q == key@);
                    }
                }
            } else {
                proof {
                    assert forall|q: Seq<u8>| #[trigger]
                        lookup_entry(kept@, q) == if q == key@ {
                            None
                        } else {
                            lookup_entry(self.entries@.subrange(0, i + 1), q)
                        } by {
                        assert(lookup_entry(before, q) == lookup_entry(prefix, q) || q == key@);
                    }
                }
            }
            i = i + 1;
        }
        proof {
            assert(self.entries@.subrange(0, i as int) =~= self.entries@);
        }
        self.entries = kept;
        proof {
            assert forall|q: Seq<u8>| #[trigger]
                lookup_entry(self.entries@, q) == stored(old(self)@.remove(key@), q) by {
                old(self).lemma_view(q);
            }
            assert(self@ =~= old(self)@.remove(key@));
        }
        previous
    }
}

} // verus!
