//! A small table from texts to items, kept as a list of entries.
//!
//! Where several entries bear the same key the one entered last counts; the
//! operations below never leave more than one behind.

use vstd::prelude::*;

verus! {

/// One entry of a shelf.
pub struct Slot<T> {
    pub key: String,
    pub item: T,
}

/// The item that counts for `key` among `slots`: that of the last entry
/// bearing the key.
pub open spec fn found<T>(slots: Seq<Slot<T>>, key: Seq<char>) -> Option<T>
    decreases slots.len(),
{
    if slots.len() == 0 {
        None
    } else if slots.last().key@ == key {
        Some(slots.last().item)
    } else {
        found(slots.drop_last(), key)
    }
}

/// An entry after which no entry bears the key is the one that counts.
pub proof fn lemma_found_at<T>(slots: Seq<Slot<T>>, key: Seq<char>, at: int)
    requires
        0 <= at < slots.len(),
        slots[at].key@ == key,
        forall|j: int| at < j < slots.len() ==> slots[j].key@ != key,
    ensures
        found(slots, key) == Some(slots[at].item),
    decreases slots.len(),
{
    if at < slots.len() - 1 {
        lemma_found_at(slots.drop_last(), key, at);
    }
}

/// Where no entry bears the key, nothing is found.
pub proof fn lemma_found_nowhere<T>(slots: Seq<Slot<T>>, key: Seq<char>)
    requires
        forall|j: int| 0 <= j < slots.len() ==> slots[j].key@ != key,
    ensures
        found(slots, key) is None,
    decreases slots.len(),
{
    if slots.len() > 0 {
        lemma_found_nowhere(slots.drop_last(), key);
    }
}

/// Taking an entry away changes nothing for the other keys.
pub proof fn lemma_found_after_removal<T>(slots: Seq<Slot<T>>, at: int, key: Seq<char>)
    requires
        0 <= at < slots.len(),
        slots[at].key@ != key,
    ensures
        found(slots.remove(at), key) == found(slots, key),
    decreases slots.len(),
{
    if at == slots.len() - 1 {
        assert(slots.remove(at) =~= slots.drop_last());
    } else {
        assert(slots.remove(at).last() == slots.last());
        assert(slots.remove(at).drop_last() =~= slots.drop_last().remove(at));
        if slots.last().key@ != key {
            lemma_found_after_removal(slots.drop_last(), at, key);
        }
    }
}

/// A table from texts to items.
pub struct Shelf<T> {
    slots: Vec<Slot<T>>,
}

impl<T: View> View for Shelf<T> {
    type V = Map<Seq<char>, T::V>;

    closed spec fn view(&self) -> Map<Seq<char>, T::V> {
        Map::new(
            |key: Seq<char>| found(self.slots@, key) is Some,
            |key: Seq<char>| found(self.slots@, key).unwrap()@,
        )
    }
}

impl<T: View> Shelf<T> {
    /// An empty shelf.
    pub fn new() -> (r: Self)
        ensures
            r@ == Map::<Seq<char>, T::V>::empty(),
    {
        let r = Shelf { slots: Vec::new() };
        assert(r@ =~= Map::<Seq<char>, T::V>::empty());
        r
    }

    /// The place of the entry that counts for `key`.
    fn position(&self, key: &String) -> (r: Option<usize>)
        ensures
            match r {
                Some(at) => at < self.slots.len() && self.slots[at as int].key@ == key@ && found(
                    self.slots@,
                    key@,
                ) == Some(self.slots[at as int].item),
                None => found(self.slots@, key@) is None,
            },
    {
        let mut i: usize = self.slots.len();
        while i > 0
            invariant
                i <= self.slots.len(),
                forall|j: int| i <= j < self.slots.len() ==> self.slots[j].key@ != key@,
            decreases i,
        {
            i -= 1;
            if self.slots[i].key == *key {
                proof {
                    lemma_found_at(self.slots@, key@, i as int);
                }
                return Some(i);
            }
        }
        proof {
            lemma_found_nowhere(self.slots@, key@);
        }
        None
    }

    /// The item kept for `key`, if there is one.
    pub fn get(&self, key: &String) -> (r: Option<&T>)
        ensures
            match r {
                Some(item) => self@.contains_key(key@) && self@[key@] == item@,
                None => !self@.contains_key(key@),
            },
    {
        match self.position(key) {
            Some(at) => Some(&self.slots[at].item),
            None => None,
        }
    }

    /// Takes away what is kept for `key` and hands it out.
    pub fn take(&mut self, key: &String) -> (r: Option<T>)
        ensures
            final(self)@ == old(self)@.remove(key@),
            match r {
                Some(item) => old(self)@.contains_key(key@) && old(self)@[key@] == item@,
                None => !old(self)@.contains_key(key@),
            },
    {
        let mut taken: Option<T> = None;
        loop
            invariant
                forall|other: Seq<char>|
                    other != key@ ==> found(self.slots@, other) == found(old(self).slots@, other),
                match taken {
                    Some(item) => found(old(self).slots@, key@) == Some(item),
                    None => found(self.slots@, key@) == found(old(self).slots@, key@),
                },
            decreases self.slots.len(),
        {
            match self.position(key) {
                Some(at) => {
                    let ghost before = self.slots@;
                    let slot = self.slots.remove(at);
                    proof {
                        assert forall|other: Seq<char>| other != key@ implies found(
                            self.slots@,
                            other,
                        ) == found(before, other) by {
                            lemma_found_after_removal(before, at as int, other);
                        }
                    }
                    if taken.is_none() {
                        taken = Some(slot.item);
                    }
                },
                None => {
                    assert(final(self)@ =~= old(self)@.remove(key@));
                    return taken;
                },
            }
        }
    }

    /// Keeps `item` for `key`, in place of what was kept for it before.
    pub fn put(&mut self, key: String, item: T)
        ensures
            final(self)@ == old(self)@.insert(key@, item@),
    {
        let _ = self.take(&key);
        let ghost before = self.slots@;
        let ghost emptied = self@;
        self.slots.push(Slot { key, item });
        proof {
            assert(self.slots@.drop_last() =~= before);
            assert forall|other: Seq<char>| other != key@ implies found(self.slots@, other)
                == found(before, other) by {}
            assert(found(self.slots@, key@) == Some(item));
            let wanted = old(self)@.insert(key@, item@);
            assert forall|k: Seq<char>| #[trigger] self@.contains_key(k) == wanted.contains_key(
                k,
            ) by {
                if k != key@ {
                    assert(emptied.contains_key(k) == (found(before, k) is Some));
                }
            }
            assert forall|k: Seq<char>| #[trigger] self@.contains_key(k) implies self@[k]
                == wanted[k] by {
                if k != key@ {
                    assert(emptied.contains_key(k));
                    assert(emptied[k] == found(before, k).unwrap()@);
                }
            }
            assert(self@ =~= wanted);
        }
    }
}

} // verus!
