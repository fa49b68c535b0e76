//! A map keyed by text, kept in dictionary order of its keys.
use vstd::prelude::*;

use crate::text::{at_or_before, same, text_le, text_le_antisymmetric, text_le_total,
    text_le_transitive};

verus! {

/// A map from texts to values; its entries stand in dictionary order.
#[derive(Debug)]
pub struct TextMap<V> {
    entries: Vec<(String, V)>,
}

impl<V> View for TextMap<V> {
    type V = Map<Seq<char>, V>;

    closed spec fn view(&self) -> Map<Seq<char>, V> {
        map_of(self.entries@)
    }
}

/// Whether the entries stand in strict dictionary order of their keys.
pub open spec fn ascending<V>(entries: Seq<(String, V)>) -> bool {
    forall|i: int, j: int|
        #![trigger entries[i], entries[j]]
        0 <= i < j < entries.len() ==> text_le(entries[i].0@, entries[j].0@) && entries[i].0@
            != entries[j].0@
}

/// Whether some entry has the key.
pub open spec fn has_key<V>(entries: Seq<(String, V)>, key: Seq<char>) -> bool {
    exists|i: int| 0 <= i < entries.len() && (#[trigger] entries[i]).0@ == key
}

/// The map that entries with distinct keys stand for.
pub open spec fn map_of<V>(entries: Seq<(String, V)>) -> Map<Seq<char>, V> {
    Map::new(
        |key: Seq<char>| has_key(entries, key),
        |key: Seq<char>|
            {
                let i = choose|i: int| 0 <= i < entries.len() && (#[trigger] entries[i]).0@ == key;
                entries[i].1
            },
    )
}

proof fn map_of_entry<V>(entries: Seq<(String, V)>, i: int)
    requires
        ascending(entries),
        0 <= i < entries.len(),
    ensures
        map_of(entries).dom().contains(entries[i].0@),
        map_of(entries)[entries[i].0@] == entries[i].1,
{
    let key = entries[i].0@;
    assert(has_key(entries, key));
    let k = choose|k: int| 0 <= k < entries.len() && (#[trigger] entries[k]).0@ == key;
    if k < i {
        assert(entries[k].0@ != entries[i].0@);
    } else if i < k {
        assert(entries[i].0@ != entries[k].0@);
    }
}

impl<V> TextMap<V> {
    #[verifier::type_invariant]
    closed spec fn ordered(self) -> bool {
        ascending(self.entries@)
    }

    /// The empty map.
    pub fn new() -> (r: Self)
        ensures
            r@ == Map::<Seq<char>, V>::empty(),
    {
        let r = TextMap { entries: Vec::new() };
        assert(r@ =~= Map::<Seq<char>, V>::empty());
        r
    }

    /// The position of the first key at or behind `key`.
    fn position(&self, key: &str) -> (at: usize)
        ensures
            at <= self.entries@.len(),
            forall|j: int|
                0 <= j < at ==> text_le((#[trigger] self.entries@[j]).0@, key@)
                    && self.entries@[j].0@ != key@,
            forall|j: int|
                at <= j < self.entries@.len() ==> text_le(
                    key@,
                    (#[trigger] self.entries@[j]).0@,
                ),
    {
        proof {
            use_type_invariant(self);
        }
        let mut at: usize = 0;
        while at < self.entries.len() && !at_or_before(key, self.entries[at].0.as_str())
            invariant
                at <= self.entries@.len(),
                forall|j: int|
                    0 <= j < at ==> text_le((#[trigger] self.entries@[j]).0@, key@)
                        && self.entries@[j].0@ != key@,
            decreases self.entries@.len() - at,
        {
            proof {
                let other = self.entries@[at as int].0@;
                text_le_total(other, key@);
                crate::text::text_le_reflexive(key@);
            }
            at = at + 1;
        }
        proof {
            if at < self.entries@.len() {
                assert forall|j: int| at <= j < self.entries@.len() implies text_le(
                    key@,
                    (#[trigger] self.entries@[j]).0@,
                ) by {
                    if j > at {
                        text_le_transitive(key@, self.entries@[at as int].0@, self.entries@[j].0@);
                    }
                }
            }
        }
        at
    }

    /// The value at `key`.
    pub fn get(&self, key: &str) -> (r: Option<&V>)
        ensures
            r is Some == self@.dom().contains(key@),
            r matches Some(value) ==> *value == self@[key@],
    {
        proof {
            use_type_invariant(self);
        }
        let at: usize = self.position(key);
        if at < self.entries.len() && same(self.entries[at].0.as_str(), key) {
            proof {
                map_of_entry(self.entries@, at as int);
            }
            Some(&self.entries[at].1)
        } else {
            proof {
                if has_key(self.entries@, key@) {
                    let k = choose|k: int|
                        0 <= k < self.entries@.len() && (#[trigger] self.entries@[k]).0@ == key@;
                    assert(at <= k);
                    if at < k {
                        let other = self.entries@[at as int].0@;
                        assert(text_le(other, key@));
                        text_le_antisymmetric(other, key@);
                    }
                }
            }
            None
        }
    }

    /// Put a value at `key`, in place of the one that was there.
    pub fn insert(&mut self, key: &str, value: V)
        ensures
            final(self)@ == old(self)@.insert(key@, value),
    {
        proof {
            use_type_invariant(&*self);
        }
        let ghost before = self.entries@;
        let at: usize = self.position(key);
        let mut entries: Vec<(String, V)> = Vec::new();
        std::mem::swap(&mut entries, &mut self.entries);
        let replaced = at < entries.len() && same(entries[at].0.as_str(), key);
        if replaced {
            let _ = entries.remove(at);
        } else {
            proof {
                if at < before.len() {
                    assert(before[at as int].0@ != key@);
                }
            }
        }
        entries.insert(at, (key.to_owned(), value));
        proof {
            let after = entries@;
            let shift: int = if replaced { 0 } else { 1 };
            assert(after[at as int].0@ == key@ && after[at as int].1 == value);
            assert forall|j: int| 0 <= j < at implies after[j] == before[j] by {}
            assert forall|j: int| at < j < after.len() implies #[trigger] after[j] == before[j
                - shift] by {}
            assert forall|i: int, j: int|
                #![trigger after[i], after[j]]
                0 <= i < j < after.len() implies text_le(after[i].0@, after[j].0@) && after[i].0@
                != after[j].0@ by {
                if i < at && j == at {
                    assert(before[i].0@ != key@);
                } else if i == at && j > at {
                    let other = before[j - shift];
                    assert(text_le(key@, other.0@));
                    if other.0@ == key@ {
                        assert(before[at as int].0@ != before[j - shift].0@ || j - shift == at);
                        if j - shift > at {
                            text_le_antisymmetric(before[at as int].0@, key@);
                        }
                    }
                } else if i < at && j > at {
                    assert(before[i].0@ != before[j - shift].0@);
                } else if i > at {
                    assert(before[i - shift].0@ != before[j - shift].0@);
                } else {
                    assert(before[i].0@ != before[j].0@);
                }
            }
            assert(ascending(after));
            assert forall|k: Seq<char>| has_key(after, k) == (has_key(before, k) || k == key@) by {
                if has_key(before, k) {
                    let i = choose|i: int|
                        0 <= i < before.len() && (#[trigger] before[i]).0@ == k;
                    if i < at {
                        assert(after[i].0@ == k);
                    } else if replaced && i == at {
                        assert(after[at as int].0@ == k);
                    } else {
                        assert(after[i + shift].0@ == k);
                    }
                }
                if has_key(after, k) && k != key@ {
                    let i = choose|i: int| 0 <= i < after.len() && (#[trigger] after[i]).0@ == k;
                    if i < at {
                        assert(before[i].0@ == k);
                    } else {
                        assert(before[i - shift].0@ == k);
                    }
                }
                if k == key@ {
                    assert(after[at as int].0@ == k);
                }
            }
            assert forall|k: Seq<char>| has_key(after, k) implies map_of(after)[k] == map_of(
                before,
            ).insert(key@, value)[k] by {
                let i = choose|i: int| 0 <= i < after.len() && (#[trigger] after[i]).0@ == k;
                map_of_entry(after, i);
                if k != key@ {
                    if i < at {
                        map_of_entry(before, i);
                    } else {
                        map_of_entry(before, i - shift);
                    }
                }
            }
            assert(map_of(after) =~= map_of(before).insert(key@, value));
        }
        self.entries = entries;
    }

    /// How many keys there are.
    pub fn len(&self) -> (r: usize)
        ensures
            r == self.listed().len(),
            self@.dom().finite(),
            r == self@.dom().len(),
    {
        proof {
            use_type_invariant(self);
            count_of(self.entries@);
        }
        self.entries.len()
    }

    /// The entries in dictionary order of their keys.
    pub closed spec fn listed(self) -> Seq<(String, V)> {
        self.entries@
    }

    /// The entries in dictionary order of their keys.
    pub fn list(&self) -> (r: &Vec<(String, V)>)
        ensures
            r@ == self.listed(),
            ascending(r@),
            map_of(r@) == self@,
    {
        proof {
            use_type_invariant(self);
        }
        &self.entries
    }
}

impl<V: Copy> Clone for TextMap<V> {
    fn clone(&self) -> (r: Self)
        ensures
            r@ == self@,
    {
        proof {
            use_type_invariant(self);
        }
        let mut entries: Vec<(String, V)> = Vec::new();
        let mut i: usize = 0;
        while i < self.entries.len()
            invariant
                i <= self.entries@.len(),
                entries@ == self.entries@.take(i as int),
            decreases self.entries@.len() - i,
        {
            entries.push((self.entries[i].0.clone(), self.entries[i].1));
            i = i + 1;
            assert(self.entries@.take(i as int) == self.entries@.take(i - 1).push(
                self.entries@[i - 1],
            ));
        }
        assert(self.entries@.take(i as int) == self.entries@);
        TextMap { entries }
    }
}

/// An ordered list has as many keys as entries.
proof fn count_of<V>(entries: Seq<(String, V)>)
    requires
        ascending(entries),
    ensures
        map_of(entries).dom().finite(),
        map_of(entries).dom().len() == entries.len(),
    decreases entries.len(),
{
    if entries.len() == 0 {
        assert(map_of(entries).dom() =~= Set::<Seq<char>>::empty());
    } else {
        let rest = entries.drop_last();
        let last = entries.last().0@;
        assert forall|i: int, j: int| 0 <= i < j < rest.len() implies text_le(
            (#[trigger] rest[i]).0@,
            (#[trigger] rest[j]).0@,
        ) && rest[i].0@ != rest[j].0@ by {
            assert(rest[i] == entries[i] && rest[j] == entries[j]);
        }
        count_of(rest);
        assert(map_of(entries).dom() =~= map_of(rest).dom().insert(last)) by {
            assert forall|key: Seq<char>| has_key(entries, key) <==> (has_key(rest, key) || key
                == last) by {
                if has_key(entries, key) {
                    let k = choose|k: int|
                        0 <= k < entries.len() && (#[trigger] entries[k]).0@ == key;
                    if k < rest.len() {
                        assert(rest[k] == entries[k]);
                    }
                }
                if has_key(rest, key) {
                    let k = choose|k: int| 0 <= k < rest.len() && (#[trigger] rest[k]).0@ == key;
                    assert(rest[k] == entries[k]);
                }
                if key == last {
                    assert(entries[entries.len() - 1].0@ == key);
                }
            }
        }
        if has_key(rest, last) {
            let k = choose|k: int| 0 <= k < rest.len() && (#[trigger] rest[k]).0@ == last;
            assert(rest[k] == entries[k]);
            assert(entries[k].0@ != entries[entries.len() - 1].0@);
        }
    }
}

/// An entry of an ordered list is what its map has at that key.
pub proof fn listed_entry<V>(entries: Seq<(String, V)>, i: int)
    requires
        ascending(entries),
        0 <= i < entries.len(),
    ensures
        map_of(entries).dom().contains(entries[i].0@),
        map_of(entries)[entries[i].0@] == entries[i].1,
{
    map_of_entry(entries, i);
}

} // verus!
