//! String key/value properties of PipeWire objects.

use vstd::prelude::*;

use crate::text::str_eq;

verus! {

/// The value of the first entry with `key`, if any.
pub open spec fn spec_lookup(entries: Seq<(Seq<char>, Seq<char>)>, key: Seq<char>) -> Option<
    Seq<char>,
>
    decreases entries.len(),
{
    if entries.len() == 0 {
        None
    } else if entries[0].0 == key {
        Some(entries[0].1)
    } else {
        spec_lookup(entries.drop_first(), key)
    }
}

/// Without an entry with `key`, a lookup finds nothing.
proof fn lemma_lookup_absent(entries: Seq<(Seq<char>, Seq<char>)>, key: Seq<char>)
    requires
        forall|i: int| 0 <= i < entries.len() ==> entries[i].0 != key,
    ensures
        spec_lookup(entries, key) is None,
    decreases entries.len(),
{
    if entries.len() > 0 {
        assert forall|i: int| 0 <= i < entries.drop_first().len() implies entries.drop_first()[i].0
            != key by {
            assert(entries.drop_first()[i] == entries[i + 1]);
        }
        lemma_lookup_absent(entries.drop_first(), key);
    }
}

/// A lookup finds the first entry with `key`.
proof fn lemma_lookup_first(entries: Seq<(Seq<char>, Seq<char>)>, key: Seq<char>, index: int)
    requires
        0 <= index < entries.len(),
        entries[index].0 == key,
        forall|j: int| 0 <= j < index ==> entries[j].0 != key,
    ensures
        spec_lookup(entries, key) == Some(entries[index].1),
    decreases index,
{
    if index > 0 {
        assert forall|j: int| 0 <= j < index - 1 implies entries.drop_first()[j].0 != key by {
            assert(entries.drop_first()[j] == entries[j + 1]);
        }
        lemma_lookup_first(entries.drop_first(), key, index - 1);
    }
}

/// Appending an entry for a key that no entry has makes lookups of that
/// key find it and leaves other lookups unchanged.
proof fn lemma_lookup_push(
    entries: Seq<(Seq<char>, Seq<char>)>,
    key: Seq<char>,
    value: Seq<char>,
    other: Seq<char>,
)
    requires
        forall|i: int| 0 <= i < entries.len() ==> entries[i].0 != key,
    ensures
        spec_lookup(entries.push((key, value)), key) == Some(value),
        other != key ==> spec_lookup(entries.push((key, value)), other) == spec_lookup(
            entries,
            other,
        ),
    decreases entries.len(),
{
    let pushed = entries.push((key, value));
    if entries.len() == 0 {
        assert(pushed.drop_first() =~= Seq::<(Seq<char>, Seq<char>)>::empty());
    } else {
        assert(pushed.drop_first() =~= entries.drop_first().push((key, value)));
        assert forall|i: int| 0 <= i < entries.drop_first().len() implies entries.drop_first()[i].0
            != key by {
            assert(entries.drop_first()[i] == entries[i + 1]);
        }
        lemma_lookup_push(entries.drop_first(), key, value, other);
    }
}

/// Replacing the value of the first entry with `key` makes lookups of that
/// key find the new value and leaves other lookups unchanged.
proof fn lemma_lookup_update(
    entries: Seq<(Seq<char>, Seq<char>)>,
    index: int,
    key: Seq<char>,
    value: Seq<char>,
    other: Seq<char>,
)
    requires
        0 <= index < entries.len(),
        entries[index].0 == key,
        forall|j: int| 0 <= j < index ==> entries[j].0 != key,
    ensures
        spec_lookup(entries.update(index, (key, value)), key) == Some(value),
        other != key ==> spec_lookup(entries.update(index, (key, value)), other) == spec_lookup(
            entries,
            other,
        ),
    decreases index,
{
    let updated = entries.update(index, (key, value));
    if index == 0 {
        assert(updated.drop_first() =~= entries.drop_first());
    } else {
        assert(updated.drop_first() =~= entries.drop_first().update(index - 1, (key, value)));
        assert forall|j: int| 0 <= j < index - 1 implies entries.drop_first()[j].0 != key by {
            assert(entries.drop_first()[j] == entries[j + 1]);
        }
        lemma_lookup_update(entries.drop_first(), index - 1, key, value, other);
    }
}

/// An ordered dictionary of string properties; a key occurs at most once.
#[derive(Debug)]
pub struct Properties {
    entries: Vec<(String, String)>,
}

impl Properties {
    /// The entries as key and value characters, in insertion order.
    pub closed spec fn spec_entries(&self) -> Seq<(Seq<char>, Seq<char>)> {
        self.entries@.map_values(|entry: (String, String)| (entry.0@, entry.1@))
    }

    /// The value of `key`, if set.
    pub open spec fn spec_get(&self, key: Seq<char>) -> Option<Seq<char>> {
        spec_lookup(self.spec_entries(), key)
    }

    /// Properties without any entry.
    pub fn new() -> (r: Properties)
        ensures
            forall|key: Seq<char>| r.spec_get(key) is None,
    {
        let r = Properties { entries: Vec::new() };
        assert(r.spec_entries() =~= Seq::<(Seq<char>, Seq<char>)>::empty());
        r
    }

    /// Sets `key` to `value`, replacing any earlier value of `key`.
    pub fn insert(&mut self, key: &str, value: &str)
        ensures
            final(self).spec_get(key@) == Some(value@),
            forall|other: Seq<char>|
                other != key@ ==> #[trigger] final(self).spec_get(other) == old(self).spec_get(
                    other,
                ),
    {
        let ghost before = self.spec_entries();
        let mut i: usize = 0;
        while i < self.entries.len()
            invariant
                i <= self.entries@.len(),
                before == self.spec_entries(),
                before == old(self).spec_entries(),
                forall|j: int| 0 <= j < i ==> before[j].0 != key@,
            decreases self.entries@.len() - i,
        {
            if str_eq(self.entries[i].0.as_str(), key) {
                proof {
                    assert(before[i as int].0 == key@);
                    lemma_lookup_update(before, i as int, key@, value@, key@);
                    assert forall|other: Seq<char>| true implies spec_lookup(
                        before.update(i as int, (key@, value@)),
                        key@,
                    ) == Some(value@) && (other != key@ ==> spec_lookup(
                        before.update(i as int, (key@, value@)),
                        other,
                    ) == spec_lookup(before, other)) by {
                        lemma_lookup_update(before, i as int, key@, value@, other);
                    }
                }
                let entry = (key.to_owned(), value.to_owned());
                assert(entry.0@ == key@ && entry.1@ == value@);
                self.entries[i] = entry;
                assert(self.spec_entries() =~= before.update(i as int, (key@, value@)));
                return;
            }
            i = i + 1;
        }
        proof {
            lemma_lookup_push(before, key@, value@, key@);
            assert forall|other: Seq<char>| true implies spec_lookup(
                before.push((key@, value@)),
                key@,
            ) == Some(value@) && (other != key@ ==> spec_lookup(before.push((key@, value@)), other)
                == spec_lookup(before, other)) by {
                lemma_lookup_push(before, key@, value@, other);
            }
        }
        let entry = (key.to_owned(), value.to_owned());
        assert(entry.0@ == key@ && entry.1@ == value@);
        self.entries.push(entry);
        assert(self.spec_entries() =~= before.push((key@, value@)));
    }

    /// The value of `key`, if set.
    pub fn get(&self, key: &str) -> (r: Option<&str>)
        ensures
            match r {
                Some(value) => self.spec_get(key@) == Some(value@),
                None => self.spec_get(key@) is None,
            },
    {
        let ghost entries = self.spec_entries();
        let mut i: usize = 0;
        while i < self.entries.len()
            invariant
                i <= self.entries@.len(),
                entries == self.spec_entries(),
                forall|j: int| 0 <= j < i ==> entries[j].0 != key@,
            decreases self.entries@.len() - i,
        {
            if str_eq(self.entries[i].0.as_str(), key) {
                proof {
                    lemma_lookup_first(entries, key@, i as int);
                }
                return Some(self.entries[i].1.as_str());
            }
            i = i + 1;
        }
        proof {
            lemma_lookup_absent(entries, key@);
        }
        None
    }
}

} // verus!
