//! A small string-keyed map with insertion order kept and keys unique:
//! the categorized metadata tables are built from it.

use vstd::prelude::*;

verus! {

/// An ordered map from labels to values. Keys are unique; inserting an
/// existing key replaces its value in place.
#[derive(Clone, Debug)]
pub struct FieldMap {
    pub entries: Vec<(String, String)>,
}

/// The views of an entry list.
pub open spec fn entries_view(entries: Seq<(String, String)>) -> Seq<(Seq<char>, Seq<char>)> {
    Seq::new(entries.len(), |i: int| (entries[i].0@, entries[i].1@))
}

impl View for FieldMap {
    type V = Seq<(Seq<char>, Seq<char>)>;

    open spec fn view(&self) -> Seq<(Seq<char>, Seq<char>)> {
        entries_view(self.entries@)
    }
}

/// The position of a key at or after `from`, if present.
pub open spec fn spec_key_index_from(
    entries: Seq<(Seq<char>, Seq<char>)>,
    key: Seq<char>,
    from: int,
) -> Option<int>
    decreases entries.len() - from when 0 <= from <= entries.len()
{
    if from >= entries.len() {
        None
    } else if entries[from].0 == key {
        Some(from)
    } else {
        spec_key_index_from(entries, key, from + 1)
    }
}

/// The position of a key, if present.
pub open spec fn spec_key_index(entries: Seq<(Seq<char>, Seq<char>)>, key: Seq<char>) -> Option<
    int,
> {
    spec_key_index_from(entries, key, 0)
}

/// The entry list after inserting a pair: an existing key is updated in
/// place, a new key is appended.
pub open spec fn spec_insert(
    entries: Seq<(Seq<char>, Seq<char>)>,
    key: Seq<char>,
    value: Seq<char>,
) -> Seq<(Seq<char>, Seq<char>)> {
    match spec_key_index(entries, key) {
        Some(i) => entries.update(i, (key, value)),
        None => entries.push((key, value)),
    }
}

impl FieldMap {
    /// An empty map.
    pub fn new() -> (r: FieldMap)
        ensures
            r@ == Seq::<(Seq<char>, Seq<char>)>::empty(),
    {
        let r = FieldMap { entries: Vec::new() };
        proof {
            assert(r@ =~= Seq::<(Seq<char>, Seq<char>)>::empty());
        }
        r
    }

    /// How many entries the map holds.
    pub fn len(&self) -> (r: usize)
        ensures
            r == self@.len(),
    {
        self.entries.len()
    }

    /// Inserts a pair: replaces the value of an existing key, appends a
    /// new key.
    pub fn insert(&mut self, key: String, value: String)
        ensures
            final(self)@ == spec_insert(old(self)@, key@, value@),
    {
        let n = self.entries.len();
        let mut i: usize = 0;
        while i < n
            invariant
                n == self.entries@.len(),
                0 <= i <= n,
                self@ == old(self)@,
                spec_key_index(self@, key@) == spec_key_index_from(self@, key@, i as int),
            decreases n - i,
        {
            if self.entries[i].0 == key {
                self.entries.set(i, (key, value));
                proof {
                    assert(self@ =~= spec_insert(old(self)@, key@, value@));
                }
                return ;
            }
            i = i + 1;
        }
        self.entries.push((key, value));
        proof {
            assert(self@ =~= spec_insert(old(self)@, key@, value@));
        }
    }

    /// The value under a key, if present.
    pub fn get(&self, key: &str) -> (r: Option<&String>)
        ensures
            match r {
                Some(v) => spec_key_index(self@, key@) matches Some(i) && self@[i].1 == v@,
                None => spec_key_index(self@, key@) is None,
            },
    {
        let key_owned = String::from_str(key);
        let n = self.entries.len();
        let mut i: usize = 0;
        while i < n
            invariant
                n == self.entries@.len(),
                0 <= i <= n,
                key_owned@ == key@,
                spec_key_index(self@, key@) == spec_key_index_from(self@, key@, i as int),
            decreases n - i,
        {
            if self.entries[i].0 == key_owned {
                return Some(&self.entries[i].1);
            }
            i = i + 1;
        }
        None
    }
}

} // verus!
