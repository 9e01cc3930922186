//! A table from account ids to unsigned integers, kept as a list of entries
//! whose later entries take precedence.
use vstd::prelude::*;
use vstd::map::*;

verus! {

/// The map that a list of entries denotes: each entry binds its account to
/// its value, and a later entry overrides an earlier one.
pub open spec fn entries_map(s: Seq<(String, u64)>) -> Map<Seq<char>, u64>
    decreases s.len(),
{
    if s.len() == 0 {
        Map::empty()
    } else {
        entries_map(s.drop_last()).insert(s.last().0@, s.last().1)
    }
}

/// Every account bound in the map of `s` is the account of some entry of `s`.
pub proof fn lemma_entries_map_key(s: Seq<(String, u64)>, a: Seq<char>)
    requires
        entries_map(s).contains_key(a),
    ensures
        exists|i: int| 0 <= i < s.len() && (#[trigger] s[i]).0@ == a,
    decreases s.len(),
{
    if s.last().0@ != a {
        lemma_entries_map_key(s.drop_last(), a);
        let i = choose|i: int| 0 <= i < s.drop_last().len() && (#[trigger] s.drop_last()[i]).0@ == a;
        assert(s[i] == s.drop_last()[i]);
    }
}

/// The value that the entries `entries` bind to `key`, if any.
pub fn lookup(entries: &Vec<(String, u64)>, key: &String) -> (r: Option<u64>)
    ensures
        r == (if entries_map(entries@).contains_key(key@) { Some(entries_map(entries@)[key@]) } else { None::<u64> }),
{
    let mut i: usize = entries.len();
    proof {
        assert(entries@.take(i as int) =~= entries@);
    }
    while i > 0
        invariant
            i <= entries@.len(),
            entries_map(entries@).contains_key(key@) == entries_map(entries@.take(i as int)).contains_key(key@),
            entries_map(entries@).contains_key(key@) ==> entries_map(entries@)[key@] == entries_map(entries@.take(i as int))[key@],
        decreases i,
    {
        proof {
            assert(entries@.take(i as int).drop_last() =~= entries@.take(i - 1));
        }
        if entries[i - 1].0 == *key {
            return Some(entries[i - 1].1);
        }
        i = i - 1;
    }
    proof {
        assert(entries@.take(0) =~= Seq::<(String, u64)>::empty());
    }
    None
}

pub struct AccountTable {
    entries: Vec<(String, u64)>,
}

impl View for AccountTable {
    type V = Map<Seq<char>, u64>;

    closed spec fn view(&self) -> Map<Seq<char>, u64> {
        entries_map(self.entries@)
    }
}

impl AccountTable {
    /// An empty table.
    pub fn new() -> (r: AccountTable)
        ensures
            r@ == Map::<Seq<char>, u64>::empty(),
    {
        AccountTable { entries: Vec::new() }
    }

    /// The value bound to `key`, if any.
    pub fn get(&self, key: &String) -> (r: Option<u64>)
        ensures
            r == (if self@.contains_key(key@) { Some(self@[key@]) } else { None::<u64> }),
    {
        lookup(&self.entries, key)
    }

    /// Removes the binding of `key`, if there is one.
    pub fn remove(&mut self, key: &String)
        ensures
            final(self)@ == old(self)@.remove(key@),
    {
        let mut kept: Vec<(String, u64)> = Vec::new();
        let mut j: usize = 0;
        while j < self.entries.len()
            invariant
                j <= self.entries@.len(),
                entries_map(kept@) == entries_map(self.entries@.take(j as int)).remove(key@),
            decreases self.entries@.len() - j,
        {
            proof {
                assert(self.entries@.take(j + 1).drop_last() =~= self.entries@.take(j as int));
            }
            if self.entries[j].0 != *key {
                let k = self.entries[j].0.clone();
                let v = self.entries[j].1;
                let ghost before = kept@;
                kept.push((k, v));
                proof {
                    assert(kept@.drop_last() =~= before);
                    assert_maps_equal!(entries_map(kept@),
                        entries_map(self.entries@.take(j + 1)).remove(key@));
                }
            } else {
                proof {
                    assert_maps_equal!(entries_map(kept@),
                        entries_map(self.entries@.take(j + 1)).remove(key@));
                }
            }
            j = j + 1;
        }
        proof {
            assert(self.entries@.take(j as int) =~= self.entries@);
        }
        self.entries = kept;
    }

    /// Binds `key` to `value`, replacing any earlier binding.
    pub fn insert(&mut self, key: &String, value: u64)
        ensures
            final(self)@ == old(self)@.insert(key@, value),
    {
        self.remove(key);
        let ghost before = self.entries@;
        self.entries.push((key.clone(), value));
        proof {
            assert(self.entries@.drop_last() =~= before);
            assert_maps_equal!(self@, old(self)@.insert(key@, value));
        }
    }

    /// The table that the entries `entries` denote.
    pub fn from_entries(entries: Vec<(String, u64)>) -> (r: AccountTable)
        ensures
            r@ == entries_map(entries@),
    {
        AccountTable { entries }
    }

    /// Entries that denote this table.
    pub fn to_entries(&self) -> (r: Vec<(String, u64)>)
        ensures
            entries_map(r@) == self@,
    {
        let mut out: Vec<(String, u64)> = Vec::new();
        let mut j: usize = 0;
        while j < self.entries.len()
            invariant
                j <= self.entries@.len(),
                entries_map(out@) == entries_map(self.entries@.take(j as int)),
            decreases self.entries@.len() - j,
        {
            proof {
                assert(self.entries@.take(j + 1).drop_last() =~= self.entries@.take(j as int));
            }
            let ghost before = out@;
            out.push((self.entries[j].0.clone(), self.entries[j].1));
            proof {
                assert(out@.drop_last() =~= before);
            }
            j = j + 1;
        }
        proof {
            assert(self.entries@.take(j as int) =~= self.entries@);
        }
        out
    }
}

} // verus!
