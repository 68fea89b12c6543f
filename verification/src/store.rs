//! The typed dictionary at the heart of the server: a flat map from string
//! keys to tagged scalar values.

use vstd::prelude::*;
use vstd::string::*;

verus! {

/// A stored value: a tagged scalar.
///
/// A `Double` carries the decimal rendering of the floating-point number it
/// stands for, fixed at decode time; the store never computes with the number
/// itself, it only carries it and renders it back.
#[derive(Debug, PartialEq, Eq)]
pub enum Value {
    Integer(i32),
    Double(String),
    Text(String),
}

/// The mathematical shape of a [`Value`]: the same three tags, over sequences
/// of characters.
#[verifier::ext_equal]
pub enum ValueModel {
    Integer(i32),
    Double(Seq<char>),
    Text(Seq<char>),
}

impl View for Value {
    type V = ValueModel;

    open spec fn view(&self) -> ValueModel {
        match self {
            Value::Integer(i) => ValueModel::Integer(*i),
            Value::Double(s) => ValueModel::Double(s@),
            Value::Text(s) => ValueModel::Text(s@),
        }
    }
}

impl Clone for Value {
    fn clone(&self) -> (r: Self)
        ensures
            r == *self,
    {
        match self {
            Value::Integer(i) => Value::Integer(*i),
            Value::Double(s) => Value::Double(s.clone()),
            Value::Text(s) => Value::Text(s.clone()),
        }
    }
}

/// The sentinel that stands for an absent key.
pub open spec fn null_model() -> ValueModel {
    ValueModel::Text(seq!['N', 'U', 'L', 'L'])
}

/// The sentinel value `String("NULL")` returned for a key that was never put.
pub fn null_value() -> (r: Value)
    ensures
        r@ == null_model(),
{
    let s = String::from_str("NULL");
    proof {
        reveal_strlit("NULL");
        assert(s@ =~= seq!['N', 'U', 'L', 'L']);
    }
    Value::Text(s)
}

/// What a query for `k` yields on the map `m`: the entry at `k`, or the
/// sentinel when `k` is absent. Absence is a valid state, never an error.
pub open spec fn lookup(m: Map<Seq<char>, ValueModel>, k: Seq<char>) -> ValueModel {
    if m.contains_key(k) {
        m[k]
    } else {
        null_model()
    }
}

/// The map denoted by a sequence of entries; a later entry for a key would
/// override an earlier one (the store keeps keys distinct, so the question
/// does not arise).
pub open spec fn entry_map(s: Seq<(String, Value)>) -> Map<Seq<char>, ValueModel>
    decreases s.len(),
{
    if s.len() == 0 {
        Map::empty()
    } else {
        entry_map(s.drop_last()).insert(s.last().0@, s.last().1@)
    }
}

/// No two entries carry the same key.
pub open spec fn distinct_keys(s: Seq<(String, Value)>) -> bool {
    forall|i: int, j: int|
        0 <= i < j < s.len() ==> s[i].0@ != s[j].0@
}

/// The dictionary: string keys to tagged values, keys pairwise distinct.
pub struct Store {
    entries: Vec<(String, Value)>,
}

impl View for Store {
    type V = Map<Seq<char>, ValueModel>;

    closed spec fn view(&self) -> Map<Seq<char>, ValueModel> {
        entry_map(self.entries@)
    }
}

proof fn lemma_entry_map_contains(s: Seq<(String, Value)>, k: Seq<char>)
    ensures
        entry_map(s).contains_key(k) <==> (exists|i: int| 0 <= i < s.len() && s[i].0@ == k),
    decreases s.len(),
{
    if s.len() == 0 {
    } else {
        let front = s.drop_last();
        lemma_entry_map_contains(front, k);
        if s.last().0@ == k {
            assert(s[s.len() - 1].0@ == k);
        } else {
            if entry_map(s).contains_key(k) {
                let i = choose|i: int| 0 <= i < front.len() && front[i].0@ == k;
                assert(s[i].0@ == k);
            }
            if exists|i: int| 0 <= i < s.len() && s[i].0@ == k {
                let i = choose|i: int| 0 <= i < s.len() && s[i].0@ == k;
                assert(front[i].0@ == k);
            }
        }
    }
}

proof fn lemma_entry_map_finite(s: Seq<(String, Value)>)
    ensures
        entry_map(s).dom().finite(),
    decreases s.len(),
{
    if s.len() == 0 {
        assert(entry_map(s).dom() =~= Set::<Seq<char>>::empty());
    } else {
        lemma_entry_map_finite(s.drop_last());
        assert(entry_map(s).dom() =~= entry_map(s.drop_last()).dom().insert(s.last().0@));
    }
}

proof fn lemma_entry_map_at(s: Seq<(String, Value)>, i: int)
    requires
        distinct_keys(s),
        0 <= i < s.len(),
    ensures
        entry_map(s).contains_key(s[i].0@),
        entry_map(s)[s[i].0@] == s[i].1@,
    decreases s.len(),
{
    let front = s.drop_last();
    if i == s.len() - 1 {
    } else {
        assert(distinct_keys(front));
        assert(front[i] == s[i]);
        lemma_entry_map_at(front, i);
        assert(s[i].0@ != s[s.len() - 1].0@);
    }
}

proof fn lemma_entry_map_update(s: Seq<(String, Value)>, i: int, p: (String, Value))
    requires
        distinct_keys(s),
        0 <= i < s.len(),
        p.0@ == s[i].0@,
    ensures
        entry_map(s.update(i, p)) =~= entry_map(s).insert(p.0@, p.1@),
    decreases s.len(),
{
    let t = s.update(i, p);
    if i == s.len() - 1 {
        assert(t.drop_last() =~= s.drop_last());
        assert(t.last() == p);
    } else {
        let front = s.drop_last();
        assert(distinct_keys(front));
        assert(front[i] == s[i]);
        assert(t.drop_last() =~= front.update(i, p));
        lemma_entry_map_update(front, i, p);
        assert(t.last() == s.last());
        assert(s[i].0@ != s[s.len() - 1].0@);
    }
}

impl Store {
    /// Entries carry pairwise-distinct keys.
    pub closed spec fn wf(&self) -> bool {
        distinct_keys(self.entries@)
    }

    /// A fresh, empty store.
    pub fn new() -> (r: Store)
        ensures
            r.wf(),
            r@ == Map::<Seq<char>, ValueModel>::empty(),
    {
        Store { entries: Vec::new() }
    }

    /// Insert or overwrite: after the call the store maps `key` to `value`
    /// and every other key to what it mapped to before (last write wins,
    /// wholesale replacement, no merge).
    pub fn put(&mut self, key: String, value: Value)
        requires
            old(self).wf(),
        ensures
            final(self).wf(),
            final(self)@ == old(self)@.insert(key@, value@),
    {
        let ghost s0 = self.entries@;
        let n = self.entries.len();
        let mut idx: usize = 0;
        while idx < n
            invariant
                n == self.entries@.len(),
                idx <= n,
                self.entries@ == s0,
                s0 == old(self).entries@,
                distinct_keys(s0),
                forall|j: int| 0 <= j < idx ==> s0[j].0@ != key@,
            decreases n - idx,
        {
            if self.entries[idx].0 == key {
                self.entries[idx] = (key, value);
                proof {
                    let p = (key, value);
                    assert(self.entries@ == s0.update(idx as int, p));
                    lemma_entry_map_update(s0, idx as int, p);
                    assert(entry_map(self.entries@) =~= entry_map(s0).insert(key@, value@));
                    assert(distinct_keys(self.entries@)) by {
                        assert(forall|a: int, b: int|
                            0 <= a < b < s0.len() ==> self.entries@[a].0@ != self.entries@[b].0@);
                    }
                }
                return ;
            }
            idx = idx + 1;
        }
        self.entries.push((key, value));
        proof {
            let s1 = self.entries@;
            assert(s1.drop_last() =~= s0);
            lemma_entry_map_contains(s0, key@);
            assert(!entry_map(s0).contains_key(key@));
            assert(distinct_keys(s1)) by {
                assert(forall|a: int, b: int|
                    0 <= a < b < s1.len() - 1 ==> s1[a].0@ != s1[b].0@);
                assert(forall|a: int| 0 <= a < s1.len() - 1 ==> s1[a].0@ != key@);
            }
        }
    }

    /// Read the value stored at `key`, or the sentinel when `key` is absent.
    /// The result is a copy: the caller holds no reference into the store.
    pub fn get(&self, key: &String) -> (r: Value)
        requires
            self.wf(),
        ensures
            r@ == lookup(self@, key@),
    {
        let n = self.entries.len();
        let mut idx: usize = 0;
        while idx < n
            invariant
                n == self.entries@.len(),
                idx <= n,
                self.wf(),
                forall|j: int| 0 <= j < idx ==> self.entries@[j].0@ != key@,
            decreases n - idx,
        {
            if self.entries[idx].0 == *key {
                proof {
                    lemma_entry_map_at(self.entries@, idx as int);
                }
                return self.entries[idx].1.clone();
            }
            idx = idx + 1;
        }
        proof {
            lemma_entry_map_contains(self.entries@, key@);
        }
        null_value()
    }

    /// The map model is finite: the store holds one entry per stored key.
    pub proof fn lemma_view_finite(&self)
        ensures
            self@.dom().finite(),
    {
        lemma_entry_map_finite(self.entries@);
    }

    /// Every key/value entry of the store, as copies, for diagnostic
    /// inspection; not part of the network protocol.
    pub fn dump(&self) -> (r: Vec<(String, Value)>)
        requires
            self.wf(),
        ensures
            forall|i: int|
                0 <= i < r@.len() ==> #[trigger] self@.contains_key(r@[i].0@) && self@[r@[i].0@]
                    == r@[i].1@,
            forall|k: Seq<char>|
                #[trigger] self@.contains_key(k) ==> exists|i: int|
                    0 <= i < r@.len() && r@[i].0@ == k,
            forall|i: int, j: int| 0 <= i < j < r@.len() ==> r@[i].0@ != r@[j].0@,
    {
        let n = self.entries.len();
        let mut out: Vec<(String, Value)> = Vec::new();
        let mut idx: usize = 0;
        while idx < n
            invariant
                n == self.entries@.len(),
                idx <= n,
                self.wf(),
                out@.len() == idx,
                forall|i: int|
                    0 <= i < idx ==> out@[i].0@ == self.entries@[i].0@ && out@[i].1@
                        == self.entries@[i].1@,
            decreases n - idx,
        {
            let k = self.entries[idx].0.clone();
            let v = self.entries[idx].1.clone();
            out.push((k, v));
            idx = idx + 1;
        }
        proof {
            assert forall|i: int| 0 <= i < out@.len() implies #[trigger] self@.contains_key(
                out@[i].0@,
            ) && self@[out@[i].0@] == out@[i].1@ by {
                lemma_entry_map_at(self.entries@, i);
            }
            assert forall|k: Seq<char>| #[trigger] self@.contains_key(k) implies exists|i: int|
                0 <= i < out@.len() && out@[i].0@ == k by {
                lemma_entry_map_contains(self.entries@, k);
                let j = choose|j: int| 0 <= j < self.entries@.len() && self.entries@[j].0@ == k;
                assert(out@[j].0@ == k);
            }
        }
        out
    }
}

} // verus!
