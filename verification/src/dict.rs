//! Dictionaries: mappings from text to values that are walked in the order of their
//! keys.

use vstd::prelude::*;
use vstd::std_specs::cmp::PartialEqSpecImpl;

use crate::text::{
    is_text_below, lemma_text_below_irreflexive, lemma_text_below_total,
    lemma_text_below_transitive, text_below,
};
use crate::value::{clone_values, eq_value, values_view, Value, ValueView};

verus! {

/// A mapping from text to values. Its keys are kept in increasing order, so no key
/// occurs twice.
#[derive(Debug)]
pub struct Dict {
    keys: Vec<String>,
    values: Vec<Value>,
}

/// The model of a [`Dict`]: its entries in the order of their keys.
pub type Entries = Seq<(Seq<char>, ValueView)>;

/// The entries that a row of keys and a row of values make.
pub open spec fn entries_of(keys: Seq<String>, values: Seq<Value>) -> Entries
    decreases values,
{
    Seq::new(
        values.len(),
        |i: int|
            if 0 <= i < values.len() {
                (keys[i]@, values[i].model())
            } else {
                (Seq::empty(), ValueView::Nil)
            },
    )
}

/// Whether the keys of the entries increase from each entry to the next.
pub open spec fn entries_sorted(d: Entries) -> bool {
    forall|i: int, j: int|
        0 <= i < j < d.len() ==> text_below((#[trigger] d[i]).0, (#[trigger] d[j]).0)
}

/// Whether an entry has this key.
pub open spec fn entries_has(d: Entries, key: Seq<char>) -> bool {
    exists|i: int| 0 <= i < d.len() && (#[trigger] d[i]).0 == key
}

/// The place of the entry with this key, where there is one.
pub open spec fn entries_index(d: Entries, key: Seq<char>) -> int {
    choose|i: int| 0 <= i < d.len() && (#[trigger] d[i]).0 == key
}

/// The value under this key.
pub open spec fn entries_get(d: Entries, key: Seq<char>) -> Option<ValueView> {
    if entries_has(d, key) {
        Some(d[entries_index(d, key)].1)
    } else {
        None
    }
}

/// Whether a new key belongs at this place: after every smaller key and before every
/// larger one.
pub open spec fn is_slot(d: Entries, key: Seq<char>, at: int) -> bool {
    &&& 0 <= at <= d.len()
    &&& forall|j: int| 0 <= j < at ==> text_below((#[trigger] d[j]).0, key)
    &&& forall|j: int| at <= j < d.len() ==> text_below(key, (#[trigger] d[j]).0)
}

/// The place where a key that no entry has belongs.
pub open spec fn entries_slot(d: Entries, key: Seq<char>) -> int {
    choose|at: int| is_slot(d, key, at)
}

/// The entries with `value` under `key`: in place of the value that was there, or as
/// a new entry where the order of the keys asks for it.
pub open spec fn entries_put(d: Entries, key: Seq<char>, value: ValueView) -> Entries {
    if entries_has(d, key) {
        d.update(entries_index(d, key), (key, value))
    } else {
        d.insert(entries_slot(d, key), (key, value))
    }
}

/// The entries without the one that has this key.
pub open spec fn entries_remove(d: Entries, key: Seq<char>) -> Entries {
    if entries_has(d, key) {
        d.remove(entries_index(d, key))
    } else {
        d
    }
}

/// The entries of `a`, with each entry of `b` put into them.
pub open spec fn entries_merge(a: Entries, b: Entries) -> Entries
    decreases b.len(),
{
    if b.len() == 0 {
        a
    } else {
        entries_merge(entries_put(a, b.last().0, b.last().1), b.drop_last())
    }
}

/// The mapping that the entries stand for.
pub open spec fn entries_map(d: Entries) -> Map<Seq<char>, ValueView> {
    Map::new(|key: Seq<char>| entries_has(d, key), |key: Seq<char>| d[entries_index(d, key)].1)
}

/// Equality of the entries of two dictionaries: the same keys, with equal values.
pub open spec fn eq_entries(a: Entries, b: Entries) -> bool
    decreases a,
{
    &&& a.len() == b.len()
    &&& forall|i: int|
        0 <= i < a.len() ==> (#[trigger] a[i]).0 == b[i].0 && eq_value(a[i].1, b[i].1)
}

/// In sorted entries a key is found at one place only.
pub proof fn lemma_index_unique(d: Entries, key: Seq<char>, at: int)
    requires
        entries_sorted(d),
        0 <= at < d.len(),
        d[at].0 == key,
    ensures
        entries_has(d, key),
        entries_index(d, key) == at,
{
    lemma_text_below_irreflexive(key);
}

/// In sorted entries a key that has a slot is no entry's key, and has that slot only.
pub proof fn lemma_slot_unique(d: Entries, key: Seq<char>, at: int)
    requires
        is_slot(d, key, at),
    ensures
        !entries_has(d, key),
        entries_slot(d, key) == at,
{
    lemma_text_below_irreflexive(key);
    let other = entries_slot(d, key);
    if other < at {
        lemma_text_below_total(key, d[other].0);
    } else if at < other {
        lemma_text_below_total(key, d[at].0);
    }
}

/// In sorted entries every key that no entry has belongs at some place.
pub proof fn lemma_slot_exists(d: Entries, key: Seq<char>)
    requires
        entries_sorted(d),
        !entries_has(d, key),
    ensures
        is_slot(d, key, entries_slot(d, key)),
    decreases d.len(),
{
    if d.len() == 0 {
        assert(is_slot(d, key, 0));
    } else {
        let front = d.drop_last();
        let last = d.len() - 1;
        if entries_has(front, key) {
            let at = entries_index(front, key);
        }
        lemma_slot_exists(front, key);
        let at = entries_slot(front, key);
        lemma_text_below_total(key, d[last].0);
        if text_below(key, d[last].0) {
            assert forall|j: int| 0 <= j < at implies text_below((#[trigger] d[j]).0, key) by {
                assert(front[j] == d[j]);
            }
            assert forall|j: int| at <= j < d.len() implies text_below(
                key,
                (#[trigger] d[j]).0,
            ) by {
                if j < last {
                    assert(front[j] == d[j]);
                }
            }
            assert(is_slot(d, key, at));
        } else {
            assert forall|j: int| 0 <= j < d.len() implies text_below((#[trigger] d[j]).0, key) by {
                if j < last {
                    lemma_text_below_transitive(d[j].0, d[last].0, key);
                }
            }
            assert(is_slot(d, key, d.len() as int));
        }
    }
}

/// Putting a value under a key keeps sorted entries sorted, gives that key that value
/// and leaves every other key as it was.
pub proof fn lemma_put(d: Entries, key: Seq<char>, value: ValueView, other: Seq<char>)
    requires
        entries_sorted(d),
    ensures
        entries_sorted(entries_put(d, key, value)),
        entries_get(entries_put(d, key, value), key) == Some(value),
        other != key ==> entries_get(entries_put(d, key, value), other) == entries_get(d, other),
{
    let put = entries_put(d, key, value);
    if entries_has(d, key) {
        let at = entries_index(d, key);
        lemma_index_unique(put, key, at);
        if other != key {
            if entries_has(d, other) {
                let found = entries_index(d, other);
                lemma_index_unique(put, other, found);
            } else if entries_has(put, other) {
                assert(d[entries_index(put, other)].0 == other);
            }
        }
    } else {
        lemma_slot_exists(d, key);
        let at = entries_slot(d, key);
        lemma_index_unique(put, key, at);
        if other != key {
            if entries_has(d, other) {
                let found = entries_index(d, other);
                let moved = if found < at { found } else { found + 1 };
                lemma_index_unique(put, other, moved);
            }
        }
    }
}

/// In the merge of two sorted dictionaries, which is sorted, a key has the value that
/// the right one gives it, and where the right one has no such key, what the left one
/// gives it.
pub proof fn lemma_merge(a: Entries, b: Entries, key: Seq<char>)
    requires
        entries_sorted(a),
        entries_sorted(b),
    ensures
        entries_sorted(entries_merge(a, b)),
        entries_get(entries_merge(a, b), key) == if entries_has(b, key) {
            entries_get(b, key)
        } else {
            entries_get(a, key)
        },
    decreases b.len(),
{
    if b.len() > 0 {
        let front = b.drop_last();
        let last = b.len() - 1;
        let put = entries_put(a, b[last].0, b[last].1);
        lemma_put(a, b[last].0, b[last].1, key);
        lemma_merge(put, front, key);
        if entries_has(front, key) {
            let found = entries_index(front, key);
            lemma_index_unique(b, key, found);
        } else if key == b[last].0 {
            lemma_index_unique(b, key, last);
        } else if entries_has(b, key) {
            let found = entries_index(b, key);
            assert(front[found] == b[found]);
        }
    }
}

impl View for Dict {
    type V = Entries;

    open spec fn view(&self) -> Entries {
        self.model()
    }
}

impl Dict {
    /// The entries in the order of their keys; `@` gives the same.
    pub closed spec fn model(&self) -> Entries
        decreases self,
    {
        entries_of(self.keys@, self.values@)
    }

    #[verifier::type_invariant]
    spec fn well_formed(&self) -> bool {
        &&& self.keys@.len() == self.values@.len()
        &&& forall|i: int, j: int|
            0 <= i < j < self.keys@.len() ==> text_below(
                (#[trigger] self.keys@[i])@,
                (#[trigger] self.keys@[j])@,
            )
    }

    /// Does nothing but tell the verifier that the keys of a dictionary increase from
    /// each entry to the next.
    pub fn keys_increase(&self)
        ensures
            entries_sorted(self@),
    {
        proof {
            use_type_invariant(self);
        }
    }

    /// The empty dictionary.
    pub fn new() -> (r: Dict)
        ensures
            r@ =~= Seq::empty(),
    {
        Dict { keys: Vec::new(), values: Vec::new() }
    }

    /// The number of entries.
    pub fn len(&self) -> (n: usize)
        ensures
            n == self@.len(),
    {
        self.values.len()
    }

    /// Whether there is no entry.
    pub fn is_empty(&self) -> (r: bool)
        ensures
            r == (self@.len() == 0),
    {
        self.values.len() == 0
    }

    /// The key of the entry at a place, if there is such a place.
    pub fn key_at(&self, at: usize) -> (r: Option<&String>)
        ensures
            r is Some == (at < self@.len()),
            r matches Some(key) ==> key@ == self@[at as int].0,
    {
        proof {
            use_type_invariant(self);
        }
        if at < self.keys.len() {
            Some(&self.keys[at])
        } else {
            None
        }
    }

    /// The value of the entry at a place, if there is such a place.
    pub fn value_at(&self, at: usize) -> (r: Option<&Value>)
        ensures
            r is Some == (at < self@.len()),
            r matches Some(value) ==> value@ == self@[at as int].1,
    {
        if at < self.values.len() {
            Some(&self.values[at])
        } else {
            None
        }
    }

    /// The place of the key, or the place where it belongs, found by halving the range
    /// in which it can be.
    fn find(&self, key: &str) -> (r: (bool, usize))
        ensures
            r.0 ==> r.1 < self@.len() && self@[r.1 as int].0 == key@,
            r.0 ==> entries_has(self@, key@) && entries_index(self@, key@) == r.1,
            !r.0 ==> is_slot(self@, key@, r.1 as int),
            !r.0 ==> !entries_has(self@, key@) && entries_slot(self@, key@) == r.1,
    {
        proof {
            use_type_invariant(self);
        }
        self.keys_increase();
        let mut low: usize = 0;
        let mut high: usize = self.keys.len();
        while low < high
            invariant
                low <= high <= self.keys@.len(),
                self.keys@.len() == self.values@.len(),
                entries_sorted(self@),
                forall|j: int| 0 <= j < low ==> text_below((#[trigger] self@[j]).0, key@),
                forall|j: int|
                    high <= j < self@.len() ==> text_below(key@, (#[trigger] self@[j]).0),
            decreases high - low,
        {
            let middle = low + (high - low) / 2;
            let ghost here = self@[middle as int].0;
            if is_text_below(self.keys[middle].as_str(), key) {
                assert forall|j: int| 0 <= j < middle + 1 implies text_below(
                    (#[trigger] self@[j]).0,
                    key@,
                ) by {
                    if j < middle {
                        lemma_text_below_transitive(self@[j].0, here, key@);
                    }
                }
                low = middle + 1;
            } else if is_text_below(key, self.keys[middle].as_str()) {
                assert forall|j: int| middle <= j < self@.len() implies text_below(
                    key@,
                    (#[trigger] self@[j]).0,
                ) by {
                    if middle < j {
                        lemma_text_below_transitive(key@, here, self@[j].0);
                    }
                }
                high = middle;
            } else {
                proof {
                    lemma_text_below_total(here, key@);
                    lemma_index_unique(self@, key@, middle as int);
                }
                return (true, middle);
            }
        }
        proof {
            lemma_slot_unique(self@, key@, low as int);
        }
        (false, low)
    }

    /// Whether an entry has this key.
    pub fn contains_key(&self, key: &str) -> (r: bool)
        ensures
            r == entries_has(self@, key@),
    {
        self.find(key).0
    }

    /// The value under a key.
    pub fn get(&self, key: &str) -> (r: Option<&Value>)
        ensures
            r is Some == entries_has(self@, key@),
            r matches Some(v) ==> entries_get(self@, key@) == Some(v@),
    {
        let (found, at) = self.find(key);
        if found {
            Some(&self.values[at])
        } else {
            None
        }
    }

    /// The value under a key, to be changed in place.
    pub fn get_mut(&mut self, key: &str) -> (r: Option<&mut Value>)
        ensures
            r is Some == entries_has(old(self)@, key@),
            r matches Some(v) ==> entries_get(old(self)@, key@) == Some(v@) && final(self)@
                == entries_put(old(self)@, key@, final(v)@),
            r is None ==> final(self)@ == old(self)@,
    {
        proof {
            use_type_invariant(&*self);
        }
        let (found, at) = self.find(key);
        if found {
            let slot = &mut self.values[at];
            Some(slot)
        } else {
            None
        }
    }

    /// Puts a value under a key, in place of the value that was there if there was one.
    pub fn insert(&mut self, key: String, value: Value)
        ensures
            final(self)@ == entries_put(old(self)@, key@, value@),
    {
        let (found, at) = self.find(key.as_str());
        let mut taken = Dict::new();
        std::mem::swap(self, &mut taken);
        proof {
            use_type_invariant(&taken);
        }
        let ghost before = taken@;
        let Dict { mut keys, mut values } = taken;
        if found {
            values[at] = value;
        } else {
            keys.insert(at, key);
            values.insert(at, value);
            assert forall|i: int, j: int| 0 <= i < j < keys@.len() implies text_below(
                (#[trigger] keys@[i])@,
                (#[trigger] keys@[j])@,
            ) by {
                let a = if i < at { i } else { i - 1 };
                let b = if j < at { j } else { j - 1 };
                if i != at {
                    assert(keys@[i]@ == before[a].0);
                }
                if j != at {
                    assert(keys@[j]@ == before[b].0);
                }
            }
        }
        *self = Dict { keys, values };
    }

    /// Takes the entry with this key out and gives its value.
    pub fn remove(&mut self, key: &str) -> (r: Option<Value>)
        ensures
            r is Some == entries_has(old(self)@, key@),
            r matches Some(v) ==> entries_get(old(self)@, key@) == Some(v@),
            final(self)@ == entries_remove(old(self)@, key@),
    {
        let (found, at) = self.find(key);
        if !found {
            return None;
        }
        let mut taken = Dict::new();
        std::mem::swap(self, &mut taken);
        proof {
            use_type_invariant(&taken);
        }
        let Dict { mut keys, mut values } = taken;
        keys.remove(at);
        let value = values.remove(at);
        *self = Dict { keys, values };
        Some(value)
    }

    /// The dictionary with every entry of `other` put into it: where both have a key,
    /// the value of `other` stays.
    pub fn merge(self, other: Dict) -> (r: Dict)
        ensures
            r@ == entries_merge(self@, other@),
    {
        proof {
            use_type_invariant(&other);
        }
        let mut merged = self;
        let Dict { mut keys, mut values } = other;
        while keys.len() > 0
            invariant
                keys@.len() == values@.len(),
                entries_merge(merged@, entries_of(keys@, values@)) == entries_merge(
                    self@,
                    other@,
                ),
            decreases keys@.len(),
        {
            let ghost rest = entries_of(keys@, values@);
            let key = keys.pop().unwrap();
            let value = values.pop().unwrap();
            assert(entries_of(keys@, values@) =~= rest.drop_last());
            merged.insert(key, value);
        }
        merged
    }
}

impl Clone for Dict {
    fn clone(&self) -> (r: Self)
        ensures
            r@ == self@,
        decreases self,
    {
        proof {
            use_type_invariant(self);
        }
        let mut keys: Vec<String> = Vec::new();
        let mut i: usize = 0;
        while i < self.keys.len()
            invariant
                i <= self.keys@.len(),
                keys@.len() == i,
                forall|j: int| 0 <= j < i ==> (#[trigger] keys@[j])@ == self.keys@[j]@,
            decreases self.keys@.len() - i,
        {
            keys.push(self.keys[i].clone());
            i = i + 1;
        }
        let values = clone_values(&self.values);
        assert(values@.len() == self.values@.len()) by {
            assert(values_view(values@).len() == values_view(self.values@).len());
        }
        let r = Dict { keys, values };
        assert(r.model() =~= self.model()) by {
            assert forall|j: int| 0 <= j < r.values@.len() implies r.values@[j]@
                == self.values@[j]@ by {
                assert(values_view(r.values@)[j] == r.values@[j]@);
            }
        }
        r
    }
}

impl Dict {
    /// Whether the two dictionaries hold the same keys with equal values.
    pub fn equals(&self, other: &Dict) -> (r: bool)
        ensures
            r == eq_entries(self@, other@),
        decreases self,
    {
        proof {
            use_type_invariant(self);
            use_type_invariant(other);
        }
        if self.keys.len() != other.keys.len() {
            return false;
        }
        let mut i: usize = 0;
        while i < self.keys.len()
            invariant
                i <= self.keys@.len(),
                self.keys@.len() == other.keys@.len(),
                self.keys@.len() == self.values@.len(),
                other.keys@.len() == other.values@.len(),
                forall|j: int| 0 <= j < i ==> (#[trigger] self.keys@[j])@ == other.keys@[j]@,
                forall|j: int|
                    0 <= j < i ==> eq_value((#[trigger] self.values@[j])@, other.values@[j]@),
            decreases self.keys@.len() - i,
        {
            let same_key = self.keys[i] == other.keys[i];
            let same_value = self.values[i].equals(&other.values[i]);
            if !same_key || !same_value {
                assert(self.model()[i as int] == (self.keys@[i as int]@, self.values@[i as int]@));
                return false;
            }
            i = i + 1;
        }
        true
    }
}

impl PartialEq for Dict {
    fn eq(&self, other: &Self) -> (r: bool) {
        self.equals(other)
    }
}

impl PartialEqSpecImpl for Dict {
    open spec fn obeys_eq_spec() -> bool {
        true
    }

    open spec fn eq_spec(&self, other: &Self) -> bool {
        eq_entries(self@, other@)
    }
}

impl Default for Dict {
    fn default() -> (r: Self)
        ensures
            r@ =~= Seq::empty(),
    {
        Dict::new()
    }
}

} // verus!
