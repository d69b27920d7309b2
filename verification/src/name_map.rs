//! A map from names to values that keeps its entries in the order of their
//! names, so that walking it always gives the same sequence.

use crate::names::lemma_name_asymmetric;
use crate::names::lemma_name_irreflexive;
use crate::names::lemma_name_total;
use crate::names::lemma_name_transitive;
use crate::names::name_precedes;
use crate::names::precedes;
use vstd::prelude::*;

verus! {

/// The names of `s` strictly increase from each entry to the next.
pub open spec fn names_increase<T>(s: Seq<(String, T)>) -> bool {
    forall|i: int, j: int|
        0 <= i < j < s.len() ==> name_precedes(#[trigger] s[i].0@, #[trigger] s[j].0@)
}

/// The place that `name` has among the names of `s`: the length of the
/// longest prefix of `s` in which every name comes before `name`.
pub open spec fn place_of<T>(s: Seq<(String, T)>, name: Seq<char>) -> int
    decreases s.len(),
{
    if s.len() == 0 || !name_precedes(s[0].0@, name) {
        0
    } else {
        1 + place_of(s.drop_first(), name)
    }
}

/// `s` after `name` has been bound to `value`: the entry of that name takes
/// the new value where there is one, else a new entry goes to the place of
/// `name`.
pub open spec fn with_entry<T>(s: Seq<(String, T)>, name: String, value: T) -> Seq<(String, T)> {
    let k = place_of(s, name@);
    if k < s.len() && s[k].0@ == name@ {
        s.update(k, (s[k].0, value))
    } else {
        s.insert(k, (name, value))
    }
}

/// The value that `name` is bound to in `s`, if any.
pub open spec fn value_of<T>(s: Seq<(String, T)>, name: Seq<char>) -> Option<T> {
    let k = place_of(s, name);
    if k < s.len() && s[k].0@ == name {
        Some(s[k].1)
    } else {
        None
    }
}

/// The place of `name` is `k` when every name before `k` comes before `name`
/// and the name at `k`, if there is one, does not.
pub proof fn lemma_place_of<T>(s: Seq<(String, T)>, name: Seq<char>, k: int)
    requires
        0 <= k <= s.len(),
        forall|j: int| 0 <= j < k ==> name_precedes(#[trigger] s[j].0@, name),
        k < s.len() ==> !name_precedes(s[k].0@, name),
    ensures
        place_of(s, name) == k,
    decreases k,
{
    if k > 0 {
        let t = s.drop_first();
        assert forall|j: int| 0 <= j < k - 1 implies name_precedes(#[trigger] t[j].0@, name) by {
            assert(t[j] == s[j + 1]);
        }
        if k < s.len() {
            assert(t[k - 1] == s[k]);
        }
        lemma_place_of(t, name, k - 1);
    }
}

/// The place of a name lies within the sequence or just behind it, every name
/// before it comes before the name, and the name at it does not.
pub proof fn lemma_place_of_bounds<T>(s: Seq<(String, T)>, name: Seq<char>)
    ensures
        0 <= place_of(s, name) <= s.len(),
        forall|j: int| 0 <= j < place_of(s, name) ==> name_precedes(#[trigger] s[j].0@, name),
        place_of(s, name) < s.len() ==> !name_precedes(s[place_of(s, name)].0@, name),
    decreases s.len(),
{
    if s.len() > 0 && name_precedes(s[0].0@, name) {
        let t = s.drop_first();
        lemma_place_of_bounds(t, name);
        let k = place_of(s, name);
        assert forall|j: int| 0 <= j < k implies name_precedes(#[trigger] s[j].0@, name) by {
            if j > 0 {
                assert(s[j] == t[j - 1]);
            }
        }
        if k < s.len() {
            assert(s[k] == t[k - 1]);
        }
    }
}

/// In a sequence whose names increase, no name occurs twice.
pub proof fn lemma_names_distinct<T>(s: Seq<(String, T)>, i: int, j: int)
    requires
        names_increase(s),
        0 <= i < s.len(),
        0 <= j < s.len(),
        i != j,
    ensures
        s[i].0@ != s[j].0@,
{
    lemma_name_irreflexive(s[i].0@);
}

/// In a sequence whose names increase, a name stands at its own place.
pub proof fn lemma_place_of_member<T>(s: Seq<(String, T)>, i: int)
    requires
        names_increase(s),
        0 <= i < s.len(),
    ensures
        place_of(s, s[i].0@) == i,
        value_of(s, s[i].0@) == Some(s[i].1),
{
    lemma_name_irreflexive(s[i].0@);
    lemma_place_of(s, s[i].0@, i);
}

/// Binding a name keeps the names increasing.
pub proof fn lemma_with_entry_increases<T>(s: Seq<(String, T)>, name: String, value: T)
    requires
        names_increase(s),
    ensures
        names_increase(with_entry(s, name, value)),
{
    let k = place_of(s, name@);
    let r = with_entry(s, name, value);
    lemma_place_of_bounds(s, name@);
    if k < s.len() && s[k].0@ == name@ {
        assert forall|i: int, j: int| 0 <= i < j < r.len() implies name_precedes(
            #[trigger] r[i].0@,
            #[trigger] r[j].0@,
        ) by {
            assert(r[i].0 == s[i].0);
            assert(r[j].0 == s[j].0);
        }
    } else {
        assert forall|i: int, j: int| 0 <= i < j < r.len() implies name_precedes(
            #[trigger] r[i].0@,
            #[trigger] r[j].0@,
        ) by {
            if j < k {
                assert(r[i] == s[i] && r[j] == s[j]);
            } else if j == k {
                assert(r[i] == s[i]);
            } else if i < k {
                assert(r[i] == s[i] && r[j] == s[j - 1]);
            } else if i == k {
                assert(r[j] == s[j - 1]);
                lemma_name_total(s[k].0@, name@);
                if j - 1 > k {
                    lemma_name_transitive(name@, s[k].0@, s[j - 1].0@);
                }
            } else {
                assert(r[i] == s[i - 1] && r[j] == s[j - 1]);
            }
        }
    }
}

/// After a name has been bound, it is bound to the new value, and every other
/// name is bound as before.
pub proof fn lemma_with_entry_values<T>(
    s: Seq<(String, T)>,
    name: String,
    value: T,
    other: Seq<char>,
)
    requires
        names_increase(s),
    ensures
        value_of(with_entry(s, name, value), other) == if other == name@ {
            Some(value)
        } else {
            value_of(s, other)
        },
{
    let k = place_of(s, name@);
    let r = with_entry(s, name, value);
    lemma_place_of_bounds(s, name@);
    lemma_place_of_bounds(s, other);
    lemma_with_entry_increases(s, name, value);
    let m = place_of(s, other);
    if k < s.len() && s[k].0@ == name@ {
        assert forall|j: int| 0 <= j < m implies name_precedes(#[trigger] r[j].0@, other) by {
            assert(r[j].0 == s[j].0);
        }
        if m < s.len() {
            assert(r[m].0 == s[m].0);
        }
        lemma_place_of(r, other, m);
    } else if other == name@ {
        assert forall|j: int| 0 <= j < k implies name_precedes(#[trigger] r[j].0@, other) by {
            assert(r[j] == s[j]);
        }
        lemma_name_irreflexive(name@);
        lemma_place_of(r, other, k);
    } else if m < k {
        assert forall|j: int| 0 <= j < m implies name_precedes(#[trigger] r[j].0@, other) by {
            assert(r[j] == s[j]);
        }
        assert(r[m] == s[m]);
        lemma_place_of(r, other, m);
    } else if m == k {
        // `other` and `name` have the same place in `s` and differ.
        lemma_name_total(other, name@);
        assert forall|j: int| 0 <= j < k implies name_precedes(#[trigger] r[j].0@, other) by {
            assert(r[j] == s[j]);
        }
        if name_precedes(name@, other) {
            if m < s.len() {
                assert(r[m + 1] == s[m]);
            }
            assert forall|j: int| 0 <= j < m + 1 implies name_precedes(
                #[trigger] r[j].0@,
                other,
            ) by {}
            lemma_place_of(r, other, m + 1);
        } else {
            lemma_name_total(s[k].0@, name@);
            lemma_place_of(r, other, m);
            if m < s.len() && s[m].0@ == other {
                lemma_name_asymmetric(other, name@);
            }
        }
    } else {
        // The place of `other` lies behind that of `name`.
        assert(name_precedes(s[k].0@, other));
        lemma_name_total(s[k].0@, name@);
        lemma_name_transitive(name@, s[k].0@, other);
        assert forall|j: int| 0 <= j < m + 1 implies name_precedes(#[trigger] r[j].0@, other) by {
            if j < k {
                assert(r[j] == s[j]);
            } else if j > k {
                assert(r[j] == s[j - 1]);
            }
        }
        if m < s.len() {
            assert(r[m + 1] == s[m]);
        }
        lemma_place_of(r, other, m + 1);
    }
}

/// A map from names to values of type `T`. Its entries are kept in the
/// strictly increasing order of their names, so no name is bound twice.
#[derive(Debug, PartialEq, Eq)]
pub struct NameMap<T> {
    pub(crate) entries: Vec<(String, T)>,
}

impl<T> View for NameMap<T> {
    type V = Seq<(String, T)>;

    /// The entries, in the order of their names.
    open(crate) spec fn view(&self) -> Seq<(String, T)> {
        self.entries@
    }
}

impl<T: DeepView> DeepView for NameMap<T> {
    type V = Seq<(Seq<char>, T::V)>;

    /// The entries, in the order of their names, each name with what its
    /// value stands for.
    open(crate) spec fn deep_view(&self) -> Seq<(Seq<char>, T::V)> {
        Seq::new(self.entries@.len(), |i: int| (self.entries@[i].0@, self.entries@[i].1.deep_view()))
    }
}

impl<T> NameMap<T> {
    #[verifier::type_invariant]
    pub open(crate) spec fn ordered(&self) -> bool {
        names_increase(self.entries@)
    }

    /// A map without entries.
    pub fn new() -> (r: Self)
        ensures
            r@ == Seq::<(String, T)>::empty(),
    {
        NameMap { entries: Vec::new() }
    }

    /// The number of entries.
    pub fn len(&self) -> (n: usize)
        ensures
            n == self@.len(),
            names_increase(self@),
    {
        proof {
            use_type_invariant(self);
        }
        self.entries.len()
    }

    /// The entry at place `i` in the order of names.
    pub fn entry(&self, i: usize) -> (r: (&String, &T))
        requires
            i < self@.len(),
        ensures
            *r.0 == self@[i as int].0,
            *r.1 == self@[i as int].1,
    {
        let e = &self.entries[i];
        (&e.0, &e.1)
    }

    /// The entry whose name comes first, if there is any entry.
    pub fn first(&self) -> (r: Option<(&String, &T)>)
        ensures
            r is Some <==> self@.len() > 0,
            r matches Some(e) ==> *e.0 == self@[0].0 && *e.1 == self@[0].1,
    {
        if self.entries.len() == 0 {
            None
        } else {
            Some(self.entry(0))
        }
    }

    /// The value that `name` is bound to, if any.
    pub fn get(&self, name: &str) -> (r: Option<&T>)
        ensures
            r is Some <==> value_of(self@, name@) is Some,
            r matches Some(value) ==> Some(*value) == value_of(self@, name@),
    {
        let n = self.entries.len();
        let mut k: usize = 0;
        while k < n && precedes(self.entries[k].0.as_str(), name)
            invariant
                n == self.entries@.len(),
                k <= n,
                forall|j: int| 0 <= j < k ==> name_precedes(#[trigger] self.entries@[j].0@, name@),
            decreases n - k,
        {
            k += 1;
        }
        proof {
            lemma_place_of(self.entries@, name@, k as int);
            lemma_name_irreflexive(name@);
            if k < n {
                lemma_name_total(self.entries@[k as int].0@, name@);
            }
        }
        if k < n && !precedes(name, self.entries[k].0.as_str()) {
            Some(&self.entries[k].1)
        } else {
            None
        }
    }

    /// Binds `name` to `value`, and returns the value that it was bound to
    /// before, if any.
    pub fn insert(&mut self, name: String, value: T) -> (previous: Option<T>)
        ensures
            final(self)@ == with_entry(old(self)@, name, value),
            previous == value_of(old(self)@, name@),
            names_increase(final(self)@),
    {
        proof {
            use_type_invariant(&*self);
        }
        let n = self.entries.len();
        let mut k: usize = 0;
        while k < n && precedes(self.entries[k].0.as_str(), name.as_str())
            invariant
                n == self.entries@.len(),
                k <= n,
                self.entries@ == old(self).entries@,
                forall|j: int| 0 <= j < k ==> name_precedes(#[trigger] self.entries@[j].0@, name@),
            decreases n - k,
        {
            k += 1;
        }
        proof {
            lemma_place_of(self.entries@, name@, k as int);
            lemma_with_entry_increases(self.entries@, name, value);
        }
        let found = k < n && self.entries[k].0 == name;
        let mut entries: Vec<(String, T)> = Vec::new();
        std::mem::swap(&mut self.entries, &mut entries);
        let previous = if found {
            let mut slot = value;
            std::mem::swap(&mut entries[k].1, &mut slot);
            Some(slot)
        } else {
            entries.insert(k, (name, value));
            None
        };
        self.entries = entries;
        previous
    }
}

} // verus!
