//! A small map from text keys to values, kept in insertion order. It stands
//! where a hash map keyed by strings would: every key occurs once.
use vstd::prelude::*;
use crate::text::str_eq;

verus! {

/// Position of the first entry at or after `from` whose key is `key`.
pub open spec fn key_index<V>(s: Seq<(Seq<char>, V)>, key: Seq<char>, from: int) -> Option<int>
    decreases s.len() - from,
{
    if from < 0 || from >= s.len() {
        None
    } else if s[from].0 == key {
        Some(from)
    } else {
        key_index(s, key, from + 1)
    }
}

/// Some entry has the key.
pub open spec fn has_key<V>(s: Seq<(Seq<char>, V)>, key: Seq<char>) -> bool {
    key_index(s, key, 0).is_some()
}

/// The value stored under the key, if any.
pub open spec fn lookup<V>(s: Seq<(Seq<char>, V)>, key: Seq<char>) -> Option<V> {
    match key_index(s, key, 0) {
        Some(i) => Some(s[i].1),
        None => None,
    }
}

/// The entries after storing `value` under `key`: an existing entry keeps its
/// place, a new one goes to the end.
pub open spec fn put<V>(s: Seq<(Seq<char>, V)>, key: Seq<char>, value: V) -> Seq<(Seq<char>, V)> {
    match key_index(s, key, 0) {
        Some(i) => s.update(i, (key, value)),
        None => s.push((key, value)),
    }
}

/// The entries without the one under `key`.
pub open spec fn without<V>(s: Seq<(Seq<char>, V)>, key: Seq<char>) -> Seq<(Seq<char>, V)> {
    match key_index(s, key, 0) {
        Some(i) => s.remove(i),
        None => s,
    }
}

/// No key occurs twice.
pub open spec fn distinct_keys<V>(s: Seq<(Seq<char>, V)>) -> bool {
    forall|i: int, j: int| 0 <= i < j < s.len() ==> s[i].0 != s[j].0
}

/// What `key_index` finds: the first position that holds the key.
pub proof fn lemma_key_index<V>(s: Seq<(Seq<char>, V)>, key: Seq<char>, from: int)
    requires
        0 <= from,
    ensures
        match key_index(s, key, from) {
            Some(i) => from <= i < s.len() && s[i].0 == key && forall|j: int|
                from <= j < i ==> s[j].0 != key,
            None => forall|j: int| from <= j < s.len() ==> s[j].0 != key,
        },
    decreases s.len() - from,
{
    if from < s.len() && s[from].0 != key {
        lemma_key_index(s, key, from + 1);
    }
}

/// A position that holds the key, with none before it, is what `key_index`
/// finds.
pub proof fn lemma_key_index_is<V>(s: Seq<(Seq<char>, V)>, key: Seq<char>, from: int, i: int)
    requires
        0 <= from <= i < s.len(),
        s[i].0 == key,
        forall|j: int| from <= j < i ==> s[j].0 != key,
    ensures
        key_index(s, key, from) == Some(i),
    decreases i - from,
{
    if from < i {
        lemma_key_index_is(s, key, from + 1, i);
    }
}

/// Without any entry under the key, `key_index` finds nothing.
pub proof fn lemma_key_index_none<V>(s: Seq<(Seq<char>, V)>, key: Seq<char>, from: int)
    requires
        0 <= from,
        forall|j: int| from <= j < s.len() ==> s[j].0 != key,
    ensures
        key_index(s, key, from).is_none(),
    decreases s.len() - from,
{
    if from < s.len() {
        lemma_key_index_none(s, key, from + 1);
    }
}

/// Storing under a key keeps the keys distinct; afterwards the key holds the
/// value and every other key holds what it held.
pub proof fn lemma_put<V>(s: Seq<(Seq<char>, V)>, key: Seq<char>, value: V)
    requires
        distinct_keys(s),
    ensures
        distinct_keys(put(s, key, value)),
        lookup(put(s, key, value), key) == Some(value),
        forall|k: Seq<char>| k != key ==> lookup(put(s, key, value), k) == lookup(s, k),
        put(s, key, value).len() == s.len() + if has_key(s, key) { 0int } else { 1int },
{
    let t = put(s, key, value);
    lemma_key_index(s, key, 0);
    match key_index(s, key, 0) {
        Some(i) => {
            lemma_key_index_is(t, key, 0, i);
        },
        None => {
            lemma_key_index_is(t, key, 0, s.len() as int);
        },
    }
    assert forall|k: Seq<char>| k != key implies lookup(t, k) == lookup(s, k) by {
        lemma_key_index(s, k, 0);
        match key_index(s, k, 0) {
            Some(i) => {
                lemma_key_index_is(t, k, 0, i);
            },
            None => {
                lemma_key_index_none(t, k, 0);
            },
        }
    }
}

/// Removing a key keeps the keys distinct; afterwards the key is absent and
/// every other key holds what it held. Removing an absent key changes nothing.
pub proof fn lemma_without<V>(s: Seq<(Seq<char>, V)>, key: Seq<char>)
    requires
        distinct_keys(s),
    ensures
        distinct_keys(without(s, key)),
        !has_key(without(s, key), key),
        forall|k: Seq<char>| k != key ==> lookup(without(s, key), k) == lookup(s, k),
        !has_key(s, key) ==> without(s, key) == s,
        without(s, key).len() == s.len() - if has_key(s, key) { 1int } else { 0int },
{
    let t = without(s, key);
    lemma_key_index(s, key, 0);
    lemma_key_index_none(t, key, 0);
    assert forall|k: Seq<char>| k != key implies lookup(t, k) == lookup(s, k) by {
        lemma_key_index(s, k, 0);
        match key_index(s, k, 0) {
            Some(i) => {
                match key_index(s, key, 0) {
                    Some(r) => {
                        if i < r {
                            lemma_key_index_is(t, k, 0, i);
                        } else {
                            lemma_key_index_is(t, k, 0, i - 1);
                        }
                    },
                    None => {},
                }
            },
            None => {
                lemma_key_index_none(t, k, 0);
            },
        }
    }
}

/// The entries among the first `n` whose mark is set, in order.
pub open spec fn selected<V>(s: Seq<(Seq<char>, V)>, marks: Seq<bool>, n: int) -> Seq<
    (Seq<char>, V),
>
    decreases n,
{
    if n <= 0 {
        Seq::<(Seq<char>, V)>::empty()
    } else if marks[n - 1] {
        selected(s, marks, n - 1).push(s[n - 1])
    } else {
        selected(s, marks, n - 1)
    }
}

/// Where an entry of a selection comes from: a marked entry of the sequence
/// selected from.
pub proof fn lemma_selected_origin<V>(
    s: Seq<(Seq<char>, V)>,
    marks: Seq<bool>,
    n: int,
    i: int,
) -> (j: int)
    requires
        0 <= n <= s.len(),
        marks.len() == s.len(),
        0 <= i < selected(s, marks, n).len(),
    ensures
        0 <= j < n,
        marks[j],
        selected(s, marks, n)[i] == s[j],
    decreases n,
{
    if marks[n - 1] && i == selected(s, marks, n - 1).len() {
        n - 1
    } else {
        lemma_selected_origin(s, marks, n - 1, i)
    }
}

/// Where a marked entry of the sequence stands in the selection.
pub proof fn lemma_selected_holds<V>(
    s: Seq<(Seq<char>, V)>,
    marks: Seq<bool>,
    n: int,
    j: int,
) -> (i: int)
    requires
        0 <= j < n <= s.len(),
        marks.len() == s.len(),
        marks[j],
    ensures
        0 <= i < selected(s, marks, n).len(),
        selected(s, marks, n)[i] == s[j],
    decreases n,
{
    if j == n - 1 {
        selected(s, marks, n - 1).len() as int
    } else {
        lemma_selected_holds(s, marks, n - 1, j)
    }
}

/// A selection of entries with distinct keys has distinct keys.
pub proof fn lemma_selected_distinct<V>(s: Seq<(Seq<char>, V)>, marks: Seq<bool>, n: int)
    requires
        0 <= n <= s.len(),
        marks.len() == s.len(),
        distinct_keys(s),
    ensures
        distinct_keys(selected(s, marks, n)),
        selected(s, marks, n).len() <= n,
    decreases n,
{
    if n > 0 {
        lemma_selected_distinct(s, marks, n - 1);
        let prev = selected(s, marks, n - 1);
        let cur = selected(s, marks, n);
        if marks[n - 1] {
            assert forall|a: int, b: int| 0 <= a < b < cur.len() implies cur[a].0 != cur[b].0 by {
                if b == prev.len() {
                    let j = lemma_selected_origin(s, marks, n - 1, a);
                    assert(s[j].0 != s[n - 1].0);
                }
            }
        }
    }
}

/// A map from text keys to values of type `V`, in insertion order.
#[derive(Debug)]
pub struct KeyedStore<V> {
    entries: Vec<(String, V)>,
}

impl<V> KeyedStore<V> {
    /// The entries, each as its key's characters and its value, in order.
    pub closed spec fn entries(&self) -> Seq<(Seq<char>, V)> {
        Seq::new(self.entries@.len(), |i: int| (self.entries@[i].0@, self.entries@[i].1))
    }

    /// Every key occurs once.
    pub open spec fn wf(&self) -> bool {
        distinct_keys(self.entries())
    }

    /// The value stored under `key`, if any.
    pub open spec fn value(&self, key: Seq<char>) -> Option<V> {
        lookup(self.entries(), key)
    }

    /// An empty store.
    pub fn new() -> (r: Self)
        ensures
            r.entries() == Seq::<(Seq<char>, V)>::empty(),
            r.wf(),
    {
        let r = KeyedStore { entries: Vec::new() };
        proof {
            assert(r.entries() =~= Seq::<(Seq<char>, V)>::empty());
        }
        r
    }

    /// Number of entries.
    pub fn len(&self) -> (r: usize)
        ensures
            r == self.entries().len(),
    {
        self.entries.len()
    }

    /// Whether the store holds nothing.
    pub fn is_empty(&self) -> (r: bool)
        ensures
            r == (self.entries().len() == 0),
    {
        self.entries.len() == 0
    }

    /// Position of the entry under `key`.
    pub fn index_of(&self, key: &str) -> (r: Option<usize>)
        ensures
            match r {
                Some(i) => key_index(self.entries(), key@, 0) == Some(i as int) && i
                    < self.entries().len() && self.entries()[i as int].0 == key@,
                None => key_index(self.entries(), key@, 0).is_none(),
            },
    {
        let mut i: usize = 0;
        while i < self.entries.len()
            invariant
                i <= self.entries.len(),
                key_index(self.entries(), key@, 0) == key_index(self.entries(), key@, i as int),
            decreases self.entries.len() - i,
        {
            if str_eq(self.entries[i].0.as_str(), key) {
                return Some(i);
            }
            i += 1;
        }
        None
    }

    /// Whether some entry is stored under `key`.
    pub fn contains_key(&self, key: &str) -> (r: bool)
        ensures
            r == has_key(self.entries(), key@),
    {
        self.index_of(key).is_some()
    }

    /// The value stored under `key`.
    pub fn get(&self, key: &str) -> (r: Option<&V>)
        ensures
            match r {
                Some(v) => self.value(key@) == Some(*v),
                None => self.value(key@).is_none(),
            },
    {
        match self.index_of(key) {
            Some(i) => Some(&self.entries[i].1),
            None => None,
        }
    }

    /// The value stored under `key`, for changing in place.
    pub fn get_mut(&mut self, key: &str) -> (r: Option<&mut V>)
        ensures
            match r {
                Some(m) => old(self).value(key@) == Some(*m) && final(self).entries() =~= put(
                    old(self).entries(),
                    key@,
                    *final(m),
                ),
                None => old(self).value(key@).is_none()
                    && final(self).entries() == old(self).entries(),
            },
    {
        match self.index_of(key) {
            Some(i) => {
                let m = &mut self.entries[i].1;
                Some(m)
            },
            None => None,
        }
    }

    /// Stores `value` under `key`, replacing what was there.
    pub fn insert(&mut self, key: String, value: V)
        ensures
            final(self).entries() == put(old(self).entries(), key@, value),
    {
        let ghost before = self.entries();
        match self.index_of(key.as_str()) {
            Some(i) => {
                self.entries[i] = (key, value);
                proof {
                    assert(self.entries() =~= before.update(i as int, (key@, value)));
                }
            },
            None => {
                self.entries.push((key, value));
                proof {
                    assert(self.entries() =~= before.push((key@, value)));
                }
            },
        }
    }

    /// Removes the entry under `key` and returns its value; an absent key
    /// changes nothing.
    pub fn remove(&mut self, key: &str) -> (r: Option<V>)
        ensures
            r == old(self).value(key@),
            final(self).entries() == without(old(self).entries(), key@),
    {
        let ghost before = self.entries();
        match self.index_of(key) {
            Some(i) => {
                let e = self.entries.remove(i);
                proof {
                    assert(self.entries() =~= before.remove(i as int));
                }
                Some(e.1)
            },
            None => None,
        }
    }

    /// Adds an entry at the end, under a key that the store does not hold
    /// yet.
    pub fn push_entry(&mut self, key: String, value: V)
        requires
            !has_key(old(self).entries(), key@),
        ensures
            final(self).entries() == old(self).entries().push((key@, value)),
            final(self).entries() == put(old(self).entries(), key@, value),
            old(self).wf() ==> final(self).wf(),
    {
        let ghost before = self.entries();
        self.entries.push((key, value));
        proof {
            assert(self.entries() =~= before.push((key@, value)));
            if distinct_keys(before) {
                lemma_put(before, key@, value);
            }
        }
    }

    /// Keeps the entries whose mark is set and drops the others.
    pub fn retain_marked(&mut self, marks: &Vec<bool>)
        requires
            marks.len() == old(self).entries().len(),
        ensures
            final(self).entries() == selected(
                old(self).entries(),
                marks@,
                old(self).entries().len() as int,
            ),
    {
        let ghost orig = self.entries();
        let n = marks.len();
        let mut k: usize = 0;
        let mut i: usize = 0;
        proof {
            assert(self.entries() =~= selected(orig, marks@, 0) + orig.subrange(0, n as int));
        }
        while k < n
            invariant
                k <= n,
                n == orig.len(),
                n == marks.len(),
                i == selected(orig, marks@, k as int).len(),
                i <= k,
                self.entries@.len() == i + (n - k),
                self.entries() == selected(orig, marks@, k as int) + orig.subrange(
                    k as int,
                    n as int,
                ),
            decreases n - k,
        {
            let ghost before = self.entries();
            if marks[k] {
                i += 1;
            } else {
                self.entries.remove(i);
                proof {
                    assert(self.entries() =~= before.remove(i as int));
                }
            }
            k += 1;
            proof {
                assert(self.entries() =~= selected(orig, marks@, k as int) + orig.subrange(
                    k as int,
                    n as int,
                ));
            }
        }
        proof {
            assert(self.entries() =~= selected(orig, marks@, n as int));
        }
    }

    /// The key of the entry at position `i`.
    pub fn key_at(&self, i: usize) -> (r: &String)
        requires
            i < self.entries().len(),
        ensures
            r@ == self.entries()[i as int].0,
    {
        &self.entries[i].0
    }

    /// The value of the entry at position `i`.
    pub fn value_at(&self, i: usize) -> (r: &V)
        requires
            i < self.entries().len(),
        ensures
            *r == self.entries()[i as int].1,
    {
        &self.entries[i].1
    }

    /// The value of the entry at position `i`, for changing in place.
    pub fn value_at_mut(&mut self, i: usize) -> (r: &mut V)
        requires
            i < old(self).entries().len(),
        ensures
            *r == old(self).entries()[i as int].1,
            final(self).entries() =~= old(self).entries().update(
                i as int,
                (old(self).entries()[i as int].0, *final(r)),
            ),
    {
        &mut self.entries[i].1
    }

    /// Removes the entry at position `i`.
    pub fn remove_at(&mut self, i: usize) -> (r: V)
        requires
            i < old(self).entries().len(),
        ensures
            r == old(self).entries()[i as int].1,
            final(self).entries() == old(self).entries().remove(i as int),
    {
        let ghost before = self.entries();
        let e = self.entries.remove(i);
        proof {
            assert(self.entries() =~= before.remove(i as int));
        }
        e.1
    }

    /// Replaces the value of the entry at position `i`.
    pub fn set_value_at(&mut self, i: usize, value: V)
        requires
            i < old(self).entries().len(),
        ensures
            final(self).entries() == old(self).entries().update(
                i as int,
                (old(self).entries()[i as int].0, value),
            ),
    {
        let ghost before = self.entries();
        self.entries[i].1 = value;
        proof {
            assert(self.entries() =~= before.update(i as int, (before[i as int].0, value)));
        }
    }
}

impl<V> Default for KeyedStore<V> {
    fn default() -> (r: Self)
        ensures
            r.entries() == Seq::<(Seq<char>, V)>::empty(),
            r.wf(),
    {
        Self::new()
    }
}

/// A map from text to text.
pub type StringMap = KeyedStore<String>;

/// The entries of a text map with each value as its characters.
pub open spec fn text_entries(s: Seq<(Seq<char>, String)>) -> Seq<(Seq<char>, Seq<char>)> {
    Seq::new(s.len(), |i: int| (s[i].0, s[i].1@))
}

/// Looking a key up sees the keys only, not what kind of values they hold.
pub proof fn lemma_text_entries_index(s: Seq<(Seq<char>, String)>, key: Seq<char>, from: int)
    requires
        0 <= from,
    ensures
        key_index(text_entries(s), key, from) == key_index(s, key, from),
    decreases s.len() - from,
{
    if from < s.len() && s[from].0 != key {
        lemma_text_entries_index(s, key, from + 1);
    }
}

/// Storing a string and then reading the values as characters is storing
/// its characters.
pub proof fn lemma_text_entries_put(s: Seq<(Seq<char>, String)>, key: Seq<char>, value: String)
    ensures
        text_entries(put(s, key, value)) == put(text_entries(s), key, value@),
{
    lemma_text_entries_index(s, key, 0);
    lemma_key_index(s, key, 0);
    assert(text_entries(put(s, key, value)) =~= put(text_entries(s), key, value@));
}

/// One store is a copy of another: the same keys in the same order, and
/// under each key a clone of the value.
pub open spec fn is_copy<V: Clone>(a: Seq<(Seq<char>, V)>, b: Seq<(Seq<char>, V)>) -> bool {
    &&& a.len() == b.len()
    &&& forall|i: int| 0 <= i < a.len() ==> a[i].0 == (#[trigger] b[i]).0 && cloned(a[i].1, b[i].1)
}

impl<V: Clone> Clone for KeyedStore<V> {
    fn clone(&self) -> (r: Self)
        ensures
            is_copy(self.entries(), r.entries()),
            self.wf() ==> r.wf(),
    {
        let mut entries: Vec<(String, V)> = Vec::new();
        let mut i: usize = 0;
        while i < self.entries.len()
            invariant
                i <= self.entries.len(),
                entries.len() == i,
                forall|j: int|
                    0 <= j < i ==> (#[trigger] entries[j]).0@ == self.entries[j].0@ && cloned(
                        self.entries[j].1,
                        entries[j].1,
                    ),
            decreases self.entries.len() - i,
        {
            let key = self.entries[i].0.clone();
            let value = self.entries[i].1.clone();
            entries.push((key, value));
            i += 1;
        }
        let r = KeyedStore { entries };
        proof {
            assert forall|j: int| 0 <= j < self.entries().len() implies self.entries()[j].0 == (
            #[trigger] r.entries()[j]).0 && cloned(self.entries()[j].1, r.entries()[j].1) by {
                assert(r.entries()[j] == (r.entries@[j].0@, r.entries@[j].1));
            }
            if self.wf() {
                assert forall|a: int, b: int| 0 <= a < b < r.entries().len() implies r.entries()[a].0
                    != r.entries()[b].0 by {
                    assert(r.entries()[a].0 == self.entries()[a].0);
                    assert(r.entries()[b].0 == self.entries()[b].0);
                }
            }
        }
        r
    }
}

impl KeyedStore<String> {
    /// A copy with the same entries.
    pub fn duplicate(&self) -> (r: Self)
        ensures
            r.entries() == self.entries(),
    {
        let mut entries: Vec<(String, String)> = Vec::new();
        let mut i: usize = 0;
        while i < self.entries.len()
            invariant
                i <= self.entries.len(),
                entries.len() == i,
                forall|j: int|
                    0 <= j < i ==> entries[j].0@ == self.entries[j].0@ && entries[j].1
                        == self.entries[j].1,
            decreases self.entries.len() - i,
        {
            entries.push((self.entries[i].0.clone(), self.entries[i].1.clone()));
            i += 1;
        }
        let r = KeyedStore { entries };
        proof {
            assert(r.entries() =~= self.entries());
        }
        r
    }
}

} // verus!
