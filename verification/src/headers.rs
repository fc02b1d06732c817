//! An ordered map keyed by strings, used for HTTP request headers and for
//! the arguments of provider-defined tools.

use vstd::prelude::*;

verus! {

broadcast use vstd::string::group_string_axioms;

/// The map that a list of entries denotes: a later entry for a key wins
/// over an earlier one.
pub open spec fn entries_map<V>(entries: Seq<(Seq<char>, V)>) -> Map<Seq<char>, V>
    decreases entries.len(),
{
    if entries.len() == 0 {
        Map::empty()
    } else {
        entries_map(entries.drop_last()).insert(entries.last().0, entries.last().1)
    }
}

/// No key occurs twice among the entries.
pub open spec fn distinct_keys<V>(entries: Seq<(Seq<char>, V)>) -> bool {
    forall|i: int, j: int|
        0 <= i < entries.len() && 0 <= j < entries.len() && i != j ==> #[trigger] entries[i].0
            != #[trigger] entries[j].0
}

/// A key that no entry carries is not in the denoted map.
pub proof fn lemma_entries_map_absent<V>(s: Seq<(Seq<char>, V)>, k: Seq<char>)
    requires
        forall|i: int| 0 <= i < s.len() ==> #[trigger] s[i].0 != k,
    ensures
        !entries_map(s).contains_key(k),
    decreases s.len(),
{
    if s.len() > 0 {
        lemma_entries_map_absent(s.drop_last(), k);
    }
}

/// With distinct keys, the entry at `i` gives the map's value for its key.
proof fn lemma_entries_map_index<V>(s: Seq<(Seq<char>, V)>, i: int)
    requires
        distinct_keys(s),
        0 <= i < s.len(),
    ensures
        entries_map(s).contains_key(s[i].0),
        entries_map(s)[s[i].0] == s[i].1,
    decreases s.len(),
{
    if i < s.len() - 1 {
        let t = s.drop_last();
        assert(distinct_keys(t)) by {
            assert forall|a: int, b: int|
                0 <= a < t.len() && 0 <= b < t.len() && a != b implies #[trigger] t[a].0
                != #[trigger] t[b].0 by {
                assert(t[a] == s[a] && t[b] == s[b]);
            }
        }
        assert(t[i] == s[i]);
        lemma_entries_map_index(t, i);
        assert(s.last() == s[s.len() - 1]);
    }
}

/// Every key of the denoted map is carried by some entry.
proof fn lemma_entries_map_dom<V>(s: Seq<(Seq<char>, V)>, k: Seq<char>)
    requires
        entries_map(s).contains_key(k),
    ensures
        exists|i: int| 0 <= i < s.len() && #[trigger] s[i].0 == k,
    decreases s.len(),
{
    if s.len() > 0 && s.last().0 != k {
        lemma_entries_map_dom(s.drop_last(), k);
        let i = choose|i: int| 0 <= i < s.drop_last().len() && #[trigger] s.drop_last()[i].0 == k;
        assert(s[i].0 == k);
    } else if s.len() > 0 {
        assert(s[s.len() - 1].0 == k);
    }
}

/// Replacing the value of entry `i` replaces the value of its key.
proof fn lemma_entries_map_update<V>(s: Seq<(Seq<char>, V)>, i: int, v: V)
    requires
        distinct_keys(s),
        0 <= i < s.len(),
    ensures
        distinct_keys(s.update(i, (s[i].0, v))),
        entries_map(s.update(i, (s[i].0, v))) == entries_map(s).insert(s[i].0, v),
{
    let t = s.update(i, (s[i].0, v));
    assert(distinct_keys(t)) by {
        assert forall|a: int, b: int|
            0 <= a < t.len() && 0 <= b < t.len() && a != b implies #[trigger] t[a].0
            != #[trigger] t[b].0 by {
            assert(t[a].0 == s[a].0 && t[b].0 == s[b].0);
        }
    }
    let m1 = entries_map(t);
    let m2 = entries_map(s).insert(s[i].0, v);
    assert forall|k: Seq<char>| m1.contains_key(k) <==> m2.contains_key(k) by {
        if m1.contains_key(k) {
            lemma_entries_map_dom(t, k);
            let j = choose|j: int| 0 <= j < t.len() && #[trigger] t[j].0 == k;
            lemma_entries_map_index(s, j);
        }
        if m2.contains_key(k) && k != s[i].0 {
            lemma_entries_map_dom(s, k);
            let j = choose|j: int| 0 <= j < s.len() && #[trigger] s[j].0 == k;
            lemma_entries_map_index(t, j);
        }
        if k == s[i].0 {
            lemma_entries_map_index(t, i);
        }
    }
    assert forall|k: Seq<char>| #[trigger] m1.contains_key(k) implies m1[k] == m2[k] by {
        lemma_entries_map_dom(t, k);
        let j = choose|j: int| 0 <= j < t.len() && #[trigger] t[j].0 == k;
        lemma_entries_map_index(t, j);
        if j != i {
            lemma_entries_map_index(s, j);
        }
    }
    assert(m1 =~= m2);
}

/// Appending an entry for a new key keeps the keys distinct and adds the
/// key to the map.
proof fn lemma_entries_map_push<V>(s: Seq<(Seq<char>, V)>, k: Seq<char>, v: V)
    requires
        distinct_keys(s),
        forall|i: int| 0 <= i < s.len() ==> #[trigger] s[i].0 != k,
    ensures
        distinct_keys(s.push((k, v))),
        entries_map(s.push((k, v))) == entries_map(s).insert(k, v),
{
    let t = s.push((k, v));
    assert(t.drop_last() =~= s);
    assert(distinct_keys(t)) by {
        assert forall|a: int, b: int|
            0 <= a < t.len() && 0 <= b < t.len() && a != b implies #[trigger] t[a].0
            != #[trigger] t[b].0 by {
            if a < s.len() {
                assert(t[a] == s[a]);
            }
            if b < s.len() {
                assert(t[b] == s[b]);
            }
        }
    }
}

/// Removing the entry at `i` removes its key from the map.
proof fn lemma_entries_map_remove<V>(s: Seq<(Seq<char>, V)>, i: int)
    requires
        distinct_keys(s),
        0 <= i < s.len(),
    ensures
        distinct_keys(s.remove(i)),
        entries_map(s.remove(i)) == entries_map(s).remove(s[i].0),
{
    let t = s.remove(i);
    assert(distinct_keys(t)) by {
        assert forall|a: int, b: int|
            0 <= a < t.len() && 0 <= b < t.len() && a != b implies #[trigger] t[a].0
            != #[trigger] t[b].0 by {
            let a2 = if a < i { a } else { a + 1 };
            let b2 = if b < i { b } else { b + 1 };
            assert(t[a] == s[a2] && t[b] == s[b2]);
        }
    }
    let m1 = entries_map(t);
    let m2 = entries_map(s).remove(s[i].0);
    assert forall|k: Seq<char>| m1.contains_key(k) <==> m2.contains_key(k) by {
        if m1.contains_key(k) {
            lemma_entries_map_dom(t, k);
            let j = choose|j: int| 0 <= j < t.len() && #[trigger] t[j].0 == k;
            let j2 = if j < i { j } else { j + 1 };
            assert(t[j] == s[j2]);
            lemma_entries_map_index(s, j2);
        }
        if m2.contains_key(k) {
            lemma_entries_map_dom(s, k);
            let j = choose|j: int| 0 <= j < s.len() && #[trigger] s[j].0 == k;
            assert(j != i);
            let j2 = if j < i { j } else { j - 1 };
            assert(t[j2] == s[j]);
            lemma_entries_map_index(t, j2);
        }
    }
    assert forall|k: Seq<char>| #[trigger] m1.contains_key(k) implies m1[k] == m2[k] by {
        lemma_entries_map_dom(t, k);
        let j = choose|j: int| 0 <= j < t.len() && #[trigger] t[j].0 == k;
        let j2 = if j < i { j } else { j + 1 };
        assert(t[j] == s[j2]);
        lemma_entries_map_index(t, j);
        lemma_entries_map_index(s, j2);
    }
    assert(m1 =~= m2);
}

/// With distinct keys, the denoted map has one key per entry.
proof fn lemma_entries_map_len<V>(s: Seq<(Seq<char>, V)>)
    requires
        distinct_keys(s),
    ensures
        entries_map(s).len() == s.len(),
        entries_map(s).dom().finite(),
    decreases s.len(),
{
    if s.len() > 0 {
        let t = s.drop_last();
        assert(distinct_keys(t)) by {
            assert forall|a: int, b: int|
                0 <= a < t.len() && 0 <= b < t.len() && a != b implies #[trigger] t[a].0
                != #[trigger] t[b].0 by {
                assert(t[a] == s[a] && t[b] == s[b]);
            }
        }
        lemma_entries_map_len(t);
        assert forall|i: int| 0 <= i < t.len() implies #[trigger] t[i].0 != s.last().0 by {
            assert(t[i] == s[i]);
            assert(s.last() == s[s.len() - 1]);
        }
        lemma_entries_map_absent(t, s.last().0);
    } else {
        assert(entries_map(s).dom() =~= Set::<Seq<char>>::empty());
    }
}

/// A map from string keys to values that keeps the order in which keys were
/// first inserted. Values are described by their views.
#[derive(Debug)]
pub struct KeyedMap<V: View> {
    entries: Vec<(String, V)>,
}

/// A map from header names to header values.
pub type Headers = KeyedMap<String>;

impl<V: View> View for KeyedMap<V> {
    type V = Map<Seq<char>, V::V>;

    /// The map that the entries denote.
    closed spec fn view(&self) -> Map<Seq<char>, V::V> {
        entries_map(self.entries_view())
    }
}

impl<V: View> KeyedMap<V> {
    /// The entries as plain values.
    pub closed spec fn entries_view(&self) -> Seq<(Seq<char>, V::V)> {
        self.entries@.map_values(|e: (String, V)| (e.0@, e.1@))
    }

    /// The value of the entry at position `i`.
    pub closed spec fn value_at(&self, i: int) -> V {
        self.entries@[i].1
    }

    #[verifier::type_invariant]
    closed spec fn wf(&self) -> bool {
        distinct_keys(self.entries_view())
    }

    /// An empty map.
    pub fn new() -> (h: Self)
        ensures
            h.view() == Map::<Seq<char>, V::V>::empty(),
            h.entries_view().len() == 0,
    {
        let h = KeyedMap { entries: Vec::new() };
        assert(h.entries_view() =~= Seq::<(Seq<char>, V::V)>::empty());
        h
    }

    /// The number of keys.
    pub fn len(&self) -> (r: usize)
        ensures
            r == self.entries_view().len(),
            r == self.view().len(),
    {
        proof {
            use_type_invariant(self);
            lemma_entries_map_len(self.entries_view());
        }
        self.entries.len()
    }

    /// Whether the map holds no key.
    pub fn is_empty(&self) -> (r: bool)
        ensures
            r == (self.view().len() == 0),
            r == (self.view() == Map::<Seq<char>, V::V>::empty()),
    {
        proof {
            use_type_invariant(self);
            lemma_entries_map_len(self.entries_view());
            if self.entries_view().len() > 0 {
                lemma_entries_map_index(self.entries_view(), 0);
            }
            if self.entries_view().len() == 0 {
                assert(self.view() =~= Map::<Seq<char>, V::V>::empty());
            }
        }
        self.entries.len() == 0
    }

    /// The position of the entry whose key is `key`, if there is one.
    fn position(&self, key: &String) -> (r: Option<usize>)
        ensures
            match r {
                Some(i) => i < self.entries_view().len() && self.entries_view()[i as int].0
                    == key@,
                None => forall|i: int|
                    0 <= i < self.entries_view().len() ==> #[trigger] self.entries_view()[i].0
                        != key@,
            },
    {
        let n = self.entries.len();
        let mut i: usize = 0;
        while i < n
            invariant
                n == self.entries@.len(),
                self.entries_view().len() == n,
                i <= n,
                forall|j: int| 0 <= j < i ==> #[trigger] self.entries_view()[j].0 != key@,
            decreases n - i,
        {
            assert(self.entries_view()[i as int].0 == self.entries@[i as int].0@);
            if self.entries[i].0 == *key {
                return Some(i);
            }
            i = i + 1;
        }
        None
    }

    /// Whether `key` is present.
    pub fn contains_key(&self, key: &str) -> (r: bool)
        ensures
            r == self.view().contains_key(key@),
    {
        proof {
            use_type_invariant(self);
        }
        let k = key.to_string();
        match self.position(&k) {
            Some(i) => {
                proof {
                    lemma_entries_map_index(self.entries_view(), i as int);
                }
                true
            },
            None => {
                proof {
                    lemma_entries_map_absent(self.entries_view(), key@);
                }
                false
            },
        }
    }

    /// The value stored under `key`, if it is present.
    pub fn get(&self, key: &str) -> (r: Option<&V>)
        ensures
            match r {
                Some(v) => self.view().contains_key(key@) && v@ == self.view()[key@],
                None => !self.view().contains_key(key@),
            },
    {
        proof {
            use_type_invariant(self);
        }
        let k = key.to_string();
        match self.position(&k) {
            Some(i) => {
                proof {
                    lemma_entries_map_index(self.entries_view(), i as int);
                }
                Some(&self.entries[i].1)
            },
            None => {
                proof {
                    lemma_entries_map_absent(self.entries_view(), key@);
                }
                None
            },
        }
    }

    /// Sets `key` to `value`, replacing an earlier value; a new key goes
    /// after all keys already present.
    pub fn insert(&mut self, key: String, value: V)
        ensures
            final(self).view() == old(self).view().insert(key@, value@),
            old(self).view().contains_key(key@) ==> final(self).entries_view().len()
                == old(self).entries_view().len(),
            !old(self).view().contains_key(key@) ==> final(self).entries_view() == old(
                self,
            ).entries_view().push((key@, value@)),
    {
        proof {
            use_type_invariant(&*self);
        }
        let ghost s = self.entries_view();
        match self.position(&key) {
            Some(i) => {
                proof {
                    lemma_entries_map_update(s, i as int, value@);
                    lemma_entries_map_index(s, i as int);
                }
                let mut entries: Vec<(String, V)> = Vec::new();
                std::mem::swap(&mut entries, &mut self.entries);
                let k = entries[i].0.clone();
                let ghost vv = value@;
                entries.set(i, (k, value));
                assert(entries@.map_values(|e: (String, V)| (e.0@, e.1@)) =~= s.update(
                    i as int,
                    (s[i as int].0, vv),
                ));
                self.entries = entries;
            },
            None => {
                proof {
                    lemma_entries_map_push(s, key@, value@);
                    lemma_entries_map_absent(s, key@);
                }
                let mut entries: Vec<(String, V)> = Vec::new();
                std::mem::swap(&mut entries, &mut self.entries);
                let ghost kv = key@;
                let ghost vv = value@;
                entries.push((key, value));
                assert(entries@.map_values(|e: (String, V)| (e.0@, e.1@)) =~= s.push((kv, vv)));
                self.entries = entries;
            },
        }
    }

    /// Takes the value of `key` out of the map, if it is there.
    pub fn remove(&mut self, key: &str) -> (r: Option<V>)
        ensures
            final(self)@ == old(self)@.remove(key@),
            match r {
                Some(v) => old(self)@.contains_key(key@) && v@ == old(self)@[key@],
                None => !old(self)@.contains_key(key@),
            },
    {
        proof {
            use_type_invariant(&*self);
        }
        let ghost s = self.entries_view();
        let k = key.to_string();
        match self.position(&k) {
            Some(i) => {
                proof {
                    lemma_entries_map_remove(s, i as int);
                    lemma_entries_map_index(s, i as int);
                }
                let mut entries: Vec<(String, V)> = Vec::new();
                std::mem::swap(&mut entries, &mut self.entries);
                let ghost before = entries@;
                let (_, v) = entries.remove(i);
                assert(entries@.map_values(|e: (String, V)| (e.0@, e.1@)) =~= s.remove(i as int));
                self.entries = entries;
                Some(v)
            },
            None => {
                proof {
                    lemma_entries_map_absent(s, key@);
                }
                assert(self@ =~= self@.remove(key@));
                None
            },
        }
    }

    /// The entries in insertion order, handing them over.
    pub fn into_entries(self) -> (r: Vec<(String, V)>)
        ensures
            r@.map_values(|e: (String, V)| (e.0@, e.1@)) == self.entries_view(),
            entries_map(self.entries_view()) == self@,
            distinct_keys(self.entries_view()),
    {
        proof {
            use_type_invariant(&self);
        }
        self.entries
    }

    /// Sets every key of `other` to its value there, replacing earlier
    /// values.
    pub fn extend(&mut self, other: KeyedMap<V>)
        ensures
            final(self)@ == old(self)@.union_prefer_right(other@),
    {
        let ghost o = other@;
        let ghost start = self@;
        let entries = other.into_entries();
        let ghost ev = entries@.map_values(|e: (String, V)| (e.0@, e.1@));
        let mut rest = entries;
        let n = rest.len();
        assert(ev.subrange(0, n as int) =~= ev);
        let mut k: usize = 0;
        while k < n
            invariant
                n == ev.len(),
                k <= n,
                distinct_keys(ev),
                entries_map(ev) == o,
                rest@.map_values(|e: (String, V)| (e.0@, e.1@)) == ev.subrange(k as int, n as int),
                rest@.len() == n - k,
                self@ == start.union_prefer_right(entries_map(ev.subrange(0, k as int))),
            decreases n - k,
        {
            let ghost before = rest@;
            let (key, value) = rest.remove(0);
            assert(before[0] == (key, value));
            assert(ev[k as int] == (key@, value@)) by {
                assert(before.map_values(|e: (String, V)| (e.0@, e.1@))[0] == ev.subrange(
                    k as int,
                    n as int,
                )[0]);
            }
            let ghost bm = before.map_values(|e: (String, V)| (e.0@, e.1@));
            let ghost rm = rest@.map_values(|e: (String, V)| (e.0@, e.1@));
            assert forall|i: int| 0 <= i < rm.len() implies #[trigger] rm[i] == ev.subrange(
                k as int + 1,
                n as int,
            )[i] by {
                assert(rest@[i] == before[i + 1]);
                assert(bm[i + 1] == ev.subrange(k as int, n as int)[i + 1]);
            }
            assert(rest@.map_values(|e: (String, V)| (e.0@, e.1@)) =~= ev.subrange(
                k as int + 1,
                n as int,
            ));
            let ghost pre = ev.subrange(0, k as int);
            assert(ev.subrange(0, k as int + 1) =~= pre.push((key@, value@)));
            assert(ev.subrange(0, k as int + 1).drop_last() =~= pre);
            self.insert(key, value);
            assert(self@ =~= start.union_prefer_right(entries_map(ev.subrange(0, k as int + 1))));
            k = k + 1;
        }
        assert(ev.subrange(0, n as int) =~= ev);
    }

    /// The entries in insertion order.
    pub fn entries(&self) -> (r: &Vec<(String, V)>)
        ensures
            r@.map_values(|e: (String, V)| (e.0@, e.1@)) == self.entries_view(),
            entries_map(self.entries_view()) == self.view(),
            distinct_keys(self.entries_view()),
    {
        proof {
            use_type_invariant(self);
        }
        &self.entries
    }
}

impl<V: View + Clone> Clone for KeyedMap<V> {
    /// A copy with the same keys in the same order; each value is cloned.
    fn clone(&self) -> (r: Self)
        ensures
            r.entries_view().len() == self.entries_view().len(),
            forall|i: int|
                0 <= i < self.entries_view().len() ==> #[trigger] r.entries_view()[i].0
                    == self.entries_view()[i].0,
            forall|i: int|
                0 <= i < self.entries_view().len() ==> cloned::<V>(
                    self.value_at(i),
                    #[trigger] r.value_at(i),
                ),
    {
        proof {
            use_type_invariant(self);
        }
        let n = self.entries.len();
        let mut entries: Vec<(String, V)> = Vec::new();
        let mut i: usize = 0;
        while i < n
            invariant
                n == self.entries@.len(),
                i <= n,
                entries@.len() == i,
                forall|j: int| 0 <= j < i ==> #[trigger] entries@[j].0@ == self.entries@[j].0@,
                forall|j: int| 0 <= j < i ==> cloned::<V>(self.entries@[j].1, #[trigger] entries@[j].1),
            decreases n - i,
        {
            let k = self.entries[i].0.clone();
            let v = self.entries[i].1.clone();
            entries.push((k, v));
            i = i + 1;
        }
        let ghost ev = entries@.map_values(|e: (String, V)| (e.0@, e.1@));
        assert forall|a: int, b: int|
            0 <= a < ev.len() && 0 <= b < ev.len() && a != b implies #[trigger] ev[a].0
            != #[trigger] ev[b].0 by {
            assert(ev[a].0 == self.entries_view()[a].0);
            assert(ev[b].0 == self.entries_view()[b].0);
        }
        KeyedMap { entries }
    }
}

/// The value that the `user-agent` header gets when `suffix` is added to an
/// existing value `existing` (empty when the header is absent).
pub open spec fn user_agent_with_suffix(existing: Seq<char>, suffix: Seq<char>) -> Seq<char> {
    if existing.len() == 0 {
        suffix
    } else {
        existing + " "@ + suffix
    }
}

/// The header map that `add_user_agent_suffix` produces from `headers`.
pub open spec fn spec_add_user_agent_suffix(
    headers: Map<Seq<char>, Seq<char>>,
    suffix: Seq<char>,
) -> Map<Seq<char>, Seq<char>> {
    let existing = if headers.contains_key("user-agent"@) {
        headers["user-agent"@]
    } else {
        Seq::<char>::empty()
    };
    headers.insert("user-agent"@, user_agent_with_suffix(existing, suffix))
}

/// Appends `suffix` to the `user-agent` header, separated by a space from an
/// existing non-empty value; absent headers count as an empty map.
pub fn add_user_agent_suffix(headers: Option<Headers>, suffix: String) -> (r: Option<Headers>)
    ensures
        r is Some,
        r->0.view() == spec_add_user_agent_suffix(
            match headers {
                Some(h) => h.view(),
                None => Map::empty(),
            },
            suffix@,
        ),
{
    let mut headers = match headers {
        Some(h) => h,
        None => Headers::new(),
    };
    let existing = match headers.get("user-agent") {
        Some(v) => v.clone(),
        None => String::new(),
    };
    let new_user_agent = if existing.as_str().is_empty() {
        suffix
    } else {
        existing.concat(" ").concat(suffix.as_str())
    };
    headers.insert("user-agent".to_string(), new_user_agent);
    Some(headers)
}

} // verus!
