//! Maps and sets keyed by text, kept in the order of their keys.
use vstd::prelude::*;
use crate::views::Faithful;
use crate::text::{
    before, before_irreflexive, before_total, before_transitive, copy_texts, is_before, same_text,
    texts,
};

verus! {

/// Keys strictly ascending: sorted, and none twice.
pub open spec fn ascending<V>(entries: Seq<(Seq<char>, V)>) -> bool {
    forall|i: int, j: int|
        0 <= i < j < entries.len() ==> before(#[trigger] entries[i].0, #[trigger] entries[j].0)
}

/// `entries` with `key` bound to `value`: an entry of that key is replaced, and a new
/// one is put where the order of keys wants it.
pub open spec fn put<V>(entries: Seq<(Seq<char>, V)>, key: Seq<char>, value: V) -> Seq<
    (Seq<char>, V),
>
    decreases entries.len(),
{
    if entries.len() == 0 {
        seq![(key, value)]
    } else if entries.last().0 == key {
        entries.drop_last().push((key, value))
    } else if before(entries.last().0, key) {
        entries.push((key, value))
    } else {
        put(entries.drop_last(), key, value).push(entries.last())
    }
}

/// The value of the first entry with the given key.
pub open spec fn lookup<V>(entries: Seq<(Seq<char>, V)>, key: Seq<char>) -> Option<V>
    decreases entries.len(),
{
    if entries.len() == 0 {
        None
    } else if entries[0].0 == key {
        Some(entries[0].1)
    } else {
        lookup(entries.drop_first(), key)
    }
}

/// `lookup` finds exactly the first entry with the key.
pub proof fn lookup_at<V>(entries: Seq<(Seq<char>, V)>, key: Seq<char>, i: int)
    requires
        0 <= i < entries.len(),
        entries[i].0 == key,
        forall|j: int| 0 <= j < i ==> (#[trigger] entries[j]).0 != key,
    ensures
        lookup(entries, key) == Some(entries[i].1),
    decreases entries.len(),
{
    if i > 0 {
        assert(entries[0].0 != key);
        assert forall|j: int| 0 <= j < i - 1 implies (#[trigger] entries.drop_first()[j]).0
            != key by {
            assert(entries[j + 1].0 != key);
        }
        lookup_at(entries.drop_first(), key, i - 1);
    }
}

/// `lookup` finds nothing where no entry has the key.
pub proof fn lookup_none<V>(entries: Seq<(Seq<char>, V)>, key: Seq<char>)
    requires
        forall|j: int| 0 <= j < entries.len() ==> (#[trigger] entries[j]).0 != key,
    ensures
        lookup(entries, key) is None,
    decreases entries.len(),
{
    if entries.len() > 0 {
        assert(entries[0].0 != key);
        assert forall|j: int| 0 <= j < entries.drop_first().len() implies (
        #[trigger] entries.drop_first()[j]).0 != key by {
            assert(entries[j + 1].0 != key);
        }
        lookup_none(entries.drop_first(), key);
    }
}

/// What `lookup` finds stands in the entries.
pub proof fn lookup_some<V>(entries: Seq<(Seq<char>, V)>, key: Seq<char>) -> (i: int)
    requires
        lookup(entries, key) is Some,
    ensures
        0 <= i < entries.len(),
        entries[i].0 == key,
        lookup(entries, key) == Some(entries[i].1),
    decreases entries.len(),
{
    if entries[0].0 == key {
        0
    } else {
        lookup_some(entries.drop_first(), key) + 1
    }
}

/// Binding a key keeps the keys ascending, and each key of the result is the bound key or one
/// from before.
pub proof fn put_ascending<V>(entries: Seq<(Seq<char>, V)>, key: Seq<char>, value: V)
    requires
        ascending(entries),
    ensures
        ascending(put(entries, key, value)),
        put(entries, key, value).len() > 0,
        before(put(entries, key, value).last().0, key) ==> false,
        forall|i: int|
            0 <= i < put(entries, key, value).len() ==> ((
            #[trigger] put(entries, key, value)[i]).0 == key || exists|j: int|
                0 <= j < entries.len() && entries[j].0 == put(entries, key, value)[i].0),
    decreases entries.len(),
{
    let result = put(entries, key, value);
    before_irreflexive(key);
    if entries.len() > 0 {
        let last = entries.last();
        let front = entries.drop_last();
        assert forall|i: int, j: int| 0 <= i < j < front.len() implies before(
            #[trigger] front[i].0,
            #[trigger] front[j].0,
        ) by {
            assert(before(entries[i].0, entries[j].0));
        }
        if last.0 == key {
            assert forall|i: int, j: int| 0 <= i < j < result.len() implies before(
                #[trigger] result[i].0,
                #[trigger] result[j].0,
            ) by {
                assert(before(entries[i].0, entries[j].0));
            }
            assert forall|i: int| 0 <= i < result.len() implies ((#[trigger] result[i]).0 == key
                || exists|j: int| 0 <= j < entries.len() && entries[j].0 == result[i].0) by {
                assert(entries[i].0 == result[i].0);
            }
        } else if before(last.0, key) {
            assert forall|i: int, j: int| 0 <= i < j < result.len() implies before(
                #[trigger] result[i].0,
                #[trigger] result[j].0,
            ) by {
                if j < entries.len() {
                    assert(before(entries[i].0, entries[j].0));
                } else if i < entries.len() - 1 {
                    assert(before(entries[i].0, last.0));
                    before_transitive(entries[i].0, last.0, key);
                }
            }
            assert forall|i: int| 0 <= i < result.len() implies ((#[trigger] result[i]).0 == key
                || exists|j: int| 0 <= j < entries.len() && entries[j].0 == result[i].0) by {
                if i < entries.len() {
                    assert(entries[i].0 == result[i].0);
                }
            }
        } else {
            before_total(last.0, key);
            put_ascending(front, key, value);
            let inner = put(front, key, value);
            assert forall|i: int| 0 <= i < inner.len() implies before(
                #[trigger] inner[i].0,
                last.0,
            ) by {
                if inner[i].0 != key {
                    let j = choose|j: int| 0 <= j < front.len() && front[j].0 == inner[i].0;
                    assert(before(entries[j].0, entries[entries.len() - 1].0));
                }
            }
            assert forall|i: int, j: int| 0 <= i < j < result.len() implies before(
                #[trigger] result[i].0,
                #[trigger] result[j].0,
            ) by {
                if j < inner.len() {
                    assert(before(inner[i].0, inner[j].0));
                } else {
                    assert(before(inner[i].0, last.0));
                }
            }
            assert forall|i: int| 0 <= i < result.len() implies ((#[trigger] result[i]).0 == key
                || exists|j: int| 0 <= j < entries.len() && entries[j].0 == result[i].0) by {
                if i < inner.len() {
                    if inner[i].0 != key {
                        let j = choose|j: int| 0 <= j < front.len() && front[j].0 == inner[i].0;
                        assert(entries[j].0 == result[i].0);
                    }
                } else {
                    assert(entries[entries.len() - 1].0 == result[i].0);
                }
            }
        }
    }
}

/// After `key` is bound to `value`, looking `key` up gives `value`, and every other key gives what
/// it gave before.
pub proof fn put_lookup<V>(entries: Seq<(Seq<char>, V)>, key: Seq<char>, value: V, other: Seq<char>)
    requires
        ascending(entries),
    ensures
        lookup(put(entries, key, value), other) == (if other == key {
            Some(value)
        } else {
            lookup(entries, other)
        }),
    decreases entries.len(),
{
    let result = put(entries, key, value);
    put_ascending(entries, key, value);
    if entries.len() == 0 {
        lookup_none(entries, other);
        lookup_none(result.drop_first(), other);
    } else {
        let last = entries.last();
        let front = entries.drop_last();
        assert(entries =~= front.push(last));
        assert(ascending(front)) by {
            assert forall|i: int, j: int| 0 <= i < j < front.len() implies before(
                #[trigger] front[i].0,
                #[trigger] front[j].0,
            ) by {
                assert(before(entries[i].0, entries[j].0));
            }
        }
        assert forall|j: int| 0 <= j < front.len() implies (#[trigger] front[j]).0 != last.0 by {
            assert(before(entries[j].0, entries[entries.len() - 1].0));
            before_irreflexive(last.0);
        }
        lookup_push(front, last, other);
        if last.0 == key {
            lookup_none(front, key);
            lookup_push(front, (key, value), other);
        } else if before(last.0, key) {
            assert forall|j: int| 0 <= j < entries.len() implies (#[trigger] entries[j]).0
                != key by {
                before_irreflexive(key);
                if j < entries.len() - 1 {
                    assert(before(entries[j].0, entries[entries.len() - 1].0));
                    before_transitive(entries[j].0, last.0, key);
                }
            }
            lookup_push(entries, (key, value), other);
            if other == key {
                lookup_none(entries, key);
            }
        } else {
            put_lookup(front, key, value, other);
            let inner = put(front, key, value);
            lookup_push(inner, last, other);
        }
    }
}

/// Looking a key up in a list to which an entry was added.
pub proof fn lookup_push<V>(entries: Seq<(Seq<char>, V)>, entry: (Seq<char>, V), key: Seq<char>)
    ensures
        lookup(entries.push(entry), key) == (match lookup(entries, key) {
            Some(v) => Some(v),
            None => if entry.0 == key {
                Some(entry.1)
            } else {
                None
            },
        }),
    decreases entries.len(),
{
    if entries.len() == 0 {
        lookup_none(entries.push(entry).drop_first(), key);
    } else {
        assert(entries.push(entry).drop_first() =~= entries.drop_first().push(entry));
        lookup_push(entries.drop_first(), entry, key);
    }
}

/// A map from text to values whose keys are kept in ascending order.
#[derive(Debug, PartialEq)]
pub struct TextMap<V> {
    entries: Vec<(String, V)>,
}

pub open spec fn entries_view<V>(entries: Seq<(String, V)>) -> Seq<(Seq<char>, V)> {
    entries.map_values(|e: (String, V)| (e.0@, e.1))
}

impl<V> View for TextMap<V> {
    type V = Seq<(Seq<char>, V)>;

    closed spec fn view(&self) -> Seq<(Seq<char>, V)> {
        entries_view(self.entries@)
    }
}

impl<V> TextMap<V> {
    #[verifier::type_invariant]
    spec fn sorted(self) -> bool {
        ascending(entries_view(self.entries@))
    }

    pub fn new() -> (r: Self)
        ensures
            r@ == Seq::<(Seq<char>, V)>::empty(),
    {
        let r = TextMap { entries: Vec::new() };
        assert(entries_view(r.entries@) =~= Seq::<(Seq<char>, V)>::empty());
        r
    }

    /// The number of entries. A map's keys are in ascending order, each once.
    pub fn len(&self) -> (r: usize)
        ensures
            r == self@.len(),
            ascending(self@),
    {
        proof {
            use_type_invariant(self);
        }
        self.entries.len()
    }

    pub fn is_empty(&self) -> (r: bool)
        ensures
            r == (self@.len() == 0),
    {
        self.entries.len() == 0
    }

    /// The key of the entry at `index`, in ascending order of the keys.
    pub fn key_at(&self, index: usize) -> (r: &String)
        requires
            index < self@.len(),
        ensures
            r@ == self@[index as int].0,
    {
        &self.entries[index].0
    }

    /// The value of the entry at `index`, in ascending order of the keys.
    pub fn value_at(&self, index: usize) -> (r: &V)
        requires
            index < self@.len(),
        ensures
            *r == self@[index as int].1,
    {
        &self.entries[index].1
    }

    fn find(&self, key: &str) -> (r: Option<usize>)
        ensures
            match r {
                Some(i) => i < self@.len() && self@[i as int].0 == key@ && lookup(self@, key@)
                    == Some(self@[i as int].1),
                None => lookup(self@, key@) is None,
            },
    {
        let mut i: usize = 0;
        while i < self.entries.len()
            invariant
                i <= self@.len(),
                self@.len() == self.entries@.len(),
                forall|j: int| 0 <= j < i ==> (#[trigger] self@[j]).0 != key@,
            decreases self@.len() - i,
        {
            if same_text(self.entries[i].0.as_str(), key) {
                proof {
                    lookup_at(self@, key@, i as int);
                }
                return Some(i);
            }
            i = i + 1;
        }
        proof {
            lookup_none(self@, key@);
        }
        None
    }

    pub fn get(&self, key: &str) -> (r: Option<&V>)
        ensures
            match r {
                Some(v) => lookup(self@, key@) == Some(*v),
                None => lookup(self@, key@) is None,
            },
    {
        match self.find(key) {
            Some(i) => Some(&self.entries[i].1),
            None => None,
        }
    }

    pub fn contains_key(&self, key: &str) -> (r: bool)
        ensures
            r == (lookup(self@, key@) is Some),
    {
        self.find(key).is_some()
    }

    /// The entries, in the order of their keys.
    pub fn into_entries(self) -> (r: Vec<(String, V)>)
        ensures
            entries_view(r@) == self@,
            ascending(entries_view(r@)),
    {
        proof {
            use_type_invariant(&self);
        }
        self.entries
    }

    /// Binds `key` to `value`, in place of what it was bound to.
    pub fn insert(&mut self, key: String, value: V)
        ensures
            final(self)@ == put(old(self)@, key@, value),
    {
        proof {
            use_type_invariant(&*self);
        }
        let mut taken: TextMap<V> = TextMap::new();
        std::mem::swap(self, &mut taken);
        let mut entries = taken.entries;
        insert_entry(&mut entries, key, value);
        proof {
            put_ascending(old(self)@, key@, value);
        }
        let mut result = TextMap { entries };
        std::mem::swap(self, &mut result);
    }

    /// The map that binding each pair in turn gives.
    pub fn from_entries(pairs: Vec<(String, V)>) -> (r: Self)
        ensures
            r@ == put_all(Seq::empty(), entries_view(pairs@)),
    {
        let ghost all = entries_view(pairs@);
        let mut map = TextMap::new();
        let mut rest = pairs;
        let mut backwards: Vec<(String, V)> = Vec::new();
        while rest.len() > 0
            invariant
                all == entries_view(rest@) + entries_view(backwards@).reverse(),
            decreases rest@.len(),
        {
            let ghost before_rest = rest@;
            let ghost before_back = backwards@;
            if let Some(entry) = rest.pop() {
                backwards.push(entry);
                proof {
                    assert(entries_view(before_rest) =~= entries_view(rest@).push((entry.0@, entry.1)));
                    assert(entries_view(backwards@).reverse() =~= seq![(entry.0@, entry.1)]
                        + entries_view(before_back).reverse());
                    assert(all =~= entries_view(rest@) + entries_view(backwards@).reverse());
                }
            }
        }
        proof {
            assert(all =~= entries_view(backwards@).reverse());
            assert(all.take(0) =~= Seq::empty());
        }
        let ghost mut done: int = 0;
        while backwards.len() > 0
            invariant
                0 <= done,
                done + backwards@.len() == all.len(),
                all.skip(done) == entries_view(backwards@).reverse(),
                map@ == put_all(Seq::empty(), all.take(done)),
            decreases backwards@.len(),
        {
            let ghost before_back = backwards@;
            if let Some((key, value)) = backwards.pop() {
                proof {
                    assert(all.skip(done)[0] == (key@, value));
                    assert(all.take(done + 1) =~= all.take(done).push((key@, value)));
                    assert(all.take(done + 1).drop_last() =~= all.take(done));
                    assert(all.skip(done + 1) =~= all.skip(done).drop_first());
                    assert(entries_view(before_back).reverse().drop_first() =~= entries_view(backwards@).reverse());
                }
                map.insert(key, value);
                proof {
                    done = done + 1;
                }
            }
        }
        proof {
            assert(all.take(done) =~= all);
        }
        map
    }
}

impl<V: Clone> Clone for TextMap<V> {
    /// A map with the same keys, each bound to a clone of its value.
    fn clone(&self) -> (r: Self)
        ensures
            r@.len() == self@.len(),
            forall|i: int|
                0 <= i < r@.len() ==> (#[trigger] r@[i]).0 == self@[i].0 && cloned(
                    self@[i].1,
                    r@[i].1,
                ),
    {
        let mut entries: Vec<(String, V)> = Vec::new();
        let mut i: usize = 0;
        proof {
            use_type_invariant(self);
        }
        while i < self.entries.len()
            invariant
                i <= self.entries@.len(),
                entries@.len() == i,
                forall|j: int|
                    0 <= j < i ==> (#[trigger] entries@[j]).0@ == self.entries@[j].0@ && cloned(
                        self.entries@[j].1,
                        entries@[j].1,
                    ),
            decreases self.entries@.len() - i,
        {
            let value: V = self.entries[i].1.clone();
            entries.push((self.entries[i].0.clone(), value));
            i = i + 1;
        }
        proof {
            assert forall|a: int, b: int| 0 <= a < b < entries_view(entries@).len() implies before(
                #[trigger] entries_view(entries@)[a].0,
                #[trigger] entries_view(entries@)[b].0,
            ) by {
                assert(entries@[a].0@ == self.entries@[a].0@);
                assert(entries@[b].0@ == self.entries@[b].0@);
                assert(before(
                    entries_view(self.entries@)[a].0,
                    entries_view(self.entries@)[b].0,
                ));
            }
        }
        let r = TextMap { entries };
        assert forall|k: int| 0 <= k < r@.len() implies (#[trigger] r@[k]).0 == self@[k].0
            && cloned(self@[k].1, r@[k].1) by {
            assert(entries@[k].0@ == self.entries@[k].0@);
        }
        r
    }
}

/// A set of texts.
#[derive(Debug, PartialEq)]
pub struct TextSet {
    items: Vec<String>,
}

impl View for TextSet {
    type V = Set<Seq<char>>;

    closed spec fn view(&self) -> Set<Seq<char>> {
        texts(self.items@).to_set()
    }
}

impl TextSet {
    pub fn new() -> (r: Self)
        ensures
            r@ == Set::<Seq<char>>::empty(),
    {
        let r = TextSet { items: Vec::new() };
        assert(r@ =~= Set::<Seq<char>>::empty());
        r
    }

    pub fn contains(&self, text: &str) -> (r: bool)
        ensures
            r == self@.contains(text@),
    {
        let mut i: usize = 0;
        while i < self.items.len()
            invariant
                i <= self.items@.len(),
                forall|j: int| 0 <= j < i ==> #[trigger] texts(self.items@)[j] != text@,
            decreases self.items@.len() - i,
        {
            if same_text(self.items[i].as_str(), text) {
                assert(texts(self.items@)[i as int] == text@);
                return true;
            }
            i = i + 1;
        }
        false
    }

    pub fn insert(&mut self, text: String)
        ensures
            final(self)@ == old(self)@.insert(text@),
    {
        let ghost before = texts(self.items@);
        let ghost added = text@;
        if self.contains(text.as_str()) {
            assert(self@ =~= self@.insert(added));
            return;
        }
        self.items.push(text);
        proof {
            assert(texts(self.items@) =~= before.push(added));
            assert forall|s: Seq<char>| before.push(added).contains(s) == (before.contains(s) || s
                == added) by {
                if before.contains(s) {
                    let i = choose|i: int| 0 <= i < before.len() && before[i] == s;
                    assert(before.push(added)[i] == s);
                }
                assert(before.push(added)[before.len() as int] == added);
            }
            assert(self@ =~= before.to_set().insert(added));
        }
    }
}

impl Clone for TextSet {
    fn clone(&self) -> (r: Self)
        ensures
            r@ == self@,
    {
        TextSet { items: copy_texts(&self.items) }
    }
}

/// What the entries of a map stand for.
pub open spec fn entry_views<T: View>(entries: Seq<(Seq<char>, T)>) -> Seq<(Seq<char>, T::V)> {
    entries.map_values(|e: (Seq<char>, T)| (e.0, e.1@))
}

pub fn copy_map<T: Faithful>(map: &TextMap<T>) -> (r: TextMap<T>)
    ensures
        entry_views(r@) == entry_views(map@),
{
    let copy = map.clone();
    proof {
        assert forall|i: int| 0 <= i < copy@.len() implies entry_views(copy@)[i] == (
        #[trigger] entry_views(map@)[i]) by {
            assert(copy@[i].0 == map@[i].0);
            map@[i].1.clone_keeps_view(&copy@[i].1);
        }
        assert(entry_views(copy@) =~= entry_views(map@));
    }
    copy
}

/// `entries` with each of `more` bound in turn.
pub open spec fn put_all<V>(entries: Seq<(Seq<char>, V)>, more: Seq<(Seq<char>, V)>) -> Seq<
    (Seq<char>, V),
>
    decreases more.len(),
{
    if more.len() == 0 {
        entries
    } else {
        put(put_all(entries, more.drop_last()), more.last().0, more.last().1)
    }
}

/// Binding the entries of a map in turn gives the map back.
pub proof fn put_all_ascending<V>(entries: Seq<(Seq<char>, V)>)
    requires
        ascending(entries),
    ensures
        put_all(Seq::empty(), entries) == entries,
    decreases entries.len(),
{
    if entries.len() > 0 {
        let front = entries.drop_last();
        assert forall|i: int, j: int| 0 <= i < j < front.len() implies before(
            #[trigger] front[i].0,
            #[trigger] front[j].0,
        ) by {
            assert(before(entries[i].0, entries[j].0));
        }
        put_all_ascending(front);
        if front.len() > 0 {
            assert(before(entries[front.len() - 1].0, entries[front.len() as int].0));
            before_irreflexive(entries.last().0);
        }
        assert(put(front, entries.last().0, entries.last().1) =~= entries);
    }
}

/// Binds `key` in a list of entries.
fn insert_entry<V>(entries: &mut Vec<(String, V)>, key: String, value: V)
    ensures
        entries_view(final(entries)@) == put(entries_view(old(entries)@), key@, value),
{
    let ghost start = entries_view(entries@);
    let ghost start_entries = entries@;
    let mut at: usize = entries.len();
    let ghost target = put(start, key@, value);
    proof {
        assert(start.take(at as int) =~= start);
        assert(start.skip(at as int) =~= Seq::empty());
        assert(target =~= put(start.take(at as int), key@, value) + start.skip(at as int));
    }
    while at > 0
        invariant
            at <= entries@.len(),
            entries@ == start_entries,
            start == entries_view(entries@),
            target == put(start.take(at as int), key@, value) + start.skip(at as int),
        ensures
            at <= entries@.len(),
            entries@ == start_entries,
            start == entries_view(entries@),
            target == put(start.take(at as int), key@, value) + start.skip(at as int),
            at > 0 ==> (start[at - 1].0 == key@ || before(start[at - 1].0, key@)),
        decreases at,
    {
        proof {
            assert(start.take(at as int).last() == start[at - 1]);
            assert(start.take(at as int).drop_last() =~= start.take(at - 1));
        }
        if same_text(entries[at - 1].0.as_str(), key.as_str()) || is_before(
            entries[at - 1].0.as_str(),
            key.as_str(),
        ) {
            break;
        }
        proof {
            assert(put(start.take(at as int), key@, value) + start.skip(at as int) =~= put(
                start.take(at - 1),
                key@,
                value,
            ) + start.skip(at - 1));
        }
        at = at - 1;
    }
    proof {
        if at > 0 {
            assert(start.take(at as int).last() == start[at - 1]);
            assert(start.take(at as int).drop_last() =~= start.take(at - 1));
        }
    }
    if at > 0 && same_text(entries[at - 1].0.as_str(), key.as_str()) {
        let ghost key_view = key@;
        entries.remove(at - 1);
        entries.insert(at - 1, (key, value));
        proof {
            assert(entries_view(entries@) =~= start.take(at - 1).push((key_view, value)) + start.skip(at as int));
        }
    } else {
        let ghost key_view = key@;
        entries.insert(at, (key, value));
        proof {
            if at == 0 {
                assert(start.take(0) =~= Seq::empty());
            }
            assert(entries_view(entries@) =~= start.take(at as int).push((key_view, value)) + start.skip(at as int));
        }
    }
}

} // verus!
