//! Sets of ids, such as the devices or the transfers a view shows, and
//! maps keyed by text.
use vstd::prelude::*;

use crate::text::{chars_of, equals_text, string_texts};

verus! {

/// A set of ids, kept in the order they came, each once.
pub struct IdSet {
    ids: Vec<String>,
}

/// The texts of `v`, as a set.
pub open spec fn id_set(v: Seq<String>) -> Set<Seq<char>> {
    string_texts(v).to_set()
}

impl View for IdSet {
    type V = Set<Seq<char>>;

    closed spec fn view(&self) -> Set<Seq<char>> {
        id_set(self.ids@)
    }
}

impl IdSet {
    /// No id is held twice.
    pub closed spec fn well_formed(&self) -> bool {
        string_texts(self.ids@).no_duplicates()
    }

    /// The empty set.
    pub fn new() -> (r: Self)
        ensures
            r.well_formed(),
            r@ == Set::<Seq<char>>::empty(),
    {
        let r = IdSet { ids: Vec::new() };
        assert(string_texts(r.ids@) =~= Seq::<Seq<char>>::empty());
        assert(id_set(r.ids@) =~= Set::<Seq<char>>::empty());
        r
    }

    /// Whether the set is empty.
    pub fn is_empty(&self) -> (r: bool)
        ensures
            r == (self@ == Set::<Seq<char>>::empty()),
    {
        proof {
            if self.ids@.len() > 0 {
                assert(string_texts(self.ids@)[0] == self.ids@[0]@);
                assert(id_set(self.ids@).contains(self.ids@[0]@));
            } else {
                assert(id_set(self.ids@) =~= Set::<Seq<char>>::empty());
            }
        }
        self.ids.len() == 0
    }

    fn position(&self, id: &str) -> (r: Option<usize>)
        ensures
            r matches Some(i) ==> i < self.ids@.len() && self.ids@[i as int]@ == id@,
            r is None ==> !self@.contains(id@),
    {
        let target = chars_of(id);
        let mut k: usize = 0;
        while k < self.ids.len()
            invariant
                k <= self.ids@.len(),
                target@ == id@,
                forall|j: int| 0 <= j < k ==> #[trigger] self.ids@[j]@ != id@,
            decreases self.ids.len() - k,
        {
            if equals_text(&target, self.ids[k].as_str()) {
                return Some(k);
            }
            k = k + 1;
        }
        proof {
            if id_set(self.ids@).contains(id@) {
                let j = choose|j: int|
                    0 <= j < string_texts(self.ids@).len() && string_texts(self.ids@)[j] == id@;
                assert(self.ids@[j]@ == id@);
            }
        }
        None
    }

    /// Whether `id` is in the set.
    pub fn contains(&self, id: &str) -> (r: bool)
        ensures
            r == self@.contains(id@),
    {
        match self.position(id) {
            Some(i) => {
                assert(string_texts(self.ids@)[i as int] == id@);
                true
            },
            None => false,
        }
    }

    /// Adds `id`; the result tells whether it was new.
    pub fn insert(&mut self, id: &str) -> (added: bool)
        requires
            old(self).well_formed(),
        ensures
            final(self).well_formed(),
            final(self)@ == old(self)@.insert(id@),
            added == !old(self)@.contains(id@),
    {
        let ghost before = string_texts(self.ids@);
        match self.position(id) {
            Some(i) => {
                assert(before[i as int] == id@);
                assert(id_set(self.ids@).insert(id@) =~= id_set(self.ids@));
                false
            },
            None => {
                self.ids.push(id.to_owned());
                proof {
                    let after = string_texts(self.ids@);
                    assert(after =~= before.push(id@));
                    assert(id_set(self.ids@) =~= before.to_set().insert(id@)) by {
                        assert forall|x: Seq<char>| #[trigger]
                            after.contains(x) implies before.contains(x) || x == id@ by {
                            let j = choose|j: int| 0 <= j < after.len() && after[j] == x;
                            if j < before.len() {
                                assert(before[j] == x);
                            }
                        }
                        assert forall|x: Seq<char>| before.contains(x) implies #[trigger]
                            after.contains(x) by {
                            let j = choose|j: int| 0 <= j < before.len() && before[j] == x;
                            assert(after[j] == x);
                        }
                        assert(after[before.len() as int] == id@);
                    }
                }
                true
            },
        }
    }

    /// Takes `id` out; the result tells whether it was there.
    pub fn remove(&mut self, id: &str) -> (removed: bool)
        requires
            old(self).well_formed(),
        ensures
            final(self).well_formed(),
            final(self)@ == old(self)@.remove(id@),
            removed == old(self)@.contains(id@),
    {
        let ghost before = string_texts(self.ids@);
        match self.position(id) {
            Some(i) => {
                self.ids.remove(i);
                proof {
                    let after = string_texts(self.ids@);
                    assert(after =~= before.remove(i as int));
                    assert(before[i as int] == id@);
                    assert(before.no_duplicates());
                    assert forall|x: Seq<char>| #[trigger]
                        after.contains(x) implies x != id@ && before.contains(x) by {
                        let j = choose|j: int| 0 <= j < after.len() && after[j] == x;
                        if j < i {
                            assert(before[j] == x);
                            assert(before[j] != before[i as int]);
                        } else {
                            assert(before[j + 1] == x);
                            assert(before[j + 1] != before[i as int]);
                        }
                    }
                    assert forall|x: Seq<char>| before.contains(x) && x != id@ implies #[trigger]
                        after.contains(x) by {
                        let j = choose|j: int| 0 <= j < before.len() && before[j] == x;
                        if j < i {
                            assert(after[j] == x);
                        } else {
                            assert(j != i);
                            assert(after[j - 1] == x);
                        }
                    }
                    assert(id_set(self.ids@) =~= before.to_set().remove(id@));
                }
                true
            },
            None => {
                assert(id_set(self.ids@).remove(id@) =~= id_set(self.ids@));
                false
            },
        }
    }
}

/// The map that the pairs `s` stand for: each key to the value of its
/// last pair.
pub open spec fn pairs_map<V>(s: Seq<(String, V)>) -> Map<Seq<char>, V>
    decreases s.len(),
{
    if s.len() == 0 {
        Map::empty()
    } else {
        pairs_map(s.drop_last()).insert(s.last().0@, s.last().1)
    }
}

/// Pairs after position `i` with other keys than `k` do not change what
/// the pairs say of `k`.
proof fn lemma_pairs_after<V>(s: Seq<(String, V)>, i: int, k: Seq<char>)
    requires
        0 <= i <= s.len(),
        forall|j: int| i <= j < s.len() ==> #[trigger] s[j].0@ != k,
    ensures
        pairs_map(s).contains_key(k) == pairs_map(s.take(i)).contains_key(k),
        pairs_map(s).contains_key(k) ==> pairs_map(s)[k] == pairs_map(s.take(i))[k],
    decreases s.len(),
{
    if i == s.len() {
        assert(s.take(i) =~= s);
    } else {
        let d = s.drop_last();
        assert(s.last() == s[s.len() - 1]);
        lemma_pairs_after(d, i, k);
        assert(d.take(i) =~= s.take(i));
    }
}

/// Giving the last pair with key `k` a new value gives `k` that value.
proof fn lemma_pairs_update_last<V>(s: Seq<(String, V)>, i: int, e: (String, V))
    requires
        0 <= i < s.len(),
        s[i].0@ == e.0@,
        forall|j: int| i < j < s.len() ==> #[trigger] s[j].0@ != e.0@,
    ensures
        pairs_map(s.update(i, e)) == pairs_map(s).insert(e.0@, e.1),
    decreases s.len(),
{
    let u = s.update(i, e);
    if i == s.len() - 1 {
        assert(u.drop_last() =~= s.drop_last());
        assert(pairs_map(u) =~= pairs_map(s).insert(e.0@, e.1));
    } else {
        assert(u.drop_last() =~= s.drop_last().update(i, e));
        lemma_pairs_update_last(s.drop_last(), i, e);
        assert(s.last() == s[s.len() - 1]);
        assert(u.last() == s.last());
        assert(pairs_map(u) =~= pairs_map(s).insert(e.0@, e.1));
    }
}

/// A map keyed by text.
pub struct TextMap<V> {
    pairs: Vec<(String, V)>,
}

impl<V> View for TextMap<V> {
    type V = Map<Seq<char>, V>;

    closed spec fn view(&self) -> Map<Seq<char>, V> {
        pairs_map(self.pairs@)
    }
}

impl<V> TextMap<V> {
    /// The empty map.
    pub fn new() -> (r: Self)
        ensures
            r@ == Map::<Seq<char>, V>::empty(),
    {
        TextMap { pairs: Vec::new() }
    }

    fn last_position(&self, key: &str) -> (r: Option<usize>)
        ensures
            r matches Some(i) ==> i < self.pairs@.len() && self.pairs@[i as int].0@ == key@ && (
            forall|j: int| i < j < self.pairs@.len() ==> #[trigger] self.pairs@[j].0@ != key@),
            r is None ==> forall|j: int| 0 <= j < self.pairs@.len() ==> #[trigger] self.pairs@[j].0@
                != key@,
    {
        let target = chars_of(key);
        let mut k: usize = self.pairs.len();
        while k > 0
            invariant
                k <= self.pairs@.len(),
                target@ == key@,
                forall|j: int| k <= j < self.pairs@.len() ==> #[trigger] self.pairs@[j].0@ != key@,
            decreases k,
        {
            if equals_text(&target, self.pairs[k - 1].0.as_str()) {
                return Some(k - 1);
            }
            k = k - 1;
        }
        None
    }

    /// The value of `key`, if it has one.
    pub fn get(&self, key: &str) -> (r: Option<&V>)
        ensures
            r is Some <==> self@.contains_key(key@),
            r matches Some(v) ==> *v == self@[key@],
    {
        match self.last_position(key) {
            Some(i) => {
                proof {
                    let s = self.pairs@;
                    lemma_pairs_after(s, i + 1, key@);
                    assert(s.take(i + 1).drop_last() =~= s.take(i as int));
                    assert(s.take(i + 1).last() == s[i as int]);
                }
                Some(&self.pairs[i].1)
            },
            None => {
                proof {
                    lemma_pairs_after(self.pairs@, 0, key@);
                    assert(self.pairs@.take(0) =~= Seq::<(String, V)>::empty());
                }
                None
            },
        }
    }

    /// Gives `key` the value `value`.
    pub fn insert(&mut self, key: String, value: V)
        ensures
            final(self)@ == old(self)@.insert(key@, value),
    {
        match self.last_position(key.as_str()) {
            Some(i) => {
                proof {
                    lemma_pairs_update_last(self.pairs@, i as int, (key, value));
                }
                self.pairs.set(i, (key, value));
            },
            None => {
                let ghost before = self.pairs@;
                self.pairs.push((key, value));
                proof {
                    assert(self.pairs@.drop_last() =~= before);
                    assert(self.pairs@.last() == (key, value));
                }
            },
        }
    }
}

} // verus!
