//! Maps keyed by text and walked in the order of their keys.

use crate::text::Text;
use vstd::prelude::*;

verus! {

/// Whether one text comes before another, character by character in code point
/// order, a prefix before what it is a prefix of.
pub open spec fn text_less(left: Text, right: Text) -> bool
    decreases left.len(),
{
    if right.len() == 0 {
        false
    } else if left.len() == 0 {
        true
    } else if left[0] == right[0] {
        text_less(left.skip(1), right.skip(1))
    } else {
        (left[0] as int) < (right[0] as int)
    }
}

/// No text comes before itself.
pub proof fn lemma_less_irreflexive(text: Text)
    ensures
        !text_less(text, text),
    decreases text.len(),
{
    if text.len() > 0 {
        lemma_less_irreflexive(text.skip(1));
    }
}

/// The order is transitive.
pub proof fn lemma_less_transitive(first: Text, second: Text, third: Text)
    requires
        text_less(first, second),
        text_less(second, third),
    ensures
        text_less(first, third),
    decreases first.len(),
{
    if first.len() > 0 && first[0] == second[0] && second[0] == third[0] {
        lemma_less_transitive(first.skip(1), second.skip(1), third.skip(1));
    }
}

/// Of two different texts, one comes before the other.
pub proof fn lemma_less_total(left: Text, right: Text)
    ensures
        left == right || text_less(left, right) || text_less(right, left),
    decreases left.len(),
{
    if left.len() == 0 || right.len() == 0 {
        if left.len() == 0 && right.len() == 0 {
            assert(left =~= right);
        }
    } else if left[0] == right[0] {
        lemma_less_total(left.skip(1), right.skip(1));
        if left.skip(1) == right.skip(1) {
            assert forall|i: int| 0 <= i < left.len() implies left[i] == right[i] by {
                if i > 0 {
                    assert(left.skip(1)[i - 1] == right.skip(1)[i - 1]);
                }
            }
            assert(left.len() == left.skip(1).len() + 1);
            assert(right.len() == right.skip(1).len() + 1);
            assert(left =~= right);
        }
        assert(text_less(right, left) == text_less(right.skip(1), left.skip(1)));
    } else {
        assert(text_less(right, left) == ((right[0] as int) < (left[0] as int)));
    }
}

/// The first character in which two texts differ decides, by its code point;
/// where there is none, the shorter text comes first.
pub proof fn law_the_first_difference_decides(
    common: Text,
    left: char,
    right: char,
    left_rest: Text,
    right_rest: Text,
)
    requires
        left != right,
    ensures
        text_less(common + seq![left] + left_rest, common + seq![right] + right_rest) <==> (
        left as u32) < (right as u32),
        text_less(common, common + seq![left] + left_rest),
        !text_less(common + seq![left] + left_rest, common),
    decreases common.len(),
{
    let first = common + seq![left] + left_rest;
    let second = common + seq![right] + right_rest;
    if common.len() > 0 {
        let shorter = common.skip(1);
        assert(first.skip(1) =~= shorter + seq![left] + left_rest);
        assert(second.skip(1) =~= shorter + seq![right] + right_rest);
        law_the_first_difference_decides(shorter, left, right, left_rest, right_rest);
    }
}

/// Whether one text comes before another.
pub fn less(left: &str, right: &str) -> (before: bool)
    ensures
        before == text_less(left@, right@),
{
    let ghost a = left@;
    let ghost b = right@;
    let left_len: usize = left.unicode_len();
    let right_len: usize = right.unicode_len();
    let mut i: usize = 0;
    assert(a.skip(0) =~= a);
    assert(b.skip(0) =~= b);
    loop
        invariant
            a == left@,
            b == right@,
            left_len == a.len(),
            right_len == b.len(),
            i <= left_len,
            i <= right_len,
            text_less(a, b) == text_less(a.skip(i as int), b.skip(i as int)),
        decreases left_len - i,
    {
        if i == right_len {
            return false;
        }
        if i == left_len {
            return true;
        }
        let l: char = left.get_char(i);
        let r: char = right.get_char(i);
        assert(a.skip(i as int)[0] == l);
        assert(b.skip(i as int)[0] == r);
        if l != r {
            return (l as u32) < (r as u32);
        }
        assert(a.skip(i as int).skip(1) =~= a.skip(i + 1));
        assert(b.skip(i as int).skip(1) =~= b.skip(i + 1));
        i = i + 1;
    }
}

/// One entry of an ordered map.
#[derive(Debug, PartialEq, Eq)]
pub struct Pair<V> {
    /// The key.
    pub key: String,
    /// The value.
    pub value: V,
}

/// A map from text to values, kept in the order of its keys.
#[derive(Debug, PartialEq, Eq)]
pub struct OrderedMap<V> {
    pairs: Vec<Pair<V>>,
}

/// Whether a key is in a set, picked, and before every other picked key of it.
pub open spec fn is_least(keys: Set<Text>, picks: spec_fn(Text) -> bool, key: Text) -> bool {
    keys.contains(key) && picks(key) && forall|other: Text|
        #[trigger] keys.contains(other) && picks(other) ==> other == key || text_less(key, other)
}

/// The least picked key of a set.
pub open spec fn least_key(keys: Set<Text>, picks: spec_fn(Text) -> bool) -> Option<Text> {
    if exists|key: Text| #[trigger] is_least(keys, picks, key) {
        Some(choose|key: Text| #[trigger] is_least(keys, picks, key))
    } else {
        None
    }
}

/// The least picked key is the one before every other picked key.
pub proof fn lemma_least_is(keys: Set<Text>, picks: spec_fn(Text) -> bool, key: Text)
    requires
        is_least(keys, picks, key),
    ensures
        least_key(keys, picks) == Some(key),
{
    let chosen = choose|key: Text| #[trigger] is_least(keys, picks, key);
    assert(is_least(keys, picks, chosen));
    if chosen != key {
        assert(text_less(chosen, key));
        assert(text_less(key, chosen));
        lemma_less_transitive(chosen, key, chosen);
        lemma_less_irreflexive(chosen);
    }
}

impl<V> OrderedMap<V> {
    spec fn has(self, key: Text) -> bool {
        exists|i: int| 0 <= i < self.pairs@.len() && (#[trigger] self.pairs@[i]).key@ == key
    }

    spec fn place(self, key: Text) -> int {
        choose|i: int| 0 <= i < self.pairs@.len() && (#[trigger] self.pairs@[i]).key@ == key
    }

    /// The map's contents.
    pub closed spec fn contents(self) -> Map<Text, V> {
        Map::new(|key: Text| self.has(key), |key: Text| self.pairs@[self.place(key)].value)
    }

    /// The keys ascend, so none occurs twice.
    pub closed spec fn wf(self) -> bool {
        forall|i: int, j: int|
            0 <= i < j < self.pairs@.len() ==> text_less(
                (#[trigger] self.pairs@[i]).key@,
                (#[trigger] self.pairs@[j]).key@,
            )
    }

    proof fn lemma_at(self, i: int)
        requires
            self.wf(),
            0 <= i < self.pairs@.len(),
        ensures
            self.contents().dom().contains(self.pairs@[i].key@),
            self.contents()[self.pairs@[i].key@] == self.pairs@[i].value,
    {
        let key = self.pairs@[i].key@;
        let place = self.place(key);
        assert(self.pairs@[place].key@ == key);
        lemma_less_irreflexive(key);
        if place < i {
            assert(text_less(self.pairs@[place].key@, self.pairs@[i].key@));
        } else if i < place {
            assert(text_less(self.pairs@[i].key@, self.pairs@[place].key@));
        }
    }

    /// Walking the places of the map meets its keys in ascending order, each
    /// once: a key is mapped exactly when some place holds it.
    pub proof fn law_keys_ascend_by_place(self)
        requires
            self.wf(),
        ensures
            forall|i: int, j: int|
                0 <= i < j < self.count() ==> text_less(
                    #[trigger] self.key_at(i),
                    #[trigger] self.key_at(j),
                ),
            forall|key: Text| #[trigger]
                self.contents().dom().contains(key) <==> exists|place: int|
                    0 <= place < self.count() && #[trigger] self.key_at(place) == key,
    {
        assert forall|key: Text| #[trigger]
            self.contents().dom().contains(key) <==> exists|place: int|
                0 <= place < self.count() && #[trigger] self.key_at(place) == key by {
            if self.has(key) {
                assert(self.key_at(self.place(key)) == key);
            }
            if exists|place: int|
                0 <= place < self.count() && #[trigger] self.key_at(place) == key {
                let place = choose|place: int|
                    0 <= place < self.count() && #[trigger] self.key_at(place) == key;
                self.lemma_at(place);
            }
        }
    }

    /// An empty map.
    pub fn new() -> (map: OrderedMap<V>)
        ensures
            map.wf(),
            map.contents() == Map::<Text, V>::empty(),
            map.count() == 0,
    {
        let map = OrderedMap { pairs: Vec::new() };
        assert(map.contents() =~= Map::<Text, V>::empty());
        map
    }

    /// How many keys there are.
    pub closed spec fn count(self) -> nat {
        self.pairs@.len()
    }

    /// How many keys there are.
    pub fn len(&self) -> (count: usize)
        ensures
            count == self.count(),
    {
        self.pairs.len()
    }

    /// Whether there are no keys.
    pub fn is_empty(&self) -> (empty: bool)
        requires
            self.wf(),
        ensures
            empty <==> self.contents() == Map::<Text, V>::empty(),
            empty <==> self.count() == 0,
    {
        if self.pairs.len() == 0 {
            assert(self.contents() =~= Map::<Text, V>::empty());
            true
        } else {
            proof {
                self.lemma_at(0);
            }
            false
        }
    }

    /// The pair at a place, in the order of keys.
    pub fn at(&self, place: usize) -> (pair: &Pair<V>)
        requires
            self.wf(),
            place < self.count(),
        ensures
            pair.key@ == self.key_at(place as int),
            self.contents().dom().contains(pair.key@),
            self.contents()[pair.key@] == pair.value,
    {
        proof {
            self.lemma_at(place as int);
        }
        &self.pairs[place]
    }

    /// Map a key to a value, replacing the one it had.
    pub fn insert(&mut self, key: String, value: V)
        requires
            old(self).wf(),
        ensures
            final(self).wf(),
            final(self).contents() == old(self).contents().insert(key@, value),
            final(self).count() == old(self).count() + if old(self).contents().dom().contains(
                key@,
            ) {
                0int
            } else {
                1
            },
    {
        let ghost before = *self;
        let mut at: usize = 0;
        while at < self.pairs.len() && less(self.pairs[at].key.as_str(), key.as_str())
            invariant
                *self == before,
                before.wf(),
                at <= self.pairs@.len(),
                forall|i: int| 0 <= i < at ==> text_less((#[trigger] self.pairs@[i]).key@, key@),
            ensures
                *self == before,
                at <= self.pairs@.len(),
                forall|i: int| 0 <= i < at ==> text_less((#[trigger] self.pairs@[i]).key@, key@),
                at < self.pairs@.len() ==> !text_less(self.pairs@[at as int].key@, key@),
            decreases self.pairs@.len() - at,
        {
            at = at + 1;
        }
        let ghost id = key@;
        let replaces: bool = at < self.pairs.len() && self.pairs[at].key == key;
        let pair = Pair { key, value };
        if replaces {
            self.pairs.set(at, pair);
            proof {
                let after = *self;
                before.lemma_at(at as int);
                assert(after.wf()) by {
                    assert forall|i: int, j: int| 0 <= i < j < after.pairs@.len() implies text_less(
                        (#[trigger] after.pairs@[i]).key@,
                        (#[trigger] after.pairs@[j]).key@,
                    ) by {
                        assert(text_less(before.pairs@[i].key@, before.pairs@[j].key@));
                    }
                }
                assert forall|k: Text| #[trigger]
                    after.contents().dom().contains(k) <==> before.contents().dom().contains(k)
                        || k == id by {
                    if after.has(k) {
                        before.lemma_at(after.place(k));
                    }
                    if before.has(k) {
                        after.lemma_at(before.place(k));
                    }
                    if k == id {
                        after.lemma_at(at as int);
                    }
                }
                assert forall|k: Text| #[trigger]
                    after.contents().dom().contains(k) implies after.contents()[k]
                    == before.contents().insert(id, value)[k] by {
                    let i = after.place(k);
                    after.lemma_at(i);
                    before.lemma_at(i);
                    if k == id {
                        after.lemma_at(at as int);
                    }
                }
                assert(after.contents() =~= before.contents().insert(id, value));
            }
        } else {
            self.pairs.insert(at, pair);
            proof {
                let after = *self;
                let shift = |i: int|
                    if i < at {
                        i
                    } else {
                        i - 1
                    };
                assert forall|i: int| 0 <= i < after.pairs@.len() && i != at implies #[trigger]
                    after.pairs@[i] == before.pairs@[shift(i)] by {}
                assert forall|i: int| at <= i < before.pairs@.len() implies text_less(
                    id,
                    (#[trigger] before.pairs@[i]).key@,
                ) by {
                    lemma_less_total(before.pairs@[at as int].key@, id);
                    if i > at {
                        assert(text_less(before.pairs@[at as int].key@, before.pairs@[i].key@));
                        lemma_less_transitive(
                            id,
                            before.pairs@[at as int].key@,
                            before.pairs@[i].key@,
                        );
                    }
                }
                assert(!before.has(id)) by {
                    if before.has(id) {
                        lemma_less_irreflexive(id);
                        let i = before.place(id);
                        assert(before.pairs@[i].key@ == id);
                    }
                }
                assert(after.wf()) by {
                    assert forall|i: int, j: int| 0 <= i < j < after.pairs@.len() implies text_less(
                        (#[trigger] after.pairs@[i]).key@,
                        (#[trigger] after.pairs@[j]).key@,
                    ) by {
                        if i != at {
                            assert(after.pairs@[i] == before.pairs@[shift(i)]);
                        }
                        if j != at {
                            assert(after.pairs@[j] == before.pairs@[shift(j)]);
                        }
                    }
                }
                assert forall|k: Text| #[trigger]
                    after.contents().dom().contains(k) <==> before.contents().dom().contains(k)
                        || k == id by {
                    if after.has(k) && k != id {
                        let i = after.place(k);
                        assert(after.pairs@[i] == before.pairs@[shift(i)]);
                        before.lemma_at(shift(i));
                    }
                    if before.has(k) {
                        let i = before.place(k);
                        let moved = if i < at {
                            i
                        } else {
                            i + 1
                        };
                        assert(after.pairs@[moved] == before.pairs@[shift(moved)]);
                        after.lemma_at(moved);
                    }
                    if k == id {
                        after.lemma_at(at as int);
                    }
                }
                assert forall|k: Text| #[trigger]
                    after.contents().dom().contains(k) implies after.contents()[k]
                    == before.contents().insert(id, value)[k] by {
                    if k == id {
                        after.lemma_at(at as int);
                    } else {
                        let i = after.place(k);
                        assert(after.pairs@[i].key@ == k);
                        assert(after.pairs@[i] == before.pairs@[shift(i)]);
                        after.lemma_at(i);
                        before.lemma_at(shift(i));
                    }
                }
                assert(after.contents() =~= before.contents().insert(id, value));
            }
        }
    }

    /// The least key a predicate picks, when it picks any.
    pub proof fn lemma_first_picked(self, picks: spec_fn(Text) -> bool, at: int)
        requires
            self.wf(),
            0 <= at <= self.count(),
            forall|i: int| 0 <= i < at ==> !picks(#[trigger] self.key_at(i)),
            at < self.count() ==> picks(self.key_at(at)),
        ensures
            at < self.count() ==> least_key(self.contents().dom(), picks) == Some(
                self.key_at(at),
            ),
            at == self.count() ==> least_key(self.contents().dom(), picks) is None,
    {
        let keys = self.contents().dom();
        if at < self.count() {
            self.lemma_at(at);
            assert forall|other: Text| #[trigger]
                keys.contains(other) && picks(other) implies other == self.key_at(at) || text_less(
                self.key_at(at),
                other,
            ) by {
                let i = self.place(other);
                assert(self.key_at(i) == other);
                if i > at {
                    assert(text_less(self.pairs@[at].key@, self.pairs@[i].key@));
                }
            }
            lemma_least_is(keys, picks, self.key_at(at));
        } else {
            assert forall|key: Text| !#[trigger] is_least(keys, picks, key) by {
                if keys.contains(key) {
                    assert(self.key_at(self.place(key)) == key);
                }
            }
        }
    }

    /// The key at a place, in the order of keys.
    pub closed spec fn key_at(self, place: int) -> Text {
        self.pairs@[place].key@
    }

    /// The key at a place, in the order of keys.
    pub fn key(&self, place: usize) -> (key: &String)
        requires
            place < self.count(),
        ensures
            key@ == self.key_at(place as int),
    {
        &self.pairs[place].key
    }
}

} // verus!
