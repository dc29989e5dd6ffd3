//! The keyed hash container.
//!
//! A hash maps text keys (unique) to child nodes. Entries are stored in
//! insertion order, which makes rendering deterministic, but the model of a
//! hash is an unordered map: equality of hashes is independent of entry
//! order, and callers must not rely on any particular iteration order.

use vstd::prelude::*;
use vstd::string::StringExecFns;
use crate::items::{ContainerKey, ItemError, ItemType, ItemV};

verus! {

broadcast use vstd::map::group_map_axioms, vstd::set::group_set_axioms;

/// The keys of an entry sequence, in entry order.
pub open spec fn keys_of(s: Seq<(String, ItemType)>) -> Seq<Seq<char>>
    decreases s,
{
    if s.len() == 0 {
        Seq::empty()
    } else {
        keys_of(s.drop_last()).push(s.last().0@)
    }
}

/// `keys_of` is the pointwise key text of the sequence.
pub proof fn lemma_keys_of(s: Seq<(String, ItemType)>)
    ensures
        keys_of(s).len() == s.len(),
        forall|i: int| 0 <= i < s.len() ==> keys_of(s)[i] == #[trigger] s[i].0@,
    decreases s,
{
    if s.len() > 0 {
        lemma_keys_of(s.drop_last());
        assert forall|i: int| 0 <= i < s.len() implies keys_of(s)[i] == #[trigger] s[i].0@ by {
            if i < s.len() - 1 {
                assert(s.drop_last()[i] == s[i]);
            } else {
                assert(s[i] == s.last());
            }
        }
    }
}

/// Pairwise distinctness of the keys of an entry sequence.
pub open spec fn unique_keys(s: Seq<(String, ItemType)>) -> bool {
    forall|i: int, j: int|
        0 <= i < s.len() && 0 <= j < s.len() && i != j ==> (#[trigger] s[i].0@) != (
        #[trigger] s[j].0@)
}

/// The map modelled by an entry sequence; on duplicate keys the later entry
/// wins (well-formed hashes have no duplicates).
pub open spec fn map_of_entries(s: Seq<(String, ItemType)>) -> Map<Seq<char>, ItemV>
    decreases s,
{
    if s.len() == 0 {
        Map::empty()
    } else {
        map_of_entries(s.drop_last()).insert(s.last().0@, s.last().1.item_view())
    }
}

/// Well-formedness of the values of an entry sequence.
pub open spec fn values_wf(s: Seq<(String, ItemType)>) -> bool
    decreases s,
{
    if s.len() == 0 {
        true
    } else {
        values_wf(s.drop_last()) && s.last().1.wf()
    }
}

/// The debug rendering of an entry sequence: `"k1":v1,"k2":v2,...` with the
/// keys quoted but not escaped.
pub open spec fn render_entries(s: Seq<(String, ItemType)>) -> Seq<char>
    decreases s,
{
    if s.len() == 0 {
        Seq::empty()
    } else if s.len() == 1 {
        render_entry(s.last())
    } else {
        render_entries(s.drop_last()) + ","@ + render_entry(s.last())
    }
}

/// The debug rendering of one entry: the quoted key, a colon, the value.
pub open spec fn render_entry(e: (String, ItemType)) -> Seq<char>
    decreases e,
{
    "\""@ + e.0@ + "\":"@ + e.1.spec_render()
}

/// The order that an insert-or-replace leaves the keys in: a fresh key is
/// appended, an existing key keeps its position.
pub open spec fn insert_key_order(ks: Seq<Seq<char>>, k: Seq<char>) -> Seq<Seq<char>> {
    if ks.contains(k) {
        ks
    } else {
        ks.push(k)
    }
}

/// The modelled map contains exactly the keys of the entry sequence, and its
/// domain is finite.
pub proof fn lemma_entries_contains(s: Seq<(String, ItemType)>)
    ensures
        map_of_entries(s).dom().finite(),
        forall|k: Seq<char>|
            #[trigger] map_of_entries(s).contains_key(k) <==> exists|i: int|
                0 <= i < s.len() && (#[trigger] s[i].0@) == k,
    decreases s,
{
    if s.len() > 0 {
        lemma_entries_contains(s.drop_last());
        assert forall|k: Seq<char>| #[trigger]
            map_of_entries(s).contains_key(k) implies exists|i: int|
            0 <= i < s.len() && (#[trigger] s[i].0@) == k by {
            if k == s.last().0@ {
                assert(s[s.len() - 1].0@ == k);
            } else {
                let i = choose|i: int| 0 <= i < s.drop_last().len() && (#[trigger] s.drop_last()[
                    i].0@) == k;
                assert(s[i].0@ == k);
            }
        }
        assert forall|k: Seq<char>|
            (exists|i: int| 0 <= i < s.len() && (#[trigger] s[i].0@) == k) implies #[trigger]
            map_of_entries(s).contains_key(k) by {
            let i = choose|i: int| 0 <= i < s.len() && (#[trigger] s[i].0@) == k;
            if i < s.len() - 1 {
                assert(s.drop_last()[i].0@ == k);
            }
        }
    }
}

/// With unique keys, the modelled map sends each entry's key to that entry's
/// value.
pub proof fn lemma_entries_at(s: Seq<(String, ItemType)>, i: int)
    requires
        unique_keys(s),
        0 <= i < s.len(),
    ensures
        map_of_entries(s).contains_key(s[i].0@),
        map_of_entries(s)[s[i].0@] == s[i].1@,
    decreases s,
{
    lemma_entries_contains(s);
    if i < s.len() - 1 {
        assert(unique_keys(s.drop_last())) by {
            assert(forall|a: int, b: int|
                0 <= a < s.drop_last().len() && 0 <= b < s.drop_last().len() && a != b
                    ==> (#[trigger] s.drop_last()[a].0@) != (#[trigger] s.drop_last()[b].0@));
        }
        lemma_entries_at(s.drop_last(), i);
        assert(s.drop_last()[i] == s[i]);
        assert(s[i].0@ != s.last().0@);
    }
}

/// With unique keys, the modelled map has exactly as many keys as the entry
/// sequence has entries.
pub proof fn lemma_entries_len(s: Seq<(String, ItemType)>)
    requires
        unique_keys(s),
    ensures
        map_of_entries(s).dom().len() == s.len(),
    decreases s,
{
    lemma_entries_contains(s);
    if s.len() > 0 {
        let d = s.drop_last();
        assert(unique_keys(d)) by {
            assert(forall|a: int, b: int|
                0 <= a < d.len() && 0 <= b < d.len() && a != b ==> (#[trigger] d[a].0@) != (
                #[trigger] d[b].0@));
        }
        lemma_entries_len(d);
        lemma_entries_contains(d);
        assert(!map_of_entries(d).contains_key(s.last().0@)) by {
            if map_of_entries(d).contains_key(s.last().0@) {
                let i = choose|i: int|
                    0 <= i < d.len() && (#[trigger] d[i].0@) == s.last().0@;
                assert(s[i].0@ == s[s.len() - 1].0@);
            }
        }
        assert(map_of_entries(s).dom() =~= map_of_entries(d).dom().insert(s.last().0@));
    }
}

/// The values of an entry sequence are pointwise well-formed.
pub proof fn lemma_values_wf(s: Seq<(String, ItemType)>)
    ensures
        values_wf(s) <==> (forall|i: int| 0 <= i < s.len() ==> (#[trigger] s[i].1).wf()),
    decreases s,
{
    if s.len() > 0 {
        lemma_values_wf(s.drop_last());
        if values_wf(s) {
            assert forall|i: int| 0 <= i < s.len() implies (#[trigger] s[i].1).wf() by {
                if i < s.len() - 1 {
                    assert(s.drop_last()[i] == s[i]);
                } else {
                    assert(s[i] == s.last());
                }
            }
        }
        if forall|i: int| 0 <= i < s.len() ==> (#[trigger] s[i].1).wf() {
            assert forall|i: int|
                0 <= i < s.drop_last().len() implies (#[trigger] s.drop_last()[i].1).wf() by {
                assert(s.drop_last()[i] == s[i]);
            }
            assert(s[s.len() - 1].1.wf());
            assert(s.last() == s[s.len() - 1]);
        }
    }
}

/// Appending an entry with a fresh key inserts it into the modelled map,
/// appends its key, and preserves well-formedness.
pub proof fn lemma_entries_push(s: Seq<(String, ItemType)>, p: (String, ItemType))
    ensures
        map_of_entries(s.push(p)) == map_of_entries(s).insert(p.0@, p.1@),
        keys_of(s.push(p)) == keys_of(s).push(p.0@),
        unique_keys(s) && !keys_of(s).contains(p.0@) ==> unique_keys(s.push(p)),
        values_wf(s) && p.1.wf() ==> values_wf(s.push(p)),
{
    assert(s.push(p).drop_last() =~= s);
    assert(s.push(p).last() == p);
    lemma_keys_of(s);
    if unique_keys(s) && !keys_of(s).contains(p.0@) {
        assert forall|i: int, j: int|
            0 <= i < s.push(p).len() && 0 <= j < s.push(p).len() && i != j implies (
        #[trigger] s.push(p)[i].0@) != (#[trigger] s.push(p)[j].0@) by {
            if i < s.len() && j < s.len() {
                assert(s[i].0@ != s[j].0@);
            } else if i < s.len() {
                assert(keys_of(s)[i] == s[i].0@);
                assert(!(keys_of(s)[i] == p.0@));
            } else {
                assert(keys_of(s)[j] == s[j].0@);
                assert(!(keys_of(s)[j] == p.0@));
            }
        }
    }
}

/// Replacing the entry at a position by one with the same key text updates
/// the modelled map at that key, keeps the key order, and preserves
/// well-formedness when the new value is well-formed.
pub proof fn lemma_entries_update(s: Seq<(String, ItemType)>, i: int, p: (String, ItemType))
    requires
        unique_keys(s),
        0 <= i < s.len(),
        p.0@ == s[i].0@,
    ensures
        map_of_entries(s.update(i, p)) == map_of_entries(s).insert(p.0@, p.1@),
        keys_of(s.update(i, p)) == keys_of(s),
        unique_keys(s.update(i, p)),
        values_wf(s) && p.1.wf() ==> values_wf(s.update(i, p)),
    decreases s,
{
    let t = s.update(i, p);
    lemma_keys_of(s);
    lemma_keys_of(t);
    lemma_values_wf(s);
    lemma_values_wf(t);
    assert forall|j: int| 0 <= j < t.len() implies keys_of(t)[j] == keys_of(s)[j] by {
        assert(keys_of(t)[j] == t[j].0@);
        assert(keys_of(s)[j] == s[j].0@);
    }
    assert(keys_of(t) =~= keys_of(s));
    assert(unique_keys(t)) by {
        assert(forall|a: int, b: int|
            0 <= a < t.len() && 0 <= b < t.len() && a != b ==> (#[trigger] t[a].0@) != (
            #[trigger] t[b].0@));
    }
    if values_wf(s) && p.1.wf() {
        assert(forall|j: int| 0 <= j < t.len() ==> (#[trigger] t[j].1).wf());
    }
    if i == s.len() - 1 {
        assert(t.drop_last() =~= s.drop_last());
        assert(t.last() == p);
        assert(map_of_entries(t) =~= map_of_entries(s).insert(p.0@, p.1@));
    } else {
        let d = s.drop_last();
        assert(unique_keys(d)) by {
            assert(forall|a: int, b: int|
                0 <= a < d.len() && 0 <= b < d.len() && a != b ==> (#[trigger] d[a].0@) != (
                #[trigger] d[b].0@));
        }
        lemma_entries_update(d, i, p);
        assert(t.drop_last() =~= d.update(i, p));
        assert(t.last() == s.last());
        assert(p.0@ != s.last().0@);
        assert(map_of_entries(t) == map_of_entries(d).insert(p.0@, p.1@).insert(
            s.last().0@,
            s.last().1@,
        ));
        assert(map_of_entries(d).insert(p.0@, p.1@).insert(s.last().0@, s.last().1@)
            =~= map_of_entries(d).insert(s.last().0@, s.last().1@).insert(p.0@, p.1@));
    }
}

/// Removing the entry at a position removes its key from the modelled map
/// and from the key order, and preserves well-formedness.
pub proof fn lemma_entries_remove(s: Seq<(String, ItemType)>, i: int)
    requires
        unique_keys(s),
        0 <= i < s.len(),
    ensures
        map_of_entries(s.remove(i)) == map_of_entries(s).remove(s[i].0@),
        keys_of(s.remove(i)) == keys_of(s).remove(i),
        unique_keys(s.remove(i)),
        values_wf(s) ==> values_wf(s.remove(i)),
    decreases s,
{
    let t = s.remove(i);
    s.remove_ensures(i);
    lemma_keys_of(s);
    lemma_keys_of(t);
    keys_of(s).remove_ensures(i);
    lemma_values_wf(s);
    lemma_values_wf(t);
    assert forall|j: int| 0 <= j < t.len() implies keys_of(t)[j] == keys_of(s).remove(i)[j] by {
        assert(keys_of(t)[j] == t[j].0@);
        if j < i {
            assert(t[j] == s[j]);
            assert(keys_of(s)[j] == s[j].0@);
        } else {
            assert(t[j] == s[j + 1]);
            assert(keys_of(s)[j + 1] == s[j + 1].0@);
        }
    }
    assert(keys_of(t) =~= keys_of(s).remove(i));
    assert(unique_keys(t)) by {
        assert(forall|a: int, b: int|
            0 <= a < t.len() && 0 <= b < t.len() && a != b ==> (#[trigger] t[a].0@) != (
            #[trigger] t[b].0@));
    }
    if values_wf(s) {
        assert(forall|j: int| 0 <= j < t.len() ==> (#[trigger] t[j].1).wf());
    }
    let d = s.drop_last();
    assert(unique_keys(d)) by {
        assert(forall|a: int, b: int|
            0 <= a < d.len() && 0 <= b < d.len() && a != b ==> (#[trigger] d[a].0@) != (
            #[trigger] d[b].0@));
    }
    if i == s.len() - 1 {
        assert(t =~= d);
        lemma_entries_contains(d);
        assert(!map_of_entries(d).contains_key(s[i].0@)) by {
            if map_of_entries(d).contains_key(s[i].0@) {
                let j = choose|j: int| 0 <= j < d.len() && (#[trigger] d[j].0@) == s[i].0@;
                assert(s[j].0@ == s[i].0@);
            }
        }
        assert(map_of_entries(t) =~= map_of_entries(s).remove(s[i].0@));
    } else {
        lemma_entries_remove(d, i);
        assert(t.drop_last() =~= d.remove(i));
        assert(t.last() == s.last());
        assert(d[i] == s[i]);
        assert(map_of_entries(t) == map_of_entries(d).remove(s[i].0@).insert(
            s.last().0@,
            s.last().1@,
        ));
        assert(s[i].0@ != s.last().0@);
        assert(map_of_entries(d).remove(s[i].0@).insert(s.last().0@, s.last().1@)
            =~= map_of_entries(s).remove(s[i].0@));
    }
}


/// A mutable handle to the value of the entry at a position: the entry's key
/// keeps its value and its position, and whatever the caller leaves behind
/// the handle becomes that key's value in the caller's base map (any map
/// that inserting under this key makes equal to the modelled one).
fn value_mut<'a>(
    v: &'a mut Vec<(String, ItemType)>,
    i: usize,
    key: Ghost<Seq<char>>,
    base: Ghost<Map<Seq<char>, ItemV>>,
) -> (r: &'a mut ItemType)
    requires
        i < old(v)@.len(),
        unique_keys(old(v)@),
        old(v)@[i as int].0@ == key@,
        forall|y: ItemV| #[trigger] base@.insert(key@, y) == map_of_entries(old(v)@).insert(
            key@,
            y,
        ),
    ensures
        *r == old(v)@[i as int].1,
        map_of_entries(final(v)@) == base@.insert(key@, final(r)@),
        keys_of(final(v)@) == keys_of(old(v)@),
        unique_keys(final(v)@),
        values_wf(old(v)@) && final(r).wf() ==> values_wf(final(v)@),
{
    proof {
        assert forall|x: ItemType|
            #[trigger] map_of_entries(old(v)@.update(i as int, (old(v)@[i as int].0, x)))
                == base@.insert(key@, x.item_view()) && keys_of(
                old(v)@.update(i as int, (old(v)@[i as int].0, x)),
            ) == keys_of(old(v)@) && unique_keys(
                old(v)@.update(i as int, (old(v)@[i as int].0, x)),
            ) && (values_wf(old(v)@) && x.wf() ==> values_wf(
                old(v)@.update(i as int, (old(v)@[i as int].0, x)),
            )) by {
            lemma_entries_update(old(v)@, i as int, (old(v)@[i as int].0, x));
            assert(base@.insert(key@, x.item_view()) == map_of_entries(old(v)@).insert(
                key@,
                x.item_view(),
            ));
        }
    }
    &mut v[i].1
}

/// The payload of a [`ItemType::THash`] node: key/value entries in insertion
/// order, with pairwise-distinct keys when well-formed.
pub struct ItemHash {
    entries: Vec<(String, ItemType)>,
}

impl View for ItemHash {
    type V = Map<Seq<char>, ItemV>;

    open spec fn view(&self) -> Map<Seq<char>, ItemV> {
        self.map_view()
    }
}

impl ItemHash {
    /// The model of the hash: an unordered map from key text to value model.
    pub closed spec fn map_view(&self) -> Map<Seq<char>, ItemV>
        decreases self,
    {
        map_of_entries(self.entries@)
    }

    /// The keys in entry (insertion) order.
    pub closed spec fn keys(&self) -> Seq<Seq<char>> {
        keys_of(self.entries@)
    }

    /// Well-formedness: pairwise-distinct keys, well-formed values.
    pub closed spec fn wf(&self) -> bool
        decreases self,
    {
        unique_keys(self.entries@) && values_wf(self.entries@)
    }

    /// The debug rendering: `{"k1":v1,...}` with keys quoted, not escaped.
    pub closed spec fn spec_render(&self) -> Seq<char>
        decreases self,
    {
        "{"@ + render_entries(self.entries@) + "}"@
    }

    /// Builds an empty hash, already wrapped as an [`ItemType`].
    pub fn new() -> (r: ItemType)
        ensures
            r@ == ItemV::Hash(Map::<Seq<char>, ItemV>::empty()),
            r.wf(),
            r matches ItemType::THash(h) && h.keys() == Seq::<Seq<char>>::empty(),
    {
        let h = ItemHash { entries: Vec::new() };
        proof {
            assert(h.keys() =~= Seq::<Seq<char>>::empty());
        }
        ItemType::THash(h)
    }

    pub fn is_null(&self) -> (r: bool)
        ensures
            !r,
    {
        false
    }

    pub fn is_number(&self) -> (r: bool)
        ensures
            !r,
    {
        false
    }

    pub fn is_string(&self) -> (r: bool)
        ensures
            !r,
    {
        false
    }

    pub fn is_list(&self) -> (r: bool)
        ensures
            !r,
    {
        false
    }

    pub fn is_hash(&self) -> (r: bool)
        ensures
            r,
    {
        true
    }

    pub fn is_container(&self) -> (r: bool)
        ensures
            r,
    {
        true
    }

    /// The entry count. For a well-formed hash this is the size of the
    /// modelled map.
    pub fn count(&self) -> (r: usize)
        ensures
            r == self.keys().len(),
            self.wf() ==> r == self@.dom().len(),
    {
        proof {
            lemma_keys_of(self.entries@);
            if self.wf() {
                lemma_entries_len(self.entries@);
            }
        }
        self.entries.len()
    }

    /// The position of a key among the entries, if present.
    fn find_key(&self, key: &String) -> (r: Option<usize>)
        ensures
            r matches Some(i) ==> i < self.entries@.len() && self.entries@[i as int].0@ == key@,
            r is None ==> forall|j: int| 0 <= j < self.entries@.len() ==> (#[trigger] self.entries@[
                j].0@) != key@,
    {
        let n = self.entries.len();
        let mut i: usize = 0;
        while i < n
            invariant
                i <= n,
                n == self.entries@.len(),
                forall|j: int| 0 <= j < i ==> (#[trigger] self.entries@[j].0@) != key@,
            decreases n - i,
        {
            if self.entries[i].0 == *key {
                return Some(i);
            }
            i += 1;
        }
        None
    }

    /// Inserts a node under a key, overwriting the key's previous value if it
    /// was present (an overwrite keeps the key's position; a fresh key is
    /// appended). A hash rejects unkeyed addition with
    /// [`ItemError::NotAnItemHash`] and is then left unchanged.
    pub fn add_item(&mut self, item: ItemType, key: Option<String>) -> (r: Result<(), ItemError>)
        ensures
            key is None ==> r == Err::<(), ItemError>(ItemError::NotAnItemHash) && *final(self)
                == *old(self),
            key is Some ==> r == Ok::<(), ItemError>(()),
            key matches Some(k) ==> (old(self).wf() ==> final(self)@ == old(self)@.insert(
                k@,
                item@,
            ) && final(self).keys() == insert_key_order(old(self).keys(), k@) && (item.wf()
                ==> final(self).wf())),
    {
        let k = match key {
            Some(k) => k,
            None => {
                return Err(ItemError::NotAnItemHash);
            },
        };
        proof {
            lemma_keys_of(self.entries@);
        }
        match self.find_key(&k) {
            Some(i) => {
                proof {
                    if self.wf() {
                        lemma_entries_update(self.entries@, i as int, (k, item));
                        assert(self.keys().contains(self.keys()[i as int]));
                    }
                }
                self.entries[i] = (k, item);
                Ok(())
            },
            None => {
                proof {
                    lemma_entries_push(self.entries@, (k, item));
                    if self.wf() {
                        assert(!self.keys().contains(k@)) by {
                            if self.keys().contains(k@) {
                                let j = choose|j: int|
                                    0 <= j < self.keys().len() && self.keys()[j] == k@;
                                assert(self.entries@[j].0@ == k@);
                            }
                        }
                    }
                }
                self.entries.push((k, item));
                Ok(())
            },
        }
    }

    /// Inserts a null node; see [`ItemHash::add_item`] for the placement rule.
    pub fn add_null(&mut self, key: Option<String>) -> (r: Result<(), ItemError>)
        ensures
            key is None ==> r == Err::<(), ItemError>(ItemError::NotAnItemHash) && *final(self)
                == *old(self),
            key is Some ==> r == Ok::<(), ItemError>(()),
            key matches Some(k) ==> (old(self).wf() ==> final(self)@ == old(self)@.insert(
                k@,
                ItemV::Null,
            ) && final(self).keys() == insert_key_order(old(self).keys(), k@) && final(self).wf()),
    {
        self.add_item(crate::nulls::ItemNull::new(), key)
    }

    /// Inserts a boolean node (an absent value defaults to `false`); see
    /// [`ItemHash::add_item`] for the placement rule.
    pub fn add_boolean(&mut self, value: Option<bool>, key: Option<String>) -> (r: Result<
        (),
        ItemError,
    >)
        ensures
            key is None ==> r == Err::<(), ItemError>(ItemError::NotAnItemHash) && *final(self)
                == *old(self),
            key is Some ==> r == Ok::<(), ItemError>(()),
            key matches Some(k) ==> (old(self).wf() ==> final(self)@ == old(self)@.insert(
                k@,
                ItemV::Boolean(value == Some(true)),
            ) && final(self).keys() == insert_key_order(old(self).keys(), k@) && final(self).wf()),
    {
        self.add_item(crate::booleans::ItemBoolean::new(value), key)
    }

    /// Inserts a number node carrying the given numeric text (an absent value
    /// defaults to `0`); see [`ItemHash::add_item`] for the placement rule.
    pub fn add_number(&mut self, value: Option<String>, key: Option<String>) -> (r: Result<
        (),
        ItemError,
    >)
        ensures
            key is None ==> r == Err::<(), ItemError>(ItemError::NotAnItemHash) && *final(self)
                == *old(self),
            key is Some ==> r == Ok::<(), ItemError>(()),
            key matches Some(k) ==> (old(self).wf() ==> final(self)@ == old(self)@.insert(
                k@,
                ItemV::Number(
                    match value {
                        Some(t) => t@,
                        None => "0"@,
                    },
                ),
            ) && final(self).keys() == insert_key_order(old(self).keys(), k@) && final(self).wf()),
    {
        self.add_item(crate::numbers::ItemNumber::new(value), key)
    }

    /// Inserts a string node (an absent value defaults to the empty text);
    /// see [`ItemHash::add_item`] for the placement rule.
    pub fn add_string(&mut self, value: Option<String>, key: Option<String>) -> (r: Result<
        (),
        ItemError,
    >)
        ensures
            key is None ==> r == Err::<(), ItemError>(ItemError::NotAnItemHash) && *final(self)
                == *old(self),
            key is Some ==> r == Ok::<(), ItemError>(()),
            key matches Some(k) ==> (old(self).wf() ==> final(self)@ == old(self)@.insert(
                k@,
                ItemV::Str(
                    match value {
                        Some(t) => t@,
                        None => Seq::<char>::empty(),
                    },
                ),
            ) && final(self).keys() == insert_key_order(old(self).keys(), k@) && final(self).wf()),
    {
        self.add_item(crate::strings::ItemString::new(value), key)
    }

    /// Inserts a fresh empty list under a key and returns a mutable handle to
    /// it, so a caller can keep building depth-first without looking the key
    /// up again; see [`ItemHash::add_item`] for the placement rule.
    pub fn add_list<'a>(&'a mut self, key: Option<String>) -> (r: Result<
        &'a mut ItemType,
        ItemError,
    >)
        requires
            old(self).wf(),
        ensures
            key is None ==> (r matches Err(e) && e == ItemError::NotAnItemHash && *final(self)
                == *old(self)),
            key matches Some(k) ==> (r matches Ok(it) && it@ == ItemV::List(
                Seq::<ItemV>::empty(),
            ) && final(self)@ == old(self)@.insert(k@, final(it)@) && final(self).keys()
                == insert_key_order(old(self).keys(), k@) && (final(it).wf()
                ==> final(self).wf())),
    {
        let k = match key {
            Some(k) => k,
            None => {
                return Err(ItemError::NotAnItemHash);
            },
        };
        self.place_fresh(crate::lists::ItemList::new(), k)
    }

    /// Inserts a fresh empty hash under a key and returns a mutable handle to
    /// it; see [`ItemHash::add_item`] for the placement rule.
    pub fn add_hash<'a>(&'a mut self, key: Option<String>) -> (r: Result<
        &'a mut ItemType,
        ItemError,
    >)
        requires
            old(self).wf(),
        ensures
            key is None ==> (r matches Err(e) && e == ItemError::NotAnItemHash && *final(self)
                == *old(self)),
            key matches Some(k) ==> (r matches Ok(it) && it@ == ItemV::Hash(
                Map::<Seq<char>, ItemV>::empty(),
            ) && final(self)@ == old(self)@.insert(k@, final(it)@) && final(self).keys()
                == insert_key_order(old(self).keys(), k@) && (final(it).wf()
                ==> final(self).wf())),
    {
        let k = match key {
            Some(k) => k,
            None => {
                return Err(ItemError::NotAnItemHash);
            },
        };
        self.place_fresh(ItemHash::new(), k)
    }

    /// Stores a fresh node under a key (insert-or-replace, keeping an
    /// existing key's position, appending a fresh one) and hands out a
    /// mutable handle to it.
    fn place_fresh<'a>(&'a mut self, fresh: ItemType, k: String) -> (r: Result<
        &'a mut ItemType,
        ItemError,
    >)
        requires
            old(self).wf(),
            fresh.wf(),
        ensures
            r matches Ok(it) && *it == fresh && final(self)@ == old(self)@.insert(
                k@,
                final(it)@,
            ) && final(self).keys() == insert_key_order(old(self).keys(), k@) && (final(it).wf()
                ==> final(self).wf()),
    {
        proof {
            lemma_keys_of(self.entries@);
        }
        let ghost ks = k@;
        let ghost base = self.map_view();
        match self.find_key(&k) {
            Some(i) => {
                proof {
                    assert(self.keys()[i as int] == self.entries@[i as int].0@);
                    assert(self.keys().contains(ks));
                }
                let h = value_mut(&mut self.entries, i, Ghost(ks), Ghost(base));
                *h = fresh;
                Ok(h)
            },
            None => {
                proof {
                    assert(!self.keys().contains(ks)) by {
                        if self.keys().contains(ks) {
                            let j = choose|j: int|
                                0 <= j < self.keys().len() && self.keys()[j] == ks;
                            assert(self.entries@[j].0@ == ks);
                        }
                    }
                    lemma_entries_push(self.entries@, (k, fresh));
                    lemma_values_wf(self.entries@);
                }
                self.entries.push((k, fresh));
                let n = self.entries.len();
                proof {
                    assert forall|y: ItemV| #[trigger] base.insert(ks, y) == map_of_entries(
                        self.entries@,
                    ).insert(ks, y) by {
                        assert(base.insert(ks, y) =~= map_of_entries(self.entries@).insert(
                            ks,
                            y,
                        ));
                    }
                    lemma_values_wf(self.entries@);
                }
                let h = value_mut(&mut self.entries, n - 1, Ghost(ks), Ghost(base));
                Ok(h)
            },
        }
    }

    /// Whether an addressing key is occupied: true exactly for a present text
    /// key; a position is never present in a hash.
    pub fn has_key(&self, key: &ContainerKey) -> (r: bool)
        ensures
            r == crate::items::key_addresses_hash(key, self@),
    {
        proof {
            lemma_entries_contains(self.entries@);
        }
        match key {
            ContainerKey::Key(k) => self.find_key(k).is_some(),
            ContainerKey::Idx(_) => false,
        }
    }

    /// Removes and returns the node under a key. Position addressing is
    /// rejected with [`ItemError::NotAnItemList`]; an absent key returns
    /// `None` (not an error).
    pub fn remove_item(&mut self, lookup: ContainerKey) -> (r: Result<Option<ItemType>, ItemError>)
        requires
            old(self).wf(),
        ensures
            lookup is Idx ==> r == Err::<Option<ItemType>, ItemError>(ItemError::NotAnItemList)
                && *final(self) == *old(self),
            lookup matches ContainerKey::Key(k) ==> (old(self)@.contains_key(k@) ==> (
            r matches Ok(Some(it)) && it@ == old(self)@[k@] && it.wf() && final(self)@ == old(self)@.remove(k@) && final(self).wf() && (exists|i: int|
                0 <= i < old(self).keys().len() && old(self).keys()[i] == k@ && final(self).keys()
                    == #[trigger] old(self).keys().remove(i)))),
            lookup matches ContainerKey::Key(k) ==> (!old(self)@.contains_key(k@) ==> (
            r matches Ok(o) && o is None && *final(self) == *old(self))),
    {
        let k = match lookup {
            ContainerKey::Key(k) => k,
            ContainerKey::Idx(_) => {
                return Err(ItemError::NotAnItemList);
            },
        };
        proof {
            lemma_entries_contains(self.entries@);
        }
        match self.find_key(&k) {
            Some(i) => {
                proof {
                    lemma_entries_remove(self.entries@, i as int);
                    lemma_entries_at(self.entries@, i as int);
                    lemma_values_wf(self.entries@);
                    lemma_keys_of(self.entries@);
                }
                let pair = self.entries.remove(i);
                proof {
                    assert(old(self).keys()[i as int] == k@);
                    assert(self.keys() == old(self).keys().remove(i as int));
                }
                Ok(Some(pair.1))
            },
            None => {
                proof {
                    assert(!self@.contains_key(k@));
                }
                Ok(None)
            },
        }
    }

    /// The addressing key of some entry whose value is structurally equal to
    /// the given node, or `None`. Which key is reported when several match is
    /// unspecified.
    pub fn get_key(&self, item: &ItemType) -> (r: Result<Option<ContainerKey>, ItemError>)
        requires
            self.wf(),
            item.wf(),
        ensures
            r matches Ok(o) && (match o {
                Some(k) => (k matches ContainerKey::Key(t) && self@.contains_key(t@) && self@[t@]
                    == item@),
                None => crate::items::hash_no_equal_value(self@, item@),
            }),
    {
        match self.key_of_item(item) {
            Ok(Some(k)) => Ok(Some(ContainerKey::Key(k))),
            Ok(None) => Ok(None),
            Err(e) => Err(e),
        }
    }

    /// The text key of some entry whose value is structurally equal to the
    /// given node, or `None`. Which key is reported when several match is
    /// unspecified.
    pub fn key_of_item(&self, item: &ItemType) -> (r: Result<Option<String>, ItemError>)
        requires
            self.wf(),
            item.wf(),
        ensures
            r matches Ok(o) && (match o {
                Some(t) => self@.contains_key(t@) && self@[t@] == item@,
                None => crate::items::hash_no_equal_value(self@, item@),
            }),
    {
        proof {
            lemma_entries_contains(self.entries@);
            lemma_values_wf(self.entries@);
        }
        let n = self.entries.len();
        let mut i: usize = 0;
        while i < n
            invariant
                self.wf(),
                item.wf(),
                i <= n,
                n == self.entries@.len(),
                forall|j: int| 0 <= j < i ==> (#[trigger] self.entries@[j].1)@ != item@,
            decreases n - i,
        {
            proof {
                lemma_values_wf(self.entries@);
            }
            if crate::items::equal_items(&self.entries[i].1, item) {
                proof {
                    lemma_entries_at(self.entries@, i as int);
                }
                let key = self.entries[i].0.clone();
                return Ok(Some(key));
            }
            i += 1;
        }
        proof {
            assert forall|k: Seq<char>| #[trigger] self@.contains_key(k) implies self@[k]
                != item@ by {
                let j = choose|j: int|
                    0 <= j < self.entries@.len() && (#[trigger] self.entries@[j].0@) == k;
                lemma_entries_at(self.entries@, j);
            }
        }
        Ok(None)
    }

    /// All occupied addressing keys, in entry order.
    pub fn get_keys(&self) -> (r: Result<Vec<ContainerKey>, ItemError>)
        ensures
            r matches Ok(ks) && crate::items::keys_are_texts(ks@, self.keys()),
    {
        proof {
            lemma_keys_of(self.entries@);
        }
        let n = self.entries.len();
        let mut ks: Vec<ContainerKey> = Vec::new();
        let mut i: usize = 0;
        while i < n
            invariant
                i <= n,
                n == self.entries@.len(),
                n == self.keys().len(),
                ks@.len() == i,
                forall|j: int|
                    0 <= j < i ==> ((#[trigger] ks@[j]) matches ContainerKey::Key(t) && t@
                        == self.keys()[j]),
                forall|j: int| 0 <= j < n ==> self.keys()[j] == #[trigger] self.entries@[j].0@,
            decreases n - i,
        {
            ks.push(ContainerKey::Key(self.entries[i].0.clone()));
            i += 1;
        }
        Ok(ks)
    }

    /// A hash has no positions.
    pub fn get_indices(&self) -> (r: Option<Vec<usize>>)
        ensures
            r is None,
    {
        None
    }

    /// A hash has no positions.
    pub fn has_index(&self, _index: usize) -> (r: bool)
        ensures
            !r,
    {
        false
    }

    /// Whether some entry's value is structurally equal to the given node.
    pub fn has_item(&self, item: &ItemType) -> (r: bool)
        requires
            self.wf(),
            item.wf(),
        ensures
            r == crate::items::hash_has_equal_value(self@, item@),
    {
        match self.key_of_item(item) {
            Ok(Some(_)) => true,
            _ => false,
        }
    }

    /// The node at an addressing key: `Some` for a present text key, `None`
    /// for an absent one; position addressing is rejected with
    /// [`ItemError::NotAnItemList`].
    pub fn get_item<'a>(&'a self, lookup: &ContainerKey) -> (r: Result<
        Option<&'a ItemType>,
        ItemError,
    >)
        requires
            self.wf(),
        ensures
            lookup is Idx ==> (r matches Err(e) && e == ItemError::NotAnItemList),
            lookup matches ContainerKey::Key(k) ==> (self@.contains_key(k@) ==> (r matches Ok(
                Some(it),
            ) && it@ == self@[k@] && it.wf())),
            lookup matches ContainerKey::Key(k) ==> (!self@.contains_key(k@) ==> (r matches Ok(o)
                && o is None)),
    {
        match lookup {
            ContainerKey::Key(k) => self.item_by_key_string(k),
            ContainerKey::Idx(_) => Err(ItemError::NotAnItemList),
        }
    }

    /// The node under a text key, or `None` for an absent key.
    pub fn item_by_key_string<'a>(&'a self, key: &String) -> (r: Result<
        Option<&'a ItemType>,
        ItemError,
    >)
        requires
            self.wf(),
        ensures
            self@.contains_key(key@) ==> (r matches Ok(Some(it)) && it@ == self@[key@]
                && it.wf()),
            !self@.contains_key(key@) ==> (r matches Ok(o) && o is None),
    {
        proof {
            lemma_entries_contains(self.entries@);
        }
        match self.find_key(key) {
            Some(i) => {
                proof {
                    lemma_entries_at(self.entries@, i as int);
                    lemma_values_wf(self.entries@);
                }
                Ok(Some(&self.entries[i].1))
            },
            None => Ok(None),
        }
    }

    /// The node under a text key, or `None` for an absent key.
    pub fn item_by_key<'a>(&'a self, key: &str) -> (r: Result<Option<&'a ItemType>, ItemError>)
        requires
            self.wf(),
        ensures
            self@.contains_key(key@) ==> (r matches Ok(Some(it)) && it@ == self@[key@] && it.wf()),
            !self@.contains_key(key@) ==> (r matches Ok(o) && o is None),
    {
        let owned = key.to_owned();
        self.item_by_key_string(&owned)
    }

    /// Position lookup is rejected by a hash with
    /// [`ItemError::NotAnItemList`].
    pub fn item_by_index<'a>(&'a self, _index: usize) -> (r: Result<Option<&'a ItemType>, ItemError>)
        ensures
            r matches Err(e) && e == ItemError::NotAnItemList,
    {
        Err(ItemError::NotAnItemList)
    }

    /// A position is never associated with an entry of a hash; reported as
    /// [`ItemError::NotAnItemList`].
    pub fn index_of_item(&self, _item: &ItemType) -> (r: Result<Option<usize>, ItemError>)
        ensures
            r == Err::<Option<usize>, ItemError>(ItemError::NotAnItemList),
    {
        Err(ItemError::NotAnItemList)
    }



    /// A mutable handle to the node under a key, or `None` for an absent
    /// key (the hash is then untouched). The handle's key keeps its value
    /// and its position; whatever the caller leaves behind the handle
    /// becomes the key's value.
    pub fn last_mut<'a>(&'a mut self, key: &String) -> (r: Option<&'a mut ItemType>)
        requires
            old(self).wf(),
        ensures
            !old(self)@.contains_key(key@) ==> r is None && *final(self) == *old(self),
            old(self)@.contains_key(key@) ==> (r matches Some(it) && it@ == old(self)@[key@]
                && final(self)@ == old(self)@.insert(key@, final(it)@) && final(self).keys()
                == old(self).keys() && (final(it).wf() ==> final(self).wf())),
    {
        proof {
            lemma_entries_contains(self.entries@);
        }
        match self.find_key(key) {
            Some(i) => {
                proof {
                    lemma_entries_at(self.entries@, i as int);
                }
                let ghost base = self.map_view();
                Some(value_mut(&mut self.entries, i, Ghost(key@), Ghost(base)))
            },
            None => None,
        }
    }

    /// Renders the hash as `{"k1":v1,...}`: entries in insertion order, keys
    /// quoted but not escaped, values in their debug form.
    pub fn to_string(&self) -> (r: String)
        ensures
            r@ == self.spec_render(),
        decreases self,
    {
        let mut out = String::from_str("{");
        let n = self.entries.len();
        let mut i: usize = 0;
        while i < n
            invariant
                i <= n,
                n == self.entries@.len(),
                out@ == "{"@ + render_entries(self.entries@.take(i as int)),
            decreases n - i,
        {
            if i > 0 {
                out.append(",");
            }
            out.append("\"");
            out.append(self.entries[i].0.as_str());
            out.append("\":");
            let elem = self.entries[i].1.to_string();
            out.append(elem.as_str());
            proof {
                lemma_render_entries_take(self.entries@, i as int);
                assert(out@ == "{"@ + render_entries(self.entries@.take(i + 1)));
            }
            i += 1;
        }
        out.append("}");
        proof {
            assert(self.entries@.take(n as int) =~= self.entries@);
        }
        out
    }
}

/// One step of the debug rendering of an entry sequence: rendering one more
/// entry appends a comma (except for the first) and that entry's rendering.
pub proof fn lemma_render_entries_take(s: Seq<(String, ItemType)>, i: int)
    requires
        0 <= i < s.len(),
    ensures
        render_entries(s.take(i + 1)) == if i == 0 {
            render_entry(s[0])
        } else {
            render_entries(s.take(i)) + ","@ + render_entry(s[i])
        },
{
    let t = s.take(i + 1);
    assert(t.drop_last() =~= s.take(i));
    assert(t.last() == s[i]);
}

/// Structural equality of two hashes: the same key set, with structurally
/// equal values under each key, independently of entry order.
pub fn equal_hashes(a: &ItemHash, b: &ItemHash) -> (r: bool)
    requires
        a.wf(),
        b.wf(),
    ensures
        r == (a@ == b@),
    decreases a,
{
    proof {
        lemma_entries_contains(a.entries@);
        lemma_entries_contains(b.entries@);
        lemma_entries_len(a.entries@);
        lemma_entries_len(b.entries@);
        lemma_values_wf(a.entries@);
        lemma_values_wf(b.entries@);
    }
    let n = a.entries.len();
    if n != b.entries.len() {
        proof {
            assert(a@.dom().len() != b@.dom().len());
            assert(a@ != b@);
        }
        return false;
    }
    let mut i: usize = 0;
    while i < n
        invariant
            a.wf(),
            b.wf(),
            i <= n,
            n == a.entries@.len(),
            n == b.entries@.len(),
            forall|j: int|
                0 <= j < i ==> b@.contains_key(#[trigger] a.entries@[j].0@) && b@[a.entries@[j].0@]
                    == a.entries@[j].1@,
        decreases n - i,
    {
        proof {
            lemma_values_wf(a.entries@);
            lemma_entries_at(a.entries@, i as int);
        }
        let value = match b.item_by_key_string(&a.entries[i].0) {
            Ok(Some(v)) => v,
            _ => {
                proof {
                    assert(a@.contains_key(a.entries@[i as int].0@));
                    assert(!b@.contains_key(a.entries@[i as int].0@));
                }
                return false;
            },
        };
        if !crate::items::equal_items(&a.entries[i].1, value) {
            proof {
                assert(a@[a.entries@[i as int].0@] == a.entries@[i as int].1@);
                assert(b@[a.entries@[i as int].0@] != a@[a.entries@[i as int].0@]);
            }
            return false;
        }
        i += 1;
    }
    proof {
        lemma_entries_contains(a.entries@);
        lemma_entries_contains(b.entries@);
        lemma_entries_len(a.entries@);
        lemma_entries_len(b.entries@);
        assert forall|k: Seq<char>| #[trigger] a@.contains_key(k) implies b@.contains_key(k) && b@[
            k] == a@[k] by {
            let j = choose|j: int| 0 <= j < a.entries@.len() && (#[trigger] a.entries@[j].0@) == k;
            lemma_entries_at(a.entries@, j);
        }
        lemma_map_submap_same_card(a@, b@);
    }
    true
}

/// A map that sends every key of an equally-sized map to the same value as
/// that map is equal to it.
proof fn lemma_map_submap_same_card(m1: Map<Seq<char>, ItemV>, m2: Map<Seq<char>, ItemV>)
    requires
        m1.dom().finite(),
        m2.dom().finite(),
        m1.dom().len() == m2.dom().len(),
        forall|k: Seq<char>| #[trigger] m1.contains_key(k) ==> m2.contains_key(k) && m2[k] == m1[k],
    ensures
        m1 == m2,
{
    assert(m1.dom().subset_of(m2.dom()));
    assert forall|k: Seq<char>| #[trigger] m2.dom().contains(k) implies m1.dom().contains(k) by {
        if !m1.dom().contains(k) {
            m1.dom().lemma_subset_not_in_lt(m2.dom(), k);
        }
    }
    assert(m1 =~= m2);
}

/// A key is present immediately after an add under that key, and absent
/// immediately after a remove of that key: the mutation contracts of
/// [`ItemHash`] state that an add updates the model by `insert` and a remove
/// by `remove`, and `has_key` reports membership in the model.
pub proof fn lemma_has_key_after_add_remove(m: Map<Seq<char>, ItemV>, k: Seq<char>, v: ItemV)
    ensures
        m.insert(k, v).contains_key(k),
        !m.remove(k).contains_key(k),
{
}

} // verus!

