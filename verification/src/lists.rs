//! The ordered list container.
//!
//! Positions are dense and zero-based; a removal shifts the positions after
//! it down by one. The model of a list is the sequence of its elements'
//! models, in order.

use vstd::prelude::*;
use vstd::string::StringExecFns;
use crate::items::{ContainerKey, ItemError, ItemType, ItemV};

verus! {

/// The models of a sequence of nodes, in order.
pub open spec fn item_views(s: Seq<ItemType>) -> Seq<ItemV>
    decreases s,
{
    if s.len() == 0 {
        Seq::empty()
    } else {
        item_views(s.drop_last()).push(s.last().item_view())
    }
}

/// Well-formedness of a sequence of nodes: every node is well-formed.
pub open spec fn items_wf(s: Seq<ItemType>) -> bool
    decreases s,
{
    if s.len() == 0 {
        true
    } else {
        items_wf(s.drop_last()) && s.last().wf()
    }
}

/// The debug rendering of a sequence of nodes, joined by commas.
pub open spec fn render_items(s: Seq<ItemType>) -> Seq<char>
    decreases s,
{
    if s.len() == 0 {
        Seq::empty()
    } else if s.len() == 1 {
        s.last().spec_render()
    } else {
        render_items(s.drop_last()) + ","@ + s.last().spec_render()
    }
}

/// `item_views` is the pointwise model of the sequence.
pub proof fn lemma_item_views(s: Seq<ItemType>)
    ensures
        item_views(s).len() == s.len(),
        forall|i: int| 0 <= i < s.len() ==> item_views(s)[i] == #[trigger] s[i]@,
    decreases s,
{
    if s.len() > 0 {
        lemma_item_views(s.drop_last());
        assert forall|i: int| 0 <= i < s.len() implies item_views(s)[i] == #[trigger] s[i]@ by {
            if i < s.len() - 1 {
                assert(s.drop_last()[i] == s[i]);
            } else {
                assert(s[i] == s.last());
            }
        }
    }
}

/// `items_wf` is the pointwise well-formedness of the sequence.
pub proof fn lemma_items_wf(s: Seq<ItemType>)
    ensures
        items_wf(s) <==> (forall|i: int| 0 <= i < s.len() ==> (#[trigger] s[i]).wf()),
    decreases s,
{
    if s.len() > 0 {
        lemma_items_wf(s.drop_last());
        if items_wf(s) {
            assert forall|i: int| 0 <= i < s.len() implies (#[trigger] s[i]).wf() by {
                if i < s.len() - 1 {
                    assert(s.drop_last()[i] == s[i]);
                } else {
                    assert(s[i] == s.last());
                }
            }
        }
        if forall|i: int| 0 <= i < s.len() ==> (#[trigger] s[i]).wf() {
            assert forall|i: int|
                0 <= i < s.drop_last().len() implies (#[trigger] s.drop_last()[i]).wf() by {
                assert(s.drop_last()[i] == s[i]);
            }
            assert(s[s.len() - 1].wf());
            assert(s.last() == s[s.len() - 1]);
        }
    }
}

/// Appending a node appends its model, and keeps well-formedness exactly
/// when the appended node is well-formed.
pub proof fn lemma_push_views(s: Seq<ItemType>, t: ItemType)
    ensures
        item_views(s.push(t)) == item_views(s).push(t.item_view()),
        items_wf(s.push(t)) == (items_wf(s) && t.wf()),
{
    assert(s.push(t).drop_last() =~= s);
    assert(s.push(t).last() == t);
}

/// Removing a node removes its model, and preserves well-formedness.
pub proof fn lemma_remove_views(s: Seq<ItemType>, i: int)
    requires
        0 <= i < s.len(),
    ensures
        item_views(s.remove(i)) == item_views(s).remove(i),
        items_wf(s) ==> items_wf(s.remove(i)),
{
    lemma_item_views(s);
    lemma_item_views(s.remove(i));
    lemma_items_wf(s);
    lemma_items_wf(s.remove(i));
    s.remove_ensures(i);
    item_views(s).remove_ensures(i);
    assert forall|j: int| 0 <= j < s.remove(i).len() implies item_views(s.remove(i))[j]
        == item_views(s).remove(i)[j] by {
        assert(item_views(s.remove(i))[j] == s.remove(i)[j]@);
        if j < i {
            assert(s.remove(i)[j] == s[j]);
            assert(item_views(s)[j] == s[j]@);
        } else {
            assert(s.remove(i)[j] == s[j + 1]);
            assert(item_views(s)[j + 1] == s[j + 1]@);
        }
    }
    assert(item_views(s.remove(i)) =~= item_views(s).remove(i));
}

/// Replacing a node replaces its model, and preserves well-formedness when
/// the new node is well-formed.
pub proof fn lemma_update_views(s: Seq<ItemType>, i: int, t: ItemType)
    requires
        0 <= i < s.len(),
    ensures
        item_views(s.update(i, t)) == item_views(s).update(i, t.item_view()),
        items_wf(s) && t.wf() ==> items_wf(s.update(i, t)),
{
    let u = s.update(i, t);
    lemma_item_views(s);
    lemma_item_views(u);
    lemma_items_wf(s);
    lemma_items_wf(u);
    assert forall|j: int| 0 <= j < u.len() implies item_views(u)[j] == item_views(s).update(
        i,
        t.item_view(),
    )[j] by {
        assert(item_views(u)[j] == u[j]@);
        if j != i {
            assert(u[j] == s[j]);
            assert(item_views(s)[j] == s[j]@);
        }
    }
    assert(item_views(u) =~= item_views(s).update(i, t.item_view()));
}


/// Appends a node and hands out a mutable handle to it: the new last
/// element. Whatever the caller leaves behind the handle is the appended
/// element's final value.
fn push_and_borrow<'a>(v: &'a mut Vec<ItemType>, item: ItemType) -> (r: &'a mut ItemType)
    ensures
        *r == item,
        final(v)@ == old(v)@.push(*final(r)),
        item_views(final(v)@) == item_views(old(v)@).push(final(r).item_view()),
        items_wf(final(v)@) == (items_wf(old(v)@) && final(r).wf()),
{
    v.push(item);
    let n = v.len();
    proof {
        assert forall|x: ItemType|
            (#[trigger] v@.update(n - 1, x) == old(v)@.push(x)) && item_views(
                v@.update(n - 1, x),
            ) == item_views(old(v)@).push(x.item_view()) && items_wf(v@.update(n - 1, x)) == (
            items_wf(old(v)@) && x.wf()) by {
            assert(v@.update(n - 1, x) =~= old(v)@.push(x));
            lemma_push_views(old(v)@, x);
        }
    }
    &mut v[n - 1]
}

/// The payload of a [`ItemType::TList`] node: an ordered sequence of child
/// nodes.
pub struct ItemList {
    items: Vec<ItemType>,
}

impl View for ItemList {
    type V = Seq<ItemV>;

    open spec fn view(&self) -> Seq<ItemV> {
        self.seq_view()
    }
}

impl ItemList {
    /// The model of the list: its elements' models, in order.
    pub closed spec fn seq_view(&self) -> Seq<ItemV>
        decreases self,
    {
        item_views(self.items@)
    }

    /// Well-formedness: every element is well-formed.
    pub closed spec fn wf(&self) -> bool
        decreases self,
    {
        items_wf(self.items@)
    }

    /// The debug rendering: `[e1,e2,...]`.
    pub closed spec fn spec_render(&self) -> Seq<char>
        decreases self,
    {
        "["@ + render_items(self.items@) + "]"@
    }

    /// Builds an empty list, already wrapped as an [`ItemType`].
    pub fn new() -> (r: ItemType)
        ensures
            r@ == ItemV::List(Seq::<ItemV>::empty()),
            r.wf(),
    {
        ItemType::TList(ItemList { items: Vec::new() })
    }

    pub fn is_null(&self) -> (r: bool)
        ensures
            !r,
    {
        false
    }

    pub fn is_number(&self) -> (r: bool)
        ensures
            !r,
    {
        false
    }

    pub fn is_string(&self) -> (r: bool)
        ensures
            !r,
    {
        false
    }

    pub fn is_list(&self) -> (r: bool)
        ensures
            r,
    {
        true
    }

    pub fn is_hash(&self) -> (r: bool)
        ensures
            !r,
    {
        false
    }

    pub fn is_container(&self) -> (r: bool)
        ensures
            r,
    {
        true
    }

    /// The element count.
    pub fn count(&self) -> (r: usize)
        ensures
            r == self@.len(),
    {
        proof {
            lemma_item_views(self.items@);
        }
        self.items.len()
    }

    /// Appends a node. A list rejects keyed addition with
    /// [`ItemError::NotAnItemHash`] and is then left unchanged.
    pub fn add_item(&mut self, item: ItemType, key: Option<String>) -> (r: Result<(), ItemError>)
        ensures
            key is Some ==> r == Err::<(), ItemError>(ItemError::NotAnItemHash) && *final(self)
                == *old(self),
            key is None ==> r == Ok::<(), ItemError>(()) && final(self)@ == old(self)@.push(item@),
            key is None && old(self).wf() && item.wf() ==> final(self).wf(),
    {
        if key.is_some() {
            return Err(ItemError::NotAnItemHash);
        }
        proof {
            lemma_push_views(self.items@, item);
        }
        self.items.push(item);
        Ok(())
    }

    /// Appends a null node; see [`ItemList::add_item`] for the placement rule.
    pub fn add_null(&mut self, key: Option<String>) -> (r: Result<(), ItemError>)
        ensures
            key is Some ==> r == Err::<(), ItemError>(ItemError::NotAnItemHash) && *final(self)
                == *old(self),
            key is None ==> r == Ok::<(), ItemError>(()) && final(self)@ == old(self)@.push(
                ItemV::Null,
            ),
            old(self).wf() ==> final(self).wf(),
    {
        self.add_item(crate::nulls::ItemNull::new(), key)
    }

    /// Appends a boolean node (an absent value defaults to `false`); see
    /// [`ItemList::add_item`] for the placement rule.
    pub fn add_boolean(&mut self, value: Option<bool>, key: Option<String>) -> (r: Result<
        (),
        ItemError,
    >)
        ensures
            key is Some ==> r == Err::<(), ItemError>(ItemError::NotAnItemHash) && *final(self)
                == *old(self),
            key is None ==> r == Ok::<(), ItemError>(()) && final(self)@ == old(self)@.push(
                ItemV::Boolean(value == Some(true)),
            ),
            old(self).wf() ==> final(self).wf(),
    {
        self.add_item(crate::booleans::ItemBoolean::new(value), key)
    }

    /// Appends a number node carrying the given numeric text (an absent value
    /// defaults to `0`); see [`ItemList::add_item`] for the placement rule.
    pub fn add_number(&mut self, value: Option<String>, key: Option<String>) -> (r: Result<
        (),
        ItemError,
    >)
        ensures
            key is Some ==> r == Err::<(), ItemError>(ItemError::NotAnItemHash) && *final(self)
                == *old(self),
            key is None ==> r == Ok::<(), ItemError>(()) && final(self)@ == old(self)@.push(
                ItemV::Number(
                    match value {
                        Some(t) => t@,
                        None => "0"@,
                    },
                ),
            ),
            old(self).wf() ==> final(self).wf(),
    {
        self.add_item(crate::numbers::ItemNumber::new(value), key)
    }

    /// Appends a string node (an absent value defaults to the empty text);
    /// see [`ItemList::add_item`] for the placement rule.
    pub fn add_string(&mut self, value: Option<String>, key: Option<String>) -> (r: Result<
        (),
        ItemError,
    >)
        ensures
            key is Some ==> r == Err::<(), ItemError>(ItemError::NotAnItemHash) && *final(self)
                == *old(self),
            key is None ==> r == Ok::<(), ItemError>(()) && final(self)@ == old(self)@.push(
                ItemV::Str(
                    match value {
                        Some(t) => t@,
                        None => Seq::<char>::empty(),
                    },
                ),
            ),
            old(self).wf() ==> final(self).wf(),
    {
        self.add_item(crate::strings::ItemString::new(value), key)
    }

    /// Appends a fresh empty list and returns a mutable handle to it, so a
    /// caller can keep building depth-first without looking the element up
    /// again; see [`ItemList::add_item`] for the placement rule.
    pub fn add_list<'a>(&'a mut self, key: Option<String>) -> (r: Result<
        &'a mut ItemType,
        ItemError,
    >)
        ensures
            key is Some ==> (r matches Err(e) && e == ItemError::NotAnItemHash && *final(self)
                == *old(self)),
            key is None ==> (r matches Ok(it) && it@ == ItemV::List(Seq::<ItemV>::empty())
                && final(self)@ == old(self)@.push(final(it)@) && (old(self).wf() && final(it).wf()
                ==> final(self).wf())),
    {
        if key.is_some() {
            return Err(ItemError::NotAnItemHash);
        }
        Ok(push_and_borrow(&mut self.items, ItemList::new()))
    }

    /// Appends a fresh empty hash and returns a mutable handle to it; see
    /// [`ItemList::add_item`] for the placement rule.
    pub fn add_hash<'a>(&'a mut self, key: Option<String>) -> (r: Result<
        &'a mut ItemType,
        ItemError,
    >)
        ensures
            key is Some ==> (r matches Err(e) && e == ItemError::NotAnItemHash && *final(self)
                == *old(self)),
            key is None ==> (r matches Ok(it) && it@ == ItemV::Hash(
                Map::<Seq<char>, ItemV>::empty(),
            ) && final(self)@ == old(self)@.push(final(it)@) && (old(self).wf() && final(it).wf()
                ==> final(self).wf())),
    {
        if key.is_some() {
            return Err(ItemError::NotAnItemHash);
        }
        Ok(push_and_borrow(&mut self.items, crate::hashes::ItemHash::new()))
    }

    /// Removes and returns the node at a position. Key addressing is rejected
    /// with [`ItemError::NotAnItemHash`]; a position past the end returns
    /// `None` (not an error). On success, later positions shift down by one.
    pub fn remove_item(&mut self, lookup: ContainerKey) -> (r: Result<Option<ItemType>, ItemError>)
        ensures
            lookup is Key ==> r == Err::<Option<ItemType>, ItemError>(ItemError::NotAnItemHash)
                && *final(self) == *old(self),
            lookup matches ContainerKey::Idx(i) ==> (i < old(self)@.len() ==> (r matches Ok(
                Some(it),
            ) && it@ == old(self)@[i as int] && final(self)@ == old(self)@.remove(i as int) && (
            old(self).wf() ==> final(self).wf() && it.wf()))),
            lookup matches ContainerKey::Idx(i) ==> (i >= old(self)@.len() ==> (r matches Ok(o)
                && o is None && *final(self) == *old(self))),
    {
        proof {
            lemma_item_views(self.items@);
        }
        match lookup {
            ContainerKey::Idx(i) => {
                if i < self.items.len() {
                    proof {
                        lemma_remove_views(self.items@, i as int);
                        lemma_items_wf(self.items@);
                    }
                    Ok(Some(self.items.remove(i)))
                } else {
                    Ok(None)
                }
            },
            ContainerKey::Key(_) => Err(ItemError::NotAnItemHash),
        }
    }

    /// Whether a position is occupied.
    pub fn has_index(&self, index: usize) -> (r: bool)
        ensures
            r == (index < self@.len()),
    {
        proof {
            lemma_item_views(self.items@);
        }
        index < self.items.len()
    }

    /// Whether an addressing key is occupied: true exactly for an in-range
    /// position; a text key is never present in a list.
    pub fn has_key(&self, key: &ContainerKey) -> (r: bool)
        ensures
            r == crate::items::key_addresses_list(key, self@.len()),
    {
        proof {
            lemma_item_views(self.items@);
        }
        match key {
            ContainerKey::Idx(i) => *i < self.items.len(),
            ContainerKey::Key(_) => false,
        }
    }

    /// Whether some element is structurally equal to the given node.
    pub fn has_item(&self, item: &ItemType) -> (r: bool)
        requires
            self.wf(),
            item.wf(),
        ensures
            r == self@.contains(item@),
    {
        proof {
            lemma_item_views(self.items@);
            lemma_items_wf(self.items@);
        }
        let n = self.items.len();
        let mut i: usize = 0;
        while i < n
            invariant
                self.wf(),
                item.wf(),
                i <= n,
                n == self@.len(),
                forall|j: int| 0 <= j < i ==> self@[j] != item@,
            decreases n - i,
        {
            proof {
                lemma_item_views(self.items@);
                lemma_items_wf(self.items@);
            }
            if crate::items::equal_items(&self.items[i], item) {
                proof {
                    assert(self@[i as int] == item@);
                }
                return true;
            }
            i += 1;
        }
        false
    }

    /// The position of the first element structurally equal to the given
    /// node, or `None`. (A list never fails this operation.)
    pub fn index_of_item(&self, item: &ItemType) -> (r: Result<Option<usize>, ItemError>)
        requires
            self.wf(),
            item.wf(),
        ensures
            r matches Ok(o) && (match o {
                Some(i) => crate::items::first_equal_index(self@, item@, i as int),
                None => crate::items::no_equal_element(self@, item@),
            }),
    {
        proof {
            lemma_item_views(self.items@);
            lemma_items_wf(self.items@);
        }
        let n = self.items.len();
        let mut i: usize = 0;
        while i < n
            invariant
                self.wf(),
                item.wf(),
                i <= n,
                n == self@.len(),
                forall|j: int| 0 <= j < i ==> self@[j] != item@,
            decreases n - i,
        {
            proof {
                lemma_item_views(self.items@);
                lemma_items_wf(self.items@);
            }
            if crate::items::equal_items(&self.items[i], item) {
                proof {
                    assert(self@[i as int] == item@);
                }
                return Ok(Some(i));
            }
            i += 1;
        }
        Ok(None)
    }

    /// The addressing key (a position) of the first element structurally
    /// equal to the given node, or `None`.
    pub fn get_key(&self, item: &ItemType) -> (r: Result<Option<ContainerKey>, ItemError>)
        requires
            self.wf(),
            item.wf(),
        ensures
            r matches Ok(o) && (match o {
                Some(k) => (k matches ContainerKey::Idx(i) && crate::items::first_equal_index(
                    self@,
                    item@,
                    i as int,
                )),
                None => crate::items::no_equal_element(self@, item@),
            }),
    {
        match self.index_of_item(item) {
            Ok(Some(i)) => Ok(Some(ContainerKey::Idx(i))),
            Ok(None) => Ok(None),
            Err(e) => Err(e),
        }
    }

    /// A key is never associated with an element of a list; reported as
    /// [`ItemError::NotAnItemHash`].
    pub fn key_of_item(&self, _item: &ItemType) -> (r: Result<Option<String>, ItemError>)
        ensures
            r == Err::<Option<String>, ItemError>(ItemError::NotAnItemHash),
    {
        Err(ItemError::NotAnItemHash)
    }

    /// All occupied addressing keys: the positions `0..count()`, in order.
    pub fn get_keys(&self) -> (r: Result<Vec<ContainerKey>, ItemError>)
        ensures
            r matches Ok(ks) && crate::items::keys_are_positions(ks@, self@.len()),
    {
        proof {
            lemma_item_views(self.items@);
        }
        let n = self.items.len();
        let mut ks: Vec<ContainerKey> = Vec::new();
        let mut i: usize = 0;
        while i < n
            invariant
                i <= n,
                ks@.len() == i,
                forall|j: int| 0 <= j < i ==> ks@[j] == ContainerKey::Idx(j as usize),
            decreases n - i,
        {
            ks.push(ContainerKey::Idx(i));
            i += 1;
        }
        Ok(ks)
    }

    /// All occupied positions, in order: `0..count()`.
    pub fn get_indices(&self) -> (r: Option<Vec<usize>>)
        ensures
            r matches Some(v) && crate::items::positions_upto(v@, self@.len()),
    {
        proof {
            lemma_item_views(self.items@);
        }
        let n = self.items.len();
        let mut v: Vec<usize> = Vec::new();
        let mut i: usize = 0;
        while i < n
            invariant
                i <= n,
                v@.len() == i,
                forall|j: int| 0 <= j < i ==> v@[j] == j,
            decreases n - i,
        {
            v.push(i);
            i += 1;
        }
        Some(v)
    }

    /// The element at an addressing key: `Some` for an in-range position,
    /// `None` for one past the end; key addressing is rejected with
    /// [`ItemError::NotAnItemHash`].
    pub fn get_item<'a>(&'a self, lookup: &ContainerKey) -> (r: Result<
        Option<&'a ItemType>,
        ItemError,
    >)
        ensures
            lookup is Key ==> (r matches Err(e) && e == ItemError::NotAnItemHash),
            lookup matches ContainerKey::Idx(i) ==> (i < self@.len() ==> (r matches Ok(Some(it))
                && it@ == self@[i as int] && (self.wf() ==> it.wf()))),
            lookup matches ContainerKey::Idx(i) ==> (i >= self@.len() ==> (r matches Ok(o)
                && o is None)),
    {
        proof {
            lemma_item_views(self.items@);
            lemma_items_wf(self.items@);
        }
        match lookup {
            ContainerKey::Idx(i) => {
                if *i < self.items.len() {
                    Ok(Some(&self.items[*i]))
                } else {
                    Ok(None)
                }
            },
            ContainerKey::Key(_) => Err(ItemError::NotAnItemHash),
        }
    }

    /// The element at a position, or `None` past the end.
    pub fn item_by_index<'a>(&'a self, index: usize) -> (r: Result<Option<&'a ItemType>, ItemError>)
        ensures
            index < self@.len() ==> (r matches Ok(Some(it)) && it@ == self@[index as int] && (
            self.wf() ==> it.wf())),
            index >= self@.len() ==> (r matches Ok(o) && o is None),
    {
        proof {
            lemma_item_views(self.items@);
            lemma_items_wf(self.items@);
        }
        if index < self.items.len() {
            Ok(Some(&self.items[index]))
        } else {
            Ok(None)
        }
    }

    /// Text-key lookup is rejected by a list with
    /// [`ItemError::NotAnItemHash`].
    pub fn item_by_key<'a>(&'a self, _key: &str) -> (r: Result<Option<&'a ItemType>, ItemError>)
        ensures
            r matches Err(e) && e == ItemError::NotAnItemHash,
    {
        Err(ItemError::NotAnItemHash)
    }


    /// A mutable handle to the last element, or `None` for an empty list.
    pub fn last_mut<'a>(&'a mut self) -> (r: Option<&'a mut ItemType>)
        ensures
            old(self)@.len() == 0 ==> r is None && *final(self) == *old(self),
            old(self)@.len() > 0 ==> (r matches Some(it) && it@ == old(self)@[old(self)@.len()
                - 1] && final(self)@ == old(self)@.update(old(self)@.len() - 1, final(it)@)),
    {
        proof {
            lemma_item_views(self.items@);
        }
        let n = self.items.len();
        if n == 0 {
            None
        } else {
            proof {
                assert forall|x: ItemType|
                    item_views(self.items@.update(n - 1, x)) == #[trigger] item_views(
                        self.items@,
                    ).update(n - 1, x.item_view()) by {
                    lemma_update_views(self.items@, n - 1, x);
                }
            }
            Some(&mut self.items[n - 1])
        }
    }

    /// Renders the list as `[e1,e2,...]`, each element in its debug form.
    pub fn to_string(&self) -> (r: String)
        ensures
            r@ == self.spec_render(),
        decreases self,
    {
        let mut out = String::from_str("[");
        let n = self.items.len();
        let mut i: usize = 0;
        while i < n
            invariant
                i <= n,
                n == self.items@.len(),
                out@ == "["@ + render_items(self.items@.take(i as int)),
            decreases n - i,
        {
            if i > 0 {
                out.append(",");
            }
            let elem = self.items[i].to_string();
            out.append(elem.as_str());
            proof {
                lemma_render_items_take(self.items@, i as int);
                assert(out@ == "["@ + render_items(self.items@.take(i + 1)));
            }
            i += 1;
        }
        out.append("]");
        proof {
            assert(self.items@.take(n as int) =~= self.items@);
        }
        out
    }
}

/// One step of the debug rendering of a sequence: rendering one more element
/// appends a comma (except for the first) and that element's rendering.
pub proof fn lemma_render_items_take(s: Seq<ItemType>, i: int)
    requires
        0 <= i < s.len(),
    ensures
        render_items(s.take(i + 1)) == if i == 0 {
            s[0].spec_render()
        } else {
            render_items(s.take(i)) + ","@ + s[i].spec_render()
        },
{
    let t = s.take(i + 1);
    assert(t.drop_last() =~= s.take(i));
    assert(t.last() == s[i]);
}

/// An abstract mutation of a list: an append of a node with the given model,
/// or a removal at a position.
pub enum ListOp {
    Add(ItemV),
    Remove(int),
}

/// The effect of one mutation on a list model: an add appends; a removal at
/// an in-range position removes, and anywhere else changes nothing (the
/// operation returns `None`).
pub open spec fn apply_list_op(s: Seq<ItemV>, op: ListOp) -> Seq<ItemV> {
    match op {
        ListOp::Add(v) => s.push(v),
        ListOp::Remove(i) => if 0 <= i < s.len() {
            s.remove(i)
        } else {
            s
        },
    }
}

/// The effect of a sequence of mutations, applied in order.
pub open spec fn apply_list_ops(s: Seq<ItemV>, ops: Seq<ListOp>) -> Seq<ItemV>
    decreases ops.len(),
{
    if ops.len() == 0 {
        s
    } else {
        apply_list_ops(apply_list_op(s, ops[0]), ops.skip(1))
    }
}

/// How many of the mutations are adds.
pub open spec fn count_adds(ops: Seq<ListOp>) -> int
    decreases ops.len(),
{
    if ops.len() == 0 {
        0
    } else {
        (if ops[0] is Add {
            1int
        } else {
            0int
        }) + count_adds(ops.skip(1))
    }
}

/// How many of the mutations are removals that succeed (hit an occupied
/// position) when the sequence is applied in order to the given list model.
pub open spec fn count_successful_removes(s: Seq<ItemV>, ops: Seq<ListOp>) -> int
    decreases ops.len(),
{
    if ops.len() == 0 {
        0
    } else {
        (if ops[0] matches ListOp::Remove(i) && 0 <= i < s.len() {
            1int
        } else {
            0int
        }) + count_successful_removes(apply_list_op(s, ops[0]), ops.skip(1))
    }
}

/// For every sequence of add and remove operations on a list, the element
/// count afterwards is the count before plus the number of adds minus the
/// number of successful removes; on a fresh (empty) list, the count is
/// exactly the adds minus the successful removes. Each `add_*` method's
/// contract states that it appends one element (`ListOp::Add`), and
/// `remove_item`'s that a removal returning `Some` removes one
/// (`ListOp::Remove`), so this law covers every such operation sequence.
pub proof fn lemma_count_tracks_operations(s: Seq<ItemV>, ops: Seq<ListOp>)
    ensures
        apply_list_ops(s, ops).len() == s.len() + count_adds(ops) - count_successful_removes(
            s,
            ops,
        ),
    decreases ops.len(),
{
    if ops.len() > 0 {
        lemma_count_tracks_operations(apply_list_op(s, ops[0]), ops.skip(1));
    }
}

/// Structural equality of two lists: same length, pairwise structurally
/// equal elements in order.
pub fn equal_lists(a: &ItemList, b: &ItemList) -> (r: bool)
    requires
        a.wf(),
        b.wf(),
    ensures
        r == (a@ == b@),
    decreases a,
{
    proof {
        lemma_item_views(a.items@);
        lemma_item_views(b.items@);
        lemma_items_wf(a.items@);
        lemma_items_wf(b.items@);
    }
    let n = a.items.len();
    if n != b.items.len() {
        return false;
    }
    let mut i: usize = 0;
    while i < n
        invariant
            a.wf(),
            b.wf(),
            i <= n,
            n == a@.len(),
            n == b@.len(),
            forall|j: int| 0 <= j < i ==> a@[j] == b@[j],
        decreases n - i,
    {
        proof {
            lemma_item_views(a.items@);
            lemma_item_views(b.items@);
            lemma_items_wf(a.items@);
            lemma_items_wf(b.items@);
        }
        if !crate::items::equal_items(&a.items[i], &b.items[i]) {
            proof {
                assert(a@[i as int] != b@[i as int]);
            }
            return false;
        }
        i += 1;
    }
    proof {
        assert(a@ =~= b@);
    }
    true
}

} // verus!
