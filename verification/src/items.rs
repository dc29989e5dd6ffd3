//! The document node type and its uniform addressing / mutation surface.
//!
//! A document is a tree of [`ItemType`] nodes: three scalar kinds plus null,
//! and two container kinds (ordered list, keyed hash). Containers own their
//! children exclusively; children are only ever added by constructing them
//! fresh, so the tree is acyclic by construction.
//!
//! The mathematical model of a node is [`ItemV`]: lists abstract to a
//! sequence of models, hashes to a map from key text to model (losing entry
//! order, which is deliberate: hash equality is independent of order).

use vstd::prelude::*;
use crate::booleans::ItemBoolean;
use crate::hashes::ItemHash;
use crate::lists::ItemList;
use crate::nulls::ItemNull;
use crate::numbers::ItemNumber;
use crate::strings::ItemString;

verus! {

/// The errors of the document layer. All of them report a mismatch between
/// the caller's addressing intent and the target node's actual kind, except
/// [`ItemError::ItemAdditionFailed`] (a defensive, unreachable report of an
/// internal insertion that could not be read back) and
/// [`ItemError::ItemNotFound`].
#[derive(Debug, Copy, Clone, PartialEq, Eq, Structural)]
pub enum ItemError {
    NotAnItemList,
    NotAnItemHash,
    NotAnItemContainer,
    ItemAdditionFailed,
    ItemNotFound,
}

impl ItemError {
    /// The error's message text.
    pub open spec fn spec_message(&self) -> Seq<char> {
        match self {
            ItemError::NotAnItemList => "Not an item list!"@,
            ItemError::NotAnItemHash => "Not an item hash!"@,
            ItemError::NotAnItemContainer => "Not an item container!"@,
            ItemError::ItemAdditionFailed => "Item addition failure!"@,
            ItemError::ItemNotFound => "Item not found!"@,
        }
    }

    /// The error's message text.
    pub fn message(&self) -> (r: &'static str)
        ensures
            r@ == self.spec_message(),
    {
        match self {
            ItemError::NotAnItemList => "Not an item list!",
            ItemError::NotAnItemHash => "Not an item hash!",
            ItemError::NotAnItemContainer => "Not an item container!",
            ItemError::ItemAdditionFailed => "Item addition failure!",
            ItemError::ItemNotFound => "Item not found!",
        }
    }
}

/// The uniform addressing key: a zero-based position into a list, or a text
/// key into a hash. Handing the wrong kind to a container is reported as an
/// error by the container operations, never a panic.
pub enum ContainerKey {
    Idx(usize),
    Key(String),
}

/// Whether an addressing key names an occupied slot of a list of the given
/// length: an in-range position; a text key never addresses a list.
pub open spec fn key_addresses_list(key: &ContainerKey, len: nat) -> bool {
    match key {
        ContainerKey::Idx(i) => (*i as nat) < len,
        ContainerKey::Key(_) => false,
    }
}

/// Whether an addressing key names an occupied slot of a hash with the given
/// model: a present text key; a position never addresses a hash.
pub open spec fn key_addresses_hash(key: &ContainerKey, m: Map<Seq<char>, ItemV>) -> bool {
    match key {
        ContainerKey::Key(k) => m.contains_key(k@),
        ContainerKey::Idx(_) => false,
    }
}

/// No element of the sequence equals the given model.
pub open spec fn no_equal_element(s: Seq<ItemV>, v: ItemV) -> bool {
    forall|j: int| 0 <= j < s.len() ==> s[j] != v
}

/// The given position holds the first element of the sequence equal to the
/// given model.
pub open spec fn first_equal_index(s: Seq<ItemV>, v: ItemV, i: int) -> bool {
    &&& 0 <= i < s.len()
    &&& s[i] == v
    &&& forall|j: int| 0 <= j < i ==> s[j] != v
}

/// Some value of the map equals the given model.
pub open spec fn hash_has_equal_value(m: Map<Seq<char>, ItemV>, v: ItemV) -> bool {
    exists|k: Seq<char>| #[trigger] m.contains_key(k) && m[k] == v
}

/// No value of the map equals the given model.
pub open spec fn hash_no_equal_value(m: Map<Seq<char>, ItemV>, v: ItemV) -> bool {
    forall|k: Seq<char>| #[trigger] m.contains_key(k) ==> m[k] != v
}

/// The addressing keys are exactly the positions `0..n`, in order.
pub open spec fn keys_are_positions(ks: Seq<ContainerKey>, n: nat) -> bool {
    &&& ks.len() == n
    &&& forall|i: int| 0 <= i < ks.len() ==> ks[i] == ContainerKey::Idx(i as usize)
}

/// The addressing keys are exactly the given key texts, in order.
pub open spec fn keys_are_texts(ks: Seq<ContainerKey>, keys: Seq<Seq<char>>) -> bool {
    &&& ks.len() == keys.len()
    &&& forall|i: int|
        0 <= i < ks.len() ==> ((#[trigger] ks[i]) matches ContainerKey::Key(t) && t@ == keys[i])
}

/// The sequence is exactly the positions `0..n`, in order.
pub open spec fn positions_upto(v: Seq<usize>, n: nat) -> bool {
    &&& v.len() == n
    &&& forall|i: int| 0 <= i < v.len() ==> v[i] == i
}

/// The mathematical model of a document node. A hash abstracts to a map, so
/// equality of models is independent of the order in which hash entries were
/// inserted; a list abstracts to a sequence, so element order matters.
#[verifier::ext_equal]
pub enum ItemV {
    Null,
    Boolean(bool),
    Number(Seq<char>),
    Str(Seq<char>),
    List(Seq<ItemV>),
    Hash(Map<Seq<char>, ItemV>),
}

/// A document node: a closed union of the six node kinds.
pub enum ItemType {
    TNull(ItemNull),
    TBoolean(ItemBoolean),
    TNumber(ItemNumber),
    TString(ItemString),
    TList(ItemList),
    THash(ItemHash),
}

impl View for ItemType {
    type V = ItemV;

    open spec fn view(&self) -> ItemV {
        self.item_view()
    }
}

impl ItemType {
    /// The model of this node; see [`ItemV`].
    pub open spec fn item_view(&self) -> ItemV
        decreases self,
    {
        match self {
            ItemType::TNull(_) => ItemV::Null,
            ItemType::TBoolean(b) => ItemV::Boolean(b.spec_value()),
            ItemType::TNumber(n) => ItemV::Number(n.spec_text()),
            ItemType::TString(s) => ItemV::Str(s.spec_value()),
            ItemType::TList(l) => ItemV::List(l.seq_view()),
            ItemType::THash(h) => ItemV::Hash(h.map_view()),
        }
    }

    /// Well-formedness: every hash anywhere in the tree has pairwise-distinct
    /// keys. Constructors establish it and mutations preserve it.
    pub open spec fn wf(&self) -> bool
        decreases self,
    {
        match self {
            ItemType::TList(l) => l.wf(),
            ItemType::THash(h) => h.wf(),
            _ => true,
        }
    }

    /// The node's debug rendering; see [`ItemType::to_string`].
    pub open spec fn spec_render(&self) -> Seq<char>
        decreases self,
    {
        match self {
            ItemType::TNull(n) => n.spec_render(),
            ItemType::TBoolean(b) => b.spec_render(),
            ItemType::TNumber(n) => n.spec_render(),
            ItemType::TString(s) => s.spec_render(),
            ItemType::TList(l) => l.spec_render(),
            ItemType::THash(h) => h.spec_render(),
        }
    }

    /// The element count of the model: a container's size, 0 for scalars.
    pub open spec fn spec_count(&self) -> nat {
        match self@ {
            ItemV::List(s) => s.len(),
            ItemV::Hash(m) => m.dom().len(),
            _ => 0,
        }
    }

    pub fn is_null(&self) -> (r: bool)
        ensures
            r == (self@ is Null),
    {
        match self {
            ItemType::TNull(_) => true,
            _ => false,
        }
    }

    pub fn is_booleam(&self) -> (r: bool)
        ensures
            r == (self@ is Boolean),
    {
        match self {
            ItemType::TBoolean(_) => true,
            _ => false,
        }
    }

    pub fn is_number(&self) -> (r: bool)
        ensures
            r == (self@ is Number),
    {
        match self {
            ItemType::TNumber(_) => true,
            _ => false,
        }
    }

    pub fn is_string(&self) -> (r: bool)
        ensures
            r == (self@ is Str),
    {
        match self {
            ItemType::TString(_) => true,
            _ => false,
        }
    }

    pub fn is_container(&self) -> (r: bool)
        ensures
            r == (self@ is List || self@ is Hash),
    {
        match self {
            ItemType::TList(_) => true,
            ItemType::THash(_) => true,
            _ => false,
        }
    }

    pub fn is_list(&self) -> (r: bool)
        ensures
            r == (self@ is List),
    {
        match self {
            ItemType::TList(_) => true,
            _ => false,
        }
    }

    pub fn is_hash(&self) -> (r: bool)
        ensures
            r == (self@ is Hash),
    {
        match self {
            ItemType::THash(_) => true,
            _ => false,
        }
    }

    /// What every keyed/unkeyed addition of a node with model `v` does to a
    /// node: a scalar rejects it; a list appends on no key and rejects a key;
    /// a hash insert-or-replaces under a key and rejects the absence of one.
    pub open spec fn add_outcome(
        pre: ItemType,
        post: ItemType,
        key: Option<String>,
        v: ItemV,
        r: Result<(), ItemError>,
    ) -> bool {
        &&& (!(pre@ is List || pre@ is Hash) ==> r == Err::<(), ItemError>(
            ItemError::NotAnItemContainer,
        ) && post == pre)
        &&& (pre@ matches ItemV::List(s0) ==> (key is None ==> r == Ok::<(), ItemError>(())
            && post@ == ItemV::List(s0.push(v))))
        &&& ((pre@ is List && key is Some) ==> r == Err::<(), ItemError>(ItemError::NotAnItemHash)
            && post == pre)
        &&& ((pre@ is Hash && key is Some) ==> r == Ok::<(), ItemError>(()))
        &&& (pre@ matches ItemV::Hash(m0) ==> (key matches Some(k) ==> (pre.wf() ==> post@
            == ItemV::Hash(m0.insert(k@, v)))))
        &&& (pre matches ItemType::THash(h0) ==> (key matches Some(k) ==> (pre.wf() ==> (
        post matches ItemType::THash(h1) && h1.keys() == crate::hashes::insert_key_order(
            h0.keys(),
            k@,
        )))))
        &&& ((pre@ is Hash && key is None) ==> r == Err::<(), ItemError>(ItemError::NotAnItemHash)
            && post == pre)
    }

    /// Adds a null node to a container; see [`ItemType::add_outcome`].
    pub fn add_null(&mut self, key: Option<String>) -> (r: Result<(), ItemError>)
        ensures
            Self::add_outcome(*old(self), *final(self), key, ItemV::Null, r),
            old(self).wf() ==> final(self).wf(),
    {
        match self {
            ItemType::TList(l) => l.add_null(key),
            ItemType::THash(h) => h.add_null(key),
            _ => Err(ItemError::NotAnItemContainer),
        }
    }

    /// Adds a boolean node to a container; see [`ItemType::add_outcome`].
    pub fn add_boolean(&mut self, value: Option<bool>, key: Option<String>) -> (r: Result<
        (),
        ItemError,
    >)
        ensures
            Self::add_outcome(*old(self), *final(self), key, ItemV::Boolean(value == Some(true)), r),
            old(self).wf() ==> final(self).wf(),
    {
        match self {
            ItemType::TList(l) => l.add_boolean(value, key),
            ItemType::THash(h) => h.add_boolean(value, key),
            _ => Err(ItemError::NotAnItemContainer),
        }
    }

    /// Adds a number node carrying the given numeric text to a container; see
    /// [`ItemType::add_outcome`].
    pub fn add_number(&mut self, value: Option<String>, key: Option<String>) -> (r: Result<
        (),
        ItemError,
    >)
        ensures
            Self::add_outcome(
                *old(self),
                *final(self),
                key,
                ItemV::Number(
                    match value {
                        Some(t) => t@,
                        None => "0"@,
                    },
                ),
                r,
            ),
            old(self).wf() ==> final(self).wf(),
    {
        match self {
            ItemType::TList(l) => l.add_number(value, key),
            ItemType::THash(h) => h.add_number(value, key),
            _ => Err(ItemError::NotAnItemContainer),
        }
    }

    /// Adds a string node to a container; see [`ItemType::add_outcome`].
    pub fn add_string(&mut self, value: Option<String>, key: Option<String>) -> (r: Result<
        (),
        ItemError,
    >)
        ensures
            Self::add_outcome(
                *old(self),
                *final(self),
                key,
                ItemV::Str(
                    match value {
                        Some(t) => t@,
                        None => Seq::<char>::empty(),
                    },
                ),
                r,
            ),
            old(self).wf() ==> final(self).wf(),
    {
        match self {
            ItemType::TList(l) => l.add_string(value, key),
            ItemType::THash(h) => h.add_string(value, key),
            _ => Err(ItemError::NotAnItemContainer),
        }
    }

    /// Adds a fresh empty list to a container and returns a mutable handle
    /// to it, so a caller can keep building depth-first without re-looking
    /// the path up: appended to a list when `key` is absent,
    /// inserted-or-replaced under the key of a hash when present; the usual
    /// addressing-mode errors otherwise, with the node unchanged.
    pub fn add_list<'a>(&'a mut self, key: Option<String>) -> (r: Result<
        &'a mut ItemType,
        ItemError,
    >)
        requires
            old(self).wf(),
        ensures
            !(old(self)@ is List || old(self)@ is Hash) ==> (r matches Err(e) && e
                == ItemError::NotAnItemContainer && *final(self) == *old(self)),
            (old(self)@ is List && key is Some) ==> (r matches Err(e) && e
                == ItemError::NotAnItemHash && *final(self) == *old(self)),
            (old(self)@ is Hash && key is None) ==> (r matches Err(e) && e
                == ItemError::NotAnItemHash && *final(self) == *old(self)),
            old(self)@ matches ItemV::List(s0) ==> (key is None ==> (r matches Ok(it) && it@
                == ItemV::List(Seq::<ItemV>::empty()) && final(self)@ == ItemV::List(
                s0.push(final(it)@),
            ) && (final(it).wf() ==> final(self).wf()))),
            old(self)@ matches ItemV::Hash(m0) ==> (key matches Some(k) ==> (r matches Ok(it)
                && it@ == ItemV::List(Seq::<ItemV>::empty()) && final(self)@ == ItemV::Hash(
                m0.insert(k@, final(it)@),
            ) && (final(it).wf() ==> final(self).wf()))),
            *old(self) matches ItemType::THash(h0) ==> (key matches Some(k) ==> (
            *final(self) matches ItemType::THash(h1) && h1.keys()
                == crate::hashes::insert_key_order(h0.keys(), k@))),
    {
        match self {
            ItemType::TList(l) => l.add_list(key),
            ItemType::THash(h) => h.add_list(key),
            _ => Err(ItemError::NotAnItemContainer),
        }
    }

    /// Adds a fresh empty hash to a container and returns a mutable handle
    /// to it; the placement rule of [`ItemType::add_list`].
    pub fn add_hash<'a>(&'a mut self, key: Option<String>) -> (r: Result<
        &'a mut ItemType,
        ItemError,
    >)
        requires
            old(self).wf(),
        ensures
            !(old(self)@ is List || old(self)@ is Hash) ==> (r matches Err(e) && e
                == ItemError::NotAnItemContainer && *final(self) == *old(self)),
            (old(self)@ is List && key is Some) ==> (r matches Err(e) && e
                == ItemError::NotAnItemHash && *final(self) == *old(self)),
            (old(self)@ is Hash && key is None) ==> (r matches Err(e) && e
                == ItemError::NotAnItemHash && *final(self) == *old(self)),
            old(self)@ matches ItemV::List(s0) ==> (key is None ==> (r matches Ok(it) && it@
                == ItemV::Hash(Map::<Seq<char>, ItemV>::empty()) && final(self)@ == ItemV::List(
                s0.push(final(it)@),
            ) && (final(it).wf() ==> final(self).wf()))),
            old(self)@ matches ItemV::Hash(m0) ==> (key matches Some(k) ==> (r matches Ok(it)
                && it@ == ItemV::Hash(Map::<Seq<char>, ItemV>::empty()) && final(self)@
                == ItemV::Hash(m0.insert(k@, final(it)@)) && (final(it).wf()
                ==> final(self).wf()))),
            *old(self) matches ItemType::THash(h0) ==> (key matches Some(k) ==> (
            *final(self) matches ItemType::THash(h1) && h1.keys()
                == crate::hashes::insert_key_order(h0.keys(), k@))),
    {
        match self {
            ItemType::TList(l) => l.add_hash(key),
            ItemType::THash(h) => h.add_hash(key),
            _ => Err(ItemError::NotAnItemContainer),
        }
    }

    /// Removes the node at an addressing key from a container: positions
    /// address lists, text keys address hashes, and the mismatched mode is
    /// rejected with the other container kind's error. An absent position or
    /// key returns `None` (not an error), leaving the container unchanged.
    pub fn remove_item(&mut self, lookup: ContainerKey) -> (r: Result<Option<ItemType>, ItemError>)
        requires
            old(self).wf(),
        ensures
            final(self).wf(),
            !(old(self)@ is List || old(self)@ is Hash) ==> r == Err::<
                Option<ItemType>,
                ItemError,
            >(ItemError::NotAnItemContainer) && *final(self) == *old(self),
            (old(self)@ is List && lookup is Key) ==> r == Err::<Option<ItemType>, ItemError>(
                ItemError::NotAnItemHash,
            ) && *final(self) == *old(self),
            (old(self)@ is Hash && lookup is Idx) ==> r == Err::<Option<ItemType>, ItemError>(
                ItemError::NotAnItemList,
            ) && *final(self) == *old(self),
            old(self)@ matches ItemV::List(s0) ==> (lookup matches ContainerKey::Idx(i) ==> (if i
                < s0.len() {
                r matches Ok(Some(it)) && it@ == s0[i as int] && it.wf() && final(self)@
                    == ItemV::List(s0.remove(i as int))
            } else {
                r matches Ok(o) && o is None && *final(self) == *old(self)
            })),
            old(self)@ matches ItemV::Hash(m0) ==> (lookup matches ContainerKey::Key(k) ==> (
            if m0.contains_key(k@) {
                r matches Ok(Some(it)) && it@ == m0[k@] && it.wf() && final(self)@ == ItemV::Hash(
                    m0.remove(k@),
                )
            } else {
                r matches Ok(o) && o is None && *final(self) == *old(self)
            })),
    {
        match self {
            ItemType::TList(l) => l.remove_item(lookup),
            ItemType::THash(h) => h.remove_item(lookup),
            _ => Err(ItemError::NotAnItemContainer),
        }
    }

    /// The element count of a container; 0 for a scalar.
    pub fn count(&self) -> (r: usize)
        requires
            self.wf(),
        ensures
            r == self.spec_count(),
    {
        match self {
            ItemType::TList(l) => l.count(),
            ItemType::THash(h) => h.count(),
            _ => 0,
        }
    }

    /// Whether an addressing key is occupied: an in-range position of a list,
    /// or a present text key of a hash. False on a scalar and on a mismatched
    /// addressing mode.
    pub fn has_key(&self, key: &ContainerKey) -> (r: bool)
        ensures
            self@ matches ItemV::List(s) ==> r == key_addresses_list(key, s.len()),
            self@ matches ItemV::Hash(m) ==> r == key_addresses_hash(key, m),
            !(self@ is List || self@ is Hash) ==> !r,
    {
        match self {
            ItemType::TList(l) => l.has_key(key),
            ItemType::THash(h) => h.has_key(key),
            _ => false,
        }
    }

    /// Whether some element of a container is structurally equal to the given
    /// node; false on a scalar.
    pub fn has_item(&self, item: &ItemType) -> (r: bool)
        requires
            self.wf(),
            item.wf(),
        ensures
            self@ matches ItemV::List(s) ==> r == s.contains(item@),
            self@ matches ItemV::Hash(m) ==> r == hash_has_equal_value(m, item@),
            !(self@ is List || self@ is Hash) ==> !r,
    {
        match self {
            ItemType::TList(l) => l.has_item(item),
            ItemType::THash(h) => h.has_item(item),
            _ => false,
        }
    }

    /// The element at an addressing key of a container; `None` when the
    /// position or key is unoccupied, an error on a scalar or on a mismatched
    /// addressing mode.
    pub fn get_item<'a>(&'a self, lookup: &ContainerKey) -> (r: Result<
        Option<&'a ItemType>,
        ItemError,
    >)
        requires
            self.wf(),
        ensures
            !(self@ is List || self@ is Hash) ==> (r matches Err(e) && e
                == ItemError::NotAnItemContainer),
            (self@ is List && lookup is Key) ==> (r matches Err(e) && e
                == ItemError::NotAnItemHash),
            (self@ is Hash && lookup is Idx) ==> (r matches Err(e) && e
                == ItemError::NotAnItemList),
            self@ matches ItemV::List(s) ==> (lookup matches ContainerKey::Idx(i) ==> (if i
                < s.len() {
                r matches Ok(Some(it)) && it@ == s[i as int] && it.wf()
            } else {
                r matches Ok(o) && o is None
            })),
            self@ matches ItemV::Hash(m) ==> (lookup matches ContainerKey::Key(k) ==> (
            if m.contains_key(k@) {
                r matches Ok(Some(it)) && it@ == m[k@] && it.wf()
            } else {
                r matches Ok(o) && o is None
            })),
    {
        match self {
            ItemType::TList(l) => l.get_item(lookup),
            ItemType::THash(h) => h.get_item(lookup),
            _ => Err(ItemError::NotAnItemContainer),
        }
    }

    /// The addressing key of some element structurally equal to the given
    /// node, or `None`; an error on a scalar.
    pub fn get_key(&self, item: &ItemType) -> (r: Result<Option<ContainerKey>, ItemError>)
        requires
            self.wf(),
            item.wf(),
        ensures
            !(self@ is List || self@ is Hash) ==> r == Err::<Option<ContainerKey>, ItemError>(
                ItemError::NotAnItemContainer,
            ),
            self@ matches ItemV::List(s) ==> (r matches Ok(o) && (match o {
                Some(ck) => (ck matches ContainerKey::Idx(i) && first_equal_index(
                    s,
                    item@,
                    i as int,
                )),
                None => no_equal_element(s, item@),
            })),
            self@ matches ItemV::Hash(m) ==> (r matches Ok(o) && (match o {
                Some(ck) => (ck matches ContainerKey::Key(t) && m.contains_key(t@) && m[t@]
                    == item@),
                None => hash_no_equal_value(m, item@),
            })),
    {
        match self {
            ItemType::TList(l) => l.get_key(item),
            ItemType::THash(h) => h.get_key(item),
            _ => Err(ItemError::NotAnItemContainer),
        }
    }

    /// All occupied addressing keys of a container, in order; an error on a
    /// scalar.
    pub fn get_keys(&self) -> (r: Result<Vec<ContainerKey>, ItemError>)
        ensures
            !(self@ is List || self@ is Hash) ==> r == Err::<Vec<ContainerKey>, ItemError>(
                ItemError::NotAnItemContainer,
            ),
            self@ matches ItemV::List(s) ==> (r matches Ok(ks) && keys_are_positions(ks@, s.len())),
            self matches ItemType::THash(h) ==> (r matches Ok(ks) && keys_are_texts(ks@, h.keys())),
    {
        match self {
            ItemType::TList(l) => l.get_keys(),
            ItemType::THash(h) => h.get_keys(),
            _ => Err(ItemError::NotAnItemContainer),
        }
    }

    /// Whether a position is occupied; false except on a list.
    pub fn has_index(&self, index: usize) -> (r: bool)
        ensures
            r == (self@ matches ItemV::List(s) && index < s.len()),
    {
        match self {
            ItemType::TList(l) => l.has_index(index),
            _ => false,
        }
    }

    /// All occupied positions of a list, in order; `None` on anything else.
    pub fn get_indices(&self) -> (r: Option<Vec<usize>>)
        ensures
            self@ matches ItemV::List(s) ==> (r matches Some(v) && positions_upto(v@, s.len())),
            !(self@ is List) ==> r is None,
    {
        match self {
            ItemType::TList(l) => l.get_indices(),
            _ => None,
        }
    }

    /// The position of the first element of a list structurally equal to the
    /// given node, or `None`; rejected on anything else with
    /// [`ItemError::NotAnItemList`].
    pub fn index_of_item(&self, item: &ItemType) -> (r: Result<Option<usize>, ItemError>)
        requires
            self.wf(),
            item.wf(),
        ensures
            !(self@ is List) ==> r == Err::<Option<usize>, ItemError>(ItemError::NotAnItemList),
            self@ matches ItemV::List(s) ==> (r matches Ok(o) && (match o {
                Some(i) => first_equal_index(s, item@, i as int),
                None => no_equal_element(s, item@),
            })),
    {
        match self {
            ItemType::TList(l) => l.index_of_item(item),
            _ => Err(ItemError::NotAnItemList),
        }
    }

    /// The text key of some entry of a hash whose value is structurally equal
    /// to the given node, or `None`; rejected on anything else with
    /// [`ItemError::NotAnItemHash`].
    pub fn key_of_item(&self, item: &ItemType) -> (r: Result<Option<String>, ItemError>)
        requires
            self.wf(),
            item.wf(),
        ensures
            !(self@ is Hash) ==> r == Err::<Option<String>, ItemError>(ItemError::NotAnItemHash),
            self@ matches ItemV::Hash(m) ==> (r matches Ok(o) && (match o {
                Some(t) => m.contains_key(t@) && m[t@] == item@,
                None => hash_no_equal_value(m, item@),
            })),
    {
        match self {
            ItemType::THash(h) => h.key_of_item(item),
            _ => Err(ItemError::NotAnItemHash),
        }
    }

    /// The element at a position of a list, `None` past its end; rejected on
    /// anything else with [`ItemError::NotAnItemList`].
    pub fn item_by_index<'a>(&'a self, index: usize) -> (r: Result<Option<&'a ItemType>, ItemError>)
        requires
            self.wf(),
        ensures
            !(self@ is List) ==> (r matches Err(e) && e == ItemError::NotAnItemList),
            self@ matches ItemV::List(s) ==> (if index < s.len() {
                r matches Ok(Some(it)) && it@ == s[index as int] && it.wf()
            } else {
                r matches Ok(o) && o is None
            }),
    {
        match self {
            ItemType::TList(l) => l.item_by_index(index),
            _ => Err(ItemError::NotAnItemList),
        }
    }

    /// The value under a text key of a hash, `None` for an absent key;
    /// rejected on anything else with [`ItemError::NotAnItemHash`].
    pub fn item_by_key<'a>(&'a self, key: &str) -> (r: Result<Option<&'a ItemType>, ItemError>)
        requires
            self.wf(),
        ensures
            !(self@ is Hash) ==> (r matches Err(e) && e == ItemError::NotAnItemHash),
            self@ matches ItemV::Hash(m) ==> (if m.contains_key(key@) {
                r matches Ok(Some(it)) && it@ == m[key@] && it.wf()
            } else {
                r matches Ok(o) && o is None
            }),
    {
        match self {
            ItemType::THash(h) => h.item_by_key(key),
            _ => Err(ItemError::NotAnItemHash),
        }
    }

    /// Renders the node in its minimal debug form: `null`, `true`/`false`,
    /// the numeric text, the raw string text (unquoted, unescaped),
    /// `[e1,e2,...]` for lists, `{"k1":v1,...}` for hashes with the keys
    /// quoted but not escaped.
    pub fn to_string(&self) -> (r: String)
        ensures
            r@ == self.spec_render(),
        decreases self,
    {
        match self {
            ItemType::TNull(n) => n.to_string(),
            ItemType::TBoolean(b) => b.to_string(),
            ItemType::TNumber(n) => n.to_string(),
            ItemType::TString(s) => s.to_string(),
            ItemType::TList(l) => l.to_string(),
            ItemType::THash(h) => h.to_string(),
        }
    }
}

/// Structural equality of two nodes: equal kinds and scalar payloads; lists
/// equal iff same length and pairwise structurally equal elements in order;
/// hashes equal iff same key set with structurally equal values under each
/// key, independent of entry order.
pub fn equal_items(a: &ItemType, b: &ItemType) -> (r: bool)
    requires
        a.wf(),
        b.wf(),
    ensures
        r == (a@ == b@),
    decreases a,
{
    match (a, b) {
        (ItemType::TNull(_), ItemType::TNull(_)) => true,
        (ItemType::TBoolean(x), ItemType::TBoolean(y)) => x.value() == y.value(),
        (ItemType::TNumber(x), ItemType::TNumber(y)) => *x.text() == *y.text(),
        (ItemType::TString(x), ItemType::TString(y)) => *x.value() == *y.value(),
        (ItemType::TList(x), ItemType::TList(y)) => crate::lists::equal_lists(x, y),
        (ItemType::THash(x), ItemType::THash(y)) => crate::hashes::equal_hashes(x, y),
        _ => false,
    }
}

/// Structural equality is reflexive.
pub proof fn lemma_equality_reflexive(a: ItemV)
    ensures
        a == a,
{
}

/// Structural equality is symmetric.
pub proof fn lemma_equality_symmetric(a: ItemV, b: ItemV)
    ensures
        (a == b) <==> (b == a),
{
}

/// Hash contents are insertion-order independent: inserting two entries with
/// distinct keys in either order builds the same hash model, so a hash built
/// with the same contents is equal regardless of construction path. (A list
/// model is a pure function of its contents in order, so the same holds of
/// lists built in identical order.)
pub proof fn lemma_hash_insert_commutes(
    m: Map<Seq<char>, ItemV>,
    k1: Seq<char>,
    v1: ItemV,
    k2: Seq<char>,
    v2: ItemV,
)
    requires
        k1 != k2,
    ensures
        m.insert(k1, v1).insert(k2, v2) == m.insert(k2, v2).insert(k1, v1),
{
    assert(m.insert(k1, v1).insert(k2, v2) =~= m.insert(k2, v2).insert(k1, v1));
}

} // verus!
