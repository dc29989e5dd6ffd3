//! The null scalar node.

use vstd::prelude::*;
use vstd::string::StringExecFns;
use crate::items::{ContainerKey, ItemError, ItemType, ItemV};

verus! {

/// The payload of a [`ItemType::TNull`] node. It carries no data; all of its
/// container operations reject, and its rendering is the fixed text `null`.
pub struct ItemNull {}

impl ItemNull {
    /// The rendered debug text of a null node.
    pub open spec fn spec_render(&self) -> Seq<char> {
        "null"@
    }

    /// Builds a null node, already wrapped as an [`ItemType`].
    pub fn new() -> (r: ItemType)
        ensures
            r@ == ItemV::Null,
            r.wf(),
    {
        ItemType::TNull(ItemNull {})
    }

    pub fn add_null(&mut self, _key: Option<String>) -> (r: Result<(), ItemError>)
        ensures
            r == Err::<(), ItemError>(ItemError::NotAnItemContainer),
    {
        Err(ItemError::NotAnItemContainer)
    }

    pub fn add_number(&mut self, _value: Option<String>, _key: Option<String>) -> (r: Result<
        (),
        ItemError,
    >)
        ensures
            r == Err::<(), ItemError>(ItemError::NotAnItemContainer),
    {
        Err(ItemError::NotAnItemContainer)
    }

    pub fn add_string(&mut self, _value: Option<String>, _key: Option<String>) -> (r: Result<
        (),
        ItemError,
    >)
        ensures
            r == Err::<(), ItemError>(ItemError::NotAnItemContainer),
    {
        Err(ItemError::NotAnItemContainer)
    }

    pub fn add_list(&mut self, _key: Option<String>) -> (r: Result<(), ItemError>)
        ensures
            r == Err::<(), ItemError>(ItemError::NotAnItemContainer),
    {
        Err(ItemError::NotAnItemContainer)
    }

    pub fn add_hash(&mut self, _key: Option<String>) -> (r: Result<(), ItemError>)
        ensures
            r == Err::<(), ItemError>(ItemError::NotAnItemContainer),
    {
        Err(ItemError::NotAnItemContainer)
    }

    pub fn is_null(&self) -> (r: bool)
        ensures
            r,
    {
        true
    }

    pub fn is_number(&self) -> (r: bool)
        ensures
            !r,
    {
        false
    }

    pub fn is_string(&self) -> (r: bool)
        ensures
            !r,
    {
        false
    }

    pub fn is_list(&self) -> (r: bool)
        ensures
            !r,
    {
        false
    }

    pub fn is_hash(&self) -> (r: bool)
        ensures
            !r,
    {
        false
    }

    pub fn is_container(&self) -> (r: bool)
        ensures
            !r,
    {
        false
    }

    pub fn count(&self) -> (r: usize)
        ensures
            r == 0,
    {
        0
    }

    pub fn has_index(&self, _index: usize) -> (r: bool)
        ensures
            !r,
    {
        false
    }

    pub fn get_indices(&self) -> (r: Option<Vec<usize>>)
        ensures
            r is None,
    {
        None
    }

    pub fn has_key(&self, _key: &str) -> (r: bool)
        ensures
            !r,
    {
        false
    }

    pub fn get_keys(&self) -> (r: Option<Vec<String>>)
        ensures
            r is None,
    {
        None
    }

    pub fn has_item(&self, _item: &ItemType) -> (r: bool)
        ensures
            !r,
    {
        false
    }

    pub fn index_of_item(&self, _item: &ItemType) -> (r: Result<Option<usize>, ItemError>)
        ensures
            r == Err::<Option<usize>, ItemError>(ItemError::NotAnItemList),
    {
        Err(ItemError::NotAnItemList)
    }

    pub fn key_of_item(&self, _item: &ItemType) -> (r: Result<Option<String>, ItemError>)
        ensures
            r == Err::<Option<String>, ItemError>(ItemError::NotAnItemHash),
    {
        Err(ItemError::NotAnItemHash)
    }

    pub fn item_by_index<'a>(&'a self, _index: usize) -> (r: Result<Option<&'a ItemType>, ItemError>)
        ensures
            r == Err::<Option<&'a ItemType>, ItemError>(ItemError::NotAnItemList),
    {
        Err(ItemError::NotAnItemList)
    }

    pub fn item_by_key<'a>(&'a self, _key: &str) -> (r: Result<Option<&'a ItemType>, ItemError>)
        ensures
            r == Err::<Option<&'a ItemType>, ItemError>(ItemError::NotAnItemHash),
    {
        Err(ItemError::NotAnItemHash)
    }

    pub fn get_key(&self, _item: &ItemType) -> (r: Result<Option<ContainerKey>, ItemError>)
        ensures
            r == Err::<Option<ContainerKey>, ItemError>(ItemError::NotAnItemContainer),
    {
        Err(ItemError::NotAnItemContainer)
    }

    /// Renders the node as the fixed text `null`.
    pub fn to_string(&self) -> (r: String)
        ensures
            r@ == self.spec_render(),
    {
        String::from_str("null")
    }
}

} // verus!
