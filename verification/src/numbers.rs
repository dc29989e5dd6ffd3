//! The number scalar node.
//!
//! A number is carried as its rendered text (the host language's default
//! numeric-to-text conversion, produced at the ingestion boundary); the tree
//! and the engines treat that text as opaque. This keeps the conversion of
//! native numeric values outside the document model, which only stores and
//! re-emits the text.

use vstd::prelude::*;
use vstd::string::StringExecFns;
use crate::items::{ContainerKey, ItemError, ItemType, ItemV};

verus! {

/// The payload of a [`ItemType::TNumber`] node: the number's rendered text.
pub struct ItemNumber {
    text: String,
}

impl ItemNumber {
    /// The numeric text carried by this node.
    pub closed spec fn spec_text(&self) -> Seq<char> {
        self.text@
    }

    /// The rendered debug text: the numeric text itself, unquoted.
    pub open spec fn spec_render(&self) -> Seq<char> {
        self.spec_text()
    }

    /// Builds a number node, already wrapped as an [`ItemType`].
    /// An absent value defaults to the text `0`.
    pub fn new(value: Option<String>) -> (r: ItemType)
        ensures
            r@ == ItemV::Number(
                match value {
                    Some(t) => t@,
                    None => "0"@,
                },
            ),
            r.wf(),
    {
        let t = match value {
            Some(t) => t,
            None => String::from_str("0"),
        };
        ItemType::TNumber(ItemNumber { text: t })
    }

    /// The numeric text carried by this node.
    pub fn text(&self) -> (r: &String)
        ensures
            r@ == self.spec_text(),
    {
        &self.text
    }

    pub fn is_null(&self) -> (r: bool)
        ensures
            !r,
    {
        false
    }

    pub fn is_boolean(&self) -> (r: bool)
        ensures
            !r,
    {
        false
    }

    pub fn is_number(&self) -> (r: bool)
        ensures
            r,
    {
        true
    }

    pub fn is_string(&self) -> (r: bool)
        ensures
            !r,
    {
        false
    }

    pub fn is_list(&self) -> (r: bool)
        ensures
            !r,
    {
        false
    }

    pub fn is_hash(&self) -> (r: bool)
        ensures
            !r,
    {
        false
    }

    pub fn is_container(&self) -> (r: bool)
        ensures
            !r,
    {
        false
    }

    pub fn count(&self) -> (r: usize)
        ensures
            r == 0,
    {
        0
    }

    pub fn add_null(&mut self, _key: Option<String>) -> (r: Result<(), ItemError>)
        ensures
            r == Err::<(), ItemError>(ItemError::NotAnItemContainer),
    {
        Err(ItemError::NotAnItemContainer)
    }

    pub fn add_list(&mut self, _key: Option<String>) -> (r: Result<(), ItemError>)
        ensures
            r == Err::<(), ItemError>(ItemError::NotAnItemContainer),
    {
        Err(ItemError::NotAnItemContainer)
    }

    pub fn add_hash(&mut self, _key: Option<String>) -> (r: Result<(), ItemError>)
        ensures
            r == Err::<(), ItemError>(ItemError::NotAnItemContainer),
    {
        Err(ItemError::NotAnItemContainer)
    }

    pub fn remove_item(&mut self, _lookup: ContainerKey) -> (r: Result<
        Option<ItemType>,
        ItemError,
    >)
        ensures
            r == Err::<Option<ItemType>, ItemError>(ItemError::NotAnItemContainer),
    {
        Err(ItemError::NotAnItemContainer)
    }

    pub fn has_item(&self, _item: &ItemType) -> (r: bool)
        ensures
            !r,
    {
        false
    }

    pub fn get_item<'a>(&'a self, _lookup: &ContainerKey) -> (r: Result<
        Option<&'a ItemType>,
        ItemError,
    >)
        ensures
            r == Err::<Option<&'a ItemType>, ItemError>(ItemError::NotAnItemContainer),
    {
        Err(ItemError::NotAnItemContainer)
    }

    pub fn has_key(&self, _key: &ContainerKey) -> (r: bool)
        ensures
            !r,
    {
        false
    }

    pub fn get_key(&self, _item: &ItemType) -> (r: Result<Option<ContainerKey>, ItemError>)
        ensures
            r == Err::<Option<ContainerKey>, ItemError>(ItemError::NotAnItemContainer),
    {
        Err(ItemError::NotAnItemContainer)
    }

    pub fn get_keys(&self) -> (r: Result<Vec<ContainerKey>, ItemError>)
        ensures
            r == Err::<Vec<ContainerKey>, ItemError>(ItemError::NotAnItemContainer),
    {
        Err(ItemError::NotAnItemContainer)
    }

    /// Renders the node as its numeric text, unquoted.
    pub fn to_string(&self) -> (r: String)
        ensures
            r@ == self.spec_render(),
    {
        self.text.clone()
    }
}

} // verus!
