//! The string scalar node.

use vstd::prelude::*;
use crate::items::{ItemType, ItemV};

verus! {

/// The payload of a [`ItemType::TString`] node.
pub struct ItemString {
    value: String,
}

impl ItemString {
    /// The text carried by this node.
    pub closed spec fn spec_value(&self) -> Seq<char> {
        self.value@
    }

    /// The rendered debug text: the raw text, without quoting or escaping.
    pub open spec fn spec_render(&self) -> Seq<char> {
        self.spec_value()
    }

    /// Builds a string node, already wrapped as an [`ItemType`].
    /// An absent value defaults to the empty text.
    pub fn new(value: Option<String>) -> (r: ItemType)
        ensures
            r@ == ItemV::Str(
                match value {
                    Some(t) => t@,
                    None => Seq::<char>::empty(),
                },
            ),
            r.wf(),
    {
        let v = match value {
            Some(t) => t,
            None => String::new(),
        };
        ItemType::TString(ItemString { value: v })
    }

    /// The text carried by this node.
    pub fn value(&self) -> (r: &String)
        ensures
            r@ == self.spec_value(),
    {
        &self.value
    }

    pub fn is_null(&self) -> (r: bool)
        ensures
            !r,
    {
        false
    }

    pub fn is_string(&self) -> (r: bool)
        ensures
            r,
    {
        true
    }

    pub fn is_container(&self) -> (r: bool)
        ensures
            !r,
    {
        false
    }

    pub fn count(&self) -> (r: usize)
        ensures
            r == 0,
    {
        0
    }

    /// Renders the node as its raw text, without quoting or escaping.
    pub fn to_string(&self) -> (r: String)
        ensures
            r@ == self.spec_render(),
    {
        self.value.clone()
    }
}

} // verus!
