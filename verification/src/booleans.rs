//! The boolean scalar node.

use vstd::prelude::*;
use vstd::string::StringExecFns;
use crate::items::{ItemType, ItemV};

verus! {

/// The payload of a [`ItemType::TBoolean`] node.
pub struct ItemBoolean {
    value: bool,
}

impl ItemBoolean {
    /// The boolean carried by this node.
    pub closed spec fn spec_value(&self) -> bool {
        self.value
    }

    /// The rendered debug text: `true` or `false`.
    pub open spec fn spec_render(&self) -> Seq<char> {
        if self.spec_value() {
            "true"@
        } else {
            "false"@
        }
    }

    /// Builds a boolean node, already wrapped as an [`ItemType`].
    /// An absent value defaults to `false`.
    pub fn new(value: Option<bool>) -> (r: ItemType)
        ensures
            r@ == ItemV::Boolean(value == Some(true)),
            r.wf(),
    {
        let v = match value {
            Some(b) => b,
            None => false,
        };
        ItemType::TBoolean(ItemBoolean { value: v })
    }

    /// The boolean carried by this node.
    pub fn value(&self) -> (r: bool)
        ensures
            r == self.spec_value(),
    {
        self.value
    }

    pub fn is_null(&self) -> (r: bool)
        ensures
            !r,
    {
        false
    }

    pub fn is_boolean(&self) -> (r: bool)
        ensures
            r,
    {
        true
    }

    pub fn is_container(&self) -> (r: bool)
        ensures
            !r,
    {
        false
    }

    pub fn count(&self) -> (r: usize)
        ensures
            r == 0,
    {
        0
    }

    /// Renders the node as `true` or `false`.
    pub fn to_string(&self) -> (r: String)
        ensures
            r@ == self.spec_render(),
    {
        if self.value {
            String::from_str("true")
        } else {
            String::from_str("false")
        }
    }
}

} // verus!
