//! Conversion of a document into other formats.

use crate::ast::Node;
use vstd::prelude::*;

pub mod npf;

use npf::content_blocks::BlockValue;
use npf::{converted, outcome, NPFConvertError, Options};

verus! {

/// The formats a document can be converted into.
#[derive(Clone, Copy, Debug, PartialEq, Eq, Structural)]
pub enum Formats {
    TumblrNPF,
}

/// Converts a document into the content blocks of a Tumblr post, with links
/// that start with `t:` taken as links like any other.
pub fn to_tumblr_npf(ast: &Node) -> (r: Result<Vec<BlockValue>, NPFConvertError>)
    ensures
        outcome(r, converted(*ast, Options { uuid_link_to_mention: false })),
{
    match npf::from(ast) {
        Ok(post) => Ok(post.content),
        Err(e) => Err(e),
    }
}

} // verus!
