//! The blocks that say how the content of a post is laid out.

use super::attributions::AttributionBlog;
use vstd::prelude::*;
use vstd::std_specs::convert::FromSpecImpl;

verus! {

/// One block of layout.
#[derive(Debug)]
pub enum BlockValue {
    Rows(BlockRows),
    Ask(BlockAsk),
}

/// A layout in rows.
#[derive(Debug)]
pub struct BlockRows {
    pub display: Vec<DisplayBlocks>,
    pub truncate_after: Option<u32>,
}

impl BlockRows {
    /// The rows `blocks`, shown in full.
    pub fn new(blocks: Vec<DisplayBlocks>) -> (r: Self)
        ensures
            r.display == blocks,
            r.truncate_after is None,
    {
        BlockRows { display: blocks, truncate_after: None }
    }
}

/// One row: the content blocks in it, by their position in the content.
#[derive(Debug)]
pub struct DisplayBlocks {
    pub blocks: Vec<u64>,
    pub mode: Option<String>,
}

impl DisplayBlocks {
    /// The row of the content blocks `blocks`, with no mode.
    pub fn new(blocks: Vec<u64>) -> (r: Self)
        ensures
            r.blocks == blocks,
            r.mode is None,
    {
        DisplayBlocks { blocks, mode: None }
    }
}

/// The content blocks that make up a question, and who asked it.
#[derive(Debug)]
pub struct BlockAsk {
    pub blocks: Vec<u64>,
    pub attribution: Option<AttributionBlog>,
}

impl BlockAsk {
    /// The question made of the content blocks `blocks`, asked by nobody.
    pub fn new(blocks: Vec<u64>) -> (r: Self)
        ensures
            r.blocks == blocks,
            r.attribution is None,
    {
        BlockAsk { blocks, attribution: None }
    }
}

impl Default for BlockRows {
    fn default() -> (r: Self)
        ensures
            r.display@.len() == 0,
            r.truncate_after is None,
    {
        BlockRows { display: Vec::new(), truncate_after: None }
    }
}

impl From<Vec<DisplayBlocks>> for BlockRows {
    fn from(value: Vec<DisplayBlocks>) -> (r: Self) {
        BlockRows { display: value, truncate_after: None }
    }
}

impl FromSpecImpl<Vec<DisplayBlocks>> for BlockRows {
    open spec fn obeys_from_spec() -> bool {
        true
    }

    open spec fn from_spec(value: Vec<DisplayBlocks>) -> Self {
        BlockRows { display: value, truncate_after: None }
    }
}

impl From<DisplayBlocks> for BlockRows {
    fn from(value: DisplayBlocks) -> (r: Self)
        ensures
            r.display@ == seq![value],
            r.truncate_after is None,
    {
        let mut display: Vec<DisplayBlocks> = Vec::new();
        display.push(value);
        BlockRows { display, truncate_after: None }
    }
}

impl FromSpecImpl<DisplayBlocks> for BlockRows {
    open spec fn obeys_from_spec() -> bool {
        false
    }

    open spec fn from_spec(value: DisplayBlocks) -> Self {
        arbitrary()
    }
}

impl Default for DisplayBlocks {
    fn default() -> (r: Self)
        ensures
            r.blocks@.len() == 0,
            r.mode is None,
    {
        DisplayBlocks { blocks: Vec::new(), mode: None }
    }
}

impl From<Vec<u64>> for DisplayBlocks {
    fn from(value: Vec<u64>) -> (r: Self) {
        DisplayBlocks { blocks: value, mode: None }
    }
}

impl FromSpecImpl<Vec<u64>> for DisplayBlocks {
    open spec fn obeys_from_spec() -> bool {
        true
    }

    open spec fn from_spec(value: Vec<u64>) -> Self {
        DisplayBlocks { blocks: value, mode: None }
    }
}

impl From<u64> for DisplayBlocks {
    fn from(value: u64) -> (r: Self)
        ensures
            r.blocks@ == seq![value],
            r.mode is None,
    {
        let mut blocks: Vec<u64> = Vec::new();
        blocks.push(value);
        DisplayBlocks { blocks, mode: None }
    }
}

impl FromSpecImpl<u64> for DisplayBlocks {
    open spec fn obeys_from_spec() -> bool {
        false
    }

    open spec fn from_spec(value: u64) -> Self {
        arbitrary()
    }
}

impl Default for BlockAsk {
    fn default() -> (r: Self)
        ensures
            r.blocks@.len() == 0,
            r.attribution is None,
    {
        BlockAsk { blocks: Vec::new(), attribution: None }
    }
}

impl From<Vec<u64>> for BlockAsk {
    fn from(value: Vec<u64>) -> (r: Self) {
        BlockAsk { blocks: value, attribution: None }
    }
}

impl FromSpecImpl<Vec<u64>> for BlockAsk {
    open spec fn obeys_from_spec() -> bool {
        true
    }

    open spec fn from_spec(value: Vec<u64>) -> Self {
        BlockAsk { blocks: value, attribution: None }
    }
}

impl From<u64> for BlockAsk {
    fn from(value: u64) -> (r: Self)
        ensures
            r.blocks@ == seq![value],
            r.attribution is None,
    {
        let mut blocks: Vec<u64> = Vec::new();
        blocks.push(value);
        BlockAsk { blocks, attribution: None }
    }
}

impl FromSpecImpl<u64> for BlockAsk {
    open spec fn obeys_from_spec() -> bool {
        false
    }

    open spec fn from_spec(value: u64) -> Self {
        arbitrary()
    }
}

} // verus!
