//! Markdown documents as trees, and what is made of them: the blocks of a
//! Tumblr post, with the formatting of ranges of their text; the links and
//! the front matter of a document; and what the command line shows.

pub mod ast;
pub mod bindings;
pub mod cli;
pub mod convert;
pub mod frontmatter;
pub mod links;
pub mod utils;
