//! The parsed Markdown document: a tree of typed nodes.

use vstd::prelude::*;

verus! {

/// The target of a link or of an image, and its title.
#[derive(Debug)]
pub struct NodeLink {
    pub url: String,
    pub title: String,
}

/// What a node of the document is, with the data that belongs to its kind.
#[derive(Debug)]
pub enum NodeValue {
    Document,
    FrontMatter(String),
    BlockQuote,
    Paragraph,
    Heading(u8),
    Text(String),
    SoftBreak,
    LineBreak,
    Emph,
    Strong,
    Strikethrough,
    Link(NodeLink),
    Image(NodeLink),
    /// Any kind of node that carries nothing this library reads.
    Other,
}

/// A node and the nodes below it, in document order.
#[derive(Debug)]
pub struct Node {
    pub value: NodeValue,
    pub children: Vec<Node>,
}

/// The text of `node` and of everything below it, in document order: text
/// nodes give their text, a soft break a space, a line break a newline.
pub open spec fn plain_text(node: Node) -> Seq<char>
    decreases node, node.children.len() + 1,
{
    own_text(node.value) + children_text(node, node.children.len() as nat)
}

/// What a node's own value adds to the text.
pub open spec fn own_text(value: NodeValue) -> Seq<char> {
    match value {
        NodeValue::Text(t) => t@,
        NodeValue::SoftBreak => seq![' '],
        NodeValue::LineBreak => seq!['\n'],
        _ => Seq::empty(),
    }
}

/// The text of the first `n` children of `node`.
pub open spec fn children_text(node: Node, n: nat) -> Seq<char>
    decreases node, n,
{
    if n == 0 || n > node.children.len() {
        Seq::empty()
    } else {
        children_text(node, (n - 1) as nat) + plain_text(node.children[n - 1])
    }
}

/// Whether `node` and everything below it is inline content that carries
/// text and formatting only: text and breaks, which have nothing below them,
/// and emphasis, strong emphasis, strike-through and links around such
/// content.
pub open spec fn inline_only(node: Node) -> bool
    decreases node, node.children.len() + 1,
{
    match node.value {
        NodeValue::Text(_) | NodeValue::SoftBreak | NodeValue::LineBreak => node.children.len()
            == 0,
        NodeValue::Emph | NodeValue::Strong | NodeValue::Strikethrough | NodeValue::Link(_) =>
            inline_children(node, node.children.len() as nat),
        _ => false,
    }
}

/// Whether the first `n` children of `node` are inline content of that kind.
pub open spec fn inline_children(node: Node, n: nat) -> bool
    decreases node, n,
{
    n == 0 || n > node.children.len() || (inline_children(node, (n - 1) as nat) && inline_only(
        node.children[n - 1],
    ))
}

/// A node as plain values.
pub struct NodeView {
    pub value: NodeValueView,
    pub children: Seq<NodeView>,
}

/// The value of a node as plain values.
pub enum NodeValueView {
    Document,
    FrontMatter(Seq<char>),
    BlockQuote,
    Paragraph,
    Heading(u8),
    Text(Seq<char>),
    SoftBreak,
    LineBreak,
    Emph,
    Strong,
    Strikethrough,
    Link { url: Seq<char>, title: Seq<char> },
    Image { url: Seq<char>, title: Seq<char> },
    Other,
}

impl View for NodeValue {
    type V = NodeValueView;

    open spec fn view(&self) -> NodeValueView {
        match *self {
            NodeValue::Document => NodeValueView::Document,
            NodeValue::FrontMatter(f) => NodeValueView::FrontMatter(f@),
            NodeValue::BlockQuote => NodeValueView::BlockQuote,
            NodeValue::Paragraph => NodeValueView::Paragraph,
            NodeValue::Heading(level) => NodeValueView::Heading(level),
            NodeValue::Text(t) => NodeValueView::Text(t@),
            NodeValue::SoftBreak => NodeValueView::SoftBreak,
            NodeValue::LineBreak => NodeValueView::LineBreak,
            NodeValue::Emph => NodeValueView::Emph,
            NodeValue::Strong => NodeValueView::Strong,
            NodeValue::Strikethrough => NodeValueView::Strikethrough,
            NodeValue::Link(l) => NodeValueView::Link { url: l.url@, title: l.title@ },
            NodeValue::Image(l) => NodeValueView::Image { url: l.url@, title: l.title@ },
            NodeValue::Other => NodeValueView::Other,
        }
    }
}

/// `node` and everything below it as plain values.
pub open spec fn tree_view(node: Node) -> NodeView
    decreases node,
{
    NodeView {
        value: node.value@,
        children: Seq::new(
            node.children.len() as nat,
            |i: int|
                if 0 <= i < node.children.len() {
                    tree_view(node.children[i])
                } else {
                    arbitrary()
                },
        ),
    }
}

impl View for Node {
    type V = NodeView;

    open spec fn view(&self) -> NodeView {
        tree_view(*self)
    }
}

} // verus!
