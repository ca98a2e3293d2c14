//! The links of a document: listing them, retargeting them, removing them.

use crate::ast::{Node, NodeLink, NodeValue, NodeValueView, NodeView};
use crate::utils::{lemma_preorder_child, preorder, preorder_children};
use vstd::prelude::*;
use vstd::string::StringExecFns;

verus! {

/// The targets of the link nodes among `nodes`, in order.
pub open spec fn link_targets(nodes: Seq<Node>) -> Seq<Seq<char>>
    decreases nodes.len(),
{
    if nodes.len() == 0 {
        Seq::empty()
    } else {
        link_targets(nodes.drop_last()) + match nodes.last().value {
            NodeValue::Link(l) => seq![l.url@],
            _ => Seq::empty(),
        }
    }
}

/// The link targets of nodes one after the other are their link targets one
/// after the other.
proof fn lemma_link_targets_concat(a: Seq<Node>, b: Seq<Node>)
    ensures
        link_targets(a + b) == link_targets(a) + link_targets(b),
    decreases b.len(),
{
    if b.len() > 0 {
        lemma_link_targets_concat(a, b.drop_last());
        assert((a + b).drop_last() =~= a + b.drop_last());
    }
}

/// Adds the targets of the links in `node` and below it to `out`, in
/// document order.
fn collect_links(node: &Node, out: &mut Vec<String>)
    ensures
        final(out).deep_view() == old(out).deep_view() + link_targets(preorder(*node)),
    decreases node,
{
    let ghost start = out.deep_view();
    if let NodeValue::Link(l) = &node.value {
        out.push(l.url.clone());
    }
    proof {
        let first = seq![*node];
        assert(link_targets(first.drop_last()) =~= Seq::<Seq<char>>::empty());
    }
    let mut i: usize = 0;
    while i < node.children.len()
        invariant
            i <= node.children.len(),
            out.deep_view() == start + link_targets(
                seq![*node] + preorder_children(*node, i as nat),
            ),
        decreases node.children.len() - i,
    {
        let ghost before = seq![*node] + preorder_children(*node, i as nat);
        collect_links(&node.children[i], out);
        proof {
            let below = preorder(node.children[i as int]);
            lemma_link_targets_concat(before, below);
            assert(before + below =~= seq![*node] + preorder_children(*node, (i + 1) as nat));
        }
        i += 1;
    }
}

/// The targets of all links of the document, in document order.
pub fn get_links(ast: &Node) -> (r: Vec<String>)
    ensures
        r.deep_view() == link_targets(preorder(*ast)),
{
    let mut out: Vec<String> = Vec::new();
    collect_links(ast, &mut out);
    out
}

/// `node` with every link to `from`, in it and below it, made a link to `to`.
pub open spec fn retargeted(node: NodeView, from: Seq<char>, to: Seq<char>) -> NodeView
    decreases node,
{
    NodeView {
        value: match node.value {
            NodeValueView::Link { url, title } => NodeValueView::Link {
                url: if url == from {
                    to
                } else {
                    url
                },
                title,
            },
            other => other,
        },
        children: Seq::new(
            node.children.len(),
            |i: int|
                if 0 <= i < node.children.len() {
                    retargeted(node.children[i], from, to)
                } else {
                    arbitrary()
                },
        ),
    }
}

/// Makes every link to `from`, in `node` and below it, a link to `to`.
fn retarget(node: &mut Node, from: &String, to: &str)
    ensures
        final(node)@ == retargeted(old(node)@, from@, to@),
    decreases *old(node),
{
    let ghost start = *node;
    if let NodeValue::Link(l) = &mut node.value {
        if l.url == *from {
            l.url = String::from_str(to);
        }
    }
    let mut i: usize = 0;
    while i < node.children.len()
        invariant
            i <= node.children.len(),
            start == *old(node),
            node.children.len() == start.children.len(),
            node.value@ == retargeted(start@, from@, to@).value,
            forall|k: int|
                0 <= k < i ==> (#[trigger] node.children[k])@ == retargeted(
                    start.children[k]@,
                    from@,
                    to@,
                ),
            forall|k: int| i <= k < node.children.len() ==> #[trigger] node.children[k] == start.children[k],
        decreases node.children.len() - i,
    {
        retarget(&mut node.children[i], from, to);
        i += 1;
    }
    proof {
        let want = retargeted(start@, from@, to@);
        assert forall|k: int| 0 <= k < node@.children.len() implies node@.children[k]
            == want.children[k] by {
        }
        assert(node@.children =~= want.children);
    }
}

/// Makes every link to `from` in the document a link to `to`.
pub fn replace_links(ast: &mut Node, from: &str, to: &str)
    ensures
        final(ast)@ == retargeted(old(ast)@, from@, to@),
{
    let from = String::from_str(from);
    retarget(ast, &from, to);
}

/// Whether `node` is a link to `target`.
pub open spec fn links_to(node: NodeView, target: Seq<char>) -> bool {
    node.value matches NodeValueView::Link { url, .. } && url == target
}

/// `node` without the links to `target` below it: where a child is such a
/// link, what the link held stands in its place, as it is; any other child
/// stays, without the links to `target` below it. A node that is itself such
/// a link is left with nothing below it.
pub open spec fn unlinked(node: NodeView, target: Seq<char>) -> NodeView
    decreases node, node.children.len() + 1,
{
    NodeView {
        value: node.value,
        children: if links_to(node, target) {
            Seq::empty()
        } else {
            unlinked_children(node, node.children.len(), target)
        },
    }
}

/// What stands in place of the first `n` children of `node` once the links
/// to `target` are removed.
pub open spec fn unlinked_children(node: NodeView, n: nat, target: Seq<char>) -> Seq<NodeView>
    decreases node, n,
{
    if n == 0 || n > node.children.len() {
        Seq::empty()
    } else {
        let child = node.children[n - 1];
        unlinked_children(node, (n - 1) as nat, target) + if links_to(child, target) {
            child.children
        } else {
            seq![unlinked(child, target)]
        }
    }
}

/// The nodes `nodes` as plain values.
pub open spec fn tree_views(nodes: Seq<Node>) -> Seq<NodeView> {
    nodes.map_values(|n: Node| n@)
}

/// Tells whether `node` is a link to `target`.
fn is_link_to(node: &Node, target: &String) -> (r: bool)
    ensures
        r == links_to(node@, target@),
{
    match &node.value {
        NodeValue::Link(l) => l.url == *target,
        _ => false,
    }
}

/// Removes the links to `target` below `node`.
fn unlink(node: &mut Node, target: &String)
    ensures
        final(node)@ == unlinked(old(node)@, target@),
    decreases *old(node),
{
    let ghost start = *node;
    let found = is_link_to(node, target);
    let mut children: Vec<Node> = Vec::new();
    core::mem::swap(&mut children, &mut node.children);
    if found {
        assert(node@.children =~= Seq::<NodeView>::empty());
        return ;
    }
    let ghost items = children@;
    let mut kept: Vec<Node> = Vec::new();
    for child in it: children.into_iter()
        invariant
            it.seq() == items,
            items == start.children@,
            start == *old(node),
            tree_views(kept@) == unlinked_children(start@, it.index() as nat, target@),
    {
        let mut child = child;
        if is_link_to(&child, target) {
            let mut below: Vec<Node> = Vec::new();
            core::mem::swap(&mut below, &mut child.children);
            kept.append(&mut below);
        } else {
            unlink(&mut child, target);
            kept.push(child);
        }
    }
    node.children = kept;
    assert(node@.children =~= tree_views(kept@));
}

/// Removes the links to `url` from the document: what such a link held
/// takes the place of the link, as it is.
pub fn remove_link(ast: &mut Node, url: &str)
    ensures
        final(ast)@ == unlinked(old(ast)@, url@),
{
    let url = String::from_str(url);
    unlink(ast, &url);
}

/// Whether `after` is `before` with every link, in it and below it, replaced
/// by what `f` makes of it, and with nothing else changed.
pub open spec fn links_mapped<F: Fn(NodeLink) -> NodeLink>(before: Node, after: Node, f: F) -> bool
    decreases before,
{
    &&& match before.value {
        NodeValue::Link(l) => after.value matches NodeValue::Link(m) && call_ensures(f, (l,), m),
        other => after.value == other,
    }
    &&& after.children.len() == before.children.len()
    &&& forall|i: int|
        0 <= i < before.children.len() ==> links_mapped(
            #[trigger] before.children[i],
            after.children[i],
            f,
        )
}

/// Whether `f` can be called on every link among `nodes`.
pub open spec fn takes_links<F: Fn(NodeLink) -> NodeLink>(nodes: Seq<Node>, f: F) -> bool {
    forall|i: int|
        0 <= i < nodes.len() ==> ((#[trigger] nodes[i]).value matches NodeValue::Link(l)
            ==> call_requires(f, (l,)))
}

/// Replaces every link of the document by what `iterator` makes of it, in
/// document order.
pub fn iterate_links<F: Fn(NodeLink) -> NodeLink>(ast: &mut Node, iterator: &F)
    requires
        takes_links(preorder(*old(ast)), *iterator),
    ensures
        links_mapped(*old(ast), *final(ast), *iterator),
    decreases *old(ast),
{
    let ghost start = *ast;
    let ghost all = preorder(start);
    assert(all[0] == start);
    if let NodeValue::Link(l) = &mut ast.value {
        let mut link = NodeLink { url: String::new(), title: String::new() };
        core::mem::swap(l, &mut link);
        *l = iterator(link);
    }
    let mut i: usize = 0;
    while i < ast.children.len()
        invariant
            i <= ast.children.len(),
            start == *old(ast),
            all == preorder(start),
            takes_links(all, *iterator),
            ast.children.len() == start.children.len(),
            match start.value {
                NodeValue::Link(l) => ast.value matches NodeValue::Link(m) && call_ensures(
                    *iterator,
                    (l,),
                    m,
                ),
                other => ast.value == other,
            },
            forall|k: int|
                0 <= k < i ==> links_mapped(
                    #[trigger] start.children[k],
                    ast.children[k],
                    *iterator,
                ),
            forall|k: int|
                i <= k < ast.children.len() ==> #[trigger] ast.children[k] == start.children[k],
        decreases ast.children.len() - i,
    {
        proof {
            let below = preorder(start.children[i as int]);
            let done = 1 + preorder_children(start, i as nat).len();
            lemma_preorder_child(start, i as nat, start.children.len() as nat);
            assert forall|j: int| 0 <= j < below.len() implies ((
            #[trigger] below[j]).value matches NodeValue::Link(l) ==> call_requires(
                *iterator,
                (l,),
            )) by {
                assert(all[done + j] == below[j]);
            }
        }
        iterate_links(&mut ast.children[i], iterator);
        i += 1;
    }
}

} // verus!
