//! Walks over the nodes of a document.

use crate::ast::{children_text, own_text, plain_text, Node, NodeValue};
use vstd::prelude::*;
use vstd::string::StringExecFns;

verus! {

/// `node` and the nodes below it, in document order: a node comes before its
/// children, and a child with all that is below it before the next child.
pub open spec fn preorder(node: Node) -> Seq<Node>
    decreases node, node.children.len() + 1,
{
    seq![node] + preorder_children(node, node.children.len() as nat)
}

/// The first `n` children of `node` and the nodes below them, in document
/// order.
pub open spec fn preorder_children(node: Node, n: nat) -> Seq<Node>
    decreases node, n,
{
    if n == 0 || n > node.children.len() {
        Seq::empty()
    } else {
        preorder_children(node, (n - 1) as nat) + preorder(node.children[n - 1])
    }
}

/// Where a child and the nodes below it stand among the nodes of its parent:
/// after the parent itself and the children before it.
pub proof fn lemma_preorder_child(node: Node, i: nat, n: nat)
    requires
        i < n <= node.children.len(),
    ensures
        preorder_children(node, i).len() + preorder(node.children[i as int]).len()
            <= preorder_children(node, n).len(),
        forall|j: int|
            0 <= j < preorder(node.children[i as int]).len() ==> preorder_children(
                node,
                n,
            )[preorder_children(node, i).len() + j] == #[trigger] preorder(
                node.children[i as int],
            )[j],
        forall|j: int|
            0 <= j < preorder_children(node, i).len() ==> preorder_children(node, n)[j]
                == #[trigger] preorder_children(node, i)[j],
    decreases n,
{
    if i + 1 < n {
        lemma_preorder_child(node, i, (n - 1) as nat);
    }
}

/// Calls `f` on `node` and on every node below it, in document order.
pub fn iter_nodes<F: Fn(&Node)>(node: &Node, f: &F)
    requires
        forall|i: int|
            0 <= i < preorder(*node).len() ==> call_requires(*f, (&#[trigger] preorder(*node)[i],)),
    ensures
        forall|i: int|
            0 <= i < preorder(*node).len() ==> call_ensures(
                *f,
                (&#[trigger] preorder(*node)[i],),
                (),
            ),
    decreases node,
{
    let ghost all = preorder(*node);
    assert(all[0] == *node);
    f(node);
    let mut i: usize = 0;
    while i < node.children.len()
        invariant
            i <= node.children.len(),
            all == preorder(*node),
            forall|k: int| 0 <= k < all.len() ==> call_requires(*f, (&#[trigger] all[k],)),
            forall|k: int|
                0 <= k < 1 + preorder_children(*node, i as nat).len() ==> call_ensures(
                    *f,
                    (&#[trigger] all[k],),
                    (),
                ),
        decreases node.children.len() - i,
    {
        let ghost done = 1 + preorder_children(*node, i as nat).len();
        let ghost below = preorder(node.children[i as int]);
        proof {
            lemma_preorder_child(*node, i as nat, node.children.len() as nat);
            assert forall|j: int| 0 <= j < below.len() implies call_requires(
                *f,
                (&#[trigger] below[j],),
            ) by {
                assert(all[done + j] == below[j]);
            }
        }
        iter_nodes(&node.children[i], f);
        proof {
            assert forall|k: int|
                0 <= k < 1 + preorder_children(*node, (i + 1) as nat).len() implies call_ensures(
                *f,
                (&#[trigger] all[k],),
                (),
            ) by {
                if k >= done {
                    assert(all[k] == below[k - done]);
                }
            }
        }
        i += 1;
    }
}

/// Calls `f` on `node` and on every node below it, in document order, until
/// a call fails: the result is that failure, and no node after it is
/// visited.
pub fn iter_nodes_err<F: Fn(&Node) -> Result<(), E>, E>(node: &Node, f: &F) -> (r: Result<(), E>)
    requires
        forall|i: int|
            0 <= i < preorder(*node).len() ==> call_requires(*f, (&#[trigger] preorder(*node)[i],)),
    ensures
        match r {
            Ok(_) => forall|i: int|
                0 <= i < preorder(*node).len() ==> call_ensures(
                    *f,
                    (&#[trigger] preorder(*node)[i],),
                    Ok(()),
                ),
            Err(e) => exists|k: int|
                0 <= k < preorder(*node).len() && call_ensures(
                    *f,
                    (&#[trigger] preorder(*node)[k],),
                    Err(e),
                ) && forall|i: int|
                    0 <= i < k ==> call_ensures(*f, (&#[trigger] preorder(*node)[i],), Ok(())),
        },
    decreases node,
{
    let ghost all = preorder(*node);
    assert(all[0] == *node);
    let first = f(node);
    match first {
        Ok(unit) => {
            assert(unit == ());
        },
        Err(e) => {
            return Err(e);
        },
    }
    let mut i: usize = 0;
    while i < node.children.len()
        invariant
            i <= node.children.len(),
            all == preorder(*node),
            forall|k: int| 0 <= k < all.len() ==> call_requires(*f, (&#[trigger] all[k],)),
            forall|k: int|
                0 <= k < 1 + preorder_children(*node, i as nat).len() ==> call_ensures(
                    *f,
                    (&#[trigger] all[k],),
                    Ok(()),
                ),
        decreases node.children.len() - i,
    {
        let ghost done = 1 + preorder_children(*node, i as nat).len();
        let ghost below = preorder(node.children[i as int]);
        proof {
            lemma_preorder_child(*node, i as nat, node.children.len() as nat);
            assert forall|j: int| 0 <= j < below.len() implies call_requires(
                *f,
                (&#[trigger] below[j],),
            ) by {
                assert(all[done + j] == below[j]);
            }
        }
        match iter_nodes_err(&node.children[i], f) {
            Ok(_) => {
                proof {
                    assert forall|k: int|
                        0 <= k < 1 + preorder_children(
                            *node,
                            (i + 1) as nat,
                        ).len() implies call_ensures(*f, (&#[trigger] all[k],), Ok(())) by {
                        if k >= done {
                            assert(all[k] == below[k - done]);
                        }
                    }
                }
            },
            Err(e) => {
                proof {
                    let at = choose|k: int|
                        0 <= k < below.len() && call_ensures(*f, (&#[trigger] below[k],), Err(e))
                            && forall|j: int|
                            0 <= j < k ==> call_ensures(*f, (&#[trigger] below[j],), Ok(()));
                    assert(all[done + at] == below[at]);
                    assert forall|j: int| 0 <= j < done + at implies call_ensures(
                        *f,
                        (&#[trigger] all[j],),
                        Ok(()),
                    ) by {
                        if j >= done {
                            assert(all[j] == below[j - done]);
                        }
                    }
                }
                return Err(e);
            },
        }
        i += 1;
    }
    Ok(())
}

/// Calls `f` on every child of `node`, in order.
pub fn iter_nodes_shallow<F: Fn(&Node)>(node: &Node, f: &F)
    requires
        forall|i: int|
            0 <= i < node.children.len() ==> call_requires(*f, (&#[trigger] node.children[i],)),
    ensures
        forall|i: int|
            0 <= i < node.children.len() ==> call_ensures(
                *f,
                (&#[trigger] node.children[i],),
                (),
            ),
{
    let mut i: usize = 0;
    while i < node.children.len()
        invariant
            i <= node.children.len(),
            forall|k: int|
                0 <= k < node.children.len() ==> call_requires(
                    *f,
                    (&#[trigger] node.children[k],),
                ),
            forall|k: int|
                0 <= k < i ==> call_ensures(*f, (&#[trigger] node.children[k],), ()),
        decreases node.children.len() - i,
    {
        f(&node.children[i]);
        i += 1;
    }
}

/// Calls `f` on every child of `node`, in order, until a call fails: the
/// result is that failure, and no child after it is visited.
pub fn iter_nodes_shallow_err<F: Fn(&Node) -> Result<(), E>, E>(node: &Node, f: &F) -> (r: Result<
    (),
    E,
>)
    requires
        forall|i: int|
            0 <= i < node.children.len() ==> call_requires(*f, (&#[trigger] node.children[i],)),
    ensures
        match r {
            Ok(_) => forall|i: int|
                0 <= i < node.children.len() ==> call_ensures(
                    *f,
                    (&#[trigger] node.children[i],),
                    Ok(()),
                ),
            Err(e) => exists|k: int|
                0 <= k < node.children.len() && call_ensures(
                    *f,
                    (&#[trigger] node.children[k],),
                    Err(e),
                ) && forall|i: int|
                    0 <= i < k ==> call_ensures(*f, (&#[trigger] node.children[i],), Ok(())),
        },
{
    let mut i: usize = 0;
    while i < node.children.len()
        invariant
            i <= node.children.len(),
            forall|k: int|
                0 <= k < node.children.len() ==> call_requires(
                    *f,
                    (&#[trigger] node.children[k],),
                ),
            forall|k: int|
                0 <= k < i ==> call_ensures(*f, (&#[trigger] node.children[k],), Ok(())),
        decreases node.children.len() - i,
    {
        let one = f(&node.children[i]);
        match one {
            Ok(unit) => {
                assert(unit == ());
            },
            Err(e) => {
                return Err(e);
            },
        }
        i += 1;
    }
    Ok(())
}

/// Calls `f` on `node` and on the nodes below it, in document order, until a
/// call gives a value: the result is that value, and no node after it is
/// visited. Where no call gives one, neither does the walk.
pub fn iter_nodes_r<F: Fn(&Node) -> Option<T>, T>(node: &Node, f: &F) -> (r: Option<T>)
    requires
        forall|i: int|
            0 <= i < preorder(*node).len() ==> call_requires(*f, (&#[trigger] preorder(*node)[i],)),
    ensures
        match r {
            Some(x) => exists|k: int|
                0 <= k < preorder(*node).len() && call_ensures(
                    *f,
                    (&#[trigger] preorder(*node)[k],),
                    Some(x),
                ) && forall|i: int|
                    0 <= i < k ==> call_ensures(
                        *f,
                        (&#[trigger] preorder(*node)[i],),
                        None::<T>,
                    ),
            None => forall|i: int|
                0 <= i < preorder(*node).len() ==> call_ensures(
                    *f,
                    (&#[trigger] preorder(*node)[i],),
                    None::<T>,
                ),
        },
    decreases node,
{
    let ghost all = preorder(*node);
    assert(all[0] == *node);
    if let Some(x) = f(node) {
        return Some(x);
    }
    let mut i: usize = 0;
    while i < node.children.len()
        invariant
            i <= node.children.len(),
            all == preorder(*node),
            forall|k: int| 0 <= k < all.len() ==> call_requires(*f, (&#[trigger] all[k],)),
            forall|k: int|
                0 <= k < 1 + preorder_children(*node, i as nat).len() ==> call_ensures(
                    *f,
                    (&#[trigger] all[k],),
                    None::<T>,
                ),
        decreases node.children.len() - i,
    {
        let ghost done = 1 + preorder_children(*node, i as nat).len();
        let ghost below = preorder(node.children[i as int]);
        proof {
            lemma_preorder_child(*node, i as nat, node.children.len() as nat);
            assert forall|j: int| 0 <= j < below.len() implies call_requires(
                *f,
                (&#[trigger] below[j],),
            ) by {
                assert(all[done + j] == below[j]);
            }
        }
        match iter_nodes_r(&node.children[i], f) {
            Some(x) => {
                proof {
                    let at = choose|k: int|
                        0 <= k < below.len() && call_ensures(*f, (&#[trigger] below[k],), Some(x))
                            && forall|j: int|
                            0 <= j < k ==> call_ensures(*f, (&#[trigger] below[j],), None::<T>);
                    assert(all[done + at] == below[at]);
                    assert forall|j: int| 0 <= j < done + at implies call_ensures(
                        *f,
                        (&#[trigger] all[j],),
                        None::<T>,
                    ) by {
                        if j >= done {
                            assert(all[j] == below[j - done]);
                        }
                    }
                }
                return Some(x);
            },
            None => {
                proof {
                    assert forall|k: int|
                        0 <= k < 1 + preorder_children(
                            *node,
                            (i + 1) as nat,
                        ).len() implies call_ensures(*f, (&#[trigger] all[k],), None::<T>) by {
                        if k >= done {
                            assert(all[k] == below[k - done]);
                        }
                    }
                }
            },
        }
        i += 1;
    }
    None
}

/// The text of `node` and of everything below it, in document order, with a
/// space for a soft break and a newline for a line break.
pub fn extract_text(node: &Node) -> (r: String)
    ensures
        r@ == plain_text(*node),
    decreases node,
{
    let mut out = match &node.value {
        NodeValue::Text(t) => t.clone(),
        NodeValue::SoftBreak => String::from_str(" "),
        NodeValue::LineBreak => String::from_str("\n"),
        _ => String::new(),
    };
    proof {
        reveal_strlit(" ");
        reveal_strlit("\n");
    }
    let mut i: usize = 0;
    while i < node.children.len()
        invariant
            i <= node.children.len(),
            out@ == own_text(node.value) + children_text(*node, i as nat),
        decreases node.children.len() - i,
    {
        let below = extract_text(&node.children[i]);
        out.append(below.as_str());
        i += 1;
    }
    out
}

} // verus!
