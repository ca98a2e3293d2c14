use dot013_mdparser::ast::{Node, NodeLink, NodeValue};
use dot013_mdparser::links::{get_links, iterate_links, remove_link, replace_links};
use dot013_mdparser::utils::{
    extract_text, iter_nodes, iter_nodes_err, iter_nodes_r, iter_nodes_shallow,
    iter_nodes_shallow_err,
};
use std::cell::RefCell;

fn node(value: NodeValue, children: Vec<Node>) -> Node {
    Node { value, children }
}

fn text(value: &str) -> Node {
    node(NodeValue::Text(String::from(value)), vec![])
}

fn link(url: &str, children: Vec<Node>) -> Node {
    node(
        NodeValue::Link(NodeLink {
            url: String::from(url),
            title: String::from("title"),
        }),
        children,
    )
}

fn sample() -> Node {
    node(
        NodeValue::Document,
        vec![
            node(
                NodeValue::Paragraph,
                vec![
                    text("a"),
                    link("one", vec![text("b"), link("two", vec![text("c")])]),
                    text("d"),
                ],
            ),
            link("three", vec![]),
            node(
                NodeValue::BlockQuote,
                vec![node(NodeValue::Paragraph, vec![link("one", vec![text("e")])])],
            ),
        ],
    )
}

fn shape(node: &Node) -> String {
    let own = match &node.value {
        NodeValue::Document => String::from("doc"),
        NodeValue::Paragraph => String::from("p"),
        NodeValue::BlockQuote => String::from("quote"),
        NodeValue::Text(t) => format!("'{}'", t),
        NodeValue::Link(l) => format!("link<{}|{}>", l.url, l.title),
        other => format!("{:?}", other),
    };
    if node.children.is_empty() {
        own
    } else {
        let below: Vec<String> = node.children.iter().map(shape).collect();
        format!("{}[{}]", own, below.join(" "))
    }
}

#[test]
fn get_links_lists_targets_in_document_order() {
    assert_eq!(get_links(&sample()), vec!["one", "two", "three", "one"]);
    assert_eq!(get_links(&text("none")).len(), 0);
    assert_eq!(get_links(&link("alone", vec![])), vec!["alone"]);
}

#[test]
fn replace_links_retargets_every_link_to_the_target() {
    let mut document = sample();
    replace_links(&mut document, "one", "uno");
    assert_eq!(get_links(&document), vec!["uno", "two", "three", "uno"]);
    assert_eq!(
        shape(&document),
        "doc[p['a' link<uno|title>['b' link<two|title>['c']] 'd'] link<three|title> \
         quote[p[link<uno|title>['e']]]]"
    );
}

#[test]
fn replace_links_without_a_match_changes_nothing() {
    let mut document = sample();
    replace_links(&mut document, "four", "quatro");
    assert_eq!(shape(&document), shape(&sample()));
}

#[test]
fn remove_link_puts_what_the_link_held_in_its_place() {
    let mut document = sample();
    remove_link(&mut document, "one");
    assert_eq!(
        shape(&document),
        "doc[p['a' 'b' link<two|title>['c'] 'd'] link<three|title> quote[p['e']]]"
    );
}

#[test]
fn remove_link_leaves_links_inside_a_removed_link() {
    let mut document = node(
        NodeValue::Paragraph,
        vec![link("x", vec![text("a"), link("x", vec![text("b")])])],
    );
    remove_link(&mut document, "x");
    assert_eq!(shape(&document), "p['a' link<x|title>['b']]");
}

#[test]
fn remove_link_of_a_link_without_content_removes_it() {
    let mut document = sample();
    remove_link(&mut document, "three");
    assert_eq!(
        shape(&document),
        "doc[p['a' link<one|title>['b' link<two|title>['c']] 'd'] quote[p[link<one|title>['e']]]]"
    );
}

#[test]
fn remove_link_at_the_root_empties_the_link() {
    let mut root = link("x", vec![text("a"), text("b")]);
    remove_link(&mut root, "x");
    assert_eq!(shape(&root), "link<x|title>");
}

#[test]
fn iterate_links_rewrites_every_link() {
    let mut document = sample();
    iterate_links(&mut document, &|l: NodeLink| NodeLink {
        url: format!("https://guz.one/{}", l.url),
        title: l.title.to_uppercase(),
    });
    assert_eq!(
        shape(&document),
        "doc[p['a' link<https://guz.one/one|TITLE>['b' link<https://guz.one/two|TITLE>['c']] 'd'] \
         link<https://guz.one/three|TITLE> quote[p[link<https://guz.one/one|TITLE>['e']]]]"
    );
}

#[test]
fn iter_nodes_visits_every_node_in_document_order() {
    let seen = RefCell::new(Vec::new());
    iter_nodes(&sample(), &|n: &Node| {
        seen.borrow_mut().push(match &n.value {
            NodeValue::Text(t) => t.clone(),
            NodeValue::Link(l) => l.url.clone(),
            NodeValue::Document => String::from("doc"),
            NodeValue::Paragraph => String::from("p"),
            NodeValue::BlockQuote => String::from("quote"),
            _ => String::from("?"),
        })
    });
    assert_eq!(
        seen.into_inner(),
        vec!["doc", "p", "a", "one", "b", "two", "c", "d", "three", "quote", "p", "one", "e"]
    );
}

#[test]
fn iter_nodes_shallow_visits_the_children_only() {
    let seen = RefCell::new(0);
    iter_nodes_shallow(&sample(), &|_: &Node| *seen.borrow_mut() += 1);
    assert_eq!(seen.into_inner(), 3);
}

#[test]
fn iter_nodes_err_stops_at_the_first_failure() {
    let seen = RefCell::new(Vec::new());
    let r = iter_nodes_err(&sample(), &|n: &Node| {
        if let NodeValue::Link(l) = &n.value {
            seen.borrow_mut().push(l.url.clone());
            if l.url == "two" {
                return Err(String::from("stop"));
            }
        }
        Ok(())
    });
    assert_eq!(r, Err(String::from("stop")));
    assert_eq!(seen.into_inner(), vec!["one", "two"]);

    let r: Result<(), String> = iter_nodes_err(&sample(), &|_: &Node| Ok(()));
    assert_eq!(r, Ok(()));
}

#[test]
fn iter_nodes_shallow_err_stops_at_the_first_failure() {
    let seen = RefCell::new(0);
    let r = iter_nodes_shallow_err(&sample(), &|n: &Node| {
        *seen.borrow_mut() += 1;
        match &n.value {
            NodeValue::Link(l) => Err(l.url.clone()),
            _ => Ok(()),
        }
    });
    assert_eq!(r, Err(String::from("three")));
    assert_eq!(seen.into_inner(), 2);
}

#[test]
fn iter_nodes_r_gives_the_first_value() {
    let found = iter_nodes_r(&sample(), &|n: &Node| match &n.value {
        NodeValue::Link(l) if l.url != "one" => Some(l.url.clone()),
        _ => None,
    });
    assert_eq!(found, Some(String::from("two")));

    let found: Option<u8> = iter_nodes_r(&sample(), &|_: &Node| None);
    assert_eq!(found, None);
}

#[test]
fn extract_text_reads_text_and_breaks() {
    let tree = node(
        NodeValue::Paragraph,
        vec![
            text("a"),
            node(NodeValue::SoftBreak, vec![]),
            node(NodeValue::Strong, vec![text("b"), link("x", vec![text("c")])]),
            node(NodeValue::LineBreak, vec![]),
            text("d"),
        ],
    );
    assert_eq!(extract_text(&tree), "a bc\nd");
    assert_eq!(extract_text(&sample()), "abcde");
}
