use dot013_mdparser::ast::{Node, NodeLink, NodeValue};
use dot013_mdparser::frontmatter::{
    find_frontmatter, framed, set_frontmatter, unframed, Frontmatter, FrontmatterErr,
};

fn default_options() -> comrak::Options {
    let mut opts = comrak::Options::default();
    opts.render.width = 100;
    opts.render.hardbreaks = false;
    opts.extension.strikethrough = true;
    opts.extension.front_matter_delimiter = Some("---".to_owned());
    opts
}

fn to_node<'a>(node: &'a comrak::nodes::AstNode<'a>) -> Node {
    let value = match &node.data.borrow().value {
        comrak::nodes::NodeValue::Document => NodeValue::Document,
        comrak::nodes::NodeValue::FrontMatter(f) => NodeValue::FrontMatter(f.clone()),
        comrak::nodes::NodeValue::BlockQuote => NodeValue::BlockQuote,
        comrak::nodes::NodeValue::Paragraph => NodeValue::Paragraph,
        comrak::nodes::NodeValue::Heading(h) => NodeValue::Heading(h.level),
        comrak::nodes::NodeValue::Text(t) => NodeValue::Text(t.clone()),
        comrak::nodes::NodeValue::SoftBreak => NodeValue::SoftBreak,
        comrak::nodes::NodeValue::LineBreak => NodeValue::LineBreak,
        comrak::nodes::NodeValue::Emph => NodeValue::Emph,
        comrak::nodes::NodeValue::Strong => NodeValue::Strong,
        comrak::nodes::NodeValue::Strikethrough => NodeValue::Strikethrough,
        comrak::nodes::NodeValue::Link(l) => NodeValue::Link(NodeLink {
            url: l.url.clone(),
            title: l.title.clone(),
        }),
        comrak::nodes::NodeValue::Image(l) => NodeValue::Image(NodeLink {
            url: l.url.clone(),
            title: l.title.clone(),
        }),
        _ => NodeValue::Other,
    };
    Node {
        value,
        children: node.children().map(to_node).collect(),
    }
}

fn write_back<'a>(node: &Node, ast: &'a comrak::nodes::AstNode<'a>) {
    if let (NodeValue::FrontMatter(text), comrak::nodes::NodeValue::FrontMatter(held)) =
        (&node.value, &mut ast.data.borrow_mut().value)
    {
        *held = text.clone();
    }
    for (child, ast_child) in node.children.iter().zip(ast.children()) {
        write_back(child, ast_child);
    }
}

fn leaf(value: NodeValue) -> Node {
    Node {
        value,
        children: vec![],
    }
}

#[test]
fn frontmatter_manipulation() {
    let string = "---\n\
                value1: hello world\n\
                value2: 5\n\
                value3: another value\n\
                ---\n\
                # Test string\n\
                A small phrase for testing y'know";

    let arena = comrak::Arena::new();
    let ast = comrak::parse_document(&arena, string, &default_options());
    let mut document = to_node(ast);

    let mut frontmatter = Frontmatter::try_from(&document).unwrap();

    assert_eq!(
        frontmatter.get(String::from("value1")).unwrap(),
        &serde_yaml::to_value("hello world").unwrap()
    );

    frontmatter.insert(
        String::from("value_test"),
        serde_yaml::to_value("a inserted value").unwrap(),
    );

    assert_eq!(
        frontmatter.remove(String::from("value3")),
        Some(serde_yaml::to_value("another value").unwrap())
    );

    frontmatter.insert_ast(&mut document).unwrap();
    write_back(&document, ast);

    let mut res = vec![];
    comrak::format_commonmark(ast, &default_options(), &mut res).unwrap();
    let res = String::from_utf8(res).unwrap();

    let slices = res.split("---").into_iter().collect::<Vec<&str>>();
    let f = slices[1];

    assert_eq!(
        f.lines().find(|l| *l == "value1: hello world").unwrap(),
        "value1: hello world"
    );
    assert_eq!(f.lines().find(|l| *l == "value2: 5").unwrap(), "value2: 5");
    assert_eq!(
        f.lines()
            .find(|l| *l == "value_test: a inserted value")
            .unwrap(),
        "value_test: a inserted value"
    );

    assert_eq!(
        slices[2],
        "\n\n\
        # Test string\n\
        \n\
        A small phrase for testing y'know\n"
    );
}

#[test]
fn unframed_takes_the_text_between_the_hyphens() {
    assert_eq!(unframed("---\na: 1\n---\n"), Some("a: 1"));
    assert_eq!(unframed("  \n---\n\n  a: 1  \n\n---  \n\n"), Some("a: 1"));
    assert_eq!(unframed("------"), Some(""));
    assert_eq!(unframed("---\n---"), Some(""));
}

#[test]
fn unframed_rejects_text_without_a_frame() {
    assert_eq!(unframed(""), None);
    assert_eq!(unframed("a: 1"), None);
    assert_eq!(unframed("---"), None);
    assert_eq!(unframed("-----"), None);
    assert_eq!(unframed("---\na: 1\n"), None);
    assert_eq!(unframed("a: 1\n---"), None);
    assert_eq!(unframed("x---\na: 1\n---"), None);
}

#[test]
fn framed_puts_the_properties_between_hyphens() {
    assert_eq!(framed("a: 1\n"), "---\na: 1\n---\n\n");
    assert_eq!(framed(""), "---\n---\n\n");
}

#[test]
fn parse_without_frame_is_invalid_frontmatter() {
    assert!(matches!(
        Frontmatter::parse("value1: hello world"),
        Err(FrontmatterErr::InvalidFrontmatter)
    ));
    assert!(matches!(
        Frontmatter::parse("---\nvalue1: hello world"),
        Err(FrontmatterErr::InvalidFrontmatter)
    ));
}

#[test]
fn parse_of_text_that_is_no_map_is_a_parsing_error() {
    assert!(matches!(
        Frontmatter::parse("---\n- one\n- two\n---"),
        Err(FrontmatterErr::Parsing(_))
    ));
    assert!(matches!(
        Frontmatter::parse("---\na: [1, 2\n---"),
        Err(FrontmatterErr::Parsing(_))
    ));
}

#[test]
fn parse_gives_every_property_once() {
    let mut entries = Frontmatter::parse("---\nb: 2\na: one\nc: true\n---\n").unwrap();
    entries.sort_by(|x, y| x.0.cmp(&y.0));
    assert_eq!(
        entries,
        vec![
            (String::from("a"), serde_yaml::to_value("one").unwrap()),
            (String::from("b"), serde_yaml::to_value(2).unwrap()),
            (String::from("c"), serde_yaml::to_value(true).unwrap()),
        ]
    );
}

#[test]
fn insert_replaces_and_adds() {
    let mut frontmatter = Frontmatter::new();
    assert_eq!(frontmatter.get(String::from("a")), None);

    frontmatter.insert(String::from("a"), serde_yaml::to_value(1).unwrap());
    frontmatter.insert(String::from("b"), serde_yaml::to_value(2).unwrap());
    frontmatter.insert(String::from("a"), serde_yaml::to_value(3).unwrap());

    assert_eq!(
        frontmatter.get(String::from("a")),
        Some(&serde_yaml::to_value(3).unwrap())
    );
    assert_eq!(
        frontmatter.get(String::from("b")),
        Some(&serde_yaml::to_value(2).unwrap())
    );
    assert_eq!(frontmatter.entries().len(), 2);
}

#[test]
fn remove_hands_back_the_value_once() {
    let mut frontmatter = Frontmatter::new();
    frontmatter.insert(String::from("a"), serde_yaml::to_value(1).unwrap());
    frontmatter.insert(String::from("b"), serde_yaml::to_value(2).unwrap());

    assert_eq!(
        frontmatter.remove(String::from("a")),
        Some(serde_yaml::to_value(1).unwrap())
    );
    assert_eq!(frontmatter.remove(String::from("a")), None);
    assert_eq!(frontmatter.get(String::from("a")), None);
    assert_eq!(
        frontmatter.get(String::from("b")),
        Some(&serde_yaml::to_value(2).unwrap())
    );
    assert_eq!(frontmatter.remove(String::from("missing")), None);
}

#[test]
fn from_entries_refuses_a_name_held_twice() {
    let twice = vec![
        (String::from("a"), serde_yaml::to_value(1).unwrap()),
        (String::from("b"), serde_yaml::to_value(2).unwrap()),
        (String::from("a"), serde_yaml::to_value(3).unwrap()),
    ];
    assert!(Frontmatter::from_entries(twice).is_none());

    let once = vec![
        (String::from("a"), serde_yaml::to_value(1).unwrap()),
        (String::from("b"), serde_yaml::to_value(2).unwrap()),
    ];
    let frontmatter = Frontmatter::from_entries(once).unwrap();
    assert_eq!(
        frontmatter.get(String::from("b")),
        Some(&serde_yaml::to_value(2).unwrap())
    );
}

#[test]
fn to_string_is_read_back_as_the_same_properties() {
    let mut frontmatter = Frontmatter::new();
    frontmatter.insert(String::from("title"), serde_yaml::to_value("A post").unwrap());
    frontmatter.insert(String::from("count"), serde_yaml::to_value(7).unwrap());

    let text = frontmatter.to_string().unwrap();
    assert!(text.starts_with("---\n"));
    assert!(text.ends_with("---\n\n"));
    assert!(text.contains("title: A post\n"));
    assert!(text.contains("count: 7\n"));

    let mut entries = Frontmatter::parse(&text).unwrap();
    entries.sort_by(|x, y| x.0.cmp(&y.0));
    assert_eq!(
        entries,
        vec![
            (String::from("count"), serde_yaml::to_value(7).unwrap()),
            (String::from("title"), serde_yaml::to_value("A post").unwrap()),
        ]
    );
}

#[test]
fn try_from_follows_the_first_children() {
    let document = Node {
        value: NodeValue::Document,
        children: vec![
            Node {
                value: NodeValue::Paragraph,
                children: vec![leaf(NodeValue::FrontMatter(String::from("---\na: 1\n---")))],
            },
            leaf(NodeValue::FrontMatter(String::from("---\nb: 2\n---"))),
        ],
    };
    assert_eq!(
        find_frontmatter(&document),
        Some(&String::from("---\na: 1\n---"))
    );
    let frontmatter = Frontmatter::try_from(&document).unwrap();
    assert_eq!(
        frontmatter.get(String::from("a")),
        Some(&serde_yaml::to_value(1).unwrap())
    );
    assert_eq!(frontmatter.get(String::from("b")), None);
}

#[test]
fn try_from_without_frontmatter_is_empty() {
    let document = Node {
        value: NodeValue::Document,
        children: vec![
            Node {
                value: NodeValue::Paragraph,
                children: vec![leaf(NodeValue::Text(String::from("text")))],
            },
            leaf(NodeValue::FrontMatter(String::from("---\nb: 2\n---"))),
        ],
    };
    assert_eq!(find_frontmatter(&document), None);
    let frontmatter = Frontmatter::try_from(&document).unwrap();
    assert_eq!(frontmatter.entries().len(), 0);
}

#[test]
fn try_from_passes_failures_on() {
    let unframed_text = Node {
        value: NodeValue::Document,
        children: vec![leaf(NodeValue::FrontMatter(String::from("a: 1")))],
    };
    assert!(matches!(
        Frontmatter::try_from(&unframed_text),
        Err(FrontmatterErr::InvalidFrontmatter)
    ));
    let no_map = Node {
        value: NodeValue::Document,
        children: vec![leaf(NodeValue::FrontMatter(String::from("---\n- a\n---")))],
    };
    assert!(matches!(
        Frontmatter::try_from(&no_map),
        Err(FrontmatterErr::Parsing(_))
    ));
}

#[test]
fn set_frontmatter_writes_every_frontmatter() {
    let mut document = Node {
        value: NodeValue::Document,
        children: vec![
            leaf(NodeValue::FrontMatter(String::from("old"))),
            Node {
                value: NodeValue::Paragraph,
                children: vec![
                    leaf(NodeValue::Text(String::from("text"))),
                    leaf(NodeValue::FrontMatter(String::from("older"))),
                ],
            },
        ],
    };
    set_frontmatter(&mut document, "new");
    assert_eq!(
        format!("{:?}", document.children[0].value),
        format!("{:?}", NodeValue::FrontMatter(String::from("new")))
    );
    assert_eq!(
        format!("{:?}", document.children[1].children[0].value),
        format!("{:?}", NodeValue::Text(String::from("text")))
    );
    assert_eq!(
        format!("{:?}", document.children[1].children[1].value),
        format!("{:?}", NodeValue::FrontMatter(String::from("new")))
    );
    assert_eq!(document.children.len(), 2);
}

#[test]
fn shown_frames_what_the_map_wrote() {
    assert_eq!(
        Frontmatter::shown(Ok(String::from("a: 1\n"))).unwrap(),
        "---\na: 1\n---\n\n"
    );
    let failure = serde_yaml::from_str::<u8>("no number").unwrap_err();
    let said = failure.to_string();
    assert_eq!(
        Frontmatter::shown(Err(failure)).unwrap_err().to_string(),
        said
    );
}

#[test]
fn inserted_writes_the_text_or_hands_the_failure_on() {
    let mut document = Node {
        value: NodeValue::Document,
        children: vec![
            leaf(NodeValue::FrontMatter(String::from("old"))),
            leaf(NodeValue::Text(String::from("text"))),
        ],
    };
    assert!(Frontmatter::inserted(Ok(String::from("---\na: 1\n---\n\n")), &mut document).is_ok());
    assert_eq!(
        format!("{:?}", document.children[0].value),
        format!(
            "{:?}",
            NodeValue::FrontMatter(String::from("---\na: 1\n---\n\n"))
        )
    );
    assert_eq!(
        format!("{:?}", document.children[1].value),
        format!("{:?}", NodeValue::Text(String::from("text")))
    );

    let before = format!("{:?}", document);
    let failure = serde_yaml::from_str::<u8>("no number").unwrap_err();
    let said = failure.to_string();
    assert_eq!(
        Frontmatter::inserted(Err(failure), &mut document)
            .unwrap_err()
            .to_string(),
        said
    );
    assert_eq!(format!("{:?}", document), before);
}
