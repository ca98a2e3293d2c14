use dot013_mdparser::ast::{Node, NodeLink, NodeValue};
use dot013_mdparser::convert::npf;
use dot013_mdparser::convert::npf::content_blocks::BlockValue;
use dot013_mdparser::convert::npf::objects::{BlogInfo, Url};
use dot013_mdparser::convert::npf::text_formatting::{
    FormatTypeBold, FormatTypeItalic, FormatTypeLink, FormatTypeMention, FormatTypeStrikeThrough,
    FormatValue,
};

fn default_options() -> comrak::Options {
    let mut opts = comrak::Options::default();
    opts.render.width = 100;
    opts.render.hardbreaks = false;
    opts.extension.strikethrough = true;
    opts.extension.front_matter_delimiter = Some("---".to_owned());
    opts
}

fn to_node<'a>(node: &'a comrak::nodes::AstNode<'a>) -> Node {
    let value = match &node.data.borrow().value {
        comrak::nodes::NodeValue::Document => NodeValue::Document,
        comrak::nodes::NodeValue::FrontMatter(f) => NodeValue::FrontMatter(f.clone()),
        comrak::nodes::NodeValue::BlockQuote => NodeValue::BlockQuote,
        comrak::nodes::NodeValue::Paragraph => NodeValue::Paragraph,
        comrak::nodes::NodeValue::Heading(h) => NodeValue::Heading(h.level),
        comrak::nodes::NodeValue::Text(t) => NodeValue::Text(t.clone()),
        comrak::nodes::NodeValue::SoftBreak => NodeValue::SoftBreak,
        comrak::nodes::NodeValue::LineBreak => NodeValue::LineBreak,
        comrak::nodes::NodeValue::Emph => NodeValue::Emph,
        comrak::nodes::NodeValue::Strong => NodeValue::Strong,
        comrak::nodes::NodeValue::Strikethrough => NodeValue::Strikethrough,
        comrak::nodes::NodeValue::Link(l) => NodeValue::Link(NodeLink {
            url: l.url.clone(),
            title: l.title.clone(),
        }),
        comrak::nodes::NodeValue::Image(l) => NodeValue::Image(NodeLink {
            url: l.url.clone(),
            title: l.title.clone(),
        }),
        _ => NodeValue::Other,
    };
    Node {
        value,
        children: node.children().map(to_node).collect(),
    }
}

fn parse(markdown: &str) -> Node {
    let arena = comrak::Arena::new();
    let ast = comrak::parse_document(&arena, markdown, &default_options());
    to_node(ast)
}

fn text_of(block: &BlockValue) -> &str {
    if let BlockValue::Text(b) = block {
        &b.text
    } else {
        panic!("Given block doesn't match BlockValue::Text\n{:#?}", block);
    }
}

fn formatting_of(block: &BlockValue) -> &Vec<FormatValue> {
    if let BlockValue::Text(b) = block {
        match &b.formatting {
            Some(f) => f,
            None => panic!("Given block doesn't have a formatting vector {:#?}", block),
        }
    } else {
        panic!("Given block doesn't match BlockValue::Text {:#?}", block);
    }
}

fn assert_eq_formatting(expected: &Vec<FormatValue>, actual: &Vec<FormatValue>) {
    for (i, f) in actual.iter().enumerate() {
        match (f, &expected[i]) {
            (FormatValue::Bold(f), FormatValue::Bold(f2)) => {
                assert_eq!(f.start, f2.start);
                assert_eq!(f.end, f2.end);
            }
            (FormatValue::Italic(f), FormatValue::Italic(f2)) => {
                assert_eq!(f.start, f2.start);
                assert_eq!(f.end, f2.end);
            }
            (FormatValue::StrikeThrough(f), FormatValue::StrikeThrough(f2)) => {
                assert_eq!(f.start, f2.start);
                assert_eq!(f.end, f2.end);
            }
            (FormatValue::Small(f), FormatValue::Small(f2)) => {
                assert_eq!(f.start, f2.start);
                assert_eq!(f.end, f2.end);
            }
            (FormatValue::Link(f), FormatValue::Link(f2)) => {
                assert_eq!(f.start, f2.start);
                assert_eq!(f.end, f2.end);
                assert_eq!(f.url.as_str(), f2.url.as_str());
            }
            (FormatValue::Mention(f), FormatValue::Mention(f2)) => {
                assert_eq!(f.start, f2.start);
                assert_eq!(f.end, f2.end);
                assert_eq!(f.blog.uuid, f2.blog.uuid);
                assert_eq!(f.blog.name, f2.blog.name);
                assert_eq!(
                    f.blog.url.as_ref().map(|u| u.as_str()),
                    f2.blog.url.as_ref().map(|u| u.as_str())
                );
            }
            (FormatValue::Color(f), FormatValue::Color(f2)) => {
                assert_eq!(f.start, f2.start);
                assert_eq!(f.end, f2.end);
                assert_eq!(f.hex, f2.hex);
            }
            (f, f2) => panic!("Formatting value aren't the same on {f:#?} and {f2:#?}"),
        }
    }
}

#[test]
fn text_block_plain() {
    let markdown = "Hello world, this is a test of markdown.";
    let ast = parse(markdown);

    let npf = npf::from(&ast).unwrap();

    assert_eq!(
        text_of(&npf.content[0]),
        "Hello world, this is a test of markdown."
    );
}

#[test]
fn text_block_formatting() {
    let markdown = "Hello world, **this is a test of markdown**.";
    let ast = parse(markdown);

    let npf = npf::from(&ast).unwrap();

    let formatting = vec![FormatValue::Bold(FormatTypeBold::from(13..39))];
    let npf_formatting = formatting_of(&npf.content[0]);

    assert_eq_formatting(&formatting, npf_formatting);
    assert_eq!(
        text_of(&npf.content[0]),
        "Hello world, this is a test of markdown."
    );
}

#[test]
fn text_block_formatting_nested() {
    let markdown = "Hello world, **this [is a test of](https://guz.one) markdown**.";
    let ast = parse(markdown);

    let npf = npf::from(&ast).unwrap();

    let formatting = vec![
        FormatValue::Link(FormatTypeLink::new(
            18..30,
            Url::parse("https://guz.one").unwrap(),
        )),
        FormatValue::Bold(FormatTypeBold::from(13..39)),
    ];
    let npf_formatting = formatting_of(&npf.content[0]);

    assert_eq_formatting(&formatting, npf_formatting);
    assert_eq!(
        text_of(&npf.content[0]),
        "Hello world, this is a test of markdown."
    );
}

#[test]
fn text_block_formatting_broken() {
    let markdown = "Hello [world, *this is](https://guz.one) a test of markdown*.";
    let ast = parse(markdown);

    let npf = npf::from(&ast).unwrap();

    let formatting = vec![FormatValue::Link(FormatTypeLink::new(
        6..21,
        Url::parse("https://guz.one").unwrap(),
    ))];
    let npf_formatting = formatting_of(&npf.content[0]);

    assert_eq_formatting(&formatting, npf_formatting);
    assert_eq!(
        text_of(&npf.content[0]),
        "Hello world, *this is a test of markdown*."
    );
}

#[test]
fn text_block_formatting_complex() {
    let markdown = "Hello [world, *this is*](https://guz.one) ~~a test of markdown~~.";
    let ast = parse(markdown);

    let npf = npf::from(&ast).unwrap();

    let formatting = vec![
        FormatValue::Italic(FormatTypeItalic::from(13..20)),
        FormatValue::Link(FormatTypeLink::new(
            6..20,
            Url::parse("https://guz.one").unwrap(),
        )),
        FormatValue::StrikeThrough(FormatTypeStrikeThrough::from(21..39)),
    ];
    let npf_formatting = formatting_of(&npf.content[0]);

    assert_eq_formatting(&formatting, npf_formatting);
    assert_eq!(
        text_of(&npf.content[0]),
        "Hello world, this is a test of markdown."
    );
}

#[test]
fn text_block_paragraph() {
    let markdown = "If **you** are reading this, thanks for giving a look\n\
                    and checking the ~~ugly~~ source code of this *little\n\
                    **personal** project*. It is heart warming to know that *at least*\n\
                    someone found this interesting and maybe useful, even knowing\n\
                    how niched this whole project is.\\
                    - [Gustavo \"Guz\" L. de Mello](https://guz.one), Apr 16, 12.2024";

    let ast = parse(markdown);

    let npf = npf::from(&ast).unwrap();
    let formatting = vec![
        FormatValue::Bold(FormatTypeBold::from(3..6)),
        FormatValue::StrikeThrough(FormatTypeStrikeThrough::from(67..71)),
        FormatValue::Bold(FormatTypeBold::from(99..107)),
        FormatValue::Italic(FormatTypeItalic::from(92..115)),
        FormatValue::Italic(FormatTypeItalic::from(150..158)),
        FormatValue::Link(FormatTypeLink::new(
            257..282,
            Url::parse("https://guz.one").unwrap(),
        )),
    ];

    let npf_formatting = formatting_of(&npf.content[0]);

    assert_eq_formatting(&formatting, npf_formatting);
    assert_eq!(
        text_of(&npf.content[0]),
        "If you are reading this, thanks for giving a look \
        and checking the ugly source code of this little personal project. \
        It is heart warming to know that at least someone found this \
        interesting and maybe useful, even knowing how niched this \
        whole project is.\n\
        - Gustavo \"Guz\" L. de Mello, Apr 16, 12.2024"
    );
}

#[test]
fn text_block_paragraph_with_mention() {
    let markdown = "If **you** are reading this, thanks for giving a look\n\
                    and checking the ~~ugly~~ source code of this *little\n\
                    **personal** project*. It is heart warming to know that *at least*\n\
                    [someone](t:_YENQUPzd_oPpmVDqZQ-yw) found this interesting and maybe useful, even knowing\n\
                    how niched this whole project is.\\
                    - [Gustavo \"Guz\" L. de Mello](https://guz.one), Apr 16, 12.2024";

    let ast = parse(markdown);

    let options = npf::Options {
        uuid_link_to_mention: true,
    };
    let npf = npf::from_with(&ast, &options).unwrap();
    let formatting = vec![
        FormatValue::Bold(FormatTypeBold::from(3..6)),
        FormatValue::StrikeThrough(FormatTypeStrikeThrough::from(67..71)),
        FormatValue::Bold(FormatTypeBold::from(99..107)),
        FormatValue::Italic(FormatTypeItalic::from(92..115)),
        FormatValue::Italic(FormatTypeItalic::from(150..158)),
        FormatValue::Mention(FormatTypeMention::new(
            159..166,
            BlogInfo::new("t:_YENQUPzd_oPpmVDqZQ-yw"),
        )),
        FormatValue::Link(FormatTypeLink::new(
            257..282,
            Url::parse("https://guz.one").unwrap(),
        )),
    ];

    let npf_formatting = formatting_of(&npf.content[0]);

    assert_eq!(npf_formatting.len(), formatting.len());
    assert_eq_formatting(&formatting, npf_formatting);
    assert_eq!(
        text_of(&npf.content[0]),
        "If you are reading this, thanks for giving a look \
        and checking the ugly source code of this little personal project. \
        It is heart warming to know that at least someone found this \
        interesting and maybe useful, even knowing how niched this \
        whole project is.\n\
        - Gustavo \"Guz\" L. de Mello, Apr 16, 12.2024"
    );
}
