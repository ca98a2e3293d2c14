use dot013_mdparser::convert::npf::content_blocks::{
    BlockImage, BlockLink, BlockText, BlockTextSubtype, BlockValue,
};
use dot013_mdparser::convert::npf::objects::{Media, Post, Url};
use dot013_mdparser::convert::npf::objects_post::{fold_adjacent, fold_text_block_with_sep};
use dot013_mdparser::convert::npf::text_formatting::{
    FormatTypeBold, FormatTypeItalic, FormatTypeLink, FormatValue,
};

fn text(value: &str) -> BlockValue {
    BlockValue::Text(BlockText::new(value))
}

fn text_with(value: &str, formatting: Vec<FormatValue>) -> BlockValue {
    let mut block = BlockText::new(value);
    block.formatting = Some(formatting);
    BlockValue::Text(block)
}

fn image(name: &str) -> BlockValue {
    BlockValue::Image(BlockImage::new(vec![Media::new(String::from(name))]))
}

fn as_text(block: &BlockValue) -> &BlockText {
    match block {
        BlockValue::Text(t) => t,
        other => panic!("not a text block: {:?}", other),
    }
}

fn spans(block: &BlockValue) -> Vec<(&'static str, u64, u64)> {
    match &as_text(block).formatting {
        None => vec![],
        Some(all) => all
            .iter()
            .map(|f| match f {
                FormatValue::Bold(b) => (f.tag(), b.start, b.end),
                FormatValue::Italic(b) => (f.tag(), b.start, b.end),
                FormatValue::StrikeThrough(b) => (f.tag(), b.start, b.end),
                FormatValue::Small(b) => (f.tag(), b.start, b.end),
                FormatValue::Link(b) => (f.tag(), b.start, b.end),
                FormatValue::Mention(b) => (f.tag(), b.start, b.end),
                FormatValue::Color(b) => (f.tag(), b.start, b.end),
            })
            .collect(),
    }
}

#[test]
fn fold_of_nothing_is_nothing() {
    assert_eq!(fold_adjacent(vec![], "").len(), 0);
    assert_eq!(fold_adjacent(vec![], "\n\n").len(), 0);
}

#[test]
fn fold_of_one_plain_block_keeps_its_text() {
    let out = fold_adjacent(vec![text("alone")], "");
    assert_eq!(out.len(), 1);
    assert_eq!(as_text(&out[0]).text, "alone");
    assert!(as_text(&out[0]).formatting.is_none());

    let out = fold_adjacent(vec![text("alone")], "\n\n");
    assert_eq!(out.len(), 1);
    assert_eq!(as_text(&out[0]).text, "alone");
}

#[test]
fn fold_moves_ranges_by_the_text_before_them() {
    let out = fold_adjacent(
        vec![
            text("Hello "),
            text_with(
                "world",
                vec![FormatValue::Bold(FormatTypeBold::from(0..5))],
            ),
            text_with(
                ", again",
                vec![
                    FormatValue::Italic(FormatTypeItalic::from(2..7)),
                    FormatValue::Bold(FormatTypeBold::from(0..1)),
                ],
            ),
        ],
        "",
    );
    assert_eq!(out.len(), 1);
    assert_eq!(as_text(&out[0]).text, "Hello world, again");
    assert_eq!(
        spans(&out[0]),
        vec![("bold", 6, 11), ("italic", 13, 18), ("bold", 11, 12)]
    );
}

#[test]
fn fold_counts_characters_not_bytes() {
    let out = fold_adjacent(
        vec![
            text("héllo wörld — "),
            text_with("ça", vec![FormatValue::Bold(FormatTypeBold::from(0..2))]),
        ],
        "",
    );
    assert_eq!(as_text(&out[0]).text, "héllo wörld — ça");
    assert_eq!(spans(&out[0]), vec![("bold", 14, 16)]);
}

#[test]
fn fold_with_separator_counts_the_separator() {
    let out = fold_adjacent(
        vec![
            text_with("A", vec![FormatValue::Bold(FormatTypeBold::from(0..1))]),
            text_with("B", vec![FormatValue::Italic(FormatTypeItalic::from(0..1))]),
            text_with("C", vec![FormatValue::Bold(FormatTypeBold::from(0..1))]),
        ],
        "\n\n",
    );
    assert_eq!(out.len(), 1);
    assert_eq!(as_text(&out[0]).text, "A\n\nB\n\nC");
    assert_eq!(
        spans(&out[0]),
        vec![("bold", 0, 1), ("italic", 3, 4), ("bold", 6, 7)]
    );
}

#[test]
fn fold_takes_the_separator_from_the_first_block_only() {
    let out = fold_adjacent(
        vec![text("A"), text("B"), image("one.png"), text("C"), text("D")],
        "--",
    );
    assert_eq!(out.len(), 3);
    assert_eq!(as_text(&out[0]).text, "A--B");
    assert!(matches!(out[1], BlockValue::Image(_)));
    assert_eq!(as_text(&out[2]).text, "C--D--");
}

#[test]
fn fold_leaves_the_separator_where_the_first_block_is_no_text() {
    let out = fold_adjacent(vec![image("one.png"), text("A"), text("B")], "--");
    assert_eq!(out.len(), 2);
    assert!(matches!(out[0], BlockValue::Image(_)));
    assert_eq!(as_text(&out[1]).text, "A--B--");
}

#[test]
fn fold_passes_other_blocks_through_in_order() {
    let link = BlockValue::Link(BlockLink::new(Url::parse("https://guz.one").unwrap()));
    let out = fold_adjacent(
        vec![
            image("one.png"),
            image("two.png"),
            text("A"),
            link,
            text("B"),
            text("C"),
            image("three.png"),
        ],
        "",
    );
    assert_eq!(out.len(), 6);
    match &out[0] {
        BlockValue::Image(i) => assert_eq!(i.media[0].identifier.as_deref(), Some("one.png")),
        other => panic!("not an image: {:?}", other),
    }
    match &out[1] {
        BlockValue::Image(i) => assert_eq!(i.media[0].identifier.as_deref(), Some("two.png")),
        other => panic!("not an image: {:?}", other),
    }
    assert_eq!(as_text(&out[2]).text, "A");
    match &out[3] {
        BlockValue::Link(l) => assert_eq!(l.url.as_str(), "https://guz.one/"),
        other => panic!("not a link: {:?}", other),
    }
    assert_eq!(as_text(&out[4]).text, "BC");
    match &out[5] {
        BlockValue::Image(i) => assert_eq!(i.media[0].identifier.as_deref(), Some("three.png")),
        other => panic!("not an image: {:?}", other),
    }
}

#[test]
fn fold_drops_subtype_and_indent_of_the_members() {
    let mut first = BlockText::new("A");
    first.subtype = Some(BlockTextSubtype::Quote);
    first.indent_level = Some(2);
    let out = fold_adjacent(vec![BlockValue::Text(first), text("B")], "");
    assert_eq!(as_text(&out[0]).text, "AB");
    assert_eq!(as_text(&out[0]).subtype, None);
    assert_eq!(as_text(&out[0]).indent_level, None);
}

#[test]
fn fold_keeps_an_empty_list_of_ranges() {
    let out = fold_adjacent(vec![text("A"), text_with("B", vec![])], "");
    assert_eq!(as_text(&out[0]).text, "AB");
    assert_eq!(as_text(&out[0]).formatting.as_ref().map(|f| f.len()), Some(0));
}

#[test]
fn fold_text_block_with_sep_appends_text_and_ranges() {
    let mut acc = BlockText::new("Hello ");
    acc.formatting = Some(vec![FormatValue::Italic(FormatTypeItalic::from(0..5))]);
    let member = text_with(
        "world",
        vec![FormatValue::Link(FormatTypeLink::new(
            1..4,
            Url::parse("https://guz.one").unwrap(),
        ))],
    );
    let out = fold_text_block_with_sep(acc, member, "; ");
    assert_eq!(out.text, "Hello world; ");
    let block = BlockValue::Text(out);
    assert_eq!(spans(&block), vec![("italic", 0, 5), ("link", 7, 10)]);
}

#[test]
fn fold_text_block_with_sep_leaves_other_blocks_out() {
    let acc = BlockText::new("Hello");
    let out = fold_text_block_with_sep(acc, image("one.png"), "; ");
    assert_eq!(out.text, "Hello");
    assert!(out.formatting.is_none());
}

#[test]
fn join_content_folds_the_content_and_keeps_the_rest() {
    let mut post = Post::new(7);
    post.slug = Some(String::from("a-post"));
    post.content = vec![text("A"), text("B"), image("one.png"), text("C")];
    let post = post.join_content("\n\n");
    assert_eq!(post.id, 7);
    assert_eq!(post.id_string, "7");
    assert_eq!(post.slug.as_deref(), Some("a-post"));
    assert_eq!(post.content.len(), 3);
    assert_eq!(as_text(&post.content[0]).text, "A\n\nB");
    assert_eq!(as_text(&post.content[2]).text, "C\n\n");
}

#[test]
fn fold_content_joins_without_separator() {
    let mut post = Post::new(0);
    post.content = vec![
        text("Hello world, "),
        text_with(
            "this is a test of markdown",
            vec![FormatValue::Bold(FormatTypeBold::from(0..26))],
        ),
        text("."),
    ];
    let post = post.fold_content();
    assert_eq!(post.content.len(), 1);
    assert_eq!(
        as_text(&post.content[0]).text,
        "Hello world, this is a test of markdown."
    );
    assert_eq!(spans(&post.content[0]), vec![("bold", 13, 39)]);
}

#[test]
fn for_each_content_replaces_every_block() {
    let mut post = Post::new(3);
    post.content = vec![text("a"), image("one.png"), text("b")];
    let post = post.for_each_content(|block| match block {
        BlockValue::Text(mut t) => {
            t.text.push('!');
            BlockValue::Text(t)
        }
        other => other,
    });
    assert_eq!(post.id, 3);
    assert_eq!(post.content.len(), 3);
    assert_eq!(as_text(&post.content[0]).text, "a!");
    assert!(matches!(post.content[1], BlockValue::Image(_)));
    assert_eq!(as_text(&post.content[2]).text, "b!");
}
