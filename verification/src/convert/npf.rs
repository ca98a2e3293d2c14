//! Conversion of a document into the blocks of a post.

use crate::ast::{children_text, inline_children, inline_only, plain_text, Node, NodeValue};
use crate::bindings::{decimal, file_name, parsed_url};
use vstd::prelude::*;
use vstd::string::{StrSliceExecFns, StringExecFns};

pub mod attributions;
pub mod content_blocks;
pub mod layout_blocks;
pub mod objects;
pub mod text_formatting;

pub mod objects_post;

use content_blocks::{Block, BlockImage, BlockText, BlockTextSubtype, BlockValue, TextView};
use objects::{
    is_blog_identifier, starts_as_blog_identifier, BlogInfo, BlogInfoView, Media, MediaView, Post,
    Url,
};
use objects_post::{
    blocks_valid, fold_adjacent, folded, lemma_folded_valid, lemma_merged_push, merged, views,
};
use text_formatting::{
    FormatKind, FormatTypeBold, FormatTypeItalic, FormatTypeLink, FormatTypeMention,
    FormatTypeStrikeThrough, FormatValue, FormatView,
};

verus! {

/// Why a document could not be converted.
#[derive(Debug)]
pub enum NPFConvertError {
    /// A link whose target is no absolute URL.
    InvalidURL { url: String, err: url::ParseError },
}

/// What the conversion can be told.
#[derive(Debug, Clone, Copy)]
pub struct Options {
    /// Whether a link whose target starts with `t:` becomes the mention of
    /// the blog with that identifier, in place of a link.
    pub uuid_link_to_mention: bool,
}

/// What the conversion makes of an image node: the target of the image as
/// the document gives it, and the text that stands for the image.
pub struct ImageOutline {
    pub url: Seq<char>,
    pub alt_text: Seq<char>,
}

/// `blocks` with the formatting `kind` added to every text block, over all of
/// the block's text.
pub open spec fn spanned<T>(blocks: Seq<Block<T>>, kind: FormatKind) -> Seq<Block<T>> {
    blocks.map_values(
        |b: Block<T>|
            match b {
                Block::Text(t) => Block::Text(
                    t.with_range(FormatView::whole(kind, t.text.len() as int)),
                ),
                Block::Other(_) => b,
            },
    )
}

/// `blocks` with the subtype `subtype` on the first block, where that block
/// is a text block.
pub open spec fn with_first_subtype<T>(
    blocks: Seq<Block<T>>,
    subtype: BlockTextSubtype,
) -> Seq<Block<T>> {
    if blocks.len() > 0 && blocks[0] is Text {
        blocks.update(0, Block::Text(blocks[0]->Text_0.with_subtype(subtype)))
    } else {
        blocks
    }
}

/// `blocks` with the first block set as a heading of the level `level`, where
/// that block is a text block: the first two levels have subtypes of their
/// own, a deeper one becomes a bold list item.
pub open spec fn headed<T>(blocks: Seq<Block<T>>, level: u8) -> Seq<Block<T>> {
    if level == 1 {
        with_first_subtype(blocks, BlockTextSubtype::Heading1)
    } else if level == 2 {
        with_first_subtype(blocks, BlockTextSubtype::Heading2)
    } else if blocks.len() > 0 && blocks[0] is Text {
        let t = blocks[0]->Text_0;
        blocks.update(
            0,
            Block::Text(
                t.with_subtype(BlockTextSubtype::UnorderedListItem).with_range(
                    FormatView::whole(FormatKind::Bold, t.text.len() as int),
                ),
            ),
        )
    } else {
        blocks
    }
}

/// The text of the first text block of `blocks`, empty where none of them is
/// a text block.
pub open spec fn first_text<T>(blocks: Seq<Block<T>>) -> Seq<char>
    decreases blocks.len(),
{
    if blocks.len() == 0 {
        Seq::empty()
    } else if blocks[0] is Text {
        blocks[0]->Text_0.text
    } else {
        first_text(blocks.drop_first())
    }
}

/// The blog that a link to `target` mentions.
pub open spec fn mentioned(target: Seq<char>) -> BlogInfoView {
    BlogInfoView { uuid: target, name: None, url: None }
}

/// What the conversion makes of `node`: the blocks of the post, or the target
/// of the first link in document order that is no absolute URL.
pub open spec fn converted(node: Node, options: Options) -> Result<
    Seq<Block<ImageOutline>>,
    Seq<char>,
>
    decreases node, node.children.len() + 1,
{
    let below = converted_children(node, node.children.len() as nat, options);
    match node.value {
        NodeValue::Document => below,
        NodeValue::Text(t) => Ok(seq![Block::Text(TextView::plain(t@))]),
        NodeValue::SoftBreak => Ok(seq![Block::Text(TextView::plain(" "@))]),
        NodeValue::LineBreak => Ok(seq![Block::Text(TextView::plain("\n"@))]),
        NodeValue::Paragraph => match below {
            Ok(blocks) => Ok(folded(blocks, Seq::empty())),
            Err(e) => Err(e),
        },
        NodeValue::BlockQuote => match below {
            Ok(blocks) => Ok(
                with_first_subtype(folded(blocks, "\n\n"@), BlockTextSubtype::Indented),
            ),
            Err(e) => Err(e),
        },
        NodeValue::Heading(level) => match below {
            Ok(blocks) => Ok(headed(folded(blocks, Seq::empty()), level)),
            Err(e) => Err(e),
        },
        NodeValue::Strong => match below {
            Ok(blocks) => Ok(spanned(folded(blocks, Seq::empty()), FormatKind::Bold)),
            Err(e) => Err(e),
        },
        NodeValue::Emph => match below {
            Ok(blocks) => Ok(spanned(folded(blocks, Seq::empty()), FormatKind::Italic)),
            Err(e) => Err(e),
        },
        NodeValue::Strikethrough => match below {
            Ok(blocks) => Ok(spanned(folded(blocks, Seq::empty()), FormatKind::StrikeThrough)),
            Err(e) => Err(e),
        },
        NodeValue::Link(link) => match below {
            Ok(blocks) => if options.uuid_link_to_mention && is_blog_identifier(link.url@) {
                Ok(
                    spanned(
                        folded(blocks, Seq::empty()),
                        FormatKind::Mention { blog: mentioned(link.url@) },
                    ),
                )
            } else {
                match parsed_url(link.url@) {
                    Some(parsed) => Ok(
                        spanned(folded(blocks, Seq::empty()), FormatKind::Link { url: parsed }),
                    ),
                    None => Err(link.url@),
                }
            },
            Err(e) => Err(e),
        },
        NodeValue::Image(image) => match below {
            Ok(blocks) => {
                let alt = folded(blocks, Seq::empty());
                Ok(
                    seq![
                        Block::Other(
                            ImageOutline { url: image.url@, alt_text: first_text(alt) },
                        ),
                    ],
                )
            },
            Err(e) => Err(e),
        },
        _ => Ok(Seq::empty()),
    }
}

/// What the conversion makes of the first `n` children of `node`, one after
/// the other: their blocks in order, or the failure of the first child that
/// fails.
pub open spec fn converted_children(node: Node, n: nat, options: Options) -> Result<
    Seq<Block<ImageOutline>>,
    Seq<char>,
>
    decreases node, n,
{
    if n == 0 || n > node.children.len() {
        Ok(Seq::empty())
    } else {
        match converted_children(node, (n - 1) as nat, options) {
            Ok(before) => match converted(node.children[n - 1], options) {
                Ok(blocks) => Ok(before + blocks),
                Err(e) => Err(e),
            },
            Err(e) => Err(e),
        }
    }
}

/// Whether `media` is a media object for the image target `target`: it gives
/// the parsed URL where the target is an absolute URL and a name otherwise,
/// and beyond that at most a media type.
pub open spec fn shows_source(media: MediaView, target: Seq<char>) -> bool {
    &&& media == MediaView::bare(media.url, media.identifier, media.mime_type)
    &&& match parsed_url(target) {
        Some(url) => media.url == Some(url) && media.identifier is None,
        None => media.url is None && media.identifier is Some,
    }
}

/// Whether `block` is an image block for `image`: one media object for the
/// target, the text that stands for the image, and nothing else.
pub open spec fn is_image_of(block: BlockValue, image: ImageOutline) -> bool {
    &&& block matches BlockValue::Image(b)
    &&& b.media@.len() == 1
    &&& shows_source(b.media@[0]@, image.url)
    &&& b.alt_text.deep_view() == Some(image.alt_text)
    &&& b.colors is None
    &&& b.feedback_token is None
    &&& b.poster is None
    &&& b.attribution is None
    &&& b.caption is None
}

/// Whether the block `have` is what `want` asks for.
pub open spec fn block_shows(have: Block<BlockValue>, want: Block<ImageOutline>) -> bool {
    match have {
        Block::Text(t) => want == Block::<ImageOutline>::Text(t),
        Block::Other(b) => want matches Block::Other(image) && is_image_of(b, image),
    }
}

/// Whether the blocks `have` are, one by one, what `want` asks for.
pub open spec fn shows(have: Seq<Block<BlockValue>>, want: Seq<Block<ImageOutline>>) -> bool {
    have.len() == want.len() && forall|i: int|
        0 <= i < have.len() ==> block_shows(#[trigger] have[i], want[i])
}

/// Merging keeps blocks showing what is wanted.
proof fn lemma_merged_shows(
    have: Seq<Block<BlockValue>>,
    want: Seq<Block<ImageOutline>>,
    sep: Seq<char>,
)
    requires
        shows(have, want),
    ensures
        shows(merged(have, sep), merged(want, sep)),
    decreases have.len(),
{
    if have.len() > 0 {
        let hf = have.drop_last();
        let wf = want.drop_last();
        assert(shows(hf, wf)) by {
            assert forall|i: int| 0 <= i < hf.len() implies block_shows(
                #[trigger] hf[i],
                wf[i],
            ) by {
            }
        }
        lemma_merged_shows(hf, wf, sep);
        lemma_merged_push(hf, have.last(), sep);
        lemma_merged_push(wf, want.last(), sep);
        let ah = merged(have, sep);
        let aw = merged(want, sep);
        assert forall|i: int| 0 <= i < ah.len() implies block_shows(#[trigger] ah[i], aw[i]) by {
        }
    }
}

/// Folding keeps blocks showing what is wanted.
proof fn lemma_folded_shows(
    have: Seq<Block<BlockValue>>,
    want: Seq<Block<ImageOutline>>,
    sep: Seq<char>,
)
    requires
        shows(have, want),
    ensures
        shows(folded(have, sep), folded(want, sep)),
{
    lemma_merged_shows(have, want, sep);
    let fh = folded(have, sep);
    let fw = folded(want, sep);
    assert forall|i: int| 0 <= i < fh.len() implies block_shows(#[trigger] fh[i], fw[i]) by {
    }
}

/// Formatting over all of a text lies within the text.
pub proof fn lemma_spanned_valid<T>(blocks: Seq<Block<T>>, kind: FormatKind)
    requires
        blocks_valid(blocks),
    ensures
        blocks_valid(spanned(blocks, kind)),
{
    let made = spanned(blocks, kind);
    assert forall|i: int| 0 <= i < made.len() implies ((#[trigger] made[i]) matches Block::Text(t)
        ==> t.ranges_valid()) by {
        if let Block::Text(t) = blocks[i] {
            let now = made[i]->Text_0;
            assert forall|j: int| 0 <= j < now.ranges().len() implies (
            #[trigger] now.ranges()[j]).within(now.text.len() as int) by {
            }
        }
    }
}

/// Setting the first block as a heading keeps every range within its text.
pub proof fn lemma_headed_valid<T>(blocks: Seq<Block<T>>, level: u8)
    requires
        blocks_valid(blocks),
    ensures
        blocks_valid(headed(blocks, level)),
{
    let made = headed(blocks, level);
    assert forall|i: int| 0 <= i < made.len() implies ((#[trigger] made[i]) matches Block::Text(t)
        ==> t.ranges_valid()) by {
        if let Block::Text(t) = blocks[i] {
            let now = made[i]->Text_0;
            assert forall|j: int| 0 <= j < now.ranges().len() implies (
            #[trigger] now.ranges()[j]).within(now.text.len() as int) by {
            }
        }
    }
}

/// Setting a subtype on the first block keeps every range within its text.
pub proof fn lemma_subtype_valid<T>(blocks: Seq<Block<T>>, subtype: BlockTextSubtype)
    requires
        blocks_valid(blocks),
    ensures
        blocks_valid(with_first_subtype(blocks, subtype)),
{
    let made = with_first_subtype(blocks, subtype);
    assert forall|i: int| 0 <= i < made.len() implies ((#[trigger] made[i]) matches Block::Text(t)
        ==> t.ranges_valid()) by {
        assert(blocks[i] is Text ==> blocks[i]->Text_0.ranges_valid());
    }
}

/// Blocks one after the other keep every range within its text.
pub proof fn lemma_concat_valid<T>(a: Seq<Block<T>>, b: Seq<Block<T>>)
    requires
        blocks_valid(a),
        blocks_valid(b),
    ensures
        blocks_valid(a + b),
{
    let ab = a + b;
    assert forall|i: int| 0 <= i < ab.len() implies ((#[trigger] ab[i]) matches Block::Text(t)
        ==> t.ranges_valid()) by {
    }
}

/// Every formatting range that the conversion makes lies within the text of
/// its block.
pub proof fn lemma_converted_valid(node: Node, options: Options)
    ensures
        converted(node, options) matches Ok(blocks) ==> blocks_valid(blocks),
    decreases node, node.children.len() + 1,
{
    let n = node.children.len() as nat;
    let below = converted_children(node, n, options);
    lemma_converted_children_valid(node, n, options);
    if below is Ok {
        let blocks = below->Ok_0;
        let content = folded(blocks, Seq::empty());
        lemma_folded_valid(blocks, Seq::empty());
        lemma_folded_valid(blocks, "\n\n"@);
        match node.value {
            NodeValue::BlockQuote => {
                lemma_subtype_valid(folded(blocks, "\n\n"@), BlockTextSubtype::Indented);
            },
            NodeValue::Heading(level) => {
                lemma_headed_valid(content, level);
            },
            NodeValue::Strong => {
                lemma_spanned_valid(content, FormatKind::Bold);
            },
            NodeValue::Emph => {
                lemma_spanned_valid(content, FormatKind::Italic);
            },
            NodeValue::Strikethrough => {
                lemma_spanned_valid(content, FormatKind::StrikeThrough);
            },
            NodeValue::Link(link) => {
                lemma_spanned_valid(content, FormatKind::Mention { blog: mentioned(link.url@) });
                if parsed_url(link.url@) is Some {
                    lemma_spanned_valid(
                        content,
                        FormatKind::Link { url: parsed_url(link.url@)->0 },
                    );
                }
            },
            _ => {},
        }
    }
}

/// Every formatting range that the conversion makes of the first `n` children
/// of `node` lies within the text of its block.
pub proof fn lemma_converted_children_valid(node: Node, n: nat, options: Options)
    requires
        n <= node.children.len(),
    ensures
        converted_children(node, n, options) matches Ok(blocks) ==> blocks_valid(blocks),
    decreases node, n,
{
    if n > 0 {
        lemma_converted_children_valid(node, (n - 1) as nat, options);
        lemma_converted_valid(node.children[n - 1], options);
        let before = converted_children(node, (n - 1) as nat, options);
        let child = converted(node.children[n - 1], options);
        if before is Ok && child is Ok {
            lemma_concat_valid(before->Ok_0, child->Ok_0);
        }
    }
}

/// Formatting every text block keeps blocks showing what is wanted.
proof fn lemma_spanned_shows(
    have: Seq<Block<BlockValue>>,
    want: Seq<Block<ImageOutline>>,
    kind: FormatKind,
)
    requires
        shows(have, want),
    ensures
        shows(spanned(have, kind), spanned(want, kind)),
{
    let sh = spanned(have, kind);
    let sw = spanned(want, kind);
    assert forall|i: int| 0 <= i < sh.len() implies block_shows(#[trigger] sh[i], sw[i]) by {
    }
}

/// Setting the first block as a heading keeps blocks showing what is
/// wanted.
proof fn lemma_headed_shows(
    have: Seq<Block<BlockValue>>,
    want: Seq<Block<ImageOutline>>,
    level: u8,
)
    requires
        shows(have, want),
    ensures
        shows(headed(have, level), headed(want, level)),
{
    let sh = headed(have, level);
    let sw = headed(want, level);
    assert forall|i: int| 0 <= i < sh.len() implies block_shows(#[trigger] sh[i], sw[i]) by {
    }
}

/// Setting a subtype on the first block keeps blocks showing what is
/// wanted.
proof fn lemma_subtype_shows(
    have: Seq<Block<BlockValue>>,
    want: Seq<Block<ImageOutline>>,
    subtype: BlockTextSubtype,
)
    requires
        shows(have, want),
    ensures
        shows(with_first_subtype(have, subtype), with_first_subtype(want, subtype)),
{
    let sh = with_first_subtype(have, subtype);
    let sw = with_first_subtype(want, subtype);
    assert forall|i: int| 0 <= i < sh.len() implies block_shows(#[trigger] sh[i], sw[i]) by {
    }
}

/// Blocks that show what is wanted have the wanted first text.
proof fn lemma_first_text_shows(have: Seq<Block<BlockValue>>, want: Seq<Block<ImageOutline>>)
    requires
        shows(have, want),
    ensures
        first_text(have) == first_text(want),
    decreases have.len(),
{
    if have.len() > 0 {
        let hr = have.drop_first();
        let wr = want.drop_first();
        assert forall|i: int| 0 <= i < hr.len() implies block_shows(#[trigger] hr[i], wr[i]) by {
        }
        lemma_first_text_shows(hr, wr);
    }
}

/// Blocks one after the other show what is wanted of each, one after the
/// other.
proof fn lemma_concat_shows(
    a: Seq<Block<BlockValue>>,
    b: Seq<Block<BlockValue>>,
    wa: Seq<Block<ImageOutline>>,
    wb: Seq<Block<ImageOutline>>,
)
    requires
        shows(a, wa),
        shows(b, wb),
    ensures
        shows(a + b, wa + wb),
{
    let ab = a + b;
    assert forall|i: int| 0 <= i < ab.len() implies block_shows(#[trigger] ab[i], (wa + wb)[i]) by {
    }
}

/// Whether the result `r` of a conversion is what `want` asks for: blocks
/// that show the wanted ones, with every range within its text; or the
/// failure on the wanted target.
pub open spec fn outcome(
    r: Result<Vec<BlockValue>, NPFConvertError>,
    want: Result<Seq<Block<ImageOutline>>, Seq<char>>,
) -> bool {
    match r {
        Ok(blocks) => want matches Ok(w) && shows(views(blocks@), w) && blocks_valid(
            views(blocks@),
        ),
        Err(e) => want matches Err(target) && e matches NPFConvertError::InvalidURL { url, .. }
            && url@ == target,
    }
}

/// Adds formatting of the kind of `pattern`, with its data, to every text
/// block of `blocks`, over all of the block's text.
pub fn span_all(blocks: &mut Vec<BlockValue>, pattern: &FormatValue)
    ensures
        views(final(blocks)@) == spanned(views(old(blocks)@), pattern@.kind),
{
    let ghost start = blocks@;
    let mut i: usize = 0;
    while i < blocks.len()
        invariant
            i <= blocks@.len(),
            blocks@.len() == start.len(),
            forall|j: int| 0 <= j < i ==> (#[trigger] blocks@[j])@ == spanned(
                views(start),
                pattern@.kind,
            )[j],
            forall|j: int| i <= j < start.len() ==> #[trigger] blocks@[j] == start[j],
        decreases blocks@.len() - i,
    {
        if let BlockValue::Text(t) = &mut blocks[i] {
            let len = t.text.unicode_len();
            t.push_formatting(pattern.over(len as u64));
        }
        i += 1;
    }
}

/// Sets the first block of `blocks` as a heading of the level `level`, where
/// that block is a text block.
pub fn head_first(blocks: &mut Vec<BlockValue>, level: u8)
    ensures
        views(final(blocks)@) == headed(views(old(blocks)@), level),
{
    let ghost start = blocks@;
    if blocks.len() > 0 {
        if let BlockValue::Text(t) = &mut blocks[0] {
            if level == 1 {
                t.subtype = Some(BlockTextSubtype::Heading1);
            } else if level == 2 {
                t.subtype = Some(BlockTextSubtype::Heading2);
            } else {
                t.subtype = Some(BlockTextSubtype::UnorderedListItem);
                let len = t.text.unicode_len();
                t.push_formatting(FormatValue::Bold(FormatTypeBold { start: 0, end: len as u64 }));
            }
        }
    }
}

/// Sets the subtype `subtype` on the first block of `blocks`, where that
/// block is a text block.
pub fn set_first_subtype(blocks: &mut Vec<BlockValue>, subtype: BlockTextSubtype)
    ensures
        views(final(blocks)@) == with_first_subtype(views(old(blocks)@), subtype),
{
    if blocks.len() > 0 {
        if let BlockValue::Text(t) = &mut blocks[0] {
            t.subtype = Some(subtype);
        }
    }
}

/// The text of the first text block of `blocks`, empty where none of them is
/// a text block.
pub fn first_text_of(blocks: &Vec<BlockValue>) -> (r: String)
    ensures
        r@ == first_text(views(blocks@)),
{
    let ghost all = views(blocks@);
    let mut i: usize = 0;
    assert(all.skip(0) =~= all);
    while i < blocks.len()
        invariant
            i <= blocks@.len(),
            all == views(blocks@),
            first_text(all) == first_text(all.skip(i as int)),
        decreases blocks@.len() - i,
    {
        if let BlockValue::Text(t) = &blocks[i] {
            return t.text.clone();
        }
        assert(all.skip(i as int).drop_first() =~= all.skip(i + 1));
        i += 1;
    }
    String::new()
}

/// What a link node gives, once its target was parsed: `content` with the
/// link to the parsed URL over all of the text of each of its text blocks,
/// or the failure that names the target and carries the parser's error.
pub fn linked(
    content: Vec<BlockValue>,
    target: &str,
    parsed: Result<Url, url::ParseError>,
) -> (r: Result<Vec<BlockValue>, NPFConvertError>)
    ensures
        match parsed {
            Ok(link) => r matches Ok(blocks) && views(blocks@) == spanned(
                views(content@),
                FormatKind::Link { url: link@ },
            ),
            Err(error) => r matches Err(NPFConvertError::InvalidURL { url, err }) && url@
                == target@ && err == error,
        },
{
    match parsed {
        Ok(link) => {
            let mut content = content;
            let pattern = FormatValue::Link(FormatTypeLink { start: 0, end: 0, url: link });
            span_all(&mut content, &pattern);
            Ok(content)
        },
        Err(err) => Err(NPFConvertError::InvalidURL { url: String::from_str(target), err }),
    }
}

/// The image block for an image node with the target `target` and the text
/// `alt_text`: its one media object is the one at `parsed`, where the target
/// is an absolute URL, and otherwise the one named `name`, or named by the
/// whole target where there is no `name`.
pub fn image_block(
    target: &str,
    alt_text: String,
    parsed: Option<Url>,
    name: Option<String>,
) -> (r: BlockValue)
    ensures
        r matches BlockValue::Image(b) && b.media@.len() == 1 && b.media@[0]@ == (match parsed {
            Some(url) => MediaView::bare(Some(url@), None, b.media@[0]@.mime_type),
            None => match name {
                Some(n) => MediaView::bare(None, Some(n@), b.media@[0]@.mime_type),
                None => MediaView::bare(None, Some(target@), b.media@[0]@.mime_type),
            },
        }) && b.alt_text == Some(alt_text) && b.colors is None && b.feedback_token is None
            && b.poster is None && b.attribution is None && b.caption is None,
{
    let media = Media::sourced(target, parsed, name);
    let mut all: Vec<Media> = Vec::new();
    all.push(media);
    let mut block = BlockImage::new(all);
    block.alt_text = Some(alt_text);
    BlockValue::Image(block)
}

/// Once a child has failed, the children after it change nothing.
proof fn lemma_children_failure_stays(node: Node, i: nat, n: nat, options: Options)
    requires
        i <= n <= node.children.len(),
        converted_children(node, i, options) is Err,
    ensures
        converted_children(node, n, options) == converted_children(node, i, options),
    decreases n,
{
    if i < n {
        lemma_children_failure_stays(node, i, (n - 1) as nat, options);
    }
}

/// Converts the children of `node`, one after the other.
fn convert_children(node: &Node, options: &Options) -> (r: Result<
    Vec<BlockValue>,
    NPFConvertError,
>)
    ensures
        outcome(r, converted_children(*node, node.children.len() as nat, *options)),
    decreases node, 0nat,
{
    let mut out: Vec<BlockValue> = Vec::new();
    let mut i: usize = 0;
    while i < node.children.len()
        invariant
            i <= node.children.len(),
            converted_children(*node, i as nat, *options) matches Ok(w) && shows(views(out@), w)
                && blocks_valid(views(out@)),
        decreases node.children.len() - i,
    {
        let ghost before = views(out@);
        match convert(&node.children[i], options) {
            Ok(blocks) => {
                let mut blocks = blocks;
                let ghost added = views(blocks@);
                out.append(&mut blocks);
                proof {
                    assert(views(out@) =~= before + added);
                    lemma_concat_shows(
                        before,
                        added,
                        converted_children(*node, i as nat, *options)->Ok_0,
                        converted(node.children[i as int], *options)->Ok_0,
                    );
                    lemma_concat_valid(before, added);
                }
            },
            Err(e) => {
                proof {
                    lemma_children_failure_stays(
                        *node,
                        (i + 1) as nat,
                        node.children.len() as nat,
                        *options,
                    );
                }
                return Err(e);
            },
        }
        i += 1;
    }
    Ok(out)
}

/// Converts the children of `node` and folds what they give with the
/// separator `sep`.
fn folded_children(node: &Node, options: &Options, sep: &str) -> (r: Result<
    Vec<BlockValue>,
    NPFConvertError,
>)
    ensures
        outcome(
            r,
            match converted_children(*node, node.children.len() as nat, *options) {
                Ok(w) => Ok(folded(w, sep@)),
                Err(e) => Err(e),
            },
        ),
    decreases node, 1nat,
{
    match convert_children(node, options) {
        Ok(blocks) => {
            let ghost before = views(blocks@);
            let out = fold_adjacent(blocks, sep);
            proof {
                lemma_folded_valid(before, sep@);
                lemma_folded_shows(
                    before,
                    converted_children(*node, node.children.len() as nat, *options)->Ok_0,
                    sep@,
                );
            }
            Ok(out)
        },
        Err(e) => Err(e),
    }
}

/// Converts `node` and what is below it, by the kind of the node.
fn convert(node: &Node, options: &Options) -> (r: Result<Vec<BlockValue>, NPFConvertError>)
    ensures
        outcome(r, converted(*node, *options)),
    decreases node, 2nat,
{
    proof {
        reveal_strlit("");
        assert(""@ =~= Seq::<char>::empty());
    }
    let ghost below = converted_children(*node, node.children.len() as nat, *options);
    match &node.value {
        NodeValue::Document => convert_children(node, options),
        NodeValue::Paragraph => folded_children(node, options, ""),
        NodeValue::BlockQuote => match folded_children(node, options, "\n\n") {
            Ok(blocks) => {
                let mut blocks = blocks;
                proof {
                    lemma_subtype_shows(
                        views(blocks@),
                        folded(below->Ok_0, "\n\n"@),
                        BlockTextSubtype::Indented,
                    );
                    lemma_subtype_valid(views(blocks@), BlockTextSubtype::Indented);
                }
                set_first_subtype(&mut blocks, BlockTextSubtype::Indented);
                Ok(blocks)
            },
            Err(e) => Err(e),
        },
        NodeValue::Text(t) => {
            let mut out: Vec<BlockValue> = Vec::new();
            out.push(BlockValue::Text(BlockText::new(t.as_str())));
            Ok(out)
        },
        NodeValue::SoftBreak => {
            let mut out: Vec<BlockValue> = Vec::new();
            out.push(BlockValue::Text(BlockText::new(" ")));
            Ok(out)
        },
        NodeValue::LineBreak => {
            let mut out: Vec<BlockValue> = Vec::new();
            out.push(BlockValue::Text(BlockText::new("\n")));
            Ok(out)
        },
        NodeValue::Heading(level) => match folded_children(node, options, "") {
            Ok(blocks) => {
                let mut blocks = blocks;
                proof {
                    lemma_headed_shows(
                        views(blocks@),
                        folded(below->Ok_0, Seq::empty()),
                        *level,
                    );
                    lemma_headed_valid(views(blocks@), *level);
                }
                head_first(&mut blocks, *level);
                Ok(blocks)
            },
            Err(e) => Err(e),
        },
        NodeValue::Strong => match folded_children(node, options, "") {
            Ok(blocks) => {
                let mut blocks = blocks;
                proof {
                    lemma_spanned_shows(
                        views(blocks@),
                        folded(below->Ok_0, Seq::empty()),
                        FormatKind::Bold,
                    );
                    lemma_spanned_valid(views(blocks@), FormatKind::Bold);
                }
                span_all(&mut blocks, &FormatValue::Bold(FormatTypeBold { start: 0, end: 0 }));
                Ok(blocks)
            },
            Err(e) => Err(e),
        },
        NodeValue::Emph => match folded_children(node, options, "") {
            Ok(blocks) => {
                let mut blocks = blocks;
                proof {
                    lemma_spanned_shows(
                        views(blocks@),
                        folded(below->Ok_0, Seq::empty()),
                        FormatKind::Italic,
                    );
                    lemma_spanned_valid(views(blocks@), FormatKind::Italic);
                }
                span_all(&mut blocks, &FormatValue::Italic(FormatTypeItalic { start: 0, end: 0 }));
                Ok(blocks)
            },
            Err(e) => Err(e),
        },
        NodeValue::Strikethrough => match folded_children(node, options, "") {
            Ok(blocks) => {
                let mut blocks = blocks;
                proof {
                    lemma_spanned_shows(
                        views(blocks@),
                        folded(below->Ok_0, Seq::empty()),
                        FormatKind::StrikeThrough,
                    );
                    lemma_spanned_valid(views(blocks@), FormatKind::StrikeThrough);
                }
                span_all(
                    &mut blocks,
                    &FormatValue::StrikeThrough(FormatTypeStrikeThrough { start: 0, end: 0 }),
                );
                Ok(blocks)
            },
            Err(e) => Err(e),
        },
        NodeValue::Link(link) => match folded_children(node, options, "") {
            Ok(blocks) => {
                let url = &link.url;
                let ghost content = folded(below->Ok_0, Seq::empty());
                if options.uuid_link_to_mention && starts_as_blog_identifier(url.as_str()) {
                    let mut blocks = blocks;
                    let blog = BlogInfo::new(url.as_str());
                    proof {
                        lemma_spanned_shows(
                            views(blocks@),
                            content,
                            FormatKind::Mention { blog: mentioned(url@) },
                        );
                        lemma_spanned_valid(
                            views(blocks@),
                            FormatKind::Mention { blog: mentioned(url@) },
                        );
                    }
                    span_all(
                        &mut blocks,
                        &FormatValue::Mention(FormatTypeMention { start: 0, end: 0, blog }),
                    );
                    Ok(blocks)
                } else {
                    let parsed = Url::parse(url.as_str());
                    proof {
                        if parsed is Ok {
                            lemma_spanned_shows(
                                views(blocks@),
                                content,
                                FormatKind::Link { url: parsed->Ok_0@ },
                            );
                            lemma_spanned_valid(
                                views(blocks@),
                                FormatKind::Link { url: parsed->Ok_0@ },
                            );
                        }
                    }
                    linked(blocks, url.as_str(), parsed)
                }
            },
            Err(e) => Err(e),
        },
        NodeValue::Image(image) => match folded_children(node, options, "") {
            Ok(alt) => {
                let url = &image.url;
                proof {
                    lemma_first_text_shows(views(alt@), folded(below->Ok_0, Seq::empty()));
                }
                let alt_text = first_text_of(&alt);
                let parsed = match Url::parse(url.as_str()) {
                    Ok(link) => Some(link),
                    Err(_) => None,
                };
                let name = if parsed.is_none() {
                    file_name(url.as_str())
                } else {
                    None
                };
                let block = image_block(url.as_str(), alt_text, parsed, name);
                let mut out: Vec<BlockValue> = Vec::new();
                out.push(block);
                Ok(out)
            },
            Err(e) => Err(e),
        },
        _ => {
            let out: Vec<BlockValue> = Vec::new();
            Ok(out)
        },
    }
}

/// Whether the result `r` of converting a document is what `want` asks for:
/// a post with the number zero of which nothing is known but its content,
/// whose blocks show the wanted ones with every range within its text; or
/// the failure on the wanted target.
pub open spec fn post_outcome(
    r: Result<Post, NPFConvertError>,
    want: Result<Seq<Block<ImageOutline>>, Seq<char>>,
) -> bool {
    match r {
        Ok(post) => {
            &&& want matches Ok(w) && shows(views(post.content@), w)
            &&& post.ranges_valid()
            &&& post.id == 0
            &&& post.id_string@ == decimal(0)
            &&& post.is_bare()
        },
        Err(e) => want matches Err(target) && e matches NPFConvertError::InvalidURL { url, .. }
            && url@ == target,
    }
}

impl Post {
    /// Converts `node` and what is below it into a post.
    pub fn try_from(node: &Node, options: &Options) -> (r: Result<Post, NPFConvertError>)
        ensures
            post_outcome(r, converted(*node, *options)),
    {
        match convert(node, options) {
            Ok(blocks) => {
                let mut post = Post::new(0);
                post.content = blocks;
                Ok(post)
            },
            Err(e) => Err(e),
        }
    }

    /// Converts the children of `node`, one after the other, into one post.
    pub fn try_from_children(node: &Node, options: &Options) -> (r: Result<Post, NPFConvertError>)
        ensures
            post_outcome(
                r,
                converted_children(*node, node.children.len() as nat, *options),
            ),
    {
        match convert_children(node, options) {
            Ok(blocks) => {
                let mut post = Post::new(0);
                post.content = blocks;
                Ok(post)
            },
            Err(e) => Err(e),
        }
    }
}

/// Converts a document into a post, with links that start with `t:` taken
/// as links like any other.
pub fn from(node: &Node) -> (r: Result<Post, NPFConvertError>)
    ensures
        post_outcome(r, converted(*node, Options { uuid_link_to_mention: false })),
{
    Post::try_from(node, &Options { uuid_link_to_mention: false })
}

/// Converts a document into a post as `options` say.
pub fn from_with(node: &Node, options: &Options) -> (r: Result<Post, NPFConvertError>)
    ensures
        post_outcome(r, converted(*node, *options)),
{
    Post::try_from(node, options)
}

/// The texts of the text blocks of `blocks`, one after the other.
pub open spec fn texts<T>(blocks: Seq<Block<T>>) -> Seq<char>
    decreases blocks.len(),
{
    if blocks.len() == 0 {
        Seq::empty()
    } else {
        texts(blocks.drop_last()) + match blocks.last() {
            Block::Text(t) => t.text,
            Block::Other(_) => Seq::empty(),
        }
    }
}

/// A block added at the end adds its text at the end.
proof fn lemma_texts_push<T>(blocks: Seq<Block<T>>, last: Block<T>)
    ensures
        texts(blocks.push(last)) == texts(blocks) + match last {
            Block::Text(t) => t.text,
            Block::Other(_) => Seq::empty(),
        },
{
    assert(blocks.push(last).drop_last() =~= blocks);
}

/// The texts of blocks one after the other are their texts one after the
/// other.
proof fn lemma_texts_concat<T>(a: Seq<Block<T>>, b: Seq<Block<T>>)
    ensures
        texts(a + b) == texts(a) + texts(b),
    decreases b.len(),
{
    if b.len() > 0 {
        lemma_texts_concat(a, b.drop_last());
        assert((a + b).drop_last() =~= a + b.drop_last());
    }
}

/// Merging with no separator keeps the texts.
proof fn lemma_texts_merged<T>(blocks: Seq<Block<T>>)
    ensures
        texts(merged(blocks, Seq::empty())) == texts(blocks),
    decreases blocks.len(),
{
    let sep = Seq::<char>::empty();
    if blocks.len() > 0 {
        let front = blocks.drop_last();
        let last = blocks.last();
        lemma_texts_merged(front);
        lemma_merged_push(front, last, sep);
        let m = merged(front, sep);
        match last {
            Block::Other(_) => {
                lemma_texts_push(m, last);
            },
            Block::Text(t) => {
                if front.len() > 0 && front.last() is Text {
                    let acc = m.last()->Text_0;
                    let made = Block::<T>::Text(acc.joined(t, sep));
                    assert(m.update(m.len() - 1, made) =~= m.drop_last().push(made));
                    lemma_texts_push(m.drop_last(), made);
                } else {
                    let made = Block::<T>::Text(TextView::plain(Seq::empty()).joined(t, sep));
                    lemma_texts_push(m, made);
                }
            },
        }
    }
}

/// Folding with no separator keeps the texts.
proof fn lemma_texts_folded<T>(blocks: Seq<Block<T>>)
    ensures
        texts(folded(blocks, Seq::empty())) == texts(blocks),
{
    let sep = Seq::<char>::empty();
    lemma_texts_merged(blocks);
    let m = merged(blocks, sep);
    if m.len() > 0 && m[0] is Text {
        let t = m[0]->Text_0;
        assert(t.text.subrange(0, t.text.len() - sep.len()) =~= t.text);
    }
    assert(folded(blocks, sep) =~= m);
}

/// Formatting keeps the texts.
proof fn lemma_texts_spanned<T>(blocks: Seq<Block<T>>, kind: FormatKind)
    ensures
        texts(spanned(blocks, kind)) == texts(blocks),
    decreases blocks.len(),
{
    if blocks.len() > 0 {
        lemma_texts_spanned(blocks.drop_last(), kind);
        assert(spanned(blocks, kind).drop_last() =~= spanned(blocks.drop_last(), kind));
    }
}

/// Blocks that show what is wanted hold the wanted text.
pub proof fn lemma_texts_shown(have: Seq<Block<BlockValue>>, want: Seq<Block<ImageOutline>>)
    requires
        shows(have, want),
    ensures
        texts(have) == texts(want),
    decreases have.len(),
{
    if have.len() > 0 {
        let hf = have.drop_last();
        let wf = want.drop_last();
        assert forall|i: int| 0 <= i < hf.len() implies block_shows(#[trigger] hf[i], wf[i]) by {
        }
        lemma_texts_shown(hf, wf);
    }
}

/// Conversion keeps the text: where `node` and everything below it is inline
/// content that carries text and formatting only, the texts of the blocks
/// that the conversion makes of `node`, one after the other, are the text of
/// `node` in document order, with a space for a soft break and a newline for
/// a line break.
pub proof fn lemma_text_fidelity(node: Node, options: Options)
    requires
        inline_only(node),
        converted(node, options) is Ok,
    ensures
        texts(converted(node, options)->Ok_0) == plain_text(node),
    decreases node, node.children.len() + 1,
{
    let n = node.children.len() as nat;
    let below = converted_children(node, n, options);
    match node.value {
        NodeValue::Text(t) => {
            lemma_texts_push(Seq::empty(), Block::<ImageOutline>::Text(TextView::plain(t@)));
        },
        NodeValue::SoftBreak => {
            reveal_strlit(" ");
            lemma_texts_push(Seq::empty(), Block::<ImageOutline>::Text(TextView::plain(" "@)));
        },
        NodeValue::LineBreak => {
            reveal_strlit("\n");
            lemma_texts_push(Seq::empty(), Block::<ImageOutline>::Text(TextView::plain("\n"@)));
        },
        NodeValue::Emph | NodeValue::Strong | NodeValue::Strikethrough | NodeValue::Link(_) => {
            lemma_text_fidelity_children(node, n, options);
            let blocks = below->Ok_0;
            lemma_texts_folded(blocks);
            let content = folded(blocks, Seq::empty());
            lemma_texts_spanned(content, FormatKind::Bold);
            lemma_texts_spanned(content, FormatKind::Italic);
            lemma_texts_spanned(content, FormatKind::StrikeThrough);
            if let NodeValue::Link(link) = node.value {
                let url = link.url@;
                lemma_texts_spanned(content, FormatKind::Mention { blog: mentioned(url) });
                if parsed_url(url) is Some {
                    lemma_texts_spanned(content, FormatKind::Link { url: parsed_url(url)->0 });
                }
            }
        },
        _ => {},
    }
}

/// Conversion keeps the text of the first `n` children of `node`, where they
/// are inline content of that kind.
pub proof fn lemma_text_fidelity_children(node: Node, n: nat, options: Options)
    requires
        n <= node.children.len(),
        inline_children(node, n),
        converted_children(node, n, options) is Ok,
    ensures
        texts(converted_children(node, n, options)->Ok_0) == children_text(node, n),
    decreases node, n,
{
    if n > 0 {
        let before = converted_children(node, (n - 1) as nat, options);
        let child = node.children[n - 1];
        lemma_text_fidelity_children(node, (n - 1) as nat, options);
        lemma_text_fidelity(child, options);
        lemma_texts_concat(before->Ok_0, converted(child, options)->Ok_0);
    }
}

/// A post made of `node` holds the text of `node`, where `node` and
/// everything below it is inline content that carries text and formatting
/// only.
pub proof fn lemma_post_text_fidelity(node: Node, options: Options, post: Post)
    requires
        inline_only(node),
        post_outcome(Ok(post), converted(node, options)),
    ensures
        texts(views(post.content@)) == plain_text(node),
{
    lemma_text_fidelity(node, options);
    lemma_texts_shown(views(post.content@), converted(node, options)->Ok_0);
}

} // verus!
