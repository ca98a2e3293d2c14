//! The post: its content, and what is known about it.

use super::content_blocks::{Block, BlockText, BlockValue, TextView};
use super::text_formatting::{FormatValue, FormatView};
use super::layout_blocks;
use super::objects::{Avatar, BlogInfo, ReblogTrail, Url};
use crate::bindings::{
    all_digits, decimal, decimal_u64, digits_value, ends_with, flattened, is_run, parse_u64,
    runs_by_kind, strip_suffix, u64_to_string,
};
use vstd::prelude::*;
use vstd::std_specs::convert::FromSpecImpl;
use vstd::string::{StrSliceExecFns, StringExecFns};

verus! {

/// A post.
#[derive(Debug)]
pub struct Post {
    pub id: u64,
    pub id_string: String,
    pub content: Vec<BlockValue>,
    pub post_type: Option<String>,
    pub tumblelog_uuid: Option<String>,
    pub original_type: Option<String>,
    pub is_blocks_post_format: Option<bool>,
    pub blog_name: Option<String>,
    pub blog: Option<BlogInfo>,
    pub is_blazed: Option<bool>,
    pub is_bale_pending: Option<bool>,
    pub can_ignite: Option<bool>,
    pub can_blaze: Option<bool>,
    pub post_url: Option<Url>,
    pub slug: Option<String>,
    pub date: Option<String>,
    pub timestamp: Option<String>,
    pub state: Option<String>,
    pub reblog_key: Option<String>,
    pub tags: Option<Vec<String>>,
    pub short_url: Option<String>,
    pub summary: Option<String>,
    pub should_open_in_legacy: Option<bool>,
    pub recommended_source: Option<String>,
    pub recommended_color: Option<String>,
    pub followed: Option<String>,
    pub post_author: Option<String>,
    pub author_blog: Option<BlogInfo>,
    pub post_author_avatar: Option<Avatar>,
    pub liked: Option<bool>,
    pub note_count: Option<u64>,
    pub layout: Vec<layout_blocks::BlockValue>,
    pub trail: Vec<ReblogTrail>,
    pub can_line: Option<bool>,
    pub interactability_reblog: Option<String>,
    pub interactability_blaze: Option<String>,
    pub can_reblog: Option<bool>,
    pub can_send_in_message: Option<bool>,
    pub muted: Option<bool>,
    pub mute_end_timestamp: Option<u64>,
    pub can_mute: Option<bool>,
}

/// A number written in decimal digits is digits only, and they stand for the
/// number.
pub proof fn lemma_decimal_digits(n: nat)
    ensures
        all_digits(decimal(n)),
        digits_value(decimal(n)) == n,
    decreases n,
{
    reveal_strlit("0123456789");
    let text = decimal(n);
    if n < 10 {
        assert(digits_value(text.drop_last()) == 0);
    } else {
        lemma_decimal_digits(n / 10);
        let front = decimal(n / 10);
        assert(text.drop_last() =~= front);
        assert forall|i: int| 0 <= i < text.len() implies '0' as int <= (
        #[trigger] text[i]) as int <= '9' as int by {
        }
    }
}

/// A number written out reads back as the same number: every post made with
/// its number is valid.
pub proof fn lemma_written_number_reads_back(n: u64)
    ensures
        decimal_u64(decimal(n as nat)) == Some(n),
{
    lemma_decimal_digits(n as nat);
}

impl Post {
    /// Whether nothing is known of the post but its number and its content.
    pub open spec fn is_bare(&self) -> bool {
        &&& self.post_type is None
        &&& self.tumblelog_uuid is None
        &&& self.original_type is None
        &&& self.is_blocks_post_format is None
        &&& self.blog_name is None
        &&& self.blog is None
        &&& self.is_blazed is None
        &&& self.is_bale_pending is None
        &&& self.can_ignite is None
        &&& self.can_blaze is None
        &&& self.post_url is None
        &&& self.slug is None
        &&& self.date is None
        &&& self.timestamp is None
        &&& self.state is None
        &&& self.reblog_key is None
        &&& self.tags is None
        &&& self.short_url is None
        &&& self.summary is None
        &&& self.should_open_in_legacy is None
        &&& self.recommended_source is None
        &&& self.recommended_color is None
        &&& self.followed is None
        &&& self.post_author is None
        &&& self.author_blog is None
        &&& self.post_author_avatar is None
        &&& self.liked is None
        &&& self.note_count is None
        &&& self.layout@.len() == 0
        &&& self.trail@.len() == 0
        &&& self.can_line is None
        &&& self.interactability_reblog is None
        &&& self.interactability_blaze is None
        &&& self.can_reblog is None
        &&& self.can_send_in_message is None
        &&& self.muted is None
        &&& self.mute_end_timestamp is None
        &&& self.can_mute is None
    }

    /// Whether the post's number, written out, is the number it holds.
    pub open spec fn valid(&self) -> bool {
        decimal_u64(self.id_string@) == Some(self.id)
    }

    /// The post with the number `id`, with no content, of which nothing else
    /// is known.
    pub fn new(id: u64) -> (r: Self)
        ensures
            r.id == id,
            r.id_string@ == decimal(id as nat),
            r.content@.len() == 0,
            r.is_bare(),
            r.valid(),
    {
        proof {
            lemma_written_number_reads_back(id);
        }
        Post {
            id,
            id_string: u64_to_string(id),
            content: Vec::new(),
            post_type: None,
            tumblelog_uuid: None,
            original_type: None,
            is_blocks_post_format: None,
            blog_name: None,
            blog: None,
            is_blazed: None,
            is_bale_pending: None,
            can_ignite: None,
            can_blaze: None,
            post_url: None,
            slug: None,
            date: None,
            timestamp: None,
            state: None,
            reblog_key: None,
            tags: None,
            short_url: None,
            summary: None,
            should_open_in_legacy: None,
            recommended_source: None,
            recommended_color: None,
            followed: None,
            post_author: None,
            author_blog: None,
            post_author_avatar: None,
            liked: None,
            note_count: None,
            layout: Vec::new(),
            trail: Vec::new(),
            can_line: None,
            interactability_reblog: None,
            interactability_blaze: None,
            can_reblog: None,
            can_send_in_message: None,
            muted: None,
            mute_end_timestamp: None,
            can_mute: None,
        }
    }

    /// Tells whether the post's number, written out, is the number it holds.
    pub fn is_valid(&self) -> (r: bool)
        ensures
            r == self.valid(),
    {
        match parse_u64(self.id_string.as_str()) {
            Some(i) => self.id == i,
            None => false,
        }
    }
}

/// Appends the text block `c` and then `sep` to `acc`: the text of `c`
/// follows the text of `acc`, and the ranges of `c` follow those of `acc`,
/// moved by the number of characters `acc` held before. A block of another
/// kind leaves `acc` as it is.
pub fn fold_text_block_with_sep(acc: BlockText, c: BlockValue, sep: &str) -> (r: BlockText)
    requires
        c@ matches Block::Text(t) ==> t.ranges_valid(),
    ensures
        r@ == match c@ {
            Block::Text(t) => acc@.joined(t, sep@),
            Block::Other(_) => acc@,
        },
{
    let mut acc = acc;
    if let BlockValue::Text(t) = c {
        let ghost before = acc@;
        let ghost member = t@;
        let offset = acc.text.unicode_len();
        acc.text.append(t.text.as_str());
        // Counting again after the append shows that no moved range can
        // pass the largest number: each ends within the text held now.
        let reach = acc.text.unicode_len();
        acc.text.append(sep);
        if let Some(ranges) = t.formatting {
            let mut all: Vec<FormatValue> = match acc.formatting.take() {
                Some(own) => own,
                None => Vec::new(),
            };
            let ghost items = ranges@;
            let ghost moved = ranges.deep_view();
            for range in it: ranges.into_iter()
                invariant
                    it.seq() == items,
                    moved.len() == items.len(),
                    forall|i: int| 0 <= i < items.len() ==> moved[i] == (#[trigger] items[i])@,
                    offset + member.text.len() == reach,
                    moved == member.ranges(),
                    member.ranges_valid(),
                    all.deep_view() == before.ranges() + moved.take(it.index()).map_values(
                        |r: FormatView| r.shifted(offset as int),
                    ),
            {
                let ghost done = all.deep_view();
                let ghost at = it.index();
                let mut range = range;
                range.offset(offset as u64);
                all.push(range);
                assert(all.deep_view() =~= done.push(moved[at].shifted(offset as int)));
            }
            assert(moved.take(items.len() as int) =~= moved);
            acc.formatting = Some(all);
        }
    }
    acc
}

/// The blocks of `blocks` as plain values.
pub open spec fn views(blocks: Seq<BlockValue>) -> Seq<Block<BlockValue>> {
    blocks.map_values(|b: BlockValue| b@)
}

/// Whether in every text block of `blocks` every range lies within the text.
pub open spec fn blocks_valid<T>(blocks: Seq<Block<T>>) -> bool {
    forall|i: int|
        0 <= i < blocks.len() ==> ((#[trigger] blocks[i]) matches Block::Text(t)
            ==> t.ranges_valid())
}

/// `blocks` with every run of consecutive text blocks made into one text
/// block: the run's texts, each followed by `sep`, one after the other, with
/// every range where its characters now are. Blocks of other kinds stay
/// where and as they are.
pub open spec fn merged<T>(blocks: Seq<Block<T>>, sep: Seq<char>) -> Seq<Block<T>>
    decreases blocks.len(),
{
    if blocks.len() == 0 {
        Seq::empty()
    } else {
        let before = merged(blocks.drop_last(), sep);
        match blocks.last() {
            Block::Other(_) => before.push(blocks.last()),
            Block::Text(t) => if blocks.len() >= 2 && blocks[blocks.len() - 2] is Text {
                before.update(
                    before.len() - 1,
                    Block::Text(before.last()->Text_0.joined(t, sep)),
                )
            } else {
                before.push(Block::Text(TextView::plain(Seq::empty()).joined(t, sep)))
            },
        }
    }
}

/// `text` without `sep` at its end, where it ends with it.
pub open spec fn without_suffix(text: Seq<char>, sep: Seq<char>) -> Seq<char> {
    if ends_with(text, sep) {
        text.subrange(0, text.len() - sep.len())
    } else {
        text
    }
}

/// `blocks` with `sep` taken once from the end of the first block's text,
/// where the first block is a text block.
pub open spec fn trimmed_first<T>(blocks: Seq<Block<T>>, sep: Seq<char>) -> Seq<Block<T>> {
    if blocks.len() > 0 && blocks[0] is Text {
        let t = blocks[0]->Text_0;
        blocks.update(0, Block::Text(TextView { text: without_suffix(t.text, sep), ..t }))
    } else {
        blocks
    }
}

/// The fold of `blocks` with the separator `sep`: runs of text blocks merged
/// into one block each, and the separator taken from the end of the first
/// block.
pub open spec fn folded<T>(blocks: Seq<Block<T>>, sep: Seq<char>) -> Seq<Block<T>> {
    trimmed_first(merged(blocks, sep), sep)
}

/// How the merge goes on when a block is added at the end.
pub proof fn lemma_merged_push<T>(blocks: Seq<Block<T>>, last: Block<T>, sep: Seq<char>)
    ensures
        blocks.len() == 0 ==> merged(blocks, sep).len() == 0,
        blocks.len() > 0 ==> merged(blocks, sep).len() > 0 && (merged(blocks, sep).last() is Text
            <==> blocks.last() is Text),
        merged(blocks.push(last), sep) == match last {
            Block::Other(_) => merged(blocks, sep).push(last),
            Block::Text(t) => if blocks.len() > 0 && blocks.last() is Text {
                merged(blocks, sep).update(
                    merged(blocks, sep).len() - 1,
                    Block::Text(merged(blocks, sep).last()->Text_0.joined(t, sep)),
                )
            } else {
                merged(blocks, sep).push(Block::Text(TextView::plain(Seq::empty()).joined(t, sep)))
            },
        },
    decreases blocks.len(),
{
    assert(blocks.push(last).drop_last() =~= blocks);
    if blocks.len() > 0 {
        let front = blocks.drop_last();
        lemma_merged_push(front, blocks.last(), sep);
    }
}

/// Whether every block of `blocks` is a text block.
pub open spec fn all_text<T>(blocks: Seq<Block<T>>) -> bool {
    forall|i: int| 0 <= i < blocks.len() ==> (#[trigger] blocks[i]) is Text
}

/// The texts of the text blocks `blocks`, each followed by `sep`, one after
/// the other.
pub open spec fn run_text<T>(blocks: Seq<Block<T>>, sep: Seq<char>) -> Seq<char>
    decreases blocks.len(),
{
    if blocks.len() == 0 {
        Seq::empty()
    } else {
        run_text(blocks.drop_last(), sep) + blocks.last()->Text_0.text + sep
    }
}

/// The ranges of the text blocks `blocks`, in the order of the blocks, each
/// moved by the number of characters that the blocks before it and their
/// separators hold.
pub open spec fn run_ranges<T>(blocks: Seq<Block<T>>, sep: Seq<char>) -> Seq<FormatView>
    decreases blocks.len(),
{
    if blocks.len() == 0 {
        Seq::empty()
    } else {
        let before = blocks.drop_last();
        run_ranges(before, sep) + blocks.last()->Text_0.ranges().map_values(
            |r: FormatView| r.shifted(run_text(before, sep).len() as int),
        )
    }
}

/// A run of text blocks merges into one text block: it holds the texts of
/// the run, each followed by the separator, and the ranges of the run, each
/// where its characters now are; it has no subtype and no indent.
pub proof fn lemma_merged_run<T>(blocks: Seq<Block<T>>, sep: Seq<char>)
    requires
        blocks.len() > 0,
        all_text(blocks),
    ensures
        merged(blocks, sep).len() == 1,
        merged(blocks, sep)[0] matches Block::Text(t) && t.text == run_text(blocks, sep)
            && t.ranges() == run_ranges(blocks, sep) && t.subtype is None && t.indent_level
            is None,
    decreases blocks.len(),
{
    let front = blocks.drop_last();
    let last = blocks.last();
    lemma_merged_push(front, last, sep);
    let none = Seq::<FormatView>::empty();
    if front.len() == 0 {
        assert(run_text(front, sep) =~= Seq::<char>::empty());
        assert(run_ranges(front, sep) =~= none);
    } else {
        assert(all_text(front)) by {
            assert forall|i: int| 0 <= i < front.len() implies (#[trigger] front[i]) is Text by {
            }
        }
        lemma_merged_run(front, sep);
    }
}

/// The fold of a run of text blocks is one text block that holds the texts
/// of the run with the separator between each two, and the ranges of the
/// run, each where its characters now are.
pub proof fn lemma_folded_run<T>(blocks: Seq<Block<T>>, sep: Seq<char>)
    requires
        blocks.len() > 0,
        all_text(blocks),
    ensures
        folded(blocks, sep).len() == 1,
        folded(blocks, sep)[0] matches Block::Text(t) && t.text + sep == run_text(blocks, sep)
            && t.ranges() == run_ranges(blocks, sep) && t.subtype is None && t.indent_level
            is None,
{
    lemma_merged_run(blocks, sep);
    let whole = run_text(blocks, sep);
    assert(whole.subrange(whole.len() - sep.len(), whole.len() as int) =~= sep);
}

/// Whether every range of every text block in `runs` lies within its text.
pub open spec fn runs_valid(runs: Seq<(bool, Vec<BlockValue>)>) -> bool {
    forall|k: int, j: int|
        0 <= k < runs.len() && 0 <= j < runs[k].1@.len() ==> ((#[trigger] runs[k].1@[j])@ matches Block::Text(
            t,
        ) ==> t.ranges_valid())
}

/// The plain values of blocks with one more at the end.
proof fn lemma_views_push(blocks: Seq<BlockValue>, last: BlockValue)
    ensures
        views(blocks.push(last)) == views(blocks).push(last@),
{
}

/// The blocks of the first runs, run by run.
proof fn lemma_flattened_step(runs: Seq<(bool, Vec<BlockValue>)>, k: int)
    requires
        0 <= k < runs.len(),
    ensures
        flattened(runs.take(k + 1)) == flattened(runs.take(k)) + runs[k].1@,
        flattened(runs.take(runs.len() as int)) == flattened(runs),
        flattened(runs.take(0)) == Seq::<BlockValue>::empty(),
{
    assert(runs.take(k + 1).drop_last() =~= runs.take(k));
    assert(runs.take(runs.len() as int) =~= runs);
}

/// Runs of valid blocks hold valid blocks.
proof fn lemma_runs_valid(runs: Seq<(bool, Vec<BlockValue>)>)
    requires
        blocks_valid(views(flattened(runs))),
    ensures
        runs_valid(runs),
    decreases runs.len(),
{
    if runs.len() > 0 {
        let front = runs.drop_last();
        let all = flattened(runs);
        assert forall|i: int| 0 <= i < views(flattened(front)).len() implies ((
        #[trigger] views(flattened(front))[i]) matches Block::Text(t) ==> t.ranges_valid()) by {
            assert(views(all)[i] == views(flattened(front))[i]);
        }
        lemma_runs_valid(front);
        assert forall|k: int, j: int|
            0 <= k < runs.len() && 0 <= j < runs[k].1@.len() implies ((
        #[trigger] runs[k].1@[j])@ matches Block::Text(t) ==> t.ranges_valid()) by {
            if k < runs.len() - 1 {
                assert(runs[k] == front[k]);
            } else {
                let at = flattened(front).len() + j;
                assert(views(all)[at] == runs[k].1@[j]@);
            }
        }
    }
}

/// Folds `content` with the separator `sep`: every run of consecutive text
/// blocks becomes one text block, and the separator is taken once from the
/// end of the first block's text, where that block is a text block.
pub fn fold_adjacent(content: Vec<BlockValue>, sep: &str) -> (out: Vec<BlockValue>)
    requires
        blocks_valid(views(content@)),
    ensures
        views(out@) == folded(views(content@), sep@),
        blocks_valid(views(out@)),
{
    proof {
        lemma_folded_valid(views(content@), sep@);
    }
    let ghost input = content@;
    let runs = runs_by_kind(content);
    let ghost groups = runs@;
    proof {
        lemma_runs_valid(groups);
        if groups.len() > 0 {
            lemma_flattened_step(groups, 0);
        }
    }
    let mut out: Vec<BlockValue> = Vec::new();
    for run in it: runs.into_iter()
        invariant
            it.seq() == groups,
            runs_valid(groups),
            flattened(groups) == input,
            forall|i: int| 0 <= i < groups.len() ==> is_run(#[trigger] groups[i]),
            forall|i: int| 0 < i < groups.len() ==> groups[i - 1].0 != (#[trigger] groups[i]).0,
            it.index() == 0 ==> flattened(groups.take(0)) == Seq::<BlockValue>::empty(),
            views(out@) == merged(views(flattened(groups.take(it.index()))), sep@),
    {
        let ghost k = it.index();
        let ghost done = flattened(groups.take(k));
        proof {
            lemma_flattened_step(groups, k);
            if k > 0 {
                lemma_flattened_step(groups, k - 1);
            }
        }
        let (is_text, members) = run;
        let ghost items = members@;
        if is_text {
            let mut acc = BlockText::new("");
            proof {
                reveal_strlit("");
                assert(acc@.text =~= Seq::<char>::empty());
            }
            for member in jt: members.into_iter()
                invariant
                    jt.seq() == items,
                    items == groups[k].1@,
                    0 <= k < groups.len(),
                    runs_valid(groups),
                    forall|j: int| 0 <= j < items.len() ==> (#[trigger] items[j]) is Text,
                    done.len() > 0 ==> !(done.last() is Text),
                    views(out@) == merged(views(done), sep@),
                    jt.index() == 0 ==> acc@ == TextView::plain(Seq::empty()),
                    jt.index() > 0 ==> views(out@).push(Block::Text(acc@)) == merged(
                        views(done + items.take(jt.index())),
                        sep@,
                    ),
            {
                let ghost j = jt.index();
                let ghost so_far = done + items.take(j);
                acc = fold_text_block_with_sep(acc, member, sep);
                proof {
                    lemma_merged_push(views(so_far), member@, sep@);
                    lemma_views_push(so_far, member);
                    assert(so_far.push(member) =~= done + items.take(j + 1));
                }
            }
            assert(items.take(items.len() as int) =~= items);
            let block = BlockValue::Text(acc);
            proof {
                lemma_views_push(out@, block);
            }
            out.push(block);
        } else {
            for member in jt: members.into_iter()
                invariant
                    jt.seq() == items,
                    forall|j: int| 0 <= j < items.len() ==> !((#[trigger] items[j]) is Text),
                    views(out@) == merged(views(done + items.take(jt.index())), sep@),
            {
                let ghost j = jt.index();
                let ghost so_far = done + items.take(j);
                proof {
                    lemma_merged_push(views(so_far), member@, sep@);
                    lemma_views_push(so_far, member);
                    lemma_views_push(out@, member);
                    assert(so_far.push(member) =~= done + items.take(j + 1));
                }
                out.push(member);
            }
            assert(items.take(items.len() as int) =~= items);
        }
    }
    proof {
        if groups.len() > 0 {
            lemma_flattened_step(groups, 0);
        }
    }
    if out.len() > 0 {
        if let BlockValue::Text(first) = &mut out[0] {
            let ghost before = first@;
            let shorter = match strip_suffix(first.text.as_str(), sep) {
                Some(s) => Some(String::from_str(s)),
                None => None,
            };
            if let Some(text) = shorter {
                assert(text@ =~= without_suffix(before.text, sep@));
                first.text = text;
            }
        }
    }
    out
}

/// Whether every range of `text` lies within the text without the last
/// `room` characters.
pub open spec fn ranges_clear(text: TextView, room: int) -> bool {
    forall|i: int|
        0 <= i < text.ranges().len() ==> (#[trigger] text.ranges()[i]).within(
            text.text.len() - room,
        )
}

/// After the merge, no range of a text block reaches into the separator at
/// the end of the block's text.
pub proof fn lemma_merged_clear<T>(blocks: Seq<Block<T>>, sep: Seq<char>)
    requires
        blocks_valid(blocks),
    ensures
        forall|i: int|
            0 <= i < merged(blocks, sep).len() ==> ((#[trigger] merged(blocks, sep)[i]) matches Block::Text(
                t,
            ) ==> ranges_clear(t, sep.len() as int) && t.text.len() >= sep.len()),
    decreases blocks.len(),
{
    if blocks.len() > 0 {
        let front = blocks.drop_last();
        let last = blocks.last();
        assert(blocks_valid(front)) by {
            assert forall|i: int| 0 <= i < front.len() implies ((
            #[trigger] front[i]) matches Block::Text(t) ==> t.ranges_valid()) by {
            }
        }
        lemma_merged_clear(front, sep);
        lemma_merged_push(front, last, sep);
        let before = merged(front, sep);
        let after = merged(blocks, sep);
        if let Block::Text(t) = last {
            let acc = if front.len() > 0 && front.last() is Text {
                before.last()->Text_0
            } else {
                TextView::plain(Seq::empty())
            };
            let made = acc.joined(t, sep);
            assert(ranges_clear(made, sep.len() as int)) by {
                assert forall|i: int| 0 <= i < made.ranges().len() implies (
                #[trigger] made.ranges()[i]).within(made.text.len() - sep.len()) by {
                    if t.formatting is Some {
                        if i >= acc.ranges().len() {
                            let at = i - acc.ranges().len();
                            assert(t.ranges()[at].within(t.text.len() as int));
                        }
                    } else {
                        assert(made.ranges()[i] == acc.ranges()[i]);
                    }
                }
            }
            assert forall|i: int| 0 <= i < after.len() implies ((
            #[trigger] after[i]) matches Block::Text(x) ==> ranges_clear(x, sep.len() as int)
                && x.text.len() >= sep.len()) by {
            }
        } else {
            assert forall|i: int| 0 <= i < after.len() implies ((
            #[trigger] after[i]) matches Block::Text(x) ==> ranges_clear(x, sep.len() as int)
                && x.text.len() >= sep.len()) by {
            }
        }
    }
}

/// Folding keeps every range within its text.
pub proof fn lemma_folded_valid<T>(blocks: Seq<Block<T>>, sep: Seq<char>)
    requires
        blocks_valid(blocks),
    ensures
        blocks_valid(folded(blocks, sep)),
{
    lemma_merged_clear(blocks, sep);
    let whole = merged(blocks, sep);
    let out = folded(blocks, sep);
    assert forall|i: int| 0 <= i < out.len() implies ((#[trigger] out[i]) matches Block::Text(t)
        ==> t.ranges_valid()) by {
        if let Block::Text(t) = out[i] {
            assert(ranges_clear(whole[i]->Text_0, sep.len() as int));
            assert forall|j: int| 0 <= j < t.ranges().len() implies (#[trigger] t.ranges()[j]).within(
                t.text.len() as int,
            ) by {
            }
        }
    }
}

impl Post {
    /// Whether every range of every text block of the post lies within the
    /// block's text.
    pub open spec fn ranges_valid(&self) -> bool {
        blocks_valid(views(self.content@))
    }

    /// Replaces every block of the content by what `f` makes of it, in
    /// order.
    pub fn for_each_content<F: Fn(BlockValue) -> BlockValue>(self, f: F) -> (r: Self)
        requires
            forall|i: int|
                0 <= i < self.content@.len() ==> call_requires(f, (#[trigger] self.content@[i],)),
        ensures
            r.content@.len() == self.content@.len(),
            forall|i: int|
                0 <= i < self.content@.len() ==> call_ensures(
                    f,
                    (self.content@[i],),
                    #[trigger] r.content@[i],
                ),
            r == (Post { content: r.content, ..self }),
    {
        let mut post = self;
        let mut content: Vec<BlockValue> = Vec::new();
        core::mem::swap(&mut content, &mut post.content);
        let ghost items = content@;
        let mut out: Vec<BlockValue> = Vec::new();
        for block in it: content.into_iter()
            invariant
                it.seq() == items,
                forall|i: int| 0 <= i < items.len() ==> call_requires(f, (#[trigger] items[i],)),
                out@.len() == it.index(),
                forall|i: int|
                    0 <= i < it.index() ==> call_ensures(f, (items[i],), #[trigger] out@[i]),
        {
            out.push(f(block));
        }
        post.content = out;
        post
    }

    /// Folds the content with no separator: every run of consecutive text
    /// blocks becomes one text block.
    pub fn fold_content(self) -> (r: Self)
        requires
            self.ranges_valid(),
        ensures
            views(r.content@) == folded(views(self.content@), Seq::<char>::empty()),
            r == (Post { content: r.content, ..self }),
            r.ranges_valid(),
    {
        proof {
            reveal_strlit("");
            assert(""@ =~= Seq::<char>::empty());
        }
        self.join_content("")
    }

    /// Folds the content with the separator `sep`: every run of consecutive
    /// text blocks becomes one text block, in which `sep` follows the text of
    /// each block of the run; from the end of the first block of the result
    /// `sep` is then taken once, where that block is a text block.
    pub fn join_content(self, sep: &str) -> (r: Self)
        requires
            self.ranges_valid(),
        ensures
            views(r.content@) == folded(views(self.content@), sep@),
            r == (Post { content: r.content, ..self }),
            r.ranges_valid(),
    {
        let mut post = self;
        let ghost before = views(post.content@);
        let mut content: Vec<BlockValue> = Vec::new();
        core::mem::swap(&mut content, &mut post.content);
        post.content = fold_adjacent(content, sep);
        proof {
            lemma_folded_valid(before, sep@);
        }
        post
    }
}

impl Default for Post {
    fn default() -> (r: Self)
        ensures
            r.id == 0,
            r.id_string@ == "0"@,
            r.content@.len() == 0,
            r.is_bare(),
    {
        let mut post = Post::new(0);
        post.id_string = String::from_str("0");
        post
    }
}

impl From<u64> for Post {
    fn from(value: u64) -> (r: Self)
        ensures
            r.id == value,
            r.id_string@ == decimal(value as nat),
            r.content@.len() == 0,
            r.is_bare(),
    {
        Post::new(value)
    }
}

impl FromSpecImpl<u64> for Post {
    open spec fn obeys_from_spec() -> bool {
        false
    }

    open spec fn from_spec(value: u64) -> Self {
        arbitrary()
    }
}

} // verus!
