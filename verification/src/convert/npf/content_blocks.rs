//! The blocks that make up the content of a post.

use super::attributions::AttributionValue;
use super::objects::{EmbedIframe, Media, Url};
use super::text_formatting::{FormatValue, FormatView};
use std::collections::HashMap;
use vstd::prelude::*;
use vstd::std_specs::convert::FromSpecImpl;
use vstd::string::StringExecFns;

verus! {

/// One block of content.
#[derive(Debug)]
pub enum BlockValue {
    Text(BlockText),
    Image(BlockImage),
    Link(BlockLink),
    Audio(BlockAudio),
    Video(BlockVideo),
}

/// A block as plain values: a text block, or a block of another kind, which
/// stands for itself.
pub enum Block<T> {
    Text(TextView),
    Other(T),
}

impl View for BlockValue {
    type V = Block<BlockValue>;

    open spec fn view(&self) -> Block<BlockValue> {
        match *self {
            BlockValue::Text(t) => Block::Text(t@),
            _ => Block::Other(*self),
        }
    }
}

impl DeepView for BlockValue {
    type V = Block<BlockValue>;

    open spec fn deep_view(&self) -> Block<BlockValue> {
        self@
    }
}

impl BlockValue {
    /// Tells whether the block is a text block.
    pub fn is_text(&self) -> (r: bool)
        ensures
            r == (*self is Text),
    {
        match self {
            BlockValue::Text(_) => true,
            _ => false,
        }
    }

    /// The name under which this kind of block is written out.
    pub fn tag(&self) -> (r: &'static str)
        ensures
            r@ == match *self {
                BlockValue::Text(_) => "text"@,
                BlockValue::Image(_) => "image"@,
                BlockValue::Link(_) => "link"@,
                BlockValue::Audio(_) => "audio"@,
                BlockValue::Video(_) => "video"@,
            },
    {
        match self {
            BlockValue::Text(_) => "text",
            BlockValue::Image(_) => "image",
            BlockValue::Link(_) => "link",
            BlockValue::Audio(_) => "audio",
            BlockValue::Video(_) => "video",
        }
    }
}

/// How a text block is set.
#[derive(Debug, Clone, Copy, PartialEq, Eq, Structural)]
pub enum BlockTextSubtype {
    Heading1,
    Heading2,
    Quirky,
    Quote,
    Indented,
    Chat,
    OrderedListItem,
    UnorderedListItem,
}

/// A block of text, with the formatting of ranges of its characters.
#[derive(Debug)]
pub struct BlockText {
    pub subtype: Option<BlockTextSubtype>,
    pub text: String,
    pub formatting: Option<Vec<FormatValue>>,
    pub indent_level: Option<u8>,
}

/// A text block as plain values.
pub struct TextView {
    pub text: Seq<char>,
    pub subtype: Option<BlockTextSubtype>,
    pub formatting: Option<Seq<FormatView>>,
    pub indent_level: Option<u8>,
}

impl TextView {
    /// The block that holds `text` and nothing else.
    pub open spec fn plain(text: Seq<char>) -> TextView {
        TextView { text, subtype: None, formatting: None, indent_level: None }
    }

    /// The formatting ranges of the block, none where it has no list of them.
    pub open spec fn ranges(self) -> Seq<FormatView> {
        match self.formatting {
            Some(f) => f,
            None => Seq::empty(),
        }
    }

    /// Whether every formatting range lies within the text.
    pub open spec fn ranges_valid(self) -> bool {
        forall|i: int|
            0 <= i < self.ranges().len() ==> (#[trigger] self.ranges()[i]).within(
                self.text.len() as int,
            )
    }

    /// The block with `range` added after its other ranges.
    pub open spec fn with_range(self, range: FormatView) -> TextView {
        TextView { formatting: Some(self.ranges().push(range)), ..self }
    }

    /// The block with the subtype `subtype`.
    pub open spec fn with_subtype(self, subtype: BlockTextSubtype) -> TextView {
        TextView { subtype: Some(subtype), ..self }
    }

    /// The block after `member` and then `sep` were appended to it: the
    /// ranges of `member` follow the block's own, moved by the number of
    /// characters the block held before.
    pub open spec fn joined(self, member: TextView, sep: Seq<char>) -> TextView {
        TextView {
            text: self.text + member.text + sep,
            formatting: match member.formatting {
                Some(f) => Some(
                    self.ranges() + f.map_values(
                        |r: FormatView| r.shifted(self.text.len() as int),
                    ),
                ),
                None => self.formatting,
            },
            ..self
        }
    }
}

impl View for BlockText {
    type V = TextView;

    open spec fn view(&self) -> TextView {
        TextView {
            text: self.text@,
            subtype: self.subtype,
            formatting: self.formatting.deep_view(),
            indent_level: self.indent_level,
        }
    }
}

impl DeepView for BlockText {
    type V = TextView;

    open spec fn deep_view(&self) -> TextView {
        self@
    }
}

impl BlockText {
    /// The block that holds `value` and nothing else.
    pub fn new(value: &str) -> (r: Self)
        ensures
            r@ == TextView::plain(value@),
    {
        BlockText {
            subtype: None,
            text: String::from_str(value),
            formatting: None,
            indent_level: None,
        }
    }

    /// Adds `format` after the ranges that the block has.
    pub fn push_formatting(&mut self, format: FormatValue)
        ensures
            final(self)@ == old(self)@.with_range(format@),
    {
        let ghost before = self@;
        match self.formatting.take() {
            Some(mut ranges) => {
                ranges.push(format);
                assert(ranges.deep_view() =~= before.ranges().push(format@));
                self.formatting = Some(ranges);
            },
            None => {
                let mut ranges: Vec<FormatValue> = Vec::new();
                ranges.push(format);
                assert(ranges.deep_view() =~= before.ranges().push(format@));
                self.formatting = Some(ranges);
            },
        }
    }
}

/// A block that shows one image, in one or more renditions.
#[derive(Debug)]
pub struct BlockImage {
    pub media: Vec<Media>,
    pub colors: Option<HashMap<String, String>>,
    pub feedback_token: Option<String>,
    pub poster: Option<Media>,
    pub attribution: Option<AttributionValue>,
    pub alt_text: Option<String>,
    pub caption: Option<String>,
}

impl BlockImage {
    /// Whether the block holds nothing but its media.
    pub open spec fn is_bare(&self) -> bool {
        &&& self.colors is None
        &&& self.feedback_token is None
        &&& self.poster is None
        &&& self.attribution is None
        &&& self.alt_text is None
        &&& self.caption is None
    }

    /// The block that shows `media` and holds nothing else.
    pub fn new(media: Vec<Media>) -> (r: Self)
        ensures
            r.media == media,
            r.is_bare(),
    {
        BlockImage {
            media,
            colors: None,
            feedback_token: None,
            poster: None,
            attribution: None,
            alt_text: None,
            caption: None,
        }
    }
}

/// A block that points to a page.
#[derive(Debug)]
pub struct BlockLink {
    pub url: Url,
    pub title: Option<String>,
    pub description: Option<String>,
    pub author: Option<String>,
    pub site_name: Option<String>,
    pub display_url: Option<Url>,
    pub poster: Option<Media>,
}

impl BlockLink {
    /// The block that points to `url` and holds nothing else.
    pub fn new(url: Url) -> (r: Self)
        ensures
            r.url == url,
            r.title is None,
            r.description is None,
            r.author is None,
            r.site_name is None,
            r.display_url is None,
            r.poster is None,
    {
        BlockLink {
            url,
            title: None,
            description: None,
            author: None,
            site_name: None,
            display_url: None,
            poster: None,
        }
    }
}

/// A block that plays sound.
#[derive(Debug)]
pub struct BlockAudio {
    pub media: Option<Media>,
    pub url: Option<Url>,
    pub provider: Option<String>,
    pub title: Option<String>,
    pub artist: Option<String>,
    pub album: Option<String>,
    pub poster: Option<Media>,
    pub embed_html: Option<String>,
    pub embed_iframe: Option<EmbedIframe>,
    pub metadata: Option<HashMap<String, serde_json::Value>>,
    pub attribution: Option<AttributionValue>,
}

impl BlockAudio {
    /// Whether the block holds nothing but its source.
    pub open spec fn is_bare(&self) -> bool {
        &&& self.provider is None
        &&& self.title is None
        &&& self.artist is None
        &&& self.album is None
        &&& self.poster is None
        &&& self.embed_html is None
        &&& self.embed_iframe is None
        &&& self.metadata is None
        &&& self.attribution is None
    }

    /// The block that holds nothing, which is no valid block yet: what the
    /// blocks with a source are made from.
    fn default() -> (r: Self)
        ensures
            r.media is None,
            r.url is None,
            r.is_bare(),
    {
        BlockAudio {
            media: None,
            url: None,
            provider: None,
            title: None,
            artist: None,
            album: None,
            poster: None,
            embed_html: None,
            embed_iframe: None,
            metadata: None,
            attribution: None,
        }
    }

    /// The block that plays what is at `url`.
    pub fn new(url: Url) -> (r: Self)
        ensures
            r.url == Some(url),
            r.media is None,
            r.is_bare(),
    {
        BlockAudio {
            media: None,
            url: Some(url),
            provider: None,
            title: None,
            artist: None,
            album: None,
            poster: None,
            embed_html: None,
            embed_iframe: None,
            metadata: None,
            attribution: None,
        }
    }

    /// Whether the block says where its sound is.
    pub fn is_valid(&self) -> (r: bool)
        ensures
            r == (self.url is Some || self.media is Some),
    {
        self.url.is_some() || self.media.is_some()
    }
}

/// A block that plays a video.
#[derive(Debug)]
pub struct BlockVideo {
    pub url: Option<Url>,
    pub media: Option<Media>,
    pub provider: Option<String>,
    pub embed_html: Option<String>,
    pub embed_iframe: Option<EmbedIframe>,
    pub embed_url: Option<Url>,
    pub poster: Option<Media>,
    pub filmstrip: Option<Media>,
    pub attribution: Option<AttributionValue>,
    pub can_autoplay_on_cellular: Option<bool>,
}

impl BlockVideo {
    /// Whether the block holds nothing but its source.
    pub open spec fn is_bare(&self) -> bool {
        &&& self.provider is None
        &&& self.embed_html is None
        &&& self.embed_iframe is None
        &&& self.embed_url is None
        &&& self.poster is None
        &&& self.filmstrip is None
        &&& self.attribution is None
        &&& self.can_autoplay_on_cellular is None
    }

    /// The block that holds nothing, which is no valid block yet: what the
    /// blocks with a source are made from.
    fn default() -> (r: Self)
        ensures
            r.media is None,
            r.url is None,
            r.is_bare(),
    {
        BlockVideo {
            url: None,
            media: None,
            provider: None,
            embed_html: None,
            embed_iframe: None,
            embed_url: None,
            poster: None,
            filmstrip: None,
            attribution: None,
            can_autoplay_on_cellular: None,
        }
    }

    /// The block that plays what is at `url`.
    pub fn new(url: Url) -> (r: Self)
        ensures
            r.url == Some(url),
            r.media is None,
            r.is_bare(),
    {
        BlockVideo {
            url: Some(url),
            media: None,
            provider: None,
            embed_html: None,
            embed_iframe: None,
            embed_url: None,
            poster: None,
            filmstrip: None,
            attribution: None,
            can_autoplay_on_cellular: None,
        }
    }

    /// Whether the block says where its video is.
    pub fn is_valid(&self) -> (r: bool)
        ensures
            r == (self.url is Some || self.media is Some),
    {
        self.url.is_some() || self.media.is_some()
    }
}

impl Default for BlockText {
    fn default() -> (r: Self)
        ensures
            r@ == TextView::plain(Seq::empty()),
    {
        BlockText { subtype: None, text: String::new(), formatting: None, indent_level: None }
    }
}

impl From<String> for BlockText {
    fn from(value: String) -> (r: Self) {
        BlockText {
            subtype: None,
            text: value,
            formatting: None,
            indent_level: None,
        }
    }
}

impl FromSpecImpl<String> for BlockText {
    open spec fn obeys_from_spec() -> bool {
        true
    }

    open spec fn from_spec(value: String) -> Self {
        BlockText {
            subtype: None,
            text: value,
            formatting: None,
            indent_level: None,
        }
    }
}

impl From<&str> for BlockText {
    fn from(value: &str) -> (r: Self)
        ensures
            r@ == TextView::plain(value@),
    {
        BlockText::new(value)
    }
}

impl FromSpecImpl<&str> for BlockText {
    open spec fn obeys_from_spec() -> bool {
        false
    }

    open spec fn from_spec(value: &str) -> Self {
        arbitrary()
    }
}

impl Default for BlockImage {
    fn default() -> (r: Self)
        ensures
            r.media@.len() == 0,
            r.is_bare(),
    {
        BlockImage::new(Vec::new())
    }
}

impl From<Vec<Media>> for BlockImage {
    fn from(value: Vec<Media>) -> (r: Self) {
        BlockImage {
            media: value,
            colors: None,
            feedback_token: None,
            poster: None,
            attribution: None,
            alt_text: None,
            caption: None,
        }
    }
}

impl FromSpecImpl<Vec<Media>> for BlockImage {
    open spec fn obeys_from_spec() -> bool {
        true
    }

    open spec fn from_spec(value: Vec<Media>) -> Self {
        BlockImage {
            media: value,
            colors: None,
            feedback_token: None,
            poster: None,
            attribution: None,
            alt_text: None,
            caption: None,
        }
    }
}

impl From<Media> for BlockImage {
    fn from(value: Media) -> (r: Self)
        ensures
            r.media@ == seq![value],
            r.is_bare(),
    {
        let mut media: Vec<Media> = Vec::new();
        media.push(value);
        BlockImage::new(media)
    }
}

impl FromSpecImpl<Media> for BlockImage {
    open spec fn obeys_from_spec() -> bool {
        false
    }

    open spec fn from_spec(value: Media) -> Self {
        arbitrary()
    }
}

impl Default for BlockLink {
    fn default() -> (r: Self)
        ensures
            r.url@ == "https://tumblr.com/"@,
            r.title is None,
            r.description is None,
            r.author is None,
            r.site_name is None,
            r.display_url is None,
            r.poster is None,
    {
        BlockLink::new(Url::tumblr())
    }
}

impl From<Url> for BlockLink {
    fn from(value: Url) -> (r: Self) {
        BlockLink {
            url: value,
            title: None,
            description: None,
            author: None,
            site_name: None,
            display_url: None,
            poster: None,
        }
    }
}

impl FromSpecImpl<Url> for BlockLink {
    open spec fn obeys_from_spec() -> bool {
        true
    }

    open spec fn from_spec(value: Url) -> Self {
        BlockLink {
            url: value,
            title: None,
            description: None,
            author: None,
            site_name: None,
            display_url: None,
            poster: None,
        }
    }
}

impl From<Media> for BlockAudio {
    fn from(value: Media) -> (r: Self) {
        BlockAudio { media: Some(value), ..BlockAudio::default() }
    }
}

impl FromSpecImpl<Media> for BlockAudio {
    open spec fn obeys_from_spec() -> bool {
        true
    }

    open spec fn from_spec(value: Media) -> Self {
        BlockAudio {
            media: Some(value),
            url: None,
            provider: None,
            title: None,
            artist: None,
            album: None,
            poster: None,
            embed_html: None,
            embed_iframe: None,
            metadata: None,
            attribution: None,
        }
    }
}

impl From<Url> for BlockAudio {
    fn from(value: Url) -> (r: Self) {
        BlockAudio { url: Some(value), ..BlockAudio::default() }
    }
}

impl FromSpecImpl<Url> for BlockAudio {
    open spec fn obeys_from_spec() -> bool {
        true
    }

    open spec fn from_spec(value: Url) -> Self {
        BlockAudio {
            media: None,
            url: Some(value),
            provider: None,
            title: None,
            artist: None,
            album: None,
            poster: None,
            embed_html: None,
            embed_iframe: None,
            metadata: None,
            attribution: None,
        }
    }
}

impl From<Media> for BlockVideo {
    fn from(value: Media) -> (r: Self) {
        BlockVideo { media: Some(value), ..BlockVideo::default() }
    }
}

impl FromSpecImpl<Media> for BlockVideo {
    open spec fn obeys_from_spec() -> bool {
        true
    }

    open spec fn from_spec(value: Media) -> Self {
        BlockVideo {
            url: None,
            media: Some(value),
            provider: None,
            embed_html: None,
            embed_iframe: None,
            embed_url: None,
            poster: None,
            filmstrip: None,
            attribution: None,
            can_autoplay_on_cellular: None,
        }
    }
}

impl From<Url> for BlockVideo {
    fn from(value: Url) -> (r: Self) {
        BlockVideo { url: Some(value), ..BlockVideo::default() }
    }
}

impl FromSpecImpl<Url> for BlockVideo {
    open spec fn obeys_from_spec() -> bool {
        true
    }

    open spec fn from_spec(value: Url) -> Self {
        BlockVideo {
            url: Some(value),
            media: None,
            provider: None,
            embed_html: None,
            embed_iframe: None,
            embed_url: None,
            poster: None,
            filmstrip: None,
            attribution: None,
            can_autoplay_on_cellular: None,
        }
    }
}

} // verus!
