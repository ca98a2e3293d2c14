//! The formatting that a text block applies to ranges of its characters.

use super::objects::{BlogInfo, BlogInfoView, Url};
use core::ops::Range;
use vstd::prelude::*;
use vstd::std_specs::convert::FromSpecImpl;
use vstd::string::{StrSliceExecFns, StringExecFns};

verus! {

/// The kind of a formatting range, with the data that belongs to the kind.
pub enum FormatKind {
    Bold,
    Italic,
    StrikeThrough,
    Small,
    Link { url: Seq<char> },
    Mention { blog: BlogInfoView },
    Color { hex: Seq<char> },
}

/// A formatting range as plain values: the characters from `start` up to,
/// not including, `end` are formatted as `kind` says.
pub struct FormatView {
    pub kind: FormatKind,
    pub start: int,
    pub end: int,
}

impl FormatView {
    /// The same formatting, `by` characters further into the text.
    pub open spec fn shifted(self, by: int) -> FormatView {
        FormatView { kind: self.kind, start: self.start + by, end: self.end + by }
    }

    /// Whether the range lies within a text of `len` characters.
    pub open spec fn within(self, len: int) -> bool {
        0 <= self.start <= self.end <= len
    }

    /// The formatting `kind` over all of a text of `len` characters.
    pub open spec fn whole(kind: FormatKind, len: int) -> FormatView {
        FormatView { kind, start: 0, end: len }
    }
}

/// Bold characters.
#[derive(Debug)]
pub struct FormatTypeBold {
    pub start: u64,
    pub end: u64,
}

/// Italic characters.
#[derive(Debug)]
pub struct FormatTypeItalic {
    pub start: u64,
    pub end: u64,
}

/// Characters that are struck through.
#[derive(Debug)]
pub struct FormatTypeStrikeThrough {
    pub start: u64,
    pub end: u64,
}

/// Small characters.
#[derive(Debug)]
pub struct FormatTypeSmall {
    pub start: u64,
    pub end: u64,
}

/// Characters that link to a URL.
#[derive(Debug)]
pub struct FormatTypeLink {
    pub start: u64,
    pub end: u64,
    pub url: Url,
}

/// Characters that mention a blog.
#[derive(Debug)]
pub struct FormatTypeMention {
    pub start: u64,
    pub end: u64,
    pub blog: BlogInfo,
}

/// Characters in a colour, written in hexadecimal after a `#`.
#[derive(Debug)]
pub struct FormatTypeColor {
    pub start: u64,
    pub end: u64,
    pub hex: String,
}

/// One formatting range of a text block.
#[derive(Debug)]
pub enum FormatValue {
    Bold(FormatTypeBold),
    Italic(FormatTypeItalic),
    StrikeThrough(FormatTypeStrikeThrough),
    Small(FormatTypeSmall),
    Link(FormatTypeLink),
    Mention(FormatTypeMention),
    Color(FormatTypeColor),
}

impl View for FormatValue {
    type V = FormatView;

    open spec fn view(&self) -> FormatView {
        match *self {
            FormatValue::Bold(f) => FormatView {
                kind: FormatKind::Bold,
                start: f.start as int,
                end: f.end as int,
            },
            FormatValue::Italic(f) => FormatView {
                kind: FormatKind::Italic,
                start: f.start as int,
                end: f.end as int,
            },
            FormatValue::StrikeThrough(f) => FormatView {
                kind: FormatKind::StrikeThrough,
                start: f.start as int,
                end: f.end as int,
            },
            FormatValue::Small(f) => FormatView {
                kind: FormatKind::Small,
                start: f.start as int,
                end: f.end as int,
            },
            FormatValue::Link(f) => FormatView {
                kind: FormatKind::Link { url: f.url@ },
                start: f.start as int,
                end: f.end as int,
            },
            FormatValue::Mention(f) => FormatView {
                kind: FormatKind::Mention { blog: f.blog@ },
                start: f.start as int,
                end: f.end as int,
            },
            FormatValue::Color(f) => FormatView {
                kind: FormatKind::Color { hex: f.hex@ },
                start: f.start as int,
                end: f.end as int,
            },
        }
    }
}

impl DeepView for FormatValue {
    type V = FormatView;

    open spec fn deep_view(&self) -> FormatView {
        self@
    }
}

impl FormatValue {
    /// Moves the range `offset` characters further into the text.
    pub fn offset(&mut self, offset: u64)
        requires
            old(self)@.end + offset <= u64::MAX,
            old(self)@.start + offset <= u64::MAX,
        ensures
            final(self)@ == old(self)@.shifted(offset as int),
    {
        match self {
            FormatValue::Bold(f) => f.offset(offset),
            FormatValue::Italic(f) => f.offset(offset),
            FormatValue::Link(f) => f.offset(offset),
            FormatValue::Small(f) => f.offset(offset),
            FormatValue::Color(f) => f.offset(offset),
            FormatValue::Mention(f) => f.offset(offset),
            FormatValue::StrikeThrough(f) => f.offset(offset),
        }
    }

    /// Formatting of the same kind, with the same data, over the first `len`
    /// characters of a text.
    pub fn over(&self, len: u64) -> (r: FormatValue)
        ensures
            r@ == FormatView::whole(self@.kind, len as int),
    {
        match self {
            FormatValue::Bold(_) => FormatValue::Bold(FormatTypeBold { start: 0, end: len }),
            FormatValue::Italic(_) => FormatValue::Italic(FormatTypeItalic { start: 0, end: len }),
            FormatValue::StrikeThrough(_) => FormatValue::StrikeThrough(
                FormatTypeStrikeThrough { start: 0, end: len },
            ),
            FormatValue::Small(_) => FormatValue::Small(FormatTypeSmall { start: 0, end: len }),
            FormatValue::Link(f) => FormatValue::Link(
                FormatTypeLink { start: 0, end: len, url: f.url.clone() },
            ),
            FormatValue::Mention(f) => FormatValue::Mention(
                FormatTypeMention { start: 0, end: len, blog: f.blog.clone() },
            ),
            FormatValue::Color(f) => FormatValue::Color(
                FormatTypeColor { start: 0, end: len, hex: f.hex.clone() },
            ),
        }
    }

    /// The name under which this kind of formatting is written out.
    pub fn tag(&self) -> (r: &'static str)
        ensures
            r@ == kind_name(self@.kind),
    {
        match self {
            FormatValue::Bold(_) => "bold",
            FormatValue::Italic(_) => "italic",
            FormatValue::StrikeThrough(_) => "strikethrough",
            FormatValue::Small(_) => "small",
            FormatValue::Link(_) => "link",
            FormatValue::Mention(_) => "mention",
            FormatValue::Color(_) => "color",
        }
    }
}

/// The name under which a kind of formatting is written out.
pub open spec fn kind_name(kind: FormatKind) -> Seq<char> {
    match kind {
        FormatKind::Bold => "bold"@,
        FormatKind::Italic => "italic"@,
        FormatKind::StrikeThrough => "strikethrough"@,
        FormatKind::Small => "small"@,
        FormatKind::Link { .. } => "link"@,
        FormatKind::Mention { .. } => "mention"@,
        FormatKind::Color { .. } => "color"@,
    }
}

impl FormatTypeBold {
    /// Moves the range `offset` characters further into the text.
    pub fn offset(&mut self, offset: u64)
        requires
            old(self).start + offset <= u64::MAX,
            old(self).end + offset <= u64::MAX,
        ensures
            final(self).start == old(self).start + offset,
            final(self).end == old(self).end + offset,
    {
        self.start += offset;
        self.end += offset;
    }
}

impl FormatTypeItalic {
    /// Moves the range `offset` characters further into the text.
    pub fn offset(&mut self, offset: u64)
        requires
            old(self).start + offset <= u64::MAX,
            old(self).end + offset <= u64::MAX,
        ensures
            final(self).start == old(self).start + offset,
            final(self).end == old(self).end + offset,
    {
        self.start += offset;
        self.end += offset;
    }
}

impl FormatTypeStrikeThrough {
    /// Moves the range `offset` characters further into the text.
    pub fn offset(&mut self, offset: u64)
        requires
            old(self).start + offset <= u64::MAX,
            old(self).end + offset <= u64::MAX,
        ensures
            final(self).start == old(self).start + offset,
            final(self).end == old(self).end + offset,
    {
        self.start += offset;
        self.end += offset;
    }
}

impl FormatTypeSmall {
    /// Moves the range `offset` characters further into the text.
    pub fn offset(&mut self, offset: u64)
        requires
            old(self).start + offset <= u64::MAX,
            old(self).end + offset <= u64::MAX,
        ensures
            final(self).start == old(self).start + offset,
            final(self).end == old(self).end + offset,
    {
        self.start += offset;
        self.end += offset;
    }
}

impl FormatTypeLink {
    /// The link to `url` over the characters of `range`.
    pub fn new(range: Range<u64>, url: Url) -> (r: Self)
        ensures
            r.start == range.start,
            r.end == range.end,
            r.url == url,
    {
        FormatTypeLink { start: range.start, end: range.end, url }
    }

    /// Moves the range `offset` characters further into the text.
    pub fn offset(&mut self, offset: u64)
        requires
            old(self).start + offset <= u64::MAX,
            old(self).end + offset <= u64::MAX,
        ensures
            final(self).start == old(self).start + offset,
            final(self).end == old(self).end + offset,
            final(self).url == old(self).url,
    {
        self.start += offset;
        self.end += offset;
    }
}

impl FormatTypeMention {
    /// The mention of `blog` over the characters of `range`.
    pub fn new(range: Range<u64>, blog: BlogInfo) -> (r: Self)
        ensures
            r.start == range.start,
            r.end == range.end,
            r.blog == blog,
    {
        FormatTypeMention { start: range.start, end: range.end, blog }
    }

    /// Moves the range `offset` characters further into the text.
    pub fn offset(&mut self, offset: u64)
        requires
            old(self).start + offset <= u64::MAX,
            old(self).end + offset <= u64::MAX,
        ensures
            final(self).start == old(self).start + offset,
            final(self).end == old(self).end + offset,
            final(self).blog == old(self).blog,
    {
        self.start += offset;
        self.end += offset;
    }
}

impl FormatTypeColor {
    /// The colour `hex` over the characters of `range`.
    pub fn new(range: Range<u64>, hex: String) -> (r: Self)
        ensures
            r.start == range.start,
            r.end == range.end,
            r.hex == hex,
    {
        FormatTypeColor { start: range.start, end: range.end, hex }
    }

    /// Moves the range `offset` characters further into the text.
    pub fn offset(&mut self, offset: u64)
        requires
            old(self).start + offset <= u64::MAX,
            old(self).end + offset <= u64::MAX,
        ensures
            final(self).start == old(self).start + offset,
            final(self).end == old(self).end + offset,
            final(self).hex == old(self).hex,
    {
        self.start += offset;
        self.end += offset;
    }
}

impl From<Range<u64>> for FormatTypeBold {
    fn from(value: Range<u64>) -> (r: Self) {
        FormatTypeBold { start: value.start, end: value.end }
    }
}

impl FromSpecImpl<Range<u64>> for FormatTypeBold {
    open spec fn obeys_from_spec() -> bool {
        true
    }

    open spec fn from_spec(value: Range<u64>) -> Self {
        FormatTypeBold { start: value.start, end: value.end }
    }
}

impl From<String> for FormatTypeBold {
    fn from(value: String) -> (r: Self) {
        FormatTypeBold { start: 0, end: value.as_str().unicode_len() as u64 }
    }
}

impl FromSpecImpl<String> for FormatTypeBold {
    open spec fn obeys_from_spec() -> bool {
        true
    }

    open spec fn from_spec(value: String) -> Self {
        FormatTypeBold { start: 0, end: value@.len() as u64 }
    }
}

impl From<&String> for FormatTypeBold {
    fn from(value: &String) -> (r: Self) {
        FormatTypeBold { start: 0, end: value.as_str().unicode_len() as u64 }
    }
}

impl FromSpecImpl<&String> for FormatTypeBold {
    open spec fn obeys_from_spec() -> bool {
        true
    }

    open spec fn from_spec(value: &String) -> Self {
        FormatTypeBold { start: 0, end: value@.len() as u64 }
    }
}

impl From<&str> for FormatTypeBold {
    fn from(value: &str) -> (r: Self) {
        FormatTypeBold { start: 0, end: value.unicode_len() as u64 }
    }
}

impl FromSpecImpl<&str> for FormatTypeBold {
    open spec fn obeys_from_spec() -> bool {
        true
    }

    open spec fn from_spec(value: &str) -> Self {
        FormatTypeBold { start: 0, end: value@.len() as u64 }
    }
}

impl From<Range<u64>> for FormatTypeItalic {
    fn from(value: Range<u64>) -> (r: Self) {
        FormatTypeItalic { start: value.start, end: value.end }
    }
}

impl FromSpecImpl<Range<u64>> for FormatTypeItalic {
    open spec fn obeys_from_spec() -> bool {
        true
    }

    open spec fn from_spec(value: Range<u64>) -> Self {
        FormatTypeItalic { start: value.start, end: value.end }
    }
}

impl From<String> for FormatTypeItalic {
    fn from(value: String) -> (r: Self) {
        FormatTypeItalic { start: 0, end: value.as_str().unicode_len() as u64 }
    }
}

impl FromSpecImpl<String> for FormatTypeItalic {
    open spec fn obeys_from_spec() -> bool {
        true
    }

    open spec fn from_spec(value: String) -> Self {
        FormatTypeItalic { start: 0, end: value@.len() as u64 }
    }
}

impl From<&String> for FormatTypeItalic {
    fn from(value: &String) -> (r: Self) {
        FormatTypeItalic { start: 0, end: value.as_str().unicode_len() as u64 }
    }
}

impl FromSpecImpl<&String> for FormatTypeItalic {
    open spec fn obeys_from_spec() -> bool {
        true
    }

    open spec fn from_spec(value: &String) -> Self {
        FormatTypeItalic { start: 0, end: value@.len() as u64 }
    }
}

impl From<&str> for FormatTypeItalic {
    fn from(value: &str) -> (r: Self) {
        FormatTypeItalic { start: 0, end: value.unicode_len() as u64 }
    }
}

impl FromSpecImpl<&str> for FormatTypeItalic {
    open spec fn obeys_from_spec() -> bool {
        true
    }

    open spec fn from_spec(value: &str) -> Self {
        FormatTypeItalic { start: 0, end: value@.len() as u64 }
    }
}

impl From<Range<u64>> for FormatTypeStrikeThrough {
    fn from(value: Range<u64>) -> (r: Self) {
        FormatTypeStrikeThrough { start: value.start, end: value.end }
    }
}

impl FromSpecImpl<Range<u64>> for FormatTypeStrikeThrough {
    open spec fn obeys_from_spec() -> bool {
        true
    }

    open spec fn from_spec(value: Range<u64>) -> Self {
        FormatTypeStrikeThrough { start: value.start, end: value.end }
    }
}

impl From<String> for FormatTypeStrikeThrough {
    fn from(value: String) -> (r: Self) {
        FormatTypeStrikeThrough { start: 0, end: value.as_str().unicode_len() as u64 }
    }
}

impl FromSpecImpl<String> for FormatTypeStrikeThrough {
    open spec fn obeys_from_spec() -> bool {
        true
    }

    open spec fn from_spec(value: String) -> Self {
        FormatTypeStrikeThrough { start: 0, end: value@.len() as u64 }
    }
}

impl From<&String> for FormatTypeStrikeThrough {
    fn from(value: &String) -> (r: Self) {
        FormatTypeStrikeThrough { start: 0, end: value.as_str().unicode_len() as u64 }
    }
}

impl FromSpecImpl<&String> for FormatTypeStrikeThrough {
    open spec fn obeys_from_spec() -> bool {
        true
    }

    open spec fn from_spec(value: &String) -> Self {
        FormatTypeStrikeThrough { start: 0, end: value@.len() as u64 }
    }
}

impl From<&str> for FormatTypeStrikeThrough {
    fn from(value: &str) -> (r: Self) {
        FormatTypeStrikeThrough { start: 0, end: value.unicode_len() as u64 }
    }
}

impl FromSpecImpl<&str> for FormatTypeStrikeThrough {
    open spec fn obeys_from_spec() -> bool {
        true
    }

    open spec fn from_spec(value: &str) -> Self {
        FormatTypeStrikeThrough { start: 0, end: value@.len() as u64 }
    }
}

impl From<Range<u64>> for FormatTypeSmall {
    fn from(value: Range<u64>) -> (r: Self) {
        FormatTypeSmall { start: value.start, end: value.end }
    }
}

impl FromSpecImpl<Range<u64>> for FormatTypeSmall {
    open spec fn obeys_from_spec() -> bool {
        true
    }

    open spec fn from_spec(value: Range<u64>) -> Self {
        FormatTypeSmall { start: value.start, end: value.end }
    }
}

impl From<String> for FormatTypeSmall {
    fn from(value: String) -> (r: Self) {
        FormatTypeSmall { start: 0, end: value.as_str().unicode_len() as u64 }
    }
}

impl FromSpecImpl<String> for FormatTypeSmall {
    open spec fn obeys_from_spec() -> bool {
        true
    }

    open spec fn from_spec(value: String) -> Self {
        FormatTypeSmall { start: 0, end: value@.len() as u64 }
    }
}

impl From<&String> for FormatTypeSmall {
    fn from(value: &String) -> (r: Self) {
        FormatTypeSmall { start: 0, end: value.as_str().unicode_len() as u64 }
    }
}

impl FromSpecImpl<&String> for FormatTypeSmall {
    open spec fn obeys_from_spec() -> bool {
        true
    }

    open spec fn from_spec(value: &String) -> Self {
        FormatTypeSmall { start: 0, end: value@.len() as u64 }
    }
}

impl From<&str> for FormatTypeSmall {
    fn from(value: &str) -> (r: Self) {
        FormatTypeSmall { start: 0, end: value.unicode_len() as u64 }
    }
}

impl FromSpecImpl<&str> for FormatTypeSmall {
    open spec fn obeys_from_spec() -> bool {
        true
    }

    open spec fn from_spec(value: &str) -> Self {
        FormatTypeSmall { start: 0, end: value@.len() as u64 }
    }
}

impl From<Range<u64>> for FormatTypeLink {
    fn from(value: Range<u64>) -> (r: Self)
        ensures
            r.start == value.start,
            r.end == value.end,
            r.url@ == "https://tumblr.com/"@,
    {
        FormatTypeLink { start: value.start, end: value.end, url: Url::tumblr() }
    }
}

impl FromSpecImpl<Range<u64>> for FormatTypeLink {
    open spec fn obeys_from_spec() -> bool {
        false
    }

    open spec fn from_spec(value: Range<u64>) -> Self {
        arbitrary()
    }
}

impl From<String> for FormatTypeLink {
    fn from(value: String) -> (r: Self)
        ensures
            r.start == 0,
            r.end == value@.len() as u64,
            r.url@ == "https://tumblr.com/"@,
    {
        FormatTypeLink { start: 0, end: value.as_str().unicode_len() as u64, url: Url::tumblr() }
    }
}

impl FromSpecImpl<String> for FormatTypeLink {
    open spec fn obeys_from_spec() -> bool {
        false
    }

    open spec fn from_spec(value: String) -> Self {
        arbitrary()
    }
}

impl From<&String> for FormatTypeLink {
    fn from(value: &String) -> (r: Self)
        ensures
            r.start == 0,
            r.end == value@.len() as u64,
            r.url@ == "https://tumblr.com/"@,
    {
        FormatTypeLink { start: 0, end: value.as_str().unicode_len() as u64, url: Url::tumblr() }
    }
}

impl FromSpecImpl<&String> for FormatTypeLink {
    open spec fn obeys_from_spec() -> bool {
        false
    }

    open spec fn from_spec(value: &String) -> Self {
        arbitrary()
    }
}

impl From<&str> for FormatTypeLink {
    fn from(value: &str) -> (r: Self)
        ensures
            r.start == 0,
            r.end == value@.len() as u64,
            r.url@ == "https://tumblr.com/"@,
    {
        FormatTypeLink { start: 0, end: value.unicode_len() as u64, url: Url::tumblr() }
    }
}

impl FromSpecImpl<&str> for FormatTypeLink {
    open spec fn obeys_from_spec() -> bool {
        false
    }

    open spec fn from_spec(value: &str) -> Self {
        arbitrary()
    }
}

impl From<Range<u64>> for FormatTypeMention {
    fn from(value: Range<u64>) -> (r: Self)
        ensures
            r.start == value.start,
            r.end == value.end,
            r.blog@ == (BlogInfoView { uuid: "t:0"@, name: None, url: None }),
    {
        FormatTypeMention { start: value.start, end: value.end, blog: BlogInfo::new("t:0") }
    }
}

impl FromSpecImpl<Range<u64>> for FormatTypeMention {
    open spec fn obeys_from_spec() -> bool {
        false
    }

    open spec fn from_spec(value: Range<u64>) -> Self {
        arbitrary()
    }
}

impl From<String> for FormatTypeMention {
    fn from(value: String) -> (r: Self)
        ensures
            r.start == 0,
            r.end == value@.len() as u64,
            r.blog@ == (BlogInfoView { uuid: "t:0"@, name: None, url: None }),
    {
        FormatTypeMention { start: 0, end: value.as_str().unicode_len() as u64, blog: BlogInfo::new("t:0") }
    }
}

impl FromSpecImpl<String> for FormatTypeMention {
    open spec fn obeys_from_spec() -> bool {
        false
    }

    open spec fn from_spec(value: String) -> Self {
        arbitrary()
    }
}

impl From<&String> for FormatTypeMention {
    fn from(value: &String) -> (r: Self)
        ensures
            r.start == 0,
            r.end == value@.len() as u64,
            r.blog@ == (BlogInfoView { uuid: "t:0"@, name: None, url: None }),
    {
        FormatTypeMention { start: 0, end: value.as_str().unicode_len() as u64, blog: BlogInfo::new("t:0") }
    }
}

impl FromSpecImpl<&String> for FormatTypeMention {
    open spec fn obeys_from_spec() -> bool {
        false
    }

    open spec fn from_spec(value: &String) -> Self {
        arbitrary()
    }
}

impl From<&str> for FormatTypeMention {
    fn from(value: &str) -> (r: Self)
        ensures
            r.start == 0,
            r.end == value@.len() as u64,
            r.blog@ == (BlogInfoView { uuid: "t:0"@, name: None, url: None }),
    {
        FormatTypeMention { start: 0, end: value.unicode_len() as u64, blog: BlogInfo::new("t:0") }
    }
}

impl FromSpecImpl<&str> for FormatTypeMention {
    open spec fn obeys_from_spec() -> bool {
        false
    }

    open spec fn from_spec(value: &str) -> Self {
        arbitrary()
    }
}

impl From<Range<u64>> for FormatTypeColor {
    fn from(value: Range<u64>) -> (r: Self)
        ensures
            r.start == value.start,
            r.end == value.end,
            r.hex@ == "#ffffff"@,
    {
        FormatTypeColor { start: value.start, end: value.end, hex: String::from_str("#ffffff") }
    }
}

impl FromSpecImpl<Range<u64>> for FormatTypeColor {
    open spec fn obeys_from_spec() -> bool {
        false
    }

    open spec fn from_spec(value: Range<u64>) -> Self {
        arbitrary()
    }
}

impl From<String> for FormatTypeColor {
    fn from(value: String) -> (r: Self)
        ensures
            r.start == 0,
            r.end == value@.len() as u64,
            r.hex@ == "#ffffff"@,
    {
        FormatTypeColor { start: 0, end: value.as_str().unicode_len() as u64, hex: String::from_str("#ffffff") }
    }
}

impl FromSpecImpl<String> for FormatTypeColor {
    open spec fn obeys_from_spec() -> bool {
        false
    }

    open spec fn from_spec(value: String) -> Self {
        arbitrary()
    }
}

impl From<&String> for FormatTypeColor {
    fn from(value: &String) -> (r: Self)
        ensures
            r.start == 0,
            r.end == value@.len() as u64,
            r.hex@ == "#ffffff"@,
    {
        FormatTypeColor { start: 0, end: value.as_str().unicode_len() as u64, hex: String::from_str("#ffffff") }
    }
}

impl FromSpecImpl<&String> for FormatTypeColor {
    open spec fn obeys_from_spec() -> bool {
        false
    }

    open spec fn from_spec(value: &String) -> Self {
        arbitrary()
    }
}

impl From<&str> for FormatTypeColor {
    fn from(value: &str) -> (r: Self)
        ensures
            r.start == 0,
            r.end == value@.len() as u64,
            r.hex@ == "#ffffff"@,
    {
        FormatTypeColor { start: 0, end: value.unicode_len() as u64, hex: String::from_str("#ffffff") }
    }
}

impl FromSpecImpl<&str> for FormatTypeColor {
    open spec fn obeys_from_spec() -> bool {
        false
    }

    open spec fn from_spec(value: &str) -> Self {
        arbitrary()
    }
}

impl Default for FormatTypeBold {
    fn default() -> (r: Self)
        ensures
            r.start == 0,
            r.end == 0,
    {
        FormatTypeBold { start: 0, end: 0 }
    }
}

impl Default for FormatTypeItalic {
    fn default() -> (r: Self)
        ensures
            r.start == 0,
            r.end == 0,
    {
        FormatTypeItalic { start: 0, end: 0 }
    }
}

impl Default for FormatTypeStrikeThrough {
    fn default() -> (r: Self)
        ensures
            r.start == 0,
            r.end == 0,
    {
        FormatTypeStrikeThrough { start: 0, end: 0 }
    }
}

impl Default for FormatTypeSmall {
    fn default() -> (r: Self)
        ensures
            r.start == 0,
            r.end == 0,
    {
        FormatTypeSmall { start: 0, end: 0 }
    }
}

impl Default for FormatTypeLink {
    fn default() -> (r: Self)
        ensures
            r.start == 0,
            r.end == 0,
            r.url@ == "https://tumblr.com/"@,
    {
        FormatTypeLink { start: 0, end: 0, url: Url::tumblr() }
    }
}

impl Default for FormatTypeMention {
    fn default() -> (r: Self)
        ensures
            r.start == 0,
            r.end == 0,
            r.blog@ == (BlogInfoView { uuid: "t:0"@, name: None, url: None }),
    {
        FormatTypeMention { start: 0, end: 0, blog: BlogInfo::new("t:0") }
    }
}

impl Default for FormatTypeColor {
    fn default() -> (r: Self)
        ensures
            r.start == 0,
            r.end == 0,
            r.hex@ == "#ffffff"@,
    {
        FormatTypeColor { start: 0, end: 0, hex: String::from_str("#ffffff") }
    }
}

impl Clone for FormatTypeBold {
    fn clone(&self) -> (r: Self)
        ensures
            r == *self,
    {
        FormatTypeBold { start: self.start, end: self.end }
    }
}

impl Clone for FormatTypeItalic {
    fn clone(&self) -> (r: Self)
        ensures
            r == *self,
    {
        FormatTypeItalic { start: self.start, end: self.end }
    }
}

impl Clone for FormatTypeStrikeThrough {
    fn clone(&self) -> (r: Self)
        ensures
            r == *self,
    {
        FormatTypeStrikeThrough { start: self.start, end: self.end }
    }
}

impl Clone for FormatTypeSmall {
    fn clone(&self) -> (r: Self)
        ensures
            r == *self,
    {
        FormatTypeSmall { start: self.start, end: self.end }
    }
}

impl Clone for FormatTypeLink {
    fn clone(&self) -> (r: Self)
        ensures
            r == *self,
    {
        FormatTypeLink { start: self.start, end: self.end, url: self.url.clone() }
    }
}

impl Clone for FormatTypeMention {
    fn clone(&self) -> (r: Self)
        ensures
            r == *self,
    {
        FormatTypeMention { start: self.start, end: self.end, blog: self.blog.clone() }
    }
}

impl Clone for FormatTypeColor {
    fn clone(&self) -> (r: Self)
        ensures
            r == *self,
    {
        FormatTypeColor { start: self.start, end: self.end, hex: self.hex.clone() }
    }
}

impl Clone for FormatValue {
    fn clone(&self) -> (r: Self)
        ensures
            r == *self,
    {
        match self {
            FormatValue::Bold(f) => FormatValue::Bold(f.clone()),
            FormatValue::Italic(f) => FormatValue::Italic(f.clone()),
            FormatValue::StrikeThrough(f) => FormatValue::StrikeThrough(f.clone()),
            FormatValue::Small(f) => FormatValue::Small(f.clone()),
            FormatValue::Link(f) => FormatValue::Link(f.clone()),
            FormatValue::Mention(f) => FormatValue::Mention(f.clone()),
            FormatValue::Color(f) => FormatValue::Color(f.clone()),
        }
    }
}

} // verus!
