//! The objects that blocks and posts refer to: URLs, blogs and media.

use crate::bindings::{guess_mime, parse_url, parsed_url};
pub use super::objects_post::Post;
use super::content_blocks;
use super::layout_blocks;
use vstd::prelude::*;
use vstd::std_specs::convert::FromSpecImpl;
use vstd::string::{StrSliceExecFns, StringExecFns};

verus! {

/// An absolute URL, held in its serialised form.
#[derive(Debug)]
pub struct Url {
    text: String,
}

impl View for Url {
    type V = Seq<char>;

    closed spec fn view(&self) -> Seq<char> {
        self.text@
    }
}

impl DeepView for Url {
    type V = Seq<char>;

    open spec fn deep_view(&self) -> Seq<char> {
        self@
    }
}

impl Clone for Url {
    fn clone(&self) -> (r: Self)
        ensures
            r == *self,
    {
        Url { text: self.text.clone() }
    }
}

impl Url {
    /// Parses `input` as an absolute URL.
    pub fn parse(input: &str) -> (r: Result<Url, url::ParseError>)
        ensures
            r matches Ok(u) ==> parsed_url(input@) == Some(u@),
            r is Err ==> parsed_url(input@) is None,
    {
        match parse_url(input) {
            Ok(text) => Ok(Url { text }),
            Err(e) => Err(e),
        }
    }

    /// The address of Tumblr itself, which stands where no other URL was given.
    pub fn tumblr() -> (r: Url)
        ensures
            r@ == "https://tumblr.com/"@,
    {
        Url { text: String::from_str("https://tumblr.com/") }
    }

    /// The serialisation of this URL.
    pub fn as_str(&self) -> (s: &str)
        ensures
            s@ == self@,
    {
        self.text.as_str()
    }
}

/// A reference to a blog.
#[derive(Debug)]
pub struct BlogInfo {
    pub uuid: String,
    pub name: Option<String>,
    pub url: Option<Url>,
}

/// What a [`BlogInfo`] holds, as plain values.
pub struct BlogInfoView {
    pub uuid: Seq<char>,
    pub name: Option<Seq<char>>,
    pub url: Option<Seq<char>>,
}

impl View for BlogInfo {
    type V = BlogInfoView;

    open spec fn view(&self) -> BlogInfoView {
        BlogInfoView {
            uuid: self.uuid@,
            name: self.name.deep_view(),
            url: self.url.deep_view(),
        }
    }
}

impl DeepView for BlogInfo {
    type V = BlogInfoView;

    open spec fn deep_view(&self) -> BlogInfoView {
        self@
    }
}

impl Clone for BlogInfo {
    fn clone(&self) -> (r: Self)
        ensures
            r == *self,
    {
        let url = match &self.url {
            Some(u) => Some(u.clone()),
            None => None,
        };
        BlogInfo { uuid: self.uuid.clone(), name: copied(&self.name), url }
    }
}

/// Whether `text` starts with the two characters that mark a blog identifier.
pub open spec fn is_blog_identifier(text: Seq<char>) -> bool {
    text.len() >= 2 && text[0] == 't' && text[1] == ':'
}

/// Tells whether `text` starts with `t:`, the mark of a blog identifier.
pub fn starts_as_blog_identifier(text: &str) -> (r: bool)
    ensures
        r == is_blog_identifier(text@),
{
    text.unicode_len() >= 2 && text.get_char(0) == 't' && text.get_char(1) == ':'
}

impl BlogInfo {
    /// The blog with the identifier `uuid`, with no name and no URL.
    pub fn new(uuid: &str) -> (r: Self)
        ensures
            r@ == (BlogInfoView { uuid: uuid@, name: None, url: None }),
    {
        BlogInfo { uuid: String::from_str(uuid), name: None, url: None }
    }

    /// Whether this reference can stand in a post. Every reference can: it
    /// is enough that the identifier is not empty or does not start with
    /// `t:`, and an empty identifier does not start with `t:`.
    pub fn is_valid(&self) -> (r: bool)
        ensures
            r,
    {
        let uuid = self.uuid.as_str();
        uuid.unicode_len() != 0 || !starts_as_blog_identifier(uuid)
    }
}

/// A media file: where it is, or what names it, with what is known of it.
#[derive(Debug)]
pub struct Media {
    pub mime_type: Option<String>,
    pub url: Option<Url>,
    pub identifier: Option<String>,
    pub width: Option<u64>,
    pub height: Option<u64>,
    pub original_dimensions_missing: Option<bool>,
    pub cropped: Option<bool>,
    pub has_original_dimentions: Option<bool>,
}

/// What a [`Media`] holds, as plain values.
pub struct MediaView {
    pub mime_type: Option<Seq<char>>,
    pub url: Option<Seq<char>>,
    pub identifier: Option<Seq<char>>,
    pub width: Option<u64>,
    pub height: Option<u64>,
    pub original_dimensions_missing: Option<bool>,
    pub cropped: Option<bool>,
    pub has_original_dimentions: Option<bool>,
}

impl MediaView {
    /// A media object of which only the source and the media type are known.
    pub open spec fn bare(
        url: Option<Seq<char>>,
        identifier: Option<Seq<char>>,
        mime_type: Option<Seq<char>>,
    ) -> MediaView {
        MediaView {
            mime_type,
            url,
            identifier,
            width: None,
            height: None,
            original_dimensions_missing: None,
            cropped: None,
            has_original_dimentions: None,
        }
    }
}

impl View for Media {
    type V = MediaView;

    open spec fn view(&self) -> MediaView {
        MediaView {
            mime_type: self.mime_type.deep_view(),
            url: self.url.deep_view(),
            identifier: self.identifier.deep_view(),
            width: self.width,
            height: self.height,
            original_dimensions_missing: self.original_dimensions_missing,
            cropped: self.cropped,
            has_original_dimentions: self.has_original_dimentions,
        }
    }
}

impl DeepView for Media {
    type V = MediaView;

    open spec fn deep_view(&self) -> MediaView {
        self@
    }
}

impl Media {
    /// The media object that says nothing, which is no valid object yet:
    /// what the objects with a source are made from.
    fn default() -> (r: Self)
        ensures
            r@ == MediaView::bare(None, None, None),
    {
        Media {
            mime_type: None,
            url: None,
            identifier: None,
            width: None,
            height: None,
            original_dimensions_missing: None,
            cropped: None,
            has_original_dimentions: None,
        }
    }

    /// The media object named `identifier`, with the media type guessed from
    /// the identifier's extension.
    pub fn new(identifier: String) -> (r: Self)
        ensures
            r@ == MediaView::bare(None, Some(identifier@), r@.mime_type),
    {
        let mime_type = guess_mime(identifier.as_str());
        Media::identified(identifier, mime_type)
    }

    /// The media object named `identifier`, of the media type `mime_type`.
    pub fn identified(identifier: String, mime_type: Option<String>) -> (r: Self)
        ensures
            r@ == MediaView::bare(None, Some(identifier@), mime_type.deep_view()),
    {
        Media { mime_type, identifier: Some(identifier), ..Media::default() }
    }

    /// The media object at `url`, of the media type `mime_type`.
    pub fn located(url: Url, mime_type: Option<String>) -> (r: Self)
        ensures
            r@ == MediaView::bare(Some(url@), None, mime_type.deep_view()),
    {
        Media { mime_type, url: Some(url), ..Media::default() }
    }

    /// The media object for an image whose target is `target`: the object at
    /// `parsed`, where the target is an absolute URL; otherwise the object
    /// named `name`, the file name in the target taken as a path; and the
    /// object named by the whole target where there is neither.
    pub fn sourced(target: &str, parsed: Option<Url>, name: Option<String>) -> (r: Self)
        ensures
            r@ == match parsed {
                Some(url) => MediaView::bare(Some(url@), None, r@.mime_type),
                None => match name {
                    Some(n) => MediaView::bare(None, Some(n@), r@.mime_type),
                    None => MediaView::bare(None, Some(target@), r@.mime_type),
                },
            },
    {
        match parsed {
            Some(url) => Media::from(url),
            None => match name {
                Some(n) => Media::new(n),
                None => Media::new(String::from_str(target)),
            },
        }
    }

    /// Whether the object says where its file is or what names it.
    pub fn is_valid(&self) -> (r: bool)
        ensures
            r == (self@.url is Some || self@.identifier is Some),
    {
        self.url.is_some() || self.identifier.is_some()
    }
}

/// The post that an entry of a reblog trail stands for.
#[derive(Debug)]
pub struct ReblogTrailPost {
    pub id: String,
    pub timestamp: Option<String>,
    pub is_commercial: Option<bool>,
}

/// One entry of a reblog trail: what an earlier post in the chain held.
#[derive(Debug)]
pub struct ReblogTrail {
    pub post: Option<ReblogTrailPost>,
    pub blog: Option<BlogInfo>,
    pub content: Vec<content_blocks::BlockValue>,
    pub layout: Vec<layout_blocks::BlockValue>,
    pub broken_blog_name: Option<bool>,
}

/// The picture of a blog.
#[derive(Debug)]
pub struct Avatar {
    pub width: u64,
    pub height: u64,
    pub url: Url,
    pub accessories: Vec<serde_json::Value>,
}

/// A frame in which a player is embedded.
#[derive(Debug)]
pub struct EmbedIframe {
    pub url: Url,
    pub width: u64,
    pub height: u64,
}

impl Default for BlogInfo {
    fn default() -> (r: Self)
        ensures
            r@ == (BlogInfoView { uuid: Seq::empty(), name: None, url: None }),
    {
        BlogInfo { uuid: String::new(), name: None, url: None }
    }
}

impl From<String> for BlogInfo {
    fn from(value: String) -> (r: Self) {
        BlogInfo { uuid: value, name: None, url: None }
    }
}

impl FromSpecImpl<String> for BlogInfo {
    open spec fn obeys_from_spec() -> bool {
        true
    }

    open spec fn from_spec(value: String) -> Self {
        BlogInfo { uuid: value, name: None, url: None }
    }
}

impl From<&str> for BlogInfo {
    fn from(value: &str) -> (r: Self)
        ensures
            r@ == (BlogInfoView { uuid: value@, name: None, url: None }),
    {
        BlogInfo::new(value)
    }
}

impl FromSpecImpl<&str> for BlogInfo {
    open spec fn obeys_from_spec() -> bool {
        false
    }

    open spec fn from_spec(value: &str) -> Self {
        arbitrary()
    }
}

impl From<Url> for BlogInfo {
    fn from(value: Url) -> (r: Self)
        ensures
            r@ == (BlogInfoView { uuid: Seq::empty(), name: None, url: Some(value@) }),
    {
        BlogInfo { uuid: String::new(), name: None, url: Some(value) }
    }
}

impl FromSpecImpl<Url> for BlogInfo {
    open spec fn obeys_from_spec() -> bool {
        false
    }

    open spec fn from_spec(value: Url) -> Self {
        arbitrary()
    }
}

impl From<String> for Media {
    fn from(value: String) -> (r: Self)
        ensures
            r@ == MediaView::bare(None, Some(value@), r@.mime_type),
    {
        Media::new(value)
    }
}

impl FromSpecImpl<String> for Media {
    open spec fn obeys_from_spec() -> bool {
        false
    }

    open spec fn from_spec(value: String) -> Self {
        arbitrary()
    }
}

impl From<&str> for Media {
    fn from(value: &str) -> (r: Self)
        ensures
            r@ == MediaView::bare(None, Some(value@), r@.mime_type),
    {
        Media::new(String::from_str(value))
    }
}

impl FromSpecImpl<&str> for Media {
    open spec fn obeys_from_spec() -> bool {
        false
    }

    open spec fn from_spec(value: &str) -> Self {
        arbitrary()
    }
}

impl From<Url> for Media {
    fn from(value: Url) -> (r: Self)
        ensures
            r@ == MediaView::bare(Some(value@), None, r@.mime_type),
    {
        let mime_type = guess_mime(value.as_str());
        Media::located(value, mime_type)
    }
}

impl FromSpecImpl<Url> for Media {
    open spec fn obeys_from_spec() -> bool {
        false
    }

    open spec fn from_spec(value: Url) -> Self {
        arbitrary()
    }
}

/// A copy of `text`, where there is one.
pub fn copied(text: &Option<String>) -> (r: Option<String>)
    ensures
        r == *text,
{
    match text {
        Some(t) => Some(t.clone()),
        None => None,
    }
}

impl Clone for Media {
    fn clone(&self) -> (r: Self)
        ensures
            r == *self,
    {
        let url = match &self.url {
            Some(u) => Some(u.clone()),
            None => None,
        };
        Media {
            mime_type: copied(&self.mime_type),
            url,
            identifier: copied(&self.identifier),
            width: self.width,
            height: self.height,
            original_dimensions_missing: self.original_dimensions_missing,
            cropped: self.cropped,
            has_original_dimentions: self.has_original_dimentions,
        }
    }
}

impl Clone for ReblogTrailPost {
    fn clone(&self) -> (r: Self)
        ensures
            r == *self,
    {
        ReblogTrailPost {
            id: self.id.clone(),
            timestamp: copied(&self.timestamp),
            is_commercial: self.is_commercial,
        }
    }
}

impl Clone for EmbedIframe {
    fn clone(&self) -> (r: Self)
        ensures
            r == *self,
    {
        EmbedIframe { url: self.url.clone(), width: self.width, height: self.height }
    }
}

} // verus!
