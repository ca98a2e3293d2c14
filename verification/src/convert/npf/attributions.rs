//! Where the content of a block comes from.

use super::objects::{BlogInfo, BlogInfoView, Media, Post, Url};
use crate::bindings::decimal;
use vstd::prelude::*;
use vstd::std_specs::convert::FromSpecImpl;

verus! {

/// The source that a block is attributed to.
#[derive(Debug)]
pub enum AttributionValue {
    Post(AttributionPost),
    Link(AttributionLink),
    Blog(AttributionBlog),
}

/// Attribution to a post of a blog.
#[derive(Debug)]
pub struct AttributionPost {
    pub url: Url,
    pub post: Post,
    pub blog: BlogInfo,
}

impl AttributionPost {
    /// The attribution to `post` of `blog`, found at `url`.
    pub fn new(url: Url, post: Post, blog: BlogInfo) -> (r: Self)
        ensures
            r.url == url,
            r.post == post,
            r.blog == blog,
    {
        AttributionPost { url, post, blog }
    }

    /// Whether both the blog and the post can stand in a post.
    pub fn is_valid(&self) -> (r: bool)
        ensures
            r == self.post.valid(),
    {
        self.blog.is_valid() && self.post.is_valid()
    }
}

/// Attribution to a page.
#[derive(Debug)]
pub struct AttributionLink {
    pub url: Url,
}

impl AttributionLink {
    /// The attribution to the page at `url`.
    pub fn new(url: Url) -> (r: Self)
        ensures
            r.url == url,
    {
        AttributionLink { url }
    }
}

/// Attribution to a blog.
#[derive(Debug)]
pub struct AttributionBlog {
    pub url: Option<Url>,
    pub blog: BlogInfo,
}

impl AttributionBlog {
    /// The attribution to `blog`, with no URL.
    pub fn new(blog: BlogInfo) -> (r: Self)
        ensures
            r.url is None,
            r.blog == blog,
    {
        AttributionBlog { url: None, blog }
    }

    /// Whether the blog can stand in a post.
    pub fn is_valid(&self) -> (r: bool)
        ensures
            r,
    {
        self.blog.is_valid()
    }
}

/// Attribution to an application.
#[derive(Debug)]
pub struct AttributionApp {
    pub url: Url,
    pub app_name: Option<String>,
    pub display_text: Option<String>,
    pub logo: Option<Media>,
}

impl AttributionApp {
    /// The attribution to the application at `url`.
    pub fn new(url: Url) -> (r: Self)
        ensures
            r.url == url,
            r.app_name is None,
            r.display_text is None,
            r.logo is None,
    {
        AttributionApp { url, app_name: None, display_text: None, logo: None }
    }
}

impl Default for AttributionPost {
    fn default() -> (r: Self)
        ensures
            r.url@ == "https://tumblr.com/"@,
            r.post.id == 0,
            r.post.id_string@ == decimal(0),
            r.post.content@.len() == 0,
            r.post.is_bare(),
            r.blog@ == (BlogInfoView { uuid: "t:0"@, name: None, url: None }),
    {
        AttributionPost { url: Url::tumblr(), post: Post::new(0), blog: BlogInfo::new("t:0") }
    }
}

impl Default for AttributionLink {
    fn default() -> (r: Self)
        ensures
            r.url@ == "https://tumblr.com/"@,
    {
        AttributionLink { url: Url::tumblr() }
    }
}

impl From<Url> for AttributionLink {
    fn from(value: Url) -> (r: Self) {
        AttributionLink { url: value }
    }
}

impl FromSpecImpl<Url> for AttributionLink {
    open spec fn obeys_from_spec() -> bool {
        true
    }

    open spec fn from_spec(value: Url) -> Self {
        AttributionLink { url: value }
    }
}

impl Default for AttributionBlog {
    fn default() -> (r: Self)
        ensures
            r.url is None,
            r.blog@ == (BlogInfoView { uuid: "t:0"@, name: None, url: None }),
    {
        AttributionBlog { url: None, blog: BlogInfo::new("t:0") }
    }
}

impl From<BlogInfo> for AttributionBlog {
    fn from(value: BlogInfo) -> (r: Self) {
        AttributionBlog { url: None, blog: value }
    }
}

impl FromSpecImpl<BlogInfo> for AttributionBlog {
    open spec fn obeys_from_spec() -> bool {
        true
    }

    open spec fn from_spec(value: BlogInfo) -> Self {
        AttributionBlog { url: None, blog: value }
    }
}

impl Default for AttributionApp {
    fn default() -> (r: Self)
        ensures
            r.url@ == "https://tumblr.com/"@,
            r.app_name is None,
            r.display_text is None,
            r.logo is None,
    {
        AttributionApp::new(Url::tumblr())
    }
}

impl From<Url> for AttributionApp {
    fn from(value: Url) -> (r: Self) {
        AttributionApp { url: value, app_name: None, display_text: None, logo: None }
    }
}

impl FromSpecImpl<Url> for AttributionApp {
    open spec fn obeys_from_spec() -> bool {
        true
    }

    open spec fn from_spec(value: Url) -> Self {
        AttributionApp { url: value, app_name: None, display_text: None, logo: None }
    }
}

} // verus!
