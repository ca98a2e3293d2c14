use dot013_mdparser::ast::{Node, NodeValue};
use dot013_mdparser::convert::npf::attributions::{
    AttributionApp, AttributionBlog, AttributionLink, AttributionPost,
};
use dot013_mdparser::convert::npf::content_blocks::{
    BlockAudio, BlockImage, BlockLink, BlockText, BlockVideo,
};
use dot013_mdparser::convert::npf::layout_blocks::{BlockAsk, BlockRows, DisplayBlocks};
use dot013_mdparser::convert::npf::objects::{BlogInfo, Media, Post, Url};
use dot013_mdparser::convert::npf::text_formatting::{
    FormatTypeBold, FormatTypeColor, FormatTypeItalic, FormatTypeLink, FormatTypeMention,
    FormatTypeSmall, FormatTypeStrikeThrough,
};
use dot013_mdparser::frontmatter::ensure_frontmatter;

fn site() -> Url {
    Url::parse("https://guz.one/page").unwrap()
}

#[test]
fn post_by_default_is_the_post_with_number_zero() {
    let post = Post::default();
    assert_eq!(post.id, 0);
    assert_eq!(post.id_string, "0");
    assert_eq!(post.id_string, Post::new(0).id_string);
    assert_eq!(post.content.len(), 0);
    assert!(post.post_type.is_none());
    assert!(post.is_valid());
    let post = Post::from(77);
    assert_eq!(post.id, 77);
    assert_eq!(post.id_string, "77");
    assert!(post.is_valid());
}

#[test]
fn every_new_post_is_valid() {
    for id in [0, 1, 9, 10, 11, 99, 100, 12345, u64::MAX - 1, u64::MAX] {
        assert!(Post::new(id).is_valid());
        assert_eq!(Post::new(id).id_string, id.to_string());
    }
}

#[test]
fn text_block_from_text() {
    assert_eq!(BlockText::default().text, "");
    assert_eq!(BlockText::from(String::from("owned")).text, "owned");
    assert_eq!(BlockText::from("borrowed").text, "borrowed");
    assert!(BlockText::from("borrowed").formatting.is_none());
}

#[test]
fn image_block_from_media() {
    assert_eq!(BlockImage::default().media.len(), 0);
    let image = BlockImage::from(Media::from("a.png"));
    assert_eq!(image.media.len(), 1);
    assert_eq!(image.media[0].identifier.as_deref(), Some("a.png"));
    assert!(image.alt_text.is_none());
    let image = BlockImage::from(vec![Media::from("a.png"), Media::from(site())]);
    assert_eq!(image.media.len(), 2);
    assert_eq!(
        image.media[1].url.as_ref().map(|u| u.as_str()),
        Some("https://guz.one/page")
    );
}

#[test]
fn link_audio_and_video_blocks_from_their_source() {
    assert_eq!(BlockLink::default().url.as_str(), "https://tumblr.com/");
    assert_eq!(BlockLink::from(site()).url.as_str(), "https://guz.one/page");

    let audio = BlockAudio::from(site());
    assert_eq!(audio.url.as_ref().map(|u| u.as_str()), Some("https://guz.one/page"));
    assert!(audio.media.is_none());
    let audio = BlockAudio::from(Media::from("song.mp3"));
    assert!(audio.url.is_none());
    assert_eq!(
        audio.media.as_ref().and_then(|m| m.identifier.as_deref()),
        Some("song.mp3")
    );
    assert!(audio.is_valid());

    let video = BlockVideo::from(site());
    assert!(video.media.is_none());
    assert!(video.is_valid());
    let video = BlockVideo::from(Media::from("clip.mp4"));
    assert!(video.url.is_none());
    assert_eq!(
        video.media.as_ref().and_then(|m| m.mime_type.as_deref()),
        Some("video/mp4")
    );
}

#[test]
fn media_from_its_source() {
    let media = Media::from(String::from("a.gif"));
    assert_eq!(media.identifier.as_deref(), Some("a.gif"));
    assert_eq!(media.mime_type.as_deref(), Some("image/gif"));
    let media = Media::from(Url::parse("https://guz.one/a.webp").unwrap());
    assert_eq!(
        media.url.as_ref().map(|u| u.as_str()),
        Some("https://guz.one/a.webp")
    );
    assert!(media.identifier.is_none());
    assert_eq!(media.mime_type.as_deref(), Some("image/webp"));
}

#[test]
fn blog_info_from_its_source() {
    assert_eq!(BlogInfo::default().uuid, "");
    assert_eq!(BlogInfo::from(String::from("t:a")).uuid, "t:a");
    assert_eq!(BlogInfo::from("t:b").uuid, "t:b");
    let blog = BlogInfo::from(site());
    assert_eq!(blog.uuid, "");
    assert_eq!(blog.url.as_ref().map(|u| u.as_str()), Some("https://guz.one/page"));
    assert!(blog.name.is_none());
}

#[test]
fn attributions_by_default_and_from_their_source() {
    let post = AttributionPost::default();
    assert_eq!(post.url.as_str(), "https://tumblr.com/");
    assert_eq!(post.post.id, 0);
    assert_eq!(post.blog.uuid, "t:0");
    assert_eq!(AttributionLink::default().url.as_str(), "https://tumblr.com/");
    assert_eq!(AttributionLink::from(site()).url.as_str(), "https://guz.one/page");
    assert_eq!(AttributionBlog::default().blog.uuid, "t:0");
    assert!(AttributionBlog::default().url.is_none());
    assert_eq!(AttributionBlog::from(BlogInfo::new("t:x")).blog.uuid, "t:x");
    assert_eq!(AttributionApp::default().url.as_str(), "https://tumblr.com/");
    assert_eq!(AttributionApp::from(site()).url.as_str(), "https://guz.one/page");
    assert!(AttributionApp::from(site()).logo.is_none());
}

#[test]
fn layout_blocks_by_default_and_from_their_blocks() {
    assert_eq!(BlockRows::default().display.len(), 0);
    assert_eq!(DisplayBlocks::default().blocks.len(), 0);
    assert_eq!(BlockAsk::default().blocks.len(), 0);
    assert_eq!(DisplayBlocks::from(4).blocks, vec![4]);
    assert_eq!(DisplayBlocks::from(vec![1, 2]).blocks, vec![1, 2]);
    let rows = BlockRows::from(DisplayBlocks::from(4));
    assert_eq!(rows.display.len(), 1);
    assert_eq!(rows.display[0].blocks, vec![4]);
    let rows = BlockRows::from(vec![DisplayBlocks::from(1), DisplayBlocks::from(2)]);
    assert_eq!(rows.display.len(), 2);
    assert_eq!(BlockAsk::from(5).blocks, vec![5]);
    assert_eq!(BlockAsk::from(vec![5, 6]).blocks, vec![5, 6]);
    assert!(BlockAsk::new(vec![5, 6]).attribution.is_none());
}

#[test]
fn formatting_by_default_covers_nothing() {
    let bold = FormatTypeBold::default();
    assert_eq!((bold.start, bold.end), (0, 0));
    let italic = FormatTypeItalic::default();
    assert_eq!((italic.start, italic.end), (0, 0));
    let strike = FormatTypeStrikeThrough::default();
    assert_eq!((strike.start, strike.end), (0, 0));
    let small = FormatTypeSmall::default();
    assert_eq!((small.start, small.end), (0, 0));
    let link = FormatTypeLink::default();
    assert_eq!((link.start, link.end), (0, 0));
    assert_eq!(link.url.as_str(), "https://tumblr.com/");
    let mention = FormatTypeMention::default();
    assert_eq!(mention.blog.uuid, "t:0");
    let color = FormatTypeColor::default();
    assert_eq!(color.hex, "#ffffff");
}

#[test]
fn ensure_frontmatter_adds_it_once() {
    let mut document = Node {
        value: NodeValue::Document,
        children: vec![Node {
            value: NodeValue::Paragraph,
            children: vec![Node {
                value: NodeValue::FrontMatter(String::from("deeper")),
                children: vec![],
            }],
        }],
    };
    assert!(ensure_frontmatter(&mut document));
    assert_eq!(document.children.len(), 2);
    match &document.children[0].value {
        NodeValue::FrontMatter(text) => assert_eq!(text, "---\n\n---"),
        other => panic!("not front matter: {:?}", other),
    }
    assert!(matches!(document.children[1].value, NodeValue::Paragraph));
    assert!(!ensure_frontmatter(&mut document));
    assert_eq!(document.children.len(), 2);
}
