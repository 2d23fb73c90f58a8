//! Post requests types

use vstd::prelude::*;

use crate::text::unescape_ampersands;
use crate::text::unescape_url;
use crate::types::Post;
use crate::types::PostModel;

verus! {

/// A counter the platform may report as a negative sentinel, meaning the
/// value is hidden; normalization turns that into "absent".
pub open spec fn normalized_counter(count: isize) -> Option<usize> {
    if count < 0 {
        None
    } else {
        Some(count as usize)
    }
}

#[derive(Clone, Debug)]
pub struct PostResponse {
    pub data: PostResponseData,
}

#[derive(Clone, Debug)]
pub struct PostResponseData {
    pub user: PostResponseUser,
}

#[derive(Clone, Debug)]
pub struct PostResponseUser {
    pub edge_owner_to_timeline_media: PostResponseTimelineMedia,
}

#[derive(Clone, Debug)]
pub struct PostResponseTimelineMedia {
    pub edges: Vec<PostResponseEdge>,
    pub page_info: PostResponsePageInfo,
}

#[derive(Clone, Debug)]
pub struct PostResponseEdge {
    pub node: PostResponseNode,
}

#[derive(Clone, Debug)]
pub struct PostResponsePageInfo {
    pub end_cursor: Option<String>,
}

#[derive(Clone, Debug)]
pub struct PostResponseNode {
    pub id: String,
    pub edge_media_to_caption: PostResponseCaption,
    pub comments_disabled: bool,
    pub taken_at_timestamp: i64,
    pub dimensions: PostResponseDimensions,
    pub display_url: String,
    /// Comments amount
    pub edge_media_to_comment: PostResponseNodeCounter,
    /// Likes amount
    pub edge_media_preview_like: PostResponseNodeCounter,
    pub media_preview: Option<String>,
    pub shortcode: String,
    pub thumbnail_src: String,
    pub is_video: bool,
    pub video_view_count: Option<usize>,
}

#[derive(Clone, Debug)]
pub struct PostResponseDimensions {
    pub height: usize,
    pub width: usize,
}

#[derive(Clone, Debug)]
pub struct PostResponseNodeCounter {
    pub count: isize,
}

#[derive(Clone, Debug)]
pub struct PostResponseCaption {
    pub edges: Vec<PostResponseCaptionEdge>,
}

#[derive(Clone, Debug)]
pub struct PostResponseCaptionEdge {
    pub node: PostResponseCaptionNode,
}

#[derive(Clone, Debug)]
pub struct PostResponseCaptionNode {
    pub text: String,
}

impl PostResponseNode {
    /// The post this node decodes to: counters normalized, URLs unescaped,
    /// the first caption edge kept, a missing view count defaulting to zero.
    pub open spec fn spec_post(self) -> PostModel {
        PostModel {
            caption: if self.edge_media_to_caption.edges.len() > 0 {
                Some(self.edge_media_to_caption.edges[0].node.text@)
            } else {
                None
            },
            comments_disabled: self.comments_disabled,
            comments: normalized_counter(self.edge_media_to_comment.count),
            display_url: unescape_ampersands(self.display_url@),
            height: self.dimensions.height,
            id: self.id@,
            is_video: self.is_video,
            likes: normalized_counter(self.edge_media_preview_like.count),
            media_preview: self.media_preview.deep_view(),
            shortcode: self.shortcode@,
            taken_at_timestamp: self.taken_at_timestamp,
            thumbnail_src: unescape_ampersands(self.thumbnail_src@),
            video_view_count: match self.video_view_count {
                Some(v) => v,
                None => 0,
            },
            width: self.dimensions.width,
        }
    }
}

impl Post {
    /// Decode one timeline node into a post.
    pub fn from_node(node: PostResponseNode) -> (r: Post)
        ensures
            r@ == node.spec_post(),
    {
        let PostResponseNode {
            id,
            edge_media_to_caption,
            comments_disabled,
            taken_at_timestamp,
            dimensions,
            display_url,
            edge_media_to_comment,
            edge_media_preview_like,
            media_preview,
            shortcode,
            thumbnail_src,
            is_video,
            video_view_count,
        } = node;
        let mut caption_edges = edge_media_to_caption.edges;
        let caption = if caption_edges.len() > 0 {
            Some(caption_edges.remove(0).node.text)
        } else {
            None
        };
        Post {
            caption,
            comments_disabled,
            comments: if edge_media_to_comment.count < 0 {
                None
            } else {
                Some(edge_media_to_comment.count as usize)
            },
            display_url: unescape_url(display_url.as_str()),
            height: dimensions.height,
            id,
            is_video,
            likes: if edge_media_preview_like.count < 0 {
                None
            } else {
                Some(edge_media_preview_like.count as usize)
            },
            media_preview,
            shortcode,
            taken_at_timestamp,
            thumbnail_src: unescape_url(thumbnail_src.as_str()),
            video_view_count: match video_view_count {
                Some(v) => v,
                None => 0,
            },
            width: dimensions.width,
        }
    }
}

impl PostResponse {
    /// The models of the posts this page carries, in arrival order.
    pub open spec fn spec_posts(self) -> Seq<PostModel> {
        self.data.user.edge_owner_to_timeline_media.edges@.map_values(
            |e: PostResponseEdge| e.node.spec_post(),
        )
    }

    /// The pagination cursor this page carries, or the empty sequence when
    /// the platform sent none.
    pub open spec fn spec_cursor(self) -> Seq<char> {
        match self.data.user.edge_owner_to_timeline_media.page_info.end_cursor {
            Some(c) => c@,
            None => Seq::empty(),
        }
    }

    /// The cursor for the next page, if the platform sent one.
    pub fn end_cursor(&self) -> (r: Option<&str>)
        ensures
            match r {
                Some(c) => self.data.user.edge_owner_to_timeline_media.page_info.end_cursor
                    is Some && c@ == self.spec_cursor(),
                None => self.data.user.edge_owner_to_timeline_media.page_info.end_cursor is None,
            },
    {
        match &self.data.user.edge_owner_to_timeline_media.page_info.end_cursor {
            Some(c) => Some(c.as_str()),
            None => None,
        }
    }

    /// Decode every post of the page, in arrival order.
    pub fn posts(self) -> (r: Vec<Post>)
        ensures
            r.deep_view() == self.spec_posts(),
    {
        let ghost all = self.data.user.edge_owner_to_timeline_media.edges@;
        let mut edges = self.data.user.edge_owner_to_timeline_media.edges;
        let mut r: Vec<Post> = Vec::new();
        while edges.len() > 0
            invariant
                r@.len() + edges@.len() == all.len(),
                edges@ =~= all.subrange(r@.len() as int, all.len() as int),
                forall|i: int|
                    0 <= i < r@.len() ==> (#[trigger] r@[i]).deep_view() == all[i].node.spec_post(),
            decreases edges.len(),
        {
            let e = edges.remove(0);
            proof {
                assert(e == all[r@.len() as int]);
            }
            r.push(Post::from_node(e.node));
        }
        proof {
            assert(r.deep_view() =~= self.spec_posts());
        }
        r
    }
}

} // verus!
