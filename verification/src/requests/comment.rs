//! Comment request data

use vstd::prelude::*;

use crate::text::unescape_ampersands;
use crate::text::unescape_url;
use crate::types::Comment;
use crate::types::CommentModel;

verus! {

#[derive(Clone, Debug)]
pub struct CommentResponse {
    pub data: CommentResponseData,
}

#[derive(Clone, Debug)]
pub struct CommentResponseData {
    pub shortcode_media: ShortcodeMedia,
}

#[derive(Clone, Debug)]
pub struct ShortcodeMedia {
    pub edge_media_to_comment: EdgeMediaToComment,
}

#[derive(Clone, Debug)]
pub struct EdgeMediaToComment {
    pub edges: Option<Vec<MediaToCommentEdge>>,
    pub page_info: EdgeMediaToCommentPageInfo,
}

#[derive(Clone, Debug)]
pub struct EdgeMediaToCommentPageInfo {
    pub end_cursor: Option<String>,
}

#[derive(Clone, Debug)]
pub struct MediaToCommentEdge {
    pub node: MediaToCommentNode,
}

#[derive(Clone, Debug)]
pub struct MediaToCommentNode {
    pub id: String,
    pub text: String,
    pub created_at: i64,
    pub owner: MediaToCommentOwner,
}

#[derive(Clone, Debug)]
pub struct MediaToCommentOwner {
    pub id: String,
    pub profile_pic_url: String,
    pub username: String,
}

impl MediaToCommentNode {
    /// The comment this node decodes to: the author's denormalized fields
    /// come along, the profile-picture URL unescaped.
    pub open spec fn spec_comment(self) -> CommentModel {
        CommentModel {
            id: self.id@,
            text: self.text@,
            created_at: self.created_at,
            user_id: self.owner.id@,
            username: self.owner.username@,
            user_profile_pic: unescape_ampersands(self.owner.profile_pic_url@),
        }
    }
}

impl Comment {
    /// Decode one comment node.
    pub fn from_node(node: MediaToCommentNode) -> (r: Comment)
        ensures
            r@ == node.spec_comment(),
    {
        let MediaToCommentNode { id, text, created_at, owner } = node;
        Comment {
            id,
            text,
            created_at,
            user_id: owner.id,
            username: owner.username,
            user_profile_pic: unescape_url(owner.profile_pic_url.as_str()),
        }
    }
}

impl CommentResponse {
    /// The models of the comments this page carries, in arrival order;
    /// a page without the edge list carries none.
    pub open spec fn spec_comments(self) -> Seq<CommentModel> {
        match self.data.shortcode_media.edge_media_to_comment.edges {
            Some(edges) => edges@.map_values(|e: MediaToCommentEdge| e.node.spec_comment()),
            None => Seq::empty(),
        }
    }

    /// The pagination cursor this page carries, or the empty sequence when
    /// the platform sent none.
    pub open spec fn spec_cursor(self) -> Seq<char> {
        match self.data.shortcode_media.edge_media_to_comment.page_info.end_cursor {
            Some(c) => c@,
            None => Seq::empty(),
        }
    }

    /// The cursor for the next page, if the platform sent one.
    pub fn end_cursor(&self) -> (r: Option<&str>)
        ensures
            match r {
                Some(c) => self.data.shortcode_media.edge_media_to_comment.page_info.end_cursor
                    is Some && c@ == self.spec_cursor(),
                None => self.data.shortcode_media.edge_media_to_comment.page_info.end_cursor
                    is None,
            },
    {
        match &self.data.shortcode_media.edge_media_to_comment.page_info.end_cursor {
            Some(c) => Some(c.as_str()),
            None => None,
        }
    }

    /// Decode every comment of the page, in arrival order.
    pub fn comments(self) -> (r: Vec<Comment>)
        ensures
            r.deep_view() == self.spec_comments(),
    {
        match self.data.shortcode_media.edge_media_to_comment.edges {
            Some(edges) => {
                let ghost all = edges@;
                let mut edges = edges;
                let mut r: Vec<Comment> = Vec::new();
                while edges.len() > 0
                    invariant
                        r@.len() + edges@.len() == all.len(),
                        edges@ =~= all.subrange(r@.len() as int, all.len() as int),
                        forall|i: int|
                            0 <= i < r@.len() ==> (#[trigger] r@[i]).deep_view()
                                == all[i].node.spec_comment(),
                    decreases edges.len(),
                {
                    let e = edges.remove(0);
                    proof {
                        assert(e == all[r@.len() as int]);
                    }
                    r.push(Comment::from_node(e.node));
                }
                proof {
                    assert(r.deep_view() =~= self.spec_comments());
                }
                r
            },
            None => {
                let r: Vec<Comment> = Vec::new();
                proof {
                    assert(r.deep_view() =~= self.spec_comments());
                }
                r
            },
        }
    }
}

} // verus!
