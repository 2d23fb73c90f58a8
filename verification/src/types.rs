//! Domain entities returned by the scraper.
//!
//! All of them are immutable value objects, constructed fresh per response
//! decode; timestamps are carried as seconds since the Unix epoch.

use vstd::prelude::*;

verus! {

/// A post published by a user.
#[derive(Clone, Hash, Eq, PartialEq, Debug)]
pub struct Post {
    pub caption: Option<String>,
    pub comments_disabled: bool,
    /// Comment count; `None` when the platform reports it as hidden.
    pub comments: Option<usize>,
    pub display_url: String,
    pub height: usize,
    pub id: String,
    pub is_video: bool,
    /// Like count; `None` when the platform reports it as hidden.
    pub likes: Option<usize>,
    pub media_preview: Option<String>,
    pub shortcode: String,
    pub taken_at_timestamp: i64,
    pub thumbnail_src: String,
    pub video_view_count: usize,
    pub width: usize,
}

/// Instagram stories
#[derive(Clone, Hash, Eq, PartialEq, Debug)]
pub struct Stories {
    /// Main stories
    pub main_stories: Vec<Story>,
    /// Highlight stories are the permanent stories stored on the profile
    pub highlight_stories: Vec<Story>,
}

/// A single story.
#[derive(Clone, Hash, Eq, PartialEq, Debug)]
pub struct Story {
    pub source_set: Vec<StorySource>,
    pub url: String,
    pub expiring_at_timestamp: i64,
    pub id: String,
    pub is_video: bool,
    pub media_preview: Option<String>,
    pub taken_at_timestamp: i64,
}

/// One image variant of a story.
#[derive(Clone, Hash, Eq, PartialEq, Debug)]
pub struct StorySource {
    pub height: usize,
    pub url: String,
    pub width: usize,
}

/// A comment left under a post.
#[derive(Clone, Hash, Eq, PartialEq, Debug)]
pub struct Comment {
    pub id: String,
    pub text: String,
    pub created_at: i64,
    pub user_id: String,
    pub username: String,
    pub user_profile_pic: String,
}

/// Describes the web profile query response
#[derive(Clone, Hash, Eq, PartialEq, Debug)]
pub struct User {
    pub biography: Option<String>,
    pub blocked_by_viewer: bool,
    pub business_category_name: Option<String>,
    pub business_email: Option<String>,
    pub business_phone_number: Option<String>,
    pub category_name: Option<String>,
    pub country_block: bool,
    pub edge_followed_by: FollowData,
    pub edge_follow: FollowData,
    pub external_url_linkshimmed: Option<String>,
    pub external_url: Option<String>,
    pub fbid: Option<String>,
    pub followed_by_viewer: bool,
    pub follows_viewer: bool,
    pub full_name: String,
    pub has_ar_effects: bool,
    pub has_blocked_viewer: bool,
    pub has_channel: bool,
    pub has_clips: bool,
    pub has_guides: bool,
    pub has_requested_viewer: bool,
    pub hide_like_and_view_counts: bool,
    pub highlight_reel_count: isize,
    pub id: String,
    pub is_business_account: bool,
    pub is_eligible_to_view_account_transparency: bool,
    pub is_embeds_disabled: bool,
    pub is_guardian_of_viewer: bool,
    pub is_joined_recently: bool,
    pub is_private: bool,
    pub is_professional_account: bool,
    pub is_supervised_by_viewer: bool,
    pub is_supervised_user: bool,
    pub is_supervision_enabled: bool,
    pub is_verified: bool,
    pub overall_category_name: Option<String>,
    pub profile_pic_url_hd: Option<String>,
    pub profile_pic_url: Option<String>,
    pub requested_by_viewer: bool,
    pub should_show_category: bool,
    pub should_show_public_contacts: bool,
    pub username: String,
}

impl User {
    /// Get followers count
    pub fn followers(&self) -> (r: usize)
        ensures
            r == self.edge_followed_by.count,
    {
        self.edge_followed_by.count
    }

    /// Get following count
    pub fn following(&self) -> (r: usize)
        ensures
            r == self.edge_follow.count,
    {
        self.edge_follow.count
    }
}

/// A nested counter of the profile payload; never negative.
#[derive(Clone, Hash, Eq, PartialEq, Debug)]
pub struct FollowData {
    pub count: usize,
}

/// Defines the user authentication method
#[derive(Clone, Debug)]
pub enum Authentication {
    UsernamePassword { username: String, password: String },
    Guest,
}

/// Mathematical model of a [`Post`]: every text field as a sequence of
/// characters.
pub struct PostModel {
    pub caption: Option<Seq<char>>,
    pub comments_disabled: bool,
    pub comments: Option<usize>,
    pub display_url: Seq<char>,
    pub height: usize,
    pub id: Seq<char>,
    pub is_video: bool,
    pub likes: Option<usize>,
    pub media_preview: Option<Seq<char>>,
    pub shortcode: Seq<char>,
    pub taken_at_timestamp: i64,
    pub thumbnail_src: Seq<char>,
    pub video_view_count: usize,
    pub width: usize,
}

impl View for Post {
    type V = PostModel;

    open spec fn view(&self) -> PostModel {
        PostModel {
            caption: self.caption.deep_view(),
            comments_disabled: self.comments_disabled,
            comments: self.comments,
            display_url: self.display_url@,
            height: self.height,
            id: self.id@,
            is_video: self.is_video,
            likes: self.likes,
            media_preview: self.media_preview.deep_view(),
            shortcode: self.shortcode@,
            taken_at_timestamp: self.taken_at_timestamp,
            thumbnail_src: self.thumbnail_src@,
            video_view_count: self.video_view_count,
            width: self.width,
        }
    }
}

impl DeepView for Post {
    type V = PostModel;

    open spec fn deep_view(&self) -> PostModel {
        self.view()
    }
}

/// Mathematical model of a [`StorySource`].
pub struct StorySourceModel {
    pub height: usize,
    pub url: Seq<char>,
    pub width: usize,
}

impl View for StorySource {
    type V = StorySourceModel;

    open spec fn view(&self) -> StorySourceModel {
        StorySourceModel { height: self.height, url: self.url@, width: self.width }
    }
}

impl DeepView for StorySource {
    type V = StorySourceModel;

    open spec fn deep_view(&self) -> StorySourceModel {
        self.view()
    }
}

/// Mathematical model of a [`Story`].
pub struct StoryModel {
    pub source_set: Seq<StorySourceModel>,
    pub url: Seq<char>,
    pub expiring_at_timestamp: i64,
    pub id: Seq<char>,
    pub is_video: bool,
    pub media_preview: Option<Seq<char>>,
    pub taken_at_timestamp: i64,
}

impl View for Story {
    type V = StoryModel;

    open spec fn view(&self) -> StoryModel {
        StoryModel {
            source_set: self.source_set.deep_view(),
            url: self.url@,
            expiring_at_timestamp: self.expiring_at_timestamp,
            id: self.id@,
            is_video: self.is_video,
            media_preview: self.media_preview.deep_view(),
            taken_at_timestamp: self.taken_at_timestamp,
        }
    }
}

impl DeepView for Story {
    type V = StoryModel;

    open spec fn deep_view(&self) -> StoryModel {
        self.view()
    }
}

/// Mathematical model of a [`Comment`].
pub struct CommentModel {
    pub id: Seq<char>,
    pub text: Seq<char>,
    pub created_at: i64,
    pub user_id: Seq<char>,
    pub username: Seq<char>,
    pub user_profile_pic: Seq<char>,
}

impl View for Comment {
    type V = CommentModel;

    open spec fn view(&self) -> CommentModel {
        CommentModel {
            id: self.id@,
            text: self.text@,
            created_at: self.created_at,
            user_id: self.user_id@,
            username: self.username@,
            user_profile_pic: self.user_profile_pic@,
        }
    }
}

impl DeepView for Comment {
    type V = CommentModel;

    open spec fn deep_view(&self) -> CommentModel {
        self.view()
    }
}

} // verus!
