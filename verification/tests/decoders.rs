use instagram_scraper_rs::requests::post::PostResponseCaption;
use instagram_scraper_rs::requests::post::PostResponseCaptionEdge;
use instagram_scraper_rs::requests::post::PostResponseCaptionNode;
use instagram_scraper_rs::requests::post::PostResponseDimensions;
use instagram_scraper_rs::requests::post::PostResponseNode;
use instagram_scraper_rs::requests::post::PostResponseNodeCounter;
use instagram_scraper_rs::requests::user::Image;
use instagram_scraper_rs::requests::user::UserInfoUser;
use instagram_scraper_rs::requests::user::WebProfileData;
use instagram_scraper_rs::requests::user::WebProfileResponse;
use instagram_scraper_rs::FollowData;
use instagram_scraper_rs::Post;
use instagram_scraper_rs::Session;
use instagram_scraper_rs::User;

fn node_with_counters(likes: isize, comments: isize) -> PostResponseNode {
    PostResponseNode {
        id: "p1".to_string(),
        edge_media_to_caption: PostResponseCaption {
            edges: vec![PostResponseCaptionEdge {
                node: PostResponseCaptionNode { text: "first caption".to_string() },
            }],
        },
        comments_disabled: false,
        taken_at_timestamp: 1650000000,
        dimensions: PostResponseDimensions { height: 1080, width: 607 },
        display_url: "http://img/p1?a=1\\u0026b=2".to_string(),
        edge_media_to_comment: PostResponseNodeCounter { count: comments },
        edge_media_preview_like: PostResponseNodeCounter { count: likes },
        media_preview: Some("preview".to_string()),
        shortcode: "CdXn".to_string(),
        thumbnail_src: "http://thumb/p1\\u0026c=3".to_string(),
        is_video: true,
        video_view_count: None,
    }
}

fn example_user(username: &str, followers: usize, following: usize) -> User {
    User {
        biography: Some("a bio".to_string()),
        blocked_by_viewer: false,
        business_category_name: None,
        business_email: None,
        business_phone_number: None,
        category_name: None,
        country_block: false,
        edge_followed_by: FollowData { count: followers },
        edge_follow: FollowData { count: following },
        external_url_linkshimmed: None,
        external_url: None,
        fbid: None,
        followed_by_viewer: false,
        follows_viewer: false,
        full_name: "Example User".to_string(),
        has_ar_effects: false,
        has_blocked_viewer: false,
        has_channel: false,
        has_clips: false,
        has_guides: false,
        has_requested_viewer: false,
        hide_like_and_view_counts: false,
        highlight_reel_count: 2,
        id: "9538472".to_string(),
        is_business_account: false,
        is_eligible_to_view_account_transparency: false,
        is_embeds_disabled: false,
        is_guardian_of_viewer: false,
        is_joined_recently: false,
        is_private: false,
        is_professional_account: false,
        is_supervised_by_viewer: false,
        is_supervised_user: false,
        is_supervision_enabled: false,
        is_verified: true,
        overall_category_name: None,
        profile_pic_url_hd: None,
        profile_pic_url: None,
        requested_by_viewer: false,
        should_show_category: false,
        should_show_public_contacts: false,
        username: username.to_string(),
    }
}

#[test]
fn negative_like_sentinel_becomes_absent() {
    let post = Post::from_node(node_with_counters(-1, 5));
    assert_eq!(post.likes, None);
    assert_eq!(post.comments, Some(5));
}

#[test]
fn positive_like_count_is_kept() {
    let post = Post::from_node(node_with_counters(42, -7));
    assert_eq!(post.likes, Some(42));
    assert_eq!(post.comments, None);
}

#[test]
fn post_decode_unescapes_urls_and_defaults() {
    let post = Post::from_node(node_with_counters(1, 1));
    assert_eq!(post.display_url, "http://img/p1?a=1&b=2");
    assert_eq!(post.thumbnail_src, "http://thumb/p1&c=3");
    assert_eq!(post.caption.as_deref(), Some("first caption"));
    assert_eq!(post.video_view_count, 0);
    assert_eq!(post.id, "p1");
    assert_eq!(post.shortcode, "CdXn");
    assert_eq!(post.height, 1080);
    assert_eq!(post.width, 607);
    assert!(post.is_video);
}

#[test]
fn post_without_caption_has_none() {
    let mut node = node_with_counters(1, 1);
    node.edge_media_to_caption = PostResponseCaption { edges: vec![] };
    node.video_view_count = Some(9000);
    let post = Post::from_node(node);
    assert_eq!(post.caption, None);
    assert_eq!(post.video_view_count, 9000);
}

#[test]
fn guest_login_then_userinfo_reports_decoded_counters() {
    // the whole flow around the network round-trips: obtain a token as a
    // guest, store it, begin the user-info scrape, decode the payload
    let mut session = Session::default();
    let token = Session::process_csrf_response(200, Some("csrf".to_string())).unwrap();
    session.complete_login(token);
    assert!(session.authed());
    let url = session.begin_userinfo("example_user").unwrap();
    assert_eq!(
        url,
        "https://i.instagram.com/api/v1/users/web_profile_info/?username=example_user"
    );
    let response = WebProfileResponse {
        data: WebProfileData { user: example_user("example_user", 1234, 56) },
    };
    let user = response.into_user();
    assert_eq!(user.username, "example_user");
    assert_eq!(user.followers(), 1234);
    assert_eq!(user.following(), 56);
}

#[test]
fn anonymous_profile_picture_reports_none() {
    let info = UserInfoUser {
        has_anonymous_profile_picture: Some(true),
        hd_profile_pic_url_info: Image { url: Some("http://hd".to_string()) },
        hd_profile_pic_versions: None,
    };
    assert_eq!(info.best_picture(), None);
}

#[test]
fn hd_profile_picture_is_preferred() {
    let info = UserInfoUser {
        has_anonymous_profile_picture: Some(false),
        hd_profile_pic_url_info: Image { url: Some("http://hd".to_string()) },
        hd_profile_pic_versions: Some(vec![Image { url: Some("http://v1".to_string()) }]),
    };
    assert_eq!(info.best_picture().as_deref(), Some("http://hd"));
}

#[test]
fn profile_picture_versions_scan_from_the_end() {
    let info = UserInfoUser {
        has_anonymous_profile_picture: None,
        hd_profile_pic_url_info: Image { url: None },
        hd_profile_pic_versions: Some(vec![
            Image { url: Some("http://small".to_string()) },
            Image { url: Some("http://large".to_string()) },
            Image { url: None },
        ]),
    };
    assert_eq!(info.best_picture().as_deref(), Some("http://large"));
}

#[test]
fn no_profile_picture_anywhere_reports_none() {
    let info = UserInfoUser {
        has_anonymous_profile_picture: None,
        hd_profile_pic_url_info: Image { url: None },
        hd_profile_pic_versions: Some(vec![Image { url: None }]),
    };
    assert_eq!(info.best_picture(), None);
    let bare = UserInfoUser {
        has_anonymous_profile_picture: None,
        hd_profile_pic_url_info: Image { url: None },
        hd_profile_pic_versions: None,
    };
    assert_eq!(bare.best_picture(), None);
}
