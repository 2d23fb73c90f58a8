use instagram_scraper_rs::paging::CommentsPager;
use instagram_scraper_rs::requests::comment::CommentResponse;
use instagram_scraper_rs::requests::comment::CommentResponseData;
use instagram_scraper_rs::requests::comment::EdgeMediaToComment;
use instagram_scraper_rs::requests::comment::EdgeMediaToCommentPageInfo;
use instagram_scraper_rs::requests::comment::MediaToCommentEdge;
use instagram_scraper_rs::requests::comment::MediaToCommentNode;
use instagram_scraper_rs::requests::comment::MediaToCommentOwner;
use instagram_scraper_rs::requests::comment::ShortcodeMedia;
use instagram_scraper_rs::requests::post::PostResponse;
use instagram_scraper_rs::requests::post::PostResponseCaption;
use instagram_scraper_rs::requests::post::PostResponseData;
use instagram_scraper_rs::requests::post::PostResponseDimensions;
use instagram_scraper_rs::requests::post::PostResponseEdge;
use instagram_scraper_rs::requests::post::PostResponseNode;
use instagram_scraper_rs::requests::post::PostResponseNodeCounter;
use instagram_scraper_rs::requests::post::PostResponsePageInfo;
use instagram_scraper_rs::requests::post::PostResponseTimelineMedia;
use instagram_scraper_rs::requests::post::PostResponseUser;
use instagram_scraper_rs::InstagramScraperError;
use instagram_scraper_rs::Post;
use instagram_scraper_rs::Session;

fn post_node(id: &str) -> PostResponseNode {
    PostResponseNode {
        id: id.to_string(),
        edge_media_to_caption: PostResponseCaption { edges: vec![] },
        comments_disabled: false,
        taken_at_timestamp: 1650000000,
        dimensions: PostResponseDimensions { height: 100, width: 100 },
        display_url: format!("http://img/{}", id),
        edge_media_to_comment: PostResponseNodeCounter { count: 0 },
        edge_media_preview_like: PostResponseNodeCounter { count: 0 },
        media_preview: None,
        shortcode: format!("sc{}", id),
        thumbnail_src: format!("http://thumb/{}", id),
        is_video: false,
        video_view_count: None,
    }
}

fn post_page(ids: &[&str], cursor: Option<&str>) -> PostResponse {
    PostResponse {
        data: PostResponseData {
            user: PostResponseUser {
                edge_owner_to_timeline_media: PostResponseTimelineMedia {
                    edges: ids
                        .iter()
                        .map(|id| PostResponseEdge { node: post_node(id) })
                        .collect(),
                    page_info: PostResponsePageInfo {
                        end_cursor: cursor.map(|c| c.to_string()),
                    },
                },
            },
        },
    }
}

fn authed_session() -> Session {
    let mut session = Session::default();
    session.complete_login("tok".to_string());
    session
}

#[test]
fn should_return_empty_vec_if_scraping_0_posts() {
    let session = Session::default();
    let pager = session.begin_posts("aaa", 0).unwrap();
    assert!(pager.is_done());
    assert!(pager.next_request().is_none());
    assert!(pager.into_posts().is_empty());
}

#[test]
fn zero_budget_needs_no_login_and_no_request() {
    let session = Session::default();
    assert!(!session.authed());
    let pager = session.begin_posts("aaa", 0).unwrap();
    assert!(pager.next_request().is_none());
    let authed = authed_session();
    let pager = authed.begin_posts("aaa", 0).unwrap();
    assert!(pager.next_request().is_none());
}

#[test]
fn posts_pagination_requests_min_of_default_and_remaining() {
    let session = authed_session();
    let pager = session.begin_posts("7", 10).unwrap();
    let url = pager.next_request().unwrap();
    assert!(url.contains("\"first\":10,"));
    let pager = session.begin_posts("7", 200).unwrap();
    let url = pager.next_request().unwrap();
    assert!(url.contains("\"first\":50,"));
    assert!(url.contains("\"after\":\"\""));
}

#[test]
fn posts_pagination_stops_on_repeated_cursor() {
    let session = authed_session();
    let mut pager = session.begin_posts("7", 100).unwrap();
    pager.feed_page(post_page(&["1", "2"], Some("cur1")));
    assert!(!pager.is_done());
    let url = pager.next_request().unwrap();
    assert!(url.contains("\"after\":\"cur1\""));
    pager.feed_page(post_page(&["3"], Some("cur1")));
    assert!(pager.is_done());
    assert!(pager.next_request().is_none());
    let posts: Vec<Post> = pager.into_posts();
    let ids: Vec<&str> = posts.iter().map(|p| p.id.as_str()).collect();
    assert_eq!(ids, vec!["1", "2", "3"]);
}

#[test]
fn posts_pagination_stops_on_missing_cursor() {
    // the empty starting cursor repeats when the platform sends none
    let session = authed_session();
    let mut pager = session.begin_posts("7", 100).unwrap();
    pager.feed_page(post_page(&["1"], None));
    assert!(pager.is_done());
    assert_eq!(pager.into_posts().len(), 1);
}

#[test]
fn posts_pagination_stops_at_budget() {
    let session = authed_session();
    let mut pager = session.begin_posts("7", 3).unwrap();
    pager.feed_page(post_page(&["1", "2"], Some("a")));
    assert!(!pager.is_done());
    pager.feed_page(post_page(&["3"], Some("b")));
    assert!(pager.is_done());
    let posts = pager.into_posts();
    assert_eq!(posts.len(), 3);
}

#[test]
fn comments_pagination_mirrors_posts() {
    let session = authed_session();
    let post = {
        let node = post_node("9");
        Post::from_node(node)
    };
    let mut pager: CommentsPager = session.begin_comments(&post, 2).unwrap();
    let vars = pager.next_variables().unwrap();
    assert_eq!(vars, "{\"shortcode\":\"sc9\",\"first\":2,\"after\":\"\"}");
    let page = CommentResponse {
        data: CommentResponseData {
            shortcode_media: ShortcodeMedia {
                edge_media_to_comment: EdgeMediaToComment {
                    edges: Some(vec![
                        MediaToCommentEdge {
                            node: MediaToCommentNode {
                                id: "c1".to_string(),
                                text: "hello".to_string(),
                                created_at: 1650000000,
                                owner: MediaToCommentOwner {
                                    id: "u1".to_string(),
                                    profile_pic_url: "http://p/u1\\u0026s=1".to_string(),
                                    username: "ann".to_string(),
                                },
                            },
                        },
                        MediaToCommentEdge {
                            node: MediaToCommentNode {
                                id: "c2".to_string(),
                                text: "again".to_string(),
                                created_at: 1650000001,
                                owner: MediaToCommentOwner {
                                    id: "u2".to_string(),
                                    profile_pic_url: "http://p/u2".to_string(),
                                    username: "bob".to_string(),
                                },
                            },
                        },
                    ]),
                    page_info: EdgeMediaToCommentPageInfo {
                        end_cursor: Some("next".to_string()),
                    },
                },
            },
        },
    };
    pager.feed_page(page);
    assert!(pager.is_done());
    let comments = pager.into_comments();
    assert_eq!(comments.len(), 2);
    assert_eq!(comments[0].id, "c1");
    assert_eq!(comments[0].username, "ann");
    assert_eq!(comments[0].user_profile_pic, "http://p/u1&s=1");
    assert_eq!(comments[1].id, "c2");
}

#[test]
fn comments_before_login_fail_unauthenticated() {
    let session = Session::default();
    let post = Post::from_node(post_node("9"));
    assert!(matches!(
        session.begin_comments(&post, 5),
        Err(InstagramScraperError::Unauthenticated)
    ));
}
