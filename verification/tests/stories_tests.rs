use instagram_scraper_rs::paging::HighlightPager;
use instagram_scraper_rs::requests::stories::decode_stories;
use instagram_scraper_rs::requests::stories::DisplayResources;
use instagram_scraper_rs::requests::stories::HighlightReels;
use instagram_scraper_rs::requests::stories::HighlightReelsData;
use instagram_scraper_rs::requests::stories::HighlightReelsEdge;
use instagram_scraper_rs::requests::stories::HighlightReelsEdgeNode;
use instagram_scraper_rs::requests::stories::HighlightReelsEdges;
use instagram_scraper_rs::requests::stories::HighlightReelsUser;
use instagram_scraper_rs::requests::stories::ReelsMedia;
use instagram_scraper_rs::requests::stories::ReelsMediaData;
use instagram_scraper_rs::requests::stories::ReelsMediaItem;
use instagram_scraper_rs::requests::stories::ReelsMediaMedia;
use instagram_scraper_rs::Session;
use instagram_scraper_rs::Story;

fn story(id: &str) -> Story {
    Story {
        source_set: vec![],
        url: format!("http://s/{}", id),
        expiring_at_timestamp: 1650090000,
        id: id.to_string(),
        is_video: false,
        media_preview: None,
        taken_at_timestamp: 1650000000,
    }
}

fn item(id: &str) -> ReelsMediaItem {
    ReelsMediaItem {
        display_resources: vec![
            DisplayResources {
                config_height: 100,
                config_width: 60,
                src: format!("http://low/{}\\u0026x=1", id),
            },
            DisplayResources {
                config_height: 200,
                config_width: 120,
                src: format!("http://high/{}", id),
            },
        ],
        display_url: format!("http://s/{}\\u0026y=2", id),
        expiring_at_timestamp: 1650090000,
        id: id.to_string(),
        is_video: false,
        media_preview: None,
        taken_at_timestamp: 1650000000,
    }
}

fn authed_session() -> Session {
    let mut session = Session::default();
    session.complete_login("tok".to_string());
    session
}

#[test]
fn zero_highlights_skips_discovery_but_keeps_main_stories() {
    let session = authed_session();
    let scrape = session.begin_stories("42", 0).unwrap();
    assert!(!scrape.wants_highlights());
    let main = vec![story("m1"), story("m2")];
    let stories = scrape.without_highlights(main.clone());
    assert_eq!(stories.main_stories, main);
    assert!(stories.highlight_stories.is_empty());
}

#[test]
fn highlight_requests_batch_three_ids() {
    let session = authed_session();
    let scrape = session.begin_stories("42", 10).unwrap();
    assert!(scrape.wants_highlights());
    let ids = vec![
        "a".to_string(),
        "b".to_string(),
        "c".to_string(),
        "d".to_string(),
    ];
    let mut pager = scrape.into_pager(ids);
    let url = pager.next_chunk_url().unwrap();
    assert!(url.contains("%22a%22%2C%22b%22%2C%22c%22%5D"));
    pager.feed(vec![story("s1"), story("s2")]);
    let url = pager.next_chunk_url().unwrap();
    assert!(url.contains("%5B%22d%22%5D"));
    pager.feed(vec![story("s3")]);
    assert!(pager.next_chunk_url().is_none());
    let stories = pager.finish(vec![story("m")]);
    assert_eq!(stories.highlight_stories.len(), 3);
}

#[test]
fn highlight_accumulation_stops_at_requested_amount() {
    let ids = vec![
        "a".to_string(),
        "b".to_string(),
        "c".to_string(),
        "d".to_string(),
        "e".to_string(),
        "f".to_string(),
    ];
    let mut pager = HighlightPager::new(ids, 2);
    assert!(pager.next_chunk_url().is_some());
    pager.feed(vec![story("s1"), story("s2"), story("s3")]);
    // the requested amount is reached: no further batch is fetched
    assert!(pager.next_chunk_url().is_none());
    let stories = pager.finish(vec![]);
    // trimming removes exactly the excess, keeping the first two
    assert_eq!(stories.highlight_stories.len(), 2);
    assert_eq!(stories.highlight_stories[0].id, "s1");
    assert_eq!(stories.highlight_stories[1].id, "s2");
}

#[test]
fn truncation_keeps_prefix_in_arrival_order() {
    let mut pager = HighlightPager::new(vec!["a".to_string()], 1);
    pager.feed(vec![story("x"), story("y"), story("z")]);
    let stories = pager.finish(vec![story("m")]);
    assert_eq!(stories.main_stories.len(), 1);
    assert_eq!(stories.highlight_stories.len(), 1);
    assert_eq!(stories.highlight_stories[0].id, "x");
}

#[test]
fn decodes_reels_into_stories() {
    let media = ReelsMedia {
        data: ReelsMediaData {
            reels_media: vec![
                ReelsMediaMedia { items: vec![item("a"), item("b")] },
                ReelsMediaMedia { items: vec![] },
                ReelsMediaMedia { items: vec![item("c")] },
            ],
        },
    };
    let stories = decode_stories(media);
    assert_eq!(stories.len(), 3);
    assert_eq!(stories[0].id, "a");
    assert_eq!(stories[0].url, "http://s/a&y=2");
    assert_eq!(stories[0].source_set.len(), 2);
    assert_eq!(stories[0].source_set[0].url, "http://low/a&x=1");
    assert_eq!(stories[0].source_set[1].height, 200);
    assert_eq!(stories[2].id, "c");
}

#[test]
fn collects_highlight_reel_ids() {
    let reels = HighlightReels {
        data: HighlightReelsData {
            user: HighlightReelsUser {
                edge_highlight_reels: HighlightReelsEdges {
                    edges: vec![
                        HighlightReelsEdge { node: HighlightReelsEdgeNode { id: "h1".to_string() } },
                        HighlightReelsEdge { node: HighlightReelsEdgeNode { id: "h2".to_string() } },
                    ],
                },
            },
        },
    };
    assert_eq!(reels.node_ids(), vec!["h1".to_string(), "h2".to_string()]);
}
