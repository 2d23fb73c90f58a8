//! request response types

use vstd::prelude::*;

use crate::text::unescape_ampersands;
use crate::text::unescape_url;
use crate::types::Story;
use crate::types::StoryModel;
use crate::types::StorySource;
use crate::types::StorySourceModel;

verus! {

#[derive(Clone, Debug)]
pub struct ReelsMedia {
    pub data: ReelsMediaData,
}

#[derive(Clone, Debug)]
pub struct ReelsMediaData {
    pub reels_media: Vec<ReelsMediaMedia>,
}

#[derive(Clone, Debug)]
pub struct ReelsMediaMedia {
    pub items: Vec<ReelsMediaItem>,
}

#[derive(Clone, Debug)]
pub struct ReelsMediaItem {
    pub display_resources: Vec<DisplayResources>,
    pub display_url: String,
    pub expiring_at_timestamp: i64,
    pub id: String,
    pub is_video: bool,
    pub media_preview: Option<String>,
    pub taken_at_timestamp: i64,
}

#[derive(Clone, Debug)]
pub struct DisplayResources {
    pub config_height: usize,
    pub config_width: usize,
    pub src: String,
}

/// The items of all reels, one reel after the other, in arrival order.
pub open spec fn items_of(media: Seq<ReelsMediaMedia>) -> Seq<ReelsMediaItem>
    decreases media.len(),
{
    if media.len() == 0 {
        Seq::empty()
    } else {
        media[0].items@ + items_of(media.drop_first())
    }
}

impl ReelsMedia {
    /// Extract items from payload
    pub fn items(self) -> (r: Vec<ReelsMediaItem>)
        ensures
            r@ == items_of(self.data.reels_media@),
    {
        let ghost all = self.data.reels_media@;
        let mut media = self.data.reels_media;
        let mut r: Vec<ReelsMediaItem> = Vec::new();
        while media.len() > 0
            invariant
                items_of(all) == r@ + items_of(media@),
            decreases media.len(),
        {
            let ghost before = media@;
            let ghost r0 = r@;
            let m = media.remove(0);
            let mut m_items = m.items;
            r.append(&mut m_items);
            proof {
                assert(media@ =~= before.drop_first());
                assert(items_of(before) == m.items@ + items_of(before.drop_first()));
                assert(r0 + (m.items@ + items_of(media@)) =~= (r0 + m.items@) + items_of(
                    media@,
                ));
            }
        }
        proof {
            assert(items_of(media@) =~= Seq::<ReelsMediaItem>::empty());
            assert(r@ + items_of(media@) =~= r@);
        }
        r
    }
}

impl ReelsMediaItem {
    /// The story this item decodes to: URLs of the item and of every image
    /// variant unescaped, everything else kept as it came.
    pub open spec fn spec_story(self) -> StoryModel {
        StoryModel {
            source_set: self.display_resources@.map_values(
                |d: DisplayResources|
                    StorySourceModel {
                        height: d.config_height,
                        url: unescape_ampersands(d.src@),
                        width: d.config_width,
                    },
            ),
            url: unescape_ampersands(self.display_url@),
            expiring_at_timestamp: self.expiring_at_timestamp,
            id: self.id@,
            is_video: self.is_video,
            media_preview: self.media_preview.deep_view(),
            taken_at_timestamp: self.taken_at_timestamp,
        }
    }
}

impl Story {
    /// Decode one reel item into a story.
    pub fn from_item(item: ReelsMediaItem) -> (r: Story)
        ensures
            r@ == item.spec_story(),
    {
        let ReelsMediaItem {
            display_resources,
            display_url,
            expiring_at_timestamp,
            id,
            is_video,
            media_preview,
            taken_at_timestamp,
        } = item;
        let ghost all = display_resources@;
        let mut resources = display_resources;
        let mut source_set: Vec<StorySource> = Vec::new();
        while resources.len() > 0
            invariant
                source_set@.len() + resources@.len() == all.len(),
                resources@ =~= all.subrange(source_set@.len() as int, all.len() as int),
                forall|i: int|
                    0 <= i < source_set@.len() ==> (#[trigger] source_set@[i]).deep_view() == (
                    StorySourceModel {
                        height: all[i].config_height,
                        url: unescape_ampersands(all[i].src@),
                        width: all[i].config_width,
                    }),
            decreases resources.len(),
        {
            let d = resources.remove(0);
            proof {
                assert(d == all[source_set@.len() as int]);
            }
            source_set.push(
                StorySource {
                    height: d.config_height,
                    url: unescape_url(d.src.as_str()),
                    width: d.config_width,
                },
            );
        }
        let r = Story {
            source_set,
            url: unescape_url(display_url.as_str()),
            expiring_at_timestamp,
            id,
            is_video,
            media_preview,
            taken_at_timestamp,
        };
        proof {
            assert(r@.source_set =~= item.spec_story().source_set);
        }
        r
    }
}

/// Decode a reels payload into stories: every reel's items, one reel
/// after the other, each item decoded in place.
pub fn decode_stories(media: ReelsMedia) -> (r: Vec<Story>)
    ensures
        r.deep_view() == items_of(media.data.reels_media@).map_values(
            |it: ReelsMediaItem| it.spec_story(),
        ),
{
    let items = media.items();
    let ghost all = items@;
    let mut items = items;
    let mut r: Vec<Story> = Vec::new();
    while items.len() > 0
        invariant
            r@.len() + items@.len() == all.len(),
            items@ =~= all.subrange(r@.len() as int, all.len() as int),
            forall|i: int|
                0 <= i < r@.len() ==> (#[trigger] r@[i]).deep_view() == all[i].spec_story(),
        decreases items.len(),
    {
        let it = items.remove(0);
        proof {
            assert(it == all[r@.len() as int]);
        }
        r.push(Story::from_item(it));
    }
    proof {
        assert(r.deep_view() =~= all.map_values(|it: ReelsMediaItem| it.spec_story()));
    }
    r
}

#[derive(Clone, Debug)]
pub struct HighlightReels {
    pub data: HighlightReelsData,
}

#[derive(Clone, Debug)]
pub struct HighlightReelsData {
    pub user: HighlightReelsUser,
}

#[derive(Clone, Debug)]
pub struct HighlightReelsUser {
    pub edge_highlight_reels: HighlightReelsEdges,
}

#[derive(Clone, Debug)]
pub struct HighlightReelsEdges {
    pub edges: Vec<HighlightReelsEdge>,
}

#[derive(Clone, Debug)]
pub struct HighlightReelsEdge {
    pub node: HighlightReelsEdgeNode,
}

#[derive(Clone, Debug)]
pub struct HighlightReelsEdgeNode {
    pub id: String,
}

impl HighlightReels {
    /// The reel ids this discovery response carries, in arrival order.
    pub open spec fn spec_node_ids(self) -> Seq<Seq<char>> {
        self.data.user.edge_highlight_reels.edges@.map_values(
            |e: HighlightReelsEdge| e.node.id@,
        )
    }

    /// Collect ids from nodes
    pub fn node_ids(&self) -> (r: Vec<String>)
        ensures
            r.deep_view() == self.spec_node_ids(),
    {
        let edges = &self.data.user.edge_highlight_reels.edges;
        let mut r: Vec<String> = Vec::new();
        let mut k: usize = 0;
        while k < edges.len()
            invariant
                k <= edges@.len(),
                r@.len() == k,
                forall|i: int| 0 <= i < k ==> (#[trigger] r@[i])@ == edges@[i].node.id@,
            decreases edges@.len() - k,
        {
            r.push(edges[k].node.id.clone());
            k = k + 1;
        }
        proof {
            assert(r.deep_view() =~= self.spec_node_ids());
        }
        r
    }
}

} // verus!
