//! Cursor-based pagination.
//!
//! Each paginated endpoint is driven as a small step machine: the caller
//! asks for the next request address, performs the round-trip, and feeds
//! the decoded page back. The machine decides when the pagination is over:
//! when the platform repeats the cursor of the previous page (its
//! end-of-data signal) or when the collected count reaches the budget.
//!
//! The abstract states and steps live in spec-land ([`PagerState`],
//! [`pager_step`], [`pager_run`]); the proof functions at the end state the
//! pagination laws over them.

use vstd::prelude::*;

use crate::requests::comment::CommentResponse;
use crate::requests::comments_variables;
use crate::requests::highlight_stories_url;
use crate::requests::post::PostResponse;
use crate::requests::posts_url;
use crate::requests::spec_comments_variables;
use crate::requests::spec_highlight_stories_url;
use crate::requests::spec_posts_url;
use crate::text::join_ids;
use crate::text::join_with;
use crate::text::views_of;
use crate::types::Comment;
use crate::types::CommentModel;
use crate::types::Post;
use crate::types::PostModel;
use crate::types::Stories;
use crate::types::Story;

verus! {

/// The default page size asked of a paginated endpoint.
pub const DEFAULT_PAGE_AMOUNT: usize = 50;

/// Abstract state of a pagination: what has been collected so far, the
/// cursor of the last page, whether the pagination is over, and the budget.
#[verifier::ext_equal]
pub struct PagerState<M> {
    pub collected: Seq<M>,
    pub cursor: Seq<char>,
    pub done: bool,
    pub max_items: usize,
}

/// Abstract content of one page: its items in arrival order and the cursor
/// it hands back.
#[verifier::ext_equal]
pub struct PageModel<M> {
    pub items: Seq<M>,
    pub cursor: Seq<char>,
}

/// The page size asked for in the next request: the default, or the
/// remaining budget when that is smaller.
pub open spec fn page_budget<M>(s: PagerState<M>) -> usize {
    if s.collected.len() + (DEFAULT_PAGE_AMOUNT as nat) > s.max_items {
        (s.max_items - s.collected.len()) as usize
    } else {
        DEFAULT_PAGE_AMOUNT
    }
}

/// One pagination step: append the page's items; the pagination is over
/// when the page repeats the previous cursor or the budget is reached,
/// and only otherwise does the cursor advance.
pub open spec fn pager_step<M>(s: PagerState<M>, pg: PageModel<M>) -> PagerState<M> {
    let collected = s.collected + pg.items;
    let done = pg.cursor == s.cursor || collected.len() >= s.max_items;
    PagerState {
        collected,
        cursor: if done {
            s.cursor
        } else {
            pg.cursor
        },
        done,
        max_items: s.max_items,
    }
}

/// Run the pagination over a sequence of pages, stopping as soon as the
/// state is done.
pub open spec fn pager_run<M>(s: PagerState<M>, pages: Seq<PageModel<M>>) -> PagerState<M>
    decreases pages.len(),
{
    if s.done || pages.len() == 0 {
        s
    } else {
        pager_run(pager_step(s, pages[0]), pages.drop_first())
    }
}

/// How many pages the run consumes before it stops.
pub open spec fn pages_consumed<M>(s: PagerState<M>, pages: Seq<PageModel<M>>) -> int
    decreases pages.len(),
{
    if s.done || pages.len() == 0 {
        0
    } else {
        1 + pages_consumed(pager_step(s, pages[0]), pages.drop_first())
    }
}

/// The items of the pages, one page after the other, in arrival order.
pub open spec fn items_concat<M>(pages: Seq<PageModel<M>>) -> Seq<M>
    decreases pages.len(),
{
    if pages.len() == 0 {
        Seq::empty()
    } else {
        pages[0].items + items_concat(pages.drop_first())
    }
}

/// Every page carries at most as many items as the request preceding it
/// asked for.
pub open spec fn pages_within_budget<M>(s: PagerState<M>, pages: Seq<PageModel<M>>) -> bool
    decreases pages.len(),
{
    pages.len() == 0 || (pages[0].items.len() <= page_budget(s) && pages_within_budget(
        pager_step(s, pages[0]),
        pages.drop_first(),
    ))
}

/// A pagination state as it is handed out and fed: strictly before the
/// end, the collected count stays below the budget (so the next request
/// always asks for at least one item).
pub open spec fn pager_state_wf<M>(s: PagerState<M>) -> bool {
    !s.done ==> s.collected.len() < s.max_items
}

/// A page that repeats the cursor of the state it is fed to ends the
/// pagination at once, with that page's items still appended in order.
pub proof fn lemma_pagination_stalls<M>(s: PagerState<M>, pg: PageModel<M>)
    requires
        pg.cursor == s.cursor,
    ensures
        pager_step(s, pg).done,
        pager_step(s, pg).collected == s.collected + pg.items,
{
}

/// Once the pagination is over, no further pages are consumed and the
/// state never changes again.
pub proof fn lemma_pagination_done_absorbs<M>(s: PagerState<M>, pages: Seq<PageModel<M>>)
    requires
        s.done,
    ensures
        pager_run(s, pages) == s,
        pages_consumed(s, pages) == 0,
{
}

/// Pagination terminates: as soon as some page of the sequence repeats the
/// cursor the pagination holds when that page arrives, the whole run ends
/// in a done state.
pub proof fn lemma_pagination_terminates<M>(
    s: PagerState<M>,
    pages: Seq<PageModel<M>>,
    i: int,
)
    requires
        0 <= i < pages.len(),
        pages[i].cursor == pager_run(s, pages.take(i)).cursor,
    ensures
        pager_run(s, pages).done,
    decreases i,
{
    if s.done {
    } else if i == 0 {
        assert(pages.take(0) =~= Seq::<PageModel<M>>::empty());
        assert(pager_run(s, pages.take(0)) == s);
        assert(pager_step(s, pages[0]).done);
        lemma_pagination_done_absorbs(pager_step(s, pages[0]), pages.drop_first());
    } else {
        let s1 = pager_step(s, pages[0]);
        let rest = pages.drop_first();
        assert(pages.take(i).drop_first() =~= rest.take(i - 1));
        assert(pages.take(i)[0] == pages[0]);
        assert(pager_run(s, pages.take(i)) == pager_run(s1, rest.take(i - 1)));
        assert(rest[i - 1] == pages[i]);
        lemma_pagination_terminates(s1, rest, i - 1);
    }
}

/// The collected count never exceeds the budget, provided the platform
/// never hands back more items than one request asked for.
pub proof fn lemma_pagination_bounded<M>(s: PagerState<M>, pages: Seq<PageModel<M>>)
    requires
        pager_state_wf(s),
        s.collected.len() <= s.max_items,
        pages_within_budget(s, pages),
    ensures
        pager_run(s, pages).collected.len() <= s.max_items,
        pager_run(s, pages).max_items == s.max_items,
    decreases pages.len(),
{
    if s.done || pages.len() == 0 {
    } else {
        let s1 = pager_step(s, pages[0]);
        assert(s1.collected.len() <= s.max_items);
        lemma_pagination_bounded(s1, pages.drop_first());
    }
}

/// Everything collected arrives in order: the run's result is the starting
/// collection followed by the items of the consumed pages, page after page.
pub proof fn lemma_pagination_order<M>(s: PagerState<M>, pages: Seq<PageModel<M>>)
    ensures
        0 <= pages_consumed(s, pages) <= pages.len(),
        pager_run(s, pages).collected == s.collected + items_concat(
            pages.take(pages_consumed(s, pages)),
        ),
    decreases pages.len(),
{
    if s.done || pages.len() == 0 {
        assert(pages.take(0) =~= Seq::<PageModel<M>>::empty());
        assert(s.collected + items_concat(pages.take(0)) =~= s.collected);
    } else {
        let s1 = pager_step(s, pages[0]);
        let rest = pages.drop_first();
        lemma_pagination_order(s1, rest);
        let k = pages_consumed(s1, rest);
        assert(pages.take(k + 1)[0] == pages[0]);
        assert(pages.take(k + 1).drop_first() =~= rest.take(k));
        assert(items_concat(pages.take(k + 1)) == pages[0].items + items_concat(rest.take(k)));
        assert(s.collected + (pages[0].items + items_concat(rest.take(k))) =~= (s.collected
            + pages[0].items) + items_concat(rest.take(k)));
    }
}

/// The page a post response stands for.
pub open spec fn post_page_model(page: PostResponse) -> PageModel<PostModel> {
    PageModel { items: page.spec_posts(), cursor: page.spec_cursor() }
}

/// Paginates a user's timeline, page by page.
#[derive(Debug)]
pub struct PostsPager {
    pub user_id: String,
    pub max_posts: usize,
    pub collected: Vec<Post>,
    pub cursor: String,
    pub done: bool,
}

impl PostsPager {
    /// The abstract pagination state this pager is in.
    pub open spec fn model(&self) -> PagerState<PostModel> {
        PagerState {
            collected: self.collected.deep_view(),
            cursor: self.cursor@,
            done: self.done,
            max_items: self.max_posts,
        }
    }

    /// The states a pager ever reaches.
    pub open spec fn wf(&self) -> bool {
        pager_state_wf(self.model())
    }

    /// Set up a pagination over `user_id`'s timeline; a zero budget is done
    /// from the start and will never ask for a request.
    pub fn new(user_id: &str, max_posts: usize) -> (r: PostsPager)
        ensures
            r.wf(),
            r.user_id@ == user_id@,
            r.max_posts == max_posts,
            r.collected@.len() == 0,
            r.cursor@ == Seq::<char>::empty(),
            r.done == (max_posts == 0),
            r.model() == (PagerState::<PostModel> {
                collected: Seq::empty(),
                cursor: Seq::empty(),
                done: max_posts == 0,
                max_items: max_posts,
            }),
    {
        let r = PostsPager {
            user_id: String::from_str(user_id),
            max_posts,
            collected: Vec::new(),
            cursor: String::new(),
            done: max_posts == 0,
        };
        proof {
            assert(r.collected.deep_view() =~= Seq::<PostModel>::empty());
            assert(r.model() =~= (PagerState::<PostModel> {
                collected: Seq::empty(),
                cursor: Seq::empty(),
                done: max_posts == 0,
                max_items: max_posts,
            }));
        }
        r
    }

    /// Whether the pagination is over.
    pub fn is_done(&self) -> (r: bool)
        ensures
            r == self.done,
    {
        self.done
    }

    /// The address of the next page to fetch: none once the pagination is
    /// over, else the timeline query asking for exactly the page budget.
    pub fn next_request(&self) -> (r: Option<String>)
        requires
            self.wf(),
        ensures
            match r {
                None => self.done,
                Some(u) => !self.done && u@ == spec_posts_url(
                    self.user_id@,
                    page_budget(self.model()) as nat,
                    self.cursor@,
                ),
            },
    {
        if self.done {
            None
        } else {
            let remaining = self.max_posts - self.collected.len();
            let amount = if remaining < DEFAULT_PAGE_AMOUNT {
                remaining
            } else {
                DEFAULT_PAGE_AMOUNT
            };
            Some(posts_url(self.user_id.as_str(), amount, self.cursor.as_str()))
        }
    }

    /// Feed the decoded next page: its posts are appended in arrival order
    /// and the exit conditions are checked, as one abstract pager step.
    pub fn feed_page(&mut self, page: PostResponse)
        requires
            old(self).wf(),
            !old(self).done,
        ensures
            final(self).wf(),
            final(self).user_id == old(self).user_id,
            final(self).model() == pager_step(old(self).model(), post_page_model(page)),
            final(self).collected.deep_view() == old(self).collected.deep_view()
                + page.spec_posts(),
            page.spec_cursor() == old(self).cursor@ ==> final(self).done,
            page.spec_posts().len() <= page_budget(old(self).model())
                ==> final(self).collected@.len() <= old(self).max_posts,
    {
        let ghost old_model = self.model();
        let new_cursor: String = match page.end_cursor() {
            Some(c) => String::from_str(c),
            None => String::new(),
        };
        let mut new_posts = page.posts();
        let ghost old_collected = self.collected.deep_view();
        let ghost new_items = new_posts.deep_view();
        self.collected.append(&mut new_posts);
        proof {
            assert(self.collected.deep_view() =~= old_collected + new_items);
        }
        let stalled = new_cursor == self.cursor;
        if stalled || self.collected.len() >= self.max_posts {
            self.done = true;
        } else {
            self.cursor = new_cursor;
        }
        proof {
            assert(self.model() =~= pager_step(old_model, post_page_model(page)));
        }
    }

    /// Hand out everything collected, in arrival order.
    pub fn into_posts(self) -> (r: Vec<Post>)
        ensures
            r == self.collected,
    {
        self.collected
    }
}

/// The page a comment response stands for.
pub open spec fn comment_page_model(page: CommentResponse) -> PageModel<CommentModel> {
    PageModel { items: page.spec_comments(), cursor: page.spec_cursor() }
}

/// Paginates the comments under one post, page by page.
#[derive(Debug)]
pub struct CommentsPager {
    pub shortcode: String,
    pub max_comments: usize,
    pub collected: Vec<Comment>,
    pub cursor: String,
    pub done: bool,
}

impl CommentsPager {
    /// The abstract pagination state this pager is in.
    pub open spec fn model(&self) -> PagerState<CommentModel> {
        PagerState {
            collected: self.collected.deep_view(),
            cursor: self.cursor@,
            done: self.done,
            max_items: self.max_comments,
        }
    }

    /// The states a pager ever reaches.
    pub open spec fn wf(&self) -> bool {
        pager_state_wf(self.model())
    }

    /// Set up a pagination over the comments of the post with this
    /// shortcode; a zero budget is done from the start.
    pub fn new(shortcode: &str, max_comments: usize) -> (r: CommentsPager)
        ensures
            r.wf(),
            r.shortcode@ == shortcode@,
            r.max_comments == max_comments,
            r.collected@.len() == 0,
            r.cursor@ == Seq::<char>::empty(),
            r.done == (max_comments == 0),
            r.model() == (PagerState::<CommentModel> {
                collected: Seq::empty(),
                cursor: Seq::empty(),
                done: max_comments == 0,
                max_items: max_comments,
            }),
    {
        let r = CommentsPager {
            shortcode: String::from_str(shortcode),
            max_comments,
            collected: Vec::new(),
            cursor: String::new(),
            done: max_comments == 0,
        };
        proof {
            assert(r.collected.deep_view() =~= Seq::<CommentModel>::empty());
            assert(r.model() =~= (PagerState::<CommentModel> {
                collected: Seq::empty(),
                cursor: Seq::empty(),
                done: max_comments == 0,
                max_items: max_comments,
            }));
        }
        r
    }

    /// Whether the pagination is over.
    pub fn is_done(&self) -> (r: bool)
        ensures
            r == self.done,
    {
        self.done
    }

    /// The GraphQL variables of the next page to fetch: none once the
    /// pagination is over, else keyed by the shortcode, the page budget
    /// and the cursor.
    pub fn next_variables(&self) -> (r: Option<String>)
        requires
            self.wf(),
        ensures
            match r {
                None => self.done,
                Some(v) => !self.done && v@ == spec_comments_variables(
                    self.shortcode@,
                    page_budget(self.model()) as nat,
                    self.cursor@,
                ),
            },
    {
        if self.done {
            None
        } else {
            let remaining = self.max_comments - self.collected.len();
            let amount = if remaining < DEFAULT_PAGE_AMOUNT {
                remaining
            } else {
                DEFAULT_PAGE_AMOUNT
            };
            Some(comments_variables(self.shortcode.as_str(), amount, self.cursor.as_str()))
        }
    }

    /// Feed the decoded next page, as one abstract pager step.
    pub fn feed_page(&mut self, page: CommentResponse)
        requires
            old(self).wf(),
            !old(self).done,
        ensures
            final(self).wf(),
            final(self).shortcode == old(self).shortcode,
            final(self).model() == pager_step(old(self).model(), comment_page_model(page)),
            final(self).collected.deep_view() == old(self).collected.deep_view()
                + page.spec_comments(),
            page.spec_cursor() == old(self).cursor@ ==> final(self).done,
            page.spec_comments().len() <= page_budget(old(self).model())
                ==> final(self).collected@.len() <= old(self).max_comments,
    {
        let ghost old_model = self.model();
        let new_cursor: String = match page.end_cursor() {
            Some(c) => String::from_str(c),
            None => String::new(),
        };
        let mut new_comments = page.comments();
        let ghost old_collected = self.collected.deep_view();
        let ghost new_items = new_comments.deep_view();
        self.collected.append(&mut new_comments);
        proof {
            assert(self.collected.deep_view() =~= old_collected + new_items);
        }
        let stalled = new_cursor == self.cursor;
        if stalled || self.collected.len() >= self.max_comments {
            self.done = true;
        } else {
            self.cursor = new_cursor;
        }
        proof {
            assert(self.model() =~= pager_step(old_model, comment_page_model(page)));
        }
    }

    /// Hand out everything collected, in arrival order.
    pub fn into_comments(self) -> (r: Vec<Comment>)
        ensures
            r == self.collected,
    {
        self.collected
    }
}

/// How many highlight-reel ids travel in one batched story request.
pub const HIGHLIGHT_CHUNK: usize = 3;

/// The separator between two reel ids inside the percent-encoded
/// `highlight_reel_ids` list.
pub fn highlight_id_separator() -> (r: &'static str)
    ensures
        r@ == "%22%2C%22"@,
{
    "%22%2C%22"
}

/// Accumulates highlight stories, three reel ids per request, until the
/// ids run out or the requested amount is reached.
#[derive(Debug)]
pub struct HighlightPager {
    pub ids: Vec<String>,
    pub pos: usize,
    pub acc: Vec<Story>,
    pub max: usize,
}

impl HighlightPager {
    /// The states an accumulation ever reaches.
    pub open spec fn wf(&self) -> bool {
        self.pos <= self.ids@.len() && self.max >= 1
    }

    /// Whether another batch is to be fetched: ids remain and the
    /// accumulated count is still short of the requested amount.
    pub open spec fn spec_has_next(&self) -> bool {
        self.pos < self.ids@.len() && self.acc@.len() < self.max
    }

    /// Where the next batch of ids ends.
    pub open spec fn spec_chunk_end(&self) -> int {
        if self.ids@.len() - self.pos >= HIGHLIGHT_CHUNK {
            self.pos + HIGHLIGHT_CHUNK
        } else {
            self.ids@.len() as int
        }
    }

    /// Set up the accumulation over the discovered reel ids.
    pub fn new(ids: Vec<String>, max: usize) -> (r: HighlightPager)
        requires
            max >= 1,
        ensures
            r.wf(),
            r.ids == ids,
            r.pos == 0,
            r.acc@.len() == 0,
            r.max == max,
    {
        HighlightPager { ids, pos: 0, acc: Vec::new(), max }
    }

    /// The address of the next batched story request: none once the
    /// accumulation is over, else the story query keyed by the next (at
    /// most three) reel ids, joined in order.
    pub fn next_chunk_url(&self) -> (r: Option<String>)
        requires
            self.wf(),
        ensures
            match r {
                None => !self.spec_has_next(),
                Some(u) => self.spec_has_next() && u@ == spec_highlight_stories_url(
                    join_with(
                        views_of(self.ids@, self.pos as int, self.spec_chunk_end()),
                        "%22%2C%22"@,
                    ),
                ),
            },
    {
        if self.pos >= self.ids.len() || self.acc.len() >= self.max {
            None
        } else {
            let end = if self.ids.len() - self.pos >= HIGHLIGHT_CHUNK {
                self.pos + HIGHLIGHT_CHUNK
            } else {
                self.ids.len()
            };
            let joined = join_ids(&self.ids, self.pos, end, highlight_id_separator());
            Some(highlight_stories_url(joined.as_str()))
        }
    }

    /// Feed the stories decoded from the last batch: they are appended in
    /// arrival order and the batch window advances.
    pub fn feed(&mut self, stories: Vec<Story>)
        requires
            old(self).wf(),
            old(self).spec_has_next(),
        ensures
            final(self).wf(),
            final(self).ids == old(self).ids,
            final(self).max == old(self).max,
            final(self).pos == old(self).spec_chunk_end(),
            final(self).acc.deep_view() == old(self).acc.deep_view() + stories.deep_view(),
    {
        let end = if self.ids.len() - self.pos >= HIGHLIGHT_CHUNK {
            self.pos + HIGHLIGHT_CHUNK
        } else {
            self.ids.len()
        };
        self.pos = end;
        let ghost old_acc = self.acc.deep_view();
        let ghost new_items = stories.deep_view();
        let mut stories = stories;
        self.acc.append(&mut stories);
        proof {
            assert(self.acc.deep_view() =~= old_acc + new_items);
        }
    }

    /// Assemble the result. Trimming removes exactly the excess: when the
    /// accumulation overshot the requested amount, precisely the first
    /// `max` stories survive, in arrival order.
    pub fn finish(self, main_stories: Vec<Story>) -> (r: Stories)
        ensures
            r.main_stories == main_stories,
            self.acc@.len() > self.max ==> r.highlight_stories.deep_view()
                == self.acc.deep_view().take(self.max as int),
            self.acc@.len() <= self.max ==> r.highlight_stories == self.acc,
            r.highlight_stories@.len() == if self.acc@.len() > self.max {
                self.max as int
            } else {
                self.acc@.len() as int
            },
    {
        let mut acc = self.acc;
        if acc.len() > self.max {
            let ghost before = acc.deep_view();
            acc.truncate(self.max);
            proof {
                assert(acc.deep_view() =~= before.take(self.max as int));
            }
        }
        Stories { main_stories, highlight_stories: acc }
    }
}

/// One stories scrape as begun on a session: the main stories are always
/// fetched; highlight stories only for a non-zero requested amount.
#[derive(Debug)]
pub struct StoriesScrape {
    pub user_id: String,
    pub max_highlight_stories: usize,
}

impl StoriesScrape {
    /// Address of the main-stories request, keyed by the user id.
    pub fn main_url(&self) -> (r: String)
        ensures
            r@ == crate::requests::spec_main_stories_url(self.user_id@),
    {
        crate::requests::main_stories_url(self.user_id.as_str())
    }

    /// Whether highlight stories are to be fetched at all: a zero request
    /// skips every highlight-discovery round-trip.
    pub fn wants_highlights(&self) -> (r: bool)
        ensures
            r == (self.max_highlight_stories != 0),
    {
        self.max_highlight_stories != 0
    }

    /// Address of the highlight-reel discovery request.
    pub fn ids_url(&self) -> (r: String)
        ensures
            r@ == crate::requests::spec_highlight_ids_url(self.user_id@),
    {
        crate::requests::highlight_ids_url(self.user_id.as_str())
    }

    /// Assemble the result without any highlight stories, as a zero
    /// requested amount calls for: the main stories still populated.
    pub fn without_highlights(self, main_stories: Vec<Story>) -> (r: Stories)
        ensures
            r.main_stories == main_stories,
            r.highlight_stories@.len() == 0,
    {
        Stories { main_stories, highlight_stories: Vec::new() }
    }

    /// Turn the discovered reel ids into the highlight accumulation.
    pub fn into_pager(self, ids: Vec<String>) -> (r: HighlightPager)
        requires
            self.max_highlight_stories >= 1,
        ensures
            r.wf(),
            r.ids == ids,
            r.pos == 0,
            r.acc@.len() == 0,
            r.max == self.max_highlight_stories,
    {
        HighlightPager::new(ids, self.max_highlight_stories)
    }
}

} // verus!
