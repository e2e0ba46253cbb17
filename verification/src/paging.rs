//! Reading a folder's videos page by page.
//!
//! The platform hands out a folder's videos in pages of at most twenty. A
//! listing of up to twenty videos is one request, returned as received. A
//! longer listing asks for full pages one after the other, joins what comes
//! back, arranges it from the newest down and keeps the wanted number.
//!
//! Nothing here talks to the platform. [`start_fetch`] names the first page
//! to ask for; each answer handed to [`PendingPage::answer`] yields either
//! the next page to ask for or the finished listing.

use vstd::prelude::*;
use crate::capacity::min_int;
use crate::error::ApiError;
use crate::recency::{
    distinct_ids, distinct_times, lemma_newest_first_keeps_distinct_ids, lemma_newest_first_len,
    lemma_newest_first_ordered, lemma_newest_first_permutes, lemma_newest_first_strict,
    newest_first, newest_first_ordered, sort_newest_first, strictly_newest_first,
};
use crate::resource::FavoriteResource;
use crate::response::FavoriteDetailResponse;

verus! {

/// The most videos that one page holds.
pub const PAGE_SIZE: i32 = 20;

/// Number of pages to ask for when `count` videos are wanted.
pub open spec fn page_count(count: int) -> int {
    if count <= PAGE_SIZE {
        1
    } else {
        (count + PAGE_SIZE - 1) / (PAGE_SIZE as int)
    }
}

/// Size of each page to ask for when `count` videos are wanted.
pub open spec fn page_size_for(count: int) -> int {
    if count <= PAGE_SIZE {
        count
    } else {
        PAGE_SIZE as int
    }
}

/// The page number that a failure names: none while the listing is a single page.
pub open spec fn failed_page(count: int, page: i32) -> Option<i32> {
    if count <= PAGE_SIZE {
        None
    } else {
        Some(page)
    }
}

/// The finished listing, given the videos of all pages joined in page order.
pub open spec fn fetch_output(count: int, collected: Seq<FavoriteResource>) -> Seq<
    FavoriteResource,
> {
    if count <= PAGE_SIZE {
        collected
    } else {
        newest_first(collected).take(min_int(count, collected.len() as int))
    }
}

/// One page to ask the platform for.
#[derive(Debug, Clone, Copy, PartialEq, Eq)]
pub struct PageQuery {
    pub media_id: i64,
    /// Page number, counted from one.
    pub page: i32,
    pub page_size: i32,
}

/// A listing in progress: one page has been asked for and not yet answered.
pub struct PendingPage {
    media_id: i64,
    count: i32,
    page: i32,
    collected: Vec<FavoriteResource>,
}

/// What follows an answered page.
pub enum FetchProgress {
    /// Another page is to be asked for.
    More(PendingPage),
    /// The listing is complete.
    Done(Vec<FavoriteResource>),
}

/// A listing in progress, as plain values.
pub struct FetchState {
    /// The folder being listed.
    pub media_id: i64,
    /// The number of videos wanted.
    pub count: i32,
    /// The number of the page that is awaited, counted from one.
    pub page: int,
    /// The videos of the pages answered so far, in page order.
    pub collected: Seq<FavoriteResource>,
}

/// Where a listing stands after some answers, as plain values.
pub enum FetchOutcome {
    /// Another page is awaited.
    More(FetchState),
    /// The listing is complete.
    Done(Seq<FavoriteResource>),
    /// The listing has ended with a failure.
    Failed(ApiError),
}

/// The state in which a listing of the first `count` videos of folder `media_id` begins.
pub open spec fn begin(media_id: i64, count: i32) -> FetchState {
    FetchState { media_id, count, page: 1, collected: Seq::empty() }
}

/// The page that a listing in the given state asks for.
pub open spec fn awaited(state: FetchState) -> PageQuery {
    PageQuery {
        media_id: state.media_id,
        page: state.page as i32,
        page_size: page_size_for(state.count as int) as i32,
    }
}

/// Where a listing in the given state stands after the awaited page is
/// answered with `reply`.
///
/// A failure to obtain the answer ends the listing with that failure. An
/// answer with a non-zero status code ends it with the platform's message
/// and, for a listing of several pages, the number of the page. Otherwise the
/// page's videos are joined to those before, and the listing is complete
/// after the last page.
pub open spec fn after_answer(state: FetchState, reply: Result<FavoriteDetailResponse, ApiError>)
    -> FetchOutcome {
    match reply {
        Err(e) => FetchOutcome::Failed(e),
        Ok(resp) => if resp.code != 0 {
            FetchOutcome::Failed(
                ApiError::Remote {
                    page: failed_page(state.count as int, state.page as i32),
                    message: resp.message,
                },
            )
        } else if state.page < page_count(state.count as int) {
            FetchOutcome::More(
                FetchState {
                    media_id: state.media_id,
                    count: state.count,
                    page: state.page + 1,
                    collected: state.collected + resp.videos(),
                },
            )
        } else {
            FetchOutcome::Done(fetch_output(state.count as int, state.collected + resp.videos()))
        },
    }
}

/// Where a listing in the given state stands after the answers `replies`
/// have been taken in turn. Once the listing has ended, further answers
/// change nothing.
pub open spec fn after_answers(
    state: FetchState,
    replies: Seq<Result<FavoriteDetailResponse, ApiError>>,
) -> FetchOutcome
    decreases replies.len(),
{
    if replies.len() == 0 {
        FetchOutcome::More(state)
    } else {
        match after_answers(state, replies.drop_last()) {
            FetchOutcome::More(reached) => after_answer(reached, replies.last()),
            ended => ended,
        }
    }
}

/// The videos of the given pages, joined in page order.
pub open spec fn joined(pages: Seq<FavoriteDetailResponse>) -> Seq<FavoriteResource>
    decreases pages.len(),
{
    if pages.len() == 0 {
        Seq::empty()
    } else {
        joined(pages.drop_last()) + pages.last().videos()
    }
}

/// The given pages as answers that were obtained without failure.
pub open spec fn obtained(pages: Seq<FavoriteDetailResponse>) -> Seq<
    Result<FavoriteDetailResponse, ApiError>,
> {
    pages.map_values(|page: FavoriteDetailResponse| Ok::<FavoriteDetailResponse, ApiError>(page))
}

/// Whether every one of the given pages carries a zero status code.
pub open spec fn all_accepted(pages: Seq<FavoriteDetailResponse>) -> bool {
    forall|i: int| 0 <= i < pages.len() ==> (#[trigger] pages[i]).code == 0
}

/// Where the result of [`PendingPage::answer`] stands, as plain values.
pub open spec fn outcome_of(r: Result<FetchProgress, ApiError>) -> FetchOutcome {
    match r {
        Ok(FetchProgress::More(next)) => FetchOutcome::More(next@),
        Ok(FetchProgress::Done(videos)) => FetchOutcome::Done(videos@),
        Err(e) => FetchOutcome::Failed(e),
    }
}

/// Number of pages to ask for when `count` videos are wanted.
pub fn pages_for(count: i32) -> (pages: i32)
    ensures
        pages == page_count(count as int),
{
    if count <= PAGE_SIZE {
        1
    } else {
        (count - 1) / PAGE_SIZE + 1
    }
}

/// Begins a listing of the first `count` videos of folder `media_id`.
pub fn start_fetch(media_id: i64, count: i32) -> (first: PendingPage)
    ensures
        first@ == begin(media_id, count),
{
    PendingPage { media_id, count, page: 1, collected: Vec::new() }
}

impl View for PendingPage {
    type V = FetchState;

    closed spec fn view(&self) -> FetchState {
        FetchState {
            media_id: self.media_id,
            count: self.count,
            page: self.page as int,
            collected: self.collected@,
        }
    }
}

impl PendingPage {
    #[verifier::type_invariant]
    spec fn in_range(self) -> bool {
        1 <= self.page <= page_count(self.count as int)
    }

    /// The page to ask the platform for.
    pub fn query(&self) -> (q: PageQuery)
        ensures
            q == awaited(self@),
            1 <= q.page <= page_count(self@.count as int),
    {
        proof {
            use_type_invariant(self);
        }
        let page_size = if self.count <= PAGE_SIZE {
            self.count
        } else {
            PAGE_SIZE
        };
        PageQuery { media_id: self.media_id, page: self.page, page_size }
    }

    /// Takes the answer to the awaited page and says what follows: another
    /// page to ask for, the finished listing, or the failure that ended it.
    pub fn answer(self, reply: Result<FavoriteDetailResponse, ApiError>) -> (r: Result<
        FetchProgress,
        ApiError,
    >)
        ensures
            outcome_of(r) == after_answer(self@, reply),
    {
        proof {
            use_type_invariant(&self);
        }
        let PendingPage { media_id, count, page, collected } = self;
        let mut collected = collected;
        match reply {
            Err(e) => Err(e),
            Ok(resp) => {
                if resp.code != 0 {
                    let failed = if count <= PAGE_SIZE {
                        None
                    } else {
                        Some(page)
                    };
                    return Err(ApiError::Remote { page: failed, message: resp.message });
                }
                match resp.into_videos() {
                    Err(e) => Err(e),
                    Ok(videos) => {
                        let mut videos = videos;
                        collected.append(&mut videos);
                        let ghost joined_up = collected@;
                        if page < pages_for(count) {
                            Ok(
                                FetchProgress::More(
                                    PendingPage { media_id, count, page: page + 1, collected },
                                ),
                            )
                        } else {
                            if count > PAGE_SIZE {
                                let ghost all = collected@;
                                sort_newest_first(&mut collected);
                                proof {
                                    lemma_newest_first_len(all);
                                }
                                collected.truncate(count as usize);
                            }
                            assert(collected@ =~= fetch_output(count as int, joined_up));
                            Ok(FetchProgress::Done(collected))
                        }
                    },
                }
            },
        }
    }
}

/// A listing asks for exactly as many pages as its count calls for: while
/// fewer pages have been answered, each with a zero status code, the next
/// one is awaited and the videos so far are kept in page order; the answer
/// to the last page completes the listing.
pub proof fn lemma_listing_takes_every_page(
    media_id: i64,
    count: i32,
    pages: Seq<FavoriteDetailResponse>,
)
    requires
        all_accepted(pages),
        pages.len() <= page_count(count as int),
    ensures
        after_answers(begin(media_id, count), obtained(pages)) == if pages.len() < page_count(
            count as int,
        ) {
            FetchOutcome::More(
                FetchState {
                    media_id,
                    count,
                    page: pages.len() as int + 1,
                    collected: joined(pages),
                },
            )
        } else {
            FetchOutcome::Done(fetch_output(count as int, joined(pages)))
        },
    decreases pages.len(),
{
    if pages.len() > 0 {
        let before = pages.drop_last();
        assert(all_accepted(before)) by {
            assert forall|i: int| 0 <= i < before.len() implies (#[trigger] before[i]).code
                == 0 by {
                assert(before[i] == pages[i]);
            }
        }
        lemma_listing_takes_every_page(media_id, count, before);
        assert(obtained(pages).drop_last() =~= obtained(before));
        assert(obtained(pages).last() == Ok::<FavoriteDetailResponse, ApiError>(pages.last()));
        assert(pages.last().code == 0);
    }
}

/// A page that the platform refuses, or whose answer cannot be obtained,
/// ends the listing at once: nothing of the pages before is returned, and
/// the failure is the one that [`after_answer`] names for the page.
pub proof fn lemma_failed_page_ends_listing(
    media_id: i64,
    count: i32,
    pages: Seq<FavoriteDetailResponse>,
    reply: Result<FavoriteDetailResponse, ApiError>,
    later: Seq<Result<FavoriteDetailResponse, ApiError>>,
)
    requires
        all_accepted(pages),
        pages.len() < page_count(count as int),
        reply is Err || reply->Ok_0.code != 0,
    ensures
        after_answers(begin(media_id, count), obtained(pages).push(reply) + later) == match reply {
            Err(e) => FetchOutcome::Failed(e),
            Ok(resp) => FetchOutcome::Failed(
                ApiError::Remote {
                    page: failed_page(count as int, (pages.len() + 1) as i32),
                    message: resp.message,
                },
            ),
        },
    decreases later.len(),
{
    let replies = obtained(pages).push(reply) + later;
    if later.len() == 0 {
        lemma_listing_takes_every_page(media_id, count, pages);
        assert(replies =~= obtained(pages).push(reply));
        assert(replies.drop_last() =~= obtained(pages));
        assert(replies.last() == reply);
    } else {
        lemma_failed_page_ends_listing(media_id, count, pages, reply, later.drop_last());
        assert(replies.drop_last() =~= obtained(pages).push(reply) + later.drop_last());
    }
}

/// The number of pages is the least that holds `count` videos.
pub proof fn lemma_page_count_covers(count: int)
    ensures
        page_count(count) >= 1,
        page_count(count) * page_size_for(count) >= count,
        count <= PAGE_SIZE ==> page_count(count) * page_size_for(count) == count,
        count > PAGE_SIZE ==> (page_count(count) - 1) * PAGE_SIZE < count,
{
    if count <= PAGE_SIZE {
        assert(page_count(count) * page_size_for(count) == 1 * count);
    } else {
        let pages = (count + 19) / 20;
        assert(page_count(count) == pages);
        assert(page_count(count) * page_size_for(count) == pages * 20);
    }
}

/// A listing that took several pages has the wanted number of videos, or all
/// that the pages held if those are fewer; it never shows a video before one
/// that was added later; and it shows only videos that some page held.
pub proof fn lemma_long_listing_is_ordered(count: int, collected: Seq<FavoriteResource>)
    requires
        count > PAGE_SIZE,
    ensures
        fetch_output(count, collected).len() == min_int(count, collected.len() as int),
        newest_first_ordered(fetch_output(count, collected)),
        forall|i: int|
            0 <= i < fetch_output(count, collected).len() ==> collected.contains(
                #[trigger] fetch_output(count, collected)[i],
            ),
{
    let sorted = newest_first(collected);
    let listing = fetch_output(count, collected);
    lemma_newest_first_len(collected);
    lemma_newest_first_ordered(collected);
    lemma_newest_first_permutes(collected);
    assert forall|i: int, j: int| 0 <= i < j < listing.len() implies listing[i].fav_time
        >= listing[j].fav_time by {
        assert(listing[i] == sorted[i] && listing[j] == sorted[j]);
    }
    assert forall|i: int| 0 <= i < listing.len() implies collected.contains(
        #[trigger] listing[i],
    ) by {
        assert(listing[i] == sorted[i]);
        assert(sorted.contains(sorted[i]));
        vstd::seq_lib::to_multiset_contains(sorted, sorted[i]);
        vstd::seq_lib::to_multiset_contains(collected, sorted[i]);
    }
}

/// A finished listing of `count` videos from a folder that holds `available`
/// of them has the smaller of the two numbers of videos, runs strictly from
/// the newest down and shows no identifier twice, however many pages it took.
///
/// This rests on what the platform handed out: as many videos as were asked
/// for or as the folder holds, no identifier and no moment of adding twice,
/// and a single page already in order.
pub proof fn lemma_listing_is_complete_and_ordered(
    count: int,
    collected: Seq<FavoriteResource>,
    available: int,
)
    requires
        0 <= count,
        0 <= available,
        collected.len() == min_int(page_count(count) * page_size_for(count), available),
        distinct_ids(collected),
        distinct_times(collected),
        count <= PAGE_SIZE ==> newest_first_ordered(collected),
    ensures
        fetch_output(count, collected).len() == min_int(count, available),
        strictly_newest_first(fetch_output(count, collected)),
        distinct_ids(fetch_output(count, collected)),
{
    let listing = fetch_output(count, collected);
    lemma_page_count_covers(count);
    if count > PAGE_SIZE {
        let sorted = newest_first(collected);
        lemma_newest_first_len(collected);
        lemma_newest_first_strict(collected);
        lemma_newest_first_keeps_distinct_ids(collected);
        assert forall|i: int, j: int| 0 <= i < j < listing.len() implies listing[i].fav_time
            > listing[j].fav_time && listing[i].id != listing[j].id by {
            assert(listing[i] == sorted[i] && listing[j] == sorted[j]);
        }
    }
}

} // verus!
