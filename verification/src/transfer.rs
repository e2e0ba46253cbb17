//! Moving videos from one folder into another.
//!
//! A move starts from the current sizes of both folders. The capacity plan
//! decides how many of the wanted videos can go; the first that many, in the
//! caller's order, are the ones to move. Their titles and uploaders are
//! looked up in the source folder's listing through an index that is built
//! once. The platform is then asked to move them, and its answer shapes the
//! outcome.
//!
//! Nothing here talks to the platform: [`begin_move`] says whether there is
//! anything to send, [`MoveTransfer::resolve`] takes the source listing, and
//! [`ReadyMove::finish`] takes the platform's answer.

use std::collections::HashMap;
use vstd::prelude::*;
use vstd::string::*;
use crate::capacity::{movable, plan_move, plan_reason, PlanReason};
use crate::error::{ApiError, soften};
use crate::folder::FavoriteFolder;
use crate::resource::FavoriteResource;
use crate::response::{remote_failure, FavoriteDetailData, MoveResponse};
use crate::text::{nat_text, push_nat};

verus! {

broadcast use vstd::std_specs::hash::group_hash_axioms;

/// What is shown of a moved video.
#[derive(Debug, Clone, PartialEq, Eq)]
pub struct MoveVideoInfo {
    pub id: i64,
    pub title: String,
    pub bvid: String,
    /// Name of the uploader, when the listing names one.
    pub upper: Option<String>,
    pub duration: i32,
}

/// The outcome of a move.
#[derive(Debug, Clone, PartialEq, Eq)]
pub struct MoveResult {
    pub src_media_id: i64,
    pub tar_media_id: i64,
    pub moved_count: i32,
    pub success_count: i32,
    pub fail_count: i32,
    pub message: Option<String>,
    pub videos: Option<Vec<MoveVideoInfo>>,
}

/// The outcome of a move in flat form, for display.
#[derive(Debug, Clone, PartialEq, Eq)]
pub struct MoveExecuteResult {
    pub src_media_id: i64,
    pub tar_media_id: i64,
    pub moved_count: i32,
    pub message: String,
    pub videos: Vec<MoveVideoInfo>,
}

/// How much of a source folder fits into a target folder.
#[derive(Debug, Clone, PartialEq, Eq)]
pub struct MoveCalculateResult {
    pub src_folder: FavoriteFolder,
    pub tar_folder: FavoriteFolder,
    pub movable_count: i32,
    pub can_move: bool,
}

/// Text of the outcome when the target folder has no room left.
pub const TARGET_FULL: &'static str = "目标收藏夹已满（1000个视频上限）";

/// Text of the outcome when there is nothing to take from the source folder.
pub const SOURCE_EMPTY: &'static str = "源收藏夹中没有视频";

/// Opening of the text of a successful move, before the number of videos.
pub const MOVED_PREFIX: &'static str = "成功移动 ";

/// Close of the text of a successful move, after the number of videos.
pub const MOVED_SUFFIX: &'static str = " 个视频";

/// The text that goes with a plan that moves nothing.
pub open spec fn reason_text(reason: PlanReason) -> Seq<char> {
    match reason {
        PlanReason::TargetFull => TARGET_FULL@,
        _ => SOURCE_EMPTY@,
    }
}

/// The text that reports `n` videos moved.
pub open spec fn moved_text(n: nat) -> Seq<char> {
    MOVED_PREFIX@ + nat_text(n) + MOVED_SUFFIX@
}

/// What is shown of the video `r`.
pub open spec fn video_info(r: FavoriteResource) -> MoveVideoInfo {
    MoveVideoInfo {
        id: r.id,
        title: r.title,
        bvid: r.bvid,
        upper: match r.upper {
            Some(upper) => Some(upper.name),
            None => None,
        },
        duration: r.duration,
    }
}

/// Whether some video of `listing` has the identifier `id`.
pub open spec fn holds_video(listing: Seq<FavoriteResource>, id: i64) -> bool {
    exists|i: int| 0 <= i < listing.len() && listing[i].id == id
}

/// Whether place `i` is the first of `listing` that holds a video with the identifier `id`.
pub open spec fn is_first_with_id(listing: Seq<FavoriteResource>, id: i64, i: int) -> bool {
    &&& 0 <= i < listing.len()
    &&& listing[i].id == id
    &&& forall|j: int| 0 <= j < i ==> listing[j].id != id
}

/// The first place of `listing` that holds a video with the identifier `id`.
pub open spec fn first_with_id(listing: Seq<FavoriteResource>, id: i64) -> int {
    choose|i: int| is_first_with_id(listing, id, i)
}

/// What is shown of the videos named by `ids`, in the order of `ids`. An
/// identifier that the listing does not hold contributes nothing; one that
/// it holds more than once stands for the first video that has it.
pub open spec fn resolved(ids: Seq<i64>, listing: Seq<FavoriteResource>) -> Seq<MoveVideoInfo>
    decreases ids.len(),
{
    if ids.len() == 0 {
        Seq::empty()
    } else {
        let before = resolved(ids.drop_last(), listing);
        if holds_video(listing, ids.last()) {
            before.push(video_info(listing[first_with_id(listing, ids.last())]))
        } else {
            before
        }
    }
}

/// Only one place can be the first that holds a given identifier.
pub proof fn lemma_first_with_id_unique(listing: Seq<FavoriteResource>, id: i64, i: int, j: int)
    requires
        is_first_with_id(listing, id, i),
        is_first_with_id(listing, id, j),
    ensures
        i == j,
        first_with_id(listing, id) == i,
{
    let c = first_with_id(listing, id);
    assert(is_first_with_id(listing, id, c));
    if i < j {
        assert(listing[i].id != id);
    }
    if j < i {
        assert(listing[j].id != id);
    }
    if c < i {
        assert(listing[c].id != id);
    }
    if i < c {
        assert(listing[i].id != id);
    }
}

/// Whether `index` maps each identifier that `listing` holds to the first
/// place that holds it, and no other identifier.
spec fn indexes(index: Map<i64, usize>, listing: Seq<FavoriteResource>) -> bool {
    forall|id: i64|
        {
            &&& #[trigger] index.contains_key(id) <==> holds_video(listing, id)
            &&& index.contains_key(id) ==> is_first_with_id(listing, id, index[id] as int)
        }
}

/// Builds the index of a listing by identifier.
fn build_index(listing: &Vec<FavoriteResource>) -> (index: HashMap<i64, usize>)
    ensures
        indexes(index@, listing@),
{
    let mut index: HashMap<i64, usize> = HashMap::new();
    let mut i: usize = 0;
    assert(indexes(index@, listing@.take(0))) by {
        assert forall|id: i64| !holds_video(listing@.take(0), id) by {}
    }
    while i < listing.len()
        invariant
            i <= listing.len(),
            indexes(index@, listing@.take(i as int)),
        decreases listing.len() - i,
    {
        let id = listing[i].id;
        let ghost seen = listing@.take(i as int);
        let ghost next = listing@.take(i + 1);
        let ghost old_index = index@;
        let known = index.contains_key(&id);
        if !known {
            index.insert(id, i);
        }
        proof {
            assert(next.len() == i + 1);
            assert forall|k: int| 0 <= k < i implies next[k] == seen[k] by {}
            assert(next[i as int] == listing@[i as int]);
            assert forall|other: i64|
                {
                    &&& #[trigger] index@.contains_key(other) <==> holds_video(next, other)
                    &&& index@.contains_key(other) ==> is_first_with_id(
                        next,
                        other,
                        index@[other] as int,
                    )
                } by {
                assert(old_index.contains_key(other) <==> holds_video(seen, other));
                if holds_video(seen, other) {
                    let w = choose|w: int| 0 <= w < seen.len() && seen[w].id == other;
                    assert(next[w].id == other);
                    let f = old_index[other] as int;
                    assert(is_first_with_id(seen, other, f));
                    assert(next[f] == seen[f]);
                    assert forall|j: int| 0 <= j < f implies next[j].id != other by {
                        assert(next[j] == seen[j]);
                    }
                    assert(is_first_with_id(next, other, f));
                } else if other == id {
                    assert(next[i as int].id == other);
                    assert forall|j: int| 0 <= j < i implies next[j].id != other by {
                        assert(next[j] == seen[j]);
                    }
                    assert(is_first_with_id(next, other, i as int));
                } else {
                    if holds_video(next, other) {
                        let w = choose|w: int| 0 <= w < next.len() && next[w].id == other;
                        assert(w < i);
                        assert(seen[w].id == other);
                    }
                }
            }
        }
        i += 1;
    }
    assert(listing@.take(i as int) =~= listing@);
    index
}

/// Copies out what is shown of the video `r`.
fn info_of(r: &FavoriteResource) -> (info: MoveVideoInfo)
    ensures
        info == video_info(*r),
{
    let upper = match &r.upper {
        Some(upper) => Some(upper.name.clone()),
        None => None,
    };
    MoveVideoInfo {
        id: r.id,
        title: r.title.clone(),
        bvid: r.bvid.clone(),
        upper,
        duration: r.duration,
    }
}

/// Looks up what is shown of the videos named by `ids` in `listing`.
pub fn resolve_videos(ids: &Vec<i64>, listing: &Vec<FavoriteResource>) -> (infos: Vec<
    MoveVideoInfo,
>)
    ensures
        infos@ == resolved(ids@, listing@),
{
    let index = build_index(listing);
    let mut infos: Vec<MoveVideoInfo> = Vec::new();
    let mut k: usize = 0;
    while k < ids.len()
        invariant
            k <= ids.len(),
            indexes(index@, listing@),
            infos@ == resolved(ids@.take(k as int), listing@),
        decreases ids.len() - k,
    {
        let id = ids[k];
        proof {
            assert(ids@.take(k + 1).drop_last() =~= ids@.take(k as int));
            assert(ids@.take(k + 1).last() == id);
            assert(index@.contains_key(id) <==> holds_video(listing@, id));
        }
        match index.get(&id) {
            Some(at) => {
                proof {
                    lemma_first_with_id_unique(
                        listing@,
                        id,
                        *at as int,
                        first_with_id(listing@, id),
                    );
                }
                infos.push(info_of(&listing[*at]));
            },
            None => {},
        }
        k += 1;
    }
    assert(ids@.take(k as int) =~= ids@);
    infos
}

impl MoveResult {
    /// Whether this outcome says that nothing was tried, for the given reason.
    pub open spec fn is_nothing_moved(self, source_id: i64, target_id: i64, text: Seq<char>)
        -> bool {
        &&& self.src_media_id == source_id
        &&& self.tar_media_id == target_id
        &&& self.moved_count == 0
        &&& self.success_count == 0
        &&& self.fail_count == 0
        &&& self.message is Some
        &&& self.message->0@ == text
        &&& self.videos is Some
        &&& self.videos->0@ == Seq::<MoveVideoInfo>::empty()
    }

    /// Whether this outcome says that `n` videos were moved, shown as `videos`.
    pub open spec fn is_moved(
        self,
        source_id: i64,
        target_id: i64,
        n: int,
        videos: Seq<MoveVideoInfo>,
    ) -> bool {
        &&& self.src_media_id == source_id
        &&& self.tar_media_id == target_id
        &&& self.moved_count == n
        &&& self.success_count == n
        &&& self.fail_count == 0
        &&& self.message is Some
        &&& self.message->0@ == moved_text(n as nat)
        &&& self.videos is Some
        &&& self.videos->0@ == videos
    }

    /// Whether this outcome says that the move of `n` videos failed with the given text.
    pub open spec fn is_failed(self, source_id: i64, target_id: i64, n: int, text: Seq<char>)
        -> bool {
        &&& self.src_media_id == source_id
        &&& self.tar_media_id == target_id
        &&& self.moved_count == 0
        &&& self.success_count == 0
        &&& self.fail_count == n
        &&& self.message is Some
        &&& self.message->0@ == text
        &&& self.videos is Some
        &&& self.videos->0@ == Seq::<MoveVideoInfo>::empty()
    }
}

/// Works out how much of the folder `src_folder` fits into `tar_folder`.
pub fn calculate_move(src_folder: FavoriteFolder, tar_folder: FavoriteFolder) -> (r:
    MoveCalculateResult)
    ensures
        r.src_folder == src_folder,
        r.tar_folder == tar_folder,
        r.movable_count == movable(
            src_folder.media_count as int,
            tar_folder.media_count as int,
            src_folder.media_count as int,
        ),
        r.can_move == (r.movable_count > 0),
{
    let wanted: usize = if src_folder.media_count > 0 {
        src_folder.media_count as usize
    } else {
        0
    };
    let plan = plan_move(src_folder.media_count, tar_folder.media_count, wanted);
    MoveCalculateResult {
        src_folder,
        tar_folder,
        movable_count: plan.movable_count,
        can_move: plan.movable_count > 0,
    }
}

/// A move whose videos are chosen; the source listing is awaited.
pub struct MoveTransfer {
    source_id: i64,
    target_id: i64,
    video_ids: Vec<i64>,
    listing_count: i32,
}

/// A move that is ready to be sent; the platform's answer is awaited.
pub struct ReadyMove {
    source_id: i64,
    target_id: i64,
    video_ids: Vec<i64>,
    videos: Vec<MoveVideoInfo>,
}

/// What to do with a wanted move.
pub enum MoveDecision {
    /// Nothing can move; nothing is to be sent.
    Finished(MoveResult),
    /// The chosen videos are to be moved.
    Transfer(MoveTransfer),
}

/// Decides which of the videos `video_ids` can move from folder `source_id`
/// into folder `target_id`, given the current state of both folders.
///
/// When the plan moves nothing, the outcome is final and carries the plan's
/// reason. Otherwise the first videos in the caller's order are chosen, as
/// many as the plan allows.
pub fn begin_move(
    source_id: i64,
    target_id: i64,
    video_ids: Vec<i64>,
    source: &FavoriteDetailData,
    target: &FavoriteDetailData,
) -> (decision: MoveDecision)
    ensures
        ({
            let source_count = source.info.media_count as int;
            let target_count = target.info.media_count as int;
            let wanted = video_ids@.len() as int;
            let n = movable(source_count, target_count, wanted);
            if n == 0 {
                decision matches MoveDecision::Finished(r) && r.is_nothing_moved(
                    source_id,
                    target_id,
                    reason_text(plan_reason(source_count, target_count, wanted)),
                )
            } else {
                &&& decision matches MoveDecision::Transfer(transfer)
                &&& transfer.source_id() == source_id
                &&& transfer.target_id() == target_id
                &&& transfer.video_ids() == video_ids@.take(n)
                &&& transfer.listing_count() == source.info.media_count
            }
        }),
{
    let plan = plan_move(source.info.media_count, target.info.media_count, video_ids.len());
    if plan.movable_count == 0 {
        let text = match plan.reason {
            PlanReason::TargetFull => String::from_str(TARGET_FULL),
            _ => String::from_str(SOURCE_EMPTY),
        };
        MoveDecision::Finished(
            MoveResult {
                src_media_id: source_id,
                tar_media_id: target_id,
                moved_count: 0,
                success_count: 0,
                fail_count: 0,
                message: Some(text),
                videos: Some(Vec::new()),
            },
        )
    } else {
        let mut video_ids = video_ids;
        video_ids.truncate(plan.movable_count as usize);
        MoveDecision::Transfer(
            MoveTransfer {
                source_id,
                target_id,
                video_ids,
                listing_count: source.info.media_count,
            },
        )
    }
}

impl MoveTransfer {
    #[verifier::type_invariant]
    spec fn in_range(self) -> bool {
        1 <= self.video_ids.len() <= i32::MAX
    }

    /// The folder the videos leave.
    pub closed spec fn source_id(self) -> i64 {
        self.source_id
    }

    /// The folder the videos enter.
    pub closed spec fn target_id(self) -> i64 {
        self.target_id
    }

    /// The videos chosen to move, in the caller's order.
    pub closed spec fn video_ids(self) -> Seq<i64> {
        self.video_ids@
    }

    /// The size that the source folder declares: how much of it to list.
    pub closed spec fn listing_count(self) -> i32 {
        self.listing_count
    }

    /// How many videos of the source folder to list for the lookup.
    pub fn wanted_listing(&self) -> (count: i32)
        ensures
            count == self.listing_count(),
    {
        self.listing_count
    }

    /// Takes the source folder's listing and looks up the chosen videos in it.
    pub fn resolve(self, listing: &Vec<FavoriteResource>) -> (ready: ReadyMove)
        ensures
            ready.source_id() == self.source_id(),
            ready.target_id() == self.target_id(),
            ready.video_ids() == self.video_ids(),
            ready.videos() == resolved(self.video_ids(), listing@),
    {
        proof {
            use_type_invariant(&self);
        }
        let videos = resolve_videos(&self.video_ids, listing);
        ReadyMove {
            source_id: self.source_id,
            target_id: self.target_id,
            video_ids: self.video_ids,
            videos,
        }
    }
}

impl ReadyMove {
    #[verifier::type_invariant]
    spec fn in_range(self) -> bool {
        1 <= self.video_ids.len() <= i32::MAX
    }

    /// The folder the videos leave.
    pub closed spec fn source_id(self) -> i64 {
        self.source_id
    }

    /// The folder the videos enter.
    pub closed spec fn target_id(self) -> i64 {
        self.target_id
    }

    /// The videos to move, in the caller's order.
    pub closed spec fn video_ids(self) -> Seq<i64> {
        self.video_ids@
    }

    /// What is shown of the videos to move.
    pub closed spec fn videos(self) -> Seq<MoveVideoInfo> {
        self.videos@
    }

    /// The videos to ask the platform to move.
    pub fn ids(&self) -> (ids: &Vec<i64>)
        ensures
            ids@ == self.video_ids(),
            ids@.len() >= 1,
    {
        proof {
            use_type_invariant(self);
        }
        &self.video_ids
    }

    /// Takes the platform's answer and reports the outcome.
    ///
    /// A zero status code means that every chosen video was moved. A failure
    /// reported by the platform means that none was; the outcome carries its
    /// text. A failure to reach the platform or to read its answer is handed
    /// back as a failure.
    pub fn finish(self, reply: Result<MoveResponse, ApiError>) -> (r: Result<MoveResult, ApiError>)
        ensures
            ({
                let n = self.video_ids().len() as int;
                match reply {
                    Ok(resp) => if resp.code == 0 {
                        r matches Ok(outcome) && outcome.is_moved(
                            self.source_id(),
                            self.target_id(),
                            n,
                            self.videos(),
                        )
                    } else {
                        r matches Ok(outcome) && outcome.is_failed(
                            self.source_id(),
                            self.target_id(),
                            n,
                            remote_failure(resp.message).text(),
                        )
                    },
                    Err(e) => if e.is_remote() {
                        r matches Ok(outcome) && outcome.is_failed(
                            self.source_id(),
                            self.target_id(),
                            n,
                            e.text(),
                        )
                    } else {
                        r == Err::<MoveResult, ApiError>(e)
                    },
                }
            }),
    {
        proof {
            use_type_invariant(&self);
        }
        let n: i32 = self.video_ids.len() as i32;
        let done = match reply {
            Ok(resp) => resp.into_done(),
            Err(e) => Err(e),
        };
        match soften(done) {
            Err(e) => Err(e),
            Ok(Err(text)) => Ok(
                MoveResult {
                    src_media_id: self.source_id,
                    tar_media_id: self.target_id,
                    moved_count: 0,
                    success_count: 0,
                    fail_count: n,
                    message: Some(text),
                    videos: Some(Vec::new()),
                },
            ),
            Ok(Ok(())) => {
                let mut message = String::from_str(MOVED_PREFIX);
                push_nat(&mut message, n as u64);
                message.append(MOVED_SUFFIX);
                Ok(
                    MoveResult {
                        src_media_id: self.source_id,
                        tar_media_id: self.target_id,
                        moved_count: n,
                        success_count: n,
                        fail_count: 0,
                        message: Some(message),
                        videos: Some(self.videos),
                    },
                )
            },
        }
    }
}

} // verus!
