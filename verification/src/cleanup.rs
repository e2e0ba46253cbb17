//! Purging invalid entries from one folder or from many.
//!
//! A batch works through its folders one after the other. A failure that the
//! platform reports for one folder is recorded for that folder and the batch
//! goes on; the summary counts what succeeded, what failed and how many
//! entries were purged in all.
//!
//! Nothing here talks to the platform. [`start_batch`] names the first
//! folder to purge; each answer handed to [`PendingClean::answer`] yields
//! either the next folder or the finished batch.

use vstd::prelude::*;
use vstd::string::*;
use crate::error::{ApiError, soften};
use crate::response::{remote_failure, CleanResponse};

verus! {

/// The outcome of purging one folder.
#[derive(Debug, Clone, PartialEq, Eq)]
pub struct CleanResult {
    pub media_id: i64,
    pub success: bool,
    /// Number of entries purged; zero when the purge failed.
    pub cleaned_count: i32,
    /// Text of the failure, when the purge failed.
    pub error: Option<String>,
}

/// Totals over the outcomes of a batch.
#[derive(Debug, Clone, Copy, PartialEq, Eq)]
pub struct CleanSummary {
    pub total: usize,
    pub success: usize,
    pub failure: usize,
    pub total_cleaned: i32,
}

/// The outcomes of a batch, in the order the folders were given, with their totals.
#[derive(Debug, Clone, PartialEq, Eq)]
pub struct BatchCleanResult {
    pub results: Vec<CleanResult>,
    pub summary: CleanSummary,
}

/// The outcome of purging one folder, as plain values.
pub struct CleanRecord {
    pub media_id: i64,
    pub success: bool,
    pub cleaned_count: i32,
    pub error: Option<Seq<char>>,
}

/// The outcomes of a batch with their totals, as plain values.
pub struct BatchRecord {
    pub records: Seq<CleanRecord>,
    pub summary: CleanSummary,
}

/// A batch in progress, as plain values.
pub struct BatchState {
    /// The folders of the batch, in the order given.
    pub media_ids: Seq<i64>,
    /// The outcomes recorded so far, in the order of the folders.
    pub records: Seq<CleanRecord>,
}

/// Where a batch stands after some answers, as plain values.
pub enum BatchOutcome {
    /// The purge of another folder is awaited.
    Next(BatchState),
    /// The batch is complete.
    Done(BatchRecord),
    /// The batch has ended with a failure.
    Failed(ApiError),
}

impl View for CleanResult {
    type V = CleanRecord;

    open spec fn view(&self) -> CleanRecord {
        CleanRecord {
            media_id: self.media_id,
            success: self.success,
            cleaned_count: self.cleaned_count,
            error: match self.error {
                Some(text) => Some(text@),
                None => None,
            },
        }
    }
}

/// The given outcomes as plain values.
pub open spec fn records_of(results: Seq<CleanResult>) -> Seq<CleanRecord> {
    results.map_values(|r: CleanResult| r@)
}

impl View for BatchCleanResult {
    type V = BatchRecord;

    open spec fn view(&self) -> BatchRecord {
        BatchRecord { records: records_of(self.results@), summary: self.summary }
    }
}

/// Whether `reply` ends the operation instead of being recorded: it is a
/// failure that the platform did not report itself.
pub open spec fn aborts(reply: Result<CleanResponse, ApiError>) -> bool {
    reply matches Err(e) && !e.is_remote()
}

/// The record of `reply` for folder `media_id`: a zero status code is a
/// success with the number of entries that the answer names, and a failure
/// reported by the platform is a failure with its text.
pub open spec fn record_of(media_id: i64, reply: Result<CleanResponse, ApiError>) -> CleanRecord {
    match reply {
        Ok(resp) => if resp.code == 0 {
            CleanRecord { media_id, success: true, cleaned_count: resp.cleaned(), error: None }
        } else {
            CleanRecord {
                media_id,
                success: false,
                cleaned_count: 0,
                error: Some(remote_failure(resp.message).text()),
            }
        },
        Err(e) => CleanRecord { media_id, success: false, cleaned_count: 0, error: Some(e.text()) },
    }
}

/// Number of successful outcomes among `records`.
pub open spec fn success_count(records: Seq<CleanRecord>) -> nat {
    records.filter(|r: CleanRecord| r.success).len()
}

/// Sum of the entries purged over `records`.
pub open spec fn cleaned_sum(records: Seq<CleanRecord>) -> int
    decreases records.len(),
{
    if records.len() == 0 {
        0
    } else {
        cleaned_sum(records.drop_last()) + records.last().cleaned_count
    }
}

/// The totals over `records`. The sum of purged entries is meant to lie
/// within the range of its field.
pub open spec fn totals(records: Seq<CleanRecord>) -> CleanSummary {
    CleanSummary {
        total: records.len() as usize,
        success: success_count(records) as usize,
        failure: (records.len() - success_count(records)) as usize,
        total_cleaned: cleaned_sum(records) as i32,
    }
}

impl CleanSummary {
    /// Whether these totals are the counts and the sum over `records`.
    pub open spec fn sums_up(self, records: Seq<CleanRecord>) -> bool {
        &&& self.total == records.len()
        &&& self.success == success_count(records)
        &&& self.failure == records.len() - success_count(records)
        &&& self.total_cleaned == cleaned_sum(records)
    }
}

/// Where a batch over the folders `media_ids` begins: an empty batch is
/// complete at once.
pub open spec fn begin_batch(media_ids: Seq<i64>) -> BatchOutcome {
    if media_ids.len() == 0 {
        BatchOutcome::Done(
            BatchRecord { records: Seq::empty(), summary: totals(Seq::empty()) },
        )
    } else {
        BatchOutcome::Next(BatchState { media_ids, records: Seq::empty() })
    }
}

/// The folder whose purge a batch in the given state awaits.
pub open spec fn awaited_folder(state: BatchState) -> i64 {
    state.media_ids[state.records.len() as int]
}

/// Where a batch in the given state stands after the awaited purge is
/// answered with `reply`.
///
/// A failure to reach the platform or to read its answer ends the batch with
/// that failure. Otherwise the answer is recorded for its folder, and the
/// batch is complete after the last folder.
pub open spec fn after_clean(state: BatchState, reply: Result<CleanResponse, ApiError>)
    -> BatchOutcome {
    if aborts(reply) {
        BatchOutcome::Failed(reply->Err_0)
    } else {
        let records = state.records.push(record_of(awaited_folder(state), reply));
        if records.len() < state.media_ids.len() {
            BatchOutcome::Next(BatchState { media_ids: state.media_ids, records })
        } else {
            BatchOutcome::Done(BatchRecord { records, summary: totals(records) })
        }
    }
}

/// Where a batch that stood at `start` stands after the answers `replies`
/// have been taken in turn. Once the batch has ended, further answers change
/// nothing.
pub open spec fn after_cleans(start: BatchOutcome, replies: Seq<Result<CleanResponse, ApiError>>)
    -> BatchOutcome
    decreases replies.len(),
{
    if replies.len() == 0 {
        start
    } else {
        match after_cleans(start, replies.drop_last()) {
            BatchOutcome::Next(reached) => after_clean(reached, replies.last()),
            ended => ended,
        }
    }
}

/// The records of the answers `replies`, each for the folder at its own place.
pub open spec fn recorded(media_ids: Seq<i64>, replies: Seq<Result<CleanResponse, ApiError>>)
    -> Seq<CleanRecord> {
    Seq::new(replies.len(), |i: int| record_of(media_ids[i], replies[i]))
}

/// Number of entries that `reply` reports as purged: zero unless it is a success.
pub open spec fn cleaned_by(reply: Result<CleanResponse, ApiError>) -> int {
    match reply {
        Ok(resp) => if resp.code == 0 {
            resp.cleaned() as int
        } else {
            0
        },
        Err(_) => 0,
    }
}

/// Whether the entries that `reply` reports can be added to those purged so
/// far without leaving the range of the total.
pub open spec fn takes(state: BatchState, reply: Result<CleanResponse, ApiError>) -> bool {
    i32::MIN <= cleaned_sum(state.records) + cleaned_by(reply) <= i32::MAX
}

/// Records the answer to a request to purge folder `media_id`.
///
/// A failure to reach the platform or to read its answer is handed back as a
/// failure; everything else becomes an outcome.
pub fn clean_outcome(media_id: i64, reply: Result<CleanResponse, ApiError>) -> (r: Result<
    CleanResult,
    ApiError,
>)
    ensures
        match r {
            Ok(outcome) => !aborts(reply) && outcome@ == record_of(media_id, reply),
            Err(e) => aborts(reply) && reply == Err::<CleanResponse, ApiError>(e),
        },
{
    let cleaned = match reply {
        Ok(resp) => resp.into_cleaned(),
        Err(e) => Err(e),
    };
    match soften(cleaned) {
        Err(e) => Err(e),
        Ok(Ok(n)) => Ok(CleanResult { media_id, success: true, cleaned_count: n, error: None }),
        Ok(Err(text)) => Ok(
            CleanResult { media_id, success: false, cleaned_count: 0, error: Some(text) },
        ),
    }
}

/// A batch in progress: one folder is being purged and its answer is awaited.
pub struct PendingClean {
    media_ids: Vec<i64>,
    results: Vec<CleanResult>,
    succeeded: usize,
    total_cleaned: i32,
}

/// What follows an answered purge.
pub enum BatchProgress {
    /// Another folder is to be purged.
    Next(PendingClean),
    /// The batch is complete.
    Done(BatchCleanResult),
}

impl View for PendingClean {
    type V = BatchState;

    closed spec fn view(&self) -> BatchState {
        BatchState { media_ids: self.media_ids@, records: records_of(self.results@) }
    }
}

/// Where a step of a batch stands, as plain values.
pub open spec fn progress_of(progress: BatchProgress) -> BatchOutcome {
    match progress {
        BatchProgress::Next(pending) => BatchOutcome::Next(pending@),
        BatchProgress::Done(batch) => BatchOutcome::Done(batch@),
    }
}

/// Where the result of [`PendingClean::answer`] stands, as plain values.
pub open spec fn outcome_of(r: Result<BatchProgress, ApiError>) -> BatchOutcome {
    match r {
        Ok(progress) => progress_of(progress),
        Err(e) => BatchOutcome::Failed(e),
    }
}

/// Begins a batch over the folders `media_ids`.
pub fn start_batch(media_ids: Vec<i64>) -> (progress: BatchProgress)
    ensures
        progress_of(progress) == begin_batch(media_ids@),
{
    let results: Vec<CleanResult> = Vec::new();
    proof {
        let none = records_of(results@);
        assert(none =~= Seq::<CleanRecord>::empty());
        assert(none.filter(|r: CleanRecord| r.success) =~= Seq::<CleanRecord>::empty());
    }
    if media_ids.len() == 0 {
        BatchProgress::Done(
            BatchCleanResult {
                results,
                summary: CleanSummary { total: 0, success: 0, failure: 0, total_cleaned: 0 },
            },
        )
    } else {
        BatchProgress::Next(PendingClean { media_ids, results, succeeded: 0, total_cleaned: 0 })
    }
}

impl PendingClean {
    #[verifier::type_invariant]
    spec fn consistent(self) -> bool {
        &&& self.results.len() < self.media_ids.len()
        &&& self.succeeded == success_count(records_of(self.results@))
        &&& self.total_cleaned == cleaned_sum(records_of(self.results@))
    }

    /// The folder whose purge is awaited.
    pub fn media_id(&self) -> (id: i64)
        ensures
            self@.records.len() < self@.media_ids.len(),
            id == awaited_folder(self@),
    {
        proof {
            use_type_invariant(self);
        }
        self.media_ids[self.results.len()]
    }

    /// Tests whether [`PendingClean::answer`] can take `reply`.
    pub fn can_take(&self, reply: &Result<CleanResponse, ApiError>) -> (fits: bool)
        ensures
            fits == takes(self@, *reply),
    {
        proof {
            use_type_invariant(self);
        }
        let cleaned: i32 = match reply {
            Ok(resp) => if resp.code == 0 {
                match resp.data {
                    Some(n) => n,
                    None => 0,
                }
            } else {
                0
            },
            Err(_) => 0,
        };
        let sum: i64 = self.total_cleaned as i64 + cleaned as i64;
        i32::MIN as i64 <= sum && sum <= i32::MAX as i64
    }

    /// Takes the answer to the awaited purge and says what follows: another
    /// folder to purge, the finished batch, or the failure that ended it.
    pub fn answer(self, reply: Result<CleanResponse, ApiError>) -> (r: Result<
        BatchProgress,
        ApiError,
    >)
        requires
            takes(self@, reply),
        ensures
            outcome_of(r) == after_clean(self@, reply),
    {
        proof {
            use_type_invariant(&self);
        }
        let PendingClean { media_ids, results, succeeded, total_cleaned } = self;
        let mut results = results;
        let ghost before = records_of(results@);
        let media_id = media_ids[results.len()];
        match clean_outcome(media_id, reply) {
            Err(e) => Err(e),
            Ok(outcome) => {
                let succeeded = if outcome.success {
                    succeeded + 1
                } else {
                    succeeded
                };
                let ghost after = before.push(outcome@);
                proof {
                    assert(after.drop_last() =~= before);
                    before.lemma_filter_push(outcome@, |r: CleanRecord| r.success);
                    before.lemma_filter_len(|r: CleanRecord| r.success);
                    assert(records_of(results@.push(outcome)) =~= after);
                }
                let total_cleaned = total_cleaned + outcome.cleaned_count;
                results.push(outcome);
                if results.len() < media_ids.len() {
                    Ok(
                        BatchProgress::Next(
                            PendingClean { media_ids, results, succeeded, total_cleaned },
                        ),
                    )
                } else {
                    let total = results.len();
                    Ok(
                        BatchProgress::Done(
                            BatchCleanResult {
                                results,
                                summary: CleanSummary {
                                    total,
                                    success: succeeded,
                                    failure: total - succeeded,
                                    total_cleaned,
                                },
                            },
                        ),
                    )
                }
            },
        }
    }
}

/// A batch records one outcome per folder, each at the place of its folder,
/// whether the purge succeeded or the platform reported a failure; after the
/// last folder it is complete, with the totals over all outcomes.
pub proof fn lemma_batch_records_every_folder(
    media_ids: Seq<i64>,
    replies: Seq<Result<CleanResponse, ApiError>>,
)
    requires
        replies.len() <= media_ids.len(),
        forall|i: int| 0 <= i < replies.len() ==> !aborts(#[trigger] replies[i]),
    ensures
        after_cleans(begin_batch(media_ids), replies) == if replies.len() < media_ids.len() {
            BatchOutcome::Next(BatchState { media_ids, records: recorded(media_ids, replies) })
        } else {
            BatchOutcome::Done(
                BatchRecord {
                    records: recorded(media_ids, replies),
                    summary: totals(recorded(media_ids, replies)),
                },
            )
        },
    decreases replies.len(),
{
    if replies.len() == 0 {
        assert(recorded(media_ids, replies) =~= Seq::<CleanRecord>::empty());
    } else {
        let before = replies.drop_last();
        assert forall|i: int| 0 <= i < before.len() implies !aborts(#[trigger] before[i]) by {
            assert(before[i] == replies[i]);
        }
        lemma_batch_records_every_folder(media_ids, before);
        assert(recorded(media_ids, replies) =~= recorded(media_ids, before).push(
            record_of(media_ids[before.len() as int], replies.last()),
        ));
    }
}

/// A failure to reach the platform or to read its answer ends the batch at
/// once, whatever was recorded before and whatever is answered later.
pub proof fn lemma_unread_answer_ends_batch(
    media_ids: Seq<i64>,
    replies: Seq<Result<CleanResponse, ApiError>>,
    failure: ApiError,
    later: Seq<Result<CleanResponse, ApiError>>,
)
    requires
        replies.len() < media_ids.len(),
        forall|i: int| 0 <= i < replies.len() ==> !aborts(#[trigger] replies[i]),
        !failure.is_remote(),
    ensures
        after_cleans(
            begin_batch(media_ids),
            replies.push(Err::<CleanResponse, ApiError>(failure)) + later,
        ) == BatchOutcome::Failed(failure),
    decreases later.len(),
{
    let all = replies.push(Err::<CleanResponse, ApiError>(failure)) + later;
    if later.len() == 0 {
        lemma_batch_records_every_folder(media_ids, replies);
        assert(all.drop_last() =~= replies);
    } else {
        lemma_unread_answer_ends_batch(media_ids, replies, failure, later.drop_last());
        assert(all.drop_last() =~= replies.push(Err::<CleanResponse, ApiError>(failure))
            + later.drop_last());
    }
}

/// Every outcome counts either as a success or as a failure: the totals of a
/// batch whose sum of purged entries lies within its range add up.
pub proof fn lemma_totals_account_for_all(records: Seq<CleanRecord>)
    requires
        records.len() <= usize::MAX,
        i32::MIN <= cleaned_sum(records) <= i32::MAX,
    ensures
        totals(records).sums_up(records),
        totals(records).success + totals(records).failure == totals(records).total,
        totals(records).failure == records.filter(|r: CleanRecord| !r.success).len(),
{
    lemma_filter_partition(records);
}

/// The outcomes that succeeded and those that failed make up all outcomes.
proof fn lemma_filter_partition(records: Seq<CleanRecord>)
    ensures
        records.filter(|r: CleanRecord| r.success).len() + records.filter(
            |r: CleanRecord| !r.success,
        ).len() == records.len(),
    decreases records.len(),
{
    let ok = |r: CleanRecord| r.success;
    let bad = |r: CleanRecord| !r.success;
    if records.len() == 0 {
        assert(records.filter(ok) =~= Seq::<CleanRecord>::empty());
        assert(records.filter(bad) =~= Seq::<CleanRecord>::empty());
    } else {
        let rest = records.drop_last();
        lemma_filter_partition(rest);
        assert(records =~= rest.push(records.last()));
        rest.lemma_filter_push(records.last(), ok);
        rest.lemma_filter_push(records.last(), bad);
    }
}

} // verus!
