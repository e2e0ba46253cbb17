//! Reordering the folders of a user.
//!
//! The platform keeps its built-in default folder first. A wanted order is
//! therefore checked against the current listing before it is submitted:
//! when the listing has a default folder, the order must begin with it and
//! go on with folders of the user only; when it has none, the order must
//! name folders of the user only. An order need not name every folder.

use vstd::prelude::*;
use vstd::string::*;
use crate::error::{ApiError, soften};
use crate::folder::{
    classify, has_default, is_default_position, is_user_folder_id, lemma_default_position_unique,
    lemma_user_folder_ids_hold, user_folder_ids, FavoriteFolder,
};
use crate::response::{remote_failure, SortResponse};
use crate::text::{nat_text, push_nat};

verus! {

/// The outcome of a request to reorder the folders.
#[derive(Debug, Clone, PartialEq, Eq)]
pub struct SortResult {
    pub success: bool,
    pub message: String,
    /// Number of folders put in order; zero unless the request succeeded.
    pub sorted_count: usize,
    /// The order that was accepted; empty unless the request succeeded.
    pub folder_ids: Vec<i64>,
}

/// What the check of a wanted order found.
#[derive(Debug, Clone, Copy, PartialEq, Eq, Structural)]
pub enum SortVerdict {
    /// The order may be submitted.
    Accepted,
    /// The listing has a default folder and the order does not begin with it.
    DefaultNotFirst,
    /// The order names something that is not a folder of the user.
    UnknownFolder,
}

/// Text of the refusal of an order that does not begin with the default folder.
pub const DEFAULT_NOT_FIRST: &'static str = "默认收藏夹必须位于排序列表的第一位";

/// Text of the refusal of an order that names an unknown folder.
pub const UNKNOWN_FOLDER: &'static str = "排序列表包含无效的收藏夹ID";

/// Opening of the text of a successful reordering, before the number of folders.
pub const SORTED_PREFIX: &'static str = "成功排序 ";

/// Close of the text of a successful reordering, after the number of folders.
pub const SORTED_SUFFIX: &'static str = " 个收藏夹";

/// Whether every identifier of `ids` from place `from` on names a folder of the user.
pub open spec fn all_user_folders(folders: Seq<FavoriteFolder>, ids: Seq<i64>, from: int) -> bool {
    forall|k: int| from <= k < ids.len() ==> is_user_folder_id(folders, #[trigger] ids[k])
}

/// Whether `ids` begins with the identifier of the folder picked as default.
pub open spec fn begins_with_default(folders: Seq<FavoriteFolder>, ids: Seq<i64>) -> bool {
    ids.len() > 0 && exists|i: int| is_default_position(folders, i) && folders[i].id == ids[0]
}

/// The verdict on a wanted order `ids`, given the current listing.
pub open spec fn sort_verdict(folders: Seq<FavoriteFolder>, ids: Seq<i64>) -> SortVerdict {
    if has_default(folders) {
        if !begins_with_default(folders, ids) {
            SortVerdict::DefaultNotFirst
        } else if all_user_folders(folders, ids, 1) {
            SortVerdict::Accepted
        } else {
            SortVerdict::UnknownFolder
        }
    } else if all_user_folders(folders, ids, 0) {
        SortVerdict::Accepted
    } else {
        SortVerdict::UnknownFolder
    }
}

/// The text that reports `n` folders put in order.
pub open spec fn sorted_text(n: nat) -> Seq<char> {
    SORTED_PREFIX@ + nat_text(n) + SORTED_SUFFIX@
}

impl SortResult {
    /// Whether this outcome reports a refusal or failure with the given text.
    pub open spec fn is_failure(self, text: Seq<char>) -> bool {
        &&& !self.success
        &&& self.message@ == text
        &&& self.sorted_count == 0
        &&& self.folder_ids@ == Seq::<i64>::empty()
    }

    /// Whether this outcome reports that the order `ids` was put in place.
    pub open spec fn is_success(self, ids: Seq<i64>) -> bool {
        &&& self.success
        &&& self.message@ == sorted_text(ids.len())
        &&& self.sorted_count == ids.len()
        &&& self.folder_ids@ == ids
    }
}

/// Whether `id` is among `ids`.
pub fn holds_id(ids: &Vec<i64>, id: i64) -> (held: bool)
    ensures
        held == ids@.contains(id),
{
    let mut i: usize = 0;
    while i < ids.len()
        invariant
            i <= ids.len(),
            forall|j: int| 0 <= j < i ==> ids@[j] != id,
        decreases ids.len() - i,
    {
        if ids[i] == id {
            return true;
        }
        i += 1;
    }
    false
}

/// Checks a wanted order against the current listing.
pub fn validate_sort(folders: &Vec<FavoriteFolder>, folder_ids: &Vec<i64>) -> (verdict:
    SortVerdict)
    ensures
        verdict == sort_verdict(folders@, folder_ids@),
{
    let directory = classify(folders);
    let mut from: usize = 0;
    match directory.default_id {
        Some(default_id) => {
            proof {
                let d = directory.default_at->0 as int;
                assert(is_default_position(folders@, d));
                assert forall|i: int| is_default_position(folders@, i) implies i == d by {
                    lemma_default_position_unique(folders@, i, d);
                }
            }
            if folder_ids.len() == 0 || folder_ids[0] != default_id {
                return SortVerdict::DefaultNotFirst;
            }
            from = 1;
            assert(begins_with_default(folders@, folder_ids@));
            assert(has_default(folders@));
        },
        None => {},
    }
    let ghost start = from as int;
    let mut k: usize = from;
    while k < folder_ids.len()
        invariant
            0 <= start <= k <= folder_ids.len(),
            start == if has_default(folders@) { 1int } else { 0int },
            has_default(folders@) ==> begins_with_default(folders@, folder_ids@),
            directory.user_ids@ == user_folder_ids(folders@),
            forall|j: int| start <= j < k ==> is_user_folder_id(folders@, #[trigger] folder_ids@[j]),
        decreases folder_ids.len() - k,
    {
        let known = holds_id(&directory.user_ids, folder_ids[k]);
        proof {
            lemma_user_folder_ids_hold(folders@, folder_ids@[k as int]);
        }
        if !known {
            return SortVerdict::UnknownFolder;
        }
        k += 1;
    }
    SortVerdict::Accepted
}

/// An order that passed the check and awaits the platform's answer.
pub struct SortSubmission {
    folder_ids: Vec<i64>,
}

/// What to do with a wanted order.
pub enum SortDecision {
    /// The order broke a rule; nothing is to be sent.
    Rejected(SortResult),
    /// The order is to be sent to the platform.
    Submit(SortSubmission),
}

/// Builds the outcome of a refused or failed reordering.
fn failed_sort(message: String) -> (r: SortResult)
    ensures
        r.is_failure(message@),
{
    SortResult { success: false, message, sorted_count: 0, folder_ids: Vec::new() }
}

/// Decides whether the wanted order `folder_ids` may be sent, given the
/// current listing.
pub fn begin_sort(folders: &Vec<FavoriteFolder>, folder_ids: Vec<i64>) -> (decision: SortDecision)
    ensures
        match sort_verdict(folders@, folder_ids@) {
            SortVerdict::Accepted => decision matches SortDecision::Submit(submission)
                && submission.ids() == folder_ids@,
            SortVerdict::DefaultNotFirst => decision matches SortDecision::Rejected(r)
                && r.is_failure(DEFAULT_NOT_FIRST@),
            SortVerdict::UnknownFolder => decision matches SortDecision::Rejected(r)
                && r.is_failure(UNKNOWN_FOLDER@),
        },
{
    match validate_sort(folders, &folder_ids) {
        SortVerdict::Accepted => SortDecision::Submit(SortSubmission { folder_ids }),
        SortVerdict::DefaultNotFirst => SortDecision::Rejected(
            failed_sort(String::from_str(DEFAULT_NOT_FIRST)),
        ),
        SortVerdict::UnknownFolder => SortDecision::Rejected(
            failed_sort(String::from_str(UNKNOWN_FOLDER)),
        ),
    }
}

impl SortSubmission {
    /// The order to be sent.
    pub closed spec fn ids(self) -> Seq<i64> {
        self.folder_ids@
    }

    /// The order to be sent.
    pub fn folder_ids(&self) -> (ids: &Vec<i64>)
        ensures
            ids@ == self.ids(),
    {
        &self.folder_ids
    }

    /// Takes the platform's answer and reports the outcome.
    ///
    /// A zero status code is success. A failure reported by the platform is
    /// an unsuccessful outcome that carries its text. A failure to reach the
    /// platform or to read its answer is handed back as a failure.
    pub fn finish(self, reply: Result<SortResponse, ApiError>) -> (r: Result<SortResult, ApiError>)
        ensures
            match reply {
                Ok(resp) => if resp.code == 0 {
                    r matches Ok(outcome) && outcome.is_success(self.ids())
                } else {
                    r matches Ok(outcome) && outcome.is_failure(remote_failure(resp.message).text())
                },
                Err(e) => if e.is_remote() {
                    r matches Ok(outcome) && outcome.is_failure(e.text())
                } else {
                    r == Err::<SortResult, ApiError>(e)
                },
            },
    {
        let done = match reply {
            Ok(resp) => resp.into_done(),
            Err(e) => Err(e),
        };
        match soften(done) {
            Err(e) => Err(e),
            Ok(Err(text)) => Ok(failed_sort(text)),
            Ok(Ok(())) => {
                let n = self.folder_ids.len();
                let mut message = String::from_str(SORTED_PREFIX);
                push_nat(&mut message, n as u64);
                message.append(SORTED_SUFFIX);
                Ok(SortResult { success: true, message, sorted_count: n, folder_ids: self.folder_ids })
            },
        }
    }
}

} // verus!
