//! The platform's answers, and what each of them amounts to.
//!
//! Every answer is an envelope with a status code, a message and a payload.
//! A zero code means success; any other code is a failure that carries the
//! platform's message.

use vstd::prelude::*;
use vstd::string::*;
use crate::error::{ApiError, NO_DATA};
use crate::folder::FavoriteFolder;
use crate::resource::FavoriteResource;

verus! {

/// A JSON value of `serde_json`, carried along unread.
#[verifier::external_type_specification]
#[verifier::external_body]
pub struct ExJsonValue(serde_json::Value);

/// Answer to a request for the list of folders.
#[derive(Debug, Clone, PartialEq, Eq)]
pub struct FavoriteListResponse {
    pub code: i32,
    pub message: String,
    pub ttl: i32,
    pub data: Option<FavoriteListData>,
}

/// Payload of a folder list.
#[derive(Debug, Clone, PartialEq, Eq)]
pub struct FavoriteListData {
    pub count: i32,
    pub list: Vec<FavoriteFolder>,
    pub season: Option<serde_json::Value>,
}

/// Answer to a request for one page of a folder's videos.
#[derive(Debug, Clone, PartialEq, Eq)]
pub struct FavoriteDetailResponse {
    pub code: i32,
    pub message: String,
    pub ttl: i32,
    pub data: Option<FavoriteDetailData>,
}

/// Payload of one page of a folder's videos.
#[derive(Debug, Clone, PartialEq, Eq)]
pub struct FavoriteDetailData {
    pub info: FavoriteFolder,
    pub medias: Option<Vec<FavoriteResource>>,
    pub has_more: bool,
}

/// Answer to a request to purge a folder's invalid entries.
#[derive(Debug, Clone, PartialEq, Eq)]
pub struct CleanResponse {
    pub code: i32,
    pub message: String,
    pub data: Option<i32>,
}

/// Answer to a request to reorder the folders.
#[derive(Debug, Clone, PartialEq, Eq)]
pub struct SortResponse {
    pub code: i32,
    pub message: String,
    pub ttl: i32,
    pub data: Option<serde_json::Value>,
}

/// Answer to a request to move videos between folders.
#[derive(Debug, Clone, PartialEq, Eq)]
pub struct MoveResponse {
    pub code: i32,
    pub message: String,
    pub ttl: i32,
    pub data: Option<i32>,
}

/// The failure that a non-zero status code with the given message stands for.
pub open spec fn remote_failure(message: String) -> ApiError {
    ApiError::Remote { page: None, message }
}

impl FavoriteListResponse {
    /// The folders this answer lists: none when the payload is absent.
    pub open spec fn folders(self) -> Seq<FavoriteFolder> {
        match self.data {
            Some(data) => data.list@,
            None => Seq::empty(),
        }
    }

    /// Turns the answer into the listed folders, or into the failure it reports.
    pub fn into_folders(self) -> (r: Result<Vec<FavoriteFolder>, ApiError>)
        ensures
            self.code == 0 ==> r is Ok && r->Ok_0@ == self.folders(),
            self.code != 0 ==> r == Err::<Vec<FavoriteFolder>, ApiError>(
                remote_failure(self.message),
            ),
    {
        if self.code == 0 {
            match self.data {
                Some(data) => Ok(data.list),
                None => Ok(Vec::new()),
            }
        } else {
            Err(ApiError::Remote { page: None, message: self.message })
        }
    }
}

impl FavoriteDetailResponse {
    /// The videos this answer lists: none when the payload or its list is absent.
    pub open spec fn videos(self) -> Seq<FavoriteResource> {
        match self.data {
            Some(data) => match data.medias {
                Some(medias) => medias@,
                None => Seq::empty(),
            },
            None => Seq::empty(),
        }
    }

    /// Turns the answer into its payload, or into the failure it reports. A
    /// successful answer without a payload is a decoding failure.
    pub fn into_detail(self) -> (r: Result<FavoriteDetailData, ApiError>)
        ensures
            self.code == 0 && self.data is Some ==> r == Ok::<FavoriteDetailData, ApiError>(
                self.data->0,
            ),
            self.code == 0 && self.data is None ==> (r matches Err(ApiError::Decode(detail))
                && detail@ == NO_DATA@),
            self.code != 0 ==> r == Err::<FavoriteDetailData, ApiError>(
                remote_failure(self.message),
            ),
    {
        if self.code == 0 {
            match self.data {
                Some(data) => Ok(data),
                None => Err(ApiError::Decode(String::from_str(NO_DATA))),
            }
        } else {
            Err(ApiError::Remote { page: None, message: self.message })
        }
    }

    /// Turns the answer into the videos it lists, or into the failure it reports.
    pub fn into_videos(self) -> (r: Result<Vec<FavoriteResource>, ApiError>)
        ensures
            self.code == 0 ==> r is Ok && r->Ok_0@ == self.videos(),
            self.code != 0 ==> r == Err::<Vec<FavoriteResource>, ApiError>(
                remote_failure(self.message),
            ),
    {
        if self.code == 0 {
            match self.data {
                Some(data) => match data.medias {
                    Some(medias) => Ok(medias),
                    None => Ok(Vec::new()),
                },
                None => Ok(Vec::new()),
            }
        } else {
            Err(ApiError::Remote { page: None, message: self.message })
        }
    }
}

impl CleanResponse {
    /// The number of entries this answer reports as purged: zero when it names none.
    pub open spec fn cleaned(self) -> i32 {
        match self.data {
            Some(n) => n,
            None => 0,
        }
    }

    /// Turns the answer into the number of purged entries, or into the failure it reports.
    pub fn into_cleaned(self) -> (r: Result<i32, ApiError>)
        ensures
            r == if self.code == 0 {
                Ok::<i32, ApiError>(self.cleaned())
            } else {
                Err::<i32, ApiError>(remote_failure(self.message))
            },
    {
        if self.code == 0 {
            match self.data {
                Some(n) => Ok(n),
                None => Ok(0),
            }
        } else {
            Err(ApiError::Remote { page: None, message: self.message })
        }
    }
}

impl SortResponse {
    /// Turns the answer into success, or into the failure it reports.
    pub fn into_done(self) -> (r: Result<(), ApiError>)
        ensures
            r == if self.code == 0 {
                Ok::<(), ApiError>(())
            } else {
                Err::<(), ApiError>(remote_failure(self.message))
            },
    {
        if self.code == 0 {
            Ok(())
        } else {
            Err(ApiError::Remote { page: None, message: self.message })
        }
    }
}

impl MoveResponse {
    /// Turns the answer into success, or into the failure it reports.
    pub fn into_done(self) -> (r: Result<(), ApiError>)
        ensures
            r == if self.code == 0 {
                Ok::<(), ApiError>(())
            } else {
                Err::<(), ApiError>(remote_failure(self.message))
            },
    {
        if self.code == 0 {
            Ok(())
        } else {
            Err(ApiError::Remote { page: None, message: self.message })
        }
    }
}

} // verus!
