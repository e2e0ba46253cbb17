//! Favorited videos as the platform lists them.

use vstd::prelude::*;

verus! {

/// The uploader of a video.
#[derive(Debug, Clone, PartialEq, Eq)]
pub struct VideoUpper {
    pub mid: i64,
    pub name: String,
    pub face: String,
    pub jump_link: String,
    pub followed: bool,
    pub vip_type: i32,
    pub vip_status: i32,
}

/// One favorited video inside a folder.
#[derive(Debug, Clone, PartialEq, Eq)]
pub struct FavoriteResource {
    pub id: i64,
    pub resource_type: i32,
    pub title: String,
    pub cover: String,
    pub intro: String,
    pub duration: i32,
    pub uri: String,
    pub bv_id: String,
    pub bvid: String,
    pub aid: Option<i64>,
    pub mid: Option<i64>,
    pub attr: i32,
    pub ctime: i64,
    pub pubtime: i64,
    /// When the video was added to the folder; listings run from the newest down.
    pub fav_time: i64,
    pub state: Option<i32>,
    pub upper: Option<VideoUpper>,
    pub link: String,
}

} // verus!
