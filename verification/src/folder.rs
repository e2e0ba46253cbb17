//! Favorite folders and the rule that singles out the built-in default folder.

use vstd::prelude::*;
use vstd::string::*;
use crate::text::{chars_of, contains_text, same_chars, text_contains};

verus! {

/// A named collection of favorited videos, as the platform lists it.
#[derive(Debug, Clone, PartialEq, Eq)]
pub struct FavoriteFolder {
    pub id: i64,
    pub fid: i64,
    pub mid: i64,
    pub title: String,
    pub cover: String,
    pub intro: String,
    pub attr: i32,
    pub fav_state: i32,
    pub media_count: i32,
    pub ctime: i64,
    pub mtime: i64,
    pub state: i32,
    pub is_top: bool,
}

/// The title that the platform reserves for the built-in default folder.
pub const DEFAULT_FOLDER_TITLE: &'static str = "默认收藏夹";

/// The localized word for "default"; a title that holds it marks a default folder.
pub const DEFAULT_TITLE_MARK: &'static str = "默认";

/// The classification rule: a folder counts as the default folder when its
/// `attr` is zero, its title is the reserved one, or its title holds the mark.
pub open spec fn is_default(folder: FavoriteFolder) -> bool {
    ||| folder.attr == 0
    ||| folder.title@ == DEFAULT_FOLDER_TITLE@
    ||| contains_text(folder.title@, DEFAULT_TITLE_MARK@)
}

/// Decides whether `folder` is classified as the default folder.
pub fn is_default_folder(folder: &FavoriteFolder) -> (marked: bool)
    ensures
        marked == is_default(*folder),
{
    if folder.attr == 0 {
        return true;
    }
    let title = chars_of(folder.title.as_str());
    let reserved = chars_of(DEFAULT_FOLDER_TITLE);
    if same_chars(&title, &reserved) {
        return true;
    }
    let mark = chars_of(DEFAULT_TITLE_MARK);
    text_contains(&title, &mark)
}

/// Whether the folder at place `i` of a listing is the one picked as default:
/// the first that the rule marks.
pub open spec fn is_default_position(folders: Seq<FavoriteFolder>, i: int) -> bool {
    &&& 0 <= i < folders.len()
    &&& is_default(folders[i])
    &&& forall|j: int| 0 <= j < i ==> !is_default(folders[j])
}

/// Whether the rule marks some folder of the listing.
pub open spec fn has_default(folders: Seq<FavoriteFolder>) -> bool {
    exists|i: int| 0 <= i < folders.len() && is_default(folders[i])
}

/// Whether the rule marks at most one folder of the listing, as the platform promises.
pub open spec fn at_most_one_marked(folders: Seq<FavoriteFolder>) -> bool {
    forall|i: int, j: int|
        0 <= i < folders.len() && 0 <= j < folders.len() && is_default(folders[i]) && is_default(
            folders[j],
        ) ==> i == j
}

/// Whether `id` names a folder of the listing that the rule does not mark.
pub open spec fn is_user_folder_id(folders: Seq<FavoriteFolder>, id: i64) -> bool {
    exists|j: int| 0 <= j < folders.len() && !is_default(folders[j]) && folders[j].id == id
}

/// The identifiers of the folders that the rule does not mark, in listing order.
pub open spec fn user_folder_ids(folders: Seq<FavoriteFolder>) -> Seq<i64> {
    folders.filter(|f: FavoriteFolder| !is_default(f)).map_values(|f: FavoriteFolder| f.id)
}

/// A listing split into its default folder and the folders of the user.
#[derive(Debug, Clone, PartialEq, Eq)]
pub struct FolderDirectory {
    /// Place in the listing of the folder picked as default, if the rule marks any.
    pub default_at: Option<usize>,
    /// Identifier of that folder.
    pub default_id: Option<i64>,
    /// Identifiers of the folders that the rule does not mark, in listing order.
    pub user_ids: Vec<i64>,
}

/// Finds the folder picked as default: the first one that the rule marks.
pub fn find_default(folders: &Vec<FavoriteFolder>) -> (found: Option<usize>)
    ensures
        match found {
            Some(i) => is_default_position(folders@, i as int),
            None => !has_default(folders@),
        },
{
    let mut i: usize = 0;
    while i < folders.len()
        invariant
            i <= folders.len(),
            forall|j: int| 0 <= j < i ==> !is_default(folders@[j]),
        decreases folders.len() - i,
    {
        if is_default_folder(&folders[i]) {
            return Some(i);
        }
        i += 1;
    }
    None
}

/// Splits a listing into its default folder and the folders of the user.
pub fn classify(folders: &Vec<FavoriteFolder>) -> (directory: FolderDirectory)
    ensures
        match directory.default_at {
            Some(i) => is_default_position(folders@, i as int) && directory.default_id == Some(
                folders@[i as int].id,
            ),
            None => !has_default(folders@) && directory.default_id is None,
        },
        directory.user_ids@ == user_folder_ids(folders@),
{
    let default_at = find_default(folders);
    let default_id = match default_at {
        Some(i) => Some(folders[i].id),
        None => None,
    };
    let ghost unmarked = |f: FavoriteFolder| !is_default(f);
    let ghost id_of = |f: FavoriteFolder| f.id;
    let mut user_ids: Vec<i64> = Vec::new();
    let mut i: usize = 0;
    while i < folders.len()
        invariant
            i <= folders.len(),
            unmarked == |f: FavoriteFolder| !is_default(f),
            id_of == |f: FavoriteFolder| f.id,
            user_ids@ == folders@.take(i as int).filter(unmarked).map_values(id_of),
        decreases folders.len() - i,
    {
        let marked = is_default_folder(&folders[i]);
        proof {
            let seen = folders@.take(i as int);
            assert(folders@.take(i + 1) =~= seen.push(folders@[i as int]));
            seen.lemma_filter_push(folders@[i as int], unmarked);
            if !marked {
                seen.filter(unmarked).lemma_push_map_commute(id_of, folders@[i as int]);
            }
        }
        if !marked {
            user_ids.push(folders[i].id);
        }
        i += 1;
    }
    assert(folders@.take(i as int) =~= folders@);
    FolderDirectory { default_at, default_id, user_ids }
}

/// At most one folder of a listing is picked as default.
pub proof fn lemma_default_position_unique(folders: Seq<FavoriteFolder>, i: int, j: int)
    requires
        is_default_position(folders, i),
        is_default_position(folders, j),
    ensures
        i == j,
{
    if i < j {
        assert(!is_default(folders[i]));
    } else if j < i {
        assert(!is_default(folders[j]));
    }
}

/// In a listing where the rule marks at most one folder, the folder picked
/// as default is the only one marked, and every other folder is a folder of
/// the user.
pub proof fn lemma_single_default_splits_listing(folders: Seq<FavoriteFolder>, i: int)
    requires
        at_most_one_marked(folders),
        is_default_position(folders, i),
    ensures
        forall|j: int| 0 <= j < folders.len() && j != i ==> !is_default(folders[j]),
        forall|j: int|
            0 <= j < folders.len() && j != i ==> is_user_folder_id(folders, #[trigger] folders[j].id),
{
    assert forall|j: int| 0 <= j < folders.len() && j != i implies !is_default(folders[j])
        && is_user_folder_id(folders, #[trigger] folders[j].id) by {
        if is_default(folders[j]) {
            assert(i == j);
        }
    }
}

/// An identifier names a folder of the user exactly when it is among the
/// identifiers that [`user_folder_ids`] lists.
pub proof fn lemma_user_folder_ids_hold(folders: Seq<FavoriteFolder>, id: i64)
    ensures
        user_folder_ids(folders).contains(id) <==> is_user_folder_id(folders, id),
{
    let unmarked = |f: FavoriteFolder| !is_default(f);
    let id_of = |f: FavoriteFolder| f.id;
    let kept = folders.filter(unmarked);
    let ids = kept.map_values(id_of);
    assert(ids == user_folder_ids(folders));
    if ids.contains(id) {
        let k = choose|k: int| 0 <= k < ids.len() && ids[k] == id;
        assert(kept.contains(kept[k]));
        folders.lemma_filter_contains_rev(unmarked, kept[k]);
        folders.lemma_filter_pred(unmarked, k);
        let j = choose|j: int| 0 <= j < folders.len() && folders[j] == kept[k];
        assert(!is_default(folders[j]) && folders[j].id == id);
    }
    if is_user_folder_id(folders, id) {
        let j = choose|j: int|
            0 <= j < folders.len() && !is_default(folders[j]) && folders[j].id == id;
        assert(unmarked(folders[j]));
        folders.lemma_filter_contains(unmarked, j);
        let k = choose|k: int| 0 <= k < kept.len() && kept[k] == folders[j];
        assert(ids[k] == id);
    }
}

} // verus!
