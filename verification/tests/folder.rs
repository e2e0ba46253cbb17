use bilibili_fav_cleaner::folder::{
    classify, find_default, is_default_folder, FavoriteFolder, FolderDirectory,
    DEFAULT_FOLDER_TITLE, DEFAULT_TITLE_MARK,
};

fn folder(id: i64, attr: i32, title: &str) -> FavoriteFolder {
    FavoriteFolder {
        id,
        fid: id / 100,
        mid: 42,
        title: title.to_string(),
        cover: String::new(),
        intro: String::new(),
        attr,
        fav_state: 0,
        media_count: 3,
        ctime: 0,
        mtime: 0,
        state: 0,
        is_top: false,
    }
}

#[test]
fn reserved_words_are_the_platform_s() {
    assert_eq!(DEFAULT_FOLDER_TITLE, "默认收藏夹");
    assert_eq!(DEFAULT_TITLE_MARK, "默认");
}

#[test]
fn zero_attr_marks_the_default_folder() {
    assert!(is_default_folder(&folder(1, 0, "DefaultFav")));
}

#[test]
fn reserved_title_marks_the_default_folder() {
    assert!(is_default_folder(&folder(1, 1, "默认收藏夹")));
}

#[test]
fn title_holding_the_mark_marks_the_default_folder() {
    assert!(is_default_folder(&folder(1, 22, "我的默认列表")));
}

#[test]
fn other_folders_are_not_marked() {
    assert!(!is_default_folder(&folder(2, 1, "Music")));
    assert!(!is_default_folder(&folder(2, 1, "")));
    assert!(!is_default_folder(&folder(2, 1, "默")));
    assert!(!is_default_folder(&folder(2, 1, "认默")));
}

#[test]
fn find_default_picks_the_first_marked() {
    let folders = vec![folder(5, 1, "Music"), folder(6, 0, "A"), folder(7, 0, "B")];
    assert_eq!(find_default(&folders), Some(1));
}

#[test]
fn find_default_on_a_listing_without_one() {
    let folders = vec![folder(5, 1, "Music"), folder(6, 2, "Talks")];
    assert_eq!(find_default(&folders), None);
    assert_eq!(find_default(&Vec::new()), None);
}

#[test]
fn classify_splits_a_listing() {
    let folders = vec![
        folder(1, 0, "DefaultFav"),
        folder(2, 1, "Music"),
        folder(3, 1, "Talks"),
    ];
    assert_eq!(
        classify(&folders),
        FolderDirectory { default_at: Some(0), default_id: Some(1), user_ids: vec![2, 3] }
    );
}

#[test]
fn classify_marks_at_most_one_default() {
    let folders = vec![
        folder(9, 1, "Music"),
        folder(1, 0, "DefaultFav"),
        folder(4, 1, "默认备份"),
        folder(3, 1, "Talks"),
    ];
    let directory = classify(&folders);
    assert_eq!(directory.default_at, Some(1));
    assert_eq!(directory.default_id, Some(1));
    assert_eq!(directory.user_ids, vec![9, 3]);
}

#[test]
fn classify_without_default() {
    let folders = vec![folder(2, 1, "Music")];
    assert_eq!(
        classify(&folders),
        FolderDirectory { default_at: None, default_id: None, user_ids: vec![2] }
    );
}
