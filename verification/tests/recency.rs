use bilibili_fav_cleaner::recency::sort_newest_first;
use bilibili_fav_cleaner::resource::FavoriteResource;

fn video(id: i64, fav_time: i64) -> FavoriteResource {
    FavoriteResource {
        id,
        resource_type: 2,
        title: format!("video {}", id),
        cover: String::new(),
        intro: String::new(),
        duration: 60,
        uri: String::new(),
        bv_id: String::new(),
        bvid: format!("BV{}", id),
        aid: None,
        mid: None,
        attr: 0,
        ctime: 0,
        pubtime: 0,
        fav_time,
        state: None,
        upper: None,
        link: String::new(),
    }
}

fn ids(items: &Vec<FavoriteResource>) -> Vec<i64> {
    items.iter().map(|r| r.id).collect()
}

#[test]
fn sorts_from_the_newest_down() {
    let mut items = vec![video(1, 10), video(2, 30), video(3, 20)];
    sort_newest_first(&mut items);
    assert_eq!(ids(&items), vec![2, 3, 1]);
}

#[test]
fn keeps_the_order_of_videos_added_together() {
    let mut items = vec![video(1, 5), video(2, 9), video(3, 5), video(4, 9), video(5, 5)];
    sort_newest_first(&mut items);
    assert_eq!(ids(&items), vec![2, 4, 1, 3, 5]);
}

#[test]
fn leaves_an_ordered_listing_alone() {
    let mut items = vec![video(1, 9), video(2, 7), video(3, 7), video(4, 1)];
    let before = items.clone();
    sort_newest_first(&mut items);
    assert_eq!(items, before);
}

#[test]
fn reverses_an_ascending_listing() {
    let mut items: Vec<FavoriteResource> = (0..50).map(|i| video(i, i)).collect();
    sort_newest_first(&mut items);
    let expected: Vec<i64> = (0..50).rev().collect();
    assert_eq!(ids(&items), expected);
}

#[test]
fn sorts_nothing_and_one() {
    let mut none: Vec<FavoriteResource> = Vec::new();
    sort_newest_first(&mut none);
    assert!(none.is_empty());
    let mut one = vec![video(8, 3)];
    sort_newest_first(&mut one);
    assert_eq!(ids(&one), vec![8]);
}

#[test]
fn agrees_with_the_standard_stable_sort() {
    let mut items: Vec<FavoriteResource> =
        (0..200).map(|i| video(i, (i * 7919) % 23 - 11)).collect();
    let mut expected = items.clone();
    expected.sort_by(|a, b| b.fav_time.cmp(&a.fav_time));
    sort_newest_first(&mut items);
    assert_eq!(items, expected);
}

#[test]
fn handles_extreme_moments() {
    let mut items = vec![video(1, i64::MIN), video(2, i64::MAX), video(3, 0)];
    sort_newest_first(&mut items);
    assert_eq!(ids(&items), vec![2, 3, 1]);
}
