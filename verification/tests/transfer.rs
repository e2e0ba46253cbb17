use bilibili_fav_cleaner::error::ApiError;
use bilibili_fav_cleaner::folder::FavoriteFolder;
use bilibili_fav_cleaner::resource::{FavoriteResource, VideoUpper};
use bilibili_fav_cleaner::response::{FavoriteDetailData, MoveResponse};
use bilibili_fav_cleaner::transfer::{
    begin_move, calculate_move, resolve_videos, MoveDecision, MoveExecuteResult, MoveResult,
    MoveVideoInfo,
};

fn sized(id: i64, media_count: i32) -> FavoriteFolder {
    FavoriteFolder {
        id,
        fid: 0,
        mid: 42,
        title: format!("folder {}", id),
        cover: String::new(),
        intro: String::new(),
        attr: 1,
        fav_state: 0,
        media_count,
        ctime: 0,
        mtime: 0,
        state: 0,
        is_top: false,
    }
}

fn detail(id: i64, media_count: i32) -> FavoriteDetailData {
    FavoriteDetailData { info: sized(id, media_count), medias: None, has_more: false }
}

fn film(id: i64, uploader: Option<&str>) -> FavoriteResource {
    FavoriteResource {
        id,
        resource_type: 2,
        title: format!("film {}", id),
        cover: String::new(),
        intro: String::new(),
        duration: 100 + id as i32,
        uri: String::new(),
        bv_id: String::new(),
        bvid: format!("BV{}", id),
        aid: None,
        mid: None,
        attr: 0,
        ctime: 0,
        pubtime: 0,
        fav_time: 1000 - id,
        state: None,
        upper: uploader.map(|name| VideoUpper {
            mid: 7,
            name: name.to_string(),
            face: String::new(),
            jump_link: String::new(),
            followed: false,
            vip_type: 0,
            vip_status: 0,
        }),
        link: String::new(),
    }
}

fn shown(id: i64, uploader: Option<&str>) -> MoveVideoInfo {
    MoveVideoInfo {
        id,
        title: format!("film {}", id),
        bvid: format!("BV{}", id),
        upper: uploader.map(|name| name.to_string()),
        duration: 100 + id as i32,
    }
}

fn moved_ok() -> Result<MoveResponse, ApiError> {
    Ok(MoveResponse { code: 0, message: "0".to_string(), ttl: 1, data: Some(0) })
}

fn nothing(source: i64, target: i64, message: &str) -> MoveResult {
    MoveResult {
        src_media_id: source,
        tar_media_id: target,
        moved_count: 0,
        success_count: 0,
        fail_count: 0,
        message: Some(message.to_string()),
        videos: Some(vec![]),
    }
}

#[test]
fn full_target_ends_the_move_at_once() {
    match begin_move(10, 20, vec![1, 2, 3], &detail(10, 50), &detail(20, 1000)) {
        MoveDecision::Finished(result) => {
            assert_eq!(result, nothing(10, 20, "目标收藏夹已满（1000个视频上限）"))
        },
        MoveDecision::Transfer(_) => panic!("nothing can move"),
    }
}

#[test]
fn empty_source_ends_the_move_at_once() {
    match begin_move(10, 20, vec![1, 2, 3], &detail(10, 0), &detail(20, 5)) {
        MoveDecision::Finished(result) => assert_eq!(result, nothing(10, 20, "源收藏夹中没有视频")),
        MoveDecision::Transfer(_) => panic!("nothing can move"),
    }
}

#[test]
fn nothing_wanted_ends_the_move_at_once() {
    match begin_move(10, 20, vec![], &detail(10, 9), &detail(20, 5)) {
        MoveDecision::Finished(result) => assert_eq!(result, nothing(10, 20, "源收藏夹中没有视频")),
        MoveDecision::Transfer(_) => panic!("nothing can move"),
    }
}

#[test]
fn first_videos_in_the_caller_s_order_are_chosen() {
    let wanted = vec![9, 3, 7, 1, 5, 8, 2];
    match begin_move(10, 20, wanted, &detail(10, 10), &detail(20, 995)) {
        MoveDecision::Transfer(transfer) => {
            assert_eq!(transfer.wanted_listing(), 10);
            let ready = transfer.resolve(&Vec::new());
            assert_eq!(ready.ids(), &vec![9, 3, 7, 1, 5]);
        },
        MoveDecision::Finished(_) => panic!("five videos can move"),
    }
}

#[test]
fn whole_move_reports_what_was_moved() {
    let listing = vec![film(1, Some("ann")), film(2, None), film(3, Some("bob")), film(4, None)];
    let transfer = match begin_move(10, 20, vec![3, 99, 1], &detail(10, 4), &detail(20, 0)) {
        MoveDecision::Transfer(transfer) => transfer,
        MoveDecision::Finished(_) => panic!("three videos can move"),
    };
    let ready = transfer.resolve(&listing);
    assert_eq!(ready.ids(), &vec![3, 99, 1]);
    assert_eq!(
        ready.finish(moved_ok()),
        Ok(MoveResult {
            src_media_id: 10,
            tar_media_id: 20,
            moved_count: 3,
            success_count: 3,
            fail_count: 0,
            message: Some("成功移动 3 个视频".to_string()),
            videos: Some(vec![shown(3, Some("bob")), shown(1, Some("ann"))]),
        })
    );
}

fn ready_for_three() -> bilibili_fav_cleaner::transfer::ReadyMove {
    match begin_move(10, 20, vec![3, 2, 1], &detail(10, 4), &detail(20, 0)) {
        MoveDecision::Transfer(transfer) => transfer.resolve(&vec![film(1, None), film(2, None)]),
        MoveDecision::Finished(_) => panic!("three videos can move"),
    }
}

fn failed_three(message: &str) -> MoveResult {
    MoveResult {
        src_media_id: 10,
        tar_media_id: 20,
        moved_count: 0,
        success_count: 0,
        fail_count: 3,
        message: Some(message.to_string()),
        videos: Some(vec![]),
    }
}

#[test]
fn platform_refusal_is_a_failed_outcome() {
    let reply = Ok(MoveResponse { code: 11010, message: "内容不存在".to_string(), ttl: 1, data: None });
    assert_eq!(ready_for_three().finish(reply), Ok(failed_three("API错误: 内容不存在")));
}

#[test]
fn reported_remote_failure_is_a_failed_outcome() {
    let failure = ApiError::Remote { page: None, message: "稍后再试".to_string() };
    assert_eq!(ready_for_three().finish(Err(failure)), Ok(failed_three("API错误: 稍后再试")));
}

#[test]
fn unreachable_platform_fails_the_move() {
    let failure = ApiError::Transport("请求失败: timed out".to_string());
    assert_eq!(ready_for_three().finish(Err(failure.clone())), Err(failure));
}

#[test]
fn unreadable_answer_fails_the_move() {
    let failure = ApiError::Decode("解析响应失败: eof".to_string());
    assert_eq!(ready_for_three().finish(Err(failure.clone())), Err(failure));
}

#[test]
fn lookup_follows_the_order_of_the_identifiers() {
    let listing: Vec<FavoriteResource> = (1..=30).map(|id| film(id, Some("u"))).collect();
    let infos = resolve_videos(&vec![30, 1, 15], &listing);
    assert_eq!(infos, vec![shown(30, Some("u")), shown(1, Some("u")), shown(15, Some("u"))]);
}

#[test]
fn lookup_skips_what_the_listing_does_not_hold() {
    let listing = vec![film(1, None), film(2, None)];
    assert_eq!(resolve_videos(&vec![5, 2, 6], &listing), vec![shown(2, None)]);
    assert_eq!(resolve_videos(&vec![5], &Vec::new()), Vec::new());
    assert_eq!(resolve_videos(&Vec::new(), &listing), Vec::new());
}

#[test]
fn lookup_takes_the_first_of_a_repeated_identifier() {
    let mut twin = film(2, Some("late"));
    twin.title = "dup".to_string();
    let listing = vec![film(1, None), film(2, Some("early")), twin];
    assert_eq!(resolve_videos(&vec![2], &listing), vec![shown(2, Some("early"))]);
}

#[test]
fn lookup_repeats_a_repeated_request() {
    let listing = vec![film(1, None), film(2, None)];
    assert_eq!(resolve_videos(&vec![1, 1], &listing), vec![shown(1, None), shown(1, None)]);
}

#[test]
fn calculate_move_bounds_by_room_and_source() {
    let r = calculate_move(sized(10, 10), sized(20, 995));
    assert_eq!(r.movable_count, 5);
    assert!(r.can_move);
    assert_eq!(r.src_folder, sized(10, 10));
    assert_eq!(r.tar_folder, sized(20, 995));
    let all = calculate_move(sized(10, 10), sized(20, 3));
    assert_eq!(all.movable_count, 10);
}

#[test]
fn calculate_move_into_a_full_target() {
    let r = calculate_move(sized(10, 10), sized(20, 1000));
    assert_eq!(r.movable_count, 0);
    assert!(!r.can_move);
}

#[test]
fn calculate_move_from_an_empty_source() {
    let r = calculate_move(sized(10, 0), sized(20, 3));
    assert_eq!(r.movable_count, 0);
    assert!(!r.can_move);
}

#[test]
fn flat_outcome_holds_the_same_fields() {
    let flat = MoveExecuteResult {
        src_media_id: 1,
        tar_media_id: 2,
        moved_count: 1,
        message: "成功移动 1 个视频".to_string(),
        videos: vec![shown(4, None)],
    };
    assert_eq!(flat.clone(), flat);
}

#[test]
fn large_move_is_counted_in_decimal() {
    let wanted: Vec<i64> = (1..=1000).collect();
    let transfer = match begin_move(10, 20, wanted, &detail(10, 1000), &detail(20, 0)) {
        MoveDecision::Transfer(transfer) => transfer,
        MoveDecision::Finished(_) => panic!("a thousand videos can move"),
    };
    let result = transfer.resolve(&Vec::new()).finish(moved_ok()).unwrap();
    assert_eq!(result.moved_count, 1000);
    assert_eq!(result.message, Some("成功移动 1000 个视频".to_string()));
    assert_eq!(result.videos, Some(vec![]));
}
