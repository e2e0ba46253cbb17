use bilibili_fav_cleaner::error::ApiError;
use bilibili_fav_cleaner::folder::FavoriteFolder;
use bilibili_fav_cleaner::response::{
    CleanResponse, FavoriteDetailData, FavoriteDetailResponse, FavoriteListData,
    FavoriteListResponse, MoveResponse, SortResponse,
};

fn shelf(id: i64, title: &str) -> FavoriteFolder {
    FavoriteFolder {
        id,
        fid: 0,
        mid: 42,
        title: title.to_string(),
        cover: String::new(),
        intro: String::new(),
        attr: 1,
        fav_state: 0,
        media_count: 3,
        ctime: 0,
        mtime: 0,
        state: 0,
        is_top: false,
    }
}

fn refused(message: &str) -> ApiError {
    ApiError::Remote { page: None, message: message.to_string() }
}

#[test]
fn folder_list_yields_its_folders() {
    let list = vec![shelf(1, "A"), shelf(2, "B")];
    let reply = FavoriteListResponse {
        code: 0,
        message: "0".to_string(),
        ttl: 1,
        data: Some(FavoriteListData {
            count: 2,
            list: list.clone(),
            season: Some(serde_json::Value::Null),
        }),
    };
    assert_eq!(reply.into_folders(), Ok(list));
}

#[test]
fn folder_list_without_payload_is_empty() {
    let reply = FavoriteListResponse { code: 0, message: "0".to_string(), ttl: 1, data: None };
    assert_eq!(reply.into_folders(), Ok(Vec::new()));
}

#[test]
fn refused_folder_list_carries_the_message() {
    let reply =
        FavoriteListResponse { code: -101, message: "账号未登录".to_string(), ttl: 1, data: None };
    assert_eq!(reply.into_folders(), Err(refused("账号未登录")));
}

#[test]
fn folder_detail_yields_its_payload() {
    let data = FavoriteDetailData { info: shelf(7, "Music"), medias: None, has_more: true };
    let reply = FavoriteDetailResponse {
        code: 0,
        message: "0".to_string(),
        ttl: 1,
        data: Some(data.clone()),
    };
    assert_eq!(reply.into_detail(), Ok(data));
}

#[test]
fn folder_detail_without_payload_is_a_decode_failure() {
    let reply = FavoriteDetailResponse { code: 0, message: "0".to_string(), ttl: 1, data: None };
    assert_eq!(reply.into_detail(), Err(ApiError::Decode("没有数据".to_string())));
}

#[test]
fn refused_folder_detail_carries_the_message() {
    let reply =
        FavoriteDetailResponse { code: 11010, message: "内容不存在".to_string(), ttl: 1, data: None };
    assert_eq!(reply.clone().into_detail(), Err(refused("内容不存在")));
    assert_eq!(reply.into_videos(), Err(refused("内容不存在")));
}

#[test]
fn videos_of_a_page_without_list_are_none() {
    let data = FavoriteDetailData { info: shelf(7, "Music"), medias: None, has_more: false };
    let reply =
        FavoriteDetailResponse { code: 0, message: "0".to_string(), ttl: 1, data: Some(data) };
    assert_eq!(reply.into_videos(), Ok(Vec::new()));
}

#[test]
fn clean_answer_yields_the_number_purged() {
    let reply = CleanResponse { code: 0, message: "0".to_string(), data: Some(12) };
    assert_eq!(reply.into_cleaned(), Ok(12));
}

#[test]
fn clean_answer_without_number_is_zero() {
    let reply = CleanResponse { code: 0, message: "0".to_string(), data: None };
    assert_eq!(reply.into_cleaned(), Ok(0));
}

#[test]
fn refused_clean_carries_the_message() {
    let reply = CleanResponse { code: -111, message: "csrf 校验失败".to_string(), data: Some(3) };
    assert_eq!(reply.into_cleaned(), Err(refused("csrf 校验失败")));
}

#[test]
fn sort_answer_is_done_or_refused() {
    let done = SortResponse { code: 0, message: "0".to_string(), ttl: 1, data: None };
    assert_eq!(done.into_done(), Ok(()));
    let bad = SortResponse {
        code: -400,
        message: "请求错误".to_string(),
        ttl: 1,
        data: Some(serde_json::Value::Bool(false)),
    };
    assert_eq!(bad.into_done(), Err(refused("请求错误")));
}

#[test]
fn move_answer_is_done_or_refused() {
    let done = MoveResponse { code: 0, message: "0".to_string(), ttl: 1, data: Some(0) };
    assert_eq!(done.into_done(), Ok(()));
    let bad = MoveResponse { code: 11201, message: "已经收藏过了".to_string(), ttl: 1, data: None };
    assert_eq!(bad.into_done(), Err(refused("已经收藏过了")));
}
