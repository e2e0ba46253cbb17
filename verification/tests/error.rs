use bilibili_fav_cleaner::error::{soften, ApiError};

#[test]
fn transport_failure_shows_its_detail() {
    assert_eq!(ApiError::Transport("请求失败: timed out".to_string()).message(), "请求失败: timed out");
}

#[test]
fn decode_failure_shows_its_detail() {
    assert_eq!(ApiError::Decode("解析响应失败: eof".to_string()).message(), "解析响应失败: eof");
}

#[test]
fn validation_failure_shows_its_detail() {
    assert_eq!(ApiError::Validation("请先配置Cookie".to_string()).message(), "请先配置Cookie");
}

#[test]
fn remote_failure_shows_the_platform_s_message() {
    let e = ApiError::Remote { page: None, message: "账号未登录".to_string() };
    assert_eq!(e.message(), "API错误: 账号未登录");
}

#[test]
fn remote_failure_on_a_page_names_the_page() {
    let e = ApiError::Remote { page: Some(3), message: "请求过于频繁".to_string() };
    assert_eq!(e.message(), "获取第3页失败: 请求过于频繁");
}

#[test]
fn soften_keeps_success() {
    assert_eq!(soften(Ok::<i32, ApiError>(5)), Ok(Ok(5)));
}

#[test]
fn soften_turns_a_remote_failure_into_its_text() {
    let e = ApiError::Remote { page: None, message: "x".to_string() };
    assert_eq!(soften(Err::<i32, ApiError>(e)), Ok(Err("API错误: x".to_string())));
}

#[test]
fn soften_keeps_other_failures() {
    for e in [
        ApiError::Transport("t".to_string()),
        ApiError::Decode("d".to_string()),
        ApiError::Validation("v".to_string()),
    ] {
        assert_eq!(soften(Err::<i32, ApiError>(e.clone())), Err(e));
    }
}
