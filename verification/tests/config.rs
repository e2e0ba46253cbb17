use bilibili_fav_cleaner::config::{require_session, AppConfig};
use bilibili_fav_cleaner::error::ApiError;

#[test]
fn default_session_is_blank() {
    let config = AppConfig::default();
    assert_eq!(config.up_mid, "");
    assert_eq!(config.csrf_token, "");
    assert_eq!(config.cookie, "");
}

#[test]
fn a_session_is_handed_on() {
    let config = AppConfig {
        up_mid: "42".to_string(),
        csrf_token: "token".to_string(),
        cookie: "SESSDATA=abc".to_string(),
    };
    assert_eq!(require_session(Some(config.clone())), Ok(config));
}

#[test]
fn no_session_is_a_validation_failure() {
    assert_eq!(
        require_session(None),
        Err(ApiError::Validation("请先配置Cookie".to_string()))
    );
}
