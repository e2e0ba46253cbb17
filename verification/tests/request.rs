use bilibili_fav_cleaner::config::AppConfig;
use bilibili_fav_cleaner::paging::PageQuery;
use bilibili_fav_cleaner::request::{
    clean_request, folder_detail_request, folder_list_request, join_ids, move_request,
    resource_page_request, sort_request, Field, HttpMethod, HttpRequest, USER_AGENT,
};

fn session() -> AppConfig {
    AppConfig {
        up_mid: "4242".to_string(),
        csrf_token: "tok".to_string(),
        cookie: "SESSDATA=abc".to_string(),
    }
}

fn pairs(fields: &Vec<Field>) -> Vec<(String, String)> {
    fields.iter().map(|f| (f.name.clone(), f.value.clone())).collect()
}

fn texts(list: &[(&str, &str)]) -> Vec<(String, String)> {
    list.iter().map(|(n, v)| (n.to_string(), v.to_string())).collect()
}

fn site_headers() -> Vec<(String, String)> {
    texts(&[
        ("Referer", "https://www.bilibili.com/"),
        ("Origin", "https://www.bilibili.com"),
        ("Cookie", "SESSDATA=abc"),
    ])
}

#[test]
fn user_agent_is_a_desktop_browser() {
    assert!(USER_AGENT.starts_with("Mozilla/5.0 (Windows NT 10.0; Win64; x64)"));
    assert!(USER_AGENT.ends_with("Chrome/141.0.0.0 Safari/537.36"));
}

#[test]
fn join_ids_puts_commas_between() {
    assert_eq!(join_ids(&vec![], ""), "");
    assert_eq!(join_ids(&vec![5], ""), "5");
    assert_eq!(join_ids(&vec![5, -6, 70], ""), "5,-6,70");
}

#[test]
fn join_ids_marks_each_identifier() {
    assert_eq!(join_ids(&vec![], ":2"), "");
    assert_eq!(join_ids(&vec![5], ":2"), "5:2");
    assert_eq!(join_ids(&vec![5, 6, 70], ":2"), "5:2,6:2,70:2");
}

#[test]
fn folder_list_is_asked_for_by_owner() {
    let request: HttpRequest = folder_list_request(&session());
    assert_eq!(request.method, HttpMethod::Get);
    assert_eq!(
        request.url,
        "https://api.bilibili.com/x/v3/fav/folder/created/list-all?up_mid=4242"
    );
    assert_eq!(pairs(&request.headers), site_headers());
    assert!(request.form.is_empty());
}

#[test]
fn resource_page_is_asked_for_newest_first() {
    let query = PageQuery { media_id: 77, page: 3, page_size: 20 };
    let request = resource_page_request(&query, &session());
    assert_eq!(request.method, HttpMethod::Get);
    assert_eq!(
        request.url,
        "https://api.bilibili.com/x/v3/fav/resource/list?media_id=77&pn=3&ps=20&keyword=&order=mtime&type=0&tid=0&platform=web&web_location=333.1387"
    );
    assert_eq!(pairs(&request.headers), site_headers());
    assert!(request.form.is_empty());
}

#[test]
fn folder_detail_is_the_first_full_page() {
    let request = folder_detail_request(77, &session());
    let query = PageQuery { media_id: 77, page: 1, page_size: 20 };
    assert_eq!(request, resource_page_request(&query, &session()));
    assert!(request.url.contains("media_id=77&pn=1&ps=20&"));
}

#[test]
fn clean_is_posted_with_the_token() {
    let request = clean_request(77, &session());
    assert_eq!(request.method, HttpMethod::Post);
    assert_eq!(request.url, "https://api.bilibili.com/x/v3/fav/resource/clean");
    assert_eq!(pairs(&request.headers), site_headers());
    assert_eq!(
        pairs(&request.form),
        texts(&[("media_id", "77"), ("platform", "web"), ("csrf", "tok")])
    );
}

#[test]
fn sort_is_posted_from_the_favorites_page() {
    let request = sort_request(&vec![1, 30, 2], &session());
    assert_eq!(request.method, HttpMethod::Post);
    assert_eq!(request.url, "https://api.bilibili.com/x/v3/fav/folder/sort");
    assert_eq!(
        pairs(&request.headers),
        texts(&[
            ("Referer", "https://space.bilibili.com/4242/favlist"),
            ("Origin", "https://space.bilibili.com"),
            ("Cookie", "SESSDATA=abc"),
            ("Accept", "application/json, text/plain, */*"),
            ("Accept-Language", "zh-CN,zh-HK;q=0.9,zh;q=0.8,en-US;q=0.7,en;q=0.6"),
            ("Priority", "u=1, i"),
            ("Sec-Ch-Ua", "\"Google Chrome\";v=\"141\", \"Not?A_Brand\";v=\"8\", \"Chromium\";v=\"141\""),
            ("Sec-Ch-Ua-Mobile", "?0"),
            ("Sec-Ch-Ua-Platform", "\"Windows\""),
            ("Sec-Fetch-Dest", "empty"),
            ("Sec-Fetch-Mode", "cors"),
            ("Sec-Fetch-Site", "same-site"),
        ])
    );
    assert_eq!(pairs(&request.form), texts(&[("sort", "1,30,2"), ("csrf", "tok")]));
}

#[test]
fn move_is_posted_with_marked_videos() {
    let request = move_request(&vec![8, 9], 10, 20, &session());
    assert_eq!(request.method, HttpMethod::Post);
    assert_eq!(request.url, "https://api.bilibili.com/x/v3/fav/resource/move");
    assert_eq!(pairs(&request.headers), site_headers());
    assert_eq!(
        pairs(&request.form),
        texts(&[
            ("resources", "8:2,9:2"),
            ("src_media_id", "10"),
            ("tar_media_id", "20"),
            ("mid", "4242"),
            ("platform", "web"),
            ("csrf", "tok"),
        ])
    );
}
