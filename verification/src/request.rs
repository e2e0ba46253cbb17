//! The calls that the platform understands, described as plain values.
//!
//! Each function here states what is to be sent for one operation: the
//! method, the address, the headers and, for calls that change something,
//! the form fields. Sending is left to the caller.

use vstd::prelude::*;
use vstd::string::*;
use crate::config::AppConfig;
use crate::paging::{PageQuery, PAGE_SIZE};
use crate::text::{int_text, push_int};

verus! {

/// How a call is made.
#[derive(Debug, Clone, Copy, PartialEq, Eq, Structural)]
pub enum HttpMethod {
    Get,
    Post,
}

/// A named text: one header or one form field.
#[derive(Debug, Clone, PartialEq, Eq)]
pub struct Field {
    pub name: String,
    pub value: String,
}

/// One call to the platform.
#[derive(Debug, Clone, PartialEq, Eq)]
pub struct HttpRequest {
    pub method: HttpMethod,
    pub url: String,
    pub headers: Vec<Field>,
    /// Form fields of the body, in the order they are sent; empty for a `Get`.
    pub form: Vec<Field>,
}

/// How the client presents itself to the platform.
pub const USER_AGENT: &'static str =
    "Mozilla/5.0 (Windows NT 10.0; Win64; x64) AppleWebKit/537.36 (KHTML, like Gecko) Chrome/141.0.0.0 Safari/537.36";

/// Address of the list of a user's folders, up to the owner's identifier.
pub const FOLDER_LIST_URL: &'static str =
    "https://api.bilibili.com/x/v3/fav/folder/created/list-all?up_mid=";

/// Address of a page of a folder's videos, up to the folder's identifier.
pub const RESOURCE_LIST_URL: &'static str =
    "https://api.bilibili.com/x/v3/fav/resource/list?media_id=";

/// What stands before the page number in the address of a page.
pub const RESOURCE_LIST_PAGE: &'static str = "&pn=";

/// What stands before the page size in the address of a page.
pub const RESOURCE_LIST_SIZE: &'static str = "&ps=";

/// Rest of the address of a page: all videos, those changed last first.
pub const RESOURCE_LIST_REST: &'static str =
    "&keyword=&order=mtime&type=0&tid=0&platform=web&web_location=333.1387";

/// Address of the call that purges a folder's invalid entries.
pub const CLEAN_URL: &'static str = "https://api.bilibili.com/x/v3/fav/resource/clean";

/// Address of the call that reorders the folders.
pub const SORT_URL: &'static str = "https://api.bilibili.com/x/v3/fav/folder/sort";

/// Address of the call that moves videos between folders.
pub const MOVE_URL: &'static str = "https://api.bilibili.com/x/v3/fav/resource/move";

/// The page that calls from the site itself claim to come from.
pub const SITE_REFERER: &'static str = "https://www.bilibili.com/";

/// The origin that calls from the site itself claim.
pub const SITE_ORIGIN: &'static str = "https://www.bilibili.com";

/// Address of a user's favorites page, up to the user's identifier.
pub const SPACE_REFERER_HEAD: &'static str = "https://space.bilibili.com/";

/// Address of a user's favorites page, after the user's identifier.
pub const SPACE_REFERER_TAIL: &'static str = "/favlist";

/// The origin that calls from a user's favorites page claim.
pub const SPACE_ORIGIN: &'static str = "https://space.bilibili.com";

/// The kinds of answer that a reordering call accepts.
pub const ACCEPT: &'static str = "application/json, text/plain, */*";

/// The languages that a reordering call asks for.
pub const ACCEPT_LANGUAGE: &'static str = "zh-CN,zh-HK;q=0.9,zh;q=0.8,en-US;q=0.7,en;q=0.6";

/// The priority that a reordering call states.
pub const PRIORITY: &'static str = "u=1, i";

/// The browser brands that a reordering call states.
pub const SEC_CH_UA: &'static str =
    "\"Google Chrome\";v=\"141\", \"Not?A_Brand\";v=\"8\", \"Chromium\";v=\"141\"";

/// States that a reordering call does not come from a mobile device.
pub const SEC_CH_UA_MOBILE: &'static str = "?0";

/// The operating system that a reordering call states.
pub const SEC_CH_UA_PLATFORM: &'static str = "\"Windows\"";

/// The mark that tells the platform that a moved entry is a video.
pub const VIDEO_TYPE_MARK: &'static str = ":2";

impl Field {
    /// The name and the value as texts.
    pub open spec fn pair(self) -> (Seq<char>, Seq<char>) {
        (self.name@, self.value@)
    }
}

/// The names and values of `fields`, in order.
pub open spec fn pairs(fields: Seq<Field>) -> Seq<(Seq<char>, Seq<char>)> {
    fields.map_values(|f: Field| f.pair())
}

/// The identifiers in decimal notation, each followed by `mark`, with commas between them.
pub open spec fn joined_ids(ids: Seq<i64>, mark: Seq<char>) -> Seq<char>
    decreases ids.len(),
{
    if ids.len() == 0 {
        Seq::empty()
    } else if ids.len() == 1 {
        int_text(ids[0] as int) + mark
    } else {
        joined_ids(ids.drop_last(), mark) + seq![','] + int_text(ids.last() as int) + mark
    }
}

/// Address of the list of the folders that user `up_mid` created.
pub open spec fn folder_list_url(up_mid: Seq<char>) -> Seq<char> {
    FOLDER_LIST_URL@ + up_mid
}

/// Address of one page of the videos of folder `media_id`, newest first.
pub open spec fn resource_list_url(media_id: int, page: int, page_size: int) -> Seq<char> {
    RESOURCE_LIST_URL@ + int_text(media_id) + RESOURCE_LIST_PAGE@ + int_text(page)
        + RESOURCE_LIST_SIZE@ + int_text(page_size) + RESOURCE_LIST_REST@
}

/// The headers of a call made from the site itself.
pub open spec fn site_headers(cookie: Seq<char>) -> Seq<(Seq<char>, Seq<char>)> {
    seq![("Referer"@, SITE_REFERER@), ("Origin"@, SITE_ORIGIN@), ("Cookie"@, cookie)]
}

/// The headers of a call made from the favorites page of user `up_mid`.
pub open spec fn space_headers(up_mid: Seq<char>, cookie: Seq<char>) -> Seq<
    (Seq<char>, Seq<char>),
> {
    seq![
        ("Referer"@, SPACE_REFERER_HEAD@ + up_mid + SPACE_REFERER_TAIL@),
        ("Origin"@, SPACE_ORIGIN@),
        ("Cookie"@, cookie),
        ("Accept"@, ACCEPT@),
        ("Accept-Language"@, ACCEPT_LANGUAGE@),
        ("Priority"@, PRIORITY@),
        ("Sec-Ch-Ua"@, SEC_CH_UA@),
        ("Sec-Ch-Ua-Mobile"@, SEC_CH_UA_MOBILE@),
        ("Sec-Ch-Ua-Platform"@, SEC_CH_UA_PLATFORM@),
        ("Sec-Fetch-Dest"@, "empty"@),
        ("Sec-Fetch-Mode"@, "cors"@),
        ("Sec-Fetch-Site"@, "same-site"@),
    ]
}

/// The form of a call that purges folder `media_id`.
pub open spec fn clean_form(media_id: int, csrf: Seq<char>) -> Seq<(Seq<char>, Seq<char>)> {
    seq![("media_id"@, int_text(media_id)), ("platform"@, "web"@), ("csrf"@, csrf)]
}

/// The form of a call that puts the folders in the order `folder_ids`.
pub open spec fn sort_form(folder_ids: Seq<i64>, csrf: Seq<char>) -> Seq<(Seq<char>, Seq<char>)> {
    seq![("sort"@, joined_ids(folder_ids, Seq::empty())), ("csrf"@, csrf)]
}

/// The form of a call that moves the videos `resource_ids` between two folders.
pub open spec fn move_form(
    resource_ids: Seq<i64>,
    src_media_id: int,
    tar_media_id: int,
    up_mid: Seq<char>,
    csrf: Seq<char>,
) -> Seq<(Seq<char>, Seq<char>)> {
    seq![
        ("resources"@, joined_ids(resource_ids, VIDEO_TYPE_MARK@)),
        ("src_media_id"@, int_text(src_media_id)),
        ("tar_media_id"@, int_text(tar_media_id)),
        ("mid"@, up_mid),
        ("platform"@, "web"@),
        ("csrf"@, csrf),
    ]
}

/// Makes a field from a name and a value.
fn field(name: &str, value: String) -> (f: Field)
    ensures
        f.pair() == (name@, value@),
{
    Field { name: String::from_str(name), value }
}

/// Makes a field whose value is a fixed text.
fn fixed(name: &str, value: &str) -> (f: Field)
    ensures
        f.pair() == (name@, value@),
{
    Field { name: String::from_str(name), value: String::from_str(value) }
}

/// Makes a field whose value is a number in decimal notation.
fn number(name: &str, value: i64) -> (f: Field)
    ensures
        f.pair() == (name@, int_text(value as int)),
{
    let mut text = String::new();
    push_int(&mut text, value);
    assert(text@ =~= int_text(value as int));
    Field { name: String::from_str(name), value: text }
}

/// Writes the identifiers in decimal notation, each followed by `mark`, with commas between them.
pub fn join_ids(ids: &Vec<i64>, mark: &str) -> (text: String)
    ensures
        text@ == joined_ids(ids@, mark@),
{
    let mut text = String::new();
    let mut i: usize = 0;
    while i < ids.len()
        invariant
            i <= ids.len(),
            text@ == joined_ids(ids@.take(i as int), mark@),
        decreases ids.len() - i,
    {
        let ghost before = text@;
        if i > 0 {
            text.append(",");
            proof {
                reveal_strlit(",");
            }
        }
        push_int(&mut text, ids[i]);
        text.append(mark);
        proof {
            let seen = ids@.take(i + 1);
            assert(seen.drop_last() =~= ids@.take(i as int));
            assert(seen.last() == ids@[i as int]);
            if i == 0 {
                assert(text@ =~= int_text(ids@[0] as int) + mark@);
            } else {
                assert(text@ =~= before + seq![','] + int_text(ids@[i as int] as int) + mark@);
            }
        }
        i += 1;
    }
    assert(ids@.take(i as int) =~= ids@);
    text
}

/// The headers of a call made from the site itself.
fn site_header_fields(config: &AppConfig) -> (headers: Vec<Field>)
    ensures
        pairs(headers@) == site_headers(config.cookie@),
{
    let mut headers: Vec<Field> = Vec::new();
    headers.push(fixed("Referer", SITE_REFERER));
    headers.push(fixed("Origin", SITE_ORIGIN));
    headers.push(field("Cookie", config.cookie.clone()));
    assert(pairs(headers@) =~= site_headers(config.cookie@));
    headers
}

/// The call that lists the folders of the signed-in user.
pub fn folder_list_request(config: &AppConfig) -> (request: HttpRequest)
    ensures
        request.method == HttpMethod::Get,
        request.url@ == folder_list_url(config.up_mid@),
        pairs(request.headers@) == site_headers(config.cookie@),
        request.form@.len() == 0,
{
    let mut url = String::from_str(FOLDER_LIST_URL);
    url.append(config.up_mid.as_str());
    HttpRequest {
        method: HttpMethod::Get,
        url,
        headers: site_header_fields(config),
        form: Vec::new(),
    }
}

/// The call that fetches one page of a folder's videos, newest first.
pub fn resource_page_request(query: &PageQuery, config: &AppConfig) -> (request: HttpRequest)
    ensures
        request.method == HttpMethod::Get,
        request.url@ == resource_list_url(
            query.media_id as int,
            query.page as int,
            query.page_size as int,
        ),
        pairs(request.headers@) == site_headers(config.cookie@),
        request.form@.len() == 0,
{
    let mut url = String::from_str(RESOURCE_LIST_URL);
    push_int(&mut url, query.media_id);
    url.append(RESOURCE_LIST_PAGE);
    push_int(&mut url, query.page as i64);
    url.append(RESOURCE_LIST_SIZE);
    push_int(&mut url, query.page_size as i64);
    url.append(RESOURCE_LIST_REST);
    HttpRequest {
        method: HttpMethod::Get,
        url,
        headers: site_header_fields(config),
        form: Vec::new(),
    }
}

/// The call that fetches a folder's description together with its first full page.
pub fn folder_detail_request(favorite_id: i64, config: &AppConfig) -> (request: HttpRequest)
    ensures
        request.method == HttpMethod::Get,
        request.url@ == resource_list_url(favorite_id as int, 1, PAGE_SIZE as int),
        pairs(request.headers@) == site_headers(config.cookie@),
        request.form@.len() == 0,
{
    let first = PageQuery { media_id: favorite_id, page: 1, page_size: PAGE_SIZE };
    resource_page_request(&first, config)
}

/// The call that purges the invalid entries of folder `media_id`.
pub fn clean_request(media_id: i64, config: &AppConfig) -> (request: HttpRequest)
    ensures
        request.method == HttpMethod::Post,
        request.url@ == CLEAN_URL@,
        pairs(request.headers@) == site_headers(config.cookie@),
        pairs(request.form@) == clean_form(media_id as int, config.csrf_token@),
{
    let mut form: Vec<Field> = Vec::new();
    form.push(number("media_id", media_id));
    form.push(fixed("platform", "web"));
    form.push(field("csrf", config.csrf_token.clone()));
    assert(pairs(form@) =~= clean_form(media_id as int, config.csrf_token@));
    HttpRequest {
        method: HttpMethod::Post,
        url: String::from_str(CLEAN_URL),
        headers: site_header_fields(config),
        form,
    }
}

/// The call that puts the folders in the order `folder_ids`.
pub fn sort_request(folder_ids: &Vec<i64>, config: &AppConfig) -> (request: HttpRequest)
    ensures
        request.method == HttpMethod::Post,
        request.url@ == SORT_URL@,
        pairs(request.headers@) == space_headers(config.up_mid@, config.cookie@),
        pairs(request.form@) == sort_form(folder_ids@, config.csrf_token@),
{
    let mut referer = String::from_str(SPACE_REFERER_HEAD);
    referer.append(config.up_mid.as_str());
    referer.append(SPACE_REFERER_TAIL);
    let mut headers: Vec<Field> = Vec::new();
    headers.push(field("Referer", referer));
    headers.push(fixed("Origin", SPACE_ORIGIN));
    headers.push(field("Cookie", config.cookie.clone()));
    headers.push(fixed("Accept", ACCEPT));
    headers.push(fixed("Accept-Language", ACCEPT_LANGUAGE));
    headers.push(fixed("Priority", PRIORITY));
    headers.push(fixed("Sec-Ch-Ua", SEC_CH_UA));
    headers.push(fixed("Sec-Ch-Ua-Mobile", SEC_CH_UA_MOBILE));
    headers.push(fixed("Sec-Ch-Ua-Platform", SEC_CH_UA_PLATFORM));
    headers.push(fixed("Sec-Fetch-Dest", "empty"));
    headers.push(fixed("Sec-Fetch-Mode", "cors"));
    headers.push(fixed("Sec-Fetch-Site", "same-site"));
    assert(pairs(headers@) =~= space_headers(config.up_mid@, config.cookie@));
    let mut form: Vec<Field> = Vec::new();
    proof {
        reveal_strlit("");
    }
    let joined = join_ids(folder_ids, "");
    assert(""@ =~= Seq::<char>::empty());
    form.push(field("sort", joined));
    form.push(field("csrf", config.csrf_token.clone()));
    assert(pairs(form@) =~= sort_form(folder_ids@, config.csrf_token@));
    HttpRequest { method: HttpMethod::Post, url: String::from_str(SORT_URL), headers, form }
}

/// The call that moves the videos `resource_ids` from folder `src_media_id`
/// into folder `tar_media_id`.
pub fn move_request(
    resource_ids: &Vec<i64>,
    src_media_id: i64,
    tar_media_id: i64,
    config: &AppConfig,
) -> (request: HttpRequest)
    ensures
        request.method == HttpMethod::Post,
        request.url@ == MOVE_URL@,
        pairs(request.headers@) == site_headers(config.cookie@),
        pairs(request.form@) == move_form(
            resource_ids@,
            src_media_id as int,
            tar_media_id as int,
            config.up_mid@,
            config.csrf_token@,
        ),
{
    let mut form: Vec<Field> = Vec::new();
    form.push(field("resources", join_ids(resource_ids, VIDEO_TYPE_MARK)));
    form.push(number("src_media_id", src_media_id));
    form.push(number("tar_media_id", tar_media_id));
    form.push(field("mid", config.up_mid.clone()));
    form.push(fixed("platform", "web"));
    form.push(field("csrf", config.csrf_token.clone()));
    assert(pairs(form@) =~= move_form(
        resource_ids@,
        src_media_id as int,
        tar_media_id as int,
        config.up_mid@,
        config.csrf_token@,
    ));
    HttpRequest { method: HttpMethod::Post, url: String::from_str(MOVE_URL), headers: site_header_fields(config), form }
}

} // verus!
