//! The remote client: what is asked of the remote service, and how its
//! answers are read.

use crate::json::{
    bool_of, json_bool, json_data, json_from_bool, json_from_members, json_from_text, json_member,
    json_text, member_of, text_of, JsonData,
};
use crate::text::joined;
use crate::time::{format_instant, rfc3339_text, Timestamp};
use vstd::prelude::*;

verus! {

/// The method of a request.
#[derive(Clone, Copy, Debug, PartialEq, Eq, Structural)]
pub enum HttpMethod {
    Get,
    Post,
    Put,
    Delete,
}

/// A request to the remote service, ready to be sent.
#[derive(Debug)]
pub struct ApiRequest<B> {
    pub method: HttpMethod,
    /// The address: the base address of the service followed by the
    /// endpoint.
    pub url: String,
    /// The value of the `Authorization` header, where a token is set.
    pub authorization: Option<String>,
    /// The body, sent as JSON.
    pub body: Option<B>,
}

/// Where the remote service is, and the token that requests carry.
#[derive(Debug)]
pub struct ApiClient {
    base_url: String,
    auth_token: Option<String>,
}

/// What the `Authorization` header holds for the token `token`.
pub open spec fn bearer(token: Option<Seq<char>>) -> Option<Seq<char>> {
    match token {
        Some(t) => Some("Bearer "@ + t),
        None => None,
    }
}

impl ApiClient {
    /// The base address of the service.
    pub closed spec fn base(&self) -> Seq<char> {
        self.base_url@
    }

    /// The token, if one is set.
    pub closed spec fn token(&self) -> Option<Seq<char>> {
        self.auth_token.deep_view()
    }

    /// A client for the service at `base_url`, without a token.
    pub fn new(base_url: String) -> (client: ApiClient)
        ensures
            client.base() == base_url@,
            client.token() is None,
    {
        ApiClient { base_url, auth_token: None }
    }

    /// Sets the token that every later request carries.
    pub fn set_auth_token(&mut self, token: String)
        ensures
            final(self).base() == old(self).base(),
            final(self).token() == Some(token@),
    {
        self.auth_token = Some(token);
    }

    /// The request with `method` to `endpoint`: addressed below the base
    /// address, authorized with the token where one is set, and carrying
    /// `body` where one is given.
    pub fn request<B>(&self, method: HttpMethod, endpoint: &str, body: Option<B>) -> (request:
        ApiRequest<B>)
        ensures
            request.method == method,
            request.url@ == self.base() + endpoint@,
            request.authorization.deep_view() == bearer(self.token()),
            request.body == body,
    {
        let authorization = match &self.auth_token {
            Some(token) => Some(joined("Bearer ", token.as_str())),
            None => None,
        };
        ApiRequest { method, url: joined(self.base_url.as_str(), endpoint), authorization, body }
    }

    /// The request that reads `endpoint`.
    pub fn get<B>(&self, endpoint: &str) -> (request: ApiRequest<B>)
        ensures
            request.method == HttpMethod::Get,
            request.url@ == self.base() + endpoint@,
            request.authorization.deep_view() == bearer(self.token()),
            request.body is None,
    {
        self.request(HttpMethod::Get, endpoint, None)
    }

    /// The request that posts `body` to `endpoint`.
    pub fn post<B>(&self, endpoint: &str, body: B) -> (request: ApiRequest<B>)
        ensures
            request.method == HttpMethod::Post,
            request.url@ == self.base() + endpoint@,
            request.authorization.deep_view() == bearer(self.token()),
            request.body == Some(body),
    {
        self.request(HttpMethod::Post, endpoint, Some(body))
    }

    /// The request that puts `body` at `endpoint`.
    pub fn put<B>(&self, endpoint: &str, body: B) -> (request: ApiRequest<B>)
        ensures
            request.method == HttpMethod::Put,
            request.url@ == self.base() + endpoint@,
            request.authorization.deep_view() == bearer(self.token()),
            request.body == Some(body),
    {
        self.request(HttpMethod::Put, endpoint, Some(body))
    }

    /// The request that deletes what is at `endpoint`.
    pub fn delete<B>(&self, endpoint: &str) -> (request: ApiRequest<B>)
        ensures
            request.method == HttpMethod::Delete,
            request.url@ == self.base() + endpoint@,
            request.authorization.deep_view() == bearer(self.token()),
            request.body is None,
    {
        self.request(HttpMethod::Delete, endpoint, None)
    }
}

/// Whether a response with the status `status` is a success: the statuses
/// from 200 up to 299 are.
pub fn is_success(status: u16) -> (success: bool)
    ensures
        success == (200 <= status < 300),
{
    200 <= status && status < 300
}

/// The status line that reqwest writes for the status `code`, the number
/// and its usual reason, or `None` where `code` is no status to it.
pub uninterp spec fn status_line_text(code: u16) -> Option<Seq<char>>;

/// Calls `reqwest::StatusCode::from_u16` and writes the status with its
/// `Display` (`to_string`). Trusted: the result is the line that reqwest
/// writes, and there is one for the codes from 100 up to 999 and for no
/// other.
#[verifier::external_body]
pub(crate) fn status_line(code: u16) -> (line: Option<String>)
    ensures
        line.deep_view() == status_line_text(code),
        line is Some <==> 100 <= code < 1000,
{
    match reqwest::StatusCode::from_u16(code) {
        Ok(status) => Some(status.to_string()),
        Err(_) => None,
    }
}

/// The description of a response that is no success, from its status line
/// and the text of its body; a body that could not be read counts as
/// "Unknown error".
pub open spec fn failure_text(line: Seq<char>, body: Option<Seq<char>>) -> Seq<char> {
    "API request failed with status "@ + line + ": "@ + match body {
        Some(text) => text,
        None => "Unknown error"@,
    }
}

/// The description of a response with the status line `line` that is no
/// success.
pub fn failure_message(line: &str, body: &Option<String>) -> (message: String)
    ensures
        message@ == failure_text(line@, body.deep_view()),
{
    let mut message = joined("API request failed with status ", line);
    message.append(": ");
    match body {
        Some(text) => message.append(text.as_str()),
        None => message.append("Unknown error"),
    }
    message
}

/// Judges a response by its status: nothing to report for a success, and
/// for any other status the description of the failure. `None` where
/// `status` is no status at all: one below 100 or above 999.
pub fn check_response(status: u16, body: &Option<String>) -> (verdict: Option<Result<(), String>>)
    ensures
        verdict is Some <==> 100 <= status < 1000,
        200 <= status < 300 ==> verdict == Some(Ok::<(), String>(())),
        100 <= status < 1000 && !(200 <= status < 300) ==> verdict matches Some(Err(_)),
        match status_line_text(status) {
            None => verdict is None,
            Some(line) => if 200 <= status < 300 {
                verdict == Some(Ok::<(), String>(()))
            } else {
                verdict matches Some(Err(message)) && message@ == failure_text(
                    line,
                    body.deep_view(),
                )
            },
        },
{
    match status_line(status) {
        None => None,
        Some(line) => if is_success(status) {
            Some(Ok(()))
        } else {
            Some(Err(failure_message(line.as_str(), body)))
        },
    }
}

/// A newer version of the application, as the service announces it.
#[derive(Debug, Clone)]
pub struct UpdateInfo {
    pub version: String,
    pub download_url: String,
    pub release_notes: String,
    pub is_critical: bool,
}

/// Everything an announcement holds.
pub struct UpdateInfoView {
    pub version: Seq<char>,
    pub download_url: Seq<char>,
    pub release_notes: Seq<char>,
    pub is_critical: bool,
}

impl View for UpdateInfo {
    type V = UpdateInfoView;

    open spec fn view(&self) -> UpdateInfoView {
        UpdateInfoView {
            version: self.version@,
            download_url: self.download_url@,
            release_notes: self.release_notes@,
            is_critical: self.is_critical,
        }
    }
}

/// The string under `key`, or the empty one where there is none.
pub open spec fn text_member(data: JsonData, key: Seq<char>) -> Seq<char> {
    match member_of(data, key) {
        Some(member) => match text_of(member) {
            Some(text) => text,
            None => Seq::empty(),
        },
        None => Seq::empty(),
    }
}

/// The truth value under `key`, or false where there is none.
pub open spec fn flag_member(data: JsonData, key: Seq<char>) -> bool {
    match member_of(data, key) {
        Some(member) => match bool_of(member) {
            Some(flag) => flag,
            None => false,
        },
        None => false,
    }
}

/// The announcement in the answer to a check for updates: there is one
/// where `update_available` is true, and what it leaves out is empty, or
/// not critical.
pub open spec fn announced_update(data: JsonData) -> Option<UpdateInfoView> {
    if flag_member(data, "update_available"@) {
        Some(
            UpdateInfoView {
                version: text_member(data, "version"@),
                download_url: text_member(data, "download_url"@),
                release_notes: text_member(data, "release_notes"@),
                is_critical: flag_member(data, "is_critical"@),
            },
        )
    } else {
        None
    }
}

/// Reads the string under `key`.
pub fn read_text_member(response: &serde_json::Value, key: &str) -> (text: String)
    ensures
        text@ == text_member(json_data(*response), key@),
{
    match json_member(response, key) {
        Some(member) => match json_text(member) {
            Some(text) => text.to_owned(),
            None => String::new(),
        },
        None => String::new(),
    }
}

/// Reads the truth value under `key`.
pub fn read_flag_member(response: &serde_json::Value, key: &str) -> (flag: bool)
    ensures
        flag == flag_member(json_data(*response), key@),
{
    match json_member(response, key) {
        Some(member) => match json_bool(member) {
            Some(flag) => flag,
            None => false,
        },
        None => false,
    }
}

/// The endpoint that answers whether there is a version newer than
/// `current_version`.
pub fn update_check_endpoint(current_version: &str) -> (endpoint: String)
    ensures
        endpoint@ == "/updates/check?version="@ + current_version@ + "&platform=desktop"@,
{
    let mut endpoint = joined("/updates/check?version=", current_version);
    endpoint.append("&platform=desktop");
    endpoint
}

/// Reads the answer to a check for updates.
pub fn check_for_updates(response: &serde_json::Value) -> (update: Option<UpdateInfo>)
    ensures
        update.is_some() == announced_update(json_data(*response)).is_some(),
        update matches Some(info) ==> Some(info@) == announced_update(json_data(*response)),
{
    if read_flag_member(response, "update_available") {
        Some(
            UpdateInfo {
                version: read_text_member(response, "version"),
                download_url: read_text_member(response, "download_url"),
                release_notes: read_text_member(response, "release_notes"),
                is_critical: read_flag_member(response, "is_critical"),
            },
        )
    } else {
        None
    }
}

/// The members of an announcement as a JSON object.
pub open spec fn update_members(info: UpdateInfoView) -> Map<Seq<char>, JsonData> {
    Map::<Seq<char>, JsonData>::empty().insert("version"@, JsonData::Text(info.version)).insert(
        "download_url"@,
        JsonData::Text(info.download_url),
    ).insert("release_notes"@, JsonData::Text(info.release_notes)).insert(
        "is_critical"@,
        JsonData::Bool(info.is_critical),
    )
}

impl UpdateInfo {
    /// The announcement as a JSON object.
    pub fn to_json(&self) -> (value: serde_json::Value)
        ensures
            json_data(value) == JsonData::Object(update_members(self@)),
    {
        let mut fields: Vec<(String, serde_json::Value)> = Vec::new();
        fields.push(("version".to_owned(), json_from_text(self.version.clone())));
        fields.push(("download_url".to_owned(), json_from_text(self.download_url.clone())));
        fields.push(("release_notes".to_owned(), json_from_text(self.release_notes.clone())));
        fields.push(("is_critical".to_owned(), json_from_bool(self.is_critical)));
        proof {
            reveal_strlit("version");
            reveal_strlit("download_url");
            reveal_strlit("release_notes");
            reveal_strlit("is_critical");
            assert(fields@[0].0@ == "version"@);
            assert(fields@[1].0@ == "download_url"@);
            assert(fields@[2].0@ == "release_notes"@);
            assert(fields@[3].0@ == "is_critical"@);
            assert(crate::json::names_distinct(fields@));
            crate::json::lemma_members_of_four(fields@);
        }
        json_from_members(fields)
    }
}

/// The members of the report of a crash, written at the instant whose text
/// is `timestamp`.
pub open spec fn crash_members(
    crash_info: Seq<char>,
    app_version: Seq<char>,
    os_info: Seq<char>,
    timestamp: Seq<char>,
) -> Map<Seq<char>, JsonData> {
    Map::<Seq<char>, JsonData>::empty().insert("crash_info"@, JsonData::Text(crash_info)).insert(
        "app_version"@,
        JsonData::Text(app_version),
    ).insert("os_info"@, JsonData::Text(os_info)).insert(
        "timestamp"@,
        JsonData::Text(timestamp),
    ).insert("platform"@, JsonData::Text("desktop-tauri"@))
}

/// The report of a crash noticed at `reported_at`, as a JSON object. `None`
/// where the instant has no date to write.
pub fn crash_report(crash_info: &str, app_version: &str, os_info: &str, reported_at: Timestamp) -> (report:
    Option<serde_json::Value>)
    ensures
        match rfc3339_text(reported_at.seconds, reported_at.nanos) {
            Some(timestamp) => report matches Some(value) && json_data(value) == JsonData::Object(
                crash_members(crash_info@, app_version@, os_info@, timestamp),
            ),
            None => report is None,
        },
{
    match format_instant(reported_at) {
        None => None,
        Some(timestamp) => {
            let mut fields: Vec<(String, serde_json::Value)> = Vec::new();
            fields.push(("crash_info".to_owned(), json_from_text(crash_info.to_owned())));
            fields.push(("app_version".to_owned(), json_from_text(app_version.to_owned())));
            fields.push(("os_info".to_owned(), json_from_text(os_info.to_owned())));
            fields.push(("timestamp".to_owned(), json_from_text(timestamp)));
            fields.push(("platform".to_owned(), json_from_text("desktop-tauri".to_owned())));
            proof {
                reveal_strlit("crash_info");
                reveal_strlit("app_version");
                reveal_strlit("os_info");
                reveal_strlit("timestamp");
                reveal_strlit("platform");
                assert(fields@[0].0@ == "crash_info"@);
                assert(fields@[1].0@ == "app_version"@);
                assert(fields@[2].0@ == "os_info"@);
                assert(fields@[3].0@ == "timestamp"@);
                assert(fields@[4].0@ == "platform"@);
                assert(crate::json::names_distinct(fields@));
                crate::json::lemma_members_of_five(fields@);
            }
            Some(json_from_members(fields))
        },
    }
}

/// The request that uploads the report of a crash noticed at `reported_at`
/// to the service at `api_base_url`, without a token. `None` where the
/// instant has no date to write.
pub fn upload_crash_report(
    api_base_url: &str,
    crash_info: &str,
    app_version: &str,
    os_info: &str,
    reported_at: Timestamp,
) -> (request: Option<ApiRequest<serde_json::Value>>)
    ensures
        match rfc3339_text(reported_at.seconds, reported_at.nanos) {
            Some(timestamp) => {
                &&& request matches Some(r)
                &&& r.method == HttpMethod::Post
                &&& r.url@ == api_base_url@ + "/crashes"@
                &&& r.authorization is None
                &&& r.body matches Some(value)
                &&& json_data(value) == JsonData::Object(
                    crash_members(crash_info@, app_version@, os_info@, timestamp),
                )
            },
            None => request is None,
        },
{
    match crash_report(crash_info, app_version, os_info, reported_at) {
        None => None,
        Some(report) => {
            let client = ApiClient::new(api_base_url.to_owned());
            Some(client.post("/crashes", report))
        },
    }
}

} // verus!
