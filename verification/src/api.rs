//! The requests that the client sends to the catalog API, built as plain
//! values: method, URL, query pairs, JSON body and authorization header.
//! Sending them and reading the replies is left to the caller.

use vstd::prelude::*;
use vstd::utf8::*;

use crate::text::{concat2, concat3, decimal, decimal_string, owned};

verus! {

/// The API host used when none is configured.
pub open spec fn default_api_base() -> Seq<char> {
    "https://server.updatenight.com"@
}

/// The API host: the configured one, or the default host when none is configured.
pub fn api_base(configured: Option<String>) -> (r: String)
    ensures
        r@ == match configured {
            Some(u) => u@,
            None => default_api_base(),
        },
{
    match configured {
        Some(u) => u,
        None => owned("https://server.updatenight.com"),
    }
}

/// The HTTP method of a request.
#[derive(Clone, Copy, Debug, PartialEq, Eq, Structural)]
pub enum HttpMethod {
    Get,
    Post,
}

/// A request to the API, ready to be sent: the query pairs are not yet
/// URL-encoded, the body is JSON text, and `authorization` is the value of the
/// `Authorization` header when one is sent.
#[derive(Debug)]
pub struct ApiRequest {
    pub method: HttpMethod,
    pub url: String,
    pub query: Vec<(String, String)>,
    pub body: Option<String>,
    pub authorization: Option<String>,
}

/// The mathematical value of an [`ApiRequest`].
#[verifier::ext_equal]
pub struct ApiRequestView {
    pub method: HttpMethod,
    pub url: Seq<char>,
    pub query: Seq<(Seq<char>, Seq<char>)>,
    pub body: Option<Seq<char>>,
    pub authorization: Option<Seq<char>>,
}

impl View for ApiRequest {
    type V = ApiRequestView;

    open spec fn view(&self) -> ApiRequestView {
        ApiRequestView {
            method: self.method,
            url: self.url@,
            query: self.query.deep_view(),
            body: self.body.deep_view(),
            authorization: self.authorization.deep_view(),
        }
    }
}

/// A byte that an HTTP header value may hold: a tab, or any byte from 32 up
/// but for 127 (DEL).
pub open spec fn header_byte_ok(b: u8) -> bool {
    (b >= 32 && b != 127) || b == 9
}

/// Whether every byte of the UTF-8 encoding of `s` may stand in a header value.
pub open spec fn header_value_ok(s: Seq<char>) -> bool {
    forall|i: int| 0 <= i < encode_utf8(s).len() ==> header_byte_ok(#[trigger] encode_utf8(s)[i])
}

/// Whether `HeaderValue::from_str` (crate `http`, through `reqwest::header`)
/// accepts `s`. Its source checks each byte of `s` and refuses the value when
/// one is a control byte other than tab, or DEL; this is what the contract states.
#[verifier::external_body]
fn header_value_accepted(s: &str) -> (ok: bool)
    ensures
        ok == header_value_ok(s@),
{
    reqwest::header::HeaderValue::from_str(s).is_ok()
}

/// The text of a bearer authorization for `token`.
pub open spec fn bearer(token: Seq<char>) -> Seq<char> {
    "Bearer "@ + token
}

/// The `Authorization` header sent with a request: a bearer authorization when
/// there is a token and it forms a valid header value, and none otherwise.
pub open spec fn authorization_for(token: Option<Seq<char>>) -> Option<Seq<char>> {
    match token {
        Some(t) => if header_value_ok(bearer(t)) {
            Some(bearer(t))
        } else {
            None
        },
        None => None,
    }
}

/// The `Authorization` header value for an optional token (see [`authorization_for`]).
pub fn authorization_header(token: Option<&str>) -> (r: Option<String>)
    ensures
        r.deep_view() == authorization_for(token.deep_view()),
{
    match token {
        Some(t) => {
            let value = concat2("Bearer ", t);
            if header_value_accepted(value.as_str()) {
                Some(value)
            } else {
                None
            }
        },
        None => None,
    }
}

/// A lowercase hexadecimal digit.
pub open spec fn hex_digit(d: int) -> char {
    if d < 10 {
        (48 + d) as char
    } else {
        (87 + d) as char
    }
}

/// How one character stands inside a JSON string literal: the quote, the
/// backslash and the control characters are escaped (the usual two-character
/// forms where JSON has one, `\u00XX` in lowercase hex otherwise); every
/// other character stands for itself.
pub open spec fn json_escape_char(c: char) -> Seq<char> {
    if c == '"' {
        seq!['\\', '"']
    } else if c == '\\' {
        seq!['\\', '\\']
    } else if c == '\u{8}' {
        seq!['\\', 'b']
    } else if c == '\t' {
        seq!['\\', 't']
    } else if c == '\n' {
        seq!['\\', 'n']
    } else if c == '\u{c}' {
        seq!['\\', 'f']
    } else if c == '\r' {
        seq!['\\', 'r']
    } else if (c as u32) < 32 {
        seq!['\\', 'u', '0', '0', hex_digit((c as int) / 16), hex_digit((c as int) % 16)]
    } else {
        seq![c]
    }
}

/// The characters of `s`, each escaped for a JSON string literal.
pub open spec fn json_escaped(s: Seq<char>) -> Seq<char>
    decreases s.len(),
{
    if s.len() == 0 {
        seq![]
    } else {
        json_escaped(s.drop_last()) + json_escape_char(s.last())
    }
}

/// The JSON string literal that stands for `s`: its escaped characters
/// between double quotes.
pub open spec fn json_string_literal(s: Seq<char>) -> Seq<char> {
    seq!['"'] + json_escaped(s) + seq!['"']
}

/// The JSON string literal for `s`, by `serde_json::to_string`, which writes a
/// quote, each character escaped by its table of escapes, and a quote.
/// Serializing a `str` into memory cannot fail in serde_json's source, so the
/// fallback to an empty string is never taken.
#[verifier::external_body]
fn json_quote(s: &str) -> (r: String)
    ensures
        r@ == json_string_literal(s@),
{
    serde_json::to_string(s).unwrap_or_default()
}

/// A query pair of two texts.
pub open spec fn pair(k: Seq<char>, v: Seq<char>) -> (Seq<char>, Seq<char>) {
    (k, v)
}

fn text_pair(k: &str, v: &str) -> (r: (String, String))
    ensures
        r.deep_view() == pair(k@, v@),
{
    (owned(k), owned(v))
}

/// The text search over published entries.
pub open spec fn search_entries_spec(base: Seq<char>, query: Seq<char>, token: Option<Seq<char>>) -> ApiRequestView {
    ApiRequestView {
        method: HttpMethod::Get,
        url: base + "/api/entries"@,
        query: seq![pair("q"@, query), pair("status"@, "published"@), pair("limit"@, "20"@)],
        body: None,
        authorization: authorization_for(token),
    }
}

/// The request of a text search for `query` (at most 20 published entries).
pub fn search_entries_request(base: &str, query: &str, token: Option<&str>) -> (r: ApiRequest)
    ensures
        r@ == search_entries_spec(base@, query@, token.deep_view()),
{
    let mut q: Vec<(String, String)> = Vec::new();
    q.push(text_pair("q", query));
    q.push(text_pair("status", "published"));
    q.push(text_pair("limit", "20"));
    let r = ApiRequest {
        method: HttpMethod::Get,
        url: concat2(base, "/api/entries"),
        query: q,
        body: None,
        authorization: authorization_header(token),
    };
    assert(r.query.deep_view() =~= search_entries_spec(base@, query@, token.deep_view()).query);
    r
}

/// The listing of published entries of one kind in one category.
pub open spec fn list_by_category_spec(
    base: Seq<char>,
    kind: Seq<char>,
    category: Seq<char>,
    token: Option<Seq<char>>,
) -> ApiRequestView {
    ApiRequestView {
        method: HttpMethod::Get,
        url: base + "/api/entries"@,
        query: seq![
            pair("kind"@, kind),
            pair("category"@, category),
            pair("status"@, "published"@),
            pair("limit"@, "20"@),
        ],
        body: None,
        authorization: authorization_for(token),
    }
}

/// The request listing at most 20 published entries of `kind` in `category`.
pub fn list_by_category_request(base: &str, kind: &str, category: &str, token: Option<&str>) -> (r: ApiRequest)
    ensures
        r@ == list_by_category_spec(base@, kind@, category@, token.deep_view()),
{
    let mut q: Vec<(String, String)> = Vec::new();
    q.push(text_pair("kind", kind));
    q.push(text_pair("category", category));
    q.push(text_pair("status", "published"));
    q.push(text_pair("limit", "20"));
    let r = ApiRequest {
        method: HttpMethod::Get,
        url: concat2(base, "/api/entries"),
        query: q,
        body: None,
        authorization: authorization_header(token),
    };
    assert(r.query.deep_view() =~= list_by_category_spec(base@, kind@, category@, token.deep_view()).query);
    r
}

/// The news of the last `days` days.
pub open spec fn get_news_spec(base: Seq<char>, days: nat, token: Option<Seq<char>>) -> ApiRequestView {
    ApiRequestView {
        method: HttpMethod::Get,
        url: base + "/api/news"@,
        query: seq![pair("days"@, decimal(days)), pair("status"@, "published"@), pair("limit"@, "30"@)],
        body: None,
        authorization: authorization_for(token),
    }
}

/// The request of at most 30 published news items of the last `days` days.
pub fn get_news_request(base: &str, days: u32, token: Option<&str>) -> (r: ApiRequest)
    ensures
        r@ == get_news_spec(base@, days as nat, token.deep_view()),
{
    let days_str = decimal_string(days);
    let mut q: Vec<(String, String)> = Vec::new();
    q.push(text_pair("days", days_str.as_str()));
    q.push(text_pair("status", "published"));
    q.push(text_pair("limit", "30"));
    let r = ApiRequest {
        method: HttpMethod::Get,
        url: concat2(base, "/api/news"),
        query: q,
        body: None,
        authorization: authorization_header(token),
    };
    assert(r.query.deep_view() =~= get_news_spec(base@, days as nat, token.deep_view()).query);
    r
}

/// The semantic search, open to signed-in users only.
pub open spec fn semantic_search_spec(base: Seq<char>, query: Seq<char>, token: Seq<char>) -> ApiRequestView {
    ApiRequestView {
        method: HttpMethod::Post,
        url: base + "/api/search"@,
        query: seq![],
        body: Some("{\"limit\":20,\"q\":"@ + json_string_literal(query) + "}"@),
        authorization: authorization_for(Some(token)),
    }
}

/// The request of a semantic search for `query` (at most 20 entries), with
/// the JSON body `{"limit":20,"q":...}`.
pub fn semantic_search_request(base: &str, query: &str, token: &str) -> (r: ApiRequest)
    ensures
        r@ == semantic_search_spec(base@, query@, token@),
{
    let quoted = json_quote(query);
    let r = ApiRequest {
        method: HttpMethod::Post,
        url: concat2(base, "/api/search"),
        query: Vec::new(),
        body: Some(concat3("{\"limit\":20,\"q\":", quoted.as_str(), "}")),
        authorization: authorization_header(Some(token)),
    };
    assert(r.query.deep_view() =~= Seq::<(Seq<char>, Seq<char>)>::empty());
    r
}

/// The start of the device authorization flow.
pub open spec fn device_code_spec(base: Seq<char>) -> ApiRequestView {
    ApiRequestView {
        method: HttpMethod::Post,
        url: base + "/api/auth/device/code"@,
        query: seq![],
        body: Some("{\"client_id\":\"updatenight-cli\"}"@),
        authorization: None,
    }
}

/// The request that asks the server for a device code.
pub fn device_code_request(base: &str) -> (r: ApiRequest)
    ensures
        r@ == device_code_spec(base@),
{
    let r = ApiRequest {
        method: HttpMethod::Post,
        url: concat2(base, "/api/auth/device/code"),
        query: Vec::new(),
        body: Some(owned("{\"client_id\":\"updatenight-cli\"}")),
        authorization: None,
    };
    assert(r.query.deep_view() =~= Seq::<(Seq<char>, Seq<char>)>::empty());
    r
}

/// One poll for the token of an authorized device code.
pub open spec fn device_token_spec(base: Seq<char>, device_code: Seq<char>) -> ApiRequestView {
    ApiRequestView {
        method: HttpMethod::Post,
        url: base + "/api/auth/device/token"@,
        query: seq![],
        body: Some(
            "{\"client_id\":\"updatenight-cli\",\"device_code\":"@ + json_string_literal(device_code)
                + ",\"grant_type\":\"urn:ietf:params:oauth:grant-type:device_code\"}"@,
        ),
        authorization: None,
    }
}

/// The request that polls for the token of `device_code`.
pub fn device_token_request(base: &str, device_code: &str) -> (r: ApiRequest)
    ensures
        r@ == device_token_spec(base@, device_code@),
{
    let quoted = json_quote(device_code);
    let r = ApiRequest {
        method: HttpMethod::Post,
        url: concat2(base, "/api/auth/device/token"),
        query: Vec::new(),
        body: Some(
            concat3(
                "{\"client_id\":\"updatenight-cli\",\"device_code\":",
                quoted.as_str(),
                ",\"grant_type\":\"urn:ietf:params:oauth:grant-type:device_code\"}",
            ),
        ),
        authorization: None,
    };
    assert(r.query.deep_view() =~= Seq::<(Seq<char>, Seq<char>)>::empty());
    r
}

} // verus!
