//! HTTP/HTTPS client API.
//!
//! Every call needs `http.enabled: true` in the skill manifest and a URL that
//! matches `http.allowlist`.
use vstd::prelude::*;

use crate::types::{host_outcome, SkillError};

verus! {

/// An ordered HTTP header name/value pair.
#[derive(Debug, Clone, Default)]
pub struct Header {
    pub name: String,
    pub value: String,
}

impl Header {
    pub fn new(name: &str, value: &str) -> (h: Header)
        ensures
            h.name@ == name@,
            h.value@ == value@,
    {
        Header { name: name.to_owned(), value: value.to_owned() }
    }
}

/// An HTTP cookie.
#[derive(Debug, Clone, Default)]
pub struct Cookie {
    pub name: String,
    pub value: String,
    pub domain: String,
    pub path: String,
    /// Unix timestamp; `0` = session cookie.
    pub expires: i64,
    pub secure: bool,
    pub http_only: bool,
}

/// Response returned by all HTTP calls.
#[derive(Debug, Clone, Default)]
pub struct HttpResponse {
    pub status: u32,
    pub headers: Vec<Header>,
    pub cookies: Vec<Cookie>,
    pub body: Vec<u8>,
    pub truncated: bool,
    /// The host's error text; empty when the request went through.
    pub error: String,
}

/// Request for `http_get`.
#[derive(Debug, Clone)]
pub struct HttpGetRequest {
    pub url: String,
    pub timeout_ms: i64,
    pub max_bytes: i64,
}

/// Request for `http_post`.
#[derive(Debug, Clone)]
pub struct HttpPostRequest {
    pub url: String,
    pub body: Vec<u8>,
    pub content_type: String,
    pub timeout_ms: i64,
    pub max_bytes: i64,
}

/// Options for [`http_request`].
#[derive(Debug, Clone, Default)]
pub struct HttpRequestOptions {
    /// HTTP method. Defaults to `"GET"`.
    pub method: String,
    pub url: String,
    /// Applied in listed order.
    pub headers: Vec<Header>,
    pub cookies: Vec<Cookie>,
    pub body: Vec<u8>,
    /// `0` -> 30 s default.
    pub timeout_ms: i64,
    /// `0` -> manifest limit (1 MiB default).
    pub max_bytes: i64,
    pub follow_redirects: bool,
    /// Enable the persistent per-skill cookie jar.
    pub use_jar: bool,
}

/// What an HTTP call gives back once the host has replied.
pub open spec fn http_outcome(reply: Result<HttpResponse, SkillError>) -> Result<HttpResponse, SkillError> {
    host_outcome(reply, |x: HttpResponse| x.error, |x: HttpResponse| x)
}

/// A reply with an empty error text is the call's result exactly as the
/// host gave it, every field (status, headers, body, `truncated`) included;
/// a reply with an error text fails with that text; a transport failure is
/// passed on.
pub proof fn law_http_reply_passes_through(reply: Result<HttpResponse, SkillError>)
    ensures
        reply matches Ok(x) ==> (x.error@.len() == 0 ==> http_outcome(reply) == reply),
        reply matches Ok(x) ==> (x.error@.len() != 0 ==> http_outcome(reply) == Err::<HttpResponse, SkillError>(SkillError(x.error))),
        reply is Err ==> http_outcome(reply) == reply,
{
}

fn http_finish(resp: HttpResponse) -> (r: Result<HttpResponse, SkillError>)
    ensures
        r == http_outcome(Ok(resp)),
{
    if !resp.error.as_str().is_empty() {
        return Err(SkillError(resp.error));
    }
    Ok(resp)
}

/// Perform a GET request. Requires `http.enabled`.
///
/// - `timeout_ms = 0` -> 30 s default.
/// - `max_bytes = 0` -> manifest limit or 1 MiB default.
pub fn http_get<F: FnOnce(HttpGetRequest) -> Result<HttpResponse, SkillError>>(url: &str, timeout_ms: i64, max_bytes: i64, host: F) -> (r: Result<HttpResponse, SkillError>)
    requires
        forall|q: HttpGetRequest| q.url@ == url@ && q.timeout_ms == timeout_ms && q.max_bytes == max_bytes
            ==> #[trigger] call_requires(host, (q,)),
    ensures
        exists|q: HttpGetRequest, reply: Result<HttpResponse, SkillError>|
            q.url@ == url@ && q.timeout_ms == timeout_ms && q.max_bytes == max_bytes
            && #[trigger] call_ensures(host, (q,), reply)
            && r == http_outcome(reply),
{
    let resp = host(HttpGetRequest { url: url.to_owned(), timeout_ms, max_bytes })?;
    http_finish(resp)
}

pub open spec fn is_post_request(q: HttpPostRequest, url: Seq<char>, body: Seq<u8>, content_type: Seq<char>, timeout_ms: i64, max_bytes: i64) -> bool {
    q.url@ == url && q.body@ == body && q.content_type@ == content_type && q.timeout_ms == timeout_ms
        && q.max_bytes == max_bytes
}

/// Perform a POST request. Requires `http.enabled`.
///
/// `content_type` defaults to `"application/octet-stream"` when empty.
pub fn http_post<F: FnOnce(HttpPostRequest) -> Result<HttpResponse, SkillError>>(
    url: &str,
    body: Vec<u8>,
    content_type: &str,
    timeout_ms: i64,
    max_bytes: i64,
    host: F,
) -> (r: Result<HttpResponse, SkillError>)
    requires
        forall|q: HttpPostRequest| is_post_request(q, url@, body@, content_type@, timeout_ms, max_bytes)
            ==> #[trigger] call_requires(host, (q,)),
    ensures
        exists|q: HttpPostRequest, reply: Result<HttpResponse, SkillError>|
            is_post_request(q, url@, body@, content_type@, timeout_ms, max_bytes)
            && #[trigger] call_ensures(host, (q,), reply)
            && r == http_outcome(reply),
{
    let req = HttpPostRequest {
        url: url.to_owned(),
        body,
        content_type: content_type.to_owned(),
        timeout_ms,
        max_bytes,
    };
    let resp = host(req)?;
    http_finish(resp)
}

/// Perform a fully customised HTTP request with ordered headers,
/// persistent cookie jar, and full control over method, redirects and body.
/// The host receives the options exactly as given. Requires `http.enabled`.
pub fn http_request<F: FnOnce(HttpRequestOptions) -> Result<HttpResponse, SkillError>>(opts: HttpRequestOptions, host: F) -> (r: Result<HttpResponse, SkillError>)
    requires
        call_requires(host, (opts,)),
    ensures
        exists|reply: Result<HttpResponse, SkillError>|
            #[trigger] call_ensures(host, (opts,), reply) && r == http_outcome(reply),
{
    let resp = host(opts)?;
    http_finish(resp)
}

/// The (name, value) text of each header, in order.
pub open spec fn header_pairs(hs: Seq<Header>) -> Seq<(Seq<char>, Seq<char>)> {
    hs.map_values(|h: Header| (h.name@, h.value@))
}

/// Where the scan for the closing quote of a quoted run that starts at `i`
/// stops: the index of the first unescaped `"`, or the end of the text
/// (one past the end when the text ends in a lone backslash).
pub open spec fn quote_end(s: Seq<char>, i: int) -> int
    decreases s.len() + 1 - i,
{
    if i < 0 || i >= s.len() {
        i
    } else if s[i] == '"' {
        i
    } else if s[i] == '\\' {
        quote_end(s, i + 2)
    } else {
        quote_end(s, i + 1)
    }
}

/// The first index at or after `i` that holds `"`, or an index past the end.
pub open spec fn next_quote(s: Seq<char>, i: int) -> int
    decreases s.len() - i,
{
    if i < 0 || i >= s.len() {
        i
    } else if s[i] == '"' {
        i
    } else {
        next_quote(s, i + 1)
    }
}

/// The first index at or after `i` that holds `c`, if any.
pub open spec fn find_from(s: Seq<char>, c: char, i: int) -> Option<int>
    decreases s.len() - i,
{
    if i < 0 || i >= s.len() {
        None
    } else if s[i] == c {
        Some(i)
    } else {
        find_from(s, c, i + 1)
    }
}

pub proof fn lemma_quote_end_bounds(s: Seq<char>, i: int)
    requires
        0 <= i,
    ensures
        i <= quote_end(s, i),
        i <= s.len() ==> quote_end(s, i) <= s.len() + 1,
        quote_end(s, i) < s.len() ==> s[quote_end(s, i)] == '"',
    decreases s.len() + 1 - i,
{
    if i < s.len() && s[i] != '"' {
        if s[i] == '\\' {
            lemma_quote_end_bounds(s, i + 2);
        } else {
            lemma_quote_end_bounds(s, i + 1);
        }
    }
}

pub proof fn lemma_next_quote_bounds(s: Seq<char>, i: int)
    requires
        0 <= i,
    ensures
        i <= next_quote(s, i),
        i <= s.len() ==> next_quote(s, i) <= s.len(),
        next_quote(s, i) < s.len() ==> s[next_quote(s, i)] == '"',
    decreases s.len() - i,
{
    if i < s.len() && s[i] != '"' {
        lemma_next_quote_bounds(s, i + 1);
    }
}

#[via_fn]
proof fn scan_headers_decreases(s: Seq<char>, i: int) {
    if 0 <= i < s.len() && s[i] == '"' {
        lemma_quote_end_bounds(s, i + 1);
        let key_end = quote_end(s, i + 1);
        if key_end <= s.len() {
            lemma_next_quote_bounds(s, key_end + 1);
            let q = next_quote(s, key_end + 1);
            if q < s.len() {
                lemma_quote_end_bounds(s, q + 1);
            }
        }
    }
}

/// The header pairs that the scan of a JSON object text yields from index
/// `i` on, or `None` where a quoted run ends in a lone backslash at the very
/// end of the text.
pub open spec fn scan_headers(s: Seq<char>, i: int) -> Option<Seq<(Seq<char>, Seq<char>)>>
    decreases s.len() + 1 - i,
    via scan_headers_decreases
{
    if i < 0 || i >= s.len() || s[i] == '}' {
        Some(Seq::empty())
    } else if s[i] != '"' {
        scan_headers(s, i + 1)
    } else {
        let key_end = quote_end(s, i + 1);
        if key_end > s.len() {
            None
        } else {
            let q = next_quote(s, key_end + 1);
            if q >= s.len() {
                Some(Seq::empty())
            } else {
                let val_end = quote_end(s, q + 1);
                if val_end > s.len() {
                    None
                } else {
                    match scan_headers(s, val_end + 1) {
                        Some(rest) => Some(
                            seq![(s.subrange(i + 1, key_end), s.subrange(q + 1, val_end))] + rest,
                        ),
                        None => None,
                    }
                }
            }
        }
    }
}

/// The headers that a JSON object text yields: every `"key": "value"` pair
/// after the first `{`, in source order, up to the first `}` met between
/// pairs. `None` marks the texts on which the scan runs past the end.
pub open spec fn json_headers(s: Seq<char>) -> Option<Seq<(Seq<char>, Seq<char>)>> {
    match find_from(s, '{', 0) {
        Some(p) => scan_headers(s, p + 1),
        None => Some(Seq::empty()),
    }
}

fn chars_of(s: &str) -> (v: Vec<char>)
    ensures
        v@ == s@,
{
    let mut v: Vec<char> = Vec::new();
    for c in it: s.chars()
        invariant
            v@ == it.seq().take(it.index() as int),
    {
        v.push(c);
    }
    v
}

fn find_char(chars: &Vec<char>, c: char) -> (r: Option<usize>)
    ensures
        match find_from(chars@, c, 0) {
            Some(p) => r == Some(p as usize) && 0 <= p < chars.len(),
            None => r is None,
        },
{
    let mut i: usize = 0;
    while i < chars.len()
        invariant
            i <= chars.len(),
            find_from(chars@, c, 0) == find_from(chars@, c, i as int),
        decreases chars.len() - i,
    {
        if chars[i] == c {
            return Some(i);
        }
        i = i + 1;
    }
    None
}

/// Index of the closing quote of the run that starts at `start`, skipping
/// backslash escapes; the text's length (or one more) when there is none.
fn find_quote(chars: &Vec<char>, start: usize) -> (r: usize)
    requires
        start <= chars.len(),
        chars.len() < usize::MAX,
    ensures
        r == quote_end(chars@, start as int),
{
    let mut i: usize = start;
    while i < chars.len()
        invariant
            start <= i <= chars.len() + 1,
            chars.len() < usize::MAX,
            quote_end(chars@, start as int) == quote_end(chars@, i as int),
        decreases chars.len() + 1 - i,
    {
        if chars[i] == '"' {
            return i;
        }
        if chars[i] == '\\' {
            i = i + 2;
        } else {
            i = i + 1;
        }
    }
    i
}

/// Scan a JSON object text for its header pairs, in the order in which the
/// keys appear; `None` where a quoted run ends in a lone backslash at the
/// very end of the text, where the scan would run past the end.
pub fn try_headers_from_json(json: &str) -> (result: Option<Vec<Header>>)
    requires
        json@.len() < usize::MAX,
    ensures
        match json_headers(json@) {
            Some(hs) => result matches Some(v) && header_pairs(v@) == hs,
            None => result is None,
        },
{
    let chars = chars_of(json);
    let ghost s = chars@;
    let n = chars.len();
    let mut result: Vec<Header> = Vec::new();
    let mut i: usize = match find_char(&chars, '{') {
        Some(p) => p + 1,
        None => {
            return Some(result);
        },
    };
    proof {
        assert(header_pairs(result@) =~= Seq::empty());
        match scan_headers(s, i as int) {
            Some(rest) => assert(Seq::empty() + rest =~= rest),
            None => {},
        }
    }
    loop
        invariant
            s == chars@,
            s == json@,
            n == chars.len(),
            n < usize::MAX,
            i <= n + 1,
            json_headers(s) == (match scan_headers(s, i as int) {
                Some(rest) => Some(header_pairs(result@) + rest),
                None => None,
            }),
        decreases n + 1 - i,
    {
        if i >= n || chars[i] == '}' {
            assert(header_pairs(result@) + Seq::empty() =~= header_pairs(result@));
            return Some(result);
        }
        if chars[i] != '"' {
            i = i + 1;
            continue;
        }
        let ghost at = i as int;
        i = i + 1;
        let key_end = find_quote(&chars, i);
        proof {
            lemma_quote_end_bounds(s, at + 1);
        }
        if key_end > n {
            return None;
        }
        let key = json.substring_char(i, key_end);
        let mut j: usize = key_end + 1;
        proof {
            lemma_next_quote_bounds(s, key_end + 1);
        }
        while j < n && chars[j] != '"'
            invariant
                s == chars@,
                n == chars.len(),
                key_end + 1 <= j,
                j <= key_end + 1 || j <= n,
                next_quote(s, key_end + 1) == next_quote(s, j as int),
            decreases n + 1 - j,
        {
            j = j + 1;
        }
        if j >= n {
            assert(header_pairs(result@) + Seq::empty() =~= header_pairs(result@));
            return Some(result);
        }
        let vstart = j + 1;
        let val_end = find_quote(&chars, vstart);
        proof {
            lemma_quote_end_bounds(s, vstart as int);
        }
        if val_end > n {
            return None;
        }
        let val = json.substring_char(vstart, val_end);
        let ghost before = header_pairs(result@);
        result.push(Header::new(key, val));
        proof {
            let pair = (s.subrange(at + 1, key_end as int), s.subrange(vstart as int, val_end as int));
            assert(header_pairs(result@) =~= before.push(pair));
            match scan_headers(s, val_end + 1) {
                Some(rest) => {
                    assert(scan_headers(s, at) == Some(seq![pair] + rest));
                    assert(before + (seq![pair] + rest) =~= before.push(pair) + rest);
                },
                None => {},
            }
        }
        i = val_end + 1;
    }
}

/// Parse a JSON object text into an ordered list of headers, keeping the
/// order in which the keys appear in the text.
pub fn headers_from_json(json: &str) -> (result: Vec<Header>)
    requires
        json@.len() < usize::MAX,
        json_headers(json@) is Some,
    ensures
        header_pairs(result@) == json_headers(json@)->0,
{
    match try_headers_from_json(json) {
        Some(v) => v,
        None => Vec::new(),
    }
}

/// Between pairs, every character other than a quote or `}` (spaces, tabs,
/// newlines, commas, colons, ...) is skipped: the scan from it gives what
/// the scan from the next character gives.
pub proof fn law_scan_skips_non_quote(s: Seq<char>, i: int)
    requires
        0 <= i < s.len(),
        s[i] != '"',
        s[i] != '}',
    ensures
        scan_headers(s, i) == scan_headers(s, i + 1),
{
}

/// Only `}` met between pairs ends the scan.
pub proof fn law_scan_ends_at_brace(s: Seq<char>, i: int)
    requires
        0 <= i < s.len(),
        s[i] == '}',
    ensures
        scan_headers(s, i) == Some(Seq::<(Seq<char>, Seq<char>)>::empty()),
{
}

/// Skipping a run of characters none of which is a quote or `}` leaves the
/// scan unchanged: whitespace of any length (newlines included) before a
/// pair or between pairs loses no pair.
pub proof fn law_scan_skips_run(s: Seq<char>, i: int, j: int)
    requires
        0 <= i <= j <= s.len(),
        forall|k: int| i <= k < j ==> s[k] != '"' && s[k] != '}',
    ensures
        scan_headers(s, i) == scan_headers(s, j),
    decreases j - i,
{
    if i < j {
        law_scan_skips_non_quote(s, i);
        law_scan_skips_run(s, i + 1, j);
    }
}

/// A pair whose key and value hold no quote and no backslash is read
/// whole: the headers scanned from its opening quote are that pair followed
/// by what the scan gives after the value's closing quote.
pub proof fn law_scan_reads_plain_pair(s: Seq<char>, i: int, key_end: int, q: int, val_end: int)
    requires
        0 <= i < key_end < q < val_end < s.len(),
        s[i] == '"',
        s[key_end] == '"',
        s[q] == '"',
        s[val_end] == '"',
        forall|k: int| i < k < key_end ==> s[k] != '"' && s[k] != '\\',
        forall|k: int| key_end < k < q ==> s[k] != '"',
        forall|k: int| q < k < val_end ==> s[k] != '"' && s[k] != '\\',
    ensures
        scan_headers(s, i) == (match scan_headers(s, val_end + 1) {
            Some(rest) => Some(seq![(s.subrange(i + 1, key_end), s.subrange(q + 1, val_end))] + rest),
            None => None,
        }),
{
    lemma_quote_end_plain(s, i + 1, key_end);
    lemma_next_quote_plain(s, key_end + 1, q);
    lemma_quote_end_plain(s, q + 1, val_end);
}

proof fn lemma_quote_end_plain(s: Seq<char>, i: int, e: int)
    requires
        0 <= i <= e < s.len(),
        s[e] == '"',
        forall|k: int| i <= k < e ==> s[k] != '"' && s[k] != '\\',
    ensures
        quote_end(s, i) == e,
    decreases e - i,
{
    if i < e {
        lemma_quote_end_plain(s, i + 1, e);
    }
}

proof fn lemma_next_quote_plain(s: Seq<char>, i: int, e: int)
    requires
        0 <= i <= e < s.len(),
        s[e] == '"',
        forall|k: int| i <= k < e ==> s[k] != '"',
    ensures
        next_quote(s, i) == e,
    decreases e - i,
{
    if i < e {
        lemma_next_quote_plain(s, i + 1, e);
    }
}

} // verus!
