use vstd::prelude::*;
use crate::json::{JsonValue, lookup, key_at, lemma_lookup_at, lemma_lookup_absent, member, member_index};
use crate::payload::{Headers, Http, RequestContext, Payload, headers_are_empty};

verus! {

/// Why a JSON value is not an envelope.
#[derive(Clone, Copy, Debug, PartialEq, Eq, Structural)]
pub enum WireError {
    /// The value is not a JSON object.
    NotAnObject,
    /// A required member is missing, or a member holds a value of the wrong kind.
    BadField,
}

/// The string held by the required member `key`.
pub open spec fn req_str(fs: Seq<(String, JsonValue)>, key: Seq<char>) -> Option<String> {
    match lookup(fs, key) {
        Some(JsonValue::Str(s)) => Some(s),
        _ => None,
    }
}

/// The integer held by the required member `key`, where it fits in an `i64`.
pub open spec fn req_i64(fs: Seq<(String, JsonValue)>, key: Seq<char>) -> Option<i64> {
    match lookup(fs, key) {
        Some(JsonValue::Int(n)) => if i64::MIN <= n <= i64::MAX {
            Some(n as i64)
        } else {
            None
        },
        _ => None,
    }
}

/// The boolean held by the required member `key`.
pub open spec fn req_bool(fs: Seq<(String, JsonValue)>, key: Seq<char>) -> Option<bool> {
    match lookup(fs, key) {
        Some(JsonValue::Bool(b)) => Some(b),
        _ => None,
    }
}

fn take_str(fs: &Vec<(String, JsonValue)>, key: &str) -> (r: Option<String>)
    ensures
        r == req_str(fs@, key@),
{
    match member(fs, key) {
        Some(JsonValue::Str(s)) => Some(s.clone()),
        _ => None,
    }
}

fn take_i64(fs: &Vec<(String, JsonValue)>, key: &str) -> (r: Option<i64>)
    ensures
        r == req_i64(fs@, key@),
{
    match member(fs, key) {
        Some(JsonValue::Int(n)) => if i64::MIN as i128 <= *n && *n <= i64::MAX as i128 {
            Some(*n as i64)
        } else {
            None
        },
        _ => None,
    }
}

fn take_bool(fs: &Vec<(String, JsonValue)>, key: &str) -> (r: Option<bool>)
    ensures
        r == req_bool(fs@, key@),
{
    match member(fs, key) {
        Some(JsonValue::Bool(b)) => Some(*b),
        _ => None,
    }
}

/// The HTTP details that a JSON value spells, if it spells them.
pub open spec fn http_of(v: JsonValue) -> Option<Http> {
    match v {
        JsonValue::Object(fs) => {
            let f = fs@;
            if req_str(f, "method"@) is Some && req_str(f, "path"@) is Some && req_str(
                f,
                "protocol"@,
            ) is Some && req_str(f, "sourceIp"@) is Some && req_str(f, "userAgent"@) is Some {
                Some(
                    Http {
                        method: req_str(f, "method"@)->Some_0,
                        path: req_str(f, "path"@)->Some_0,
                        protocol: req_str(f, "protocol"@)->Some_0,
                        source_ip: req_str(f, "sourceIp"@)->Some_0,
                        user_agent: req_str(f, "userAgent"@)->Some_0,
                    },
                )
            } else {
                None
            }
        },
        _ => None,
    }
}

/// `v` is the wire form of `h`: one member per field, in declaration order.
pub open spec fn http_json(h: Http, v: JsonValue) -> bool {
    match v {
        JsonValue::Object(fs) => {
            let f = fs@;
            &&& f.len() == 5
            &&& f[0].0@ == "method"@ && f[0].1 == JsonValue::Str(h.method)
            &&& f[1].0@ == "path"@ && f[1].1 == JsonValue::Str(h.path)
            &&& f[2].0@ == "protocol"@ && f[2].1 == JsonValue::Str(h.protocol)
            &&& f[3].0@ == "sourceIp"@ && f[3].1 == JsonValue::Str(h.source_ip)
            &&& f[4].0@ == "userAgent"@ && f[4].1 == JsonValue::Str(h.user_agent)
        },
        _ => false,
    }
}

/// Reads HTTP details from their wire form.
pub fn decode_http(v: &JsonValue) -> (r: Option<Http>)
    ensures
        r == http_of(*v),
{
    match v {
        JsonValue::Object(fs) => {
            let method = take_str(fs, "method");
            let path = take_str(fs, "path");
            let protocol = take_str(fs, "protocol");
            let source_ip = take_str(fs, "sourceIp");
            let user_agent = take_str(fs, "userAgent");
            match (method, path, protocol, source_ip, user_agent) {
                (Some(method), Some(path), Some(protocol), Some(source_ip), Some(user_agent)) => {
                    Some(Http { method, path, protocol, source_ip, user_agent })
                },
                _ => None,
            }
        },
        _ => None,
    }
}

/// Writes HTTP details in their wire form.
pub fn encode_http(h: Http) -> (r: JsonValue)
    ensures
        http_json(h, r),
{
    JsonValue::Object(
        vec![
            ("method".to_owned(), JsonValue::Str(h.method)),
            ("path".to_owned(), JsonValue::Str(h.path)),
            ("protocol".to_owned(), JsonValue::Str(h.protocol)),
            ("sourceIp".to_owned(), JsonValue::Str(h.source_ip)),
            ("userAgent".to_owned(), JsonValue::Str(h.user_agent)),
        ],
    )
}

/// Reading back the wire form of HTTP details gives the same details.
pub proof fn lemma_http_round_trip(h: Http, v: JsonValue)
    requires
        http_json(h, v),
    ensures
        http_of(v) == Some(h),
{
    reveal_strlit("method");
    reveal_strlit("path");
    reveal_strlit("protocol");
    reveal_strlit("sourceIp");
    reveal_strlit("userAgent");
    let f = v->Object_0@;
    assert("method"@.len() == 6 && "path"@.len() == 4 && "protocol"@.len() == 8);
    assert("sourceIp"@.len() == 8 && "userAgent"@.len() == 9);
    assert("protocol"@[0] != "sourceIp"@[0]);
    assert(key_at(f, "method"@, 0));
    assert(key_at(f, "path"@, 1));
    assert(key_at(f, "protocol"@, 2));
    assert(key_at(f, "sourceIp"@, 3));
    assert(key_at(f, "userAgent"@, 4));
    lemma_lookup_at(f, "method"@, 0);
    lemma_lookup_at(f, "path"@, 1);
    lemma_lookup_at(f, "protocol"@, 2);
    lemma_lookup_at(f, "sourceIp"@, 3);
    lemma_lookup_at(f, "userAgent"@, 4);
}

/// The optional header member `key` holds a string, or is absent.
pub open spec fn header_fits(fs: Seq<(String, JsonValue)>, key: Seq<char>) -> bool {
    match lookup(fs, key) {
        None => true,
        Some(JsonValue::Str(_)) => true,
        _ => false,
    }
}

/// `s` is what the optional header member `key` gives: its string, or the
/// empty string where it is absent.
pub open spec fn header_slot(fs: Seq<(String, JsonValue)>, key: Seq<char>, s: String) -> bool {
    match lookup(fs, key) {
        Some(JsonValue::Str(t)) => s == t,
        None => s@ == Seq::<char>::empty(),
        _ => false,
    }
}

fn take_header(fs: &Vec<(String, JsonValue)>, key: &str) -> (r: Option<String>)
    ensures
        r is Some <==> header_fits(fs@, key@),
        r is Some ==> header_slot(fs@, key@, r->Some_0),
{
    match member(fs, key) {
        Some(JsonValue::Str(s)) => Some(s.clone()),
        Some(_) => None,
        None => Some(String::new()),
    }
}

/// The wire names of the headers, in declaration order.
pub open spec fn header_names() -> Seq<Seq<char>> {
    seq![
        "sec-fetch-mode"@,
        "x-amzn-tls-version"@,
        "sec-fetch-site"@,
        "x-forwarded-proto"@,
        "accept-language"@,
        "x-forwarded-port"@,
        "x-forwarded-for"@,
        "accept"@,
        "x-amzn-tls-cipher-suite"@,
        "x-amzn-trace-id"@,
        "host"@,
        "accept-encoding"@,
        "user-agent"@,
        "sec-fetch-dest"@,
    ]
}

/// Every header member among `f` holds a string or is absent.
pub open spec fn headers_fit(f: Seq<(String, JsonValue)>) -> bool {
    &&& header_fits(f, "sec-fetch-mode"@)
    &&& header_fits(f, "x-amzn-tls-version"@)
    &&& header_fits(f, "sec-fetch-site"@)
    &&& header_fits(f, "x-forwarded-proto"@)
    &&& header_fits(f, "accept-language"@)
    &&& header_fits(f, "x-forwarded-port"@)
    &&& header_fits(f, "x-forwarded-for"@)
    &&& header_fits(f, "accept"@)
    &&& header_fits(f, "x-amzn-tls-cipher-suite"@)
    &&& header_fits(f, "x-amzn-trace-id"@)
    &&& header_fits(f, "host"@)
    &&& header_fits(f, "accept-encoding"@)
    &&& header_fits(f, "user-agent"@)
    &&& header_fits(f, "sec-fetch-dest"@)
}

/// `h` holds what the header members among `f` give.
pub open spec fn headers_from(f: Seq<(String, JsonValue)>, h: Headers) -> bool {
    &&& header_slot(f, "sec-fetch-mode"@, h.sec_fetch_mode)
    &&& header_slot(f, "x-amzn-tls-version"@, h.x_amzn_tls_version)
    &&& header_slot(f, "sec-fetch-site"@, h.sec_fetch_site)
    &&& header_slot(f, "x-forwarded-proto"@, h.x_forwarded_proto)
    &&& header_slot(f, "accept-language"@, h.accept_language)
    &&& header_slot(f, "x-forwarded-port"@, h.x_forwarded_port)
    &&& header_slot(f, "x-forwarded-for"@, h.x_forwarded_for)
    &&& header_slot(f, "accept"@, h.accept)
    &&& header_slot(f, "x-amzn-tls-cipher-suite"@, h.x_amzn_tls_cipher_suite)
    &&& header_slot(f, "x-amzn-trace-id"@, h.x_amzn_trace_id)
    &&& header_slot(f, "host"@, h.host)
    &&& header_slot(f, "accept-encoding"@, h.accept_encoding)
    &&& header_slot(f, "user-agent"@, h.user_agent)
    &&& header_slot(f, "sec-fetch-dest"@, h.sec_fetch_dest)
}

/// Reads the headers from their wire form. Headers that are absent are empty;
/// members that name no header are ignored.
pub fn decode_headers(v: &JsonValue) -> (r: Option<Headers>)
    ensures
        r is Some <==> (v is Object && headers_fit(v->Object_0@)),
        r is Some ==> headers_from(v->Object_0@, r->Some_0),
{
    match v {
        JsonValue::Object(fs) => {
            let sec_fetch_mode = match take_header(fs, "sec-fetch-mode") {
                Some(s) => s,
                None => return None,
            };
            let x_amzn_tls_version = match take_header(fs, "x-amzn-tls-version") {
                Some(s) => s,
                None => return None,
            };
            let sec_fetch_site = match take_header(fs, "sec-fetch-site") {
                Some(s) => s,
                None => return None,
            };
            let x_forwarded_proto = match take_header(fs, "x-forwarded-proto") {
                Some(s) => s,
                None => return None,
            };
            let accept_language = match take_header(fs, "accept-language") {
                Some(s) => s,
                None => return None,
            };
            let x_forwarded_port = match take_header(fs, "x-forwarded-port") {
                Some(s) => s,
                None => return None,
            };
            let x_forwarded_for = match take_header(fs, "x-forwarded-for") {
                Some(s) => s,
                None => return None,
            };
            let accept = match take_header(fs, "accept") {
                Some(s) => s,
                None => return None,
            };
            let x_amzn_tls_cipher_suite = match take_header(fs, "x-amzn-tls-cipher-suite") {
                Some(s) => s,
                None => return None,
            };
            let x_amzn_trace_id = match take_header(fs, "x-amzn-trace-id") {
                Some(s) => s,
                None => return None,
            };
            let host = match take_header(fs, "host") {
                Some(s) => s,
                None => return None,
            };
            let accept_encoding = match take_header(fs, "accept-encoding") {
                Some(s) => s,
                None => return None,
            };
            let user_agent = match take_header(fs, "user-agent") {
                Some(s) => s,
                None => return None,
            };
            let sec_fetch_dest = match take_header(fs, "sec-fetch-dest") {
                Some(s) => s,
                None => return None,
            };
            Some(
                Headers {
                    sec_fetch_mode,
                    x_amzn_tls_version,
                    sec_fetch_site,
                    x_forwarded_proto,
                    accept_language,
                    x_forwarded_port,
                    x_forwarded_for,
                    accept,
                    x_amzn_tls_cipher_suite,
                    x_amzn_trace_id,
                    host,
                    accept_encoding,
                    user_agent,
                    sec_fetch_dest,
                },
            )
        },
        _ => None,
    }
}

/// `v` is the wire form of `h`: one string member per header, in declaration order.
pub open spec fn headers_json(h: Headers, v: JsonValue) -> bool {
    match v {
        JsonValue::Object(fs) => {
            let f = fs@;
            &&& f.len() == 14
            &&& f[0].0@ == "sec-fetch-mode"@ && f[0].1 == JsonValue::Str(h.sec_fetch_mode)
            &&& f[1].0@ == "x-amzn-tls-version"@ && f[1].1 == JsonValue::Str(h.x_amzn_tls_version)
            &&& f[2].0@ == "sec-fetch-site"@ && f[2].1 == JsonValue::Str(h.sec_fetch_site)
            &&& f[3].0@ == "x-forwarded-proto"@ && f[3].1 == JsonValue::Str(h.x_forwarded_proto)
            &&& f[4].0@ == "accept-language"@ && f[4].1 == JsonValue::Str(h.accept_language)
            &&& f[5].0@ == "x-forwarded-port"@ && f[5].1 == JsonValue::Str(h.x_forwarded_port)
            &&& f[6].0@ == "x-forwarded-for"@ && f[6].1 == JsonValue::Str(h.x_forwarded_for)
            &&& f[7].0@ == "accept"@ && f[7].1 == JsonValue::Str(h.accept)
            &&& f[8].0@ == "x-amzn-tls-cipher-suite"@ && f[8].1 == JsonValue::Str(h.x_amzn_tls_cipher_suite)
            &&& f[9].0@ == "x-amzn-trace-id"@ && f[9].1 == JsonValue::Str(h.x_amzn_trace_id)
            &&& f[10].0@ == "host"@ && f[10].1 == JsonValue::Str(h.host)
            &&& f[11].0@ == "accept-encoding"@ && f[11].1 == JsonValue::Str(h.accept_encoding)
            &&& f[12].0@ == "user-agent"@ && f[12].1 == JsonValue::Str(h.user_agent)
            &&& f[13].0@ == "sec-fetch-dest"@ && f[13].1 == JsonValue::Str(h.sec_fetch_dest)
        },
        _ => false,
    }
}

/// Writes the headers in their wire form.
pub fn encode_headers(h: Headers) -> (r: JsonValue)
    ensures
        headers_json(h, r),
{
    JsonValue::Object(
        vec![
            ("sec-fetch-mode".to_owned(), JsonValue::Str(h.sec_fetch_mode)),
            ("x-amzn-tls-version".to_owned(), JsonValue::Str(h.x_amzn_tls_version)),
            ("sec-fetch-site".to_owned(), JsonValue::Str(h.sec_fetch_site)),
            ("x-forwarded-proto".to_owned(), JsonValue::Str(h.x_forwarded_proto)),
            ("accept-language".to_owned(), JsonValue::Str(h.accept_language)),
            ("x-forwarded-port".to_owned(), JsonValue::Str(h.x_forwarded_port)),
            ("x-forwarded-for".to_owned(), JsonValue::Str(h.x_forwarded_for)),
            ("accept".to_owned(), JsonValue::Str(h.accept)),
            ("x-amzn-tls-cipher-suite".to_owned(), JsonValue::Str(h.x_amzn_tls_cipher_suite)),
            ("x-amzn-trace-id".to_owned(), JsonValue::Str(h.x_amzn_trace_id)),
            ("host".to_owned(), JsonValue::Str(h.host)),
            ("accept-encoding".to_owned(), JsonValue::Str(h.accept_encoding)),
            ("user-agent".to_owned(), JsonValue::Str(h.user_agent)),
            ("sec-fetch-dest".to_owned(), JsonValue::Str(h.sec_fetch_dest)),
        ],
    )
}

/// Reading back the wire form of headers gives the same headers.
pub proof fn lemma_headers_round_trip(h: Headers, v: JsonValue, g: Headers)
    requires
        headers_json(h, v),
        headers_from(v->Object_0@, g),
    ensures
        headers_fit(v->Object_0@),
        g == h,
{
    let f = v->Object_0@;
    reveal_strlit("sec-fetch-mode");
    reveal_strlit("x-amzn-tls-version");
    reveal_strlit("sec-fetch-site");
    reveal_strlit("x-forwarded-proto");
    reveal_strlit("accept-language");
    reveal_strlit("x-forwarded-port");
    reveal_strlit("x-forwarded-for");
    reveal_strlit("accept");
    reveal_strlit("x-amzn-tls-cipher-suite");
    reveal_strlit("x-amzn-trace-id");
    reveal_strlit("host");
    reveal_strlit("accept-encoding");
    reveal_strlit("user-agent");
    reveal_strlit("sec-fetch-dest");
    assert("sec-fetch-mode"@.len() == 14 && "x-amzn-tls-version"@.len() == 18 && "sec-fetch-site"@.len() == 14);
    assert("x-forwarded-proto"@.len() == 17 && "accept-language"@.len() == 15 && "x-forwarded-port"@.len() == 16);
    assert("x-forwarded-for"@.len() == 15 && "accept"@.len() == 6 && "x-amzn-tls-cipher-suite"@.len() == 23);
    assert("x-amzn-trace-id"@.len() == 15 && "host"@.len() == 4 && "accept-encoding"@.len() == 15);
    assert("user-agent"@.len() == 10 && "sec-fetch-dest"@.len() == 14);
    assert("sec-fetch-mode"@[10] != "sec-fetch-site"@[10]);
    assert("sec-fetch-mode"@[10] != "sec-fetch-dest"@[10]);
    assert("sec-fetch-site"@[10] != "sec-fetch-dest"@[10]);
    assert("accept-language"@[0] != "x-forwarded-for"@[0]);
    assert("accept-language"@[0] != "x-amzn-trace-id"@[0]);
    assert("accept-language"@[7] != "accept-encoding"@[7]);
    assert("x-forwarded-for"@[2] != "x-amzn-trace-id"@[2]);
    assert("x-forwarded-for"@[0] != "accept-encoding"@[0]);
    assert("x-amzn-trace-id"@[0] != "accept-encoding"@[0]);
    assert(key_at(f, "sec-fetch-mode"@, 0));
    lemma_lookup_at(f, "sec-fetch-mode"@, 0);
    assert(key_at(f, "x-amzn-tls-version"@, 1));
    lemma_lookup_at(f, "x-amzn-tls-version"@, 1);
    assert(key_at(f, "sec-fetch-site"@, 2));
    lemma_lookup_at(f, "sec-fetch-site"@, 2);
    assert(key_at(f, "x-forwarded-proto"@, 3));
    lemma_lookup_at(f, "x-forwarded-proto"@, 3);
    assert(key_at(f, "accept-language"@, 4));
    lemma_lookup_at(f, "accept-language"@, 4);
    assert(key_at(f, "x-forwarded-port"@, 5));
    lemma_lookup_at(f, "x-forwarded-port"@, 5);
    assert(key_at(f, "x-forwarded-for"@, 6));
    lemma_lookup_at(f, "x-forwarded-for"@, 6);
    assert(key_at(f, "accept"@, 7));
    lemma_lookup_at(f, "accept"@, 7);
    assert(key_at(f, "x-amzn-tls-cipher-suite"@, 8));
    lemma_lookup_at(f, "x-amzn-tls-cipher-suite"@, 8);
    assert(key_at(f, "x-amzn-trace-id"@, 9));
    lemma_lookup_at(f, "x-amzn-trace-id"@, 9);
    assert(key_at(f, "host"@, 10));
    lemma_lookup_at(f, "host"@, 10);
    assert(key_at(f, "accept-encoding"@, 11));
    lemma_lookup_at(f, "accept-encoding"@, 11);
    assert(key_at(f, "user-agent"@, 12));
    lemma_lookup_at(f, "user-agent"@, 12);
    assert(key_at(f, "sec-fetch-dest"@, 13));
    lemma_lookup_at(f, "sec-fetch-dest"@, 13);
}

/// The request context that a JSON value spells, if it spells one.
pub open spec fn context_of(v: JsonValue) -> Option<RequestContext> {
    match v {
        JsonValue::Object(fs) => {
            let f = fs@;
            let http = match lookup(f, "http"@) {
                Some(hv) => http_of(hv),
                None => None,
            };
            if req_str(f, "accountId"@) is Some
                && req_str(f, "apiId"@) is Some
                && req_str(f, "domainName"@) is Some
                && req_str(f, "domainPrefix"@) is Some
                && http is Some
                && req_str(f, "requestId"@) is Some
                && req_str(f, "routeKey"@) is Some
                && req_str(f, "stage"@) is Some
                && req_str(f, "time"@) is Some
                && req_i64(f, "timeEpoch"@) is Some {
                Some(
                    RequestContext {
                        account_id: req_str(f, "accountId"@)->Some_0,
                        api_id: req_str(f, "apiId"@)->Some_0,
                        domain_name: req_str(f, "domainName"@)->Some_0,
                        domain_prefix: req_str(f, "domainPrefix"@)->Some_0,
                        http: http->Some_0,
                        request_id: req_str(f, "requestId"@)->Some_0,
                        route_key: req_str(f, "routeKey"@)->Some_0,
                        stage: req_str(f, "stage"@)->Some_0,
                        time: req_str(f, "time"@)->Some_0,
                        time_epoch: req_i64(f, "timeEpoch"@)->Some_0,
                    },
                )
            } else {
                None
            }
        },
        _ => None,
    }
}

/// `v` is the wire form of `c`: one member per field, in declaration order.
pub open spec fn context_json(c: RequestContext, v: JsonValue) -> bool {
    match v {
        JsonValue::Object(fs) => {
            let f = fs@;
            &&& f.len() == 10
            &&& f[0].0@ == "accountId"@ && f[0].1 == JsonValue::Str(c.account_id)
            &&& f[1].0@ == "apiId"@ && f[1].1 == JsonValue::Str(c.api_id)
            &&& f[2].0@ == "domainName"@ && f[2].1 == JsonValue::Str(c.domain_name)
            &&& f[3].0@ == "domainPrefix"@ && f[3].1 == JsonValue::Str(c.domain_prefix)
            &&& f[4].0@ == "http"@ && http_json(c.http, f[4].1)
            &&& f[5].0@ == "requestId"@ && f[5].1 == JsonValue::Str(c.request_id)
            &&& f[6].0@ == "routeKey"@ && f[6].1 == JsonValue::Str(c.route_key)
            &&& f[7].0@ == "stage"@ && f[7].1 == JsonValue::Str(c.stage)
            &&& f[8].0@ == "time"@ && f[8].1 == JsonValue::Str(c.time)
            &&& f[9].0@ == "timeEpoch"@ && f[9].1 == JsonValue::Int(c.time_epoch as i128)
        },
        _ => false,
    }
}

/// Reads a request context from its wire form.
pub fn decode_context(v: &JsonValue) -> (r: Option<RequestContext>)
    ensures
        r == context_of(*v),
{
    match v {
        JsonValue::Object(fs) => {
            let http = match member(fs, "http") {
                Some(hv) => decode_http(hv),
                None => None,
            };
            let account_id = take_str(fs, "accountId");
            let api_id = take_str(fs, "apiId");
            let domain_name = take_str(fs, "domainName");
            let domain_prefix = take_str(fs, "domainPrefix");
            let request_id = take_str(fs, "requestId");
            let route_key = take_str(fs, "routeKey");
            let stage = take_str(fs, "stage");
            let time = take_str(fs, "time");
            let time_epoch = take_i64(fs, "timeEpoch");
            match (account_id, api_id, domain_name, domain_prefix, http, request_id, route_key, stage, time, time_epoch) {
                (Some(account_id), Some(api_id), Some(domain_name), Some(domain_prefix), Some(http), Some(request_id), Some(route_key), Some(stage), Some(time), Some(time_epoch)) => Some(
                    RequestContext {
                        account_id,
                        api_id,
                        domain_name,
                        domain_prefix,
                        http,
                        request_id,
                        route_key,
                        stage,
                        time,
                        time_epoch,
                    },
                ),
                _ => None,
            }
        },
        _ => None,
    }
}

/// Writes a request context in its wire form.
pub fn encode_context(c: RequestContext) -> (r: JsonValue)
    ensures
        context_json(c, r),
{
    JsonValue::Object(
        vec![
            ("accountId".to_owned(), JsonValue::Str(c.account_id)),
            ("apiId".to_owned(), JsonValue::Str(c.api_id)),
            ("domainName".to_owned(), JsonValue::Str(c.domain_name)),
            ("domainPrefix".to_owned(), JsonValue::Str(c.domain_prefix)),
            ("http".to_owned(), encode_http(c.http)),
            ("requestId".to_owned(), JsonValue::Str(c.request_id)),
            ("routeKey".to_owned(), JsonValue::Str(c.route_key)),
            ("stage".to_owned(), JsonValue::Str(c.stage)),
            ("time".to_owned(), JsonValue::Str(c.time)),
            ("timeEpoch".to_owned(), JsonValue::Int(c.time_epoch as i128)),
        ],
    )
}

/// Reading back the wire form of a request context gives the same context.
pub proof fn lemma_context_round_trip(c: RequestContext, v: JsonValue)
    requires
        context_json(c, v),
    ensures
        context_of(v) == Some(c),
{
    let f = v->Object_0@;
    reveal_strlit("accountId");
    reveal_strlit("apiId");
    reveal_strlit("domainName");
    reveal_strlit("domainPrefix");
    reveal_strlit("http");
    reveal_strlit("requestId");
    reveal_strlit("routeKey");
    reveal_strlit("stage");
    reveal_strlit("time");
    reveal_strlit("timeEpoch");
    assert("accountId"@.len() == 9 && "apiId"@.len() == 5 && "domainName"@.len() == 10);
    assert("domainPrefix"@.len() == 12 && "http"@.len() == 4 && "requestId"@.len() == 9);
    assert("routeKey"@.len() == 8 && "stage"@.len() == 5 && "time"@.len() == 4);
    assert("timeEpoch"@.len() == 9);
    assert("accountId"@[0] != "requestId"@[0]);
    assert("accountId"@[0] != "timeEpoch"@[0]);
    assert("apiId"@[0] != "stage"@[0]);
    assert("http"@[0] != "time"@[0]);
    assert("requestId"@[0] != "timeEpoch"@[0]);
    assert(key_at(f, "accountId"@, 0));
    lemma_lookup_at(f, "accountId"@, 0);
    assert(key_at(f, "apiId"@, 1));
    lemma_lookup_at(f, "apiId"@, 1);
    assert(key_at(f, "domainName"@, 2));
    lemma_lookup_at(f, "domainName"@, 2);
    assert(key_at(f, "domainPrefix"@, 3));
    lemma_lookup_at(f, "domainPrefix"@, 3);
    assert(key_at(f, "http"@, 4));
    lemma_lookup_at(f, "http"@, 4);
    assert(key_at(f, "requestId"@, 5));
    lemma_lookup_at(f, "requestId"@, 5);
    assert(key_at(f, "routeKey"@, 6));
    lemma_lookup_at(f, "routeKey"@, 6);
    assert(key_at(f, "stage"@, 7));
    lemma_lookup_at(f, "stage"@, 7);
    assert(key_at(f, "time"@, 8));
    lemma_lookup_at(f, "time"@, 8);
    assert(key_at(f, "timeEpoch"@, 9));
    lemma_lookup_at(f, "timeEpoch"@, 9);
    lemma_http_round_trip(c.http, f[4].1);
}

/// The body that the members `f` carry: absent where the member is absent or null.
pub open spec fn body_of(f: Seq<(String, JsonValue)>) -> Option<JsonValue> {
    match lookup(f, "body"@) {
        Some(JsonValue::Null) => None,
        Some(b) => Some(b),
        None => None,
    }
}

/// The members `f` hold every field that an envelope needs, each of the right kind.
pub open spec fn payload_fits(f: Seq<(String, JsonValue)>) -> bool {
    &&& req_str(f, "version"@) is Some
    &&& req_str(f, "routeKey"@) is Some
    &&& req_str(f, "rawPath"@) is Some
    &&& req_str(f, "rawQueryString"@) is Some
    &&& lookup(f, "headers"@) is Some
    &&& lookup(f, "headers"@)->Some_0 is Object
    &&& headers_fit(lookup(f, "headers"@)->Some_0->Object_0@)
    &&& lookup(f, "requestContext"@) is Some
    &&& context_of(lookup(f, "requestContext"@)->Some_0) is Some
    &&& req_bool(f, "isBase64Encoded"@) is Some
}

/// `p` holds what the members `f` give.
pub open spec fn payload_from(f: Seq<(String, JsonValue)>, p: Payload<JsonValue>) -> bool {
    &&& p.version == req_str(f, "version"@)->Some_0
    &&& p.route_key == req_str(f, "routeKey"@)->Some_0
    &&& p.raw_path == req_str(f, "rawPath"@)->Some_0
    &&& p.raw_query_string == req_str(f, "rawQueryString"@)->Some_0
    &&& headers_from(lookup(f, "headers"@)->Some_0->Object_0@, p.headers)
    &&& p.request_context == context_of(lookup(f, "requestContext"@)->Some_0)->Some_0
    &&& p.is_base64encoded == req_bool(f, "isBase64Encoded"@)->Some_0
    &&& p.body == body_of(f)
}

/// `r` is what reading an envelope from `v` gives.
pub open spec fn decodes(v: JsonValue, r: Result<Payload<JsonValue>, WireError>) -> bool {
    match v {
        JsonValue::Object(fs) => if payload_fits(fs@) {
            r is Ok && payload_from(fs@, r->Ok_0)
        } else {
            r == Err::<Payload<JsonValue>, WireError>(WireError::BadField)
        },
        _ => r == Err::<Payload<JsonValue>, WireError>(WireError::NotAnObject),
    }
}

/// `v` is the wire form of `p`: one member per field in declaration order, the
/// body last and only where it is present.
pub open spec fn payload_json(p: Payload<JsonValue>, v: JsonValue) -> bool {
    match v {
        JsonValue::Object(fs) => {
            let f = fs@;
            &&& f.len() == if p.body is Some { 8int } else { 7int }
            &&& f[0].0@ == "version"@ && f[0].1 == JsonValue::Str(p.version)
            &&& f[1].0@ == "routeKey"@ && f[1].1 == JsonValue::Str(p.route_key)
            &&& f[2].0@ == "rawPath"@ && f[2].1 == JsonValue::Str(p.raw_path)
            &&& f[3].0@ == "rawQueryString"@ && f[3].1 == JsonValue::Str(p.raw_query_string)
            &&& f[4].0@ == "headers"@ && headers_json(p.headers, f[4].1)
            &&& f[5].0@ == "requestContext"@ && context_json(p.request_context, f[5].1)
            &&& f[6].0@ == "isBase64Encoded"@ && f[6].1 == JsonValue::Bool(p.is_base64encoded)
            &&& p.body is Some ==> f[7].0@ == "body"@ && f[7].1 == p.body->Some_0
        },
        _ => false,
    }
}

/// Reads an envelope from its wire form. Members that name no field are
/// ignored; a null body counts as absent.
pub fn decode_payload(v: JsonValue) -> (r: Result<Payload<JsonValue>, WireError>)
    ensures
        decodes(v, r),
{
    match v {
        JsonValue::Object(mut fs) => {
            let ghost f = fs@;
            let version = take_str(&fs, "version");
            let route_key = take_str(&fs, "routeKey");
            let raw_path = take_str(&fs, "rawPath");
            let raw_query_string = take_str(&fs, "rawQueryString");
            let headers = match member(&fs, "headers") {
                Some(hv) => decode_headers(hv),
                None => None,
            };
            let request_context = match member(&fs, "requestContext") {
                Some(cv) => decode_context(cv),
                None => None,
            };
            let is_base64encoded = take_bool(&fs, "isBase64Encoded");
            match (version, route_key, raw_path, raw_query_string, headers, request_context, is_base64encoded) {
                (
                    Some(version),
                    Some(route_key),
                    Some(raw_path),
                    Some(raw_query_string),
                    Some(headers),
                    Some(request_context),
                    Some(is_base64encoded),
                ) => {
                    let body = match member_index(&fs, "body") {
                        Some(i) => {
                            proof {
                                lemma_lookup_at(f, "body"@, i as int);
                            }
                            let (_, b) = fs.remove(i);
                            match b {
                                JsonValue::Null => None,
                                b => Some(b),
                            }
                        },
                        None => None,
                    };
                    Ok(
                        Payload {
                            version,
                            route_key,
                            raw_path,
                            raw_query_string,
                            headers,
                            request_context,
                            is_base64encoded,
                            body,
                        },
                    )
                },
                _ => Err(WireError::BadField),
            }
        },
        _ => Err(WireError::NotAnObject),
    }
}

/// Writes an envelope in its wire form; an absent body leaves no member.
pub fn encode_payload(p: Payload<JsonValue>) -> (r: JsonValue)
    ensures
        payload_json(p, r),
{
    let mut fs = vec![
        ("version".to_owned(), JsonValue::Str(p.version)),
        ("routeKey".to_owned(), JsonValue::Str(p.route_key)),
        ("rawPath".to_owned(), JsonValue::Str(p.raw_path)),
        ("rawQueryString".to_owned(), JsonValue::Str(p.raw_query_string)),
        ("headers".to_owned(), encode_headers(p.headers)),
        ("requestContext".to_owned(), encode_context(p.request_context)),
        ("isBase64Encoded".to_owned(), JsonValue::Bool(p.is_base64encoded)),
    ];
    match p.body {
        Some(b) => fs.push(("body".to_owned(), b)),
        None => {},
    }
    JsonValue::Object(fs)
}

/// Writing an envelope and reading it back gives the same envelope, unless
/// its body is a present JSON null (which reads back as absent); an absent
/// body leaves no `body` member in the wire form.
pub proof fn law_round_trip(p: Payload<JsonValue>, v: JsonValue, r: Result<Payload<JsonValue>, WireError>)
    requires
        payload_json(p, v),
        decodes(v, r),
        p.body != Some(JsonValue::Null),
    ensures
        r == Ok::<Payload<JsonValue>, WireError>(p),
        p.body is None ==> lookup(v->Object_0@, "body"@) is None,
{
    let f = v->Object_0@;
    reveal_strlit("version");
    reveal_strlit("routeKey");
    reveal_strlit("rawPath");
    reveal_strlit("rawQueryString");
    reveal_strlit("headers");
    reveal_strlit("requestContext");
    reveal_strlit("isBase64Encoded");
    reveal_strlit("body");
    assert("version"@.len() == 7 && "routeKey"@.len() == 8 && "rawPath"@.len() == 7);
    assert("rawQueryString"@.len() == 14 && "headers"@.len() == 7 && "requestContext"@.len() == 14);
    assert("isBase64Encoded"@.len() == 15 && "body"@.len() == 4);
    assert("version"@[0] != "rawPath"@[0]);
    assert("version"@[0] != "headers"@[0]);
    assert("rawPath"@[0] != "headers"@[0]);
    assert("rawQueryString"@[1] != "requestContext"@[1]);
    assert(key_at(f, "version"@, 0));
    assert(key_at(f, "routeKey"@, 1));
    assert(key_at(f, "rawPath"@, 2));
    assert(key_at(f, "rawQueryString"@, 3));
    assert(key_at(f, "headers"@, 4));
    assert(key_at(f, "requestContext"@, 5));
    assert(key_at(f, "isBase64Encoded"@, 6));
    lemma_lookup_at(f, "version"@, 0);
    lemma_lookup_at(f, "routeKey"@, 1);
    lemma_lookup_at(f, "rawPath"@, 2);
    lemma_lookup_at(f, "rawQueryString"@, 3);
    lemma_lookup_at(f, "headers"@, 4);
    lemma_lookup_at(f, "requestContext"@, 5);
    lemma_lookup_at(f, "isBase64Encoded"@, 6);
    lemma_context_round_trip(p.request_context, f[5].1);
    let q = r->Ok_0;
    lemma_headers_round_trip(p.headers, f[4].1, q.headers);
    if p.body is Some {
        assert(key_at(f, "body"@, 7));
        lemma_lookup_at(f, "body"@, 7);
    } else {
        lemma_lookup_absent(f, "body"@);
    }
    assert(q == p);
}

/// Header members that are absent read as empty strings, and members that
/// name no header are ignored: an object with no header member at all reads
/// as headers that are all empty.
pub proof fn law_absent_headers_are_empty(f: Seq<(String, JsonValue)>, h: Headers)
    requires
        forall|j: int| 0 <= j < f.len() ==> !header_names().contains(#[trigger] f[j].0@),
        headers_from(f, h),
    ensures
        headers_fit(f),
        headers_are_empty(h),
{
    let names = header_names();
    assert forall|k: int| 0 <= k < names.len() implies lookup(f, #[trigger] names[k]) is None by {
        assert forall|j: int| 0 <= j < f.len() implies f[j].0@ != names[k] by {
            if f[j].0@ == names[k] {
                assert(names.contains(f[j].0@));
            }
        }
        lemma_lookup_absent(f, names[k]);
    }
    assert(lookup(f, names[0]) is None);
    assert(lookup(f, names[1]) is None);
    assert(lookup(f, names[2]) is None);
    assert(lookup(f, names[3]) is None);
    assert(lookup(f, names[4]) is None);
    assert(lookup(f, names[5]) is None);
    assert(lookup(f, names[6]) is None);
    assert(lookup(f, names[7]) is None);
    assert(lookup(f, names[8]) is None);
    assert(lookup(f, names[9]) is None);
    assert(lookup(f, names[10]) is None);
    assert(lookup(f, names[11]) is None);
    assert(lookup(f, names[12]) is None);
    assert(lookup(f, names[13]) is None);
}

} // verus!
