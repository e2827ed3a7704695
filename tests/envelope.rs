use lambda_entry::json::JsonValue;
use lambda_entry::payload::{Headers, Http, Payload, RequestContext};
use lambda_entry::wire::{
    decode_context, decode_headers, decode_http, decode_payload, encode_headers, encode_http,
    encode_payload, WireError,
};

fn s(x: &str) -> String {
    x.to_string()
}

fn member(k: &str, v: JsonValue) -> (String, JsonValue) {
    (k.to_string(), v)
}

fn sample_http() -> Http {
    Http {
        method: s("GET"),
        path: s("/hello"),
        protocol: s("HTTP/1.1"),
        source_ip: s("10.0.0.1"),
        user_agent: s("curl/8.0"),
    }
}

fn sample_headers() -> Headers {
    Headers {
        sec_fetch_mode: s("navigate"),
        x_amzn_tls_version: s("TLSv1.2"),
        sec_fetch_site: s("none"),
        x_forwarded_proto: s("https"),
        accept_language: s("en-US"),
        x_forwarded_port: s("443"),
        x_forwarded_for: s("10.0.0.1"),
        accept: s("*/*"),
        x_amzn_tls_cipher_suite: s("ECDHE-RSA-AES128-GCM-SHA256"),
        x_amzn_trace_id: s("Root=1-abc"),
        host: s("example.com"),
        accept_encoding: s("gzip"),
        user_agent: s("curl/8.0"),
        sec_fetch_dest: s("document"),
    }
}

fn sample_context() -> RequestContext {
    RequestContext {
        account_id: s("123456789012"),
        api_id: s("api1"),
        domain_name: s("example.com"),
        domain_prefix: s("example"),
        http: sample_http(),
        request_id: s("req-1"),
        route_key: s("$default"),
        stage: s("$default"),
        time: s("12/Mar/2024:19:03:58 +0000"),
        time_epoch: 1710270238000,
    }
}

fn sample_payload(body: Option<JsonValue>) -> Payload<JsonValue> {
    Payload {
        version: s("2.0"),
        route_key: s("$default"),
        raw_path: s("/hello"),
        raw_query_string: s("a=1"),
        headers: sample_headers(),
        request_context: sample_context(),
        is_base64encoded: false,
        body,
    }
}

fn names_of(v: &JsonValue) -> Vec<String> {
    match v {
        JsonValue::Object(fs) => fs.iter().map(|(k, _)| k.clone()).collect(),
        _ => panic!("not an object"),
    }
}

#[test]
fn default_payload_fields() {
    let p: Payload<JsonValue> = Payload::default();
    assert_eq!(p.version, "2.0");
    assert_eq!(p.route_key, "");
    assert_eq!(p.raw_path, "");
    assert_eq!(p.raw_query_string, "");
    assert_eq!(p.headers, Headers::default());
    assert_eq!(p.headers.accept_language, "");
    assert_eq!(p.request_context.time_epoch, 0);
    assert_eq!(p.request_context.http.method, "");
    assert!(!p.is_base64encoded);
    assert_eq!(p.body, Some(JsonValue::Null));
}

#[test]
fn default_payload_unit_body_is_present() {
    let p: Payload<()> = Payload::default();
    assert_eq!(p.body, Some(()));
    let q: Payload<i64> = Payload::default();
    assert_eq!(q.body, Some(0));
}

#[test]
fn round_trip_with_body() {
    let body = JsonValue::Object(vec![member("n", JsonValue::Int(7)), member("f", JsonValue::Decimal(s("1.5")))]);
    let v = encode_payload(sample_payload(Some(body)));
    let back = decode_payload(v).unwrap();
    let body = JsonValue::Object(vec![member("n", JsonValue::Int(7)), member("f", JsonValue::Decimal(s("1.5")))]);
    assert_eq!(back, sample_payload(Some(body)));
}

#[test]
fn round_trip_without_body() {
    let v = encode_payload(sample_payload(None));
    let names = names_of(&v);
    assert!(!names.iter().any(|n| n == "body"));
    assert_eq!(
        names,
        vec!["version", "routeKey", "rawPath", "rawQueryString", "headers", "requestContext", "isBase64Encoded"]
    );
    assert_eq!(decode_payload(v).unwrap(), sample_payload(None));
}

#[test]
fn null_body_reads_as_absent() {
    let v = encode_payload(sample_payload(Some(JsonValue::Null)));
    assert!(names_of(&v).iter().any(|n| n == "body"));
    assert_eq!(decode_payload(v).unwrap().body, None);
}

#[test]
fn wire_names_of_headers() {
    let v = encode_headers(sample_headers());
    assert_eq!(
        names_of(&v),
        vec![
            "sec-fetch-mode", "x-amzn-tls-version", "sec-fetch-site", "x-forwarded-proto",
            "accept-language", "x-forwarded-port", "x-forwarded-for", "accept",
            "x-amzn-tls-cipher-suite", "x-amzn-trace-id", "host", "accept-encoding",
            "user-agent", "sec-fetch-dest",
        ]
    );
}

#[test]
fn wire_names_of_http() {
    let v = encode_http(sample_http());
    assert_eq!(names_of(&v), vec!["method", "path", "protocol", "sourceIp", "userAgent"]);
    assert_eq!(decode_http(&v), Some(sample_http()));
}

#[test]
fn missing_headers_are_empty_and_unknown_ignored() {
    let v = JsonValue::Object(vec![
        member("host", JsonValue::Str(s("example.com"))),
        member("x-custom", JsonValue::Int(3)),
        member("cookie", JsonValue::Str(s("a=b"))),
    ]);
    let h = decode_headers(&v).unwrap();
    let mut expected = Headers::default();
    expected.host = s("example.com");
    assert_eq!(h, expected);
}

#[test]
fn empty_header_object_is_default() {
    let h = decode_headers(&JsonValue::Object(vec![])).unwrap();
    assert_eq!(h, Headers::default());
}

#[test]
fn header_of_wrong_kind_is_refused() {
    let v = JsonValue::Object(vec![member("accept", JsonValue::Bool(true))]);
    assert_eq!(decode_headers(&v), None);
}

#[test]
fn first_member_of_a_name_wins() {
    let v = JsonValue::Object(vec![
        member("host", JsonValue::Str(s("first"))),
        member("host", JsonValue::Str(s("second"))),
    ]);
    assert_eq!(decode_headers(&v).unwrap().host, "first");
}

#[test]
fn not_an_object_is_refused() {
    assert_eq!(decode_payload(JsonValue::Str(s("x"))), Err(WireError::NotAnObject));
    assert_eq!(decode_payload(JsonValue::Null), Err(WireError::NotAnObject));
}

#[test]
fn missing_version_is_refused() {
    let v = encode_payload(sample_payload(None));
    let v = match v {
        JsonValue::Object(fs) => JsonValue::Object(fs.into_iter().filter(|(k, _)| k != "version").collect()),
        other => other,
    };
    assert_eq!(decode_payload(v), Err(WireError::BadField));
}

#[test]
fn epoch_out_of_range_is_refused() {
    let mut fs = match decode_and_reencode_context() {
        JsonValue::Object(fs) => fs,
        _ => panic!("not an object"),
    };
    for m in fs.iter_mut() {
        if m.0 == "timeEpoch" {
            m.1 = JsonValue::Int(i64::MAX as i128 + 1);
        }
    }
    assert_eq!(decode_context(&JsonValue::Object(fs)), None);
}

#[test]
fn epoch_at_the_edge_is_read() {
    let mut c = sample_context();
    c.time_epoch = i64::MIN;
    let v = lambda_entry::wire::encode_context(c.clone());
    assert_eq!(decode_context(&v), Some(c));
}

fn decode_and_reencode_context() -> JsonValue {
    lambda_entry::wire::encode_context(sample_context())
}

#[test]
fn flag_of_wrong_kind_is_refused() {
    let v = encode_payload(sample_payload(None));
    let v = match v {
        JsonValue::Object(fs) => JsonValue::Object(
            fs.into_iter()
                .map(|(k, val)| if k == "isBase64Encoded" { (k, JsonValue::Str(s("false"))) } else { (k, val) })
                .collect(),
        ),
        other => other,
    };
    assert_eq!(decode_payload(v), Err(WireError::BadField));
}

#[test]
fn unknown_top_level_members_are_ignored() {
    let v = encode_payload(sample_payload(None));
    let v = match v {
        JsonValue::Object(mut fs) => {
            fs.insert(0, member("cookies", JsonValue::Array(vec![JsonValue::Str(s("a=b"))])));
            JsonValue::Object(fs)
        },
        other => other,
    };
    assert_eq!(decode_payload(v).unwrap(), sample_payload(None));
}
