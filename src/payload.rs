use vstd::prelude::*;

verus! {

/// The fourteen request headers that handlers consume, one field per header.
/// Unknown headers have no place here.
#[derive(Debug, Clone, PartialEq)]
pub struct Headers {
    pub sec_fetch_mode: String,
    pub x_amzn_tls_version: String,
    pub sec_fetch_site: String,
    pub x_forwarded_proto: String,
    pub accept_language: String,
    pub x_forwarded_port: String,
    pub x_forwarded_for: String,
    pub accept: String,
    pub x_amzn_tls_cipher_suite: String,
    pub x_amzn_trace_id: String,
    pub host: String,
    pub accept_encoding: String,
    pub user_agent: String,
    pub sec_fetch_dest: String,
}

/// HTTP details of the request.
#[derive(Debug, Clone, PartialEq)]
pub struct Http {
    pub method: String,
    pub path: String,
    pub protocol: String,
    pub source_ip: String,
    pub user_agent: String,
}

/// Metadata about the invocation.
#[derive(Debug, Clone, PartialEq)]
pub struct RequestContext {
    pub account_id: String,
    pub api_id: String,
    pub domain_name: String,
    pub domain_prefix: String,
    pub http: Http,
    pub request_id: String,
    pub route_key: String,
    pub stage: String,
    pub time: String,
    pub time_epoch: i64,
}

/// One inbound request: routing metadata, headers, context and an optional body.
#[derive(Debug, Clone, PartialEq)]
pub struct Payload<T> {
    pub version: String,
    pub route_key: String,
    pub raw_path: String,
    pub raw_query_string: String,
    pub headers: Headers,
    pub request_context: RequestContext,
    pub is_base64encoded: bool,
    pub body: Option<T>,
}

/// Every header is the empty string.
pub open spec fn headers_are_empty(h: Headers) -> bool {
    &&& h.sec_fetch_mode@ == Seq::<char>::empty()
    &&& h.x_amzn_tls_version@ == Seq::<char>::empty()
    &&& h.sec_fetch_site@ == Seq::<char>::empty()
    &&& h.x_forwarded_proto@ == Seq::<char>::empty()
    &&& h.accept_language@ == Seq::<char>::empty()
    &&& h.x_forwarded_port@ == Seq::<char>::empty()
    &&& h.x_forwarded_for@ == Seq::<char>::empty()
    &&& h.accept@ == Seq::<char>::empty()
    &&& h.x_amzn_tls_cipher_suite@ == Seq::<char>::empty()
    &&& h.x_amzn_trace_id@ == Seq::<char>::empty()
    &&& h.host@ == Seq::<char>::empty()
    &&& h.accept_encoding@ == Seq::<char>::empty()
    &&& h.user_agent@ == Seq::<char>::empty()
    &&& h.sec_fetch_dest@ == Seq::<char>::empty()
}

/// Every HTTP detail is the empty string.
pub open spec fn http_is_empty(h: Http) -> bool {
    &&& h.method@ == Seq::<char>::empty()
    &&& h.path@ == Seq::<char>::empty()
    &&& h.protocol@ == Seq::<char>::empty()
    &&& h.source_ip@ == Seq::<char>::empty()
    &&& h.user_agent@ == Seq::<char>::empty()
}

/// Every string of the context is empty and its epoch is zero.
pub open spec fn context_is_empty(c: RequestContext) -> bool {
    &&& c.account_id@ == Seq::<char>::empty()
    &&& c.api_id@ == Seq::<char>::empty()
    &&& c.domain_name@ == Seq::<char>::empty()
    &&& c.domain_prefix@ == Seq::<char>::empty()
    &&& http_is_empty(c.http)
    &&& c.request_id@ == Seq::<char>::empty()
    &&& c.route_key@ == Seq::<char>::empty()
    &&& c.stage@ == Seq::<char>::empty()
    &&& c.time@ == Seq::<char>::empty()
    &&& c.time_epoch == 0
}

/// The version tag that a fabricated payload carries.
pub open spec fn default_version() -> Seq<char> {
    seq!['2', '.', '0']
}

/// The payload fabricated for a local run: version "2.0", every other string
/// empty, not base64-encoded, and a body that is present and is the body
/// type's default value.
pub open spec fn is_default_payload<T: Default>(p: Payload<T>) -> bool {
    &&& p.version@ == default_version()
    &&& p.route_key@ == Seq::<char>::empty()
    &&& p.raw_path@ == Seq::<char>::empty()
    &&& p.raw_query_string@ == Seq::<char>::empty()
    &&& headers_are_empty(p.headers)
    &&& context_is_empty(p.request_context)
    &&& !p.is_base64encoded
    &&& p.body is Some
    &&& call_ensures(T::default, (), p.body->Some_0)
}

impl Default for Headers {
    fn default() -> (r: Headers)
        ensures
            headers_are_empty(r),
    {
        Headers {
            sec_fetch_mode: String::new(),
            x_amzn_tls_version: String::new(),
            sec_fetch_site: String::new(),
            x_forwarded_proto: String::new(),
            accept_language: String::new(),
            x_forwarded_port: String::new(),
            x_forwarded_for: String::new(),
            accept: String::new(),
            x_amzn_tls_cipher_suite: String::new(),
            x_amzn_trace_id: String::new(),
            host: String::new(),
            accept_encoding: String::new(),
            user_agent: String::new(),
            sec_fetch_dest: String::new(),
        }
    }
}

impl Default for Http {
    fn default() -> (r: Http)
        ensures
            http_is_empty(r),
    {
        Http {
            method: String::new(),
            path: String::new(),
            protocol: String::new(),
            source_ip: String::new(),
            user_agent: String::new(),
        }
    }
}

impl Default for RequestContext {
    fn default() -> (r: RequestContext)
        ensures
            context_is_empty(r),
    {
        RequestContext {
            account_id: String::new(),
            api_id: String::new(),
            domain_name: String::new(),
            domain_prefix: String::new(),
            http: Http::default(),
            request_id: String::new(),
            route_key: String::new(),
            stage: String::new(),
            time: String::new(),
            time_epoch: 0,
        }
    }
}

impl<T: Default> Default for Payload<T> {
    fn default() -> (r: Payload<T>)
        ensures
            is_default_payload(r),
    {
        proof {
            reveal_strlit("2.0");
        }
        let version = String::from_str("2.0");
        assert(version@ =~= default_version());
        let body = T::default();
        Payload {
            version,
            route_key: String::new(),
            raw_path: String::new(),
            raw_query_string: String::new(),
            headers: Headers::default(),
            request_context: RequestContext::default(),
            is_base64encoded: false,
            body: Some(body),
        }
    }
}

} // verus!
