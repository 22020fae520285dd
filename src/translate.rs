use vstd::prelude::*;
use vstd::string::StringSliceAdditionalSpecFns;
use vstd::utf8::encode_utf8;

verus! {

/// One HTTP header: its name and its raw value.
#[derive(Clone, Debug)]
pub struct Header {
    pub name: String,
    pub value: Vec<u8>,
}

/// One inbound invocation, as the runtime delivers it.
#[derive(Clone, Debug)]
pub struct InvocationEvent {
    pub method: String,
    /// The raw request path, as sent by the client.
    pub path: String,
    pub query: Option<String>,
    /// Every inbound header, duplicates included.
    pub headers: Vec<Header>,
    pub body: Vec<u8>,
    /// The invocation's request context, as JSON text.
    pub request_context: Vec<u8>,
    /// The execution-environment context, as JSON text.
    pub lambda_context: Vec<u8>,
}

/// The request sent to the application for one invocation.
#[derive(Clone, Debug)]
pub struct OutboundRequest {
    pub method: String,
    pub url: String,
    pub headers: Vec<Header>,
    pub body: Vec<u8>,
}

/// An HTTP response: the application's answer, and the invocation's result.
#[derive(Clone, Debug)]
pub struct HttpResponse {
    pub status: u16,
    pub headers: Vec<Header>,
    pub body: Vec<u8>,
}

/// Why one invocation could not be forwarded.
#[derive(Clone, Copy, Debug, PartialEq, Eq, Structural)]
pub enum TranslateError {
    /// The configured base URL does not parse.
    InvalidBaseUrl,
    /// The target URL would exceed what a URL can hold.
    TargetTooLong,
}

/// Largest total size, in bytes, of base URL, path and query that is forwarded.
pub const MAX_TARGET_BYTES: usize = 268435455;

/// The serialization of `base` parsed as a URL, with its path replaced by
/// `path` and its query by `query`, when `base` parses.
pub uninterp spec fn url_with_target(
    base: Seq<char>,
    path: Seq<char>,
    query: Option<Seq<char>>,
) -> Option<Seq<char>>;

pub open spec fn opt_view(q: Option<String>) -> Option<Seq<char>> {
    match q {
        Some(s) => Some(s@),
        None => None,
    }
}

pub open spec fn opt_str_view(q: Option<&str>) -> Option<Seq<char>> {
    match q {
        Some(s) => Some(s@),
        None => None,
    }
}

pub open spec fn opt_byte_len(q: Option<Seq<char>>) -> nat {
    match q {
        Some(s) => encode_utf8(s).len(),
        None => 0,
    }
}

/// Bytes of base URL, path and query together.
pub open spec fn target_bytes(base: Seq<char>, path: Seq<char>, query: Option<Seq<char>>) -> nat {
    encode_utf8(base).len() + encode_utf8(path).len() + opt_byte_len(query)
}

/// Relies on url::Url::parse, Url::set_path, Url::set_query and
/// `String::from(Url)`: the target URL keeps scheme, host and port of `base`
/// and takes `path` and `query`; it exists exactly when `base` parses.
/// set_path and set_query panic only past `u32::MAX` bytes of serialization,
/// which percent-encoding (at most three bytes per byte) keeps far off under
/// the bound required here.
#[verifier::external_body]
fn target_url(base: &str, path: &str, query: Option<&str>) -> (r: Option<String>)
    requires
        target_bytes(base@, path@, opt_str_view(query)) <= MAX_TARGET_BYTES,
    ensures
        opt_view(r) == url_with_target(base@, path@, opt_str_view(query)),
{
    match url::Url::parse(base) {
        Ok(mut u) => {
            u.set_path(path);
            u.set_query(query);
            Some(String::from(u))
        },
        Err(_) => None,
    }
}

pub open spec fn is_header(name: Seq<char>, value: Seq<u8>, h: Header) -> bool {
    h.name@ == name && h.value@ == value
}

pub open spec fn request_context_header() -> Seq<char> {
    "x-amzn-request-context"@
}

pub open spec fn lambda_context_header() -> Seq<char> {
    "x-amzn-lambda-context"@
}

/// What `build_request` does with an event, over the target URL `url`.
pub open spec fn forwards(event: InvocationEvent, url: Seq<char>, req: OutboundRequest) -> bool {
    &&& req.method@ == event.method@
    &&& req.url@ == url
    &&& req.body@ == event.body@
    &&& req.headers@.len() == event.headers@.len() + 2
    &&& is_header(request_context_header(), event.request_context@, req.headers@[0])
    &&& is_header(lambda_context_header(), event.lambda_context@, req.headers@[1])
    &&& req.headers@.subrange(2, req.headers@.len() as int) == event.headers@
}

/// Builds the request that forwards `event` to the application at
/// `server_url`: same method, body and headers, the event's path and query on
/// the configured scheme, host and port, and the two context headers first.
pub fn build_request(server_url: &str, event: InvocationEvent) -> (r: Result<OutboundRequest, TranslateError>)
    ensures
        target_bytes(server_url@, event.path@, opt_view(event.query)) > MAX_TARGET_BYTES ==> r
            matches Err(TranslateError::TargetTooLong),
        target_bytes(server_url@, event.path@, opt_view(event.query)) <= MAX_TARGET_BYTES ==> match url_with_target(
            server_url@,
            event.path@,
            opt_view(event.query),
        ) {
            None => r matches Err(TranslateError::InvalidBaseUrl),
            Some(u) => r matches Ok(req) && forwards(event, u, req),
        },
{
    let query: Option<&str> = match &event.query {
        Some(q) => Some(q.as_str()),
        None => None,
    };
    let qlen: usize = match query {
        Some(q) => q.as_bytes().len(),
        None => 0,
    };
    let path: &str = event.path.as_str();
    let blen: usize = server_url.as_bytes().len();
    let plen: usize = path.as_bytes().len();
    if blen > MAX_TARGET_BYTES || plen > MAX_TARGET_BYTES - blen || qlen > MAX_TARGET_BYTES - blen
        - plen {
        return Err(TranslateError::TargetTooLong);
    }
    let url = match target_url(server_url, path, query) {
        Some(u) => u,
        None => {
            return Err(TranslateError::InvalidBaseUrl);
        },
    };
    let InvocationEvent { method, path: _, query: _, headers, body, request_context, lambda_context } =
        event;
    let mut inbound = headers;
    let mut out: Vec<Header> = Vec::new();
    out.push(Header { name: "x-amzn-request-context".to_owned(), value: request_context });
    out.push(Header { name: "x-amzn-lambda-context".to_owned(), value: lambda_context });
    out.append(&mut inbound);
    proof {
        reveal_strlit("x-amzn-request-context");
        reveal_strlit("x-amzn-lambda-context");
        assert(out@.subrange(2, out@.len() as int) =~= event.headers@);
    }
    Ok(OutboundRequest { method, url, headers: out, body })
}

/// The invocation's result is the application's response, unchanged.
pub fn into_result(response: HttpResponse) -> (r: HttpResponse)
    ensures
        r.status == response.status,
        r.headers@ == response.headers@,
        r.body@ == response.body@,
{
    HttpResponse { status: response.status, headers: response.headers, body: response.body }
}

} // verus!
