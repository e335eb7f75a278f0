//! The routes of the Responses backend, and what a request to them carries.

use vstd::prelude::*;
use vstd::string::*;
use vstd::utf8::*;

use crate::json::{as_text, get, get_member, parse_json, parsed_json, slot_tree, Json, JsonTree};
use crate::text::{optional_view, same_text};

verus! {

/// Requests of at least so many bytes are reported as large.
pub const LARGE_RESPONSES_REQUEST_BYTES: usize = 8388608;

/// The routes of the backend for inference.
#[derive(Clone, Copy, Debug, Default, PartialEq, Eq, Structural)]
pub enum ResponsesEndpoint {
    /// Regular user-owned model inference.
    #[default]
    Responses,
    /// Full Guardian approval-review agent inference.
    Guardian,
    /// Lightweight asynchronous Guardian risk classification.
    GuardianClassifier,
}

/// The path of a route.
pub open spec fn endpoint_path(endpoint: ResponsesEndpoint) -> Seq<char> {
    match endpoint {
        ResponsesEndpoint::Responses => "/responses"@,
        ResponsesEndpoint::Guardian => "/guardian"@,
        ResponsesEndpoint::GuardianClassifier => "/guardian-classifier"@,
    }
}

impl ResponsesEndpoint {
    /// The path of this route, relative to the provider.
    pub fn path(self) -> (path: &'static str)
        ensures
            path@ == endpoint_path(self),
    {
        match self {
            ResponsesEndpoint::Responses => "/responses",
            ResponsesEndpoint::Guardian => "/guardian",
            ResponsesEndpoint::GuardianClassifier => "/guardian-classifier",
        }
    }
}

/// No two routes have the same path.
pub proof fn law_routes_are_distinct(left: ResponsesEndpoint, right: ResponsesEndpoint)
    ensures
        endpoint_path(left) == endpoint_path(right) ==> left == right,
{
    reveal_strlit("/responses");
    reveal_strlit("/guardian");
    reveal_strlit("/guardian-classifier");
    assert("/responses"@.len() == 10);
    assert("/guardian"@.len() == 9);
    assert("/guardian-classifier"@.len() == 20);
}

/// A failure of the transport.
#[derive(Debug, PartialEq, Eq)]
pub enum TransportError {
    Http {
        status: u16,
        url: Option<String>,
        headers: Option<http::HeaderMap>,
        body: Option<String>,
    },
    Other { message: String },
}

/// A failure of a request.
#[derive(Debug, PartialEq, Eq)]
pub enum ApiError {
    Transport { error: TransportError },
    /// The response that the request continues is gone.
    PreviousResponseNotFound,
    Other { message: String },
}

/// The code of an error document.
pub open spec fn error_code(document: Option<JsonTree>) -> Option<Seq<char>> {
    match document {
        Some(json) => match get(json, "error"@) {
            Some(error) => as_text(get(error, "code"@)),
            None => None,
        },
        None => None,
    }
}

/// An error document says that the previous response is gone.
pub open spec fn says_response_missing(document: Option<JsonTree>) -> bool {
    error_code(document) == Some("previous_response_not_found"@)
}

/// Tells whether an error document says that the previous response is gone.
pub fn is_response_missing(document: Option<&Json>) -> (missing: bool)
    ensures
        missing == says_response_missing(slot_tree(document)),
{
    match document {
        Some(json) => match get_member(json, "error") {
            Some(error) => match get_member(error, "code") {
                Some(Json::Text(code)) => same_text(code.as_str(), "previous_response_not_found"),
                _ => false,
            },
            None => false,
        },
        None => false,
    }
}

/// A failure is one whose body says that the previous response is gone.
pub open spec fn is_missing_response_failure(error: ApiError) -> bool {
    match error {
        ApiError::Transport { error: TransportError::Http { body: Some(body), .. } } => {
            says_response_missing(parsed_json(body@))
        },
        _ => false,
    }
}

/// Names the failure of a request whose previous response is gone; any other stays as it is.
pub fn classify_previous_response_not_found(error: ApiError) -> (classified: ApiError)
    ensures
        classified == if is_missing_response_failure(error) {
            ApiError::PreviousResponseNotFound
        } else {
            error
        },
{
    let missing = match &error {
        ApiError::Transport { error: TransportError::Http { body: Some(body), .. } } => {
            let document = parse_json(body.as_str());
            is_response_missing(document.as_ref())
        },
        _ => false,
    };
    if missing {
        ApiError::PreviousResponseNotFound
    } else {
        error
    }
}

/// Whether a request carries the whole history or what is new since an earlier response.
#[derive(Clone, Copy, Debug, PartialEq, Eq, Structural)]
pub enum RequestMode {
    Incremental,
    Full,
}

/// The name of a mode.
pub open spec fn mode_name(mode: RequestMode) -> Seq<char> {
    match mode {
        RequestMode::Incremental => "incremental"@,
        RequestMode::Full => "full"@,
    }
}

impl RequestMode {
    /// The name of this mode.
    pub fn as_str(self) -> (name: &'static str)
        ensures
            name@ == mode_name(self),
    {
        match self {
            RequestMode::Incremental => "incremental",
            RequestMode::Full => "full",
        }
    }
}

/// What is noted of a request before it is sent.
#[derive(Clone, Copy, Debug, PartialEq, Eq, Structural)]
pub struct RequestNote {
    pub mode: RequestMode,
    pub input_items: u64,
    pub body_bytes: usize,
    /// The request is reported as a large one.
    pub large: bool,
    /// The body may be written to a log.
    pub body_logged: bool,
}

/// What is to be said of a request.
pub open spec fn request_note(
    continues_response: bool,
    input_items: u64,
    body_bytes: usize,
    carries_ticket: bool,
) -> RequestNote {
    RequestNote {
        mode: if continues_response {
            RequestMode::Incremental
        } else {
            RequestMode::Full
        },
        input_items,
        body_bytes,
        large: body_bytes >= LARGE_RESPONSES_REQUEST_BYTES,
        body_logged: !carries_ticket,
    }
}

/// Notes what is to be said of a request: its body stays out of the log where it carries a ticket.
pub fn note_request(
    continues_response: bool,
    input_items: u64,
    body_bytes: usize,
    carries_ticket: bool,
) -> (note: RequestNote)
    ensures
        note == request_note(continues_response, input_items, body_bytes, carries_ticket),
{
    RequestNote {
        mode: if continues_response {
            RequestMode::Incremental
        } else {
            RequestMode::Full
        },
        input_items,
        body_bytes,
        large: body_bytes >= LARGE_RESPONSES_REQUEST_BYTES,
        body_logged: !carries_ticket,
    }
}

/// A map with fewer different names than these always takes another one: its table, which has at
/// most 32768 places, is then less than a fifth full or can still grow.
pub const GROWING_HEADER_NAMES: usize = 6554;

/// The headers of a request, as the `http` crate keeps them.
#[verifier::external_type_specification]
#[verifier::external_body]
#[verifier::reject_recursive_types(T)]
pub struct ExHeaderMap<T>(http::HeaderMap<T>);

/// The value of a header.
#[verifier::external_type_specification]
#[verifier::external_body]
pub struct ExHeaderValue(http::HeaderValue);

/// The values of each header, by its name in lower case.
pub uninterp spec fn header_values(headers: http::HeaderMap) -> Map<Seq<char>, Seq<Seq<u8>>>;

/// How many different names there are among headers.
pub open spec fn header_names(headers: http::HeaderMap) -> nat {
    header_values(headers).dom().len()
}

/// `http::HeaderMap::keys_len`: the number of different names.
#[verifier::external_body]
pub(crate) fn count_names(headers: &http::HeaderMap) -> (n: usize)
    ensures
        n == header_names(*headers),
{
    headers.keys_len()
}

/// A text that can be the value of a header: no control characters but the tab.
pub open spec fn is_header_value(value: Seq<char>) -> bool {
    forall|i: int|
        0 <= i < encode_utf8(value).len() ==> {
            let b = #[trigger] encode_utf8(value)[i];
            b == 9 || (b >= 32 && b != 127)
        }
}

/// A name of a header in lower case, of letters and hyphens.
pub open spec fn is_header_name(name: Seq<char>) -> bool {
    &&& 0 < name.len() <= 64
    &&& forall|i: int| 0 <= i < name.len() ==> ('a' <= #[trigger] name[i] <= 'z') || name[i] == '-'
}

/// `http::HeaderMap::insert`: the value takes the place of all values under that name. A text that
/// cannot be a value is not inserted.
#[verifier::external_body]
pub(crate) fn set_header(headers: &mut http::HeaderMap, name: &'static str, value: &str)
    requires
        is_header_name(name@),
        header_names(*old(headers)) < GROWING_HEADER_NAMES,
    ensures
        header_values(*final(headers)) == if is_header_value(value@) {
            header_values(*old(headers)).insert(name@, seq![encode_utf8(value@)])
        } else {
            header_values(*old(headers))
        },
        header_names(*final(headers)) <= header_names(*old(headers)) + 1,
{
    if let Ok(v) = http::HeaderValue::from_str(value) {
        headers.insert(http::HeaderName::from_static(name), v);
    }
}

/// `http::HeaderMap::extend` with another map: the values under each name of the other take the
/// place of those under the same name.
#[verifier::external_body]
pub(crate) fn add_headers(headers: &mut http::HeaderMap, more: http::HeaderMap)
    requires
        header_names(*old(headers)) + header_names(more) <= GROWING_HEADER_NAMES,
    ensures
        header_values(*final(headers)) == header_values(*old(headers)).union_prefer_right(
            header_values(more),
        ),
        header_names(*final(headers)) <= header_names(*old(headers)) + header_names(more),
{
    headers.extend(more);
}

/// The values of headers with one more, where its value can be one.
pub open spec fn with_header(
    values: Map<Seq<char>, Seq<Seq<u8>>>,
    name: Seq<char>,
    value: Option<Seq<char>>,
) -> Map<Seq<char>, Seq<Seq<u8>>> {
    match value {
        Some(v) => if is_header_value(v) {
            values.insert(name, seq![encode_utf8(v)])
        } else {
            values
        },
        None => values,
    }
}

/// The headers of a request: the thread as the id of the request, then the headers of the session,
/// then the subagent.
pub open spec fn request_header_values(
    extra: Map<Seq<char>, Seq<Seq<u8>>>,
    thread_id: Option<Seq<char>>,
    session: Map<Seq<char>, Seq<Seq<u8>>>,
    subagent: Option<Seq<char>>,
) -> Map<Seq<char>, Seq<Seq<u8>>> {
    with_header(
        with_header(extra, "x-client-request-id"@, thread_id).union_prefer_right(session),
        "x-openai-subagent"@,
        subagent,
    )
}

/// Puts the headers of a request together.
pub fn request_headers(
    extra_headers: http::HeaderMap,
    thread_id: &Option<String>,
    session_headers: http::HeaderMap,
    subagent: &Option<String>,
) -> (headers: http::HeaderMap)
    requires
        header_names(extra_headers) + header_names(session_headers) + 1 < GROWING_HEADER_NAMES,
    ensures
        header_values(headers) == request_header_values(
            header_values(extra_headers),
            optional_view(*thread_id),
            header_values(session_headers),
            optional_view(*subagent),
        ),
{
    proof {
        reveal_strlit("x-client-request-id");
        reveal_strlit("x-openai-subagent");
    }
    let mut headers = extra_headers;
    if let Some(id) = thread_id {
        set_header(&mut headers, "x-client-request-id", id.as_str());
    }
    add_headers(&mut headers, session_headers);
    if let Some(name) = subagent {
        set_header(&mut headers, "x-openai-subagent", name.as_str());
    }
    headers
}

/// Puts the headers of a request together, unless there are so many of them that a map may be unable
/// to take another one.
pub fn bounded_request_headers(
    extra_headers: http::HeaderMap,
    thread_id: &Option<String>,
    session_headers: http::HeaderMap,
    subagent: &Option<String>,
) -> (headers: Option<http::HeaderMap>)
    ensures
        headers is Some <==> header_names(extra_headers) + header_names(session_headers) + 1
            < GROWING_HEADER_NAMES,
        headers matches Some(h) ==> header_values(h) == request_header_values(
            header_values(extra_headers),
            optional_view(*thread_id),
            header_values(session_headers),
            optional_view(*subagent),
        ),
{
    let extra = count_names(&extra_headers);
    let session = count_names(&session_headers);
    if extra < GROWING_HEADER_NAMES - 1 && session < GROWING_HEADER_NAMES - 1 - extra {
        Some(request_headers(extra_headers, thread_id, session_headers, subagent))
    } else {
        None
    }
}

/// Asks for a stream of events.
pub fn accept_event_stream(headers: &mut http::HeaderMap)
    requires
        header_names(*old(headers)) < GROWING_HEADER_NAMES,
    ensures
        header_values(*final(headers)) == header_values(*old(headers)).insert(
            "accept"@,
            seq![encode_utf8("text/event-stream"@)],
        ),
{
    proof {
        reveal_strlit("accept");
        reveal_strlit("text/event-stream");
        assert(is_ascii_chars("text/event-stream"@));
        is_ascii_chars_encode_utf8("text/event-stream"@);
        assert(is_header_value("text/event-stream"@));
    }
    set_header(headers, "accept", "text/event-stream");
}

} // verus!
