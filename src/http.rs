use vstd::prelude::*;

verus! {

/// The request methods that the hosting runtime tells apart.
#[derive(Clone, Copy, Debug, PartialEq, Eq)]
pub enum Method {
    Head,
    Get,
    Post,
    Put,
    Patch,
    Delete,
    Options,
    Connect,
    Trace,
    Report,
}

/// The body of a reply: nothing, plain text, or a JSON document as text.
#[derive(Clone, Debug, PartialEq, Eq)]
pub enum ReplyBody {
    Empty,
    Text(String),
    Json(String),
}

/// One HTTP reply: status, body and headers.
#[derive(Clone, Debug, PartialEq, Eq)]
pub struct Reply {
    pub status: u16,
    pub body: ReplyBody,
    pub headers: Vec<(String, String)>,
}

/// Headers as pairs of texts.
pub open spec fn headers_view(h: Seq<(String, String)>) -> Seq<(Seq<char>, Seq<char>)> {
    h.map_values(|p: (String, String)| (p.0@, p.1@))
}

/// The cross-origin headers that every reply carries.
pub open spec fn cors_spec() -> Seq<(Seq<char>, Seq<char>)> {
    seq![
        ("Access-Control-Allow-Origin"@, "*"@),
        ("Access-Control-Allow-Methods"@, "POST, OPTIONS"@),
        ("Access-Control-Allow-Headers"@, "Content-Type"@),
        ("Access-Control-Max-Age"@, "86400"@),
    ]
}

pub open spec fn has_cors(r: Reply) -> bool {
    headers_view(r.headers@) == cors_spec()
}

/// A reply with the given status and plain-text message.
pub open spec fn is_text_reply(r: Reply, status: u16, message: Seq<char>) -> bool {
    &&& r.status == status
    &&& r.body matches ReplyBody::Text(m) && m@ == message
    &&& has_cors(r)
}

/// The cross-origin header set.
pub fn cors_headers() -> (r: Vec<(String, String)>)
    ensures
        headers_view(r@) == cors_spec(),
{
    let r = vec![
        (String::from_str("Access-Control-Allow-Origin"), String::from_str("*")),
        (String::from_str("Access-Control-Allow-Methods"), String::from_str("POST, OPTIONS")),
        (String::from_str("Access-Control-Allow-Headers"), String::from_str("Content-Type")),
        (String::from_str("Access-Control-Max-Age"), String::from_str("86400")),
    ];
    assert(headers_view(r@) =~= cors_spec());
    r
}

/// A reply with the given status and body, carrying the cross-origin headers.
pub fn reply_with(status: u16, body: ReplyBody) -> (r: Reply)
    ensures
        r.status == status,
        r.body == body,
        has_cors(r),
{
    Reply { status, body, headers: cors_headers() }
}

/// Why a request ends before a successful analysis.
#[derive(Clone, Debug, PartialEq, Eq)]
pub enum HandlerError {
    /// Any method but POST and OPTIONS.
    MethodNotAllowed,
    /// The body is not JSON; the parser's message.
    InvalidJson(String),
    /// The body is JSON but not an object whose `dreamPrompt` is a string.
    WrongShape,
    /// `dreamPrompt` is absent, or empty once trimmed.
    MissingPrompt,
    /// `dreamPrompt`, trimmed, is longer than the limit.
    PromptTooLong,
    /// The inference capability could not be obtained; its description.
    BindingUnavailable(String),
    /// The inference call failed; its description.
    InferenceFailed(String),
    /// The analysis could not be written as a JSON string.
    EncodingFailed,
}

pub const MAX_DREAM_LENGTH: usize = 5000;

pub open spec fn error_status(e: HandlerError) -> u16 {
    match e {
        HandlerError::MethodNotAllowed => 405,
        HandlerError::BindingUnavailable(_) => 500,
        HandlerError::InferenceFailed(_) => 500,
        HandlerError::EncodingFailed => 500,
        _ => 400,
    }
}

pub open spec fn error_message(e: HandlerError) -> Seq<char> {
    match e {
        HandlerError::MethodNotAllowed => "Please use POST method"@,
        HandlerError::InvalidJson(m) => "Invalid JSON: "@ + m@,
        HandlerError::WrongShape => "Invalid JSON: expected an object with a string dreamPrompt"@,
        HandlerError::MissingPrompt => "Missing dreamPrompt in request body"@,
        HandlerError::PromptTooLong => "Dream prompt is too long. Maximum length is 5000 characters"@,
        HandlerError::BindingUnavailable(m) => "Failed to get AI binding: "@ + m@,
        HandlerError::InferenceFailed(m) => "AI error: "@ + m@,
        HandlerError::EncodingFailed => "Failed to encode the analysis"@,
    }
}

/// The plain-text reply for an error: its status and message, with the
/// cross-origin headers.
pub fn error_reply(e: HandlerError) -> (r: Reply)
    ensures
        is_text_reply(r, error_status(e), error_message(e)),
{
    let (status, message): (u16, String) = match e {
        HandlerError::MethodNotAllowed => (405, String::from_str("Please use POST method")),
        HandlerError::InvalidJson(m) => (400, String::from_str("Invalid JSON: ").concat(m.as_str())),
        HandlerError::WrongShape => (
            400,
            String::from_str("Invalid JSON: expected an object with a string dreamPrompt"),
        ),
        HandlerError::MissingPrompt => (400, String::from_str("Missing dreamPrompt in request body")),
        HandlerError::PromptTooLong => (
            400,
            String::from_str("Dream prompt is too long. Maximum length is 5000 characters"),
        ),
        HandlerError::BindingUnavailable(m) => (
            500,
            String::from_str("Failed to get AI binding: ").concat(m.as_str()),
        ),
        HandlerError::InferenceFailed(m) => (500, String::from_str("AI error: ").concat(m.as_str())),
        HandlerError::EncodingFailed => (500, String::from_str("Failed to encode the analysis")),
    };
    reply_with(status, ReplyBody::Text(message))
}

} // verus!
