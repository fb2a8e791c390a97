use vstd::prelude::*;
use crate::http::{
    HandlerError, Method, Reply, ReplyBody, MAX_DREAM_LENGTH, error_message, error_reply,
    error_status, has_cors, is_text_reply, reply_with,
};
use crate::json::{
    JsonDoc, encode_json_string, find_member, json_doc_of, json_string_of, member_from,
    parse_json_doc, string_member,
};

verus! {

/// The instructions sent ahead of every dream, fixed for the life of the process.
pub const SYSTEM_PROMPT: &'static str = "You are a knowledgeable and approachable sleep and dream expert.
                      Analyze dream descriptions and provide insights, but maintain a tone
                      that suggests you're offering possibilities rather than definitive answers.
                      Suggest a few potential reasons for why the dream might have occurred.

                      The response should read just like another human directly responding naturally.

                      This is a one-off response and must not prompt the user to continue the conversation.";

/// Put in front of the trimmed dream in the user message.
pub const USER_PREFIX: &'static str = "Analyze this dream: ";

/// The analysis text used when the model's output holds no text where expected.
pub const FALLBACK_ANALYSIS: &'static str = "Unable to analyze the dream at this time.";

/// Where the analysis text stands in a successful reply.
#[derive(Clone, Copy, Debug, PartialEq, Eq)]
pub enum ResponseShape {
    /// `{"analysis":{"response":"..."}}`
    Nested,
    /// `{"analysis":"..."}`
    Flat,
}

/// Which model is asked, with what token cap, and how the reply is shaped.
#[derive(Clone, Debug, PartialEq, Eq)]
pub struct HandlerConfig {
    pub model_id: String,
    pub max_tokens: Option<u32>,
    pub shape: ResponseShape,
}

impl HandlerConfig {
    /// The current deployment: nested replies and a cap of 1024 tokens.
    pub fn current() -> (r: HandlerConfig)
        ensures
            r.model_id@ == "@hf/mistral/mistral-7b-instruct-v0.2"@,
            r.max_tokens == Some(1024u32),
            r.shape == ResponseShape::Nested,
    {
        HandlerConfig {
            model_id: String::from_str("@hf/mistral/mistral-7b-instruct-v0.2"),
            max_tokens: Some(1024),
            shape: ResponseShape::Nested,
        }
    }

    /// The earlier deployment: flat replies and no token cap.
    pub fn legacy() -> (r: HandlerConfig)
        ensures
            r.model_id@ == "@cf/mistral/mistral-7b-instruct-v0.1"@,
            r.max_tokens is None,
            r.shape == ResponseShape::Flat,
    {
        HandlerConfig {
            model_id: String::from_str("@cf/mistral/mistral-7b-instruct-v0.1"),
            max_tokens: None,
            shape: ResponseShape::Flat,
        }
    }
}

#[derive(Clone, Copy, Debug, PartialEq, Eq)]
pub enum Role {
    System,
    User,
}

#[derive(Clone, Debug, PartialEq, Eq)]
pub struct ChatMessage {
    pub role: Role,
    pub content: String,
}

/// The payload handed to the inference capability.
#[derive(Clone, Debug, PartialEq, Eq)]
pub struct InferenceRequest {
    pub messages: Vec<ChatMessage>,
    pub max_tokens: Option<u32>,
}

/// What the runtime is to do next for a request.
#[derive(Clone, Debug, PartialEq, Eq)]
pub enum Action {
    /// Send this reply; the request is over.
    Respond(Reply),
    /// Read the body as text and hand it to `on_body`.
    ReadBody,
    /// Obtain the inference capability and run this model on this payload.
    Invoke(String, InferenceRequest),
}

/// The text that `str::trim` leaves of a text.
pub uninterp spec fn trimmed_of(text: Seq<char>) -> Seq<char>;

/// Relies on str::trim: the text without leading and trailing whitespace.
#[verifier::external_body]
fn trim_text<'a>(text: &'a str) -> (r: &'a str)
    ensures
        r@ == trimmed_of(text@),
        text@.len() == 0 ==> r@.len() == 0,
{
    text.trim()
}

/// The raw `dreamPrompt` of a request document, or why there is none.
pub open spec fn prompt_field(d: JsonDoc) -> Result<Seq<char>, HandlerError> {
    match d {
        JsonDoc::Object(f) => match member_from(f@, "dreamPrompt"@, 0) {
            None => Err(HandlerError::MissingPrompt),
            Some(None) => Err(HandlerError::WrongShape),
            Some(Some(p)) => Ok(p@),
        },
        _ => Err(HandlerError::WrongShape),
    }
}

/// A trimmed prompt is accepted when it holds 1 to `MAX_DREAM_LENGTH` characters.
pub open spec fn prompt_check(trimmed: Seq<char>) -> Result<(), HandlerError> {
    if trimmed.len() == 0 {
        Err(HandlerError::MissingPrompt)
    } else if trimmed.len() > MAX_DREAM_LENGTH {
        Err(HandlerError::PromptTooLong)
    } else {
        Ok(())
    }
}

/// A trimmed prompt one character over the limit is refused with a 400 that
/// names the limit, and one exactly at the limit passes the checks.
pub proof fn prompt_length_boundary(trimmed: Seq<char>)
    ensures
        trimmed.len() == MAX_DREAM_LENGTH + 1 ==> prompt_check(trimmed) == Err::<(), HandlerError>(
            HandlerError::PromptTooLong,
        ) && error_status(HandlerError::PromptTooLong) == 400
            && error_message(HandlerError::PromptTooLong)
            == "Dream prompt is too long. Maximum length is 5000 characters"@,
        trimmed.len() == MAX_DREAM_LENGTH ==> prompt_check(trimmed) == Ok::<(), HandlerError>(()),
{
}

/// The two-message chat for a trimmed prompt: the fixed instructions, then the dream.
pub open spec fn is_payload_for(req: InferenceRequest, max_tokens: Option<u32>, trimmed: Seq<char>) -> bool {
    &&& req.messages@.len() == 2
    &&& req.messages@[0].role == Role::System
    &&& req.messages@[0].content@ == SYSTEM_PROMPT@
    &&& req.messages@[1].role == Role::User
    &&& req.messages@[1].content@ == USER_PREFIX@ + trimmed
    &&& req.max_tokens == max_tokens
}

/// The next step for a request with this method.
pub fn on_method(m: Method) -> (r: Action)
    ensures
        m == Method::Options ==> (r matches Action::Respond(rep) && rep.status == 200
            && rep.body == ReplyBody::Empty && has_cors(rep)),
        m == Method::Post ==> r == Action::ReadBody,
        m != Method::Options && m != Method::Post ==> (r matches Action::Respond(rep)
            && is_text_reply(rep, 405, "Please use POST method"@)),
{
    match m {
        Method::Options => Action::Respond(reply_with(200, ReplyBody::Empty)),
        Method::Post => Action::ReadBody,
        _ => Action::Respond(error_reply(HandlerError::MethodNotAllowed)),
    }
}

/// The raw `dreamPrompt` string of a request document.
pub fn prompt_from_doc(d: &JsonDoc) -> (r: Result<String, HandlerError>)
    ensures
        match (r, prompt_field(*d)) {
            (Ok(s), Ok(p)) => s@ == p,
            (Err(e1), Err(e2)) => e1 == e2,
            _ => false,
        },
{
    match d {
        JsonDoc::Object(f) => match find_member(f, &String::from_str("dreamPrompt")) {
            None => Err(HandlerError::MissingPrompt),
            Some(None) => Err(HandlerError::WrongShape),
            Some(Some(p)) => Ok(p),
        },
        _ => Err(HandlerError::WrongShape),
    }
}

/// Checks the length of an already trimmed prompt.
pub fn check_prompt(trimmed: &str) -> (r: Result<(), HandlerError>)
    ensures
        r == prompt_check(trimmed@),
{
    let n = trimmed.unicode_len();
    if n == 0 {
        Err(HandlerError::MissingPrompt)
    } else if n > MAX_DREAM_LENGTH {
        Err(HandlerError::PromptTooLong)
    } else {
        Ok(())
    }
}

/// The inference payload for an already trimmed prompt.
pub fn build_request(max_tokens: Option<u32>, trimmed: &str) -> (r: InferenceRequest)
    ensures
        is_payload_for(r, max_tokens, trimmed@),
{
    let system = ChatMessage { role: Role::System, content: String::from_str(SYSTEM_PROMPT) };
    let user = ChatMessage { role: Role::User, content: String::from_str(USER_PREFIX).concat(trimmed) };
    InferenceRequest { messages: vec![system, user], max_tokens }
}

/// The next step once the body has been read: a 400 reply, or the inference to run.
pub fn on_body(config: &HandlerConfig, body: &str) -> (r: Action)
    ensures
        match json_doc_of(body@) {
            None => r matches Action::Respond(rep) && rep.status == 400 && has_cors(rep)
                && (rep.body matches ReplyBody::Text(m) && "Invalid JSON: "@.is_prefix_of(m@)),
            Some(d) => match prompt_field(d) {
                Err(e) => r matches Action::Respond(rep)
                    && is_text_reply(rep, error_status(e), error_message(e)),
                Ok(p) => match prompt_check(trimmed_of(p)) {
                    Err(e) => r matches Action::Respond(rep)
                        && is_text_reply(rep, error_status(e), error_message(e)),
                    Ok(_) => r matches Action::Invoke(model, req) && model@ == config.model_id@
                        && is_payload_for(req, config.max_tokens, trimmed_of(p)),
                },
            },
        },
{
    let doc = match parse_json_doc(body) {
        Ok(d) => d,
        Err(msg) => {
            let rep = error_reply(HandlerError::InvalidJson(msg));
            proof {
                let m = rep.body->Text_0@;
                assert("Invalid JSON: "@ =~= m.subrange(0, "Invalid JSON: "@.len() as int));
            }
            return Action::Respond(rep);
        },
    };
    let raw = match prompt_from_doc(&doc) {
        Ok(p) => p,
        Err(e) => return Action::Respond(error_reply(e)),
    };
    let trimmed = trim_text(raw.as_str());
    match check_prompt(trimmed) {
        Err(e) => Action::Respond(error_reply(e)),
        Ok(()) => Action::Invoke(config.model_id.clone(), build_request(config.max_tokens, trimmed)),
    }
}

/// The analysis text of a model output: a bare string as it is; in an object,
/// the first of `response`, `result`, `output` that holds a string; else the
/// fixed fallback.
pub open spec fn analysis_of(d: JsonDoc) -> Seq<char> {
    match d {
        JsonDoc::Text(s) => s@,
        JsonDoc::Object(f) => match string_member(f@, "response"@) {
            Some(t) => t,
            None => match string_member(f@, "result"@) {
                Some(t) => t,
                None => match string_member(f@, "output"@) {
                    Some(t) => t,
                    None => FALLBACK_ANALYSIS@,
                },
            },
        },
        JsonDoc::Other => FALLBACK_ANALYSIS@,
    }
}

/// The analysis text of a model output given as JSON text; text that is not
/// JSON gets the fallback.
pub open spec fn analysis_of_output(output: Seq<char>) -> Seq<char> {
    match json_doc_of(output) {
        Some(d) => analysis_of(d),
        None => FALLBACK_ANALYSIS@,
    }
}

/// The body of a successful reply around an analysis already written as a
/// JSON string literal.
pub open spec fn framed(shape: ResponseShape, quoted: Seq<char>) -> Seq<char> {
    match shape {
        ResponseShape::Nested => "{\"analysis\":{\"response\":"@ + quoted + "}}"@,
        ResponseShape::Flat => "{\"analysis\":"@ + quoted + "}"@,
    }
}

/// The text held by a member named `key` of an object, if it is a string.
fn string_member_of(f: &Vec<(String, Option<String>)>, key: &str) -> (r: Option<String>)
    ensures
        match (r, string_member(f@, key@)) {
            (Some(a), Some(b)) => a@ == b,
            (None, None) => true,
            _ => false,
        },
{
    match find_member(f, &String::from_str(key)) {
        Some(Some(t)) => Some(t),
        _ => None,
    }
}

/// Picks the analysis text out of a model output.
pub fn analysis_from_doc(d: &JsonDoc) -> (r: String)
    ensures
        r@ == analysis_of(*d),
{
    match d {
        JsonDoc::Text(s) => s.clone(),
        JsonDoc::Object(f) => {
            if let Some(t) = string_member_of(f, "response") {
                return t;
            }
            if let Some(t) = string_member_of(f, "result") {
                return t;
            }
            if let Some(t) = string_member_of(f, "output") {
                return t;
            }
            String::from_str(FALLBACK_ANALYSIS)
        },
        JsonDoc::Other => String::from_str(FALLBACK_ANALYSIS),
    }
}

/// The body of a successful reply, given the analysis as a JSON string literal.
pub fn frame_analysis(shape: ResponseShape, quoted: &str) -> (r: String)
    ensures
        r@ == framed(shape, quoted@),
{
    match shape {
        ResponseShape::Nested => String::from_str("{\"analysis\":{\"response\":").concat(quoted).concat("}}"),
        ResponseShape::Flat => String::from_str("{\"analysis\":").concat(quoted).concat("}"),
    }
}

/// The successful reply for an analysis, given the serializer's result for it.
pub fn success_reply(shape: ResponseShape, quoted: Option<String>) -> (r: Reply)
    ensures
        match quoted {
            Some(q) => r.status == 200 && has_cors(r)
                && (r.body matches ReplyBody::Json(b) && b@ == framed(shape, q@)),
            None => is_text_reply(r, 500, error_message(HandlerError::EncodingFailed)),
        },
{
    match quoted {
        Some(q) => reply_with(200, ReplyBody::Json(frame_analysis(shape, q.as_str()))),
        None => error_reply(HandlerError::EncodingFailed),
    }
}

/// The reply once the model has answered with this JSON text.
pub fn on_inference_output(config: &HandlerConfig, output: &str) -> (r: Reply)
    ensures
        match json_string_of(analysis_of_output(output@)) {
            Some(q) => r.status == 200 && has_cors(r)
                && (r.body matches ReplyBody::Json(b) && b@ == framed(config.shape, q)),
            None => is_text_reply(r, 500, error_message(HandlerError::EncodingFailed)),
        },
{
    let analysis = match parse_json_doc(output) {
        Ok(d) => analysis_from_doc(&d),
        Err(_) => String::from_str(FALLBACK_ANALYSIS),
    };
    success_reply(config.shape, encode_json_string(analysis.as_str()))
}

/// The reply when the inference capability cannot be obtained.
pub fn on_binding_failure(description: &str) -> (r: Reply)
    ensures
        is_text_reply(r, 500, "Failed to get AI binding: "@ + description@),
{
    error_reply(HandlerError::BindingUnavailable(String::from_str(description)))
}

/// The reply when the inference call fails: 500, with the failure's description.
pub fn on_inference_failure(description: &str) -> (r: Reply)
    ensures
        is_text_reply(r, 500, "AI error: "@ + description@),
{
    error_reply(HandlerError::InferenceFailed(String::from_str(description)))
}

} // verus!
