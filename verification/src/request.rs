//! The three remote operations as requests, and the answers to them.

use vstd::prelude::*;
use vstd::string::*;
use crate::json::{JsonView, value_model, value_string, object1, object2};
use crate::text::{join2, join4};

verus! {

/// Where the service is reached unless the configuration says otherwise.
pub const API_BASE: &'static str = "https://jules.googleapis.com/v1alpha";

/// The header that carries the API key.
pub const API_KEY_HEADER: &'static str = "X-Goog-Api-Key";

/// The branch a new session starts from.
pub const STARTING_BRANCH: &'static str = "main";

/// The seconds to wait before each listing.
pub const POLL_INTERVAL_SECS: u64 = 2;

/// The remote operation that a request performs.
#[derive(Debug, Clone, Copy, PartialEq, Eq, Structural)]
pub enum RequestKind {
    CreateSession,
    SendMessage,
    ListActivities,
}

/// One call to the service. A listing is a `GET`, the other two are `POST`s
/// with a JSON body; each carries the API key in `API_KEY_HEADER`. The caller
/// waits `delay_secs` before it sends the request.
#[derive(Debug, Clone)]
pub struct Request {
    pub kind: RequestKind,
    pub url: String,
    pub api_key: String,
    pub body: Option<serde_json::Value>,
    pub delay_secs: u64,
}

pub struct RequestView {
    pub kind: RequestKind,
    pub url: Seq<char>,
    pub api_key: Seq<char>,
    pub body: Option<JsonView>,
    pub delay_secs: u64,
}

impl View for Request {
    type V = RequestView;

    open spec fn view(&self) -> RequestView {
        RequestView {
            kind: self.kind,
            url: self.url@,
            api_key: self.api_key@,
            body: match self.body {
                Some(v) => Some(value_model(v)),
                None => None,
            },
            delay_secs: self.delay_secs,
        }
    }
}

/// The body that creates a session for `prompt` on `source`.
pub open spec fn create_body(prompt: Seq<char>, source: Seq<char>) -> JsonView {
    JsonView::Object(
        map![
            "prompt"@ => JsonView::String(prompt),
            "sourceContext"@ => JsonView::Object(
                map![
                    "source"@ => JsonView::String(source),
                    "githubRepoContext"@ => JsonView::Object(
                        map!["startingBranch"@ => JsonView::String(STARTING_BRANCH@)],
                    ),
                ],
            ),
        ],
    )
}

/// The body that sends `prompt` to a session.
pub open spec fn message_body(prompt: Seq<char>) -> JsonView {
    JsonView::Object(map!["prompt"@ => JsonView::String(prompt)])
}

/// The request that creates a session.
pub open spec fn create_request(
    api_base: Seq<char>,
    api_key: Seq<char>,
    prompt: Seq<char>,
    source: Seq<char>,
) -> RequestView {
    RequestView {
        kind: RequestKind::CreateSession,
        url: api_base + "/sessions"@,
        api_key,
        body: Some(create_body(prompt, source)),
        delay_secs: 0,
    }
}

/// The request that sends `prompt` to the session `session_id`.
pub open spec fn send_request(
    api_base: Seq<char>,
    api_key: Seq<char>,
    session_id: Seq<char>,
    prompt: Seq<char>,
) -> RequestView {
    RequestView {
        kind: RequestKind::SendMessage,
        url: api_base + "/sessions/"@ + session_id + ":sendMessage"@,
        api_key,
        body: Some(message_body(prompt)),
        delay_secs: 0,
    }
}

/// The request that lists the latest activities of the session
/// `session_id`, after the polling interval.
pub open spec fn list_request(
    api_base: Seq<char>,
    api_key: Seq<char>,
    session_id: Seq<char>,
) -> RequestView {
    RequestView {
        kind: RequestKind::ListActivities,
        url: api_base + "/sessions/"@ + session_id + "/activities?pageSize=100"@,
        api_key,
        body: None,
        delay_secs: POLL_INTERVAL_SECS,
    }
}

impl Request {
    /// The request that creates a session for `prompt` on `source`.
    pub fn create_session(api_base: &str, api_key: &str, prompt: &str, source: &str) -> (r: Request)
        ensures
            r@ == create_request(api_base@, api_key@, prompt@, source@),
    {
        proof {
            reveal_strlit("prompt");
            reveal_strlit("sourceContext");
            reveal_strlit("source");
            reveal_strlit("githubRepoContext");
            assert("prompt"@.len() != "sourceContext"@.len());
            assert("source"@.len() != "githubRepoContext"@.len());
        }
        let repo = object1("startingBranch", value_string(STARTING_BRANCH));
        let context = object2("source", value_string(source), "githubRepoContext", repo);
        let body = object2("prompt", value_string(prompt), "sourceContext", context);
        Request {
            kind: RequestKind::CreateSession,
            url: join2(api_base, "/sessions"),
            api_key: api_key.to_owned(),
            body: Some(body),
            delay_secs: 0,
        }
    }

    /// The request that sends `prompt` to the session `session_id`.
    pub fn send_message(api_base: &str, api_key: &str, session_id: &str, prompt: &str) -> (r:
        Request)
        ensures
            r@ == send_request(api_base@, api_key@, session_id@, prompt@),
    {
        Request {
            kind: RequestKind::SendMessage,
            url: join4(api_base, "/sessions/", session_id, ":sendMessage"),
            api_key: api_key.to_owned(),
            body: Some(object1("prompt", value_string(prompt))),
            delay_secs: 0,
        }
    }

    /// The request that lists the latest activities of the session
    /// `session_id`.
    pub fn list_activities(api_base: &str, api_key: &str, session_id: &str) -> (r: Request)
        ensures
            r@ == list_request(api_base@, api_key@, session_id@),
    {
        Request {
            kind: RequestKind::ListActivities,
            url: join4(api_base, "/sessions/", session_id, "/activities?pageSize=100"),
            api_key: api_key.to_owned(),
            body: None,
            delay_secs: POLL_INTERVAL_SECS,
        }
    }

    /// Whether the request is sent as a `POST`; a listing is a `GET`.
    pub fn is_post(&self) -> (r: bool)
        ensures
            r == (self.kind != RequestKind::ListActivities),
    {
        match self.kind {
            RequestKind::ListActivities => false,
            _ => true,
        }
    }
}

/// What came back from the service: the status code of the answer and its
/// body as text.
#[derive(Debug, Clone)]
pub struct HttpResponse {
    pub status: u16,
    pub body: String,
}

/// Whether a status code reports success: the codes 200 to 299.
pub open spec fn is_success(status: u16) -> bool {
    200 <= status <= 299
}

impl HttpResponse {
    /// Whether the answer reports success.
    pub fn succeeded(&self) -> (r: bool)
        ensures
            r == is_success(self.status),
    {
        200 <= self.status && self.status <= 299
    }
}

/// What a listing brought: an answer, or none because the service could not
/// be reached.
#[derive(Debug, Clone)]
pub enum PollReply {
    Unreachable,
    Answered(HttpResponse),
}

} // verus!
