//! The client: its configuration, its session registry, and the first part
//! of a submission, which resumes the session of a conversation or creates
//! a new one.

use vstd::prelude::*;
use crate::error::{JulesError, JulesErrorView};
use crate::json::{JsonView, member, value_model, document_of, parse_value, value_get, value_as_str};
use crate::poll::{PollLoop, PollLoopView, polling_start};
use crate::registry::SessionRegistry;
use crate::request::{
    Request, RequestKind, RequestView, HttpResponse, API_BASE, create_request, send_request,
    is_success,
};
use crate::text::{after_last, suffix_after_last};

verus! {

/// The settings of the client. `api_key` is required for a submission and
/// `source` for one that creates a session; `api_base` defaults to
/// `API_BASE`.
#[derive(Debug, Clone)]
pub struct JulesConfig {
    pub name: Option<String>,
    pub api_key: Option<String>,
    pub api_base: Option<String>,
    pub source: Option<String>,
}

impl Default for JulesConfig {
    fn default() -> (config: JulesConfig)
        ensures
            config.name is None,
            config.api_key is None,
            config.api_base is None,
            config.source is None,
    {
        JulesConfig { name: None, api_key: None, api_base: None, source: None }
    }
}

/// The characters of a text that may be absent.
pub open spec fn opt_view(s: Option<String>) -> Option<Seq<char>> {
    match s {
        Some(t) => Some(t@),
        None => None,
    }
}

/// The characters of a borrowed text that may be absent.
pub open spec fn opt_str_view(s: Option<&str>) -> Option<Seq<char>> {
    match s {
        Some(t) => Some(t@),
        None => None,
    }
}

/// A submission that awaits its session: the request that creates the
/// session, or sends the prompt to the one it resumes, is under way.
#[derive(Debug, Clone)]
pub struct AwaitingSession {
    /// The conversation that the submission belongs to, if any.
    pub session_key: Option<String>,
    /// The id of the session that is resumed; `None` where one is created.
    pub resumed: Option<String>,
    pub api_base: String,
    pub api_key: String,
}

pub struct AwaitingView {
    pub session_key: Option<Seq<char>>,
    pub resumed: Option<Seq<char>>,
    pub api_base: Seq<char>,
    pub api_key: Seq<char>,
}

impl View for AwaitingSession {
    type V = AwaitingView;

    open spec fn view(&self) -> AwaitingView {
        AwaitingView {
            session_key: opt_view(self.session_key),
            resumed: opt_view(self.resumed),
            api_base: self.api_base@,
            api_key: self.api_key@,
        }
    }
}

/// The session id that a conversation resumes: the one stored for its key.
pub open spec fn stored_session(
    sessions: Map<Seq<char>, Seq<char>>,
    session_key: Option<Seq<char>>,
) -> Option<Seq<char>> {
    match session_key {
        Some(key) => if sessions.contains_key(key) {
            Some(sessions[key])
        } else {
            None
        },
        None => None,
    }
}

/// The first step of a submission. Without an API key it fails. With a
/// session stored for the conversation it sends the prompt to that session,
/// whatever the source. With none stored it creates a session on the
/// source, and fails where no source is set.
pub open spec fn begun(
    api_key: Option<Seq<char>>,
    api_base: Option<Seq<char>>,
    source: Option<Seq<char>>,
    sessions: Map<Seq<char>, Seq<char>>,
    session_key: Option<Seq<char>>,
    prompt: Seq<char>,
) -> Result<(AwaitingView, RequestView), JulesErrorView> {
    if api_key is None {
        Err(JulesErrorView::ConfigurationMissing { setting: "api_key"@ })
    } else {
        let base = match api_base {
            Some(b) => b,
            None => API_BASE@,
        };
        let resumed = stored_session(sessions, session_key);
        let awaiting = AwaitingView {
            session_key,
            resumed,
            api_base: base,
            api_key: api_key->0,
        };
        match resumed {
            Some(id) => Ok((awaiting, send_request(base, api_key->0, id, prompt))),
            None => match source {
                Some(on) => Ok((awaiting, create_request(base, api_key->0, prompt, on))),
                None => Err(JulesErrorView::ConfigurationMissing { setting: "source"@ }),
            },
        }
    }
}

/// The id of the session that the answer to a creation names: what follows
/// the last `/` of its member `name`, or the whole name where it holds no
/// `/`. Nothing where the answer has no such member that is a string.
pub open spec fn session_id_of(answer: JsonView) -> Option<Seq<char>> {
    match member(answer, "name"@) {
        Some(JsonView::String(name)) => Some(after_last(name, '/')),
        _ => None,
    }
}

/// The registry once the session `session_id` is known for a submission.
pub open spec fn remembered(
    sessions: Map<Seq<char>, Seq<char>>,
    session_key: Option<Seq<char>>,
    session_id: Seq<char>,
) -> Map<Seq<char>, Seq<char>> {
    match session_key {
        Some(key) => sessions.insert(key, session_id),
        None => sessions,
    }
}

/// Where a submission stands once its first request is answered: the
/// registry as it is then, and the loop with its first listing, or why the
/// submission ends.
pub struct SessionOutcome {
    pub sessions: Map<Seq<char>, Seq<char>>,
    pub started: Result<(PollLoopView, RequestView), JulesErrorView>,
}

/// The outcome of a failure: the registry stays as it was.
pub open spec fn failed(sessions: Map<Seq<char>, Seq<char>>, e: JulesErrorView) -> SessionOutcome {
    SessionOutcome { sessions, started: Err(e) }
}

/// What a submission that creates a session does with the document of a
/// successful answer: where the document names the session, the id is
/// stored for the conversation and polling starts; else the answer is
/// malformed.
pub open spec fn created_step(
    pending: AwaitingView,
    sessions: Map<Seq<char>, Seq<char>>,
    answer: JsonView,
) -> SessionOutcome {
    match session_id_of(answer) {
        Some(id) => SessionOutcome {
            sessions: remembered(sessions, pending.session_key, id),
            started: Ok(polling_start(pending.api_base, pending.api_key, id)),
        },
        None => failed(sessions, JulesErrorView::MalformedResponse),
    }
}

/// What a submission does with the answer to its first request. An answer
/// that does not report success is a failure that carries the answer's
/// body. After a message to a resumed session polling starts, and the body
/// is not read. After a creation the body is read as a JSON document; a
/// body that is none is malformed.
pub open spec fn session_step(
    pending: AwaitingView,
    sessions: Map<Seq<char>, Seq<char>>,
    status: u16,
    body: Seq<char>,
) -> SessionOutcome {
    if !is_success(status) {
        failed(
            sessions,
            JulesErrorView::RemoteRequestFailed {
                operation: if pending.resumed is Some {
                    RequestKind::SendMessage
                } else {
                    RequestKind::CreateSession
                },
                body,
            },
        )
    } else {
        match pending.resumed {
            Some(id) => SessionOutcome {
                sessions,
                started: Ok(polling_start(pending.api_base, pending.api_key, id)),
            },
            None => match document_of(body) {
                Some(doc) => created_step(pending, sessions, doc),
                None => failed(sessions, JulesErrorView::MalformedResponse),
            },
        }
    }
}

/// Whether what a step gave is what was to come of it.
pub open spec fn gave(
    r: Result<(PollLoop, Request), JulesError>,
    expected: Result<(PollLoopView, RequestView), JulesErrorView>,
) -> bool {
    match expected {
        Ok(start) => r matches Ok(started) && started.0@ == start.0 && started.1@ == start.1,
        Err(e) => r matches Err(failure) && failure@ == e,
    }
}

/// The client of the agent service.
pub struct JulesClient {
    pub config: JulesConfig,
    pub sessions: SessionRegistry,
}

/// The id of the session that `answer` names, if it names one.
pub fn session_id_from(answer: &serde_json::Value) -> (r: Option<String>)
    ensures
        opt_view(r) == session_id_of(value_model(*answer)),
{
    match value_get(answer, "name") {
        Some(name) => match value_as_str(name) {
            Some(text) => Some(suffix_after_last(text, '/')),
            None => None,
        },
        None => None,
    }
}

impl JulesClient {
    /// A client with the given settings and an empty session registry.
    pub fn new(config: JulesConfig) -> (client: JulesClient)
        ensures
            client.config == config,
            client.sessions@ == Map::<Seq<char>, Seq<char>>::empty(),
    {
        JulesClient { config, sessions: SessionRegistry::new() }
    }

    /// The API key, where one is set.
    pub fn get_api_key(&self) -> (r: Result<String, JulesError>)
        ensures
            match r {
                Ok(key) => opt_view(self.config.api_key) == Some(key@),
                Err(e) => self.config.api_key is None && e@ == (JulesErrorView::ConfigurationMissing {
                    setting: "api_key"@,
                }),
            },
    {
        match &self.config.api_key {
            Some(key) => Ok(key.clone()),
            None => Err(JulesError::ConfigurationMissing { setting: "api_key".to_owned() }),
        }
    }

    /// The base address of the service, where one is set.
    pub fn get_api_base(&self) -> (r: Result<String, JulesError>)
        ensures
            match r {
                Ok(base) => opt_view(self.config.api_base) == Some(base@),
                Err(e) => self.config.api_base is None && e@ == (
                JulesErrorView::ConfigurationMissing { setting: "api_base"@ }),
            },
    {
        match &self.config.api_base {
            Some(base) => Ok(base.clone()),
            None => Err(JulesError::ConfigurationMissing { setting: "api_base".to_owned() }),
        }
    }

    /// The source that new sessions work on, where one is set.
    pub fn get_source(&self) -> (r: Result<String, JulesError>)
        ensures
            match r {
                Ok(source) => opt_view(self.config.source) == Some(source@),
                Err(e) => self.config.source is None && e@ == (JulesErrorView::ConfigurationMissing {
                    setting: "source"@,
                }),
            },
    {
        match &self.config.source {
            Some(source) => Ok(source.clone()),
            None => Err(JulesError::ConfigurationMissing { setting: "source".to_owned() }),
        }
    }

    /// The id of the remote session stored for the conversation
    /// `session_name`, if one is stored.
    pub fn get_session_id(&self, session_name: &str) -> (r: Option<String>)
        ensures
            opt_view(r) == stored_session(self.sessions@, Some(session_name@)),
    {
        self.sessions.get(session_name)
    }

    /// Stores `session_id` as the remote session of the conversation
    /// `session_name`, in place of what was stored for it.
    pub fn set_session_id(&mut self, session_name: &str, session_id: String)
        ensures
            final(self).sessions@ == old(self).sessions@.insert(session_name@, session_id@),
            final(self).config == old(self).config,
    {
        self.sessions.set(session_name, session_id);
    }

    /// Starts a submission of `prompt` for the conversation `session_key`:
    /// the request to send first, and the submission that awaits its answer.
    pub fn begin(&self, session_key: Option<&str>, prompt: &str) -> (r: Result<
        (AwaitingSession, Request),
        JulesError,
    >)
        ensures
            match begun(
                opt_view(self.config.api_key),
                opt_view(self.config.api_base),
                opt_view(self.config.source),
                self.sessions@,
                opt_str_view(session_key),
                prompt@,
            ) {
                Ok(expected) => r matches Ok(started) && started.0@ == expected.0 && started.1@
                    == expected.1,
                Err(e) => r matches Err(failure) && failure@ == e,
            },
    {
        let api_key = match self.get_api_key() {
            Ok(key) => key,
            Err(e) => {
                return Err(e);
            },
        };
        let api_base = match self.get_api_base() {
            Ok(base) => base,
            Err(_) => API_BASE.to_owned(),
        };
        let resumed = match session_key {
            Some(key) => self.get_session_id(key),
            None => None,
        };
        let request = match &resumed {
            Some(id) => Request::send_message(
                api_base.as_str(),
                api_key.as_str(),
                id.as_str(),
                prompt,
            ),
            None => {
                let source = match self.get_source() {
                    Ok(source) => source,
                    Err(e) => {
                        return Err(e);
                    },
                };
                Request::create_session(
                    api_base.as_str(),
                    api_key.as_str(),
                    prompt,
                    source.as_str(),
                )
            },
        };
        let key_owned = match session_key {
            Some(key) => Some(key.to_owned()),
            None => None,
        };
        let awaiting = AwaitingSession { session_key: key_owned, resumed, api_base, api_key };
        Ok((awaiting, request))
    }

    /// Takes the document of a successful answer to the creation of a
    /// session: stores the id it names for the conversation and starts
    /// polling. Where it names none, nothing is stored.
    pub fn on_session_created(&mut self, pending: &AwaitingSession, answer: &serde_json::Value) -> (r:
        Result<(PollLoop, Request), JulesError>)
        ensures
            final(self).config == old(self).config,
            final(self).sessions@ == created_step(
                pending@,
                old(self).sessions@,
                value_model(*answer),
            ).sessions,
            gave(r, created_step(pending@, old(self).sessions@, value_model(*answer)).started),
    {
        let id = match session_id_from(answer) {
            Some(id) => id,
            None => {
                return Err(JulesError::MalformedResponse);
            },
        };
        let start = PollLoop::start(
            pending.api_base.as_str(),
            pending.api_key.as_str(),
            id.as_str(),
        );
        match &pending.session_key {
            Some(key) => {
                self.sessions.set(key.as_str(), id);
            },
            None => {},
        }
        Ok(start)
    }

    /// Takes the answer to the first request of a submission.
    pub fn on_session_response(&mut self, pending: &AwaitingSession, response: &HttpResponse) -> (r:
        Result<(PollLoop, Request), JulesError>)
        ensures
            final(self).config == old(self).config,
            final(self).sessions@ == session_step(
                pending@,
                old(self).sessions@,
                response.status,
                response.body@,
            ).sessions,
            gave(
                r,
                session_step(pending@, old(self).sessions@, response.status, response.body@).started,
            ),
    {
        if !response.succeeded() {
            let operation = match &pending.resumed {
                Some(_) => RequestKind::SendMessage,
                None => RequestKind::CreateSession,
            };
            return Err(JulesError::RemoteRequestFailed { operation, body: response.body.clone() });
        }
        match &pending.resumed {
            Some(id) => Ok(
                PollLoop::start(pending.api_base.as_str(), pending.api_key.as_str(), id.as_str()),
            ),
            None => match parse_value(response.body.as_str()) {
                Ok(doc) => self.on_session_created(pending, &doc),
                Err(_) => Err(JulesError::MalformedResponse),
            },
        }
    }
}

} // verus!
