//! What can end a submission before it reaches the polling loop.

use vstd::prelude::*;
use vstd::string::*;
use crate::request::RequestKind;
use crate::text::{join2, join4, text_eq};

verus! {

/// A failure that aborts the submission. A listing that fails and a timeout
/// are no such failures: the loop absorbs the first and reports the second
/// to the reader.
#[derive(Debug, Clone)]
pub enum JulesError {
    /// A required setting is absent.
    ConfigurationMissing { setting: String },
    /// The service answered the creation of a session, or a message to one,
    /// with a status other than success. `body` is the body of its answer.
    RemoteRequestFailed { operation: RequestKind, body: String },
    /// The answer to the creation of a session does not name the session.
    MalformedResponse,
}

pub enum JulesErrorView {
    ConfigurationMissing { setting: Seq<char> },
    RemoteRequestFailed { operation: RequestKind, body: Seq<char> },
    MalformedResponse,
}

impl View for JulesError {
    type V = JulesErrorView;

    open spec fn view(&self) -> JulesErrorView {
        match self {
            JulesError::ConfigurationMissing { setting } => JulesErrorView::ConfigurationMissing {
                setting: setting@,
            },
            JulesError::RemoteRequestFailed { operation, body } => {
                JulesErrorView::RemoteRequestFailed { operation: *operation, body: body@ }
            },
            JulesError::MalformedResponse => JulesErrorView::MalformedResponse,
        }
    }
}

/// The words that start the message of a failed remote request.
pub open spec fn failure_prefix(operation: RequestKind) -> Seq<char> {
    match operation {
        RequestKind::CreateSession => "Failed to create session: "@,
        RequestKind::SendMessage => "Failed to send message: "@,
        RequestKind::ListActivities => "Failed to list activities: "@,
    }
}

/// How to set a setting, for the settings that the message explains.
pub open spec fn setting_hint(setting: Seq<char>) -> Seq<char> {
    if setting == "source"@ {
        " Please set it in config.yaml like `source: sources/github/owner/repo`."@
    } else {
        Seq::empty()
    }
}

/// The message that an error shows.
pub open spec fn message_of(e: JulesErrorView) -> Seq<char> {
    match e {
        JulesErrorView::ConfigurationMissing { setting } => "Missing '"@ + setting
            + "' in jules config."@ + setting_hint(setting),
        JulesErrorView::RemoteRequestFailed { operation, body } => failure_prefix(operation) + body,
        JulesErrorView::MalformedResponse => "Invalid session response"@,
    }
}

impl JulesError {
    /// The message that the error shows.
    pub fn message(&self) -> (r: String)
        ensures
            r@ == message_of(self@),
    {
        match self {
            JulesError::ConfigurationMissing { setting } => {
                let hint = if text_eq(setting.as_str(), "source") {
                    " Please set it in config.yaml like `source: sources/github/owner/repo`."
                } else {
                    ""
                };
                proof {
                    reveal_strlit("");
                }
                join4("Missing '", setting.as_str(), "' in jules config.", hint)
            },
            JulesError::RemoteRequestFailed { operation, body } => {
                let prefix = match operation {
                    RequestKind::CreateSession => "Failed to create session: ",
                    RequestKind::SendMessage => "Failed to send message: ",
                    RequestKind::ListActivities => "Failed to list activities: ",
                };
                join2(prefix, body.as_str())
            },
            JulesError::MalformedResponse => "Invalid session response".to_owned(),
        }
    }
}

} // verus!
