use jules_client::client::{session_id_from, JulesClient, JulesConfig};
use jules_client::error::JulesError;
use jules_client::poll::{Next, Phase};
use jules_client::registry::SessionRegistry;
use jules_client::request::{HttpResponse, PollReply, Request, RequestKind, API_BASE, API_KEY_HEADER};

fn value(text: &str) -> serde_json::Value {
    serde_json::from_str(text).unwrap()
}

fn config() -> JulesConfig {
    JulesConfig {
        name: Some("jules".to_string()),
        api_key: Some("secret-key".to_string()),
        api_base: None,
        source: Some("sources/github/owner/repo".to_string()),
    }
}

fn response(status: u16, body: &str) -> HttpResponse {
    HttpResponse { status, body: body.to_string() }
}

#[test]
fn registry_returns_the_last_stored_id() {
    let mut registry = SessionRegistry::new();
    assert_eq!(registry.get("chat"), None);
    registry.set("chat", "1".to_string());
    registry.set("other", "2".to_string());
    assert_eq!(registry.get("chat"), Some("1".to_string()));
    registry.set("chat", "3".to_string());
    assert_eq!(registry.get("chat"), Some("3".to_string()));
    assert_eq!(registry.get("other"), Some("2".to_string()));
    assert_eq!(registry.get(""), None);
}

#[test]
fn client_stores_and_reads_session_ids() {
    let mut client = JulesClient::new(config());
    assert_eq!(client.get_session_id("chat"), None);
    client.set_session_id("chat", "42".to_string());
    assert_eq!(client.get_session_id("chat"), Some("42".to_string()));
    assert_eq!(client.get_session_id("Chat"), None);
}

#[test]
fn default_config_has_nothing_set() {
    let config = JulesConfig::default();
    assert!(config.name.is_none() && config.api_key.is_none());
    assert!(config.api_base.is_none() && config.source.is_none());
}

#[test]
fn settings_are_read_or_reported_missing() {
    let client = JulesClient::new(config());
    assert_eq!(client.get_api_key().unwrap(), "secret-key");
    assert_eq!(client.get_source().unwrap(), "sources/github/owner/repo");
    match client.get_api_base() {
        Err(JulesError::ConfigurationMissing { setting }) => assert_eq!(setting, "api_base"),
        other => panic!("unexpected {:?}", other),
    }
}

#[test]
fn missing_api_key_fails_first() {
    let client = JulesClient::new(JulesConfig::default());
    match client.begin(Some("chat"), "fix bug X") {
        Err(e @ JulesError::ConfigurationMissing { .. }) => {
            assert_eq!(e.message(), "Missing 'api_key' in jules config.");
        },
        other => panic!("unexpected {:?}", other.map(|_| ())),
    }
}

#[test]
fn missing_source_fails_a_creation() {
    let mut client = JulesClient::new(JulesConfig { source: None, ..config() });
    client.set_session_id("chat", "42".to_string());
    for key in [Some("other"), None] {
        match client.begin(key, "fix bug X") {
            Err(e @ JulesError::ConfigurationMissing { .. }) => {
                assert_eq!(
                    e.message(),
                    "Missing 'source' in jules config. Please set it in config.yaml like `source: sources/github/owner/repo`."
                );
            },
            other => panic!("unexpected {:?}", other.map(|_| ())),
        }
    }
}

#[test]
fn missing_source_does_not_matter_for_a_resumption() {
    let mut client = JulesClient::new(JulesConfig { source: None, ..config() });
    client.set_session_id("chat", "42".to_string());
    let (awaiting, request) = client.begin(Some("chat"), "and now Y").unwrap();
    assert_eq!(request.kind, RequestKind::SendMessage);
    assert_eq!(request.url, "https://jules.googleapis.com/v1alpha/sessions/42:sendMessage");
    assert_eq!(request.body.unwrap(), value(r#"{"prompt":"and now Y"}"#));
    assert_eq!(awaiting.resumed, Some("42".to_string()));
    let (state, _) = client.on_session_response(&awaiting, &response(200, "")).unwrap();
    assert_eq!(state.session_id, "42");
}

#[test]
fn missing_api_key_fails_a_resumption_too() {
    let mut client = JulesClient::new(JulesConfig { api_key: None, ..config() });
    client.set_session_id("chat", "42".to_string());
    assert!(matches!(
        client.begin(Some("chat"), "p"),
        Err(JulesError::ConfigurationMissing { setting }) if setting == "api_key"
    ));
}

#[test]
fn new_conversation_creates_a_session() {
    let client = JulesClient::new(config());
    let (pending, request) = client.begin(Some("chat"), "fix bug X").unwrap();
    assert_eq!(request.kind, RequestKind::CreateSession);
    assert!(request.is_post());
    assert_eq!(request.url, "https://jules.googleapis.com/v1alpha/sessions");
    assert_eq!(request.api_key, "secret-key");
    assert_eq!(request.delay_secs, 0);
    assert_eq!(
        request.body.unwrap(),
        value(
            r#"{"prompt":"fix bug X","sourceContext":{"source":"sources/github/owner/repo","githubRepoContext":{"startingBranch":"main"}}}"#
        )
    );
    assert_eq!(pending.session_key, Some("chat".to_string()));
    assert_eq!(pending.resumed, None);
    assert_eq!(API_BASE, "https://jules.googleapis.com/v1alpha");
    assert_eq!(API_KEY_HEADER, "X-Goog-Api-Key");
}

#[test]
fn stored_session_is_resumed_with_a_message() {
    let mut client = JulesClient::new(JulesConfig { api_base: Some("http://local/v1".to_string()), ..config() });
    client.set_session_id("chat", "42".to_string());
    let (pending, request) = client.begin(Some("chat"), "and now Y").unwrap();
    assert_eq!(request.kind, RequestKind::SendMessage);
    assert!(request.is_post());
    assert_eq!(request.url, "http://local/v1/sessions/42:sendMessage");
    assert_eq!(request.body.unwrap(), value(r#"{"prompt":"and now Y"}"#));
    assert_eq!(pending.resumed, Some("42".to_string()));
    let (_, other) = client.begin(Some("elsewhere"), "p").unwrap();
    assert_eq!(other.kind, RequestKind::CreateSession);
    let (_, anonymous) = client.begin(None, "p").unwrap();
    assert_eq!(anonymous.kind, RequestKind::CreateSession);
}

#[test]
fn request_builders_give_the_three_operations() {
    let create = Request::create_session("b", "k", "p", "s");
    assert_eq!(create.url, "b/sessions");
    let send = Request::send_message("b", "k", "id", "p");
    assert_eq!(send.url, "b/sessions/id:sendMessage");
    let list = Request::list_activities("b", "k", "id");
    assert_eq!(list.url, "b/sessions/id/activities?pageSize=100");
    assert_eq!(list.kind, RequestKind::ListActivities);
}

#[test]
fn session_id_is_the_suffix_of_the_name() {
    assert_eq!(session_id_from(&value(r#"{"name":"sessions/42"}"#)), Some("42".to_string()));
    assert_eq!(session_id_from(&value(r#"{"name":"a/b/c"}"#)), Some("c".to_string()));
    assert_eq!(session_id_from(&value(r#"{"name":"plain"}"#)), Some("plain".to_string()));
    assert_eq!(session_id_from(&value(r#"{"name":"sessions/"}"#)), Some(String::new()));
    assert_eq!(session_id_from(&value(r#"{"name":""}"#)), Some(String::new()));
    assert_eq!(session_id_from(&value(r#"{"name":"séance/été"}"#)), Some("été".to_string()));
    assert_eq!(session_id_from(&value(r#"{"name":42}"#)), None);
    assert_eq!(session_id_from(&value(r#"{"id":"sessions/42"}"#)), None);
    assert_eq!(session_id_from(&value(r#""sessions/42""#)), None);
}

#[test]
fn created_session_is_stored_and_polling_starts() {
    let mut client = JulesClient::new(config());
    let (pending, _) = client.begin(Some("chat"), "fix bug X").unwrap();
    let (state, request) = client
        .on_session_response(&pending, &response(200, r#"{"name":"sessions/42","title":"t"}"#))
        .unwrap();
    assert_eq!(client.get_session_id("chat"), Some("42".to_string()));
    assert_eq!(state.phase, Phase::Polling);
    assert_eq!(state.session_id, "42");
    assert_eq!(state.iterations, 1);
    assert_eq!(request.kind, RequestKind::ListActivities);
    assert_eq!(request.url, "https://jules.googleapis.com/v1alpha/sessions/42/activities?pageSize=100");
    assert_eq!(request.api_key, "secret-key");
}

#[test]
fn session_without_conversation_is_not_stored() {
    let mut client = JulesClient::new(config());
    let (pending, _) = client.begin(None, "p").unwrap();
    let (state, _) = client.on_session_response(&pending, &response(201, r#"{"name":"sessions/7"}"#)).unwrap();
    assert_eq!(state.session_id, "7");
    assert_eq!(client.get_session_id(""), None);
}

#[test]
fn creation_answer_without_name_is_malformed_and_stores_nothing() {
    for body in [r#"{"id":"sessions/42"}"#, r#"{"name":null}"#, r#"[]"#, "", "not json"] {
        let mut client = JulesClient::new(config());
        client.set_session_id("other", "1".to_string());
        let (pending, _) = client.begin(Some("chat"), "p").unwrap();
        match client.on_session_response(&pending, &response(200, body)) {
            Err(e @ JulesError::MalformedResponse) => assert_eq!(e.message(), "Invalid session response"),
            other => panic!("unexpected {:?} for {:?}", other.map(|_| ()), body),
        }
        assert_eq!(client.get_session_id("chat"), None);
        assert_eq!(client.get_session_id("other"), Some("1".to_string()));
    }
}

#[test]
fn failed_creation_carries_the_body() {
    let mut client = JulesClient::new(config());
    let (pending, _) = client.begin(Some("chat"), "p").unwrap();
    match client.on_session_response(&pending, &response(403, r#"{"name":"sessions/42"}"#)) {
        Err(e) => {
            assert!(matches!(
                e,
                JulesError::RemoteRequestFailed { operation: RequestKind::CreateSession, .. }
            ));
            assert_eq!(e.message(), r#"Failed to create session: {"name":"sessions/42"}"#);
        },
        Ok(_) => panic!("a failed creation must not start polling"),
    }
    assert_eq!(client.get_session_id("chat"), None);
}

#[test]
fn failed_message_carries_the_body() {
    let mut client = JulesClient::new(config());
    client.set_session_id("chat", "42".to_string());
    let (pending, _) = client.begin(Some("chat"), "p").unwrap();
    match client.on_session_response(&pending, &response(500, "boom")) {
        Err(JulesError::RemoteRequestFailed { operation, body }) => {
            assert_eq!(operation, RequestKind::SendMessage);
            assert_eq!(body, "boom");
        },
        other => panic!("unexpected {:?}", other.map(|_| ())),
    }
    assert_eq!(client.get_session_id("chat"), Some("42".to_string()));
}

#[test]
fn answer_to_a_message_is_not_read() {
    let mut client = JulesClient::new(config());
    client.set_session_id("chat", "42".to_string());
    let (pending, _) = client.begin(Some("chat"), "p").unwrap();
    let (state, request) = client.on_session_response(&pending, &response(200, "")).unwrap();
    assert_eq!(state.session_id, "42");
    assert_eq!(request.url, "https://jules.googleapis.com/v1alpha/sessions/42/activities?pageSize=100");
}

#[test]
fn submission_end_to_end() {
    let mut client = JulesClient::new(config());
    let mut calls: Vec<RequestKind> = Vec::new();
    let mut output = String::new();
    let mut done = 0;

    let (pending, request) = client.begin(Some("chat"), "fix bug X").unwrap();
    calls.push(request.kind);
    let (mut state, request) = client
        .on_session_response(&pending, &response(200, r#"{"name": "sessions/42"}"#))
        .unwrap();
    calls.push(request.kind);
    assert!(request.url.ends_with("/sessions/42/activities?pageSize=100"));

    let step = state.on_reply(&PollReply::Answered(response(
        200,
        r#"{"activities":[{"name":"a1","progressUpdated":{"title":"Investigating","description":"reading logs"}}]}"#,
    )));
    for text in &step.texts {
        output.push_str(text);
    }
    assert!(output.lines().any(|line| line == "> Investigating reading logs"));
    match step.next {
        Next::Poll(request) => calls.push(request.kind),
        other => panic!("unexpected {:?}", other),
    }

    let step = state.on_reply(&PollReply::Answered(response(
        200,
        r#"{"activities":[{"name":"a2","sessionCompleted":{}},{"name":"a1","progressUpdated":{"title":"Investigating","description":"reading logs"}}]}"#,
    )));
    for text in &step.texts {
        output.push_str(text);
    }
    match step.next {
        Next::Done => done += 1,
        other => panic!("unexpected {:?}", other),
    }

    assert_eq!(output, "> Investigating reading logs\n");
    assert_eq!(done, 1);
    assert_eq!(state.phase, Phase::Completed);
    assert_eq!(
        calls,
        vec![RequestKind::CreateSession, RequestKind::ListActivities, RequestKind::ListActivities]
    );
    assert_eq!(client.get_session_id("chat"), Some("42".to_string()));

    let (_, next) = client.begin(Some("chat"), "thanks").unwrap();
    assert_eq!(next.kind, RequestKind::SendMessage);
    assert_eq!(next.url, "https://jules.googleapis.com/v1alpha/sessions/42:sendMessage");
}
