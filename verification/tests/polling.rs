use jules_client::activity::{Activity, ActivityPayload};
use jules_client::poll::{Next, Phase, PollLoop, MAX_POLLS, TIMEOUT_NOTICE};
use jules_client::request::{HttpResponse, PollReply, RequestKind, POLL_INTERVAL_SECS};

fn progress(id: &str, title: &str) -> Activity {
    Activity {
        id: id.to_string(),
        originator: "agent".to_string(),
        payloads: vec![ActivityPayload::ProgressUpdate {
            title: title.to_string(),
            description: "d".to_string(),
        }],
    }
}

fn completed(id: &str) -> Activity {
    Activity {
        id: id.to_string(),
        originator: "agent".to_string(),
        payloads: vec![ActivityPayload::SessionCompleted],
    }
}

fn started() -> PollLoop {
    PollLoop::start("https://base", "key", "42").0
}

fn answered(status: u16, body: &str) -> PollReply {
    PollReply::Answered(HttpResponse { status, body: body.to_string() })
}

#[test]
fn start_issues_the_first_listing() {
    let (state, request) = PollLoop::start("https://base", "key", "42");
    assert_eq!(state.phase, Phase::Polling);
    assert_eq!(state.iterations, 1);
    assert_eq!(state.session_id, "42");
    assert_eq!(request.kind, RequestKind::ListActivities);
    assert_eq!(request.url, "https://base/sessions/42/activities?pageSize=100");
    assert_eq!(request.api_key, "key");
    assert!(request.body.is_none());
    assert_eq!(request.delay_secs, POLL_INTERVAL_SECS);
    assert_eq!(POLL_INTERVAL_SECS, 2);
    assert!(!request.is_post());
}

#[test]
fn page_is_rendered_oldest_first() {
    let mut state = started();
    let page = vec![progress("c", "third"), progress("b", "second"), progress("a", "first")];
    let step = state.on_page(Some(&page));
    assert_eq!(step.texts, vec!["> first d\n", "> second d\n", "> third d\n"]);
    assert!(matches!(step.next, Next::Poll(_)));
    assert_eq!(state.iterations, 2);
    assert!(state.has_seen("a") && state.has_seen("b") && state.has_seen("c"));
    assert!(!state.has_seen("d"));
}

#[test]
fn an_id_is_rendered_once_in_a_session() {
    let mut state = started();
    let first = vec![progress("b", "second"), progress("a", "first")];
    assert_eq!(state.on_page(Some(&first)).texts.len(), 2);
    let again = state.on_page(Some(&first));
    assert!(again.texts.is_empty());
    let grown = vec![progress("c", "third"), progress("b", "changed"), progress("a", "first")];
    assert_eq!(state.on_page(Some(&grown)).texts, vec!["> third d\n"]);
}

#[test]
fn a_repeated_id_in_one_page_is_rendered_at_its_oldest_record() {
    let mut state = started();
    let page = vec![progress("a", "newer"), progress("b", "other"), progress("a", "older")];
    assert_eq!(state.on_page(Some(&page)).texts, vec!["> older d\n", "> other d\n"]);
}

#[test]
fn records_without_output_are_still_marked() {
    let mut state = started();
    let silent = Activity {
        id: "s".to_string(),
        originator: String::new(),
        payloads: vec![ActivityPayload::Unclassified],
    };
    let step = state.on_page(Some(&vec![silent]));
    assert!(step.texts.is_empty());
    assert!(state.has_seen("s"));
}

#[test]
fn completion_halts_the_page_and_ends_the_loop() {
    let mut state = started();
    let page = vec![progress("new", "ignored"), completed("done"), progress("old", "shown")];
    let step = state.on_page(Some(&page));
    assert_eq!(step.texts, vec!["> shown d\n"]);
    assert!(matches!(step.next, Next::Done));
    assert_eq!(state.phase, Phase::Completed);
    assert!(state.has_seen("old") && state.has_seen("done"));
    assert!(!state.has_seen("new"));
}

#[test]
fn completion_that_shares_a_seen_id_is_passed_over() {
    let mut state = started();
    let nameless_progress = progress("", "p");
    let nameless_completion = completed("");
    let step = state.on_page(Some(&vec![nameless_completion, nameless_progress]));
    assert_eq!(step.texts, vec!["> p d\n"]);
    assert!(matches!(step.next, Next::Poll(_)));
    assert_eq!(state.phase, Phase::Polling);
}

#[test]
fn a_completing_record_is_rendered_before_the_end() {
    let mut state = started();
    let last = Activity {
        id: "z".to_string(),
        originator: String::new(),
        payloads: vec![
            ActivityPayload::ProgressUpdate { title: "bye".to_string(), description: "now".to_string() },
            ActivityPayload::SessionCompleted,
        ],
    };
    let step = state.on_page(Some(&vec![last]));
    assert_eq!(step.texts, vec!["> bye now\n"]);
    assert!(matches!(step.next, Next::Done));
}

#[test]
fn after_the_end_the_loop_does_nothing() {
    let mut state = started();
    state.on_page(Some(&vec![completed("done")]));
    let step = state.on_page(Some(&vec![progress("late", "late")]));
    assert!(step.texts.is_empty());
    assert!(matches!(step.next, Next::Stopped));
    assert_eq!(state.phase, Phase::Completed);
    assert!(!state.has_seen("late"));
    let iterations = state.iterations;
    state.on_reply(&PollReply::Unreachable);
    assert_eq!(state.iterations, iterations);
}

#[test]
fn failed_listings_are_passed_over() {
    let mut state = started();
    let step = state.on_reply(&PollReply::Unreachable);
    assert!(step.texts.is_empty());
    assert!(matches!(step.next, Next::Poll(_)));
    let step = state.on_reply(&answered(503, r#"{"activities":[{"name":"a","progressUpdated":{}}]}"#));
    assert!(step.texts.is_empty());
    assert!(!state.has_seen("a"));
    let step = state.on_reply(&answered(200, "<html>not json</html>"));
    assert!(step.texts.is_empty());
    assert!(matches!(step.next, Next::Poll(_)));
    assert_eq!(state.iterations, 4);
    assert_eq!(state.phase, Phase::Polling);
}

#[test]
fn status_codes_from_200_to_299_are_success() {
    for (status, ok) in [(199u16, false), (200, true), (204, true), (299, true), (300, false), (404, false)] {
        let mut state = started();
        let step = state.on_reply(&answered(
            status,
            r#"{"activities":[{"name":"a","progressUpdated":{"title":"t","description":"d"}}]}"#,
        ));
        assert_eq!(step.texts.len(), if ok { 1 } else { 0 }, "status {}", status);
        assert_eq!(HttpResponse { status, body: String::new() }.succeeded(), ok);
    }
}

#[test]
fn answered_listing_is_read_and_rendered() {
    let mut state = started();
    let step = state.on_reply(&answered(
        200,
        r#"{"activities":[
            {"name":"sessions/42/activities/2","artifacts":[{"bashOutput":{"command":"make","output":"ok"}}]},
            {"name":"sessions/42/activities/1","planGenerated":{"plan":{"steps":[{"title":"Build"}]}}}
        ]}"#,
    ));
    assert_eq!(
        step.texts,
        vec!["\n**Plan Generated:**\n- Build\n\n", "```bash\n$ make\nok\n```\n"]
    );
    match step.next {
        Next::Poll(request) => {
            assert_eq!(request.url, "https://base/sessions/42/activities?pageSize=100");
            assert_eq!(request.delay_secs, 2);
        },
        other => panic!("unexpected {:?}", other),
    }
    assert!(state.has_seen("sessions/42/activities/1"));
}

#[test]
fn loop_times_out_after_the_last_listing() {
    assert_eq!(MAX_POLLS, 600);
    assert_eq!(TIMEOUT_NOTICE, "\n[Timeout waiting for agent]\n");
    let mut state = started();
    let mut notices = 0;
    let mut polls = 1;
    loop {
        let step = state.on_reply(&PollReply::Unreachable);
        notices += step.texts.iter().filter(|t| t.as_str() == TIMEOUT_NOTICE).count();
        match step.next {
            Next::Poll(request) => {
                assert_eq!(request.kind, RequestKind::ListActivities);
                polls += 1;
            },
            Next::TimedOut => {
                assert_eq!(step.texts, vec![TIMEOUT_NOTICE]);
                break;
            },
            other => panic!("unexpected {:?}", other),
        }
    }
    assert_eq!(polls, 600);
    assert_eq!(notices, 1);
    assert_eq!(state.iterations, 600);
    assert_eq!(state.phase, Phase::TimedOut);
    let after = state.on_reply(&PollReply::Unreachable);
    assert!(after.texts.is_empty());
    assert!(matches!(after.next, Next::Stopped));
}

#[test]
fn last_page_before_timeout_is_still_rendered() {
    let mut state = started();
    for _ in 0..599 {
        assert!(matches!(state.on_page(None).next, Next::Poll(_)));
    }
    assert_eq!(state.iterations, 600);
    let step = state.on_page(Some(&vec![progress("late", "late")]));
    assert_eq!(step.texts, vec!["> late d\n", TIMEOUT_NOTICE]);
    assert!(matches!(step.next, Next::TimedOut));
}

#[test]
fn completion_in_the_last_listing_wins_over_the_timeout() {
    let mut state = started();
    for _ in 0..599 {
        state.on_page(None);
    }
    assert_eq!(state.iterations, 600);
    let step = state.on_page(Some(&vec![completed("done")]));
    assert!(step.texts.is_empty());
    assert!(matches!(step.next, Next::Done));
    assert_eq!(state.phase, Phase::Completed);
}

#[test]
fn pages_without_completion_time_out_after_the_last_listing() {
    let mut state = started();
    let mut shown = Vec::new();
    let mut listings = 1;
    loop {
        let id = format!("a{}", listings);
        let step = state.on_page(Some(&vec![progress(&id, &id)]));
        shown.extend(step.texts);
        match step.next {
            Next::Poll(_) => listings += 1,
            Next::TimedOut => break,
            other => panic!("unexpected {:?}", other),
        }
    }
    assert_eq!(listings, 600);
    assert_eq!(shown.len(), 601);
    assert_eq!(shown[0], "> a1 d\n");
    assert_eq!(shown[599], "> a600 d\n");
    assert_eq!(shown[600], TIMEOUT_NOTICE);
    assert_eq!(shown.iter().filter(|t| t.as_str() == TIMEOUT_NOTICE).count(), 1);
}
