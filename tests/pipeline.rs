use aicommits::diff::{staged_diff, DiffCapture};
use aicommits::error::PipelineError;
use aicommits::prompt::{build_prompt, generation_request, PROMPT_INTRO, PROMPT_OUTRO};
use aicommits::reply::{first_text, interpret_reply, is_success_status, Candidate, GenerationResponse, ServiceReply};
use aicommits::session::{Action, CommandOutcome, Completion, Event, Phase, ReviewDecision, Session};
use aicommits::text::trim;

fn capture(stdout: &[u8]) -> DiffCapture {
    DiffCapture { launched: true, success: true, stdout: stdout.to_vec(), stderr: String::new() }
}

fn answer(texts: &[&str]) -> GenerationResponse {
    GenerationResponse {
        candidates: vec![Candidate { parts: texts.iter().map(|t| t.to_string()).collect() }],
    }
}

fn ok_reply(text: &str) -> ServiceReply {
    ServiceReply { status: 200, body: String::new(), response: Some(answer(&[text])) }
}

fn done(success: bool, stderr: &str) -> CommandOutcome {
    CommandOutcome { launched: true, success, stderr: stderr.to_string() }
}

fn started(print_only: bool) -> Session {
    let mut s = Session::new("gemini-test".to_string(), "English".to_string(), false, print_only);
    assert_eq!(s.step(Event::Begin), Action::ReadDiff);
    s
}

#[test]
fn prompt_is_deterministic() {
    let a = build_prompt("diff --git a/x b/x\n+foo\n", "English");
    let b = build_prompt("diff --git a/x b/x\n+foo\n", "English");
    assert_eq!(a, b);
    assert_eq!(a, format!("{}English{}diff --git a/x b/x\n+foo\n", PROMPT_INTRO, PROMPT_OUTRO));
    assert!(a.ends_with("\nDiff:\ndiff --git a/x b/x\n+foo\n"));
    assert!(a.contains("in English."));
    assert_ne!(a, build_prompt("diff --git a/x b/x\n+foo\n", "Portuguese"));
}

#[test]
fn request_has_fixed_parameters() {
    let r = generation_request("p".to_string());
    assert_eq!(r.prompt, "p");
    assert_eq!(r.max_output_tokens, 1024);
    assert_eq!(r.temperature_hundredths, 20);
}

#[test]
fn trim_removes_outer_whitespace() {
    assert_eq!(trim(" \t feat: add foo \n"), "feat: add foo");
    assert_eq!(trim("a b"), "a b");
    assert_eq!(trim(" \n\t"), "");
    assert_eq!(trim("\u{3000}x\u{a0}"), "x");
}

#[test]
fn blank_diff_is_no_staged_changes() {
    assert_eq!(staged_diff(capture(b"   \n")), Err(PipelineError::NoStagedChanges));
    assert_eq!(staged_diff(capture(b"")), Err(PipelineError::NoStagedChanges));
}

#[test]
fn blank_diff_stops_before_generation() {
    let mut s = started(false);
    let a = s.step(Event::DiffRead(capture(b"   \n")));
    assert_eq!(a, Action::Finish(Err(PipelineError::NoStagedChanges)));
    assert_eq!(s.phase(), Phase::Finished);
    assert!(!s.accepts(&Event::Replied(ok_reply("x"))));
}

#[test]
fn diff_backend_failures() {
    let mut c = capture(b"");
    c.launched = false;
    assert_eq!(staged_diff(c), Err(PipelineError::BackendUnavailable));
    let mut c = capture(b"x");
    c.success = false;
    c.stderr = "fatal: not a git repository".to_string();
    assert_eq!(
        staged_diff(c),
        Err(PipelineError::BackendError { detail: "fatal: not a git repository".to_string() })
    );
    assert_eq!(staged_diff(capture(&[0x2b, 0xff, 0xfe])), Err(PipelineError::EncodingError));
}

#[test]
fn diff_is_kept_verbatim() {
    assert_eq!(staged_diff(capture(b"  +foo\n")), Ok("  +foo\n".to_string()));
}

#[test]
fn empty_candidate_list_is_empty_response() {
    let reply = ServiceReply {
        status: 200,
        body: "{\"candidates\":[]}".to_string(),
        response: Some(GenerationResponse { candidates: vec![] }),
    };
    assert_eq!(interpret_reply("m", reply), Err(PipelineError::EmptyResponse));
}

#[test]
fn candidate_without_text_is_empty_content() {
    assert_eq!(first_text(&answer(&[])), Err(PipelineError::EmptyContent));
}

#[test]
fn undecodable_success_is_malformed() {
    let reply = ServiceReply { status: 200, body: "<html>".to_string(), response: None };
    assert_eq!(interpret_reply("m", reply), Err(PipelineError::MalformedResponse));
}

#[test]
fn error_status_is_service_error() {
    let reply = ServiceReply { status: 429, body: "{\"error\": \"quota\"}\n".to_string(), response: None };
    assert_eq!(
        interpret_reply("gemini-x", reply),
        Err(PipelineError::ServiceError {
            model: "gemini-x".to_string(),
            status: 429,
            body: "{\"error\": \"quota\"}\n".to_string(),
        })
    );
    let reply = ServiceReply { status: 500, body: "boom".to_string(), response: Some(answer(&["x"])) };
    assert!(matches!(interpret_reply("m", reply), Err(PipelineError::ServiceError { status: 500, .. })));
}

#[test]
fn success_statuses() {
    assert!(!is_success_status(199));
    assert!(is_success_status(200));
    assert!(is_success_status(299));
    assert!(!is_success_status(300));
}

#[test]
fn message_is_trimmed() {
    let m = first_text(&answer(&["\n\n  fix: handle empty input\n", "ignored"])).unwrap();
    assert_eq!(m, "fix: handle empty input");
    assert!(!m.ends_with('\n'));
    assert_eq!(first_text(&answer(&["  \n"])), Ok(String::new()));
}

#[test]
fn scenario_add_foo() {
    let mut s = started(false);
    let a = s.step(Event::DiffRead(capture(b"diff --git a/x b/x\n+foo\n")));
    let expected = build_prompt("diff --git a/x b/x\n+foo\n", "English");
    assert_eq!(a, Action::Generate(generation_request(expected)));
    let a = s.step(Event::Replied(ok_reply(" feat: add foo \n")));
    assert_eq!(a, Action::Ask("feat: add foo".to_string()));
    assert_eq!(s.phase(), Phase::Presenting);
}

#[test]
fn print_only_never_commits() {
    let mut s = started(true);
    let a = s.step(Event::DiffRead(capture(b"+foo\n")));
    assert!(matches!(a, Action::Generate(_)));
    let a = s.step(Event::Replied(ok_reply(" feat: add foo \n")));
    assert_eq!(a, Action::Finish(Ok(Completion::Printed("feat: add foo".to_string()))));
    assert_eq!(s.phase(), Phase::Finished);
    assert!(!s.accepts(&Event::Decided(ReviewDecision::Accept)));
}

#[test]
fn regenerate_then_confirm() {
    let mut s = started(false);
    let mut prompts = Vec::new();
    let mut actions = vec![s.step(Event::DiffRead(capture(b"+foo\n")))];
    actions.push(s.step(Event::Replied(ok_reply("feat: first"))));
    actions.push(s.step(Event::Decided(ReviewDecision::Regenerate)));
    actions.push(s.step(Event::Replied(ok_reply("feat: second\n"))));
    actions.push(s.step(Event::Decided(ReviewDecision::Accept)));
    for a in &actions {
        if let Action::Generate(r) = a {
            prompts.push(r.prompt.clone());
        }
    }
    assert_eq!(prompts.len(), 2);
    assert_eq!(prompts[0], prompts[1]);
    assert_eq!(prompts[0], build_prompt("+foo\n", "English"));
    assert_eq!(actions[4], Action::Commit("feat: second".to_string()));
    assert_eq!(s.phase(), Phase::Committing);
}

#[test]
fn push_failure_keeps_commit() {
    let mut s = started(false);
    s.step(Event::DiffRead(capture(b"+foo\n")));
    s.step(Event::Replied(ok_reply("feat: foo")));
    assert_eq!(s.step(Event::Decided(ReviewDecision::Accept)), Action::Commit("feat: foo".to_string()));
    assert_eq!(s.step(Event::Committed(done(true, ""))), Action::Push);
    let a = s.step(Event::Pushed(done(false, "rejected")));
    assert_eq!(a, Action::Finish(Err(PipelineError::PushFailed { reason: "rejected".to_string() })));
    assert_eq!(s.phase(), Phase::Finished);
}

#[test]
fn successful_push_completes() {
    let mut s = started(false);
    s.step(Event::DiffRead(capture(b"+foo\n")));
    s.step(Event::Replied(ok_reply("feat: foo")));
    s.step(Event::Decided(ReviewDecision::Accept));
    s.step(Event::Committed(done(true, "")));
    assert_eq!(s.step(Event::Pushed(done(true, ""))), Action::Finish(Ok(Completion::Pushed)));
}

#[test]
fn commit_failure() {
    let mut s = started(false);
    s.step(Event::DiffRead(capture(b"+foo\n")));
    s.step(Event::Replied(ok_reply("feat: foo")));
    s.step(Event::Decided(ReviewDecision::Accept));
    let a = s.step(Event::Committed(done(false, "nothing to commit")));
    assert_eq!(a, Action::Finish(Err(PipelineError::CommitFailed { detail: "nothing to commit".to_string() })));
}

#[test]
fn cancel_ends_without_commit() {
    let mut s = started(false);
    s.step(Event::DiffRead(capture(b"+foo\n")));
    s.step(Event::Replied(ok_reply("feat: foo")));
    assert_eq!(s.step(Event::Decided(ReviewDecision::Cancel)), Action::Finish(Ok(Completion::Cancelled)));
}

#[test]
fn stage_all_comes_first() {
    let mut s = Session::new("m".to_string(), "English".to_string(), true, false);
    assert!(!s.accepts(&Event::DiffRead(capture(b"x"))));
    assert_eq!(s.step(Event::Begin), Action::StageAll);
    assert_eq!(s.step(Event::Staged(done(true, ""))), Action::ReadDiff);
    let mut s = Session::new("m".to_string(), "English".to_string(), true, false);
    s.step(Event::Begin);
    let a = s.step(Event::Staged(done(false, "bad path")));
    assert_eq!(a, Action::Finish(Err(PipelineError::StageFailed { detail: "bad path".to_string() })));
}

#[test]
fn unreachable_service_is_transport_error() {
    let mut s = started(false);
    s.step(Event::DiffRead(capture(b"+foo\n")));
    let a = s.step(Event::Unreachable("timed out".to_string()));
    assert_eq!(a, Action::Finish(Err(PipelineError::TransportError { detail: "timed out".to_string() })));
}
