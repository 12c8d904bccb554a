use std::sync::Mutex;
use topgg::text::{bytes_eq, eq_ignore_ascii_case, str_eq};
use topgg::vote::Vote;
use topgg::webhook::{authorize, credential, webhook, Header, Stage, VoteHandler, WebhookState};
use topgg::ErrorKind;

struct Recorder {
    votes: Mutex<Vec<Vote>>,
}

impl Recorder {
    fn new() -> Recorder {
        Recorder { votes: Mutex::new(Vec::new()) }
    }
}

impl VoteHandler for Recorder {
    fn voted(&self, vote: Vote) {
        self.votes.lock().unwrap().push(vote);
    }
}

fn header(name: &str, value: &[u8]) -> Header {
    Header { name: name.to_string(), value: value.to_vec() }
}

fn hook() -> WebhookState<Recorder> {
    webhook("secret123".to_string(), Recorder::new())
}

fn seen(hook: &WebhookState<Recorder>) -> Vec<(u64, u64)> {
    hook.state.votes.lock().unwrap().iter().map(|v| (v.receiver_id, v.voter_id)).collect()
}

const BODY: &str = r#"{"bot":"1234567890","user":"9876543210","type":"upvote"}"#;

#[test]
fn dispatches_an_authorized_vote() {
    let hook = hook();
    let headers = vec![header("Authorization", b"secret123")];
    assert_eq!(hook.handle(&headers, BODY), 200);
    assert_eq!(seen(&hook), vec![(1234567890, 9876543210)]);
}

#[test]
fn rejects_a_wrong_secret() {
    let hook = hook();
    let headers = vec![header("Authorization", b"wrong")];
    assert_eq!(hook.handle(&headers, BODY), 401);
    assert!(seen(&hook).is_empty());
}

#[test]
fn rejects_a_non_numeric_identifier() {
    let hook = hook();
    let headers = vec![header("Authorization", b"secret123")];
    assert_eq!(hook.handle(&headers, r#"{"bot":"abc"}"#), 401);
    assert!(seen(&hook).is_empty());
}

#[test]
fn tolerates_an_unknown_field() {
    let hook = hook();
    let headers = vec![header("Authorization", b"secret123")];
    let body = r#"{"bot":"1","user":"2","type":"upvote","extra":"x"}"#;
    assert_eq!(hook.handle(&headers, body), 200);
    assert_eq!(seen(&hook), vec![(1, 2)]);
}

#[test]
fn repeated_requests_are_dispatched_each_time() {
    let hook = hook();
    let headers = vec![header("Authorization", b"secret123")];
    for round in 1..=5 {
        assert_eq!(hook.handle(&headers, BODY), 200);
        assert_eq!(seen(&hook).len(), round);
    }
    assert_eq!(seen(&hook), vec![(1234567890, 9876543210); 5]);
}

#[test]
fn a_rejection_leaves_no_trace_on_later_requests() {
    let hook = hook();
    let good = vec![header("Authorization", b"secret123")];
    let bad = vec![header("Authorization", b"nope")];
    assert_eq!(hook.handle(&bad, BODY), 401);
    assert_eq!(hook.handle(&good, "{"), 401);
    assert_eq!(hook.handle(&good, BODY), 200);
    assert_eq!(hook.handle(&bad, BODY), 401);
    assert_eq!(hook.handle(&good, BODY), 200);
    assert_eq!(seen(&hook).len(), 2);
}

#[test]
fn rejects_a_request_without_the_header() {
    let hook = hook();
    assert_eq!(hook.handle(&Vec::new(), BODY), 401);
    let headers = vec![header("Content-Type", b"application/json"), header("Authorizatio", b"secret123")];
    assert_eq!(hook.handle(&headers, BODY), 401);
    assert!(seen(&hook).is_empty());
}

#[test]
fn rejects_a_credential_that_is_not_utf8() {
    let hook = webhook("\u{fffd}".to_string(), Recorder::new());
    assert_eq!(hook.handle(&vec![header("Authorization", &[0xff])], BODY), 401);
    assert_eq!(hook.handle(&vec![header("Authorization", &[0xef, 0xbf])], BODY), 401);
    assert!(seen(&hook).is_empty());
    assert_eq!(hook.handle(&vec![header("Authorization", &[0xef, 0xbf, 0xbd])], BODY), 200);
}

#[test]
fn compares_the_secret_exactly() {
    assert!(authorize("secret123", &vec![header("Authorization", b"secret123")]));
    for value in ["Secret123", "secret123 ", " secret123", "secret12", "secret1234", "", "Bearer secret123"] {
        assert!(!authorize("secret123", &vec![header("Authorization", value.as_bytes())]), "{value:?}");
    }
    assert!(authorize("", &vec![header("Authorization", b"")]));
    assert!(authorize("pässwörd", &vec![header("Authorization", "pässwörd".as_bytes())]));
    assert!(!authorize("pässwörd", &vec![header("Authorization", b"password")]));
}

#[test]
fn header_names_are_matched_without_case() {
    for name in ["authorization", "AUTHORIZATION", "Authorization", "aUtHoRiZaTiOn"] {
        assert!(authorize("s", &vec![header(name, b"s")]), "{name}");
    }
    for name in ["authorisation", "authorization ", "x-authorization", "", "authorizatioN\u{212a}"] {
        assert!(!authorize("s", &vec![header(name, b"s")]), "{name}");
    }
}

#[test]
fn the_first_authorization_header_counts() {
    let headers = vec![
        header("Host", b"example.org"),
        header("authorization", b"first"),
        header("Authorization", b"second"),
    ];
    assert_eq!(credential(&headers).map(Vec::as_slice), Some(&b"first"[..]));
    assert!(authorize("first", &headers));
    assert!(!authorize("second", &headers));
    assert!(credential(&vec![header("Host", b"example.org")]).is_none());
}

#[test]
fn stages_follow_one_another() {
    let hook = hook();
    let good = vec![header("Authorization", b"secret123")];
    let bad = vec![header("Authorization", b"wrong")];

    let stage = hook.advance(Stage::AwaitingAuth, &good, BODY);
    assert!(matches!(stage, Stage::AwaitingBody));
    assert_eq!(stage.status(), None);
    let stage = hook.advance(stage, &good, BODY);
    match &stage {
        Stage::Dispatched(vote) => assert_eq!((vote.receiver_id, vote.voter_id), (1234567890, 9876543210)),
        other => panic!("{other:?}"),
    }
    assert_eq!(stage.status(), Some(200));
    let stage = hook.advance(stage, &bad, "{");
    assert!(matches!(stage, Stage::Dispatched(_)));

    let stage = hook.advance(Stage::AwaitingAuth, &bad, BODY);
    assert!(matches!(stage, Stage::Rejected(ErrorKind::Unauthorized)));
    assert_eq!(stage.status(), Some(401));
    let stage = hook.advance(stage, &good, BODY);
    assert!(matches!(stage, Stage::Rejected(ErrorKind::Unauthorized)));

    let stage = hook.advance(Stage::AwaitingBody, &bad, "{");
    assert!(matches!(stage, Stage::Rejected(ErrorKind::MalformedPayload)));
    assert_eq!(stage.status(), Some(401));
    assert_eq!(Stage::AwaitingAuth.status(), None);
    assert!(seen(&hook).is_empty());
}

#[test]
fn both_rejections_answer_alike() {
    let hook = hook();
    let good = vec![header("Authorization", b"secret123")];
    let bad = vec![header("Authorization", b"wrong")];
    let unauthorized = hook.receive(&bad, BODY);
    let malformed = hook.receive(&good, "{}");
    assert!(matches!(unauthorized, Stage::Rejected(ErrorKind::Unauthorized)));
    assert!(matches!(malformed, Stage::Rejected(ErrorKind::MalformedPayload)));
    assert_eq!(unauthorized.status(), malformed.status());
    assert!(matches!(hook.receive(&bad, "{}"), Stage::Rejected(ErrorKind::Unauthorized)));
}

#[test]
fn the_state_keeps_what_it_was_given() {
    let hook = webhook("pw".to_string(), 7u8);
    assert_eq!(hook.password, "pw");
    assert_eq!(hook.state, 7);
    assert!(matches!(hook.receive(&vec![header("authorization", b"pw")], BODY), Stage::Dispatched(_)));
}

#[test]
fn text_comparisons() {
    assert!(str_eq("", ""));
    assert!(str_eq("bot", "bot"));
    assert!(!str_eq("bot", "bo"));
    assert!(!str_eq("bot", "bOt"));
    assert!(bytes_eq(b"ab", b"ab"));
    assert!(!bytes_eq(b"ab", b"ac"));
    assert!(!bytes_eq(b"ab", b"abc"));
    assert!(eq_ignore_ascii_case("AbC", "aBc"));
    assert!(eq_ignore_ascii_case("", ""));
    assert!(!eq_ignore_ascii_case("abc", "abd"));
    assert!(!eq_ignore_ascii_case("abc", "ab"));
    assert!(!eq_ignore_ascii_case("@", "`"));
    assert!(!eq_ignore_ascii_case("[", "{"));
    assert!(!eq_ignore_ascii_case("É", "é"));
    assert!(eq_ignore_ascii_case("Éa", "ÉA"));
}
