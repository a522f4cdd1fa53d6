use minikv::connection::{ConnAction, ConnEvent, ConnState};
use minikv::service::{CommandService, LoggingLayer, RequestHandler};
use minikv::storage::InMemoryStorage;
use minikv::{Command, Response};

/// Feeds parsed lines through one connection and collects the response
/// lines written.
fn run(lines: Vec<Option<Command>>) -> (Vec<String>, ConnState) {
    let mut svc = LoggingLayer.layer(CommandService::new(InMemoryStorage::new()));
    let mut state = ConnState::new();
    let mut written = Vec::new();
    let mut input = lines.into_iter();
    let mut action = ConnAction::ReadLine;
    loop {
        action = match action {
            ConnAction::ReadLine => match input.next() {
                Some(line) => state.step(ConnEvent::LineRead(line)),
                None => state.step(ConnEvent::Ended),
            },
            ConnAction::Dispatch(cmd) => {
                let r = svc.call(cmd);
                state.step(ConnEvent::Answered(r))
            }
            ConnAction::Write(resp) => {
                written.push(resp.to_line());
                state.step(ConnEvent::Written)
            }
            ConnAction::Close => break,
        };
    }
    (written, state)
}

#[test]
fn end_to_end_scenario() {
    let (written, state) = run(vec![
        Some(Command::SetValue { key: "a".into(), value: "1".into() }),
        Some(Command::Get { key: "a".into() }),
        Some(Command::Del { key: "a".into() }),
        Some(Command::Get { key: "a".into() }),
    ]);
    assert_eq!(
        written,
        vec![
            "{\"status\":\"ok\",\"value\":\"OK\"}\n".to_string(),
            "{\"status\":\"ok\",\"value\":\"1\"}\n".to_string(),
            "{\"status\":\"ok\",\"value\":\"Deleted\"}\n".to_string(),
            "{\"status\":\"error\",\"message\":\"Key not found\"}\n".to_string(),
        ]
    );
    assert_eq!(state, ConnState::Closed);
}

#[test]
fn malformed_line_is_skipped() {
    let mut state = ConnState::new();
    assert!(matches!(state.step(ConnEvent::LineRead(None)), ConnAction::ReadLine));
    assert_eq!(state, ConnState::Reading);
    let a = state.step(ConnEvent::LineRead(Some(Command::Get { key: "k".into() })));
    assert!(matches!(a, ConnAction::Dispatch(Command::Get { .. })));
    assert_eq!(state, ConnState::Dispatching);

    let (written, _) = run(vec![None, Some(Command::SetValue { key: "k".into(), value: "v".into() })]);
    assert_eq!(written, vec!["{\"status\":\"ok\",\"value\":\"OK\"}\n".to_string()]);
}

#[test]
fn end_of_stream_closes_from_any_state() {
    for start in [ConnState::Reading, ConnState::Dispatching, ConnState::Writing, ConnState::Closed] {
        let mut s = start;
        assert!(matches!(s.step(ConnEvent::Ended), ConnAction::Close));
        assert_eq!(s, ConnState::Closed);
    }
}

#[test]
fn out_of_order_event_closes() {
    let mut s = ConnState::new();
    assert!(matches!(s.step(ConnEvent::Written), ConnAction::Close));
    assert_eq!(s, ConnState::Closed);
    assert!(matches!(s.step(ConnEvent::LineRead(None)), ConnAction::Close));
    assert_eq!(s, ConnState::Closed);
}

#[test]
fn answer_becomes_one_write_then_reading() {
    let mut s = ConnState::Dispatching;
    match s.step(ConnEvent::Answered(Ok("x".into()))) {
        ConnAction::Write(Response::Success { value }) => assert_eq!(value, "x"),
        _ => panic!("expected a write"),
    }
    assert_eq!(s, ConnState::Writing);
    assert!(matches!(s.step(ConnEvent::Written), ConnAction::ReadLine));
    assert_eq!(s, ConnState::Reading);
}

#[test]
fn response_lines_escape_their_payload() {
    let line = Response::Success { value: "say \"hi\"\n".into() }.to_line();
    assert_eq!(line, "{\"status\":\"ok\",\"value\":\"say \\\"hi\\\"\\n\"}\n");
    let line = Response::Error { message: "a\\b".into() }.to_line();
    assert_eq!(line, "{\"status\":\"error\",\"message\":\"a\\\\b\"}\n");
}

#[test]
fn control_characters_are_hex_escaped() {
    let line = Response::Success { value: "\u{1}\u{1f}\t".into() }.to_line();
    assert_eq!(line, "{\"status\":\"ok\",\"value\":\"\\u0001\\u001f\\t\"}\n");
}
