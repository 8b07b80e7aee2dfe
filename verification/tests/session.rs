use rtspy::session::{Session, SessionAction, SessionEvent, SessionPhase, SessionStyle};
use rtspy::signaling::read_client_message;

fn describe(actions: &[SessionAction]) -> Vec<String> {
    actions
        .iter()
        .map(|a| match a {
            SessionAction::SendText(t) => format!("send {}", t),
            SessionAction::ApplyAnswer(s) => format!("answer {}", s),
            SessionAction::AddIce(m, c) => format!("ice {} {}", m, c),
            SessionAction::StopPipeline => "stop".to_string(),
            SessionAction::Report(t) => format!("report {}", t),
        })
        .collect()
}

fn running(style: SessionStyle) -> Session {
    let mut s = Session::new(style);
    assert!(s.step(SessionEvent::Created).is_empty());
    let a = s.step(SessionEvent::Started("v=0".to_string()));
    assert_eq!(describe(&a), vec!["send {\"sdp\":\"v=0\",\"type\":\"offer\"}"]);
    assert!(s.step(SessionEvent::Sent).is_empty());
    assert!(s.phase == SessionPhase::Running);
    s
}

#[test]
fn session_sends_offer_then_runs() {
    let s = running(SessionStyle::Reporting);
    assert!(s.listens_to_client());
    assert!(s.listens_to_pipeline());
    assert!(!s.is_finished());
}

#[test]
fn session_applies_answers_and_candidates() {
    for style in [SessionStyle::Quiet, SessionStyle::Reporting] {
        let mut s = running(style);
        let a = s.step(SessionEvent::ClientText(read_client_message("{\"type\":\"answer\",\"sdp\":\"ans\"}")));
        assert_eq!(describe(&a), vec!["answer ans"]);
        let a = s.step(SessionEvent::ClientText(read_client_message(
            "{\"type\":\"ice\",\"mlineIndex\":0,\"candidate\":\"c\"}",
        )));
        assert_eq!(describe(&a), vec!["ice 0 c"]);
        let a = s.step(SessionEvent::ClientText(read_client_message("garbage")));
        assert!(a.is_empty());
        let a = s.step(SessionEvent::LocalIce("m".to_string()));
        assert_eq!(describe(&a), vec!["send m"]);
        assert!(s.step(SessionEvent::Sent).is_empty());
        assert!(s.phase == SessionPhase::Running);
    }
}

#[test]
fn quiet_session_reports_init_failure() {
    let mut s = Session::new(SessionStyle::Quiet);
    let a = s.step(SessionEvent::CreateFailed("no element".to_string()));
    assert_eq!(describe(&a), vec!["report Bridge init failed: no element"]);
    assert!(s.is_finished());
}

#[test]
fn quiet_session_reports_start_failure_without_stopping() {
    let mut s = Session::new(SessionStyle::Quiet);
    s.step(SessionEvent::Created);
    let a = s.step(SessionEvent::StartFailed("never got SDP offer".to_string()));
    assert_eq!(describe(&a), vec!["report Bridge start failed: never got SDP offer"]);
    assert!(s.is_finished());
}

#[test]
fn reporting_session_tells_browser_of_start_failure_and_stops() {
    let mut s = Session::new(SessionStyle::Reporting);
    s.step(SessionEvent::Created);
    let a = s.step(SessionEvent::StartFailed("boom".to_string()));
    assert_eq!(
        describe(&a),
        vec!["send {\"message\":\"boom\",\"type\":\"error\"}", "stop"]
    );
    assert!(s.is_finished());
    assert!(s.step(SessionEvent::SendFailed).is_empty());
}

#[test]
fn failed_offer_stops_only_reporting_sessions() {
    let mut q = Session::new(SessionStyle::Quiet);
    q.step(SessionEvent::Created);
    q.step(SessionEvent::Started("o".to_string()));
    assert!(q.step(SessionEvent::SendFailed).is_empty());
    assert!(q.is_finished());

    let mut r = Session::new(SessionStyle::Reporting);
    r.step(SessionEvent::Created);
    r.step(SessionEvent::Started("o".to_string()));
    assert_eq!(describe(&r.step(SessionEvent::SendFailed)), vec!["stop"]);
    assert!(r.is_finished());
}

#[test]
fn closed_browser_ends_quiet_session_but_not_reporting_one() {
    let mut q = running(SessionStyle::Quiet);
    assert_eq!(describe(&q.step(SessionEvent::ClientClosed)), vec!["stop"]);
    assert!(q.is_finished());

    let mut r = running(SessionStyle::Reporting);
    assert!(r.step(SessionEvent::ClientClosed).is_empty());
    assert!(!r.is_finished());
    assert!(!r.listens_to_client());
    assert!(r.listens_to_pipeline());
    assert_eq!(describe(&r.step(SessionEvent::LocalIce("m".to_string()))), vec!["send m"]);
    assert_eq!(describe(&r.step(SessionEvent::SendFailed)), vec!["stop"]);
    assert!(r.is_finished());
}

#[test]
fn non_text_message_ends_session() {
    for style in [SessionStyle::Quiet, SessionStyle::Reporting] {
        let mut s = running(style);
        assert_eq!(describe(&s.step(SessionEvent::ClientOther)), vec!["stop"]);
        assert!(s.is_finished());
    }
}

#[test]
fn finished_session_does_nothing() {
    let mut s = running(SessionStyle::Quiet);
    s.step(SessionEvent::ClientOther);
    let before = s;
    for e in [
        SessionEvent::Created,
        SessionEvent::Started("x".to_string()),
        SessionEvent::LocalIce("m".to_string()),
        SessionEvent::ClientText(read_client_message("{\"type\":\"answer\",\"sdp\":\"a\"}")),
        SessionEvent::ClientOther,
        SessionEvent::ClientClosed,
    ] {
        assert!(s.step(e).is_empty());
        assert!(s == before);
    }
}

#[test]
fn events_out_of_order_change_nothing() {
    let mut s = Session::new(SessionStyle::Reporting);
    assert!(s.step(SessionEvent::LocalIce("m".to_string())).is_empty());
    assert!(s.step(SessionEvent::Sent).is_empty());
    assert!(s.phase == SessionPhase::Creating);
}

#[test]
fn session_with_nothing_left_stops_pipeline() {
    let mut s = running(SessionStyle::Reporting);
    s.step(SessionEvent::ClientClosed);
    assert_eq!(describe(&s.step(SessionEvent::NothingLeft)), vec!["stop"]);
    assert!(s.is_finished());
}
