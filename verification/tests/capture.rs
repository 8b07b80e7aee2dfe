use rtspy::capture::{
    CameraAction, CameraEvent, CameraLoop, CameraPhase, OpenFailure, Viewer, ViewerAction,
    ViewerEvent, ViewerPhase, ESCAPE_KEY,
};

fn names(actions: &[ViewerAction]) -> Vec<String> {
    actions
        .iter()
        .map(|a| match a {
            ViewerAction::OpenWindow => "open".to_string(),
            ViewerAction::ReadFrame => "read".to_string(),
            ViewerAction::Wait(ms) => format!("wait {}", ms),
            ViewerAction::ShowFrame => "show".to_string(),
            ViewerAction::PollKey(ms) => format!("key {}", ms),
            ViewerAction::Report(t) => format!("report {}", t),
            ViewerAction::Abort(t) => format!("abort {}", t),
        })
        .collect()
}

#[test]
fn viewer_shows_frames_until_escape() {
    let mut v = Viewer::new("rtsp://cam".to_string(), OpenFailure::Report);
    assert_eq!(names(&v.step(ViewerEvent::Opened(true))), vec!["open", "read"]);
    assert_eq!(names(&v.step(ViewerEvent::FrameRead { grabbed: true, empty: false })), vec!["show", "key 1"]);
    assert_eq!(names(&v.step(ViewerEvent::KeyPressed(-1))), vec!["read"]);
    assert_eq!(names(&v.step(ViewerEvent::FrameRead { grabbed: true, empty: false })), vec!["show", "key 1"]);
    assert!(v.step(ViewerEvent::KeyPressed(ESCAPE_KEY)).is_empty());
    assert!(v.is_finished());
    assert_eq!(ESCAPE_KEY, 27);
}

#[test]
fn viewer_retries_missing_or_empty_frames() {
    let mut v = Viewer::new("u".to_string(), OpenFailure::Abort);
    v.step(ViewerEvent::Opened(true));
    assert_eq!(names(&v.step(ViewerEvent::FrameRead { grabbed: false, empty: true })), vec!["wait 10", "read"]);
    assert_eq!(names(&v.step(ViewerEvent::FrameRead { grabbed: true, empty: true })), vec!["wait 10", "read"]);
    assert!(v.phase == ViewerPhase::Reading);
}

#[test]
fn viewer_reports_unopened_stream() {
    let mut v = Viewer::new("rtsp://x/live".to_string(), OpenFailure::Report);
    assert_eq!(
        names(&v.step(ViewerEvent::Opened(false))),
        vec!["report ❌ Failed to open RTSP stream: rtsp://x/live"]
    );
    assert!(v.is_finished());
}

#[test]
fn worker_viewer_aborts_on_unopened_stream() {
    let mut v = Viewer::new("rtsp://x/live".to_string(), OpenFailure::Abort);
    assert_eq!(
        names(&v.step(ViewerEvent::Opened(false))),
        vec!["abort Failed to open RTSP stream: rtsp://x/live"]
    );
    assert!(v.is_finished());
}

#[test]
fn viewer_ignores_unexpected_events() {
    let mut v = Viewer::new("u".to_string(), OpenFailure::Report);
    assert!(v.step(ViewerEvent::KeyPressed(ESCAPE_KEY)).is_empty());
    assert!(v.phase == ViewerPhase::Opening);
    v.step(ViewerEvent::Opened(true));
    assert!(v.step(ViewerEvent::KeyPressed(ESCAPE_KEY)).is_empty());
    assert!(!v.is_finished());
}

#[test]
fn camera_sends_stamped_frames_until_not_taken() {
    let mut c = CameraLoop::new();
    assert!(c.step(CameraEvent::FrameRead { grabbed: false, empty: true }) == vec![CameraAction::Wait(10), CameraAction::ReadFrame]);
    assert!(c.step(CameraEvent::FrameRead { grabbed: true, empty: true }) == vec![CameraAction::Wait(10), CameraAction::ReadFrame]);
    assert!(c.step(CameraEvent::FrameRead { grabbed: true, empty: false }) == vec![CameraAction::StampAndSend]);
    assert!(c.step(CameraEvent::Sent(true)) == vec![CameraAction::ReadFrame]);
    assert!(c.step(CameraEvent::FrameRead { grabbed: true, empty: false }) == vec![CameraAction::StampAndSend]);
    assert!(c.step(CameraEvent::Sent(false)).is_empty());
    assert!(c.is_finished());
    assert!(c.step(CameraEvent::FrameRead { grabbed: true, empty: false }).is_empty());
    assert!(c.phase == CameraPhase::Finished);
}
