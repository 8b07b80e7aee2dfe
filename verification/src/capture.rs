//! The frame loops: the viewer that shows an RTSP stream in a window until
//! Escape is pressed, and the camera loop that stamps and hands on frames
//! until nobody takes them.
use vstd::prelude::*;
use crate::text::prefixed;

verus! {

/// The key code that closes a viewer window (Escape).
pub const ESCAPE_KEY: i32 = 27;

/// How long a loop waits after a read that gave no frame, in milliseconds.
pub const RETRY_WAIT_MS: u64 = 10;

/// The format (chrono's) of the time that the camera loop writes on each frame.
pub const TIMESTAMP_FORMAT: &'static str = "%Y-%m-%d %H:%M:%S";

/// How long a viewer waits for a key after showing a frame, in milliseconds.
pub const KEY_WAIT_MS: i32 = 1;

/// What a viewer does when the stream cannot be opened.
#[derive(PartialEq, Eq, Structural, Clone, Copy)]
pub enum OpenFailure {
    /// Write a message and end normally.
    Report,
    /// Abort with a message.
    Abort,
}

#[derive(PartialEq, Eq, Structural, Clone, Copy)]
pub enum ViewerPhase {
    /// The stream is being opened.
    Opening,
    /// A frame is being read.
    Reading,
    /// A frame is shown and a key awaited.
    Showing,
    /// The viewer is done.
    Finished,
}

/// A viewer of one stream.
pub struct Viewer {
    pub url: String,
    pub on_open_failure: OpenFailure,
    pub phase: ViewerPhase,
}

/// What the viewer learnt from its last action.
pub enum ViewerEvent {
    /// Whether the stream is open.
    Opened(bool),
    /// Whether a frame was grabbed and, if so, whether it is empty.
    FrameRead { grabbed: bool, empty: bool },
    /// The key code that the key poll returned (negative for none).
    KeyPressed(i32),
}

/// What the viewer does next, in order.
pub enum ViewerAction {
    /// Create the window.
    OpenWindow,
    /// Read the next frame.
    ReadFrame,
    /// Sleep this many milliseconds.
    Wait(u64),
    /// Show the frame just read.
    ShowFrame,
    /// Poll the keyboard, waiting this many milliseconds.
    PollKey(i32),
    /// Write this message and end.
    Report(String),
    /// Abort with this message.
    Abort(String),
}

pub enum ViewerActionView {
    OpenWindow,
    ReadFrame,
    Wait(u64),
    ShowFrame,
    PollKey(i32),
    Report(Seq<char>),
    Abort(Seq<char>),
}

impl View for ViewerAction {
    type V = ViewerActionView;

    open spec fn view(&self) -> ViewerActionView {
        match self {
            ViewerAction::OpenWindow => ViewerActionView::OpenWindow,
            ViewerAction::ReadFrame => ViewerActionView::ReadFrame,
            ViewerAction::Wait(ms) => ViewerActionView::Wait(*ms),
            ViewerAction::ShowFrame => ViewerActionView::ShowFrame,
            ViewerAction::PollKey(ms) => ViewerActionView::PollKey(*ms),
            ViewerAction::Report(t) => ViewerActionView::Report(t@),
            ViewerAction::Abort(t) => ViewerActionView::Abort(t@),
        }
    }
}

pub open spec fn viewer_actions_view(v: Seq<ViewerAction>) -> Seq<ViewerActionView> {
    v.map_values(|a: ViewerAction| a@)
}

/// One step of a viewer of `url`: the next phase and the actions, in order.
/// An unopened stream ends the viewer with a message; a read that gives no
/// frame or an empty one is retried after a wait; a frame is shown and the
/// keyboard polled; Escape ends the viewer, any other key reads on. An event
/// that the phase does not wait for changes nothing.
pub open spec fn viewer_next(
    url: Seq<char>,
    on_open_failure: OpenFailure,
    phase: ViewerPhase,
    e: ViewerEvent,
) -> (ViewerPhase, Seq<ViewerActionView>) {
    match (phase, e) {
        (ViewerPhase::Opening, ViewerEvent::Opened(open)) => if open {
            (ViewerPhase::Reading, seq![ViewerActionView::OpenWindow, ViewerActionView::ReadFrame])
        } else if on_open_failure == OpenFailure::Report {
            (
                ViewerPhase::Finished,
                seq![ViewerActionView::Report("❌ Failed to open RTSP stream: "@ + url)],
            )
        } else {
            (
                ViewerPhase::Finished,
                seq![ViewerActionView::Abort("Failed to open RTSP stream: "@ + url)],
            )
        },
        (ViewerPhase::Reading, ViewerEvent::FrameRead { grabbed, empty }) => if !grabbed || empty {
            (
                ViewerPhase::Reading,
                seq![ViewerActionView::Wait(RETRY_WAIT_MS), ViewerActionView::ReadFrame],
            )
        } else {
            (ViewerPhase::Showing, seq![ViewerActionView::ShowFrame, ViewerActionView::PollKey(KEY_WAIT_MS)])
        },
        (ViewerPhase::Showing, ViewerEvent::KeyPressed(k)) => if k == ESCAPE_KEY {
            (ViewerPhase::Finished, seq![])
        } else {
            (ViewerPhase::Reading, seq![ViewerActionView::ReadFrame])
        },
        _ => (phase, seq![]),
    }
}

impl Viewer {
    /// A viewer of `url` that is about to open the stream.
    pub fn new(url: String, on_open_failure: OpenFailure) -> (v: Viewer)
        ensures
            v.url == url,
            v.on_open_failure == on_open_failure,
            v.phase == ViewerPhase::Opening,
    {
        Viewer { url, on_open_failure, phase: ViewerPhase::Opening }
    }

    /// Whether the viewer is done.
    pub fn is_finished(&self) -> (b: bool)
        ensures
            b == (self.phase == ViewerPhase::Finished),
    {
        self.phase == ViewerPhase::Finished
    }

    /// Takes one event and returns the actions to perform, in order.
    pub fn step(&mut self, event: ViewerEvent) -> (actions: Vec<ViewerAction>)
        ensures
            final(self).url == old(self).url,
            final(self).on_open_failure == old(self).on_open_failure,
            (final(self).phase, viewer_actions_view(actions@)) == viewer_next(
                old(self).url@,
                old(self).on_open_failure,
                old(self).phase,
                event,
            ),
    {
        let mut actions: Vec<ViewerAction> = Vec::new();
        match (self.phase, event) {
            (ViewerPhase::Opening, ViewerEvent::Opened(open)) => {
                self.phase = ViewerPhase::Finished;
                if open {
                    self.phase = ViewerPhase::Reading;
                    actions.push(ViewerAction::OpenWindow);
                    actions.push(ViewerAction::ReadFrame);
                } else if self.on_open_failure == OpenFailure::Report {
                    actions.push(
                        ViewerAction::Report(prefixed("❌ Failed to open RTSP stream: ", &self.url)),
                    );
                } else {
                    actions.push(
                        ViewerAction::Abort(prefixed("Failed to open RTSP stream: ", &self.url)),
                    );
                }
            },
            (ViewerPhase::Reading, ViewerEvent::FrameRead { grabbed, empty }) => {
                if !grabbed || empty {
                    actions.push(ViewerAction::Wait(RETRY_WAIT_MS));
                    actions.push(ViewerAction::ReadFrame);
                } else {
                    self.phase = ViewerPhase::Showing;
                    actions.push(ViewerAction::ShowFrame);
                    actions.push(ViewerAction::PollKey(KEY_WAIT_MS));
                }
            },
            (ViewerPhase::Showing, ViewerEvent::KeyPressed(k)) => {
                if k == ESCAPE_KEY {
                    self.phase = ViewerPhase::Finished;
                } else {
                    self.phase = ViewerPhase::Reading;
                    actions.push(ViewerAction::ReadFrame);
                }
            },
            _ => {},
        }
        assert(viewer_actions_view(actions@) =~= viewer_next(
            old(self).url@,
            old(self).on_open_failure,
            old(self).phase,
            event,
        ).1);
        actions
    }
}

#[derive(PartialEq, Eq, Structural, Clone, Copy)]
pub enum CameraPhase {
    /// A frame is being read.
    Reading,
    /// A stamped frame is being handed on.
    Sending,
    /// The loop is done.
    Finished,
}

/// The camera loop.
#[derive(PartialEq, Eq, Structural, Clone, Copy)]
pub struct CameraLoop {
    pub phase: CameraPhase,
}

/// What the camera loop learnt from its last action.
#[derive(PartialEq, Eq, Structural, Clone, Copy)]
pub enum CameraEvent {
    /// Whether a frame was grabbed and, if so, whether it is empty.
    FrameRead { grabbed: bool, empty: bool },
    /// Whether the stamped frame was taken by the receiver.
    Sent(bool),
}

/// What the camera loop does next, in order.
#[derive(PartialEq, Eq, Structural, Clone, Copy)]
pub enum CameraAction {
    /// Read the next frame.
    ReadFrame,
    /// Sleep this many milliseconds.
    Wait(u64),
    /// Write the current time on the frame and hand its bytes on.
    StampAndSend,
}

/// One step of the camera loop: a grabbed, non-empty frame is stamped and
/// handed on; otherwise the read is retried after a wait; once a frame is not
/// taken, the loop ends. An event that the phase does not wait for changes
/// nothing.
pub open spec fn camera_next(phase: CameraPhase, e: CameraEvent) -> (CameraPhase, Seq<CameraAction>) {
    match (phase, e) {
        (CameraPhase::Reading, CameraEvent::FrameRead { grabbed, empty }) => if grabbed && !empty {
            (CameraPhase::Sending, seq![CameraAction::StampAndSend])
        } else {
            (CameraPhase::Reading, seq![CameraAction::Wait(RETRY_WAIT_MS), CameraAction::ReadFrame])
        },
        (CameraPhase::Sending, CameraEvent::Sent(taken)) => if taken {
            (CameraPhase::Reading, seq![CameraAction::ReadFrame])
        } else {
            (CameraPhase::Finished, seq![])
        },
        _ => (phase, seq![]),
    }
}

impl CameraLoop {
    /// A camera loop about to read its first frame.
    pub fn new() -> (c: CameraLoop)
        ensures
            c.phase == CameraPhase::Reading,
    {
        CameraLoop { phase: CameraPhase::Reading }
    }

    /// Whether the loop is done.
    pub fn is_finished(&self) -> (b: bool)
        ensures
            b == (self.phase == CameraPhase::Finished),
    {
        self.phase == CameraPhase::Finished
    }

    /// Takes one event and returns the actions to perform, in order.
    pub fn step(&mut self, event: CameraEvent) -> (actions: Vec<CameraAction>)
        ensures
            (final(self).phase, actions@) == camera_next(old(self).phase, event),
    {
        let mut actions: Vec<CameraAction> = Vec::new();
        match (self.phase, event) {
            (CameraPhase::Reading, CameraEvent::FrameRead { grabbed, empty }) => {
                if grabbed && !empty {
                    self.phase = CameraPhase::Sending;
                    actions.push(CameraAction::StampAndSend);
                } else {
                    actions.push(CameraAction::Wait(RETRY_WAIT_MS));
                    actions.push(CameraAction::ReadFrame);
                }
            },
            (CameraPhase::Sending, CameraEvent::Sent(taken)) => {
                if taken {
                    self.phase = CameraPhase::Reading;
                    actions.push(CameraAction::ReadFrame);
                } else {
                    self.phase = CameraPhase::Finished;
                }
            },
            _ => {},
        }
        assert(actions@ =~= camera_next(old(self).phase, event).1);
        actions
    }
}


/// Laws of every step of a viewer: a frame is shown only right after a read
/// that grabbed a non-empty frame; the viewer ends only when Escape is
/// pressed on a shown frame or the stream does not open; a finished viewer
/// stays finished and does nothing.
pub proof fn lemma_viewer_step_laws(url: Seq<char>, f: OpenFailure, p: ViewerPhase, e: ViewerEvent)
    ensures
        ({
            let (q, acts) = viewer_next(url, f, p, e);
            &&& forall|i: int|
                0 <= i < acts.len() && #[trigger] acts[i] is ShowFrame ==> p == ViewerPhase::Reading
                    && e == (ViewerEvent::FrameRead { grabbed: true, empty: false })
            &&& (q == ViewerPhase::Finished && p != ViewerPhase::Finished) ==> ((p
                == ViewerPhase::Showing && e == ViewerEvent::KeyPressed(ESCAPE_KEY)) || (p
                == ViewerPhase::Opening && e == ViewerEvent::Opened(false)))
            &&& p == ViewerPhase::Finished ==> q == p && acts.len() == 0
        }),
{
}

/// Laws of every step of the camera loop: only a grabbed, non-empty frame is
/// stamped and handed on; the loop ends only when a frame is not taken; a
/// finished loop stays finished and does nothing.
pub proof fn lemma_camera_step_laws(p: CameraPhase, e: CameraEvent)
    ensures
        ({
            let (q, acts) = camera_next(p, e);
            &&& forall|i: int|
                0 <= i < acts.len() && #[trigger] acts[i] == CameraAction::StampAndSend ==> p
                    == CameraPhase::Reading && e == (CameraEvent::FrameRead { grabbed: true, empty: false })
            &&& (q == CameraPhase::Finished && p != CameraPhase::Finished) ==> e == CameraEvent::Sent(false)
            &&& p == CameraPhase::Finished ==> q == p && acts.len() == 0
        }),
{
}

/// How a viewer answers the event it waits for: an opened stream gets a
/// window and a first read, an unopened one a message (reported or aborting,
/// as chosen) that names the URL and the end; a read without a frame, or with
/// an empty one, is retried after the retry wait; a frame is shown and the
/// keyboard polled; on a shown frame Escape ends the viewer and every other
/// key code reads the next frame. Whatever phase it reaches short of the end,
/// the viewer has something to do.
pub proof fn lemma_viewer_law(url: Seq<char>, f: OpenFailure, k: i32, grabbed: bool, empty: bool)
    ensures
        viewer_next(url, f, ViewerPhase::Opening, ViewerEvent::Opened(true)) == (
            ViewerPhase::Reading,
            seq![ViewerActionView::OpenWindow, ViewerActionView::ReadFrame],
        ),
        f == OpenFailure::Report ==> viewer_next(url, f, ViewerPhase::Opening, ViewerEvent::Opened(false))
            == (
            ViewerPhase::Finished,
            seq![ViewerActionView::Report("❌ Failed to open RTSP stream: "@ + url)],
        ),
        f == OpenFailure::Abort ==> viewer_next(url, f, ViewerPhase::Opening, ViewerEvent::Opened(false))
            == (
            ViewerPhase::Finished,
            seq![ViewerActionView::Abort("Failed to open RTSP stream: "@ + url)],
        ),
        (!grabbed || empty) ==> viewer_next(
            url,
            f,
            ViewerPhase::Reading,
            ViewerEvent::FrameRead { grabbed, empty },
        ) == (ViewerPhase::Reading, seq![ViewerActionView::Wait(10), ViewerActionView::ReadFrame]),
        (grabbed && !empty) ==> viewer_next(
            url,
            f,
            ViewerPhase::Reading,
            ViewerEvent::FrameRead { grabbed, empty },
        ) == (ViewerPhase::Showing, seq![ViewerActionView::ShowFrame, ViewerActionView::PollKey(1)]),
        k == 27 ==> viewer_next(url, f, ViewerPhase::Showing, ViewerEvent::KeyPressed(k)) == (
            ViewerPhase::Finished,
            Seq::<ViewerActionView>::empty(),
        ),
        k != 27 ==> viewer_next(url, f, ViewerPhase::Showing, ViewerEvent::KeyPressed(k)) == (
            ViewerPhase::Reading,
            seq![ViewerActionView::ReadFrame],
        ),
        ({
            let (q, acts) = viewer_next(url, f, ViewerPhase::Showing, ViewerEvent::KeyPressed(k));
            q != ViewerPhase::Finished ==> acts.len() > 0
        }),
        ({
            let (q, acts) = viewer_next(
                url,
                f,
                ViewerPhase::Reading,
                ViewerEvent::FrameRead { grabbed, empty },
            );
            q != ViewerPhase::Finished && acts.len() > 0
        }),
{
}

/// How the camera loop answers the event it waits for: a grabbed, non-empty
/// frame is stamped and handed on; any other read is retried after the retry
/// wait; a frame that was taken leads to the next read, one that was not
/// ends the loop.
pub proof fn lemma_camera_law(grabbed: bool, empty: bool)
    ensures
        (grabbed && !empty) ==> camera_next(CameraPhase::Reading, CameraEvent::FrameRead { grabbed, empty })
            == (CameraPhase::Sending, seq![CameraAction::StampAndSend]),
        (!grabbed || empty) ==> camera_next(CameraPhase::Reading, CameraEvent::FrameRead { grabbed, empty })
            == (CameraPhase::Reading, seq![CameraAction::Wait(10), CameraAction::ReadFrame]),
        camera_next(CameraPhase::Sending, CameraEvent::Sent(true)) == (
            CameraPhase::Reading,
            seq![CameraAction::ReadFrame],
        ),
        camera_next(CameraPhase::Sending, CameraEvent::Sent(false)) == (
            CameraPhase::Finished,
            Seq::<CameraAction>::empty(),
        ),
{
}
} // verus!
