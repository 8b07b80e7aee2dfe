//! The decisions of a signalling session between the browser and an
//! RTSP-to-WebRTC bridge: what to send, what to hand to the pipeline, and
//! when the session ends and the pipeline stops.
use vstd::prelude::*;
use crate::signaling::{client_action, error_message, offer_message, ClientAction, ClientMessage};
use crate::signaling;
use crate::text::prefixed;

verus! {

/// How a bridge deals with its own failures.
#[derive(PartialEq, Eq, Structural, Clone, Copy)]
pub enum SessionStyle {
    /// Failures are reported on the bridge's own error stream; a failed start
    /// or a failed offer leaves the pipeline as it is.
    Quiet,
    /// Failures are reported to the browser and the pipeline is always
    /// stopped; the bridge outlives a browser that stops sending.
    Reporting,
}

#[derive(PartialEq, Eq, Structural, Clone, Copy)]
pub enum SessionPhase {
    /// The bridge's pipeline is being built.
    Creating,
    /// The pipeline is being brought up and the SDP offer awaited.
    Starting,
    /// The offer is being sent to the browser.
    SendingOffer,
    /// Messages flow both ways.
    Running,
    /// The session is over.
    Finished,
}

/// The state of a session.
#[derive(PartialEq, Eq, Structural, Clone, Copy)]
pub struct Session {
    pub style: SessionStyle,
    pub phase: SessionPhase,
    /// Whether the browser's side of the socket still delivers messages.
    pub client_open: bool,
}

/// What happened since the last step.
pub enum SessionEvent {
    /// The bridge's pipeline was built.
    Created,
    /// The bridge's pipeline could not be built; the error's text.
    CreateFailed(String),
    /// The pipeline runs and produced this SDP offer.
    Started(String),
    /// The pipeline did not start; the error's text.
    StartFailed(String),
    /// The last text was sent to the browser.
    Sent,
    /// The last text could not be sent to the browser.
    SendFailed,
    /// A text message from the browser, as read by `read_client_message`.
    ClientText(Option<ClientMessage>),
    /// A message from the browser that is no text, or a failed receive.
    ClientOther,
    /// The browser's side of the socket ended.
    ClientClosed,
    /// The pipeline found a local ICE candidate; the message that tells of it.
    LocalIce(String),
    /// Neither the browser nor the pipeline can deliver anything more.
    NothingLeft,
}

pub enum SessionEventView {
    Created,
    CreateFailed(Seq<char>),
    Started(Seq<char>),
    StartFailed(Seq<char>),
    Sent,
    SendFailed,
    ClientText(Option<signaling::ClientMessageView>),
    ClientOther,
    ClientClosed,
    LocalIce(Seq<char>),
    NothingLeft,
}

impl View for SessionEvent {
    type V = SessionEventView;

    open spec fn view(&self) -> SessionEventView {
        match self {
            SessionEvent::Created => SessionEventView::Created,
            SessionEvent::CreateFailed(t) => SessionEventView::CreateFailed(t@),
            SessionEvent::Started(s) => SessionEventView::Started(s@),
            SessionEvent::StartFailed(t) => SessionEventView::StartFailed(t@),
            SessionEvent::Sent => SessionEventView::Sent,
            SessionEvent::SendFailed => SessionEventView::SendFailed,
            SessionEvent::ClientText(m) => SessionEventView::ClientText(
                match m {
                    Some(m) => Some(m@),
                    None => None,
                },
            ),
            SessionEvent::ClientOther => SessionEventView::ClientOther,
            SessionEvent::ClientClosed => SessionEventView::ClientClosed,
            SessionEvent::LocalIce(m) => SessionEventView::LocalIce(m@),
            SessionEvent::NothingLeft => SessionEventView::NothingLeft,
        }
    }
}

/// What the bridge does next, in order.
pub enum SessionAction {
    /// Send this text to the browser, then report `Sent` or `SendFailed`.
    SendText(String),
    /// Hand the SDP answer to the WebRTC element.
    ApplyAnswer(String),
    /// Hand a remote ICE candidate to the WebRTC element.
    AddIce(u32, String),
    /// Bring the pipeline down.
    StopPipeline,
    /// Write this line to the bridge's error stream.
    Report(String),
}

pub enum SessionActionView {
    SendText(Seq<char>),
    ApplyAnswer(Seq<char>),
    AddIce(u32, Seq<char>),
    StopPipeline,
    Report(Seq<char>),
}

impl View for SessionAction {
    type V = SessionActionView;

    open spec fn view(&self) -> SessionActionView {
        match self {
            SessionAction::SendText(t) => SessionActionView::SendText(t@),
            SessionAction::ApplyAnswer(s) => SessionActionView::ApplyAnswer(s@),
            SessionAction::AddIce(m, c) => SessionActionView::AddIce(*m, c@),
            SessionAction::StopPipeline => SessionActionView::StopPipeline,
            SessionAction::Report(t) => SessionActionView::Report(t@),
        }
    }
}

pub open spec fn actions_view(v: Seq<SessionAction>) -> Seq<SessionActionView> {
    v.map_values(|a: SessionAction| a@)
}

pub open spec fn with_phase(s: Session, p: SessionPhase) -> Session {
    Session { phase: p, ..s }
}

/// The event that a style cannot meet: a Reporting bridge gives up at once
/// when its pipeline cannot be built.
pub open spec fn event_allowed(s: Session, e: SessionEventView) -> bool {
    !(s.phase == SessionPhase::Creating && s.style == SessionStyle::Reporting
        && e is CreateFailed)
}

/// One step of a session: the next state and the actions, in order. An event
/// that a phase does not wait for changes nothing.
pub open spec fn session_next(s: Session, e: SessionEventView) -> (Session, Seq<SessionActionView>) {
    let done = with_phase(s, SessionPhase::Finished);
    match s.phase {
        SessionPhase::Creating => match e {
            SessionEventView::Created => (with_phase(s, SessionPhase::Starting), seq![]),
            SessionEventView::CreateFailed(t) => (
                done,
                seq![SessionActionView::Report("Bridge init failed: "@ + t)],
            ),
            _ => (s, seq![]),
        },
        SessionPhase::Starting => match e {
            SessionEventView::Started(sdp) => (
                with_phase(s, SessionPhase::SendingOffer),
                seq![SessionActionView::SendText(signaling::offer_json(sdp))],
            ),
            SessionEventView::StartFailed(t) => if s.style == SessionStyle::Quiet {
                (done, seq![SessionActionView::Report("Bridge start failed: "@ + t)])
            } else {
                (
                    done,
                    seq![
                        SessionActionView::SendText(signaling::error_json(t)),
                        SessionActionView::StopPipeline,
                    ],
                )
            },
            _ => (s, seq![]),
        },
        SessionPhase::SendingOffer => match e {
            SessionEventView::Sent => (with_phase(s, SessionPhase::Running), seq![]),
            SessionEventView::SendFailed => if s.style == SessionStyle::Quiet {
                (done, seq![])
            } else {
                (done, seq![SessionActionView::StopPipeline])
            },
            _ => (s, seq![]),
        },
        SessionPhase::Running => match e {
            SessionEventView::ClientText(m) => match m {
                Some(m) => match signaling::client_action_of(m) {
                    signaling::ClientActionView::ApplyAnswer(sdp) => (
                        s,
                        seq![SessionActionView::ApplyAnswer(sdp)],
                    ),
                    signaling::ClientActionView::AddIce(i, c) => (
                        s,
                        seq![SessionActionView::AddIce(i, c)],
                    ),
                    signaling::ClientActionView::Ignore => (s, seq![]),
                },
                None => (s, seq![]),
            },
            SessionEventView::ClientOther => (done, seq![SessionActionView::StopPipeline]),
            SessionEventView::ClientClosed => if s.style == SessionStyle::Quiet {
                (done, seq![SessionActionView::StopPipeline])
            } else {
                (Session { client_open: false, ..s }, seq![])
            },
            SessionEventView::LocalIce(m) => (s, seq![SessionActionView::SendText(m)]),
            SessionEventView::SendFailed => (done, seq![SessionActionView::StopPipeline]),
            SessionEventView::NothingLeft => (done, seq![SessionActionView::StopPipeline]),
            _ => (s, seq![]),
        },
        SessionPhase::Finished => (s, seq![]),
    }
}

impl Session {
    /// A session whose bridge is about to build its pipeline.
    pub fn new(style: SessionStyle) -> (s: Session)
        ensures
            s.style == style,
            s.phase == SessionPhase::Creating,
            s.client_open,
    {
        Session { style, phase: SessionPhase::Creating, client_open: true }
    }

    /// Whether the session is over.
    pub fn is_finished(&self) -> (b: bool)
        ensures
            b == (self.phase == SessionPhase::Finished),
    {
        self.phase == SessionPhase::Finished
    }

    /// Whether the bridge waits for messages from the browser (and for local
    /// ICE candidates): the session runs and the browser's side is open.
    pub fn listens_to_client(&self) -> (b: bool)
        ensures
            b == (self.phase == SessionPhase::Running && self.client_open),
    {
        self.phase == SessionPhase::Running && self.client_open
    }

    /// Whether the bridge waits for local ICE candidates.
    pub fn listens_to_pipeline(&self) -> (b: bool)
        ensures
            b == (self.phase == SessionPhase::Running),
    {
        self.phase == SessionPhase::Running
    }

    /// Takes one event and returns the actions to perform, in order.
    pub fn step(&mut self, event: SessionEvent) -> (actions: Vec<SessionAction>)
        requires
            event_allowed(*old(self), event@),
        ensures
            (*final(self), actions_view(actions@)) == session_next(*old(self), event@),
    {
        let mut actions: Vec<SessionAction> = Vec::new();
        let ghost e = event@;
        match self.phase {
            SessionPhase::Creating => match event {
                SessionEvent::Created => {
                    self.phase = SessionPhase::Starting;
                },
                SessionEvent::CreateFailed(t) => {
                    self.phase = SessionPhase::Finished;
                    actions.push(SessionAction::Report(prefixed("Bridge init failed: ", &t)));
                },
                _ => {},
            },
            SessionPhase::Starting => match event {
                SessionEvent::Started(sdp) => {
                    self.phase = SessionPhase::SendingOffer;
                    actions.push(SessionAction::SendText(offer_message(sdp.as_str())));
                },
                SessionEvent::StartFailed(t) => {
                    self.phase = SessionPhase::Finished;
                    if self.style == SessionStyle::Quiet {
                        actions.push(SessionAction::Report(prefixed("Bridge start failed: ", &t)));
                    } else {
                        actions.push(SessionAction::SendText(error_message(t.as_str())));
                        actions.push(SessionAction::StopPipeline);
                    }
                },
                _ => {},
            },
            SessionPhase::SendingOffer => match event {
                SessionEvent::Sent => {
                    self.phase = SessionPhase::Running;
                },
                SessionEvent::SendFailed => {
                    self.phase = SessionPhase::Finished;
                    if self.style == SessionStyle::Reporting {
                        actions.push(SessionAction::StopPipeline);
                    }
                },
                _ => {},
            },
            SessionPhase::Running => match event {
                SessionEvent::ClientText(m) => match m {
                    Some(m) => match client_action(&m) {
                        ClientAction::ApplyAnswer(sdp) => {
                            actions.push(SessionAction::ApplyAnswer(sdp));
                        },
                        ClientAction::AddIce(i, c) => {
                            actions.push(SessionAction::AddIce(i, c));
                        },
                        ClientAction::Ignore => {},
                    },
                    None => {},
                },
                SessionEvent::ClientOther => {
                    self.phase = SessionPhase::Finished;
                    actions.push(SessionAction::StopPipeline);
                },
                SessionEvent::ClientClosed => {
                    if self.style == SessionStyle::Quiet {
                        self.phase = SessionPhase::Finished;
                        actions.push(SessionAction::StopPipeline);
                    } else {
                        self.client_open = false;
                    }
                },
                SessionEvent::LocalIce(m) => {
                    actions.push(SessionAction::SendText(m));
                },
                SessionEvent::SendFailed => {
                    self.phase = SessionPhase::Finished;
                    actions.push(SessionAction::StopPipeline);
                },
                SessionEvent::NothingLeft => {
                    self.phase = SessionPhase::Finished;
                    actions.push(SessionAction::StopPipeline);
                },
                _ => {},
            },
            SessionPhase::Finished => {},
        }
        assert(actions_view(actions@) =~= session_next(*old(self), e).1);
        actions
    }
}


/// The order of the phases of a session.
pub open spec fn phase_rank(p: SessionPhase) -> int {
    match p {
        SessionPhase::Creating => 0,
        SessionPhase::Starting => 1,
        SessionPhase::SendingOffer => 2,
        SessionPhase::Running => 3,
        SessionPhase::Finished => 4,
    }
}

/// Laws of every step of a session: a finished session stays as it is and
/// does nothing; the style never changes and the phase never moves back; the
/// pipeline is stopped only by the step that ends the session; a session that
/// ends while running, or a Reporting session that ends once its pipeline was
/// built, stops the pipeline as the last thing it does; a Quiet session whose
/// start or offer fails leaves the pipeline alone.
pub proof fn lemma_session_step_laws(s: Session, e: SessionEventView)
    ensures
        ({
            let (t, acts) = session_next(s, e);
            &&& s.phase == SessionPhase::Finished ==> t == s && acts.len() == 0
            &&& t.style == s.style
            &&& phase_rank(t.phase) >= phase_rank(s.phase)
            &&& forall|i: int|
                0 <= i < acts.len() && #[trigger] acts[i] is StopPipeline ==> t.phase
                    == SessionPhase::Finished && s.phase != SessionPhase::Finished
            &&& (s.phase != SessionPhase::Finished && t.phase == SessionPhase::Finished && (s.phase
                == SessionPhase::Running || (s.style == SessionStyle::Reporting && s.phase
                != SessionPhase::Creating))) ==> acts.len() > 0 && acts.last() is StopPipeline
            &&& (s.style == SessionStyle::Quiet && (s.phase == SessionPhase::Starting || s.phase
                == SessionPhase::SendingOffer)) ==> forall|i: int|
                0 <= i < acts.len() ==> !(#[trigger] acts[i] is StopPipeline)
        }),
{
}

/// Nothing is sent to the browser before the pipeline has started: the first
/// text a session sends is the SDP offer, or, for a Reporting session whose
/// pipeline did not start, the error.
pub proof fn lemma_offer_comes_first(s: Session, e: SessionEventView)
    requires
        phase_rank(s.phase) <= 1,
    ensures
        ({
            let (t, acts) = session_next(s, e);
            forall|i: int|
                0 <= i < acts.len() && #[trigger] acts[i] is SendText ==> (e matches SessionEventView::Started(sdp)
                    && acts[i] == SessionActionView::SendText(signaling::offer_json(sdp))) || (
                e matches SessionEventView::StartFailed(m) && s.style == SessionStyle::Reporting
                    && acts[i] == SessionActionView::SendText(signaling::error_json(m)))
        }),
{
}

/// How a running session answers each event, for both styles: a failed send
/// to the browser, a message that is no text, or nothing left to wait for
/// ends the session and stops the pipeline; the browser's side closing does
/// the same for a Quiet session and only stops listening to the browser for a
/// Reporting one; a local candidate is relayed as it is; a sent text changes
/// nothing; an answer from the browser is applied with its SDP unchanged and
/// a candidate from the browser added with its own index and text.
pub proof fn lemma_running_session_law(
    s: Session,
    relay: Seq<char>,
    m: signaling::ClientMessageView,
    sdp: Seq<char>,
    index: u64,
    candidate: Seq<char>,
)
    requires
        s.phase == SessionPhase::Running,
    ensures
        session_next(s, SessionEventView::SendFailed) == (
            Session { phase: SessionPhase::Finished, ..s },
            seq![SessionActionView::StopPipeline],
        ),
        session_next(s, SessionEventView::ClientOther) == (
            Session { phase: SessionPhase::Finished, ..s },
            seq![SessionActionView::StopPipeline],
        ),
        session_next(s, SessionEventView::NothingLeft) == (
            Session { phase: SessionPhase::Finished, ..s },
            seq![SessionActionView::StopPipeline],
        ),
        s.style == SessionStyle::Quiet ==> session_next(s, SessionEventView::ClientClosed) == (
            Session { phase: SessionPhase::Finished, ..s },
            seq![SessionActionView::StopPipeline],
        ),
        s.style == SessionStyle::Reporting ==> session_next(s, SessionEventView::ClientClosed) == (
            Session { client_open: false, ..s },
            Seq::<SessionActionView>::empty(),
        ),
        session_next(s, SessionEventView::LocalIce(relay)) == (s, seq![SessionActionView::SendText(relay)]),
        session_next(s, SessionEventView::Sent) == (s, Seq::<SessionActionView>::empty()),
        session_next(s, SessionEventView::ClientText(None)) == (s, Seq::<SessionActionView>::empty()),
        m.kind == Some("answer"@) && m.sdp == Some(sdp) ==> session_next(
            s,
            SessionEventView::ClientText(Some(m)),
        ) == (s, seq![SessionActionView::ApplyAnswer(sdp)]),
        m.kind == Some("ice"@) && m.mline_index == Some(index) && m.candidate == Some(candidate)
            ==> session_next(s, SessionEventView::ClientText(Some(m))) == (
            s,
            seq![SessionActionView::AddIce(index as u32, candidate)],
        ),
{
    signaling::lemma_client_action_law(m, sdp, index, candidate);
}

/// How a session gets going, for both styles: once built it starts; a
/// started pipeline's offer is sent as the offer message; a sent offer makes
/// the session run; a failed start is reported on the error stream by a
/// Quiet session and to the browser, followed by a stop, by a Reporting one;
/// a failed offer ends the session, stopping the pipeline only for a
/// Reporting session; a Quiet session that cannot build its pipeline reports
/// it and ends.
pub proof fn lemma_starting_session_law(s: Session, sdp: Seq<char>, error: Seq<char>)
    ensures
        s.phase == SessionPhase::Creating ==> session_next(s, SessionEventView::Created) == (
            Session { phase: SessionPhase::Starting, ..s },
            Seq::<SessionActionView>::empty(),
        ),
        s.phase == SessionPhase::Creating && s.style == SessionStyle::Quiet ==> session_next(
            s,
            SessionEventView::CreateFailed(error),
        ) == (
            Session { phase: SessionPhase::Finished, ..s },
            seq![SessionActionView::Report("Bridge init failed: "@ + error)],
        ),
        s.phase == SessionPhase::Starting ==> session_next(s, SessionEventView::Started(sdp)) == (
            Session { phase: SessionPhase::SendingOffer, ..s },
            seq![SessionActionView::SendText(signaling::offer_json(sdp))],
        ),
        s.phase == SessionPhase::Starting && s.style == SessionStyle::Quiet ==> session_next(
            s,
            SessionEventView::StartFailed(error),
        ) == (
            Session { phase: SessionPhase::Finished, ..s },
            seq![SessionActionView::Report("Bridge start failed: "@ + error)],
        ),
        s.phase == SessionPhase::Starting && s.style == SessionStyle::Reporting ==> session_next(
            s,
            SessionEventView::StartFailed(error),
        ) == (
            Session { phase: SessionPhase::Finished, ..s },
            seq![
                SessionActionView::SendText(signaling::error_json(error)),
                SessionActionView::StopPipeline,
            ],
        ),
        s.phase == SessionPhase::SendingOffer ==> session_next(s, SessionEventView::Sent) == (
            Session { phase: SessionPhase::Running, ..s },
            Seq::<SessionActionView>::empty(),
        ),
        s.phase == SessionPhase::SendingOffer && s.style == SessionStyle::Quiet ==> session_next(
            s,
            SessionEventView::SendFailed,
        ) == (Session { phase: SessionPhase::Finished, ..s }, Seq::<SessionActionView>::empty()),
        s.phase == SessionPhase::SendingOffer && s.style == SessionStyle::Reporting ==> session_next(
            s,
            SessionEventView::SendFailed,
        ) == (
            Session { phase: SessionPhase::Finished, ..s },
            seq![SessionActionView::StopPipeline],
        ),
{
}
} // verus!
