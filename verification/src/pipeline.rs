//! Decisions that the bridges and the streamer make about their GStreamer
//! pipelines: which source pad to link, what to log of a bus message, how to
//! look for the error that stopped a pipeline, and the texts they report.
use vstd::prelude::*;
use crate::text::{opt_same_text, same_text};
use crate::text;

verus! {

/// The first structure of a pad's caps, as far as the RTSP bridge reads it:
/// its name and its string fields `media` and `encoding-name`, `None` where
/// the field is missing or no string.
pub struct CapsStructure {
    pub name: String,
    pub media: Option<String>,
    pub encoding_name: Option<String>,
}

/// Caps of an RTP stream that carries H.264 video.
pub open spec fn is_h264_rtp(s: CapsStructure) -> bool {
    &&& s.name@ == "application/x-rtp"@
    &&& text::opt_text(s.media) == Some("video"@)
    &&& text::opt_text(s.encoding_name) == Some("H264"@)
}

/// Whether the RTSP bridge links a new pad of its RTSP source to the
/// depayloader, given whether the depayloader's sink is already linked and the
/// first structure of the pad's caps, if any.
pub open spec fn source_pad_linked(sink_linked: bool, structure: Option<CapsStructure>) -> bool {
    !sink_linked && structure is Some && is_h264_rtp(structure->0)
}

/// Whether a new pad of the RTSP source is linked to the depayloader: only
/// while the depayloader's sink is still free, and only for a pad whose caps
/// have a first structure that describes H.264 over RTP.
pub fn should_link_source_pad(sink_linked: bool, structure: &Option<CapsStructure>) -> (b: bool)
    ensures
        b == source_pad_linked(sink_linked, *structure),
{
    if sink_linked {
        return false;
    }
    match structure {
        Some(s) => same_text(&s.name, "application/x-rtp") && opt_same_text(&s.media, "video")
            && opt_same_text(&s.encoding_name, "H264"),
        None => false,
    }
}

/// The line written when a pad of the RTSP source could not be linked, from
/// the debug text of the link error; the bridge goes on.
pub fn pad_link_failure_line(error: &str) -> (r: String)
    ensures
        r@ == "Failed to link RTSP pad: "@ + error@,
{
    let mut out = "Failed to link RTSP pad: ".to_owned();
    out.append(error);
    out
}

/// The RTSP bridge's pad law: a new pad of the RTSP source is linked exactly
/// when the depayloader's sink is still free and the pad's caps start with a
/// structure named `application/x-rtp` whose `media` is `video` and whose
/// `encoding-name` is `H264`; a pad without caps structure, of another media
/// or encoding, or arriving once the sink is linked, is left alone.
pub proof fn lemma_source_pad_law(sink_linked: bool, structure: Option<CapsStructure>)
    ensures
        source_pad_linked(sink_linked, structure) <==> (!sink_linked && match structure {
            Some(s) => s.name@ == "application/x-rtp"@ && text::opt_text(s.media) == Some("video"@)
                && text::opt_text(s.encoding_name) == Some("H264"@),
            None => false,
        }),
        sink_linked ==> !source_pad_linked(sink_linked, structure),
        structure is None ==> !source_pad_linked(sink_linked, structure),
{
}

/// How long the bus logger waits for each message, in milliseconds.
pub const BUS_LOG_WAIT_MS: u64 = 200;

/// How long the streamer waits after pushing each frame, in milliseconds.
pub const FRAME_PUSH_INTERVAL_MS: u64 = 33;

/// A message from a pipeline's bus, as far as the bridge reads it. `source`
/// of an error or warning is the debug text of the optional path of the
/// element that posted it; `debug` is its optional debug detail. `element` of a
/// state change is the path of the element whose state changed, if known, and
/// `old` and `current` are the debug texts of the two states.
pub enum BusMessage {
    Error { source: String, text: String, debug: Option<String> },
    Warning { source: String, text: String, debug: Option<String> },
    StateChanged { element: Option<String>, old: String, current: String },
    Other,
}

pub open spec fn text_or_empty(o: Option<String>) -> Seq<char> {
    match o {
        Some(s) => s@,
        None => Seq::empty(),
    }
}

/// The line that the bus logger writes for a message, if any.
pub open spec fn bus_log_line_of(m: BusMessage) -> Option<Seq<char>> {
    match m {
        BusMessage::Error { source, text, debug } => Some(
            "GST error from "@ + source@ + ": "@ + text@ + " "@ + text_or_empty(debug),
        ),
        BusMessage::Warning { source, text, debug } => Some(
            "GST warning from "@ + source@ + ": "@ + text@ + " "@ + text_or_empty(debug),
        ),
        BusMessage::StateChanged { element, old, current } => match element {
            Some(name) => Some("State changed ("@ + name@ + "): "@ + old@ + " -> "@ + current@),
            None => None,
        },
        BusMessage::Other => None,
    }
}

fn push_opt(out: &mut String, o: &Option<String>)
    ensures
        final(out)@ == old(out)@ + text_or_empty(*o),
{
    match o {
        Some(s) => out.append(s.as_str()),
        None => {
            assert(old(out)@ + Seq::<char>::empty() =~= old(out)@);
        },
    }
}

/// The line that the bus logger writes for a message: errors and warnings
/// with their source and detail, state changes of a named element; nothing
/// for other messages.
pub fn bus_log_line(m: &BusMessage) -> (r: Option<String>)
    ensures
        text::opt_text(r) == bus_log_line_of(*m),
{
    match m {
        BusMessage::Error { source, text, debug } => {
            let mut out = "GST error from ".to_owned();
            out.append(source.as_str());
            out.append(": ");
            out.append(text.as_str());
            out.append(" ");
            push_opt(&mut out, debug);
            Some(out)
        },
        BusMessage::Warning { source, text, debug } => {
            let mut out = "GST warning from ".to_owned();
            out.append(source.as_str());
            out.append(": ");
            out.append(text.as_str());
            out.append(" ");
            push_opt(&mut out, debug);
            Some(out)
        },
        BusMessage::StateChanged { element, old, current } => match element {
            Some(name) => {
                let mut out = "State changed (".to_owned();
                out.append(name.as_str());
                out.append("): ");
                out.append(old.as_str());
                out.append(" -> ");
                out.append(current.as_str());
                Some(out)
            },
            None => None,
        },
        BusMessage::Other => None,
    }
}

/// How many times the bus is polled for the error that stopped a pipeline.
pub const ERROR_SCAN_POLLS: u32 = 10;

/// How long each poll of that scan waits, in milliseconds.
pub const ERROR_SCAN_WAIT_MS: u64 = 100;

/// The search for the error that stopped a pipeline: the number of polls of
/// the bus made so far.
pub struct ErrorScan {
    pub polls: u32,
}

/// What the search does after a poll.
pub enum ScanStep {
    /// Poll the bus again.
    Poll,
    /// The search is over, with the details of the error it found, if any.
    Done(Option<String>),
}

/// An error's text, a space, and its debug detail.
pub open spec fn error_details_of(text: Seq<char>, debug: Option<String>) -> Seq<char> {
    text + " "@ + text_or_empty(debug)
}

impl ErrorScan {
    pub open spec fn wf(self) -> bool {
        self.polls < ERROR_SCAN_POLLS
    }

    /// A search that has not polled yet.
    pub fn new() -> (s: ErrorScan)
        ensures
            s.polls == 0,
            s.wf(),
    {
        ErrorScan { polls: 0 }
    }

    /// Takes what one poll of the bus gave, if anything. An error message ends
    /// the search with its details; anything else counts as one more poll, and
    /// the tenth ends the search with nothing found.
    pub fn next(&mut self, popped: Option<BusMessage>) -> (r: ScanStep)
        requires
            old(self).wf(),
        ensures
            match popped {
                Some(BusMessage::Error { text, debug, .. }) => {
                    &&& r matches ScanStep::Done(Some(d))
                    &&& d@ == error_details_of(text@, debug)
                    &&& final(self).polls == old(self).polls
                },
                _ => {
                    &&& final(self).polls == old(self).polls + 1
                    &&& (final(self).polls == ERROR_SCAN_POLLS ==> r matches ScanStep::Done(None))
                    &&& (final(self).polls < ERROR_SCAN_POLLS ==> r is Poll)
                },
            },
            r is Poll ==> final(self).wf(),
    {
        match popped {
            Some(BusMessage::Error { text, debug, .. }) => {
                let mut out = text;
                out.append(" ");
                push_opt(&mut out, &debug);
                ScanStep::Done(Some(out))
            },
            _ => {
                self.polls = self.polls + 1;
                if self.polls == ERROR_SCAN_POLLS {
                    ScanStep::Done(None)
                } else {
                    ScanStep::Poll
                }
            },
        }
    }
}

/// The error text of a bridge whose pipeline did not reach the playing state,
/// from the debug texts of the state change's result, the current and the
/// pending state, and the details of the bus error, if one was found.
pub open spec fn playing_failure_of(
    set_state: Seq<char>,
    current: Seq<char>,
    pending: Seq<char>,
    details: Option<Seq<char>>,
) -> Seq<char> {
    "Pipeline failed to reach Playing. set_state="@ + set_state + ", current="@ + current
        + ", pending="@ + pending + ", details="@ + match details {
        Some(d) => d,
        None => "unknown"@,
    }
}

/// Writes the error text of a bridge whose pipeline did not reach the
/// playing state.
pub fn playing_failure_message(
    set_state: &str,
    current: &str,
    pending: &str,
    details: Option<String>,
) -> (r: String)
    ensures
        r@ == playing_failure_of(set_state@, current@, pending@, text::opt_text(details)),
{
    let mut out = "Pipeline failed to reach Playing. set_state=".to_owned();
    out.append(set_state);
    out.append(", current=");
    out.append(current);
    out.append(", pending=");
    out.append(pending);
    out.append(", details=");
    match details {
        Some(d) => out.append(d.as_str()),
        None => out.append("unknown"),
    }
    out
}

/// The address at which the streamer's RTSP server serves a mount path: the
/// port and the mount path joined by a slash, as the streamer announces it.
pub open spec fn server_url_of(port: Seq<char>, mount_path: Seq<char>) -> Seq<char> {
    "rtsp://127.0.0.1:"@ + port + "/"@ + mount_path
}

/// The address that the streamer announces for its RTSP server.
pub fn server_url(port: &str, mount_path: &str) -> (r: String)
    ensures
        r@ == server_url_of(port@, mount_path@),
{
    let mut out = "rtsp://127.0.0.1:".to_owned();
    out.append(port);
    out.append("/");
    out.append(mount_path);
    out
}


/// The texts that the bridges and the streamer report: a bus error's line
/// names its source, text and debug detail (empty when there is none), a
/// warning's likewise, a state change the element and both states; a state
/// change of no named element, and any other message, gives no line. The
/// details of a bus error are its text, a space and its debug detail; a
/// playing failure lists the three states and those details, or `unknown`;
/// the streamer's address joins its port and mount path with a slash.
pub proof fn lemma_report_texts_law(
    source: String,
    text: String,
    debug: Option<String>,
    element: String,
    old: String,
    current: String,
    a: Seq<char>,
    b: Seq<char>,
    c: Seq<char>,
    details: Seq<char>,
)
    ensures
        bus_log_line_of(BusMessage::Error { source, text, debug }) == Some(
            "GST error from "@ + source@ + ": "@ + text@ + " "@ + text_or_empty(debug),
        ),
        bus_log_line_of(BusMessage::Warning { source, text, debug }) == Some(
            "GST warning from "@ + source@ + ": "@ + text@ + " "@ + text_or_empty(debug),
        ),
        bus_log_line_of(BusMessage::StateChanged { element: Some(element), old, current }) == Some(
            "State changed ("@ + element@ + "): "@ + old@ + " -> "@ + current@,
        ),
        bus_log_line_of(BusMessage::StateChanged { element: None, old, current }) is None,
        bus_log_line_of(BusMessage::Other) is None,
        debug is None ==> text_or_empty(debug) == Seq::<char>::empty(),
        debug matches Some(d) ==> text_or_empty(debug) == d@,
        error_details_of(text@, debug) == text@ + " "@ + text_or_empty(debug),
        playing_failure_of(a, b, c, None) == "Pipeline failed to reach Playing. set_state="@ + a
            + ", current="@ + b + ", pending="@ + c + ", details="@ + "unknown"@,
        playing_failure_of(a, b, c, Some(details)) == "Pipeline failed to reach Playing. set_state="@ + a
            + ", current="@ + b + ", pending="@ + c + ", details="@ + details,
        server_url_of(a, b) == "rtsp://127.0.0.1:"@ + a + "/"@ + b,
{
}
} // verus!
