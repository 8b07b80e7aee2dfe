//! The messages that a WebRTC bridge exchanges with the browser over the
//! signalling web socket.
use vstd::prelude::*;
use crate::json::{json_as_text, json_as_u64, json_member, json_parse, json_quote};
use crate::json;
use crate::text;
use crate::text::{opt_same_text, push_decimal};

verus! {

/// What the bridge reads of a message from the browser: the string members
/// `type`, `sdp` and `candidate` and the unsigned member `mlineIndex`, each
/// `None` where the message has no such member of that kind.
pub struct ClientMessage {
    pub kind: Option<String>,
    pub sdp: Option<String>,
    pub mline_index: Option<u64>,
    pub candidate: Option<String>,
}

pub struct ClientMessageView {
    pub kind: Option<Seq<char>>,
    pub sdp: Option<Seq<char>>,
    pub mline_index: Option<u64>,
    pub candidate: Option<Seq<char>>,
}

impl View for ClientMessage {
    type V = ClientMessageView;

    open spec fn view(&self) -> ClientMessageView {
        ClientMessageView {
            kind: text::opt_text(self.kind),
            sdp: text::opt_text(self.sdp),
            mline_index: self.mline_index,
            candidate: text::opt_text(self.candidate),
        }
    }
}

/// What the bridge does with a message from the browser.
pub enum ClientAction {
    /// Hand the SDP answer to the WebRTC element.
    ApplyAnswer(String),
    /// Hand a remote ICE candidate, with its media line index, to the WebRTC element.
    AddIce(u32, String),
    /// Nothing.
    Ignore,
}

pub enum ClientActionView {
    ApplyAnswer(Seq<char>),
    AddIce(u32, Seq<char>),
    Ignore,
}

impl View for ClientAction {
    type V = ClientActionView;

    open spec fn view(&self) -> ClientActionView {
        match self {
            ClientAction::ApplyAnswer(s) => ClientActionView::ApplyAnswer(s@),
            ClientAction::AddIce(m, c) => ClientActionView::AddIce(*m, c@),
            ClientAction::Ignore => ClientActionView::Ignore,
        }
    }
}

/// A message of type "answer" with a string `sdp` is applied as the answer; one
/// of type "ice" with an unsigned `mlineIndex` and a string `candidate` adds the
/// candidate, the index cut to its low 32 bits; anything else is ignored.
pub open spec fn client_action_of(m: ClientMessageView) -> ClientActionView {
    if m.kind == Some("answer"@) && m.sdp is Some {
        ClientActionView::ApplyAnswer(m.sdp->0)
    } else if m.kind == Some("ice"@) && m.mline_index is Some && m.candidate is Some {
        ClientActionView::AddIce(m.mline_index->0 as u32, m.candidate->0)
    } else {
        ClientActionView::Ignore
    }
}

fn clone_text(s: &String) -> (r: String)
    ensures
        r@ == s@,
{
    s.clone()
}

/// Decides what the bridge does with a message from the browser.
pub fn client_action(msg: &ClientMessage) -> (r: ClientAction)
    ensures
        r@ == client_action_of(msg@),
{
    if opt_same_text(&msg.kind, "answer") {
        match &msg.sdp {
            Some(sdp) => { return ClientAction::ApplyAnswer(clone_text(sdp)); },
            None => {},
        }
    }
    if opt_same_text(&msg.kind, "ice") {
        match (&msg.mline_index, &msg.candidate) {
            (Some(m), Some(c)) => {
                let m32: u32 = *m as u32;
                return ClientAction::AddIce(m32, clone_text(c));
            },
            _ => {},
        }
    }
    ClientAction::Ignore
}

/// The string member `key` of a JSON value: `None` where the value has no
/// member `key` or it is no string.
pub open spec fn text_member(v: serde_json::Value, key: Seq<char>) -> Option<Seq<char>> {
    match json::json_member_of(v, key) {
        Some(m) => json::json_text_of(m),
        None => None,
    }
}

/// The unsigned member `key` of a JSON value: `None` where the value has no
/// member `key` or it is no number that fits in a `u64`.
pub open spec fn u64_member(v: serde_json::Value, key: Seq<char>) -> Option<u64> {
    match json::json_member_of(v, key) {
        Some(m) => json::json_u64_of(m),
        None => None,
    }
}

/// What the bridge reads of a JSON value from the browser.
pub open spec fn client_message_of(v: serde_json::Value) -> ClientMessageView {
    ClientMessageView {
        kind: text_member(v, "type"@),
        sdp: text_member(v, "sdp"@),
        mline_index: u64_member(v, "mlineIndex"@),
        candidate: text_member(v, "candidate"@),
    }
}

/// Reads a message from the browser: `None` where the text is no JSON
/// document, otherwise the members `type`, `sdp`, `mlineIndex` and
/// `candidate` of the document.
pub fn read_client_message(text: &str) -> (r: Option<ClientMessage>)
    ensures
        r is Some <==> json::json_text_parses(text@),
        r matches Some(m) ==> m@ == client_message_of(json::json_document(text@)),
{
    match json_parse(text) {
        Ok(v) => {
            let kind = match json_member(&v, "type") {
                Some(x) => json_as_text(x),
                None => None,
            };
            let sdp = match json_member(&v, "sdp") {
                Some(x) => json_as_text(x),
                None => None,
            };
            let mline_index = match json_member(&v, "mlineIndex") {
                Some(x) => json_as_u64(x),
                None => None,
            };
            let candidate = match json_member(&v, "candidate") {
                Some(x) => json_as_text(x),
                None => None,
            };
            Some(ClientMessage { kind, sdp, mline_index, candidate })
        },
        Err(_) => None,
    }
}

/// `{"candidate":<candidate>,"mlineIndex":<index>,"type":"ice"}`: the members
/// in the sorted order in which serde_json writes an object.
pub open spec fn ice_json(mline: u32, candidate: Seq<char>) -> Seq<char> {
    "{\"candidate\":"@ + json::json_string_text(candidate) + ",\"mlineIndex\":"@ + text::decimal(mline as nat)
        + ",\"type\":\"ice\"}"@
}

/// `{"sdp":<sdp>,"type":"offer"}`.
pub open spec fn offer_json(sdp: Seq<char>) -> Seq<char> {
    "{\"sdp\":"@ + json::json_string_text(sdp) + ",\"type\":\"offer\"}"@
}

/// `{"message":<message>,"type":"error"}`.
pub open spec fn error_json(message: Seq<char>) -> Seq<char> {
    "{\"message\":"@ + json::json_string_text(message) + ",\"type\":\"error\"}"@
}

/// The message that tells the browser of a local ICE candidate.
pub fn ice_message(mline: u32, candidate: &str) -> (r: String)
    ensures
        r@ == ice_json(mline, candidate@),
{
    let mut out = "{\"candidate\":".to_owned();
    let q = json_quote(candidate);
    out.append(q.as_str());
    out.append(",\"mlineIndex\":");
    push_decimal(&mut out, mline as u64);
    out.append(",\"type\":\"ice\"}");
    out
}

/// The message that hands the SDP offer to the browser.
pub fn offer_message(sdp: &str) -> (r: String)
    ensures
        r@ == offer_json(sdp@),
{
    let mut out = "{\"sdp\":".to_owned();
    let q = json_quote(sdp);
    out.append(q.as_str());
    out.append(",\"type\":\"offer\"}");
    out
}

/// The message that tells the browser why the bridge could not start.
pub fn error_message(message: &str) -> (r: String)
    ensures
        r@ == error_json(message@),
{
    let mut out = "{\"message\":".to_owned();
    let q = json_quote(message);
    out.append(q.as_str());
    out.append(",\"type\":\"error\"}");
    out
}

/// The typed signalling message of the test-pattern bridge, tagged by its
/// variant's name in the member `type`.
pub enum SignalMessage {
    Offer { sdp: String },
    Answer { sdp: String },
    Ice { candidate: String, sdp_mline_index: u32 },
}

pub enum SignalMessageView {
    Offer { sdp: Seq<char> },
    Answer { sdp: Seq<char> },
    Ice { candidate: Seq<char>, sdp_mline_index: u32 },
}

impl View for SignalMessage {
    type V = SignalMessageView;

    open spec fn view(&self) -> SignalMessageView {
        match self {
            SignalMessage::Offer { sdp } => SignalMessageView::Offer { sdp: sdp@ },
            SignalMessage::Answer { sdp } => SignalMessageView::Answer { sdp: sdp@ },
            SignalMessage::Ice { candidate, sdp_mline_index } => SignalMessageView::Ice {
                candidate: candidate@,
                sdp_mline_index: *sdp_mline_index,
            },
        }
    }
}

/// The JSON text of a typed signalling message: the tag first, then the
/// fields in their declared order, the index under `sdpMLineIndex`.
pub open spec fn signal_json_of(m: SignalMessageView) -> Seq<char> {
    match m {
        SignalMessageView::Offer { sdp } => "{\"type\":\"Offer\",\"sdp\":"@ + json::json_string_text(sdp)
            + "}"@,
        SignalMessageView::Answer { sdp } => "{\"type\":\"Answer\",\"sdp\":"@ + json::json_string_text(
            sdp,
        ) + "}"@,
        SignalMessageView::Ice { candidate, sdp_mline_index } => "{\"type\":\"Ice\",\"candidate\":"@
            + json::json_string_text(candidate) + ",\"sdpMLineIndex\":"@ + text::decimal(
            sdp_mline_index as nat,
        ) + "}"@,
    }
}

/// Writes a typed signalling message as JSON text.
pub fn signal_json(msg: &SignalMessage) -> (r: String)
    ensures
        r@ == signal_json_of(msg@),
{
    match msg {
        SignalMessage::Offer { sdp } => {
            let mut out = "{\"type\":\"Offer\",\"sdp\":".to_owned();
            let q = json_quote(sdp.as_str());
            out.append(q.as_str());
            out.append("}");
            out
        },
        SignalMessage::Answer { sdp } => {
            let mut out = "{\"type\":\"Answer\",\"sdp\":".to_owned();
            let q = json_quote(sdp.as_str());
            out.append(q.as_str());
            out.append("}");
            out
        },
        SignalMessage::Ice { candidate, sdp_mline_index } => {
            let mut out = "{\"type\":\"Ice\",\"candidate\":".to_owned();
            let q = json_quote(candidate.as_str());
            out.append(q.as_str());
            out.append(",\"sdpMLineIndex\":");
            push_decimal(&mut out, *sdp_mline_index as u64);
            out.append("}");
            out
        },
    }
}

/// An answer is applied, a candidate added; an offer from the browser, or a
/// text that is no signalling message, is ignored.
pub open spec fn signal_action_of(m: Option<SignalMessageView>) -> ClientActionView {
    match m {
        Some(SignalMessageView::Answer { sdp }) => ClientActionView::ApplyAnswer(sdp),
        Some(SignalMessageView::Ice { candidate, sdp_mline_index }) => ClientActionView::AddIce(
            sdp_mline_index,
            candidate,
        ),
        _ => ClientActionView::Ignore,
    }
}

/// Decides what the test-pattern bridge does with a text from the browser,
/// given as the typed message it parsed into, if any.
pub fn signal_action(parsed: &Option<SignalMessage>) -> (r: ClientAction)
    ensures
        r@ == signal_action_of(
            match parsed {
                Some(m) => Some(m@),
                None => None,
            },
        ),
{
    match parsed {
        Some(SignalMessage::Answer { sdp }) => ClientAction::ApplyAnswer(clone_text(sdp)),
        Some(SignalMessage::Ice { candidate, sdp_mline_index }) => ClientAction::AddIce(
            *sdp_mline_index,
            clone_text(candidate),
        ),
        _ => ClientAction::Ignore,
    }
}


/// What the bridge does with a message from the browser, by its members: an
/// answer with a string `sdp` is applied with that SDP unchanged; an ICE
/// message with an unsigned `mlineIndex` and a string `candidate` adds that
/// candidate with the index's low 32 bits; an answer without a string `sdp`,
/// an ICE message without both members, or a message of any other type does
/// nothing. Conversely, what is applied or added is always the message's own.
pub proof fn lemma_client_action_law(m: ClientMessageView, sdp: Seq<char>, index: u64, candidate: Seq<char>)
    ensures
        m.kind == Some("answer"@) && m.sdp == Some(sdp) ==> client_action_of(m)
            == ClientActionView::ApplyAnswer(sdp),
        m.kind == Some("ice"@) && m.mline_index == Some(index) && m.candidate == Some(candidate)
            ==> client_action_of(m) == ClientActionView::AddIce(index as u32, candidate),
        m.kind == Some("answer"@) && m.sdp is None ==> client_action_of(m) == ClientActionView::Ignore,
        m.kind == Some("ice"@) && (m.mline_index is None || m.candidate is None) ==> client_action_of(m)
            == ClientActionView::Ignore,
        m.kind != Some("answer"@) && m.kind != Some("ice"@) ==> client_action_of(m)
            == ClientActionView::Ignore,
        client_action_of(m) == ClientActionView::ApplyAnswer(sdp) ==> m.sdp == Some(sdp),
        client_action_of(m) == ClientActionView::AddIce(index as u32, candidate) ==> m.candidate == Some(
            candidate,
        ) && m.mline_index is Some && m.mline_index->0 as u32 == index as u32,
{
    reveal_strlit("answer");
    reveal_strlit("ice");
    assert("answer"@ != "ice"@) by {
        assert("answer"@.len() != "ice"@.len());
    }
}

/// What the test-pattern bridge does with a typed message: an answer is
/// applied with its SDP unchanged, a candidate is added with its own index
/// and text, whatever the index; an offer, or no message, does nothing.
pub proof fn lemma_signal_action_law(sdp: Seq<char>, candidate: Seq<char>, index: u32)
    ensures
        signal_action_of(Some(SignalMessageView::Answer { sdp })) == ClientActionView::ApplyAnswer(sdp),
        signal_action_of(Some(SignalMessageView::Ice { candidate, sdp_mline_index: index }))
            == ClientActionView::AddIce(index, candidate),
        signal_action_of(Some(SignalMessageView::Offer { sdp })) == ClientActionView::Ignore,
        signal_action_of(None) == ClientActionView::Ignore,
{
}

/// `t` is `head`, then `key`, then the decimal digits of `n`, then `tail`: a
/// JSON member `key` whose number reads back as `n`.
pub open spec fn holds_number_member(
    t: Seq<char>,
    head: Seq<char>,
    key: Seq<char>,
    n: nat,
    tail: Seq<char>,
) -> bool {
    let a: int = (head.len() + key.len()) as int;
    let b: int = t.len() - tail.len();
    &&& a <= b <= t.len()
    &&& t.subrange(0, head.len() as int) == head
    &&& t.subrange(head.len() as int, a) == key
    &&& a < b
    &&& forall|j: int| a <= j < b ==> text::is_digit(#[trigger] t[j])
    &&& text::digits_value(t.subrange(a, b)) == n
    &&& t.subrange(b, t.len() as int) == tail
}

proof fn lemma_number_member(head: Seq<char>, key: Seq<char>, n: nat, tail: Seq<char>)
    ensures
        holds_number_member(head + key + text::decimal(n) + tail, head, key, n, tail),
{
    let d = text::decimal(n);
    let t = head + key + d + tail;
    text::lemma_decimal_roundtrip(n);
    let a: int = (head.len() + key.len()) as int;
    let b: int = t.len() - tail.len();
    assert(t.subrange(0, head.len() as int) =~= head);
    assert(t.subrange(head.len() as int, a) =~= key);
    assert(t.subrange(a, b) =~= d);
    assert(t.subrange(b, t.len() as int) =~= tail);
    assert forall|j: int| a <= j < b implies text::is_digit(#[trigger] t[j]) by {
        assert(t[j] == d[j - a]);
    }
}

/// A typed ICE message's text starts with the tag and the quoted candidate,
/// and holds the member `sdpMLineIndex` whose digits read back as the
/// message's own index, for every index; an offer's or answer's text is its
/// tag and its quoted SDP.
pub proof fn lemma_signal_json_law(sdp: Seq<char>, candidate: Seq<char>, index: u32)
    ensures
        holds_number_member(
            signal_json_of(SignalMessageView::Ice { candidate, sdp_mline_index: index }),
            "{\"type\":\"Ice\",\"candidate\":"@ + json::json_string_text(candidate),
            ",\"sdpMLineIndex\":"@,
            index as nat,
            "}"@,
        ),
        signal_json_of(SignalMessageView::Offer { sdp }) == "{\"type\":\"Offer\",\"sdp\":"@
            + json::json_string_text(sdp) + "}"@,
        signal_json_of(SignalMessageView::Answer { sdp }) == "{\"type\":\"Answer\",\"sdp\":"@
            + json::json_string_text(sdp) + "}"@,
{
    lemma_number_member(
        "{\"type\":\"Ice\",\"candidate\":"@ + json::json_string_text(candidate),
        ",\"sdpMLineIndex\":"@,
        index as nat,
        "}"@,
    );
}

/// The ICE message of the RTSP bridges starts with the quoted candidate and
/// holds the member `mlineIndex` whose digits read back as the index, then
/// the type `ice`; the offer and error messages are the quoted SDP or message
/// followed by their type.
pub proof fn lemma_bridge_json_law(text: Seq<char>, candidate: Seq<char>, index: u32)
    ensures
        holds_number_member(
            ice_json(index, candidate),
            "{\"candidate\":"@ + json::json_string_text(candidate),
            ",\"mlineIndex\":"@,
            index as nat,
            ",\"type\":\"ice\"}"@,
        ),
        offer_json(text) == "{\"sdp\":"@ + json::json_string_text(text) + ",\"type\":\"offer\"}"@,
        error_json(text) == "{\"message\":"@ + json::json_string_text(text) + ",\"type\":\"error\"}"@,
{
    lemma_number_member(
        "{\"candidate\":"@ + json::json_string_text(candidate),
        ",\"mlineIndex\":"@,
        index as nat,
        ",\"type\":\"ice\"}"@,
    );
}


/// What the bridge reads of a JSON value: the `type`, `sdp` and `candidate`
/// members as strings and the `mlineIndex` member as an unsigned number, each
/// under its own key, and nothing where the member is missing or of another
/// kind.
pub proof fn lemma_client_message_law(v: serde_json::Value)
    ensures
        client_message_of(v).kind == match json::json_member_of(v, "type"@) {
            Some(x) => json::json_text_of(x),
            None => None,
        },
        client_message_of(v).sdp == match json::json_member_of(v, "sdp"@) {
            Some(x) => json::json_text_of(x),
            None => None,
        },
        client_message_of(v).mline_index == match json::json_member_of(v, "mlineIndex"@) {
            Some(x) => json::json_u64_of(x),
            None => None,
        },
        client_message_of(v).candidate == match json::json_member_of(v, "candidate"@) {
            Some(x) => json::json_text_of(x),
            None => None,
        },
{
}
} // verus!
