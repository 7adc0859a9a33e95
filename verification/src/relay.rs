//! The tunnel server's relays between a shared terminal and its web
//! viewers: what each message from either side is turned into.

use vstd::prelude::*;
use vstd::string::StringSliceAdditionalSpecFns;
use crate::protocol::{lemma_resize_command_round_trip, resize_command, resize_command_bytes, resize_request};
use crate::session::opt_text;

verus! {

/// A message from the terminal client's connection.
#[derive(Debug)]
pub enum TerminalMessage {
    /// Output of the shared terminal.
    Binary(Vec<u8>),
    /// The terminal client closes the connection.
    Close,
    /// The connection failed.
    Error,
    /// Any other kind of message.
    Other,
    /// The connection has no more messages.
    End,
}

/// What the relay from a terminal to its viewers does with one message.
#[derive(Debug)]
pub struct TerminalRelayStep {
    /// Bytes to broadcast to the viewers.
    pub broadcast: Option<Vec<u8>>,
    /// Whether to broadcast the end-of-session marker.
    pub announce_end: bool,
    /// Whether the relay stops.
    pub stop: bool,
}

/// The relay from a terminal to its viewers; it remembers whether the
/// end of the session was announced.
#[derive(Debug)]
pub struct TerminalRelay {
    pub end_announced: bool,
}

/// One step of the relay from a terminal to its viewers, from whether the
/// end was announced: terminal output is broadcast; a close, a failure or
/// the end of the connection stops the relay, and announces the end of the
/// session unless that was done; other messages are passed over.
pub open spec fn terminal_relay_spec(end_announced: bool, msg: TerminalMessage) -> (bool, TerminalRelayStep) {
    match msg {
        TerminalMessage::Binary(data) => (
            end_announced,
            TerminalRelayStep { broadcast: Some(data), announce_end: false, stop: false },
        ),
        TerminalMessage::Other => (
            end_announced,
            TerminalRelayStep { broadcast: None, announce_end: false, stop: false },
        ),
        _ => (true, TerminalRelayStep { broadcast: None, announce_end: !end_announced, stop: true }),
    }
}

impl TerminalRelay {
    /// A relay that has announced nothing yet.
    pub fn new() -> (r: TerminalRelay)
        ensures
            !r.end_announced,
    {
        TerminalRelay { end_announced: false }
    }

    /// Decides what to do with one message from the terminal client.
    pub fn step(&mut self, msg: TerminalMessage) -> (step: TerminalRelayStep)
        ensures
            (final(self).end_announced, step) == terminal_relay_spec(old(self).end_announced, msg),
    {
        match msg {
            TerminalMessage::Binary(data) => {
                TerminalRelayStep { broadcast: Some(data), announce_end: false, stop: false }
            },
            TerminalMessage::Other => TerminalRelayStep { broadcast: None, announce_end: false, stop: false },
            _ => {
                let announce = !self.end_announced;
                self.end_announced = true;
                TerminalRelayStep { broadcast: None, announce_end: announce, stop: true }
            },
        }
    }
}

/// The steps that the relay takes on `msgs`, from whether the end was
/// announced, up to and including the step that stops it.
pub open spec fn terminal_relay_run(end_announced: bool, msgs: Seq<TerminalMessage>) -> Seq<TerminalRelayStep>
    decreases msgs.len(),
{
    if msgs.len() == 0 {
        Seq::empty()
    } else {
        let (announced, step) = terminal_relay_spec(end_announced, msgs[0]);
        if step.stop {
            seq![step]
        } else {
            seq![step] + terminal_relay_run(announced, msgs.drop_first())
        }
    }
}

/// Whether a message from the terminal client stops the relay.
pub open spec fn ends_relay(msg: TerminalMessage) -> bool {
    !(msg is Binary || msg is Other)
}

/// When message `e` is the first that closes, fails or ends the
/// connection, the relay from a fresh start takes `e + 1` steps: it
/// announces the end of the session exactly once, at its last step, which
/// stops it, and before that broadcasts exactly the terminal output of the
/// earlier messages, in order.
pub proof fn lemma_session_end_announced_once(msgs: Seq<TerminalMessage>, e: int)
    requires
        0 <= e < msgs.len(),
        ends_relay(msgs[e]),
        forall|j: int| 0 <= j < e ==> !ends_relay(#[trigger] msgs[j]),
    ensures
        ({
            let steps = terminal_relay_run(false, msgs);
            &&& steps.len() == e + 1
            &&& steps.last().announce_end
            &&& steps.last().stop
            &&& forall|j: int| 0 <= j < e ==> {
                &&& !(#[trigger] steps[j]).announce_end
                &&& !steps[j].stop
                &&& steps[j].broadcast == (match msgs[j] {
                    TerminalMessage::Binary(data) => Some(data),
                    _ => None::<Vec<u8>>,
                })
            }
        }),
    decreases e,
{
    let steps = terminal_relay_run(false, msgs);
    if e == 0 {
        assert(steps == seq![terminal_relay_spec(false, msgs[0]).1]);
    } else {
        let rest = msgs.drop_first();
        assert forall|j: int| 0 <= j < e - 1 implies !ends_relay(#[trigger] rest[j]) by {
            assert(rest[j] == msgs[j + 1]);
        }
        assert(rest[e - 1] == msgs[e]);
        lemma_session_end_announced_once(rest, e - 1);
        assert(!ends_relay(msgs[0]));
        let first = terminal_relay_spec(false, msgs[0]);
        assert(first.0 == false);
        assert(steps == seq![first.1] + terminal_relay_run(false, rest));
        let tail = terminal_relay_run(false, rest);
        assert forall|j: int| 0 <= j < e implies {
            &&& !(#[trigger] steps[j]).announce_end
            &&& !steps[j].stop
            &&& steps[j].broadcast == (match msgs[j] {
                TerminalMessage::Binary(data) => Some(data),
                _ => None::<Vec<u8>>,
            })
        } by {
            if j > 0 {
                assert(steps[j] == tail[j - 1]);
                assert(msgs[j] == rest[j - 1]);
            }
        }
    }
}

/// The text member `key` of the JSON object written in `text`, if `text`
/// is JSON, an object, with that member, and the member is a string.
pub uninterp spec fn json_member_text(text: Seq<char>, key: Seq<char>) -> Option<Seq<char>>;

/// The member `key` of the JSON object written in `text`, if `text` is
/// JSON, an object, with that member, and the member is a number that
/// serde_json holds as an unsigned integer (no fraction, no exponent, not
/// negative, within `u64`).
pub uninterp spec fn json_member_u64(text: Seq<char>, key: Seq<char>) -> Option<u64>;

/// Calls `serde_json::from_str` for a `serde_json::Value`, then
/// `Value::get(key)` and `Value::as_str` on what it finds: the string
/// member `key` of the object that `text` holds.
#[verifier::external_body]
fn json_string_member(text: &str, key: &str) -> (r: Option<String>)
    ensures
        opt_text(r) == json_member_text(text@, key@),
{
    match serde_json::from_str::<serde_json::Value>(text) {
        Ok(value) => match value.get(key) {
            Some(member) => match member.as_str() {
                Some(s) => Some(s.to_string()),
                None => None,
            },
            None => None,
        },
        Err(_) => None,
    }
}

/// Calls `serde_json::from_str` for a `serde_json::Value`, then
/// `Value::get(key)` and `Value::as_u64` on what it finds: the unsigned
/// integer member `key` of the object that `text` holds.
#[verifier::external_body]
fn json_u64_member(text: &str, key: &str) -> (r: Option<u64>)
    ensures
        r == json_member_u64(text@, key@),
{
    match serde_json::from_str::<serde_json::Value>(text) {
        Ok(value) => match value.get(key) {
            Some(member) => member.as_u64(),
            None => None,
        },
        Err(_) => None,
    }
}

/// Name of the member that says what a control message is.
pub const CONTROL_TYPE_KEY: &'static str = "type";

/// The type of a control message that resizes the terminal.
pub const RESIZE_TYPE: &'static str = "resize";

/// Name of the member that holds the columns of a resize request.
pub const COLS_KEY: &'static str = "cols";

/// Name of the member that holds the rows of a resize request.
pub const ROWS_KEY: &'static str = "rows";

/// The resize command that a viewer's control message asks for, from the
/// message's `type`, `cols` and `rows` members: only a `resize` message
/// with both numbers, each within `u16` (the sizes a terminal can take),
/// asks for one. Any other size would reach the terminal client as typed
/// input, which no viewer may send to a session whose guests only watch.
pub open spec fn control_resize_spec(kind: Option<Seq<char>>, cols: Option<u64>, rows: Option<u64>) -> Option<Seq<u8>> {
    if kind == Some(RESIZE_TYPE@) {
        match (cols, rows) {
            (Some(c), Some(r)) => if c <= u16::MAX && r <= u16::MAX {
                Some(resize_command_bytes(c as nat, r as nat))
            } else {
                None
            },
            _ => None,
        }
    } else {
        None
    }
}

/// Builds the resize command that a viewer's control message asks for,
/// given the message's `type`, `cols` and `rows` members.
pub fn control_resize(kind: Option<String>, cols: Option<u64>, rows: Option<u64>) -> (r: Option<Vec<u8>>)
    ensures
        match r {
            Some(cmd) => control_resize_spec(opt_text(kind), cols, rows) == Some(cmd@),
            None => control_resize_spec(opt_text(kind), cols, rows) is None,
        },
{
    let is_resize = match &kind {
        Some(k) => *k == RESIZE_TYPE.to_owned(),
        None => false,
    };
    if is_resize {
        match (cols, rows) {
            (Some(c), Some(r)) => if c <= 65535u64 && r <= 65535u64 {
                Some(resize_command(c, r))
            } else {
                None
            },
            _ => None,
        }
    } else {
        None
    }
}

/// The resize command that the control message `text` asks for.
pub open spec fn text_resize_spec(text: Seq<char>) -> Option<Seq<u8>> {
    control_resize_spec(
        json_member_text(text, CONTROL_TYPE_KEY@),
        json_member_u64(text, COLS_KEY@),
        json_member_u64(text, ROWS_KEY@),
    )
}

/// Reads a viewer's control message as JSON and builds the resize command
/// it asks for, if it asks for one.
pub fn text_resize(text: &str) -> (r: Option<Vec<u8>>)
    ensures
        match r {
            Some(cmd) => text_resize_spec(text@) == Some(cmd@),
            None => text_resize_spec(text@) is None,
        },
{
    let kind = json_string_member(text, CONTROL_TYPE_KEY);
    let cols = json_u64_member(text, COLS_KEY);
    let rows = json_u64_member(text, ROWS_KEY);
    control_resize(kind, cols, rows)
}

/// A message from a web viewer's connection.
#[derive(Debug)]
pub enum ViewerMessage {
    /// Keystrokes for the terminal.
    Binary(Vec<u8>),
    /// A control message in JSON.
    Text(String),
    /// The viewer closes the connection.
    Close,
    /// The connection failed.
    Error,
    /// Any other kind of message.
    Other,
    /// The connection has no more messages.
    End,
}

/// What the relay from a viewer to the terminal does with one message.
#[derive(Debug)]
pub enum ViewerAction {
    /// Send the viewer's input to the terminal; the relay stops if that fails.
    Forward(Vec<u8>),
    /// Send the resize command to the terminal.
    Resize(Vec<u8>),
    /// Drop input from a viewer who may only watch.
    DropReadonly,
    /// Drop input because no terminal is connected.
    NoTerminal,
    /// Do nothing.
    Ignore,
    /// Stop the relay.
    Stop,
}

/// Who a web viewer is, as the session's passwords establish it.
#[derive(Debug, Clone, Copy, PartialEq, Eq, Structural)]
pub enum ViewerRole {
    /// The session's owner, who always has full access.
    Owner,
    /// A guest, who may only watch when the session says so.
    Guest,
}

/// Whether `action` is what a viewer's message becomes, given who the
/// viewer is, whether the session's guests may only watch and whether a
/// terminal is connected: keystrokes reach the terminal unless the viewer
/// is a guest of a session whose guests only watch; a control message that
/// asks for a resize the terminal can take reaches a connected terminal
/// from any viewer; a close, a failure or the end of the connection stops
/// the relay.
pub open spec fn is_viewer_action(
    msg: ViewerMessage,
    role: ViewerRole,
    readonly: bool,
    terminal_connected: bool,
    action: ViewerAction,
) -> bool {
    match msg {
        ViewerMessage::Binary(data) => if readonly && role == ViewerRole::Guest {
            action is DropReadonly
        } else if terminal_connected {
            action == ViewerAction::Forward(data)
        } else {
            action is NoTerminal
        },
        ViewerMessage::Text(text) => match text_resize_spec(text@) {
            Some(cmd) => if terminal_connected {
                action matches ViewerAction::Resize(c) && c@ == cmd
            } else {
                action is Ignore
            },
            None => action is Ignore,
        },
        ViewerMessage::Close => action is Stop,
        ViewerMessage::Error => action is Stop,
        ViewerMessage::Other => action is Ignore,
        ViewerMessage::End => action is Stop,
    }
}

/// Decides what to do with a message from a web viewer.
pub fn viewer_action(msg: ViewerMessage, role: ViewerRole, readonly: bool, terminal_connected: bool) -> (action: ViewerAction)
    ensures
        is_viewer_action(msg, role, readonly, terminal_connected, action),
{
    match msg {
        ViewerMessage::Binary(data) => if readonly && role == ViewerRole::Guest {
            ViewerAction::DropReadonly
        } else if terminal_connected {
            ViewerAction::Forward(data)
        } else {
            ViewerAction::NoTerminal
        },
        ViewerMessage::Text(text) => match text_resize(text.as_str()) {
            Some(cmd) => if terminal_connected {
                ViewerAction::Resize(cmd)
            } else {
                ViewerAction::Ignore
            },
            None => ViewerAction::Ignore,
        },
        ViewerMessage::Close => ViewerAction::Stop,
        ViewerMessage::Error => ViewerAction::Stop,
        ViewerMessage::Other => ViewerAction::Ignore,
        ViewerMessage::End => ViewerAction::Stop,
    }
}

/// A viewer's resize request for a size that fits in `u16` becomes a
/// command that the terminal client reads as exactly that size (columns
/// first); a request for a larger size becomes no command at all.
pub proof fn lemma_viewer_resize_reaches_terminal(text: Seq<char>, cols: u64, rows: u64)
    requires
        json_member_text(text, CONTROL_TYPE_KEY@) == Some(RESIZE_TYPE@),
        json_member_u64(text, COLS_KEY@) == Some(cols),
        json_member_u64(text, ROWS_KEY@) == Some(rows),
    ensures
        cols <= u16::MAX && rows <= u16::MAX ==> {
            &&& text_resize_spec(text) == Some(resize_command_bytes(cols as nat, rows as nat))
            &&& resize_request(resize_command_bytes(cols as nat, rows as nat)) == Some((cols as u16, rows as u16))
        },
        !(cols <= u16::MAX && rows <= u16::MAX) ==> text_resize_spec(text) is None,
{
    lemma_resize_command_round_trip(cols as nat, rows as nat);
}

/// Every resize command that a viewer's message sends to the terminal is
/// read by the terminal client as a resize, never as typed input.
pub proof fn lemma_forwarded_resize_is_read_as_resize(
    msg: ViewerMessage,
    role: ViewerRole,
    readonly: bool,
    terminal_connected: bool,
    action: ViewerAction,
)
    requires
        is_viewer_action(msg, role, readonly, terminal_connected, action),
        action is Resize,
    ensures
        resize_request(action->Resize_0@) is Some,
{
    let text = msg->Text_0@;
    let kind = json_member_text(text, CONTROL_TYPE_KEY@);
    let cols = json_member_u64(text, COLS_KEY@);
    let rows = json_member_u64(text, ROWS_KEY@);
    let c = cols->0;
    let r = rows->0;
    lemma_resize_command_round_trip(c as nat, r as nat);
}

/// No message from a guest of a session whose guests only watch puts
/// input into the terminal: keystrokes are dropped, and what reaches the
/// terminal is only a resize command that the terminal client reads as a
/// resize.
pub proof fn lemma_readonly_guest_sends_no_input(msg: ViewerMessage, terminal_connected: bool, action: ViewerAction)
    requires
        is_viewer_action(msg, ViewerRole::Guest, true, terminal_connected, action),
    ensures
        !(action is Forward),
        msg is Binary ==> action is DropReadonly,
        action is Resize ==> resize_request(action->Resize_0@) is Some,
{
    if action is Resize {
        lemma_forwarded_resize_is_read_as_resize(msg, ViewerRole::Guest, true, terminal_connected, action);
    }
}

/// The owner's keystrokes reach a connected terminal whatever the session
/// lets its guests do.
pub proof fn lemma_owner_input_forwarded(data: Vec<u8>, readonly: bool, action: ViewerAction)
    requires
        is_viewer_action(ViewerMessage::Binary(data), ViewerRole::Owner, readonly, true, action),
    ensures
        action == ViewerAction::Forward(data),
{
}

/// Keystrokes are dropped only from a guest of a read-only session. Any
/// other viewer's keystrokes, of any length, reach a connected terminal
/// unchanged, and are dropped for want of a terminal only when none is
/// connected; in a session whose guests may type, that holds for every
/// viewer.
pub proof fn lemma_keystrokes_forwarded(
    data: Vec<u8>,
    role: ViewerRole,
    readonly: bool,
    terminal_connected: bool,
    action: ViewerAction,
)
    requires
        is_viewer_action(ViewerMessage::Binary(data), role, readonly, terminal_connected, action),
    ensures
        action is DropReadonly <==> (readonly && role == ViewerRole::Guest),
        !(readonly && role == ViewerRole::Guest) && terminal_connected ==> action == ViewerAction::Forward(data),
        !readonly && terminal_connected ==> action == ViewerAction::Forward(data),
        !(readonly && role == ViewerRole::Guest) && !terminal_connected ==> action is NoTerminal,
        action is Forward ==> action == ViewerAction::Forward(data),
        !(action is Resize) && !(action is Ignore) && !(action is Stop),
{
}

/// One step of the relay from a terminal: output is broadcast unchanged
/// and the relay goes on; a message of another kind is passed over; a
/// close, a failure or the end of the connection stops the relay and
/// announces the end of the session if, and only if, it was not announced
/// before. Nothing but the end of the session is ever announced.
pub proof fn lemma_terminal_relay_step(end_announced: bool, msg: TerminalMessage)
    ensures
        ({
            let (announced, step) = terminal_relay_spec(end_announced, msg);
            &&& msg matches TerminalMessage::Binary(data) ==> step.broadcast == Some(data)
            &&& !(msg is Binary) ==> step.broadcast is None
            &&& step.stop <==> (msg is Close || msg is Error || msg is End)
            &&& step.announce_end <==> (step.stop && !end_announced)
            &&& announced == (end_announced || step.stop)
        }),
{
}

/// A control message asks for a resize only when its `type` is `resize`
/// and it gives both numbers; such a request that fits in `u16` reaches a
/// connected terminal from any viewer of any session, while every other
/// text, and any request without a connected terminal, is ignored. A close,
/// a failure or the end of the connection stops the relay; other messages
/// are ignored.
pub proof fn lemma_viewer_control_messages(
    msg: ViewerMessage,
    role: ViewerRole,
    readonly: bool,
    terminal_connected: bool,
    action: ViewerAction,
)
    requires
        is_viewer_action(msg, role, readonly, terminal_connected, action),
    ensures
        msg matches ViewerMessage::Text(text) ==> ({
            let kind = json_member_text(text@, CONTROL_TYPE_KEY@);
            let cols = json_member_u64(text@, COLS_KEY@);
            let rows = json_member_u64(text@, ROWS_KEY@);
            &&& kind != Some(RESIZE_TYPE@) ==> action is Ignore
            &&& (cols is None || rows is None) ==> action is Ignore
            &&& !terminal_connected ==> action is Ignore
            &&& (kind == Some(RESIZE_TYPE@) && terminal_connected && cols is Some && rows is Some
                && cols->0 <= u16::MAX && rows->0 <= u16::MAX) ==> (action is Resize
                && action->Resize_0@ == resize_command_bytes(cols->0 as nat, rows->0 as nat))
        }),
        action is Stop <==> (msg is Close || msg is Error || msg is End),
        msg is Other ==> action is Ignore,
        action is Resize ==> msg is Text && terminal_connected,
{
}

} // verus!
