//! The terminal client: its settings, the addresses it talks to, and the
//! decisions it takes on what the tunnel and the shared terminal send.

use vstd::prelude::*;
use vstd::string::StringExecFns;
use crate::protocol::{parse_resize_command, resize_request};
use crate::session::{opt_text, CreateSessionRequest};
use crate::text::{decimal_text, push_decimal_text};

verus! {

/// Host that the client reaches the tunnel and web servers on by default.
pub const DEFAULT_HOST: &'static str = "127.0.0.1";

/// Port of the tunnel server by default.
pub const DEFAULT_TUNNEL_PORT: u16 = 8385;

/// Port of the web server by default.
pub const DEFAULT_WEB_PORT: u16 = 8386;

/// Shell started when the user has none set.
pub const DEFAULT_SHELL: &'static str = "/bin/bash";

/// Rows of the shared terminal when it starts.
pub const INITIAL_ROWS: u16 = 30;

/// Columns of the shared terminal when it starts.
pub const INITIAL_COLS: u16 = 120;

/// Close code sent to the tunnel when the session ends normally.
pub const NORMAL_CLOSE_CODE: u16 = 1000;

/// Reason sent to the tunnel with the closing frame.
pub const CLOSE_REASON: &'static str = "Terminal session ended";

/// Settings of a terminal sharing session.
#[derive(Debug, Clone)]
pub struct Args {
    /// Tunnel server host.
    pub tunnel_host: String,
    /// Tunnel server port.
    pub tunnel_port: u16,
    /// Web server host.
    pub web_host: String,
    /// Web server port.
    pub web_port: u16,
    /// Password that the session owner gives to connect via the web.
    /// Owners always have full read/write access to the terminal.
    pub owner_pass: Option<String>,
    /// Password that guests give to connect via the web.
    pub guest_pass: Option<String>,
    /// Whether guests may only view the terminal (no input from them is
    /// forwarded). Owners have full access regardless.
    pub guest_readonly: bool,
}

impl Default for Args {
    /// The settings for local use: both servers on this machine at their
    /// default ports, no passwords, and guests that may type.
    fn default() -> (a: Args)
        ensures
            a.tunnel_host@ == DEFAULT_HOST@,
            a.tunnel_port == DEFAULT_TUNNEL_PORT,
            a.web_host@ == DEFAULT_HOST@,
            a.web_port == DEFAULT_WEB_PORT,
            a.owner_pass is None,
            a.guest_pass is None,
            !a.guest_readonly,
    {
        Args {
            tunnel_host: DEFAULT_HOST.to_owned(),
            tunnel_port: DEFAULT_TUNNEL_PORT,
            web_host: DEFAULT_HOST.to_owned(),
            web_port: DEFAULT_WEB_PORT,
            owner_pass: None,
            guest_pass: None,
            guest_readonly: false,
        }
    }
}

/// `http://{host}:{port}`.
pub open spec fn http_base(host: Seq<char>, port: u16) -> Seq<char> {
    "http://"@ + host + ":"@ + decimal_text(port as nat)
}

/// Text that starts `prefix{host}:{port}`.
fn address(prefix: &str, host: &String, port: u16) -> (r: String)
    ensures
        r@ == prefix@ + host@ + ":"@ + decimal_text(port as nat),
{
    let mut r = String::new();
    r.append(prefix);
    r.append(host.as_str());
    r.append(":");
    push_decimal_text(&mut r, port as u64);
    r
}

impl Args {
    /// Where sessions are registered: `http://{tunnel}:{port}/api/session`.
    pub fn api_url(&self) -> (r: String)
        ensures
            r@ == http_base(self.tunnel_host@, self.tunnel_port) + "/api/session"@,
    {
        let mut r = address("http://", &self.tunnel_host, self.tunnel_port);
        r.append("/api/session");
        r
    }

    /// What is asked of the tunnel to see that it answers:
    /// `http://{tunnel}:{port}/api/session/connection-test`.
    pub fn connection_test_url(&self) -> (r: String)
        ensures
            r@ == http_base(self.tunnel_host@, self.tunnel_port) + "/api/session/connection-test"@,
    {
        let mut r = address("http://", &self.tunnel_host, self.tunnel_port);
        r.append("/api/session/connection-test");
        r
    }

    /// The web server's address: `http://{web}:{port}`.
    pub fn web_address(&self) -> (r: String)
        ensures
            r@ == http_base(self.web_host@, self.web_port),
    {
        address("http://", &self.web_host, self.web_port)
    }

    /// Where the terminal's data stream goes:
    /// `ws://{tunnel}:{port}/ws/pty/{session_id}`.
    pub fn terminal_socket_url(&self, session_id: &str) -> (r: String)
        ensures
            r@ == "ws://"@ + self.tunnel_host@ + ":"@ + decimal_text(self.tunnel_port as nat) + "/ws/pty/"@ + session_id@,
    {
        let mut r = address("ws://", &self.tunnel_host, self.tunnel_port);
        r.append("/ws/pty/");
        r.append(session_id);
        r
    }

    /// The link that viewers open: `{web address}/session/{session_id}`.
    pub fn share_link(&self, session_id: &str) -> (r: String)
        ensures
            r@ == http_base(self.web_host@, self.web_port) + "/session/"@ + session_id@,
    {
        let mut r = self.web_address();
        r.append("/session/");
        r.append(session_id);
        r
    }

    /// The request that registers the session with the tunnel.
    pub fn create_session_request(&self) -> (r: CreateSessionRequest)
        ensures
            opt_text(r.owner_password) == opt_text(self.owner_pass),
            opt_text(r.guest_password) == opt_text(self.guest_pass),
            r.is_guest_readonly == self.guest_readonly,
    {
        CreateSessionRequest {
            owner_password: clone_text(&self.owner_pass),
            guest_password: clone_text(&self.guest_pass),
            is_guest_readonly: self.guest_readonly,
        }
    }
}

/// A copy of optional text.
fn clone_text(s: &Option<String>) -> (r: Option<String>)
    ensures
        opt_text(r) == opt_text(*s),
{
    match s {
        Some(t) => Some(t.clone()),
        None => None,
    }
}

/// Whether the answer to the connection test shows a running tunnel
/// server: `404` (no such session) or any success status.
pub open spec fn tunnel_answers(status: u16) -> bool {
    status == 404 || (200 <= status < 300)
}

/// Decides, from the HTTP status of the connection test, whether the
/// tunnel server is running.
pub fn tunnel_responds(status: u16) -> (ok: bool)
    ensures
        ok == tunnel_answers(status),
{
    status == 404 || (200 <= status && status < 300)
}

/// The connection test passes exactly on `404` and on the success statuses
/// `200` to `299`; every other answer, a server error above all, shows no
/// running tunnel server.
pub proof fn lemma_tunnel_answers_exactly(status: u16)
    ensures
        tunnel_answers(status) <==> (status == 404 || (200 <= status && status <= 299)),
        status >= 500 ==> !tunnel_answers(status),
        status < 200 ==> !tunnel_answers(status),
        300 <= status && status != 404 ==> !tunnel_answers(status),
{
}

/// Decides, from the HTTP status of the registration, whether the session
/// was created: any success status.
pub fn session_created(status: u16) -> (ok: bool)
    ensures
        ok == (200 <= status < 300),
{
    200 <= status && status < 300
}

/// The shell to start: the user's, else the default shell.
pub fn user_shell(configured: Option<String>) -> (shell: String)
    ensures
        shell@ == (match configured {
            Some(s) => s@,
            None => DEFAULT_SHELL@,
        }),
{
    match configured {
        Some(s) => s,
        None => DEFAULT_SHELL.to_owned(),
    }
}

/// The size of a terminal.
#[derive(Debug, Clone, Copy, PartialEq, Eq, Structural)]
pub struct TerminalSize {
    pub rows: u16,
    pub cols: u16,
}

/// The size the shared terminal starts with.
pub fn initial_terminal_size() -> (size: TerminalSize)
    ensures
        size == (TerminalSize { rows: INITIAL_ROWS, cols: INITIAL_COLS }),
{
    TerminalSize { rows: INITIAL_ROWS, cols: INITIAL_COLS }
}

/// A message that the tunnel sends to the terminal client.
#[derive(Debug)]
pub enum TunnelMessage {
    /// Binary data: a resize command or input for the terminal.
    Binary(Vec<u8>),
    /// The tunnel closes the connection.
    Close,
    /// The connection failed.
    Error,
    /// Any other kind of message (text, ping, pong).
    Other,
}

/// What the terminal client does with a message from the tunnel.
#[derive(Debug)]
pub enum TunnelAction {
    /// Resize the terminal.
    Resize(TerminalSize),
    /// Write the bytes to the terminal as input.
    Input(Vec<u8>),
    /// Stop reading from the tunnel.
    Stop,
    /// Do nothing.
    Ignore,
}

/// What a message from the tunnel makes the client do: a resize command
/// (columns first) resizes the terminal, other binary data is terminal
/// input, a close or a failure ends the reading, anything else is ignored.
pub open spec fn tunnel_action_spec(msg: TunnelMessage) -> TunnelAction {
    match msg {
        TunnelMessage::Binary(data) => match resize_request(data@) {
            Some((cols, rows)) => TunnelAction::Resize(TerminalSize { rows, cols }),
            None => TunnelAction::Input(data),
        },
        TunnelMessage::Close => TunnelAction::Stop,
        TunnelMessage::Error => TunnelAction::Stop,
        TunnelMessage::Other => TunnelAction::Ignore,
    }
}

/// Decides what to do with a message from the tunnel.
pub fn tunnel_action(msg: TunnelMessage) -> (action: TunnelAction)
    ensures
        action == tunnel_action_spec(msg),
{
    match msg {
        TunnelMessage::Binary(data) => match parse_resize_command(data.as_slice()) {
            Some((cols, rows)) => TunnelAction::Resize(TerminalSize { rows, cols }),
            None => TunnelAction::Input(data),
        },
        TunnelMessage::Close => TunnelAction::Stop,
        TunnelMessage::Error => TunnelAction::Stop,
        TunnelMessage::Other => TunnelAction::Ignore,
    }
}

/// What the client's main loop waits for.
#[derive(Debug)]
pub enum ClientEvent {
    /// The terminal wrote these bytes.
    TerminalOutput(Vec<u8>),
    /// The tunnel asked for a new terminal size.
    ResizeRequested(TerminalSize),
    /// The shell ended, normally or with an error.
    ShellExited { clean: bool },
    /// Every source of events is gone.
    SourcesClosed,
}

/// What the client's main loop does next.
#[derive(Debug)]
pub enum ClientAction {
    /// Send the bytes to the tunnel; the loop ends if that fails.
    SendToTunnel(Vec<u8>),
    /// Resize the terminal.
    ResizeTerminal(TerminalSize),
    /// Tell the user how the shell ended, then end the session.
    Finish { clean: bool },
    /// End the session.
    Stop,
}

/// The client's main loop: terminal output goes to the tunnel, resize
/// requests resize the terminal, and the session ends with the shell or
/// when nothing is left to wait for.
pub open spec fn client_step_spec(event: ClientEvent) -> ClientAction {
    match event {
        ClientEvent::TerminalOutput(data) => ClientAction::SendToTunnel(data),
        ClientEvent::ResizeRequested(size) => ClientAction::ResizeTerminal(size),
        ClientEvent::ShellExited { clean } => ClientAction::Finish { clean },
        ClientEvent::SourcesClosed => ClientAction::Stop,
    }
}

/// Decides the main loop's next action.
pub fn client_step(event: ClientEvent) -> (action: ClientAction)
    ensures
        action == client_step_spec(event),
{
    match event {
        ClientEvent::TerminalOutput(data) => ClientAction::SendToTunnel(data),
        ClientEvent::ResizeRequested(size) => ClientAction::ResizeTerminal(size),
        ClientEvent::ShellExited { clean } => ClientAction::Finish { clean },
        ClientEvent::SourcesClosed => ClientAction::Stop,
    }
}

/// Every binary message from the tunnel that is not a resize command is
/// written to the terminal unchanged, whatever its length; a resize command
/// resizes the terminal to the columns and rows it names; nothing binary is
/// ever dropped; a close or a failure ends the relay and nothing else does.
pub proof fn lemma_tunnel_messages(msg: TunnelMessage)
    ensures
        msg matches TunnelMessage::Binary(data) ==> (resize_request(data@) is None
            ==> tunnel_action_spec(msg) == TunnelAction::Input(data)),
        msg matches TunnelMessage::Binary(data) ==> (resize_request(data@) matches Some((c, r))
            ==> tunnel_action_spec(msg) == TunnelAction::Resize(TerminalSize { rows: r, cols: c })),
        msg is Binary ==> (tunnel_action_spec(msg) is Input || tunnel_action_spec(msg) is Resize),
        tunnel_action_spec(msg) is Stop <==> (msg is Close || msg is Error),
        tunnel_action_spec(msg) is Ignore <==> msg is Other,
{
}

/// Terminal output of any length is sent to the tunnel unchanged and never
/// ends the loop; a resize request resizes the terminal to exactly that
/// size; only the shell's end, which is reported as it was, or the end of
/// every source ends the session.
pub proof fn lemma_client_steps(event: ClientEvent)
    ensures
        event matches ClientEvent::TerminalOutput(data) ==> client_step_spec(event) == ClientAction::SendToTunnel(data),
        event matches ClientEvent::ResizeRequested(size) ==> client_step_spec(event) == ClientAction::ResizeTerminal(size),
        event matches ClientEvent::ShellExited { clean } ==> client_step_spec(event) == (ClientAction::Finish { clean }),
        (client_step_spec(event) is Finish || client_step_spec(event) is Stop)
            <==> (event is ShellExited || event is SourcesClosed),
        client_step_spec(event) is Stop <==> event is SourcesClosed,
{
}

/// An HTTP base address is `http://`, then the host exactly, then `:`
/// and the port's decimal numeral, which reads back as the port.
pub proof fn lemma_http_base_parts(host: Seq<char>, port: u16)
    ensures
        http_base(host, port).len() == 8 + host.len() + decimal_text(port as nat).len(),
        http_base(host, port).subrange(0, 7) == "http://"@,
        http_base(host, port).subrange(7, 7 + host.len() as int) == host,
        http_base(host, port)[7 + host.len() as int] == ':',
        http_base(host, port).subrange(8 + host.len() as int, http_base(host, port).len() as int) == decimal_text(port as nat),
{
    reveal_strlit("http://");
    reveal_strlit(":");
    let b = http_base(host, port);
    assert(b.subrange(0, 7) =~= "http://"@);
    assert(b.subrange(7, 7 + host.len() as int) =~= host);
    assert(b.subrange(8 + host.len() as int, b.len() as int) =~= decimal_text(port as nat));
}

} // verus!
