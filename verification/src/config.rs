//! Where the programs keep their logs and where the servers listen.

use vstd::prelude::*;
use vstd::string::StringExecFns;
use crate::text::{decimal_text, push_decimal_text};

verus! {

/// Directory, under the home directory, that holds the logs.
pub const STATE_DIR_NAME: &'static str = "/.tshare";

/// Home directory used when none is set.
pub const FALLBACK_HOME: &'static str = ".";

/// Host that the standalone tunnel server listens on by default.
pub const DEFAULT_LISTEN_HOST: &'static str = "127.0.0.1";

/// Port of the standalone tunnel server's HTTP API by default.
pub const DEFAULT_API_PORT: u16 = 8081;

/// Port of the standalone tunnel server's WebSocket endpoints by default.
pub const DEFAULT_WS_PORT: u16 = 8080;

/// The role a program run takes.
#[derive(Debug, Clone, Copy, PartialEq, Eq, Structural)]
pub enum Role {
    /// Share a terminal.
    Connect,
    /// Run the tunnel as a subcommand of the terminal client's program.
    Tunnel,
    /// Run the web server.
    Web,
    /// Run the standalone tunnel server.
    TunnelServer,
}

/// The directory that holds the logs: `{home}/.tshare`, with `.` for home
/// when none is set.
pub fn state_dir(home: Option<String>) -> (dir: String)
    ensures
        dir@ == (match home {
            Some(h) => h@,
            None => FALLBACK_HOME@,
        }) + STATE_DIR_NAME@,
{
    let mut dir = match home {
        Some(h) => h,
        None => FALLBACK_HOME.to_owned(),
    };
    dir.append(STATE_DIR_NAME);
    dir
}

/// The log file's name for a role.
pub open spec fn log_file_name_spec(role: Role) -> Seq<char> {
    match role {
        Role::Connect => "tshare.log"@,
        Role::Tunnel => "tshare-tunnel.log"@,
        Role::Web => "tshare-web.log"@,
        Role::TunnelServer => "tunnel-server.log"@,
    }
}

/// The log file's path for a role, inside the log directory.
pub fn log_path(dir: &String, role: Role) -> (path: String)
    ensures
        path@ == dir@ + "/"@ + log_file_name_spec(role),
{
    let mut path = dir.clone();
    path.append("/");
    match role {
        Role::Connect => path.append("tshare.log"),
        Role::Tunnel => path.append("tshare-tunnel.log"),
        Role::Web => path.append("tshare-web.log"),
        Role::TunnelServer => path.append("tunnel-server.log"),
    }
    path
}

/// Whether a role logs to the console as well as to its file: the servers
/// do, the terminal client (which owns the console) does not.
pub fn logs_to_console(role: Role) -> (console: bool)
    ensures
        console == (role != Role::Connect),
{
    match role {
        Role::Connect => false,
        Role::Tunnel => true,
        Role::Web => true,
        Role::TunnelServer => true,
    }
}

/// The address a server binds to: `{host}:{port}`.
pub fn listen_address(host: &String, port: u16) -> (addr: String)
    ensures
        addr@ == host@ + ":"@ + decimal_text(port as nat),
{
    let mut addr = host.clone();
    addr.append(":");
    push_decimal_text(&mut addr, port as u64);
    addr
}

/// Each role writes a log file of its own: no two roles share a name.
pub proof fn lemma_log_files_distinct(a: Role, b: Role)
    ensures
        a != b ==> log_file_name_spec(a) != log_file_name_spec(b),
{
    reveal_strlit("tshare.log");
    reveal_strlit("tshare-tunnel.log");
    reveal_strlit("tshare-web.log");
    reveal_strlit("tunnel-server.log");
    if a != b {
        let x = log_file_name_spec(a);
        let y = log_file_name_spec(b);
        if x.len() == y.len() {
            assert(x[7] != y[7] || x[0] != y[0]);
        }
    }
}

} // verus!
