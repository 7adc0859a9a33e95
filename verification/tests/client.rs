use tshare::client::{
    client_step, initial_terminal_size, session_created, tunnel_action, tunnel_responds, user_shell, Args,
    ClientAction, ClientEvent, TerminalSize, TunnelAction, TunnelMessage, CLOSE_REASON, NORMAL_CLOSE_CODE,
};

fn production_args() -> Args {
    Args {
        tunnel_host: "tunnel.example.com".to_string(),
        tunnel_port: 8385,
        web_host: "web.example.com".to_string(),
        web_port: 80,
        owner_pass: Some("secret123".to_string()),
        guest_pass: Some("view123".to_string()),
        guest_readonly: true,
    }
}

#[test]
fn default_args_are_local() {
    let a = Args::default();
    assert_eq!(a.tunnel_host, "127.0.0.1");
    assert_eq!(a.tunnel_port, 8385);
    assert_eq!(a.web_host, "127.0.0.1");
    assert_eq!(a.web_port, 8386);
    assert_eq!(a.owner_pass, None);
    assert_eq!(a.guest_pass, None);
    assert!(!a.guest_readonly);
}

#[test]
fn default_addresses() {
    let a = Args::default();
    assert_eq!(a.api_url(), "http://127.0.0.1:8385/api/session");
    assert_eq!(a.connection_test_url(), "http://127.0.0.1:8385/api/session/connection-test");
    assert_eq!(a.web_address(), "http://127.0.0.1:8386");
    assert_eq!(a.terminal_socket_url("abc"), "ws://127.0.0.1:8385/ws/pty/abc");
    assert_eq!(a.share_link("abc"), "http://127.0.0.1:8386/session/abc");
}

#[test]
fn production_addresses() {
    let a = production_args();
    assert_eq!(a.api_url(), "http://tunnel.example.com:8385/api/session");
    assert_eq!(a.web_address(), "http://web.example.com:80");
    assert_eq!(
        a.share_link("0b5f8d4e-0000-4000-8000-000000000000"),
        "http://web.example.com:80/session/0b5f8d4e-0000-4000-8000-000000000000"
    );
}

#[test]
fn registration_request_carries_settings() {
    let r = production_args().create_session_request();
    assert_eq!(r.owner_password, Some("secret123".to_string()));
    assert_eq!(r.guest_password, Some("view123".to_string()));
    assert!(r.is_guest_readonly);
    let r = Args::default().create_session_request();
    assert_eq!(r.owner_password, None);
    assert_eq!(r.guest_password, None);
    assert!(!r.is_guest_readonly);
}

#[test]
fn connection_test_statuses() {
    assert!(tunnel_responds(404));
    assert!(tunnel_responds(200));
    assert!(tunnel_responds(204));
    assert!(tunnel_responds(299));
    assert!(!tunnel_responds(300));
    assert!(!tunnel_responds(500));
    assert!(!tunnel_responds(403));
    assert!(!tunnel_responds(199));
}

#[test]
fn registration_statuses() {
    assert!(session_created(200));
    assert!(session_created(201));
    assert!(!session_created(404));
    assert!(!session_created(500));
}

#[test]
fn shell_choice() {
    assert_eq!(user_shell(Some("/usr/bin/zsh".to_string())), "/usr/bin/zsh");
    assert_eq!(user_shell(None), "/bin/bash");
}

#[test]
fn terminal_starts_at_120_by_30() {
    assert_eq!(initial_terminal_size(), TerminalSize { rows: 30, cols: 120 });
    assert_eq!(NORMAL_CLOSE_CODE, 1000);
    assert_eq!(CLOSE_REASON, "Terminal session ended");
}

#[test]
fn tunnel_messages() {
    match tunnel_action(TunnelMessage::Binary(b"RESIZE:100:40".to_vec())) {
        TunnelAction::Resize(size) => assert_eq!(size, TerminalSize { rows: 40, cols: 100 }),
        other => panic!("unexpected {:?}", other),
    }
    match tunnel_action(TunnelMessage::Binary(b"ls -l\r".to_vec())) {
        TunnelAction::Input(data) => assert_eq!(data, b"ls -l\r".to_vec()),
        other => panic!("unexpected {:?}", other),
    }
    match tunnel_action(TunnelMessage::Binary(b"RESIZE:70000:40".to_vec())) {
        TunnelAction::Input(data) => assert_eq!(data, b"RESIZE:70000:40".to_vec()),
        other => panic!("unexpected {:?}", other),
    }
    assert!(matches!(tunnel_action(TunnelMessage::Close), TunnelAction::Stop));
    assert!(matches!(tunnel_action(TunnelMessage::Error), TunnelAction::Stop));
    assert!(matches!(tunnel_action(TunnelMessage::Other), TunnelAction::Ignore));
}

#[test]
fn main_loop_steps() {
    match client_step(ClientEvent::TerminalOutput(b"$ ".to_vec())) {
        ClientAction::SendToTunnel(data) => assert_eq!(data, b"$ ".to_vec()),
        other => panic!("unexpected {:?}", other),
    }
    let size = TerminalSize { rows: 50, cols: 200 };
    assert!(matches!(client_step(ClientEvent::ResizeRequested(size)), ClientAction::ResizeTerminal(s) if s == size));
    assert!(matches!(client_step(ClientEvent::ShellExited { clean: true }), ClientAction::Finish { clean: true }));
    assert!(matches!(client_step(ClientEvent::ShellExited { clean: false }), ClientAction::Finish { clean: false }));
    assert!(matches!(client_step(ClientEvent::SourcesClosed), ClientAction::Stop));
}
