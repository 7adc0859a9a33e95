use tshare::config::{listen_address, log_path, logs_to_console, state_dir, Role, DEFAULT_API_PORT, DEFAULT_WS_PORT};

#[test]
fn state_directory() {
    assert_eq!(state_dir(Some("/home/ann".to_string())), "/home/ann/.tshare");
    assert_eq!(state_dir(None), "./.tshare");
}

#[test]
fn log_files() {
    let dir = "/home/ann/.tshare".to_string();
    assert_eq!(log_path(&dir, Role::Connect), "/home/ann/.tshare/tshare.log");
    assert_eq!(log_path(&dir, Role::Tunnel), "/home/ann/.tshare/tshare-tunnel.log");
    assert_eq!(log_path(&dir, Role::Web), "/home/ann/.tshare/tshare-web.log");
    assert_eq!(log_path(&dir, Role::TunnelServer), "/home/ann/.tshare/tunnel-server.log");
    assert!(!logs_to_console(Role::Connect));
    assert!(logs_to_console(Role::Tunnel));
    assert!(logs_to_console(Role::Web));
    assert!(logs_to_console(Role::TunnelServer));
}

#[test]
fn listen_addresses() {
    assert_eq!(listen_address(&"127.0.0.1".to_string(), DEFAULT_API_PORT), "127.0.0.1:8081");
    assert_eq!(listen_address(&"0.0.0.0".to_string(), DEFAULT_WS_PORT), "0.0.0.0:8080");
    assert_eq!(listen_address(&"::".to_string(), 0), ":::0");
}
