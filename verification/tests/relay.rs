use tshare::client::{tunnel_action, TerminalSize, TunnelAction, TunnelMessage};
use tshare::relay::{
    control_resize, text_resize, viewer_action, TerminalMessage, TerminalRelay, ViewerAction,
    ViewerMessage, ViewerRole,
};

#[test]
fn terminal_output_is_broadcast() {
    let mut relay = TerminalRelay::new();
    let s = relay.step(TerminalMessage::Binary(b"hello".to_vec()));
    assert_eq!(s.broadcast, Some(b"hello".to_vec()));
    assert!(!s.announce_end && !s.stop);
    let s = relay.step(TerminalMessage::Other);
    assert_eq!(s.broadcast, None);
    assert!(!s.announce_end && !s.stop);
}

#[test]
fn end_is_announced_once() {
    for end in [TerminalMessage::Close, TerminalMessage::Error, TerminalMessage::End] {
        let mut relay = TerminalRelay::new();
        let s = relay.step(end);
        assert!(s.announce_end && s.stop);
        assert!(relay.end_announced);
        let again = relay.step(TerminalMessage::End);
        assert!(!again.announce_end && again.stop);
    }
}

#[test]
fn viewer_keystrokes() {
    assert!(matches!(viewer_action(ViewerMessage::Binary(b"a".to_vec()), ViewerRole::Guest, false, true), ViewerAction::Forward(d) if d == b"a".to_vec()));
    assert!(matches!(viewer_action(ViewerMessage::Binary(b"a".to_vec()), ViewerRole::Guest, false, false), ViewerAction::NoTerminal));
    assert!(matches!(viewer_action(ViewerMessage::Binary(b"a".to_vec()), ViewerRole::Guest, true, true), ViewerAction::DropReadonly));
    assert!(matches!(viewer_action(ViewerMessage::Binary(b"a".to_vec()), ViewerRole::Guest, true, false), ViewerAction::DropReadonly));
}

#[test]
fn owner_keystrokes_reach_a_readonly_session() {
    assert!(matches!(viewer_action(ViewerMessage::Binary(b"ls\r".to_vec()), ViewerRole::Owner, true, true), ViewerAction::Forward(d) if d == b"ls\r".to_vec()));
    assert!(matches!(viewer_action(ViewerMessage::Binary(b"x".to_vec()), ViewerRole::Owner, false, true), ViewerAction::Forward(d) if d == b"x".to_vec()));
    assert!(matches!(viewer_action(ViewerMessage::Binary(b"x".to_vec()), ViewerRole::Owner, true, false), ViewerAction::NoTerminal));
}

#[test]
fn viewer_resize_request() {
    let msg = r#"{"type":"resize","cols":100,"rows":40}"#.to_string();
    for role in [ViewerRole::Guest, ViewerRole::Owner] {
        for readonly in [false, true] {
            assert!(matches!(viewer_action(ViewerMessage::Text(msg.clone()), role, readonly, true), ViewerAction::Resize(c) if c == b"RESIZE:100:40".to_vec()));
            assert!(matches!(viewer_action(ViewerMessage::Text(msg.clone()), role, readonly, false), ViewerAction::Ignore));
        }
    }
}

#[test]
fn oversized_resize_never_reaches_terminal() {
    for text in [
        r#"{"type":"resize","cols":70000,"rows":40}"#,
        r#"{"type":"resize","cols":80,"rows":65536}"#,
    ] {
        for role in [ViewerRole::Guest, ViewerRole::Owner] {
            for readonly in [false, true] {
                assert!(matches!(viewer_action(ViewerMessage::Text(text.to_string()), role, readonly, true), ViewerAction::Ignore), "{}", text);
            }
        }
    }
    let edge = r#"{"type":"resize","cols":65535,"rows":65535}"#.to_string();
    assert!(matches!(viewer_action(ViewerMessage::Text(edge), ViewerRole::Guest, true, true), ViewerAction::Resize(c) if c == b"RESIZE:65535:65535".to_vec()));
}

#[test]
fn viewer_other_text_is_ignored() {
    for text in [
        "not json",
        r#"{"type":"resize","cols":100}"#,
        r#"{"type":"resize","cols":-1,"rows":40}"#,
        r#"{"type":"resize","cols":1.5,"rows":40}"#,
        r#"{"type":"ping","cols":100,"rows":40}"#,
        r#"{"type":5,"cols":100,"rows":40}"#,
        r#"["resize",100,40]"#,
    ] {
        assert!(matches!(viewer_action(ViewerMessage::Text(text.to_string()), ViewerRole::Guest, false, true), ViewerAction::Ignore), "{}", text);
    }
}

#[test]
fn viewer_connection_ends() {
    assert!(matches!(viewer_action(ViewerMessage::Close, ViewerRole::Guest, false, true), ViewerAction::Stop));
    assert!(matches!(viewer_action(ViewerMessage::Error, ViewerRole::Owner, true, false), ViewerAction::Stop));
    assert!(matches!(viewer_action(ViewerMessage::End, ViewerRole::Guest, true, true), ViewerAction::Stop));
    assert!(matches!(viewer_action(ViewerMessage::Other, ViewerRole::Guest, false, true), ViewerAction::Ignore));
}

#[test]
fn resize_commands_from_json() {
    assert_eq!(text_resize(r#"{"rows": 24, "type": "resize", "cols": 80}"#), Some(b"RESIZE:80:24".to_vec()));
    assert_eq!(text_resize(r#"{"type":"resize","cols":70000,"rows":1}"#), None);
    assert_eq!(text_resize(r#"{"type":"resize","cols":65535,"rows":0}"#), Some(b"RESIZE:65535:0".to_vec()));
    assert_eq!(text_resize(r#"{"type":"Resize","cols":80,"rows":24}"#), None);
    assert_eq!(control_resize(Some("resize".to_string()), Some(3), Some(4)), Some(b"RESIZE:3:4".to_vec()));
    assert_eq!(control_resize(Some("resize".to_string()), None, Some(4)), None);
    assert_eq!(control_resize(None, Some(3), Some(4)), None);
    assert_eq!(control_resize(Some("resize".to_string()), Some(65536), Some(4)), None);
    assert_eq!(control_resize(Some("resize".to_string()), Some(3), Some(u64::MAX)), None);
}

#[test]
fn relay_run_announces_end_once() {
    let msgs = vec![
        TerminalMessage::Binary(b"a".to_vec()),
        TerminalMessage::Other,
        TerminalMessage::Binary(b"b".to_vec()),
        TerminalMessage::Close,
        TerminalMessage::Binary(b"c".to_vec()),
    ];
    let mut relay = TerminalRelay::new();
    let mut broadcasts = Vec::new();
    let mut announcements = 0;
    let mut steps = 0;
    for msg in msgs {
        let step = relay.step(msg);
        steps += 1;
        if let Some(data) = step.broadcast {
            broadcasts.push(data);
        }
        if step.announce_end {
            announcements += 1;
        }
        if step.stop {
            break;
        }
    }
    assert_eq!(steps, 4);
    assert_eq!(announcements, 1);
    assert_eq!(broadcasts, vec![b"a".to_vec(), b"b".to_vec()]);
}

#[test]
fn viewer_resize_reaches_terminal_client() {
    let cmd = text_resize(r#"{"type":"resize","cols":132,"rows":43}"#).expect("command");
    match tunnel_action(TunnelMessage::Binary(cmd)) {
        TunnelAction::Resize(size) => assert_eq!(size, TerminalSize { rows: 43, cols: 132 }),
        other => panic!("unexpected {:?}", other),
    }
    assert_eq!(text_resize(r#"{"type":"resize","cols":65536,"rows":43}"#), None);
}
