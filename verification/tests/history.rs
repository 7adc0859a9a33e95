use tshare::history::{OutputHistory, HISTORY_CHUNKS};

#[test]
fn history_keeps_everything_below_its_limit() {
    let mut h = OutputHistory::new(3);
    assert_eq!(h.limit(), 3);
    assert_eq!(h.len(), 0);
    assert!(h.replay().is_empty());
    h.record(b"a".to_vec());
    h.record(b"b".to_vec());
    assert_eq!(h.replay(), vec![b"a".to_vec(), b"b".to_vec()]);
    assert_eq!(h.len(), 2);
}

#[test]
fn history_drops_the_oldest_chunks() {
    let mut h = OutputHistory::new(3);
    for c in [b"1", b"2", b"3", b"4", b"5"] {
        h.record(c.to_vec());
    }
    assert_eq!(h.replay(), vec![b"3".to_vec(), b"4".to_vec(), b"5".to_vec()]);
    assert_eq!(h.len(), 3);
}

#[test]
fn history_without_room_keeps_nothing() {
    let mut h = OutputHistory::new(0);
    h.record(b"x".to_vec());
    assert!(h.replay().is_empty());
    assert_eq!(h.len(), 0);
}

#[test]
fn default_history_limit() {
    let mut h = OutputHistory::new(HISTORY_CHUNKS);
    for i in 0..(HISTORY_CHUNKS + 10) {
        h.record(i.to_string().into_bytes());
    }
    let kept = h.replay();
    assert_eq!(kept.len(), HISTORY_CHUNKS);
    assert_eq!(kept[0], b"10".to_vec());
    assert_eq!(kept[HISTORY_CHUNKS - 1], (HISTORY_CHUNKS + 9).to_string().into_bytes());
}
