use lan_play::sessions::{session_key, UdpSessions, UDP_CACHE_CAPACITY};

#[test]
fn session_key_packs_address_and_port() {
    assert_eq!(session_key([10, 13, 0, 1], 5), (0x0a0d0001u64 << 16) + 5);
    assert_ne!(session_key([10, 13, 0, 1], 5), session_key([10, 13, 0, 1], 6));
}

#[test]
fn new_table_is_empty() {
    let t = UdpSessions::new();
    assert_eq!(t.len(), 0);
    assert!(!t.contains([10, 13, 0, 1], 1000));
}

#[test]
fn opened_session_is_found() {
    let mut t = UdpSessions::new();
    assert_eq!(t.session_for([10, 13, 0, 1], 1000), None);
    assert_eq!(t.open_session([10, 13, 0, 1], 1000), (0, None));
    assert_eq!(t.session_for([10, 13, 0, 1], 1000), Some(0));
    assert_eq!(t.open_session([10, 13, 0, 2], 1000), (1, None));
    assert_eq!(t.session_for([10, 13, 0, 1], 1000), Some(0));
    assert_eq!(t.session_for([10, 13, 0, 2], 1000), Some(1));
    assert_eq!(t.len(), 2);
}

#[test]
fn full_table_evicts_least_recently_used() {
    let mut t = UdpSessions::new();
    for port in 0..UDP_CACHE_CAPACITY as u16 {
        assert_eq!(t.open_session([10, 13, 0, 1], port), (port as u64, None));
    }
    assert_eq!(t.len(), 100);
    // port 0 becomes the most recently used, so port 1 is the oldest
    assert_eq!(t.session_for([10, 13, 0, 1], 0), Some(0));
    assert_eq!(t.open_session([10, 13, 0, 2], 7), (100, Some(1)));
    assert_eq!(t.len(), 100);
    assert!(!t.contains([10, 13, 0, 1], 1));
    assert!(t.contains([10, 13, 0, 1], 0));
    assert!(t.contains([10, 13, 0, 2], 7));
}

#[test]
fn expired_session_is_gone() {
    let mut t = UdpSessions::new();
    t.open_session([10, 13, 0, 1], 1);
    t.open_session([10, 13, 0, 1], 2);
    assert_eq!(t.expire([10, 13, 0, 1], 1), Some(0));
    assert_eq!(t.expire([10, 13, 0, 1], 1), None);
    assert!(!t.contains([10, 13, 0, 1], 1));
    assert_eq!(t.session_for([10, 13, 0, 1], 2), Some(1));
    assert_eq!(t.len(), 1);
}

#[test]
fn session_numbers_are_not_reused() {
    let mut t = UdpSessions::new();
    t.open_session([10, 13, 0, 1], 1);
    t.expire([10, 13, 0, 1], 1);
    assert_eq!(t.open_session([10, 13, 0, 1], 1), (1, None));
}
