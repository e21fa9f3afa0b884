use lan_play::reactor::{
    after_poll, is_going_to_close, readiness, timeout_check, wait_millis, PacketQueue, PollResult,
    SocketStatus, TcpState, TimeoutAction, MAX_QUEUE_SIZE,
};

#[test]
fn closing_states() {
    for s in [TcpState::Closed, TcpState::Listen, TcpState::SynSent, TcpState::SynReceived, TcpState::Established] {
        assert!(!is_going_to_close(s));
    }
    for s in [TcpState::FinWait1, TcpState::FinWait2, TcpState::CloseWait, TcpState::Closing, TcpState::LastAck, TcpState::TimeWait] {
        assert!(is_going_to_close(s));
    }
}

#[test]
fn socket_readiness() {
    let open = SocketStatus::Tcp { can_recv: true, can_send: false, state: TcpState::Established };
    assert_eq!(readiness(&open), Some((true, false)));
    let closing = SocketStatus::Tcp { can_recv: false, can_send: false, state: TcpState::CloseWait };
    assert_eq!(readiness(&closing), Some((true, true)));
    let raw = SocketStatus::Raw { can_recv: false, can_send: true };
    assert_eq!(readiness(&raw), Some((false, true)));
    assert_eq!(readiness(&SocketStatus::Other), None);
}

#[test]
fn reactor_sleep_and_poll_outcome() {
    assert_eq!(wait_millis(Some(25)), 25);
    assert_eq!(wait_millis(None), 10000);
    assert_eq!(after_poll(PollResult::Changed), (true, false));
    assert_eq!(after_poll(PollResult::Unchanged), (false, false));
    assert_eq!(after_poll(PollResult::Dropped), (false, false));
    assert_eq!(after_poll(PollResult::Failed), (false, true));
}

#[test]
fn idle_timeout() {
    assert_eq!(timeout_check(61, 60), TimeoutAction::Expired);
    assert_eq!(timeout_check(60, 60), TimeoutAction::Rearm(0));
    assert_eq!(timeout_check(15, 60), TimeoutAction::Rearm(45));
}

#[test]
fn packet_queue_hands_over_frames_in_order() {
    let mut q = PacketQueue::new();
    assert!(q.need_wait());
    q.set_received(Some(vec![1, 2]));
    assert!(!q.need_wait());
    assert_eq!(q.get_next(), Some(vec![1, 2]));
    assert_eq!(q.get_next(), None);
    assert!(q.need_wait());
    q.push_sent(vec![3]);
    q.push_sent(vec![4]);
    assert_eq!(q.drain(), vec![vec![3], vec![4]]);
    assert_eq!(q.drain(), Vec::<Vec<u8>>::new());
}

#[test]
fn packet_queue_limits_transmission() {
    let mut q = PacketQueue::new();
    for i in 0..MAX_QUEUE_SIZE {
        assert!(q.can_transmit());
        q.push_sent(vec![i as u8]);
    }
    assert!(!q.can_transmit());
    q.drain();
    assert!(q.can_transmit());
}
