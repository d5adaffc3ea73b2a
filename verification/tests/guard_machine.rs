use danmaku_relay::guard::{
    ConnectFailure, GuardAction, GuardEvent, GuardState, StreamFault, MAX_RETRY_CNT,
};

#[test]
fn gives_up_after_ten_retries() {
    let mut s = GuardState::new();
    for i in 0..MAX_RETRY_CNT {
        assert_eq!(
            s.step(GuardEvent::ConnectFailed(ConnectFailure::HandshakeError)),
            GuardAction::RetryAfterDelay { attempt: i, reason: ConnectFailure::HandshakeError }
        );
    }
    assert_eq!(
        s.step(GuardEvent::ConnectFailed(ConnectFailure::WsError)),
        GuardAction::GiveUp { attempt: 10, reason: ConnectFailure::WsError }
    );
    assert!(s.given_up);
    assert_eq!(s.step(GuardEvent::Connected), GuardAction::Halted);
    assert_eq!(s.step(GuardEvent::StreamEnded), GuardAction::Halted);
}

#[test]
fn connect_resets_the_count() {
    let mut s = GuardState::new();
    for _ in 0..7 {
        s.step(GuardEvent::ConnectFailed(ConnectFailure::HostListIsEmpty));
    }
    assert_eq!(s.retry_cnt, 7);
    assert_eq!(s.step(GuardEvent::Connected), GuardAction::ReadStream);
    assert_eq!(s, GuardState::new());
    assert_eq!(s.step(GuardEvent::StreamEnded), GuardAction::Connect);
    assert_eq!(
        s.step(GuardEvent::ConnectFailed(ConnectFailure::HostListIsEmpty)),
        GuardAction::RetryAfterDelay { attempt: 0, reason: ConnectFailure::HostListIsEmpty }
    );
}

#[test]
fn texts() {
    assert_eq!(ConnectFailure::HostListIsEmpty.reason(), "主机名单为空!");
    assert_eq!(ConnectFailure::HandshakeError.reason(), "握手错误!");
    assert_eq!(ConnectFailure::WsError.reason(), "ws错误");
    assert_eq!(StreamFault::ConnectionClosed.label(), "<连接被关闭>");
    assert_eq!(StreamFault::WsError.label(), "<连接错误>");
}
