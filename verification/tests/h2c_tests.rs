use station_bridge::h2c::{step, UpgradeAction, UpgradeEvent, UpgradeState};

#[test]
fn happy_path_reaches_ready() {
    let (s, a) = step(UpgradeState::Idle, UpgradeEvent::Start);
    assert_eq!(s, UpgradeState::AwaitingUpgrade);
    assert_eq!(a, UpgradeAction::SendUpgradeRequest);

    let (s, a) = step(s, UpgradeEvent::UpgradeResponse(101));
    assert_eq!(s, UpgradeState::Upgraded);
    assert_eq!(a, UpgradeAction::BeginHttp2Handshake);

    let (s, a) = step(s, UpgradeEvent::HandshakeOk);
    assert_eq!(s, UpgradeState::Ready);
    assert_eq!(a, UpgradeAction::DriveConnection);
}

#[test]
fn any_status_but_101_aborts() {
    for code in [100u16, 200, 301, 400, 426, 500] {
        let (s, a) = step(UpgradeState::AwaitingUpgrade, UpgradeEvent::UpgradeResponse(code));
        assert_eq!(s, UpgradeState::Failed);
        assert_eq!(a, UpgradeAction::Abort);
    }
}

#[test]
fn handshake_failure_aborts() {
    let (s, a) = step(UpgradeState::Upgraded, UpgradeEvent::HandshakeFailed);
    assert_eq!(s, UpgradeState::Failed);
    assert_eq!(a, UpgradeAction::Abort);
}

#[test]
fn stream_closing_ends_the_connection() {
    let (s, a) = step(UpgradeState::Ready, UpgradeEvent::StreamClosed);
    assert_eq!(s, UpgradeState::Failed);
    assert_eq!(a, UpgradeAction::Abort);
}

#[test]
fn failure_is_final() {
    for e in [
        UpgradeEvent::Start,
        UpgradeEvent::UpgradeResponse(101),
        UpgradeEvent::HandshakeOk,
        UpgradeEvent::StreamClosed,
    ] {
        let (s, a) = step(UpgradeState::Failed, e);
        assert_eq!(s, UpgradeState::Failed);
        assert_eq!(a, UpgradeAction::Abort);
    }
}
