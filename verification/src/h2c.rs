//! State machine for reaching a plaintext HTTP/2 gRPC upstream through an
//! HTTP/1.1 protocol upgrade ("h2c").
//!
//! The connection starts with an HTTP/1.1 request carrying an `Upgrade: h2c`
//! header.  Only a `101 Switching Protocols` answer lets the channel take
//! ownership of the underlying byte stream and run an HTTP/2-only handshake
//! over it; any other status, and any handshake failure, is fatal for that
//! connection attempt.  The driver that performs the actual network I/O feeds
//! events into [`step`] and carries out the action it returns.

use vstd::prelude::*;

verus! {

/// The HTTP status code that accepts a protocol upgrade.
pub const SWITCHING_PROTOCOLS: u16 = 101;

/// Phase of one h2c connection attempt.
#[derive(Clone, Copy, PartialEq, Eq, Structural, Debug)]
pub enum UpgradeState {
    /// Nothing sent yet.
    Idle,
    /// The HTTP/1.1 upgrade request is out; waiting for the status line.
    AwaitingUpgrade,
    /// The peer switched protocols; the byte stream is ours, the HTTP/2
    /// handshake may begin.
    Upgraded,
    /// The HTTP/2 connection is established and can carry gRPC requests.
    Ready,
    /// The attempt is over; no action may revive it.
    Failed,
}

/// What the I/O driver observed.
#[derive(Clone, Copy, PartialEq, Eq, Structural, Debug)]
pub enum UpgradeEvent {
    /// The caller wants a connection.
    Start,
    /// The status code of the HTTP/1.1 response to the upgrade request.
    UpgradeResponse(u16),
    /// The HTTP/2 handshake over the upgraded stream succeeded.
    HandshakeOk,
    /// The HTTP/2 handshake over the upgraded stream failed.
    HandshakeFailed,
    /// The upgraded stream closed.
    StreamClosed,
}

/// What the I/O driver must do next.
#[derive(Clone, Copy, PartialEq, Eq, Structural, Debug)]
pub enum UpgradeAction {
    /// Send the HTTP/1.1 request with the `Upgrade: h2c` header.
    SendUpgradeRequest,
    /// Take the upgraded byte stream and run an HTTP/2-only handshake on it.
    BeginHttp2Handshake,
    /// Spawn the task that drives the connection's I/O for its lifetime.
    DriveConnection,
    /// Give up this connection attempt and report the failure.
    Abort,
}

/// The transition relation of the upgrade sequence.  Every event that a
/// phase does not expect aborts the attempt.
pub open spec fn spec_step(s: UpgradeState, e: UpgradeEvent) -> (UpgradeState, UpgradeAction) {
    match (s, e) {
        (UpgradeState::Idle, UpgradeEvent::Start) => (
            UpgradeState::AwaitingUpgrade,
            UpgradeAction::SendUpgradeRequest,
        ),
        (UpgradeState::AwaitingUpgrade, UpgradeEvent::UpgradeResponse(code)) => {
            if code == SWITCHING_PROTOCOLS {
                (UpgradeState::Upgraded, UpgradeAction::BeginHttp2Handshake)
            } else {
                (UpgradeState::Failed, UpgradeAction::Abort)
            }
        },
        (UpgradeState::Upgraded, UpgradeEvent::HandshakeOk) => (
            UpgradeState::Ready,
            UpgradeAction::DriveConnection,
        ),
        _ => (UpgradeState::Failed, UpgradeAction::Abort),
    }
}

/// Advance one h2c connection attempt by one observed event.
pub fn step(s: UpgradeState, e: UpgradeEvent) -> (r: (UpgradeState, UpgradeAction))
    ensures
        r == spec_step(s, e),
{
    match (s, e) {
        (UpgradeState::Idle, UpgradeEvent::Start) => (
            UpgradeState::AwaitingUpgrade,
            UpgradeAction::SendUpgradeRequest,
        ),
        (UpgradeState::AwaitingUpgrade, UpgradeEvent::UpgradeResponse(code)) => {
            if code == SWITCHING_PROTOCOLS {
                (UpgradeState::Upgraded, UpgradeAction::BeginHttp2Handshake)
            } else {
                (UpgradeState::Failed, UpgradeAction::Abort)
            }
        },
        (UpgradeState::Upgraded, UpgradeEvent::HandshakeOk) => (
            UpgradeState::Ready,
            UpgradeAction::DriveConnection,
        ),
        _ => (UpgradeState::Failed, UpgradeAction::Abort),
    }
}

/// The channel becomes ready only by completing the HTTP/2 handshake on an
/// upgraded stream: no other phase or event reaches `Ready`.
pub proof fn lemma_ready_needs_handshake(s: UpgradeState, e: UpgradeEvent)
    ensures
        spec_step(s, e).0 == UpgradeState::Ready ==> s == UpgradeState::Upgraded
            && e == UpgradeEvent::HandshakeOk,
{
}

/// The stream is upgraded only when the peer answered the upgrade request
/// with `101 Switching Protocols`; every other status aborts the attempt.
pub proof fn lemma_upgrade_needs_switching_protocols(s: UpgradeState, e: UpgradeEvent)
    ensures
        spec_step(s, e).0 == UpgradeState::Upgraded ==> s == UpgradeState::AwaitingUpgrade
            && e == UpgradeEvent::UpgradeResponse(SWITCHING_PROTOCOLS),
{
}

/// A failed attempt stays failed: no event revives it.
pub proof fn lemma_failure_is_final(e: UpgradeEvent)
    ensures
        spec_step(UpgradeState::Failed, e).0 == UpgradeState::Failed,
{
}

} // verus!
