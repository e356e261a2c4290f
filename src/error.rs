//! The outcome and error surface of one bootstrap cycle.
use vstd::prelude::*;

verus! {

/// Why opening the secure session failed, kept apart so that a link problem,
/// a trust problem and a broker-side rejection can be told apart.
#[derive(Clone, Copy, Debug, PartialEq, Eq, Structural)]
pub enum HandshakeSubcode {
    /// The broker's host name did not resolve.
    DnsFailed,
    /// No TCP connection could be made to the broker's endpoint.
    ConnectFailed,
    /// The TLS handshake itself failed.
    TlsFailed,
    /// The broker's certificate did not validate against the trust anchor.
    CertificateRejected,
    /// The broker refused the session.
    BrokerRejected,
}

/// Every way a cycle can end without success.
#[derive(Clone, Copy, Debug, PartialEq, Eq, Structural)]
pub enum CoreError {
    /// Static parameters are unusable, or the radio rejected them.
    ConfigError,
    /// The wireless driver failed to start or to request association.
    LinkStartError,
    /// The link did not associate within the polling bound.
    LinkTimeout,
    /// The secure session could not be opened.
    HandshakeError(HandshakeSubcode),
    /// The broker client did not accept the publish.
    PublishError,
    /// A credential is not PEM text.
    InvalidCredentialFormat,
}

/// How a successful cycle ended.
#[derive(Clone, Copy, Debug, PartialEq, Eq, Structural)]
pub enum PublishOutcome {
    /// The single status event was handed over and acknowledged.
    Acknowledged,
}

} // verus!
