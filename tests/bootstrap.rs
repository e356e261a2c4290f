use mqtt_bootstrap::credential::NulTerminatedCredential;
use mqtt_bootstrap::error::{CoreError, HandshakeSubcode, PublishOutcome};
use mqtt_bootstrap::link::{LinkConnector, LinkFailure, LinkState};
use mqtt_bootstrap::orchestrator::{
    Action, DeviceConfig, Event, Phase, PublishOrchestrator, PublishRecord, QoS,
};
use mqtt_bootstrap::session::{
    has_pem_header, has_prefix, open, ProtocolVersion, SessionConfig, TrustAnchor,
};

/// A PEM block labelled `label` around `body`, assembled piece by piece.
fn pem_block(label: &str, body: &str) -> Vec<u8> {
    let dashes = "-".repeat(5);
    format!("{d}BEGIN {l}{d}\n{b}\n{d}END {l}{d}\n", d = dashes, l = label, b = body).into_bytes()
}

fn cert() -> Vec<u8> {
    pem_block("CERTIFICATE", "test certificate body")
}

fn key() -> Vec<u8> {
    pem_block("TEST KEY", "test key body")
}

fn device(max_polls: u32) -> DeviceConfig {
    DeviceConfig {
        ssid: "home-network".to_string(),
        passphrase: "correct horse".to_string(),
        poll_interval_ms: 1000,
        max_polls,
        endpoint: "mqtts://broker.example.net:8883".to_string(),
        client_id: "esp32".to_string(),
        session_timeout_ms: 10_000,
        topic: "$me/device/events".to_string(),
        payload: b"Hello".to_vec(),
    }
}

fn orchestrator(key: &[u8], max_polls: u32) -> PublishOrchestrator {
    PublishOrchestrator::new(device(max_polls), cert(), key.to_vec()).unwrap()
}

/// Drives a cycle up to the poll that follows the request to associate.
fn bring_up(o: &mut PublishOrchestrator) {
    assert_eq!(o.step(Event::Begin), Action::Configure);
    assert_eq!(o.step(Event::Configured(true)), Action::Start);
    assert_eq!(o.step(Event::Started(true)), Action::Connect);
    assert_eq!(o.step(Event::ConnectRequested(true)), Action::Poll);
}

fn session_config(cert: &[u8], key: &[u8]) -> SessionConfig {
    SessionConfig::build(
        "mqtts://broker.example.net:8883".to_string(),
        "esp32".to_string(),
        NulTerminatedCredential::load(cert.to_vec()),
        NulTerminatedCredential::load(key.to_vec()),
        TrustAnchor::SystemBundle,
        5000,
    )
    .unwrap()
}

fn connected_link() -> LinkConnector {
    let mut link = LinkConnector::new(3);
    link.configure(true).unwrap();
    link.start(true).unwrap();
    link.connect(true).unwrap();
    assert_eq!(link.poll_connected(true), Ok(true));
    link
}

#[test]
fn load_appends_exactly_one_nul() {
    let c = NulTerminatedCredential::load(cert());
    let mut expected = cert();
    expected.push(0);
    assert_eq!(c.as_bytes(), expected.as_slice());
    assert_eq!(c.len(), cert().len() + 1);
}

#[test]
fn load_view_stays_valid_while_credential_lives() {
    let c = NulTerminatedCredential::load(key());
    let view = c.as_bytes();
    let again = c.as_bytes();
    assert_eq!(view.as_ptr(), again.as_ptr());
    assert_eq!(view.last(), Some(&0u8));
    assert_eq!(&view[..key().len()], &key());
}

#[test]
fn load_cuts_text_at_first_nul() {
    let c = NulTerminatedCredential::load(vec![65, 66, 0, 67, 0]);
    assert_eq!(c.as_bytes(), &[65, 66, 0]);
}

#[test]
fn load_of_empty_bytes_is_one_nul() {
    let c = NulTerminatedCredential::load(Vec::new());
    assert_eq!(c.as_bytes(), &[0]);
    assert_eq!(c.len(), 1);
}

#[test]
fn pem_header_is_recognised() {
    assert!(has_pem_header(&cert()));
    assert!(has_pem_header(format!("{}BEGIN ", "-".repeat(5)).as_bytes()));
    assert!(!has_pem_header(format!("{}BEGIN", "-".repeat(5)).as_bytes()));
    assert!(!has_pem_header(b"not a key"));
    assert!(!has_pem_header(b""));
    assert!(has_prefix(b"abc", b""));
    assert!(has_prefix(b"abc", b"ab"));
    assert!(!has_prefix(b"abc", b"abd"));
    assert!(!has_prefix(b"ab", b"abc"));
}

#[test]
fn build_pins_version_and_clean_session() {
    let c = session_config(&cert(), &key());
    assert_eq!(c.protocol_version, ProtocolVersion::V3_1_1);
    assert!(c.clean_session);
    assert_eq!(c.timeout_ms, 5000);
    assert_eq!(c.endpoint, "mqtts://broker.example.net:8883");
    assert_eq!(c.client_id, "esp32");
    assert!(c.check_credentials().is_ok());
}

#[test]
fn build_rejects_plain_endpoint_and_zero_timeout() {
    let plain = SessionConfig::build(
        "mqtt://broker.example.net:1883".to_string(),
        "esp32".to_string(),
        NulTerminatedCredential::load(cert()),
        NulTerminatedCredential::load(key()),
        TrustAnchor::SystemBundle,
        5000,
    );
    assert_eq!(plain.err(), Some(CoreError::ConfigError));
    let unbounded = SessionConfig::build(
        "mqtts://broker.example.net:8883".to_string(),
        "esp32".to_string(),
        NulTerminatedCredential::load(cert()),
        NulTerminatedCredential::load(key()),
        TrustAnchor::SystemBundle,
        0,
    );
    assert_eq!(unbounded.err(), Some(CoreError::ConfigError));
}

#[test]
fn pinned_trust_anchor_must_be_pem() {
    let c = SessionConfig::build(
        "mqtts://broker.example.net:8883".to_string(),
        "esp32".to_string(),
        NulTerminatedCredential::load(cert()),
        NulTerminatedCredential::load(key()),
        TrustAnchor::Pinned(NulTerminatedCredential::load(b"garbage".to_vec())),
        5000,
    )
    .unwrap();
    assert_eq!(c.check_credentials(), Err(CoreError::InvalidCredentialFormat));
}

#[test]
fn open_rejects_non_pem_key_whatever_the_handshake() {
    let c = session_config(&cert(), b"\x30\x82\x01\x22 raw der");
    let link = connected_link();
    assert!(matches!(open(&c, &link, Ok(())), Err(CoreError::InvalidCredentialFormat)));
    assert!(matches!(
        open(&c, &link, Err(HandshakeSubcode::TlsFailed)),
        Err(CoreError::InvalidCredentialFormat)
    ));
}

#[test]
fn open_yields_session_or_handshake_error() {
    let c = session_config(&cert(), &key());
    let link = connected_link();
    let s = open(&c, &link, Ok(())).ok().unwrap();
    assert!(!s.published());
    for sub in [
        HandshakeSubcode::DnsFailed,
        HandshakeSubcode::ConnectFailed,
        HandshakeSubcode::TlsFailed,
        HandshakeSubcode::CertificateRejected,
        HandshakeSubcode::BrokerRejected,
    ] {
        assert!(matches!(open(&c, &link, Err(sub)), Err(CoreError::HandshakeError(s)) if s == sub));
    }
}

#[test]
fn link_is_not_connected_before_connect() {
    let mut link = LinkConnector::new(2);
    assert!(!link.is_connected());
    link.configure(true).unwrap();
    assert!(!link.is_connected());
    link.start(true).unwrap();
    assert_eq!(link.state(), LinkState::Starting);
    assert!(!link.is_connected());
    link.connect(true).unwrap();
    assert_eq!(link.state(), LinkState::Associating);
    assert_eq!(link.poll_connected(false), Ok(false));
    assert!(!link.is_connected());
    assert_eq!(link.poll_connected(true), Ok(true));
    assert!(link.is_connected());
}

#[test]
fn link_failures_have_their_errors() {
    let mut a = LinkConnector::new(1);
    assert_eq!(a.configure(false), Err(CoreError::ConfigError));
    assert_eq!(a.state(), LinkState::Failed(LinkFailure::ConfigRejected));
    let mut b = LinkConnector::new(1);
    b.configure(true).unwrap();
    assert_eq!(b.start(false), Err(CoreError::LinkStartError));
    assert_eq!(b.state(), LinkState::Failed(LinkFailure::StartFailed));
    let mut c = LinkConnector::new(1);
    c.configure(true).unwrap();
    c.start(true).unwrap();
    assert_eq!(c.connect(false), Err(CoreError::LinkStartError));
    assert_eq!(c.state(), LinkState::Failed(LinkFailure::ConnectFailed));
    let mut d = LinkConnector::new(1);
    d.configure(true).unwrap();
    d.start(true).unwrap();
    d.connect(true).unwrap();
    assert_eq!(d.poll_connected(false), Err(CoreError::LinkTimeout));
    assert_eq!(d.state(), LinkState::Failed(LinkFailure::Timeout));
}

#[test]
fn status_event_is_at_least_once_and_not_retained() {
    let r = PublishRecord::status_event("t".to_string(), vec![1, 2]);
    assert_eq!(r.qos, QoS::AtLeastOnce);
    assert!(!r.retain);
    assert_eq!(r.topic, "t");
    assert_eq!(r.payload, vec![1, 2]);
}

#[test]
fn new_rejects_bad_link_parameters() {
    let mut empty = device(3);
    empty.ssid = String::new();
    let r = PublishOrchestrator::new(empty, cert(), key());
    assert_eq!(r.err(), Some(CoreError::ConfigError));
    let mut long = device(3);
    long.ssid = "s".repeat(33);
    assert!(PublishOrchestrator::new(long, vec![], vec![]).is_err());
    let mut longest = device(3);
    longest.ssid = "s".repeat(32);
    longest.passphrase = "p".repeat(64);
    assert!(PublishOrchestrator::new(longest, vec![], vec![]).is_ok());
    let mut pass = device(3);
    pass.passphrase = "p".repeat(65);
    assert!(PublishOrchestrator::new(pass, vec![], vec![]).is_err());
    assert!(PublishOrchestrator::new(device(0), vec![], vec![]).is_err());
    let mut plain = device(3);
    plain.endpoint = "mqtt://broker.example.net".to_string();
    assert!(PublishOrchestrator::new(plain, vec![], vec![]).is_err());
}

#[test]
fn new_prepares_an_idle_cycle() {
    let o = orchestrator(&key(), 3);
    assert_eq!(o.phase(), Phase::Idle);
    assert_eq!(o.outcome(), None);
    assert_eq!(o.ssid(), "home-network");
    assert_eq!(o.passphrase(), "correct horse");
    let mut key = key();
    key.push(0);
    assert_eq!(o.config().private_key.as_bytes(), key.as_slice());
    assert_eq!(o.record().qos, QoS::AtLeastOnce);
    assert_eq!(o.link().state(), LinkState::Uninitialized);
}

#[test]
fn run_succeeds_with_one_publish() {
    let mut o = orchestrator(&key(), 3);
    bring_up(&mut o);
    assert_eq!(o.step(Event::Polled(true)), Action::OpenSession);
    assert_eq!(o.step(Event::SessionOpened(Ok(()))), Action::Publish);
    assert_eq!(o.step(Event::Published(true)), Action::Finish);
    assert_eq!(o.outcome(), Some(Ok(PublishOutcome::Acknowledged)));
    assert_eq!(o.publish_calls(), 1);
    assert_eq!(o.open_calls(), 1);
    assert_eq!(o.phase(), Phase::Finished);
}

#[test]
fn unreachable_broker_is_a_connect_failure() {
    let mut o = orchestrator(&key(), 3);
    bring_up(&mut o);
    assert_eq!(o.step(Event::Polled(true)), Action::OpenSession);
    let a = o.step(Event::SessionOpened(Err(HandshakeSubcode::ConnectFailed)));
    assert_eq!(a, Action::Finish);
    assert_eq!(
        o.outcome(),
        Some(Err(CoreError::HandshakeError(HandshakeSubcode::ConnectFailed)))
    );
    assert_eq!(o.publish_calls(), 0);
}

#[test]
fn malformed_key_fails_before_session() {
    let mut o = orchestrator(b"key bytes without a header", 3);
    bring_up(&mut o);
    assert_eq!(o.step(Event::Polled(true)), Action::Finish);
    assert_eq!(o.outcome(), Some(Err(CoreError::InvalidCredentialFormat)));
    assert_eq!(o.open_calls(), 0);
    assert_eq!(o.publish_calls(), 0);
    assert!(o.link().is_connected());
}

#[test]
fn link_timeout_never_opens_session() {
    let mut o = orchestrator(&key(), 3);
    bring_up(&mut o);
    assert_eq!(o.step(Event::Polled(false)), Action::WaitThenPoll(1000));
    assert_eq!(o.step(Event::Polled(false)), Action::WaitThenPoll(1000));
    assert_eq!(o.step(Event::Polled(false)), Action::Finish);
    assert_eq!(o.outcome(), Some(Err(CoreError::LinkTimeout)));
    assert_eq!(o.open_calls(), 0);
    assert_eq!(o.publish_calls(), 0);
    assert_eq!(o.step(Event::SessionOpened(Ok(()))), Action::Ignore);
    assert_eq!(o.open_calls(), 0);
}

#[test]
fn publish_failure_counts_one_publish() {
    let mut o = orchestrator(&key(), 3);
    bring_up(&mut o);
    o.step(Event::Polled(true));
    o.step(Event::SessionOpened(Ok(())));
    assert_eq!(o.step(Event::Published(false)), Action::Finish);
    assert_eq!(o.outcome(), Some(Err(CoreError::PublishError)));
    assert_eq!(o.publish_calls(), 1);
}

#[test]
fn early_failures_publish_nothing() {
    let mut a = orchestrator(&key(), 3);
    a.step(Event::Begin);
    assert_eq!(a.step(Event::Configured(false)), Action::Finish);
    assert_eq!(a.outcome(), Some(Err(CoreError::ConfigError)));
    assert_eq!(a.publish_calls(), 0);
    let mut b = orchestrator(&key(), 3);
    b.step(Event::Begin);
    b.step(Event::Configured(true));
    assert_eq!(b.step(Event::Started(false)), Action::Finish);
    assert_eq!(b.outcome(), Some(Err(CoreError::LinkStartError)));
    let mut c = orchestrator(&key(), 3);
    c.step(Event::Begin);
    c.step(Event::Configured(true));
    c.step(Event::Started(true));
    assert_eq!(c.step(Event::ConnectRequested(false)), Action::Finish);
    assert_eq!(c.outcome(), Some(Err(CoreError::LinkStartError)));
    assert_eq!(c.publish_calls(), 0);
}

#[test]
fn unexpected_events_change_nothing() {
    let mut o = orchestrator(&key(), 3);
    assert_eq!(o.step(Event::Polled(true)), Action::Ignore);
    assert_eq!(o.step(Event::Published(true)), Action::Ignore);
    assert_eq!(o.phase(), Phase::Idle);
    assert_eq!(o.step(Event::Begin), Action::Configure);
    assert_eq!(o.step(Event::Begin), Action::Ignore);
    assert_eq!(o.phase(), Phase::Configuring);
}
