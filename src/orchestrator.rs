//! One bootstrap cycle: bring the link up, open the session, publish once.
//!
//! The cycle is a state machine. The caller performs each [`Action`] that
//! [`PublishOrchestrator::step`] returns on the radio, the transport or the
//! broker client, and reports what happened as the next [`Event`].
use vstd::prelude::*;
use vstd::utf8::encode_utf8;
use crate::credential::{nul_terminated_of, NulTerminatedCredential};
use crate::error::{CoreError, HandshakeSubcode, PublishOutcome};
use crate::link::{link_wf, LinkConnector, LinkFailure, LinkModel, LinkState};
use crate::session::{
    credentials_are_pem, is_pem, open, params_valid, SecureSession, SessionConfig, TrustAnchor,
};

verus! {

/// The delivery guarantee requested for a publish.
#[derive(Clone, Copy, Debug, PartialEq, Eq, Structural)]
pub enum QoS {
    AtMostOnce,
    AtLeastOnce,
    ExactlyOnce,
}

/// One message for the broker.
pub struct PublishRecord {
    pub topic: String,
    pub qos: QoS,
    pub retain: bool,
    pub payload: Vec<u8>,
}

impl PublishRecord {
    /// A status event: delivered at least once, not retained.
    pub fn status_event(topic: String, payload: Vec<u8>) -> (r: PublishRecord)
        ensures
            r.topic@ == topic@,
            r.payload@ == payload@,
            r.qos == QoS::AtLeastOnce,
            !r.retain,
    {
        PublishRecord { topic, qos: QoS::AtLeastOnce, retain: false, payload }
    }
}

/// The static configuration of a device, supplied at startup.
pub struct DeviceConfig {
    pub ssid: String,
    pub passphrase: String,
    /// The pause before each poll that follows one that found the link not
    /// yet associated.
    pub poll_interval_ms: u32,
    /// How many polls that find the link not associated end the wait.
    pub max_polls: u32,
    pub endpoint: String,
    pub client_id: String,
    /// The bound on the attempt to open the session.
    pub session_timeout_ms: u32,
    pub topic: String,
    pub payload: Vec<u8>,
}

/// Whether the radio can take the network name and passphrase: a name of 1
/// to 32 bytes, a passphrase of at most 64.
pub open spec fn link_params_valid(ssid: Seq<char>, passphrase: Seq<char>) -> bool {
    1 <= encode_utf8(ssid).len() <= 32 && encode_utf8(passphrase).len() <= 64
}

/// Whether a cycle can be prepared from `d`.
pub open spec fn device_valid(d: DeviceConfig) -> bool {
    &&& link_params_valid(d.ssid@, d.passphrase@)
    &&& d.poll_interval_ms > 0
    &&& d.max_polls > 0
    &&& params_valid(d.endpoint@, d.session_timeout_ms)
}

/// Where a cycle stands.
#[derive(Clone, Copy, Debug, PartialEq, Eq, Structural)]
pub enum Phase {
    Idle,
    Configuring,
    Starting,
    Connecting,
    Waiting,
    Opening,
    Publishing,
    Finished,
}

/// What the caller reports after performing an action.
#[derive(Clone, Copy, Debug, PartialEq, Eq)]
pub enum Event {
    /// The cycle is to begin.
    Begin,
    /// Whether the radio accepted the network parameters.
    Configured(bool),
    /// Whether the driver started.
    Started(bool),
    /// Whether the driver accepted the request to associate.
    ConnectRequested(bool),
    /// Whether a poll found the link associated.
    Polled(bool),
    /// What the transport reported of the handshake.
    SessionOpened(Result<(), HandshakeSubcode>),
    /// Whether the broker client accepted the publish.
    Published(bool),
}

/// What the caller is to do next.
#[derive(Clone, Copy, Debug, PartialEq, Eq, Structural)]
pub enum Action {
    /// Hand the network name and passphrase to the radio.
    Configure,
    /// Start the driver.
    Start,
    /// Ask the driver to associate.
    Connect,
    /// Poll whether association has completed.
    Poll,
    /// Report the radio's configuration, pause for the given milliseconds,
    /// then poll.
    WaitThenPoll(u32),
    /// Open the session with the configuration at hand.
    OpenSession,
    /// Publish the record over the session.
    Publish,
    /// The cycle is over; its outcome is at hand.
    Finish,
    /// The event was not one the cycle awaited; nothing changed.
    Ignore,
}

/// The abstract state of a [`PublishOrchestrator`].
pub struct RunModel {
    pub phase: Phase,
    pub link: LinkModel,
    pub poll_interval_ms: u32,
    /// The client certificate as the transport receives it.
    pub certificate: Seq<u8>,
    /// The private key as the transport receives it.
    pub private_key: Seq<u8>,
    /// Whether every credential of the session is PEM text.
    pub credentials_pem: bool,
    /// Sessions that were asked to open.
    pub open_calls: u32,
    /// Publishes that were asked for.
    pub publish_calls: u32,
    pub outcome: Option<Result<PublishOutcome, CoreError>>,
}

/// Whether `e` ends a cycle before the session is asked to open.
pub open spec fn before_session(e: CoreError) -> bool {
    e is ConfigError || e is LinkStartError || e is LinkTimeout || e is InvalidCredentialFormat
}

/// The invariant of every cycle.
pub open spec fn run_inv(m: RunModel) -> bool {
    &&& link_wf(m.link)
    &&& m.poll_interval_ms > 0
    &&& m.publish_calls <= m.open_calls <= 1
    &&& m.open_calls == 1 ==> m.link.state is Connected && m.credentials_pem
    &&& (m.phase is Finished <==> m.outcome is Some)
    &&& (m.phase is Idle || m.phase is Configuring) ==> m.link.state is Uninitialized
    &&& m.phase is Starting ==> m.link.state is Configured
    &&& m.phase is Connecting ==> m.link.state is Starting
    &&& m.phase is Waiting ==> m.link.state is Associating
    &&& !(m.phase is Opening || m.phase is Publishing || m.phase is Finished) ==> m.open_calls == 0
    &&& m.phase is Opening ==> m.open_calls == 1 && m.publish_calls == 0
    &&& m.phase is Publishing ==> m.publish_calls == 1
    &&& m.outcome matches Some(Ok(_)) ==> m.publish_calls == 1
    &&& m.outcome == Some(Err::<PublishOutcome, CoreError>(CoreError::PublishError)) ==> m.publish_calls == 1
    &&& (m.outcome matches Some(Err(e)) && e != CoreError::PublishError) ==> m.publish_calls == 0
    &&& (m.outcome matches Some(Err(e)) && before_session(e)) ==> m.open_calls == 0
    &&& (m.outcome matches Some(Err(e)) && e is HandshakeError) ==> m.open_calls == 1
}

/// `m` with the link in `state`.
pub open spec fn with_link_state(m: RunModel, state: LinkState) -> RunModel {
    RunModel { link: LinkModel { state, ..m.link }, ..m }
}

/// The end of a cycle at `m` with `outcome`.
pub open spec fn finish(m: RunModel, outcome: Result<PublishOutcome, CoreError>) -> (RunModel, Action) {
    (RunModel { phase: Phase::Finished, outcome: Some(outcome), ..m }, Action::Finish)
}

/// What event `e` does to a cycle at `m`: the next state and the action
/// asked of the caller.
pub open spec fn transition(m: RunModel, e: Event) -> (RunModel, Action) {
    match e {
        Event::Begin => if m.phase is Idle {
            (RunModel { phase: Phase::Configuring, ..m }, Action::Configure)
        } else {
            (m, Action::Ignore)
        },
        Event::Configured(ok) => if !(m.phase is Configuring) {
            (m, Action::Ignore)
        } else if ok {
            (RunModel { phase: Phase::Starting, ..with_link_state(m, LinkState::Configured) }, Action::Start)
        } else {
            finish(with_link_state(m, LinkState::Failed(LinkFailure::ConfigRejected)), Err(CoreError::ConfigError))
        },
        Event::Started(ok) => if !(m.phase is Starting) {
            (m, Action::Ignore)
        } else if ok {
            let n = with_link_state(m, LinkState::Starting);
            (RunModel { phase: Phase::Connecting, link: LinkModel { started: true, ..n.link }, ..n }, Action::Connect)
        } else {
            finish(with_link_state(m, LinkState::Failed(LinkFailure::StartFailed)), Err(CoreError::LinkStartError))
        },
        Event::ConnectRequested(ok) => if !(m.phase is Connecting) {
            (m, Action::Ignore)
        } else if ok {
            let l = LinkModel { state: LinkState::Associating, connect_requested: true, polls: 0, ..m.link };
            (RunModel { phase: Phase::Waiting, link: l, ..m }, Action::Poll)
        } else {
            let l = LinkModel { state: LinkState::Failed(LinkFailure::ConnectFailed), polls: 0, ..m.link };
            finish(RunModel { link: l, ..m }, Err(CoreError::LinkStartError))
        },
        Event::Polled(associated) => if !(m.phase is Waiting) {
            (m, Action::Ignore)
        } else if associated {
            let n = with_link_state(m, LinkState::Connected);
            if n.credentials_pem {
                (RunModel { phase: Phase::Opening, open_calls: 1, ..n }, Action::OpenSession)
            } else {
                finish(n, Err(CoreError::InvalidCredentialFormat))
            }
        } else if m.link.polls + 1 < m.link.max_polls {
            let l = LinkModel { polls: (m.link.polls + 1) as u32, ..m.link };
            (RunModel { link: l, ..m }, Action::WaitThenPoll(m.poll_interval_ms))
        } else {
            let l = LinkModel {
                state: LinkState::Failed(LinkFailure::Timeout),
                polls: (m.link.polls + 1) as u32,
                ..m.link
            };
            finish(RunModel { link: l, ..m }, Err(CoreError::LinkTimeout))
        },
        Event::SessionOpened(h) => if !(m.phase is Opening) {
            (m, Action::Ignore)
        } else {
            match h {
                Ok(()) => (RunModel { phase: Phase::Publishing, publish_calls: 1, ..m }, Action::Publish),
                Err(sub) => finish(m, Err(CoreError::HandshakeError(sub))),
            }
        },
        Event::Published(ok) => if !(m.phase is Publishing) {
            (m, Action::Ignore)
        } else if ok {
            finish(m, Ok(PublishOutcome::Acknowledged))
        } else {
            finish(m, Err(CoreError::PublishError))
        },
    }
}

/// Every event keeps the invariant of a cycle, and the cycle asks for a
/// session or a publish only by returning `OpenSession` or `Publish`, each
/// of which raises its count by one.
pub proof fn lemma_transition_keeps_inv(m: RunModel, e: Event)
    requires
        run_inv(m),
    ensures
        run_inv(transition(m, e).0),
        transition(m, e).0.open_calls == m.open_calls + if transition(m, e).1 == Action::OpenSession { 1int } else { 0 },
        transition(m, e).0.publish_calls == m.publish_calls + if transition(m, e).1 == Action::Publish { 1int } else { 0 },
{
}

/// A finished cycle published exactly once if every step before the publish
/// succeeded, and not at all if one of them failed.
pub proof fn lemma_publish_once(m: RunModel)
    requires
        run_inv(m),
        m.phase is Finished,
    ensures
        (m.outcome matches Some(Ok(_)) || m.outcome == Some(Err::<PublishOutcome, CoreError>(CoreError::PublishError)))
            ==> m.publish_calls == 1,
        !(m.outcome matches Some(Ok(_)) || m.outcome == Some(Err::<PublishOutcome, CoreError>(CoreError::PublishError)))
            ==> m.publish_calls == 0,
{
}

/// A cycle whose credentials are not PEM text never asks for a session and
/// never succeeds.
pub proof fn lemma_bad_credentials_never_succeed(m: RunModel)
    requires
        run_inv(m),
        !m.credentials_pem,
    ensures
        m.open_calls == 0,
        m.publish_calls == 0,
        !(m.outcome matches Some(Ok(_))),
{
}

/// A cycle that ended for want of association never asked for a session.
pub proof fn lemma_timeout_never_opens(m: RunModel)
    requires
        run_inv(m),
        m.outcome == Some(Err::<PublishOutcome, CoreError>(CoreError::LinkTimeout)),
    ensures
        m.open_calls == 0,
        m.publish_calls == 0,
{
}

/// The wait for association is bounded: a cycle that keeps polling without
/// association ends in `LinkTimeout` at the poll that reaches the bound.
pub proof fn lemma_wait_is_bounded(m: RunModel)
    requires
        run_inv(m),
        m.phase is Waiting,
    ensures
        m.link.polls < m.link.max_polls,
        m.link.polls + 1 == m.link.max_polls ==> transition(m, Event::Polled(false)).0.outcome
            == Some(Err::<PublishOutcome, CoreError>(CoreError::LinkTimeout)),
        m.link.polls + 1 < m.link.max_polls ==> transition(m, Event::Polled(false)).0.link.polls
            == m.link.polls + 1,
{
}

/// Once the session is asked to open, the transport's report settles it:
/// a session ready to publish, or a `HandshakeError` with the transport's
/// subcode.
pub proof fn lemma_open_settles(m: RunModel, h: Result<(), HandshakeSubcode>)
    requires
        run_inv(m),
        m.phase is Opening,
    ensures
        h is Ok ==> transition(m, Event::SessionOpened(h)).0.phase is Publishing,
        h matches Err(sub) ==> transition(m, Event::SessionOpened(h)).0.outcome
            == Some(Err::<PublishOutcome, CoreError>(CoreError::HandshakeError(sub))),
{
}

/// Sequences one cycle and holds everything it needs.
pub struct PublishOrchestrator {
    ssid: String,
    passphrase: String,
    poll_interval_ms: u32,
    link: LinkConnector,
    config: SessionConfig,
    record: PublishRecord,
    session: Option<SecureSession>,
    phase: Phase,
    open_calls: u32,
    publish_calls: u32,
    outcome: Option<Result<PublishOutcome, CoreError>>,
}

impl View for PublishOrchestrator {
    type V = RunModel;

    closed spec fn view(&self) -> RunModel {
        RunModel {
            phase: self.phase,
            link: self.link@,
            poll_interval_ms: self.poll_interval_ms,
            certificate: self.config.client_certificate@,
            private_key: self.config.private_key@,
            credentials_pem: credentials_are_pem(self.config),
            open_calls: self.open_calls,
            publish_calls: self.publish_calls,
            outcome: self.outcome,
        }
    }
}

impl PublishOrchestrator {
    /// The invariant of the cycle, with what it keeps of the parts.
    pub closed spec fn wf(&self) -> bool {
        &&& run_inv(self@)
        &&& self.config.valid()
        &&& link_params_valid(self.ssid@, self.passphrase@)
        &&& self.record.qos == QoS::AtLeastOnce
        &&& !self.record.retain
        &&& self.phase is Publishing ==> (self.session matches Some(s) && s@)
    }

    /// Prepares a cycle: loads both credentials and assembles the session
    /// parameters, with the platform's certificate bundle as trust anchor.
    /// Fails with `ConfigError` where `device` is unusable; nothing is sent.
    pub fn new(device: DeviceConfig, certificate: Vec<u8>, private_key: Vec<u8>) -> (r: Result<
        PublishOrchestrator,
        CoreError,
    >)
        ensures
            device_valid(device) <==> r is Ok,
            !device_valid(device) ==> r == Err::<PublishOrchestrator, CoreError>(CoreError::ConfigError),
            r matches Ok(o) ==> {
                &&& o.wf()
                &&& o@.phase is Idle
                &&& o@.link.state is Uninitialized
                &&& o@.link.max_polls == device.max_polls
                &&& o@.poll_interval_ms == device.poll_interval_ms
                &&& o@.certificate == nul_terminated_of(certificate@)
                &&& o@.private_key == nul_terminated_of(private_key@)
                &&& o@.credentials_pem == (is_pem(o@.certificate) && is_pem(o@.private_key))
                &&& o@.open_calls == 0
                &&& o@.publish_calls == 0
                &&& o@.outcome is None
            },
    {
        let ssid = device.ssid.as_str();
        let passphrase = device.passphrase.as_str();
        let ssid_len = ssid.as_bytes().len();
        let passphrase_len = passphrase.as_bytes().len();
        if ssid_len < 1 || ssid_len > 32 || passphrase_len > 64 || device.poll_interval_ms == 0
            || device.max_polls == 0 {
            return Err(CoreError::ConfigError);
        }
        let cert = NulTerminatedCredential::load(certificate);
        let key = NulTerminatedCredential::load(private_key);
        let config = match SessionConfig::build(
            device.endpoint,
            device.client_id,
            cert,
            key,
            TrustAnchor::SystemBundle,
            device.session_timeout_ms,
        ) {
            Ok(c) => c,
            Err(e) => {
                return Err(e);
            },
        };
        Ok(PublishOrchestrator {
            ssid: device.ssid,
            passphrase: device.passphrase,
            poll_interval_ms: device.poll_interval_ms,
            link: LinkConnector::new(device.max_polls),
            config,
            record: PublishRecord::status_event(device.topic, device.payload),
            session: None,
            phase: Phase::Idle,
            open_calls: 0,
            publish_calls: 0,
            outcome: None,
        })
    }

    /// Ends the cycle with `outcome`.
    fn finish(&mut self, outcome: Result<PublishOutcome, CoreError>) -> (a: Action)
        ensures
            *final(self) == (PublishOrchestrator { phase: Phase::Finished, outcome: Some(outcome), ..*old(self) }),
            a == Action::Finish,
    {
        self.phase = Phase::Finished;
        self.outcome = Some(outcome);
        Action::Finish
    }

    /// Takes the caller's report `event` and returns what to do next. An
    /// event that the cycle does not await changes nothing.
    pub fn step(&mut self, event: Event) -> (a: Action)
        requires
            old(self).wf(),
        ensures
            final(self).wf(),
            (final(self)@, a) == transition(old(self)@, event),
    {
        match event {
            Event::Begin => {
                if self.phase == Phase::Idle {
                    self.phase = Phase::Configuring;
                    Action::Configure
                } else {
                    Action::Ignore
                }
            },
            Event::Configured(ok) => {
                if self.phase != Phase::Configuring {
                    return Action::Ignore;
                }
                match self.link.configure(ok) {
                    Ok(()) => {
                        self.phase = Phase::Starting;
                        Action::Start
                    },
                    Err(e) => self.finish(Err(e)),
                }
            },
            Event::Started(ok) => {
                if self.phase != Phase::Starting {
                    return Action::Ignore;
                }
                match self.link.start(ok) {
                    Ok(()) => {
                        self.phase = Phase::Connecting;
                        Action::Connect
                    },
                    Err(e) => self.finish(Err(e)),
                }
            },
            Event::ConnectRequested(ok) => {
                if self.phase != Phase::Connecting {
                    return Action::Ignore;
                }
                match self.link.connect(ok) {
                    Ok(()) => {
                        self.phase = Phase::Waiting;
                        Action::Poll
                    },
                    Err(e) => self.finish(Err(e)),
                }
            },
            Event::Polled(associated) => {
                if self.phase != Phase::Waiting {
                    return Action::Ignore;
                }
                match self.link.poll_connected(associated) {
                    Ok(true) => match self.config.check_credentials() {
                        Ok(()) => {
                            self.phase = Phase::Opening;
                            self.open_calls = 1;
                            Action::OpenSession
                        },
                        Err(e) => self.finish(Err(e)),
                    },
                    Ok(false) => Action::WaitThenPoll(self.poll_interval_ms),
                    Err(e) => self.finish(Err(e)),
                }
            },
            Event::SessionOpened(handshake) => {
                if self.phase != Phase::Opening {
                    return Action::Ignore;
                }
                match open(&self.config, &self.link, handshake) {
                    Ok(session) => {
                        let mut session = session;
                        session.mark_published();
                        self.session = Some(session);
                        self.phase = Phase::Publishing;
                        self.publish_calls = 1;
                        Action::Publish
                    },
                    Err(e) => self.finish(Err(e)),
                }
            },
            Event::Published(ok) => {
                if self.phase != Phase::Publishing {
                    return Action::Ignore;
                }
                if ok {
                    self.finish(Ok(PublishOutcome::Acknowledged))
                } else {
                    self.finish(Err(CoreError::PublishError))
                }
            },
        }
    }

    /// Where the cycle stands.
    pub fn phase(&self) -> (r: Phase)
        ensures
            r == self@.phase,
    {
        self.phase
    }

    /// How the cycle ended, once it has.
    pub fn outcome(&self) -> (r: Option<Result<PublishOutcome, CoreError>>)
        ensures
            r == self@.outcome,
    {
        self.outcome
    }

    /// How many sessions the cycle asked to open.
    pub fn open_calls(&self) -> (r: u32)
        ensures
            r == self@.open_calls,
    {
        self.open_calls
    }

    /// How many publishes the cycle asked for.
    pub fn publish_calls(&self) -> (r: u32)
        ensures
            r == self@.publish_calls,
    {
        self.publish_calls
    }

    /// The network name for the radio.
    pub fn ssid(&self) -> (r: &str)
        requires
            self.wf(),
        ensures
            1 <= encode_utf8(r@).len() <= 32,
    {
        self.ssid.as_str()
    }

    /// The passphrase for the radio.
    pub fn passphrase(&self) -> (r: &str)
        requires
            self.wf(),
        ensures
            encode_utf8(r@).len() <= 64,
    {
        self.passphrase.as_str()
    }

    /// The link as the cycle has driven it.
    pub fn link(&self) -> (r: &LinkConnector)
        ensures
            r@ == self@.link,
    {
        &self.link
    }

    /// The parameters for opening the session.
    pub fn config(&self) -> (r: &SessionConfig)
        requires
            self.wf(),
        ensures
            r.valid(),
            r.client_certificate@ == self@.certificate,
            r.private_key@ == self@.private_key,
            credentials_are_pem(*r) == self@.credentials_pem,
    {
        &self.config
    }

    /// The record to publish: delivered at least once, not retained.
    pub fn record(&self) -> (r: &PublishRecord)
        requires
            self.wf(),
        ensures
            r.qos == QoS::AtLeastOnce,
            !r.retain,
    {
        &self.record
    }
}

} // verus!
