//! Assembling the parameters of the secure session and deciding what opening
//! it gave.
use vstd::prelude::*;
use vstd::utf8::encode_utf8;
use crate::credential::{lemma_text_len, nul_free, nul_terminated_of, text_len, NulTerminatedCredential};
use crate::error::{CoreError, HandshakeSubcode};
use crate::link::LinkConnector;

verus! {

/// The bytes that open a PEM block: `-----BEGIN `.
pub open spec fn pem_header() -> Seq<u8> {
    seq![45u8, 45, 45, 45, 45, 66, 69, 71, 73, 78, 32]
}

/// The scheme of an endpoint reached over TLS: `mqtts://`.
pub open spec fn secure_scheme() -> Seq<u8> {
    seq![109u8, 113, 116, 116, 115, 58, 47, 47]
}

/// Whether `s` begins with `p`.
pub open spec fn starts_with(s: Seq<u8>, p: Seq<u8>) -> bool {
    p.len() <= s.len() && s.subrange(0, p.len() as int) == p
}

/// Whether credential bytes `s` are PEM text.
pub open spec fn is_pem(s: Seq<u8>) -> bool {
    starts_with(s, pem_header())
}

/// Loading keeps whether credential bytes are PEM text: the header holds no
/// NUL byte, so cutting the text at its first NUL byte and appending one
/// neither makes nor breaks it. Raw bytes that are not PEM text therefore
/// always make [`open`] fail with `InvalidCredentialFormat`.
pub proof fn lemma_load_keeps_pem(raw: Seq<u8>)
    ensures
        is_pem(nul_terminated_of(raw)) == is_pem(raw),
{
    let h = pem_header();
    let t = nul_terminated_of(raw);
    let k = text_len(raw);
    let hl = h.len() as int;
    lemma_text_len(raw);
    assert(0 <= k <= raw.len());
    assert(nul_free(raw.subrange(0, k)));
    assert(t.len() == k + 1);
    assert(forall|j: int| 0 <= j < k ==> t[j] == raw[j]);
    if is_pem(raw) {
        if k < hl {
            if k < raw.len() {
                assert(raw[k] == 0);
                assert(raw.subrange(0, hl)[k] == raw[k]);
            }
        }
        assert(k >= hl);
        assert(t.subrange(0, hl) =~= h);
    }
    if is_pem(t) {
        if k < hl {
            assert(t.subrange(0, hl)[k] == t[k]);
            assert(t[k] == 0);
        }
        assert(raw.subrange(0, hl) =~= h);
    }
}

/// Whether `s` begins with `p`.
pub fn has_prefix(s: &[u8], p: &[u8]) -> (r: bool)
    ensures
        r == starts_with(s@, p@),
{
    if p.len() > s.len() {
        return false;
    }
    let mut i: usize = 0;
    while i < p.len()
        invariant
            p@.len() <= s@.len(),
            i <= p@.len(),
            s@.subrange(0, i as int) == p@.subrange(0, i as int),
        decreases p@.len() - i,
    {
        if s[i] != p[i] {
            assert(s@.subrange(0, p@.len() as int)[i as int] != p@[i as int]);
            return false;
        }
        assert(s@.subrange(0, i + 1) == s@.subrange(0, i as int).push(s@[i as int]));
        assert(p@.subrange(0, i + 1) == p@.subrange(0, i as int).push(p@[i as int]));
        i = i + 1;
    }
    assert(p@.subrange(0, p@.len() as int) == p@);
    true
}

/// Whether `s` opens with a PEM block header.
pub fn has_pem_header(s: &[u8]) -> (r: bool)
    ensures
        r == is_pem(s@),
{
    let header: [u8; 11] = [45u8, 45, 45, 45, 45, 66, 69, 71, 73, 78, 32];
    assert(header@ == pem_header());
    has_prefix(s, header.as_slice())
}

/// The wire version of the messaging protocol. It is fixed by the
/// configuration, never negotiated.
#[derive(Clone, Copy, Debug, PartialEq, Eq, Structural)]
pub enum ProtocolVersion {
    V3_1,
    V3_1_1,
}

/// The one trust path that validates the broker's certificate.
pub enum TrustAnchor {
    /// The platform's bundle of certificate authorities.
    SystemBundle,
    /// A certificate pinned by the device.
    Pinned(NulTerminatedCredential),
}

/// Whether the trust material of `t` is usable: the system bundle always is,
/// a pinned certificate when it is PEM text.
pub open spec fn trust_is_pem(t: TrustAnchor) -> bool {
    match t {
        TrustAnchor::SystemBundle => true,
        TrustAnchor::Pinned(c) => is_pem(c@),
    }
}

/// Everything the secure transport needs to open a session.
pub struct SessionConfig {
    pub endpoint: String,
    pub protocol_version: ProtocolVersion,
    pub client_id: String,
    pub clean_session: bool,
    pub trust: TrustAnchor,
    pub client_certificate: NulTerminatedCredential,
    pub private_key: NulTerminatedCredential,
    /// The bound on the whole attempt to open the session.
    pub timeout_ms: u32,
}

/// Whether the static parameters can make a session: the endpoint is
/// reached over TLS and the attempt is bounded in time.
pub open spec fn params_valid(endpoint: Seq<char>, timeout_ms: u32) -> bool {
    starts_with(encode_utf8(endpoint), secure_scheme()) && timeout_ms > 0
}

/// Whether every credential of `c` is PEM text.
pub open spec fn credentials_are_pem(c: SessionConfig) -> bool {
    &&& is_pem(c.client_certificate@)
    &&& is_pem(c.private_key@)
    &&& trust_is_pem(c.trust)
}

impl SessionConfig {
    /// Whether `self` is one that [`SessionConfig::build`] can return.
    pub open spec fn valid(&self) -> bool {
        &&& params_valid(self.endpoint@, self.timeout_ms)
        &&& self.protocol_version == ProtocolVersion::V3_1_1
        &&& self.clean_session
    }

    /// Assembles the parameters of a session with protocol version 3.1.1 and
    /// a clean session. Fails with `ConfigError` unless the endpoint uses
    /// the `mqtts://` scheme and the timeout is positive. Nothing is
    /// checked of the credentials here, and nothing is sent.
    pub fn build(
        endpoint: String,
        client_id: String,
        client_certificate: NulTerminatedCredential,
        private_key: NulTerminatedCredential,
        trust: TrustAnchor,
        timeout_ms: u32,
    ) -> (r: Result<SessionConfig, CoreError>)
        ensures
            params_valid(endpoint@, timeout_ms) <==> r is Ok,
            !params_valid(endpoint@, timeout_ms) ==> r == Err::<SessionConfig, CoreError>(CoreError::ConfigError),
            r matches Ok(c) ==> {
                &&& c.valid()
                &&& c.endpoint@ == endpoint@
                &&& c.client_id@ == client_id@
                &&& c.client_certificate@ == client_certificate@
                &&& c.private_key@ == private_key@
                &&& c.trust == trust
                &&& c.timeout_ms == timeout_ms
            },
    {
        let scheme: [u8; 8] = [109u8, 113, 116, 116, 115, 58, 47, 47];
        assert(scheme@ == secure_scheme());
        let secure = has_prefix(endpoint.as_str().as_bytes(), scheme.as_slice());
        if !secure || timeout_ms == 0 {
            return Err(CoreError::ConfigError);
        }
        Ok(SessionConfig {
            endpoint,
            protocol_version: ProtocolVersion::V3_1_1,
            client_id,
            clean_session: true,
            trust,
            client_certificate,
            private_key,
            timeout_ms,
        })
    }

    /// Checks, before any network traffic, that every credential is PEM
    /// text; fails with `InvalidCredentialFormat` where one is not.
    pub fn check_credentials(&self) -> (r: Result<(), CoreError>)
        ensures
            credentials_are_pem(*self) <==> r is Ok,
            !credentials_are_pem(*self) ==> r == Err::<(), CoreError>(CoreError::InvalidCredentialFormat),
    {
        let trust_ok = match &self.trust {
            TrustAnchor::SystemBundle => true,
            TrustAnchor::Pinned(c) => has_pem_header(c.as_bytes()),
        };
        if trust_ok && has_pem_header(self.client_certificate.as_bytes())
            && has_pem_header(self.private_key.as_bytes()) {
            Ok(())
        } else {
            Err(CoreError::InvalidCredentialFormat)
        }
    }
}

/// A live, authenticated channel to the broker. It carries at most one
/// publish.
pub struct SecureSession {
    published: bool,
}

impl View for SecureSession {
    /// Whether the session has carried its publish.
    type V = bool;

    closed spec fn view(&self) -> bool {
        self.published
    }
}

impl SecureSession {
    /// Whether the session has carried its publish.
    pub fn published(&self) -> (r: bool)
        ensures
            r == self@,
    {
        self.published
    }

    /// Records that the session carried its publish.
    pub fn mark_published(&mut self)
        requires
            !old(self)@,
        ensures
            final(self)@,
    {
        self.published = true;
    }
}

/// The result of opening a session over a connected link, where `handshake`
/// is what the transport reported. Credentials that are not PEM text fail
/// with `InvalidCredentialFormat` whatever the handshake gave; otherwise the
/// result is a fresh session or a `HandshakeError` with the transport's
/// subcode, nothing else.
pub fn open(
    config: &SessionConfig,
    link: &LinkConnector,
    handshake: Result<(), HandshakeSubcode>,
) -> (r: Result<SecureSession, CoreError>)
    requires
        link@.state is Connected,
    ensures
        !credentials_are_pem(*config) ==> r == Err::<SecureSession, CoreError>(CoreError::InvalidCredentialFormat),
        credentials_are_pem(*config) && handshake is Ok ==> (r matches Ok(s) && !s@),
        credentials_are_pem(*config) ==> forall|e: HandshakeSubcode| handshake == Err::<(), HandshakeSubcode>(e)
            ==> r == Err::<SecureSession, CoreError>(CoreError::HandshakeError(e)),
{
    match config.check_credentials() {
        Err(e) => Err(e),
        Ok(()) => match handshake {
            Ok(()) => Ok(SecureSession { published: false }),
            Err(sub) => Err(CoreError::HandshakeError(sub)),
        },
    }
}

} // verus!
