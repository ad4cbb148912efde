//! Attested channel endpoints: the transport identity produced by local
//! attestation, and the server- and client-side endpoint configurations that
//! enforce a peer trust policy on every handshake.
//!
//! The TLS exchange and the evidence-chain cryptography are outside
//! collaborators. What reaches this module from a completed handshake are
//! plain facts: the identity the peer's certificate presented, and the
//! outside verifier's verdict on whether the peer's attestation evidence
//! chains to the configured root of trust. Every admission decision taken on
//! those facts is verified here.

use vstd::prelude::*;

use crate::identity::PeerIdentity;
use crate::policy::PeerTrustPolicy;
use crate::identity::copy_bytes;

verus! {

/// The parameters of the remote attestation authority, built once per
/// startup from external configuration and consumed only by the platform's
/// attestation handshake (whose answer returns as [`AttestationOutcome`]):
/// the attestation algorithm, the authority's URL, the access key for it,
/// and the platform identifier of this enclave.
#[derive(Debug)]
pub struct AttestationConfig {
    pub algorithm: Vec<u8>,
    pub url: Vec<u8>,
    pub access_key: Vec<u8>,
    pub platform_id: Vec<u8>,
}

impl AttestationConfig {
    pub fn new(algorithm: &[u8], url: &[u8], access_key: &[u8], platform_id: &[u8]) -> (c: Self)
        ensures
            c.algorithm@ == algorithm@,
            c.url@ == url@,
            c.access_key@ == access_key@,
            c.platform_id@ == platform_id@,
    {
        AttestationConfig {
            algorithm: copy_bytes(algorithm),
            url: copy_bytes(url),
            access_key: copy_bytes(access_key),
            platform_id: copy_bytes(platform_id),
        }
    }
}

/// The transport identity obtained from a successful local attestation: a
/// private key and a certificate that embeds the attestation evidence. One
/// such artifact serves the server endpoint and any client endpoints of the
/// same process.
#[derive(Debug)]
pub struct AttestedChannelMaterial {
    pub private_key: Vec<u8>,
    pub certificate: Vec<u8>,
}

impl Clone for AttestedChannelMaterial {
    fn clone(&self) -> (r: Self)
        ensures
            r.private_key@ == self.private_key@,
            r.certificate@ == self.certificate@,
    {
        AttestedChannelMaterial {
            private_key: copy_bytes(self.private_key.as_slice()),
            certificate: copy_bytes(self.certificate.as_slice()),
        }
    }
}

/// What the remote attestation authority answered: either it endorsed the
/// local evidence with usable channel material, or attestation failed — a
/// rejection, an unreachable authority, or no local proof. Failure is fatal
/// to startup; no retry happens at this layer.
#[derive(Debug)]
pub enum AttestationOutcome {
    Endorsed(AttestedChannelMaterial),
    Failed,
}

/// Which side of a channel an endpoint configuration serves.
#[derive(Clone, Copy, Debug, PartialEq, Eq, Structural)]
pub enum EndpointRole {
    Server,
    Client,
}

/// Everything one live endpoint is built from: the local attested identity,
/// the trust policy its handshakes enforce, the side it serves, and (for a
/// client) the address of its one target backend. Consumed exactly once;
/// endpoints are not reconfigurable after construction.
#[derive(Debug)]
pub struct ChannelEndpointConfig {
    pub material: AttestedChannelMaterial,
    pub policy: PeerTrustPolicy,
    pub role: EndpointRole,
    pub target_address: Option<Vec<u8>>,
}

impl ChannelEndpointConfig {
    pub open spec fn wf(&self) -> bool {
        &&& self.policy.wf()
        &&& (self.role is Server <==> self.target_address is None)
    }

    /// A server-side endpoint configuration.
    pub fn new_server(material: AttestedChannelMaterial, policy: PeerTrustPolicy) -> (c: Self)
        requires
            policy.wf(),
        ensures
            c.wf(),
            c.role is Server,
            c.material == material,
            c.policy == policy,
    {
        ChannelEndpointConfig { material, policy, role: EndpointRole::Server, target_address: None }
    }

    /// A client-side endpoint configuration for one target backend.
    pub fn new_client(
        material: AttestedChannelMaterial,
        policy: PeerTrustPolicy,
        target_address: Vec<u8>,
    ) -> (c: Self)
        requires
            policy.wf(),
        ensures
            c.wf(),
            c.role is Client,
            c.material == material,
            c.policy == policy,
            c.target_address == Some(target_address),
    {
        ChannelEndpointConfig {
            material,
            policy,
            role: EndpointRole::Client,
            target_address: Some(target_address),
        }
    }
}

/// Whether a mutual attested handshake admits the peer: its evidence chain
/// verified against the root of trust, and the identity its certificate
/// presented is one the policy accepts.
pub open spec fn handshake_admits(
    policy: PeerTrustPolicy,
    presented: Seq<u8>,
    evidence_chain_ok: bool,
) -> bool {
    evidence_chain_ok && policy.accepted_set().contains(presented)
}

/// The fate of one inbound connection.
#[derive(Clone, Copy, Debug, PartialEq, Eq, Structural)]
pub enum ConnectionDecision {
    /// Hand the connection to the request handler.
    Dispatch,
    /// Close this connection; the listener is unaffected.
    Reject,
}

/// Whether the inbound listener is still accepting connections.
#[derive(Clone, Copy, Debug, PartialEq, Eq, Structural)]
pub enum ServerStatus {
    Listening,
    Stopped,
}

/// The inbound listener: the server endpoint configuration plus the decision
/// it takes on every accepted connection. The accept loop and the TLS
/// exchange are the transport collaborator's; the facts of each completed
/// handshake come here.
#[derive(Debug)]
pub struct SecureServer {
    pub listen_address: Vec<u8>,
    pub config: ChannelEndpointConfig,
    pub status: ServerStatus,
}

impl SecureServer {
    pub open spec fn wf(&self) -> bool {
        &&& self.config.wf()
        &&& self.config.role is Server
    }

    /// Binds the inbound listener on its address and starts accepting.
    pub fn bind(listen_address: Vec<u8>, config: ChannelEndpointConfig) -> (s: Self)
        requires
            config.wf(),
            config.role is Server,
        ensures
            s.wf(),
            s.status is Listening,
            s.config == config,
            s.listen_address == listen_address,
    {
        SecureServer { listen_address, config, status: ServerStatus::Listening }
    }

    /// Decides one accepted connection: it is dispatched to the request
    /// handler exactly when the peer presented an accepted identity and its
    /// evidence chain verified against the root of trust. A peer outside the
    /// accepted set, and equally a peer whose evidence fails verification,
    /// is rejected and never reaches the handler. The decision reads the
    /// listener without touching it: one bad peer is contained to its own
    /// connection, and the listener keeps accepting others.
    pub fn on_connection(&self, presented: &PeerIdentity, evidence_chain_ok: bool) -> (d:
        ConnectionDecision)
        requires
            self.status is Listening,
        ensures
            d is Dispatch <==> handshake_admits(self.config.policy, presented@, evidence_chain_ok),
    {
        if evidence_chain_ok && self.config.policy.accepts(presented) {
            ConnectionDecision::Dispatch
        } else {
            ConnectionDecision::Reject
        }
    }

    /// Records that the listener itself stopped serving, cleanly or by
    /// crashing. Nothing else about the endpoint changes.
    pub fn on_listener_exit(&mut self)
        ensures
            final(self).status is Stopped,
            final(self).config == old(self).config,
            final(self).listen_address == old(self).listen_address,
    {
        self.status = ServerStatus::Stopped;
    }
}

/// The target of an outbound connection did not prove itself to be the one
/// expected backend: it presented an unexpected identity, or its evidence
/// chain failed verification.
#[derive(Clone, Copy, Debug, PartialEq, Eq, Structural)]
pub struct PeerTrustError;

/// An established outbound channel to exactly one verified backend peer. A
/// new `connect` call is required to re-establish after any failure; there is
/// no pooling or retry at this layer.
#[derive(Debug)]
pub struct SecureChannel {
    pub config: ChannelEndpointConfig,
    pub peer: PeerIdentity,
}

/// Completes an outbound connection: the channel exists exactly when the
/// target presented an identity the client policy expects and its evidence
/// chain verified against the root of trust.
pub fn connect(
    config: ChannelEndpointConfig,
    presented: PeerIdentity,
    evidence_chain_ok: bool,
) -> (r: Result<SecureChannel, PeerTrustError>)
    requires
        config.wf(),
        config.role is Client,
    ensures
        match r {
            Ok(ch) => {
                &&& handshake_admits(config.policy, presented@, evidence_chain_ok)
                &&& ch.config == config
                &&& ch.peer == presented
            },
            Err(e) => !handshake_admits(config.policy, presented@, evidence_chain_ok),
        },
{
    if evidence_chain_ok && config.policy.accepts(&presented) {
        Ok(SecureChannel { config, peer: presented })
    } else {
        Err(PeerTrustError)
    }
}

} // verus!
