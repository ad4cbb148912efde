use enclave_bootstrap::channel::AttestedChannelMaterial;
use enclave_bootstrap::channel::ChannelEndpointConfig;
use enclave_bootstrap::channel::ConnectionDecision;
use enclave_bootstrap::channel::SecureServer;
use enclave_bootstrap::channel::ServerStatus;
use enclave_bootstrap::channel::connect;
use enclave_bootstrap::identity::PeerIdentity;
use enclave_bootstrap::policy::PeerTrustPolicy;

fn ident(bytes: &[u8]) -> PeerIdentity {
    PeerIdentity { measurement: bytes.to_vec() }
}

fn material() -> AttestedChannelMaterial {
    AttestedChannelMaterial { private_key: b"key".to_vec(), certificate: b"cert".to_vec() }
}

fn policy_of(accepted: &[&[u8]]) -> PeerTrustPolicy {
    PeerTrustPolicy {
        accepted: accepted.iter().map(|b| ident(b)).collect(),
        root_of_trust: b"root-ca".to_vec(),
    }
}

fn listening_server(accepted: &[&[u8]]) -> SecureServer {
    let config = ChannelEndpointConfig::new_server(material(), policy_of(accepted));
    SecureServer::bind(b"0.0.0.0:7000".to_vec(), config)
}

#[test]
fn accepted_peer_is_dispatched() {
    let server = listening_server(&[&[0x01], &[0x02]]);
    let d = server.on_connection(&ident(&[0x01]), true);
    assert_eq!(d, ConnectionDecision::Dispatch);
}

#[test]
fn unlisted_identity_is_rejected() {
    let server = listening_server(&[&[0x01]]);
    let d = server.on_connection(&ident(&[0x77]), true);
    assert_eq!(d, ConnectionDecision::Reject);
}

#[test]
fn failed_evidence_chain_is_rejected_identically() {
    // An accepted identity whose evidence does not verify against the root
    // of trust is turned away just like an unlisted one.
    let server = listening_server(&[&[0x01]]);
    let d = server.on_connection(&ident(&[0x01]), false);
    assert_eq!(d, ConnectionDecision::Reject);
}

#[test]
fn rejection_leaves_the_listener_serving() {
    let server = listening_server(&[&[0x01]]);
    assert_eq!(server.on_connection(&ident(&[0x77]), true), ConnectionDecision::Reject);
    assert_eq!(server.status, ServerStatus::Listening);
    assert_eq!(server.on_connection(&ident(&[0x01]), true), ConnectionDecision::Dispatch);
}

#[test]
fn listener_exit_stops_the_server() {
    let mut server = listening_server(&[&[0x01]]);
    server.on_listener_exit();
    assert_eq!(server.status, ServerStatus::Stopped);
}

#[test]
fn connect_reaches_the_expected_backend() {
    let config = ChannelEndpointConfig::new_client(
        material(),
        policy_of(&[&[0x0A]]),
        b"storage.internal:7100".to_vec(),
    );
    let ch = connect(config, ident(&[0x0A]), true).unwrap();
    assert_eq!(ch.peer.measurement, vec![0x0A]);
    assert_eq!(ch.config.target_address, Some(b"storage.internal:7100".to_vec()));
}

#[test]
fn connect_refuses_an_unexpected_identity() {
    let config = ChannelEndpointConfig::new_client(
        material(),
        policy_of(&[&[0x0A]]),
        b"storage.internal:7100".to_vec(),
    );
    assert!(connect(config, ident(&[0x0B]), true).is_err());
}

#[test]
fn connect_refuses_failed_evidence() {
    let config = ChannelEndpointConfig::new_client(
        material(),
        policy_of(&[&[0x0A]]),
        b"storage.internal:7100".to_vec(),
    );
    assert!(connect(config, ident(&[0x0A]), false).is_err());
}
