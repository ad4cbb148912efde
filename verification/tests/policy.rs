use enclave_bootstrap::identity::PeerIdentity;
use enclave_bootstrap::manifest::verify_manifest;
use enclave_bootstrap::policy::build_policy;

fn entry(role: &[u8], id: &[u8]) -> Vec<u8> {
    let mut out: Vec<u8> = Vec::new();
    out.push(role.len() as u8);
    out.extend_from_slice(role);
    out.push(id.len() as u8);
    out.extend_from_slice(id);
    out
}

fn ident(bytes: &[u8]) -> PeerIdentity {
    PeerIdentity { measurement: bytes.to_vec() }
}

fn roles(names: &[&[u8]]) -> Vec<Vec<u8>> {
    names.iter().map(|n| n.to_vec()).collect()
}

#[test]
fn policy_holds_exactly_the_allowed_identities() {
    let mut bytes = entry(b"storage", &[0x01]);
    bytes.extend_from_slice(&entry(b"frontend", &[0x02]));
    bytes.extend_from_slice(&entry(b"scheduler", &[0x03]));
    let m = verify_manifest(&bytes, &[true]).unwrap();
    let p = build_policy(&m, &roles(&[b"storage", b"frontend"]), b"root-ca".to_vec()).unwrap();
    assert_eq!(p.accepted.len(), 2);
    assert!(p.accepts(&ident(&[0x01])));
    assert!(p.accepts(&ident(&[0x02])));
    assert!(!p.accepts(&ident(&[0x03])));
    assert_eq!(p.root_of_trust, b"root-ca".to_vec());
}

#[test]
fn missing_allow_listed_role_is_fatal() {
    let bytes = entry(b"storage", &[0x01]);
    let m = verify_manifest(&bytes, &[true]).unwrap();
    let e = build_policy(&m, &roles(&[b"storage", b"frontend"]), Vec::new()).unwrap_err();
    assert_eq!(e.role, b"frontend".to_vec());
}

#[test]
fn first_missing_role_is_the_one_reported() {
    let bytes = entry(b"storage", &[0x01]);
    let m = verify_manifest(&bytes, &[true]).unwrap();
    let e = build_policy(&m, &roles(&[b"absent", b"storage", b"also-absent"]), Vec::new())
        .unwrap_err();
    assert_eq!(e.role, b"absent".to_vec());
}

#[test]
fn empty_allow_list_gives_empty_policy() {
    let bytes = entry(b"storage", &[0x01]);
    let m = verify_manifest(&bytes, &[true]).unwrap();
    let p = build_policy(&m, &Vec::new(), Vec::new()).unwrap();
    assert_eq!(p.accepted.len(), 0);
    assert!(!p.accepts(&ident(&[0x01])));
}

#[test]
fn repeated_allow_roles_collapse() {
    let bytes = entry(b"storage", &[0x01]);
    let m = verify_manifest(&bytes, &[true]).unwrap();
    let p = build_policy(&m, &roles(&[b"storage", b"storage"]), Vec::new()).unwrap();
    assert_eq!(p.accepted.len(), 1);
    assert!(p.accepts(&ident(&[0x01])));
}

#[test]
fn shared_identity_collapses() {
    let mut bytes = entry(b"storage", &[0x09]);
    bytes.extend_from_slice(&entry(b"mirror", &[0x09]));
    let m = verify_manifest(&bytes, &[true]).unwrap();
    let p = build_policy(&m, &roles(&[b"storage", b"mirror"]), Vec::new()).unwrap();
    assert_eq!(p.accepted.len(), 1);
    assert!(p.accepts(&ident(&[0x09])));
}

#[test]
fn allow_list_order_is_irrelevant() {
    let mut bytes = entry(b"storage", &[0x01]);
    bytes.extend_from_slice(&entry(b"frontend", &[0x02]));
    let m = verify_manifest(&bytes, &[true]).unwrap();
    let p1 = build_policy(&m, &roles(&[b"storage", b"frontend"]), Vec::new()).unwrap();
    let p2 = build_policy(&m, &roles(&[b"frontend", b"storage"]), Vec::new()).unwrap();
    for id in [&[0x01u8], &[0x02u8]] {
        assert_eq!(p1.accepts(&ident(id)), p2.accepts(&ident(id)));
        assert!(p1.accepts(&ident(id)));
    }
}
