use enclave_bootstrap::manifest::ManifestVerificationError;
use enclave_bootstrap::manifest::verify_manifest;

fn entry(role: &[u8], id: &[u8]) -> Vec<u8> {
    let mut out: Vec<u8> = Vec::new();
    out.push(role.len() as u8);
    out.extend_from_slice(role);
    out.push(id.len() as u8);
    out.extend_from_slice(id);
    out
}

#[test]
fn valid_manifest_single_role() {
    let bytes = entry(b"storage", &[0xAA, 0xBB]);
    let m = verify_manifest(&bytes, &[true]).unwrap();
    let id = m.lookup(b"storage").unwrap();
    assert_eq!(id.measurement, vec![0xAA, 0xBB]);
    assert!(m.lookup(b"frontend").is_none());
}

#[test]
fn valid_manifest_two_roles() {
    let mut bytes = entry(b"storage", &[0x01]);
    bytes.extend_from_slice(&entry(b"frontend", &[0x02, 0x03]));
    let m = verify_manifest(&bytes, &[true, true]).unwrap();
    assert_eq!(m.lookup(b"storage").unwrap().measurement, vec![0x01]);
    assert_eq!(m.lookup(b"frontend").unwrap().measurement, vec![0x02, 0x03]);
}

#[test]
fn empty_manifest_binds_no_role() {
    let m = verify_manifest(&[], &[true]).unwrap();
    assert!(m.lookup(b"storage").is_none());
}

#[test]
fn no_verdicts_rejected() {
    let bytes = entry(b"storage", &[0xAA]);
    let r = verify_manifest(&bytes, &[]);
    assert!(matches!(r, Err(ManifestVerificationError::SignatureRejected)));
}

#[test]
fn one_negative_verdict_rejected() {
    // The quorum rule is all-of: every configured verifier key must accept.
    let bytes = entry(b"storage", &[0xAA]);
    let r = verify_manifest(&bytes, &[true, false, true]);
    assert!(matches!(r, Err(ManifestVerificationError::SignatureRejected)));
}

#[test]
fn truncated_manifest_malformed() {
    let mut bytes = entry(b"storage", &[0xAA, 0xBB]);
    bytes.pop();
    let r = verify_manifest(&bytes, &[true]);
    assert!(matches!(r, Err(ManifestVerificationError::MalformedManifest)));
}

#[test]
fn zero_role_length_malformed() {
    let r = verify_manifest(&[0x00, 0x01, 0xAA], &[true]);
    assert!(matches!(r, Err(ManifestVerificationError::MalformedManifest)));
}

#[test]
fn zero_measurement_length_malformed() {
    let bytes = vec![0x01, b's', 0x00];
    let r = verify_manifest(&bytes, &[true]);
    assert!(matches!(r, Err(ManifestVerificationError::MalformedManifest)));
}

#[test]
fn duplicate_role_malformed() {
    let mut bytes = entry(b"storage", &[0x01]);
    bytes.extend_from_slice(&entry(b"storage", &[0x02]));
    let r = verify_manifest(&bytes, &[true]);
    assert!(matches!(r, Err(ManifestVerificationError::MalformedManifest)));
}

#[test]
fn signature_refusal_reported_before_shape() {
    // Malformed bytes under a failed quorum: the signature refusal is the
    // one reported.
    let r = verify_manifest(&[0x00], &[false]);
    assert!(matches!(r, Err(ManifestVerificationError::SignatureRejected)));
}

#[test]
fn largest_entry_parses() {
    let role = [b'r'; 255];
    let id = [0xCC; 255];
    let bytes = entry(&role, &id);
    let m = verify_manifest(&bytes, &[true]).unwrap();
    assert_eq!(m.lookup(&role).unwrap().measurement, id.to_vec());
}

#[test]
fn trailing_bytes_malformed() {
    let mut bytes = entry(b"storage", &[0xAA]);
    bytes.push(0x05);
    let r = verify_manifest(&bytes, &[true]);
    assert!(matches!(r, Err(ManifestVerificationError::MalformedManifest)));
}
