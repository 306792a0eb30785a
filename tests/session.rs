use nitro_nsm::hex::hex_encode;
use nitro_nsm::session::{copy_bytes, default_device_path, CERTIFICATE_SLOTS, PCR_SLOTS};
use nitro_nsm::{NsmError, NsmSession};
use sha2::{Digest, Sha256};

fn open() -> NsmSession {
    NsmSession::with_module_id("/dev/nsm".to_string(), "00ff".to_string())
}

fn sha(data: &[u8]) -> Vec<u8> {
    Sha256::digest(data).to_vec()
}

fn joined(parts: &[&[u8]]) -> Vec<u8> {
    let mut out = Vec::new();
    for p in parts {
        out.extend_from_slice(p);
    }
    out
}

#[test]
fn fresh_registers_are_zero() {
    let s = open();
    for slot in 0..32u32 {
        assert_eq!(s.describe_pcr(slot).unwrap(), vec![0u8; 32]);
    }
}

#[test]
fn end_to_end_scenario() {
    let mut s = open();
    let zero = vec![0u8; 32];
    let first = s.extend_pcr(0, b"boot").unwrap();
    assert_eq!(first, sha(&joined(&[&zero, b"boot"])));
    assert_eq!(s.lock_pcr(0), Ok(true));
    assert_eq!(s.extend_pcr(0, b"again"), Err(NsmError::PcrLocked(0)));
    assert_eq!(s.describe_pcr(0).unwrap(), first);
    let doc = s.get_attestation(7, Some(b"ctx".to_vec()), None, None).unwrap();
    let mut all = Vec::new();
    for slot in 0..32u32 {
        all.extend_from_slice(&s.describe_pcr(slot).unwrap());
    }
    all.extend_from_slice(b"ctx");
    assert_eq!(doc.digest, sha(&all));
    assert_eq!(doc.timestamp, 7);
    assert_eq!(doc.locked_pcrs, vec![0u32]);
    assert_eq!(doc.pcrs.len(), 32);
    assert_eq!(doc.pcrs[0], first);
    assert_eq!(doc.user_data, Some(b"ctx".to_vec()));
    assert_eq!(doc.module_id, "00ff");
}

#[test]
fn extension_chains_rather_than_concatenates() {
    let mut s = open();
    let zero = vec![0u8; 32];
    s.extend_pcr(5, b"one").unwrap();
    let second = s.extend_pcr(5, b"two").unwrap();
    let chained = sha(&joined(&[&sha(&joined(&[&zero, b"one"])), b"two"]));
    assert_eq!(second, chained);
    assert_ne!(second, sha(&joined(&[&zero, b"one", b"two"])));
    assert_eq!(s.describe_pcr(4).unwrap(), zero);
}

#[test]
fn extend_with_empty_data_still_hashes() {
    let mut s = open();
    let v = s.extend_pcr(31, b"").unwrap();
    assert_eq!(v, sha(&[0u8; 32]));
}

#[test]
fn locked_register_keeps_digest() {
    let mut s = open();
    s.extend_pcr(3, b"x").unwrap();
    let before = s.describe_pcr(3).unwrap();
    s.lock_pcr(3).unwrap();
    assert_eq!(s.extend_pcr(3, b"y"), Err(NsmError::PcrLocked(3)));
    assert_eq!(s.describe_pcr(3).unwrap(), before);
    let raw = s.describe_pcr_raw(3).unwrap();
    assert_eq!(raw.index, 3);
    assert!(raw.locked);
    assert_eq!(raw.digest, before);
}

#[test]
fn lock_twice_is_no_error() {
    let mut s = open();
    assert_eq!(s.lock_pcr(9), Ok(true));
    assert_eq!(s.lock_pcr(9), Ok(true));
    assert_eq!(s.describe_nsm().unwrap().locked_pcrs, vec![9u32]);
}

#[test]
fn lock_range_clamps_to_register_count() {
    let mut a = open();
    let mut b = open();
    assert_eq!(a.lock_pcrs(100), Ok(true));
    assert_eq!(b.lock_pcrs(32), Ok(true));
    let all: Vec<u32> = (0..32).collect();
    assert_eq!(a.describe_nsm().unwrap().locked_pcrs, all);
    assert_eq!(b.describe_nsm().unwrap().locked_pcrs, all);
}

#[test]
fn lock_range_locks_a_prefix() {
    let mut s = open();
    s.lock_pcr(20).unwrap();
    s.lock_pcrs(3).unwrap();
    assert_eq!(s.describe_nsm().unwrap().locked_pcrs, vec![0, 1, 2, 20]);
    assert!(s.extend_pcr(3, b"ok").is_ok());
    assert_eq!(s.extend_pcr(2, b"no"), Err(NsmError::PcrLocked(2)));
    s.lock_pcrs(0).unwrap();
    assert_eq!(s.describe_nsm().unwrap().locked_pcrs, vec![0, 1, 2, 20]);
}

#[test]
fn certificate_set_describe_remove() {
    let mut s = open();
    assert_eq!(s.set_certificate(2, b"cert"), Ok(()));
    assert_eq!(s.describe_certificate(2).unwrap(), b"cert".to_vec());
    assert_eq!(s.set_certificate(2, b"other"), Ok(()));
    assert_eq!(s.describe_certificate(2).unwrap(), b"other".to_vec());
    assert_eq!(s.remove_certificate(2), Ok(()));
    assert_eq!(s.describe_certificate(2), Err(NsmError::CertificateNotFound(2)));
    assert_eq!(s.remove_certificate(2), Err(NsmError::CertificateNotFound(2)));
}

#[test]
fn boundary_slots() {
    let mut s = open();
    assert_eq!(s.describe_pcr(32), Err(NsmError::InvalidPcrSlot(32, 32)));
    assert!(s.describe_pcr(31).is_ok());
    assert_eq!(
        s.set_certificate(4, b"c"),
        Err(NsmError::InvalidCertificateSlot(4, 4))
    );
    assert_eq!(s.set_certificate(3, b"c"), Ok(()));
    assert_eq!(s.get_random(0), Err(NsmError::InvalidRandomLength(0)));
    assert_eq!(s.extend_pcr(40, b"x"), Err(NsmError::InvalidPcrSlot(40, 32)));
    assert_eq!(s.lock_pcr(32), Err(NsmError::InvalidPcrSlot(32, 32)));
    assert!(matches!(s.describe_pcr_raw(32), Err(NsmError::InvalidPcrSlot(32, 32))));
    assert_eq!(
        s.describe_certificate(4),
        Err(NsmError::InvalidCertificateSlot(4, 4))
    );
    assert_eq!(
        s.remove_certificate(7),
        Err(NsmError::InvalidCertificateSlot(7, 4))
    );
}

#[test]
fn random_bytes_have_requested_length() {
    let s = open();
    assert_eq!(s.get_random(48).unwrap().len(), 48);
}

#[test]
fn closed_session_refuses_everything() {
    let mut s = open();
    s.close();
    assert!(s.is_closed());
    assert_eq!(s.describe_pcr(0), Err(NsmError::SessionClosed));
    assert_eq!(s.extend_pcr(0, b"x"), Err(NsmError::SessionClosed));
    assert_eq!(s.lock_pcr(0), Err(NsmError::SessionClosed));
    assert_eq!(s.lock_pcrs(4), Err(NsmError::SessionClosed));
    assert_eq!(s.set_certificate(0, b"c"), Err(NsmError::SessionClosed));
    assert_eq!(s.describe_certificate(0), Err(NsmError::SessionClosed));
    assert_eq!(s.remove_certificate(0), Err(NsmError::SessionClosed));
    assert_eq!(s.get_random(4), Err(NsmError::SessionClosed));
    assert!(matches!(s.describe_nsm(), Err(NsmError::SessionClosed)));
    assert!(matches!(s.get_attestation(0, None, None, None), Err(NsmError::SessionClosed)));
    assert_eq!(s.device_path(), "/dev/nsm");
}

#[test]
fn describe_nsm_reports_counts() {
    let mut s = open();
    s.set_certificate(0, b"a").unwrap();
    s.set_certificate(3, b"b").unwrap();
    s.lock_pcr(31).unwrap();
    s.lock_pcr(4).unwrap();
    let d = s.describe_nsm().unwrap();
    assert_eq!(d.module_id, "00ff");
    assert_eq!(d.pcr_slots, PCR_SLOTS as u32);
    assert_eq!(d.certificate_slots, CERTIFICATE_SLOTS as u32);
    assert_eq!(d.locked_pcrs, vec![4, 31]);
    assert_eq!(d.certificates, 2);
}

#[test]
fn attestation_digest_tracks_registers_and_user_data() {
    let mut s = open();
    let a = s.get_attestation(1, None, Some(b"key".to_vec()), Some(b"n1".to_vec())).unwrap();
    let b = s.get_attestation(2, None, None, Some(b"n2".to_vec())).unwrap();
    assert_eq!(a.digest, b.digest);
    assert_eq!(a.digest, sha(&vec![0u8; 32 * 32]));
    assert_eq!(a.public_key, Some(b"key".to_vec()));
    assert_eq!(a.nonce, Some(b"n1".to_vec()));
    let c = s.get_attestation(1, Some(b"u".to_vec()), None, None).unwrap();
    assert_ne!(a.digest, c.digest);
    s.extend_pcr(17, b"m").unwrap();
    let d = s.get_attestation(1, None, None, None).unwrap();
    assert_ne!(a.digest, d.digest);
    s.lock_pcr(1).unwrap();
    s.set_certificate(1, b"c").unwrap();
    let e = s.get_attestation(1, None, None, None).unwrap();
    assert_eq!(d.digest, e.digest);
}

#[test]
fn attestation_carries_slot_zero_certificate() {
    let mut s = open();
    let a = s.get_attestation(0, None, None, None).unwrap();
    assert_eq!(a.certificate, None);
    assert_eq!(a.cabundle, None);
    s.set_certificate(1, b"one").unwrap();
    s.set_certificate(0, b"zero").unwrap();
    let b = s.get_attestation(0, None, None, None).unwrap();
    assert_eq!(b.certificate, Some(b"zero".to_vec()));
    assert_eq!(b.cabundle, None);
}

#[test]
fn construction_needs_the_device() {
    assert!(matches!(
        NsmSession::new(None, false),
        Err(NsmError::DeviceMissing(p)) if p == "/var/run/nsm"
    ));
    assert!(matches!(
        NsmSession::new(Some("/dev/x".to_string()), false),
        Err(NsmError::DeviceMissing(p)) if p == "/dev/x"
    ));
    let s = NsmSession::new(None, true).unwrap();
    assert_eq!(s.device_path(), "/var/run/nsm");
    assert!(!s.is_closed());
    let id = s.describe_nsm().unwrap().module_id;
    assert_eq!(id.len(), 32);
    assert!(id.chars().all(|c| c.is_ascii_hexdigit() && !c.is_ascii_uppercase()));
    assert_eq!(default_device_path(), "/var/run/nsm");
}

#[test]
fn hex_encoding_is_lower_case_pairs() {
    assert_eq!(hex_encode(&[0x00, 0x0f, 0xa5, 0xff]), "000fa5ff");
    assert_eq!(hex_encode(&[]), "");
}

#[test]
fn copy_is_exact() {
    assert_eq!(copy_bytes(&[1, 2, 3]), vec![1, 2, 3]);
}
