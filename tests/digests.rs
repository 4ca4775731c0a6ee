use fileshare::digest::{check_digest, digest, verify, DIGEST_LEN};
use fileshare::error::TransferError;

fn hex(b: &[u8]) -> String {
    b.iter().map(|x| format!("{:02x}", x)).collect()
}

#[test]
fn digest_of_known_inputs() {
    assert_eq!(
        hex(&digest(b"abc")),
        "ba7816bf8f01cfea414140de5dae2223b00361a396177a9cb410ff61f20015ad"
    );
    assert_eq!(
        hex(&digest(b"")),
        "e3b0c44298fc1c149afbf4c8996fb92427ae41e4649b934ca495991b7852b855"
    );
    assert_eq!(digest(b"anything").len(), DIGEST_LEN);
}

#[test]
fn digest_is_deterministic() {
    let data: Vec<u8> = (0..1000u32).map(|i| (i % 251) as u8).collect();
    assert_eq!(digest(&data), digest(&data));
    assert_eq!(digest(&data), digest(&data.clone()));
}

#[test]
fn single_byte_mutation_changes_digest() {
    let data: Vec<u8> = (0..1000u32).map(|i| (i % 251) as u8).collect();
    let d = digest(&data);
    for pos in [0usize, 1, 500, 999] {
        let mut m = data.clone();
        m[pos] ^= 1;
        assert_ne!(digest(&m), d);
    }
}

#[test]
fn verify_accepts_matching_and_rejects_other() {
    let data = b"hello world".to_vec();
    let d = digest(&data);
    assert_eq!(verify(&data, &d), Ok(()));
    assert_eq!(verify(b"hello worle", &d), Err(TransferError::IntegrityMismatch));
    assert_eq!(verify(&data, &d[..31]), Err(TransferError::IntegrityMismatch));
}

#[test]
fn check_digest_compares_bytes() {
    assert_eq!(check_digest(&[1, 2, 3], &[1, 2, 3]), Ok(()));
    assert_eq!(check_digest(&[], &[]), Ok(()));
    assert_eq!(check_digest(&[1, 2, 3], &[1, 2, 4]), Err(TransferError::IntegrityMismatch));
    assert_eq!(check_digest(&[1, 2], &[1, 2, 3]), Err(TransferError::IntegrityMismatch));
}
