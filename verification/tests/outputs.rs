use order_validator::outcome::ValidationResult;
use order_validator::outputs::{PublicOutputs, OUTPUT_LEN};

fn sample(result: ValidationResult) -> PublicOutputs {
    PublicOutputs { commitment: [0x11; 32], nullifier: [0x22; 32], balance_hash: [0x33; 32], result }
}

fn all_true() -> ValidationResult {
    ValidationResult { is_valid: true, commitment_valid: true, balance_sufficient: true, nullifier_unused: true }
}

#[test]
fn bundle_is_committed_in_fixed_order() {
    let bytes = sample(all_true()).to_bytes();
    assert_eq!(bytes.len(), OUTPUT_LEN);
    assert_eq!(bytes.len(), 100);
    assert_eq!(&bytes[0..32], &[0x11u8; 32][..]);
    assert_eq!(&bytes[32..64], &[0x22u8; 32][..]);
    assert_eq!(&bytes[64..96], &[0x33u8; 32][..]);
    assert_eq!(&bytes[96..100], &[1u8, 1, 1, 1][..]);
}

#[test]
fn flags_are_committed_in_their_order() {
    let cases = [
        ((true, false, false, false), [1u8, 0, 0, 0]),
        ((false, true, false, false), [0, 1, 0, 0]),
        ((false, false, true, false), [0, 0, 1, 0]),
        ((false, false, false, true), [0, 0, 0, 1]),
        ((false, false, false, false), [0, 0, 0, 0]),
        ((false, true, true, false), [0, 1, 1, 0]),
    ];
    for ((is_valid, commitment_valid, balance_sufficient, nullifier_unused), expected) in cases {
        let result = ValidationResult { is_valid, commitment_valid, balance_sufficient, nullifier_unused };
        let mut out = Vec::new();
        result.commit(&mut out);
        assert_eq!(out, expected);
        assert_eq!(&sample(result).to_bytes()[96..], &expected[..]);
    }
}

#[test]
fn commit_appends_and_keeps_what_was_there() {
    let mut out = vec![0xaa, 0xbb];
    sample(all_true()).commit(&mut out);
    assert_eq!(out.len(), 2 + OUTPUT_LEN);
    assert_eq!(&out[..2], &[0xaa, 0xbb]);
    assert_eq!(&out[2..], &sample(all_true()).to_bytes()[..]);
}

#[test]
fn commit_twice_gives_two_bundles() {
    let first = sample(all_true());
    let second = sample(ValidationResult::aggregate(true, false, true));
    let mut out = Vec::new();
    first.commit(&mut out);
    second.commit(&mut out);
    let mut expected = first.to_bytes();
    expected.extend_from_slice(&second.to_bytes());
    assert_eq!(out, expected);
    assert_eq!(&out[196..200], &[0u8, 1, 0, 1][..]);
}

#[test]
fn bundle_bytes_follow_each_field() {
    let mut commitment = [0u8; 32];
    let mut nullifier = [0u8; 32];
    let mut balance_hash = [0u8; 32];
    for i in 0..32 {
        commitment[i] = i as u8;
        nullifier[i] = 32 + i as u8;
        balance_hash[i] = 64 + i as u8;
    }
    let outputs = PublicOutputs {
        commitment,
        nullifier,
        balance_hash,
        result: ValidationResult::aggregate(true, true, false),
    };
    let mut expected: Vec<u8> = (0u8..96).collect();
    expected.extend_from_slice(&[0, 1, 1, 0]);
    assert_eq!(outputs.to_bytes(), expected);
}
