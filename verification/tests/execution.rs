use order_validator::hash::hash_data;
use order_validator::outputs::OUTPUT_LEN;
use order_validator::program::execute;
use order_validator::wire::MalformedInput;

const PAYLOAD: &[u8] = b"BUY 10 BTC @ 50000";

const SHA256_ORDER: [u8; 32] = [
    0x12, 0xba, 0xaf, 0x2d, 0x05, 0x90, 0x3d, 0xb6, 0x6a, 0x85, 0x4b, 0xe5, 0x20, 0xc8, 0x30, 0xa4,
    0x96, 0x63, 0x4e, 0x61, 0x18, 0xa4, 0xb7, 0x8c, 0xda, 0x99, 0x58, 0x1e, 0x7c, 0xac, 0x93, 0xed,
];

const SHA256_LE_1000: [u8; 32] = [
    0x92, 0x1a, 0xc7, 0xf2, 0x59, 0xf8, 0x64, 0x60, 0x66, 0x24, 0xeb, 0x7f, 0xc2, 0x91, 0x24, 0x71,
    0x2f, 0xf6, 0x5b, 0x42, 0x5e, 0x95, 0x00, 0xa3, 0x5d, 0xd3, 0x2b, 0x71, 0xdd, 0xb9, 0x33, 0x2c,
];

const SHA256_LE_100: [u8; 32] = [
    0x26, 0xab, 0x39, 0x15, 0x0b, 0x63, 0x30, 0x15, 0x25, 0x76, 0xe4, 0xc7, 0xfa, 0x7e, 0x0c, 0xaa,
    0x80, 0x4b, 0x5e, 0x9d, 0xb0, 0x47, 0x6a, 0x3e, 0x48, 0xe6, 0xb5, 0x3f, 0x1c, 0xda, 0x82, 0x79,
];

const NULLIFIER: [u8; 32] = [0xa5; 32];

struct Inputs {
    commitment: Vec<u8>,
    payload: Vec<u8>,
    balance: Vec<u8>,
    margin: Vec<u8>,
    nullifiers: Vec<u8>,
}

fn counted(count: u64, body: &[u8]) -> Vec<u8> {
    let mut bytes = count.to_le_bytes().to_vec();
    bytes.extend_from_slice(body);
    bytes
}

fn inputs(committed_to: &[u8], balance: u64, margin: u64, used: &[[u8; 32]]) -> Inputs {
    let mut commitment = hash_data(committed_to).to_vec();
    commitment.extend_from_slice(&NULLIFIER);
    commitment.extend_from_slice(&[0x77; 32]);
    Inputs {
        commitment,
        payload: counted(PAYLOAD.len() as u64, PAYLOAD),
        balance: balance.to_le_bytes().to_vec(),
        margin: margin.to_le_bytes().to_vec(),
        nullifiers: counted(used.len() as u64, &used.concat()),
    }
}

fn run(inputs: &Inputs) -> Result<Vec<u8>, MalformedInput> {
    execute(&inputs.commitment, &inputs.payload, &inputs.balance, &inputs.margin, &inputs.nullifiers)
}

fn bundle(commitment: [u8; 32], balance_hash: [u8; 32], flags: [u8; 4]) -> Vec<u8> {
    let mut bytes = commitment.to_vec();
    bytes.extend_from_slice(&NULLIFIER);
    bytes.extend_from_slice(&balance_hash);
    bytes.extend_from_slice(&flags);
    bytes
}

#[test]
fn execution_of_a_valid_order() {
    let out = run(&inputs(PAYLOAD, 1000, 500, &[[1; 32], [2; 32]])).unwrap();
    assert_eq!(out.len(), OUTPUT_LEN);
    assert_eq!(out, bundle(SHA256_ORDER, SHA256_LE_1000, [1, 1, 1, 1]));
}

#[test]
fn execution_with_insufficient_balance() {
    let out = run(&inputs(PAYLOAD, 100, 500, &[[1; 32], [2; 32]])).unwrap();
    assert_eq!(out, bundle(SHA256_ORDER, SHA256_LE_100, [0, 1, 0, 1]));
}

#[test]
fn execution_with_reused_nullifier() {
    let out = run(&inputs(PAYLOAD, 1000, 500, &[[1; 32], NULLIFIER])).unwrap();
    assert_eq!(out, bundle(SHA256_ORDER, SHA256_LE_1000, [0, 1, 1, 0]));
}

#[test]
fn execution_with_commitment_mismatch() {
    let out = run(&inputs(b"another order", 1000, 500, &[])).unwrap();
    assert_eq!(out, bundle(hash_data(b"another order"), SHA256_LE_1000, [0, 0, 1, 1]));
    let out = run(&inputs(b"another order", 100, 500, &[NULLIFIER])).unwrap();
    assert_eq!(out, bundle(hash_data(b"another order"), SHA256_LE_100, [0, 0, 0, 0]));
}

#[test]
fn execution_at_the_margin() {
    let out = run(&inputs(PAYLOAD, 500, 500, &[])).unwrap();
    assert_eq!(&out[96..], &[1u8, 1, 1, 1][..]);
    let out = run(&inputs(PAYLOAD, 499, 500, &[])).unwrap();
    assert_eq!(&out[96..], &[0u8, 1, 0, 1][..]);
}

#[test]
fn execution_is_repeatable() {
    let given = inputs(PAYLOAD, 1000, 500, &[[1; 32], [2; 32], [3; 32]]);
    let first = run(&given);
    for _ in 0..5 {
        assert_eq!(run(&given), first);
    }
    let malformed = Inputs { balance: vec![0; 7], ..inputs(PAYLOAD, 1000, 500, &[]) };
    assert_eq!(run(&malformed), run(&malformed));
}

#[test]
fn execution_ignores_the_order_of_used_nullifiers() {
    let forward = run(&inputs(PAYLOAD, 1000, 500, &[[1; 32], NULLIFIER, [2; 32]]));
    let backward = run(&inputs(PAYLOAD, 1000, 500, &[[2; 32], NULLIFIER, [1; 32]]));
    let repeated = run(&inputs(PAYLOAD, 1000, 500, &[NULLIFIER, NULLIFIER]));
    assert_eq!(forward, backward);
    assert_eq!(forward, repeated);
}

#[test]
fn truncated_commitment_aborts() {
    let mut given = inputs(PAYLOAD, 1000, 500, &[]);
    given.commitment.truncate(95);
    assert_eq!(run(&given), Err(MalformedInput));
    given.commitment.truncate(32);
    assert_eq!(run(&given), Err(MalformedInput));
    given.commitment.clear();
    assert_eq!(run(&given), Err(MalformedInput));
}

#[test]
fn overlong_commitment_aborts() {
    let mut given = inputs(PAYLOAD, 1000, 500, &[]);
    given.commitment.push(0);
    assert_eq!(run(&given), Err(MalformedInput));
}

#[test]
fn malformed_payload_aborts() {
    let mut given = inputs(PAYLOAD, 1000, 500, &[]);
    given.payload.pop();
    assert_eq!(run(&given), Err(MalformedInput));
    given.payload = PAYLOAD.to_vec();
    assert_eq!(run(&given), Err(MalformedInput));
}

#[test]
fn malformed_balance_aborts() {
    let mut given = inputs(PAYLOAD, 1000, 500, &[]);
    given.balance = vec![0xe8, 0x03];
    assert_eq!(run(&given), Err(MalformedInput));
    given.balance = vec![0xe8, 0x03, 0, 0, 0, 0, 0, 0, 0];
    assert_eq!(run(&given), Err(MalformedInput));
}

#[test]
fn malformed_margin_aborts() {
    let mut given = inputs(PAYLOAD, 1000, 500, &[]);
    given.margin = 500u32.to_le_bytes().to_vec();
    assert_eq!(run(&given), Err(MalformedInput));
}

#[test]
fn malformed_nullifier_set_aborts() {
    let mut given = inputs(PAYLOAD, 1000, 500, &[[1; 32]]);
    given.nullifiers.pop();
    assert_eq!(run(&given), Err(MalformedInput));
    given.nullifiers = counted(2, &[1; 32]);
    assert_eq!(run(&given), Err(MalformedInput));
    given.nullifiers = vec![1; 32];
    assert_eq!(run(&given), Err(MalformedInput));
}

#[test]
fn failed_checks_are_results_not_errors() {
    let out = run(&inputs(b"another order", 0, u64::MAX, &[NULLIFIER]));
    assert!(out.is_ok());
    assert_eq!(&out.unwrap()[96..], &[0u8, 0, 0, 0][..]);
}

#[test]
fn every_single_malformed_input_aborts() {
    for slot in 0..5 {
        let mut given = inputs(PAYLOAD, 1000, 500, &[[1; 32]]);
        let buffer = match slot {
            0 => &mut given.commitment,
            1 => &mut given.payload,
            2 => &mut given.balance,
            3 => &mut given.margin,
            _ => &mut given.nullifiers,
        };
        buffer.push(0);
        assert_eq!(run(&given), Err(MalformedInput), "input {}", slot);
    }
}
