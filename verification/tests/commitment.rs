//! Tests of the content commitment and address derivation boundary, run
//! against the real cryptographic code.

use sol_ver::commitment::{commitment_hash, find_order_address};

fn hex(bytes: &[u8]) -> String {
    let mut s = String::new();
    for b in bytes {
        s.push_str(&format!("{:02x}", b));
    }
    s
}

#[test]
fn keccak_known_answer() {
    // Keccak-256 of the empty string.
    assert_eq!(
        hex(&commitment_hash(&[])),
        "c5d2460186f7233c927e7db2dcc703c0e500b653ca82273b7bfad8045d85a470"
    );
    // Keccak-256 of "abc".
    assert_eq!(
        hex(&commitment_hash(b"abc")),
        "4e03657aea45a94fc7d47ba826c8d667c0d1e6e33a64a036ec44f58fa12d6c45"
    );
}

#[test]
fn commitment_is_deterministic() {
    let body = vec![42u8; 240];
    assert_eq!(commitment_hash(&body), commitment_hash(&body));
}

#[test]
fn single_bit_change_changes_commitment() {
    let body = vec![42u8; 240];
    let base = commitment_hash(&body);
    for byte in [0usize, 1, 100, 239] {
        for bit in 0..8 {
            let mut tampered = body.clone();
            tampered[byte] ^= 1 << bit;
            assert_ne!(commitment_hash(&tampered), base);
        }
    }
}

#[test]
fn derivation_is_deterministic_and_commitment_bound() {
    let program_id = [7u8; 32];
    let owner = [1u8; 32];
    let commitment = commitment_hash(&vec![42u8; 240]);
    let (addr1, bump1) = find_order_address(&program_id, &owner, &commitment).unwrap();
    let (addr2, bump2) = find_order_address(&program_id, &owner, &commitment).unwrap();
    assert_eq!(addr1, addr2);
    assert_eq!(bump1, bump2);
    // A different commitment lands at a different address.
    let other = commitment_hash(&vec![43u8; 240]);
    let (addr3, _) = find_order_address(&program_id, &owner, &other).unwrap();
    assert_ne!(addr1, addr3);
    // A different owner lands at a different address.
    let (addr4, _) = find_order_address(&program_id, &[2u8; 32], &commitment).unwrap();
    assert_ne!(addr1, addr4);
}

#[test]
fn derivation_matches_the_platform_search() {
    let program_id = [7u8; 32];
    let owner = [1u8; 32];
    let commitment = [9u8; 32];
    let (addr, bump) = find_order_address(&program_id, &owner, &commitment).unwrap();
    let pid = solana_pubkey::Pubkey::from(program_id);
    let (expected, expected_bump) = solana_pubkey::Pubkey::find_program_address(
        &[b"order", &owner, &commitment],
        &pid,
    );
    assert_eq!(addr, expected.to_bytes());
    assert_eq!(bump, expected_bump);
}
