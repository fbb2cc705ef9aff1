use conjunto::pda::{
    buffer_pda, buffer_pda_from_pubkey, buffer_pda_with_bump, buffer_pda_with_bump_from_pubkey,
    buffer_seeds, buffer_seeds_from_pubkey, buffer_seeds_with_bump,
    buffer_seeds_with_bump_from_pubkey, commit_record_seeds, commit_record_seeds_from_pubkey,
    commit_record_seeds_with_bump, commit_record_seeds_with_bump_from_pubkey,
    delegation_pda, delegation_pda_from_pubkey, delegation_pda_with_bump,
    delegation_pda_with_bump_from_pubkey, delegation_program_id, delegation_seeds,
    delegation_seeds_from_pubkey, delegation_seeds_with_bump,
    delegation_seeds_with_bump_from_pubkey, state_diff_seeds, state_diff_seeds_from_pubkey,
    state_diff_seeds_with_bump, state_diff_seeds_with_bump_from_pubkey,
};
use conjunto::pubkey::Pubkey;

const DELEGATION: &[u8] = b"delegation";
const BUFFER: &[u8] = b"buffer";
const STATE_DIFF: &[u8] = b"state-diff";
const COMMIT_RECORD: &[u8] = b"commit-state-record";

fn sdk_program_id() -> solana_sdk::pubkey::Pubkey {
    solana_sdk::pubkey::Pubkey::new_from_array(delegation_program_id().bytes)
}

fn unique_pubkey() -> Pubkey {
    Pubkey::new(solana_sdk::pubkey::Pubkey::new_unique().to_bytes())
}

fn assert_seeds(seeds: &[Vec<u8>], expected: &[&[u8]]) {
    assert_eq!(seeds.len(), expected.len());
    for (s, e) in seeds.iter().zip(expected.iter()) {
        assert_eq!(s.as_slice(), *e);
    }
}

// -----------------
// Delegation Seeds
// -----------------
#[test]
fn test_delegation_seeds() {
    let id = [1, 2, 3];
    let seeds = delegation_seeds(&id);
    assert_seeds(&seeds, &[DELEGATION, &id]);
}

#[test]
fn test_delegation_seeds_with_bump() {
    let id = [1, 2, 3];
    let bump = [4];
    let seeds = delegation_seeds_with_bump(&id, &bump);
    assert_seeds(&seeds, &[DELEGATION, &id, &bump]);
}

#[test]
fn test_delegation_seeds_from_pubkey() {
    let id = unique_pubkey();
    let seeds = delegation_seeds_from_pubkey(&id);
    assert_seeds(&seeds, &[DELEGATION, &id.bytes]);
}

#[test]
fn test_delegation_seeds_with_bump_from_pubkey() {
    let id = unique_pubkey();
    let bump = [4];
    let seeds = delegation_seeds_with_bump_from_pubkey(&id, &bump);
    assert_seeds(&seeds, &[DELEGATION, &id.bytes, &bump]);
}

// -----------------
// Buffer Seeds
// -----------------
#[test]
fn test_buffer_seeds() {
    let id = [1, 2, 3];
    let seeds = buffer_seeds(&id);
    assert_seeds(&seeds, &[BUFFER, &id]);
}

#[test]
fn test_buffer_seeds_with_bump() {
    let id = [1, 2, 3];
    let bump = [4];
    let seeds = buffer_seeds_with_bump(&id, &bump);
    assert_seeds(&seeds, &[BUFFER, &id, &bump]);
}

#[test]
fn test_buffer_seeds_from_pubkey() {
    let id = unique_pubkey();
    let seeds = buffer_seeds_from_pubkey(&id);
    assert_seeds(&seeds, &[BUFFER, &id.bytes]);
}

#[test]
fn test_buffer_seeds_with_bump_from_pubkey() {
    let id = unique_pubkey();
    let bump = [4];
    let seeds = buffer_seeds_with_bump_from_pubkey(&id, &bump);
    assert_seeds(&seeds, &[BUFFER, &id.bytes, &bump]);
}

// -----------------
// State Diff Seeds
// -----------------
#[test]
fn test_state_diff_seeds() {
    let id = [1, 2, 3];
    let seeds = state_diff_seeds(&id);
    assert_seeds(&seeds, &[STATE_DIFF, &id]);
}

#[test]
fn test_state_diff_seeds_with_bump() {
    let id = [1, 2, 3];
    let bump = [4];
    let seeds = state_diff_seeds_with_bump(&id, &bump);
    assert_seeds(&seeds, &[STATE_DIFF, &id, &bump]);
}

#[test]
fn test_state_diff_seeds_from_pubkey() {
    let id = unique_pubkey();
    let seeds = state_diff_seeds_from_pubkey(&id);
    assert_seeds(&seeds, &[STATE_DIFF, &id.bytes]);
}

#[test]
fn test_state_diff_seeds_with_bump_from_pubkey() {
    let id = unique_pubkey();
    let bump = [4];
    let seeds = state_diff_seeds_with_bump_from_pubkey(&id, &bump);
    assert_seeds(&seeds, &[STATE_DIFF, &id.bytes, &bump]);
}

// -----------------
// Commit Record Seeds
// -----------------
#[test]
fn test_commit_record_seeds() {
    let id = [1, 2, 3];
    let seeds = commit_record_seeds(&id);
    assert_seeds(&seeds, &[COMMIT_RECORD, &id]);
}

#[test]
fn test_commit_record_seeds_with_bump() {
    let id = [1, 2, 3];
    let bump = [4];
    let seeds = commit_record_seeds_with_bump(&id, &bump);
    assert_seeds(&seeds, &[COMMIT_RECORD, &id, &bump]);
}

#[test]
fn test_commit_record_seeds_from_pubkey() {
    let id = unique_pubkey();
    let seeds = commit_record_seeds_from_pubkey(&id);
    assert_seeds(&seeds, &[COMMIT_RECORD, &id.bytes]);
}

#[test]
fn test_commit_record_seeds_with_bump_from_pubkey() {
    let id = unique_pubkey();
    let bump = [4];
    let seeds = commit_record_seeds_with_bump_from_pubkey(&id, &bump);
    assert_seeds(&seeds, &[COMMIT_RECORD, &id.bytes, &bump]);
}

// -----------------
// Delegation PDA
// -----------------
#[test]
fn test_delegation_pda() {
    let id = unique_pubkey();
    let pda = delegation_pda(&id.bytes).unwrap();
    let expected = solana_sdk::pubkey::Pubkey::find_program_address(
        &[DELEGATION, &id.bytes],
        &sdk_program_id(),
    )
    .0;
    assert_eq!(pda.bytes, expected.to_bytes());
}

#[test]
fn test_delegation_pda_with_bump() {
    let id = unique_pubkey();
    let (pda, bump) = delegation_pda_with_bump(&id.bytes).unwrap();
    let expected = solana_sdk::pubkey::Pubkey::find_program_address(
        &[DELEGATION, &id.bytes],
        &sdk_program_id(),
    );
    assert_eq!(pda.bytes, expected.0.to_bytes());
    assert_eq!(bump, expected.1);
}

#[test]
fn test_delegation_pda_from_pubkey() {
    let id = unique_pubkey();
    let pda = delegation_pda_from_pubkey(&id).unwrap();
    let expected = solana_sdk::pubkey::Pubkey::find_program_address(
        &[DELEGATION, &id.bytes],
        &sdk_program_id(),
    )
    .0;
    assert_eq!(pda.bytes, expected.to_bytes());
}

#[test]
fn test_delegation_pda_with_bump_from_pubkey() {
    let id = unique_pubkey();
    let (pda, bump) = delegation_pda_with_bump_from_pubkey(&id).unwrap();
    let expected = solana_sdk::pubkey::Pubkey::find_program_address(
        &[DELEGATION, &id.bytes],
        &sdk_program_id(),
    );
    assert_eq!(pda.bytes, expected.0.to_bytes());
    assert_eq!(bump, expected.1);
}

// -----------------
// Buffer PDA
// -----------------
#[test]
fn test_buffer_pda() {
    let id = unique_pubkey();
    let pda = buffer_pda(&id.bytes).unwrap();
    let expected = solana_sdk::pubkey::Pubkey::find_program_address(
        &[BUFFER, &id.bytes],
        &sdk_program_id(),
    )
    .0;
    assert_eq!(pda.bytes, expected.to_bytes());
}

#[test]
fn test_buffer_pda_with_bump() {
    let id = unique_pubkey();
    let (pda, bump) = buffer_pda_with_bump(&id.bytes).unwrap();
    let expected = solana_sdk::pubkey::Pubkey::find_program_address(
        &[BUFFER, &id.bytes],
        &sdk_program_id(),
    );
    assert_eq!(pda.bytes, expected.0.to_bytes());
    assert_eq!(bump, expected.1);
}

#[test]
fn test_buffer_pda_from_pubkey() {
    let id = unique_pubkey();
    let pda = buffer_pda_from_pubkey(&id).unwrap();
    let expected = solana_sdk::pubkey::Pubkey::find_program_address(
        &[BUFFER, &id.bytes],
        &sdk_program_id(),
    )
    .0;
    assert_eq!(pda.bytes, expected.to_bytes());
}

#[test]
fn test_buffer_pda_with_bump_from_pubkey() {
    let id = unique_pubkey();
    let (pda, bump) = buffer_pda_with_bump_from_pubkey(&id).unwrap();
    let expected = solana_sdk::pubkey::Pubkey::find_program_address(
        &[BUFFER, &id.bytes],
        &sdk_program_id(),
    );
    assert_eq!(pda.bytes, expected.0.to_bytes());
    assert_eq!(bump, expected.1);
}

// -----------------
// Determinism
// -----------------
#[test]
fn test_delegation_pda_deterministic() {
    let id = unique_pubkey();
    let first = delegation_pda_with_bump(&id.bytes).unwrap();
    let second = delegation_pda_with_bump(&id.bytes).unwrap();
    assert_eq!(first.0.bytes, second.0.bytes);
    assert_eq!(first.1, second.1);
}
