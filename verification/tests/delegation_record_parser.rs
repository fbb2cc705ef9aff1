use std::str::FromStr;

use conjunto::delegation_record::{CommitFrequency, DelegationRecord};
use conjunto::delegation_record_parser::{DelegationRecordParser, DelegationRecordParserImpl, DelegationRecordParserStub};
use conjunto::pubkey::Pubkey;

fn pubkey_of(base58: &str) -> Pubkey {
    Pubkey::new(solana_sdk::pubkey::Pubkey::from_str(base58).unwrap().to_bytes())
}

fn record_bytes(
    authority: &Pubkey,
    owner: &Pubkey,
    delegation_slot: u64,
    commit_frequency_ms: u64,
    lamports: u64,
) -> Vec<u8> {
    let mut data = vec![100u8, 0, 0, 0, 0, 0, 0, 0];
    data.extend_from_slice(&authority.bytes);
    data.extend_from_slice(&owner.bytes);
    data.extend_from_slice(&delegation_slot.to_le_bytes());
    data.extend_from_slice(&commit_frequency_ms.to_le_bytes());
    data.extend_from_slice(&lamports.to_le_bytes());
    data
}

#[test]
fn test_delegation_record_parser() {
    let authority = pubkey_of("CLMS5guJDje8BA9tQdd1wXmGmPx5S32yhGztw4xytAYN");
    let owner = pubkey_of("CLMS5guJDje8BA9tQdd1wXmGmPx5S32yhGztw4xytAYN");
    let data = record_bytes(&authority, &owner, 4, 30_000, 500);
    let parser = DelegationRecordParserImpl;
    let record = parser.try_parse(&data).unwrap();
    assert_eq!(
        record,
        DelegationRecord {
            authority,
            owner,
            delegation_slot: 4,
            commit_frequency: CommitFrequency::Millis(30_000),
            lamports: 500,
        }
    );
}

#[test]
fn test_delegation_record_parser_rejects_wrong_discriminator() {
    let authority = pubkey_of("CLMS5guJDje8BA9tQdd1wXmGmPx5S32yhGztw4xytAYN");
    let owner = pubkey_of("CLMS5guJDje8BA9tQdd1wXmGmPx5S32yhGztw4xytAYN");
    let mut data = record_bytes(&authority, &owner, 4, 30_000, 500);
    data[0] = 99;
    let parser = DelegationRecordParserImpl;
    assert!(parser.try_parse(&data).is_err());
}

#[test]
fn test_delegation_record_parser_rejects_truncated_data() {
    let authority = pubkey_of("CLMS5guJDje8BA9tQdd1wXmGmPx5S32yhGztw4xytAYN");
    let owner = pubkey_of("CLMS5guJDje8BA9tQdd1wXmGmPx5S32yhGztw4xytAYN");
    let mut data = record_bytes(&authority, &owner, 4, 30_000, 500);
    data.truncate(80);
    let parser = DelegationRecordParserImpl;
    assert!(parser.try_parse(&data).is_err());
}

#[test]
fn test_delegation_record_parser_stub_returns_preset_record() {
    let owner = pubkey_of("CLMS5guJDje8BA9tQdd1wXmGmPx5S32yhGztw4xytAYN");
    let record = DelegationRecord::default_with_owner(owner);
    let mut stub = DelegationRecordParserStub::new(None);
    assert!(stub.try_parse(&[1, 2, 3]).is_err());
    stub.set_next_record(record);
    assert_eq!(stub.try_parse(&[1, 2, 3]).unwrap(), record);
}
