use vstd::prelude::*;

use crate::delegation_record::{CommitFrequency, DelegationRecord};
use crate::pubkey::Pubkey;

verus! {

/// The mathematical content of a delegation record: the same fields as
/// `DelegationRecord`, over sequences and unbounded integers.
pub struct DelegationRecordModel {
    pub authority: Seq<u8>,
    pub owner: Seq<u8>,
    pub delegation_slot: int,
    pub commit_frequency_ms: int,
    pub lamports: int,
}

impl View for DelegationRecord {
    type V = DelegationRecordModel;

    open spec fn view(&self) -> DelegationRecordModel {
        DelegationRecordModel {
            authority: self.authority@,
            owner: self.owner@,
            delegation_slot: self.delegation_slot as int,
            commit_frequency_ms: match self.commit_frequency {
                CommitFrequency::Millis(ms) => ms as int,
            },
            lamports: self.lamports as int,
        }
    }
}

/// The value of the eight little-endian bytes of `data` starting at `off`.
pub open spec fn le_u64_at(data: Seq<u8>, off: int) -> int {
    data[off] + data[off + 1] * 0x100 + data[off + 2] * 0x10000 + data[off + 3] * 0x1000000
        + data[off + 4] * 0x100000000 + data[off + 5] * 0x10000000000 + data[off + 6]
        * 0x1000000000000 + data[off + 7] * 0x100000000000000
}

/// The eight-byte prefix that every delegation-record account's data must
/// start with.
pub open spec fn delegation_record_discriminator() -> Seq<u8> {
    seq![100u8, 0u8, 0u8, 0u8, 0u8, 0u8, 0u8, 0u8]
}

/// How a delegation-record account's data bytes decode: an eight-byte
/// discriminator, then the authority, the original owner, the delegation
/// slot, the commit frequency in milliseconds and the record's balance, the
/// three numbers little-endian. Anything of the wrong length or with the
/// wrong discriminator is rejected.
pub open spec fn parse_delegation_record_spec(data: Seq<u8>) -> Option<DelegationRecordModel> {
    if data.len() == 96 && data.subrange(0, 8) == delegation_record_discriminator() {
        Some(
            DelegationRecordModel {
                authority: data.subrange(8, 40),
                owner: data.subrange(40, 72),
                delegation_slot: le_u64_at(data, 72),
                commit_frequency_ms: le_u64_at(data, 80),
                lamports: le_u64_at(data, 88),
            },
        )
    } else {
        None
    }
}

/// The capability of decoding delegation-record bytes. The production
/// implementation decodes the wire layout; the stub hands back a fixed
/// record, so tests can drive the resolver without wire-encoded fixtures.
pub trait DelegationRecordParser {
    /// What this parser returns on the given bytes.
    spec fn parse_spec(&self, data: Seq<u8>) -> Result<DelegationRecordModel, Seq<char>>;

    /// Decodes the bytes, or reports why they are not a delegation record.
    fn try_parse(&self, data: &[u8]) -> (r: Result<DelegationRecord, String>)
        ensures
            match r {
                Ok(rec) => self.parse_spec(data@) matches Ok(m) && rec@ == m,
                Err(e) => self.parse_spec(data@) matches Err(m) && e@ == m,
            },
    ;
}

/// Reads the eight little-endian bytes of `data` starting at `off`.
fn read_le_u64(data: &[u8], off: usize) -> (r: u64)
    requires
        off + 8 <= data@.len(),
        data@.len() <= usize::MAX,
    ensures
        r == le_u64_at(data@, off as int),
{
    let b0 = data[off] as u64;
    let b1 = data[off + 1] as u64;
    let b2 = data[off + 2] as u64;
    let b3 = data[off + 3] as u64;
    let b4 = data[off + 4] as u64;
    let b5 = data[off + 5] as u64;
    let b6 = data[off + 6] as u64;
    let b7 = data[off + 7] as u64;
    b0 + b1 * 0x100 + b2 * 0x10000 + b3 * 0x1000000 + b4 * 0x100000000 + b5 * 0x10000000000 + b6
        * 0x1000000000000 + b7 * 0x100000000000000
}

/// Copies the 32 bytes of `data` starting at `off` into an address.
fn pubkey_at(data: &[u8], off: usize) -> (r: Pubkey)
    requires
        off + 32 <= data@.len(),
        data@.len() <= usize::MAX,
    ensures
        r@ == data@.subrange(off as int, off as int + 32),
{
    let mut bytes = [0u8; 32];
    let mut i: usize = 0;
    while i < 32
        invariant
            0 <= i <= 32,
            off + 32 <= data@.len(),
            data@.len() <= usize::MAX,
            forall|j: int| 0 <= j < i ==> bytes@[j] == data@[off + j],
        decreases 32 - i,
    {
        bytes[i] = data[off + i];
        i += 1;
    }
    proof {
        assert(bytes@ =~= data@.subrange(off as int, off as int + 32));
    }
    Pubkey::new(bytes)
}

/// The production parser: decodes the wire layout of delegation-record
/// accounts.
pub struct DelegationRecordParserImpl;

impl DelegationRecordParser for DelegationRecordParserImpl {
    open spec fn parse_spec(&self, data: Seq<u8>) -> Result<DelegationRecordModel, Seq<char>> {
        match parse_delegation_record_spec(data) {
            Some(m) => Ok(m),
            None => Err("invalid delegation record data"@),
        }
    }

    fn try_parse(&self, data: &[u8]) -> (r: Result<DelegationRecord, String>) {
        if data.len() != 96 {
            return Err("invalid delegation record data".to_owned());
        }
        let mut i: usize = 0;
        let disc: [u8; 8] = [100u8, 0u8, 0u8, 0u8, 0u8, 0u8, 0u8, 0u8];
        while i < 8
            invariant
                0 <= i <= 8,
                data@.len() == 96,
                disc@ =~= delegation_record_discriminator(),
                forall|j: int| 0 <= j < i ==> data@[j] == disc@[j],
            decreases 8 - i,
        {
            if data[i] != disc[i] {
                proof {
                    assert(data@.subrange(0, 8)[i as int] != delegation_record_discriminator()[
                        i as int
                    ]);
                }
                return Err("invalid delegation record data".to_owned());
            }
            i += 1;
        }
        proof {
            assert(data@.subrange(0, 8) =~= delegation_record_discriminator());
        }
        let authority = pubkey_at(data, 8);
        let owner = pubkey_at(data, 40);
        let delegation_slot = read_le_u64(data, 72);
        let commit_frequency_ms = read_le_u64(data, 80);
        let lamports = read_le_u64(data, 88);
        Ok(
            DelegationRecord {
                authority,
                owner,
                delegation_slot,
                commit_frequency: CommitFrequency::Millis(commit_frequency_ms),
                lamports,
            },
        )
    }
}

/// A parser that ignores the bytes and hands back a preset record, or fails
/// when none is set. Lets tests drive the resolver deterministically.
#[derive(Default)]
pub struct DelegationRecordParserStub {
    pub next_record: Option<DelegationRecord>,
}

impl DelegationRecordParserStub {
    /// A stub that will return the given record, or fail if `None`.
    pub fn new(record: Option<DelegationRecord>) -> (r: DelegationRecordParserStub)
        ensures
            r.next_record == record,
    {
        DelegationRecordParserStub { next_record: record }
    }

    /// Sets the record the stub returns from now on.
    pub fn set_next_record(&mut self, record: DelegationRecord)
        ensures
            final(self).next_record == Some(record),
    {
        self.next_record = Some(record);
    }
}

impl DelegationRecordParser for DelegationRecordParserStub {
    open spec fn parse_spec(&self, data: Seq<u8>) -> Result<DelegationRecordModel, Seq<char>> {
        match self.next_record {
            Some(rec) => Ok(rec@),
            None => Err("Test error"@),
        }
    }

    fn try_parse(&self, data: &[u8]) -> (r: Result<DelegationRecord, String>) {
        match &self.next_record {
            Some(rec) => Ok(*rec),
            None => Err("Test error".to_owned()),
        }
    }
}

} // verus!
