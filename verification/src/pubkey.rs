use vstd::prelude::*;

verus! {

/// A 32-byte account address, stored as plain bytes so that contracts can
/// speak about its content directly. Whether the address lies on the ed25519
/// curve (a wallet key) or off it (a program-derived address) is decided by
/// the `on_curve` predicate below.
#[derive(Clone, Copy, Debug, PartialEq, Eq, Hash)]
pub struct Pubkey {
    pub bytes: [u8; 32],
}

impl View for Pubkey {
    type V = Seq<u8>;

    open spec fn view(&self) -> Seq<u8> {
        self.bytes@
    }
}

/// Whether 32 bytes form a valid ed25519 curve point. Only the curve
/// arithmetic in the outside library can decide this; the result is a
/// function of the bytes alone.
pub uninterp spec fn on_curve(bytes: Seq<u8>) -> bool;

/// Base58 decoding of a textual address into its 32 bytes, a function of the
/// text alone; `None` when the text is not a well-formed address.
pub uninterp spec fn pubkey_of_base58(s: Seq<char>) -> Option<Seq<u8>>;

/// Relies on solana_sdk's `Pubkey::is_on_curve`: whether the bytes are a
/// valid ed25519 curve point, computed from the bytes alone.
#[verifier::external_body]
fn is_on_curve_bytes(bytes: &[u8; 32]) -> (r: bool)
    ensures
        r == on_curve(bytes@),
{
    solana_sdk::pubkey::Pubkey::new_from_array(*bytes).is_on_curve()
}

/// Relies on solana_sdk's `Pubkey::from_str`: base58-decodes the text and
/// accepts it exactly when it decodes to 32 bytes.
#[verifier::external_body]
pub(crate) fn parse_pubkey(s: &str) -> (r: Option<Pubkey>)
    ensures
        match r {
            Some(pk) => pubkey_of_base58(s@) == Some(pk@),
            None => pubkey_of_base58(s@) is None,
        },
{
    match <solana_sdk::pubkey::Pubkey as core::str::FromStr>::from_str(s) {
        Ok(pk) => Some(Pubkey { bytes: pk.to_bytes() }),
        Err(_) => None,
    }
}

impl Pubkey {
    /// Builds an address from its 32 bytes.
    pub fn new(bytes: [u8; 32]) -> (r: Pubkey)
        ensures
            r@ == bytes@,
    {
        Pubkey { bytes }
    }

    /// Whether this address is a valid ed25519 curve point (a wallet key
    /// rather than a program-derived address).
    pub fn is_on_curve(&self) -> (r: bool)
        ensures
            r == on_curve(self@),
    {
        is_on_curve_bytes(&self.bytes)
    }

    /// Byte-for-byte equality of two addresses.
    pub fn equals(&self, other: &Pubkey) -> (r: bool)
        ensures
            r == (self@ == other@),
    {
        let mut i: usize = 0;
        while i < 32
            invariant
                0 <= i <= 32,
                forall|j: int| 0 <= j < i ==> self.bytes@[j] == other.bytes@[j],
            decreases 32 - i,
        {
            if self.bytes[i] != other.bytes[i] {
                return false;
            }
            i += 1;
        }
        proof {
            assert(self@ =~= other@);
        }
        true
    }
}

/// The owner recorded for accounts that do not exist: the system program,
/// whose address is all zero bytes.
pub open spec fn system_program_id_bytes() -> Seq<u8> {
    Seq::new(32, |i: int| 0u8)
}

/// The system program's address (all zero bytes), used as the owner of
/// absent accounts.
pub fn system_program_id() -> (r: Pubkey)
    ensures
        r@ == system_program_id_bytes(),
{
    let bytes = [0u8; 32];
    proof {
        assert(bytes@ =~= system_program_id_bytes());
    }
    Pubkey { bytes }
}

} // verus!
