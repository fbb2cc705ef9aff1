use vstd::prelude::*;

use vstd::slice::slice_to_vec;

use crate::pubkey::Pubkey;

verus! {

// Seed prefixes, wire-bit-exact: the bytes of "delegation", "buffer",
// "state-diff" and "commit-state-record". They are the first seed element of
// every derivation; changing them breaks wire compatibility.

/// The bytes of `b"delegation"`.
pub open spec fn delegation_prefix() -> Seq<u8> {
    seq![100u8, 101u8, 108u8, 101u8, 103u8, 97u8, 116u8, 105u8, 111u8, 110u8]
}

/// The bytes of `b"buffer"`.
pub open spec fn buffer_prefix() -> Seq<u8> {
    seq![98u8, 117u8, 102u8, 102u8, 101u8, 114u8]
}

/// The bytes of `b"state-diff"`.
pub open spec fn state_diff_prefix() -> Seq<u8> {
    seq![115u8, 116u8, 97u8, 116u8, 101u8, 45u8, 100u8, 105u8, 102u8, 102u8]
}

/// The bytes of `b"commit-state-record"`.
pub open spec fn commit_record_prefix() -> Seq<u8> {
    seq![99u8, 111u8, 109u8, 109u8, 105u8, 116u8, 45u8, 115u8, 116u8, 97u8, 116u8, 101u8, 45u8,
        114u8, 101u8, 99u8, 111u8, 114u8, 100u8]
}

/// The address of the delegation program under which every PDA here is
/// derived.
pub open spec fn delegation_program_id_bytes() -> Seq<u8> {
    seq![181u8, 183u8, 0u8, 225u8, 242u8, 87u8, 58u8, 192u8, 204u8, 6u8, 34u8, 1u8, 52u8, 74u8,
        207u8, 151u8, 184u8, 53u8, 6u8, 235u8, 140u8, 229u8, 25u8, 152u8, 204u8, 98u8, 126u8,
        24u8, 147u8, 128u8, 167u8, 62u8]
}

/// The delegation program's address.
pub fn delegation_program_id() -> (r: Pubkey)
    ensures
        r@ == delegation_program_id_bytes(),
{
    let bytes: [u8; 32] = [181u8, 183u8, 0u8, 225u8, 242u8, 87u8, 58u8, 192u8, 204u8, 6u8, 34u8,
        1u8, 52u8, 74u8, 207u8, 151u8, 184u8, 53u8, 6u8, 235u8, 140u8, 229u8, 25u8, 152u8, 204u8,
        98u8, 126u8, 24u8, 147u8, 128u8, 167u8, 62u8];
    proof {
        assert(bytes@ =~= delegation_program_id_bytes());
    }
    Pubkey::new(bytes)
}

/// The address and bump seed that program-derived-address search yields for
/// the given seeds under the given program, or `None` when no bump yields a
/// valid address. A function of the seeds and program id alone.
pub uninterp spec fn program_address_of(seeds: Seq<Seq<u8>>, program_id: Seq<u8>) -> Option<
    (Seq<u8>, u8),
>;

/// Relies on solana_sdk's `Pubkey::try_find_program_address`: searches bump
/// seeds from 255 downward and returns the first valid derived address with
/// its bump; `None` in the statistically improbable case that none is valid.
#[verifier::external_body]
fn find_program_address(seeds: &Vec<Vec<u8>>, program_id: &Pubkey) -> (r: Option<(Pubkey, u8)>)
    ensures
        match r {
            Some((pk, bump)) => program_address_of(seeds.deep_view(), program_id@) == Some(
                (pk@, bump),
            ),
            None => program_address_of(seeds.deep_view(), program_id@) is None,
        },
{
    let seed_refs: Vec<&[u8]> = seeds.iter().map(|s| s.as_slice()).collect();
    solana_sdk::pubkey::Pubkey::try_find_program_address(
        &seed_refs,
        &solana_sdk::pubkey::Pubkey::new_from_array(program_id.bytes),
    ).map(|(pk, bump)| (Pubkey { bytes: pk.to_bytes() }, bump))
}

/// The seed pair `[prefix, id]` as owned vectors.
fn seeds_pair(prefix: Vec<u8>, pda_id: &[u8]) -> (r: Vec<Vec<u8>>)
    ensures
        r@.len() == 2,
        r@[0]@ == prefix@,
        r@[1]@ == pda_id@,
{
    let id: Vec<u8> = slice_to_vec(pda_id);
    let mut r: Vec<Vec<u8>> = Vec::new();
    r.push(prefix);
    r.push(id);
    r
}

/// The seed triple `[prefix, id, bump]` as owned vectors.
fn seeds_triple(prefix: Vec<u8>, pda_id: &[u8], bump: &[u8; 1]) -> (r: Vec<Vec<u8>>)
    ensures
        r@.len() == 3,
        r@[0]@ == prefix@,
        r@[1]@ == pda_id@,
        r@[2]@ == bump@,
{
    let id: Vec<u8> = slice_to_vec(pda_id);
    let b: Vec<u8> = slice_to_vec(bump.as_slice());
    let mut r: Vec<Vec<u8>> = Vec::new();
    r.push(prefix);
    r.push(id);
    r.push(b);
    r
}

/// Derives the first program address for `[prefix, pda_id]` under the
/// delegation program.
fn derive_pda(prefix: Vec<u8>, pda_id: &[u8]) -> (r: Option<(Pubkey, u8)>)
    ensures
        match r {
            Some((pk, bump)) => program_address_of(
                seq![prefix@, pda_id@],
                delegation_program_id_bytes(),
            ) == Some((pk@, bump)),
            None => program_address_of(seq![prefix@, pda_id@], delegation_program_id_bytes())
                is None,
        },
{
    let ghost prefix_bytes = prefix@;
    let seeds = seeds_pair(prefix, pda_id);
    let program_id = delegation_program_id();
    proof {
        assert(seeds@[0].deep_view() =~= prefix_bytes);
        assert(seeds@[1].deep_view() =~= pda_id@);
        assert(seeds.deep_view() =~= seq![prefix_bytes, pda_id@]);
    }
    find_program_address(&seeds, &program_id)
}

/// The bytes of `b"delegation"` as an owned vector.
pub fn delegation_seed_bytes() -> (r: Vec<u8>)
    ensures
        r@ == delegation_prefix(),
{
    let r: Vec<u8> = vec![100u8, 101u8, 108u8, 101u8, 103u8, 97u8, 116u8, 105u8, 111u8, 110u8];
    proof {
        assert(r@ =~= delegation_prefix());
    }
    r
}

/// The bytes of `b"buffer"` as an owned vector.
pub fn buffer_seed_bytes() -> (r: Vec<u8>)
    ensures
        r@ == buffer_prefix(),
{
    let r: Vec<u8> = vec![98u8, 117u8, 102u8, 102u8, 101u8, 114u8];
    proof {
        assert(r@ =~= buffer_prefix());
    }
    r
}

/// The bytes of `b"state-diff"` as an owned vector.
pub fn state_diff_seed_bytes() -> (r: Vec<u8>)
    ensures
        r@ == state_diff_prefix(),
{
    let r: Vec<u8> = vec![115u8, 116u8, 97u8, 116u8, 101u8, 45u8, 100u8, 105u8, 102u8, 102u8];
    proof {
        assert(r@ =~= state_diff_prefix());
    }
    r
}

/// The bytes of `b"commit-state-record"` as an owned vector.
pub fn commit_record_seed_bytes() -> (r: Vec<u8>)
    ensures
        r@ == commit_record_prefix(),
{
    let r: Vec<u8> = vec![99u8, 111u8, 109u8, 109u8, 105u8, 116u8, 45u8, 115u8, 116u8, 97u8,
        116u8, 101u8, 45u8, 114u8, 101u8, 99u8, 111u8, 114u8, 100u8];
    proof {
        assert(r@ =~= commit_record_prefix());
    }
    r
}

/// The delegation PDA of the given id: derived from `[b"delegation", id]`.
pub open spec fn delegation_pda_of(id: Seq<u8>) -> Option<(Seq<u8>, u8)> {
    program_address_of(seq![delegation_prefix(), id], delegation_program_id_bytes())
}

/// The buffer PDA of the given id: derived from `[b"buffer", id]`.
pub open spec fn buffer_pda_of(id: Seq<u8>) -> Option<(Seq<u8>, u8)> {
    program_address_of(seq![buffer_prefix(), id], delegation_program_id_bytes())
}

/// The state-diff PDA of the given id: derived from `[b"state-diff", id]`.
pub open spec fn state_diff_pda_of(id: Seq<u8>) -> Option<(Seq<u8>, u8)> {
    program_address_of(seq![state_diff_prefix(), id], delegation_program_id_bytes())
}

/// The commit-record PDA of the given id: derived from
/// `[b"commit-state-record", id]`.
pub open spec fn commit_record_pda_of(id: Seq<u8>) -> Option<(Seq<u8>, u8)> {
    program_address_of(seq![commit_record_prefix(), id], delegation_program_id_bytes())
}

/// Law: PDA derivation is deterministic. Every derivation is pinned to
/// `program_address_of` over the same seeds and program id, so two
/// derivations from the same id yield the same address and bump.
pub proof fn lemma_pda_derivation_deterministic(
    id: Seq<u8>,
    r1: Option<(Seq<u8>, u8)>,
    r2: Option<(Seq<u8>, u8)>,
)
    requires
        r1 == delegation_pda_of(id),
        r2 == delegation_pda_of(id),
    ensures
        r1 == r2,
{
}

// The seed and PDA functions of the four categories. Each category exposes
// the same eight functions; only the prefix differs.

/// The seed pair `[b"delegation", pda_id]`.
pub fn delegation_seeds(pda_id: &[u8]) -> (r: Vec<Vec<u8>>)
    ensures
        r@.len() == 2,
        r@[0]@ == delegation_prefix(),
        r@[1]@ == pda_id@,
{
    seeds_pair(delegation_seed_bytes(), pda_id)
}

/// The seed triple `[b"delegation", pda_id, bump]`.
pub fn delegation_seeds_with_bump(pda_id: &[u8], bump: &[u8; 1]) -> (r: Vec<Vec<u8>>)
    ensures
        r@.len() == 3,
        r@[0]@ == delegation_prefix(),
        r@[1]@ == pda_id@,
        r@[2]@ == bump@,
{
    seeds_triple(delegation_seed_bytes(), pda_id, bump)
}

/// The seed pair `[b"delegation", pubkey bytes]`.
pub fn delegation_seeds_from_pubkey(pda_id: &Pubkey) -> (r: Vec<Vec<u8>>)
    ensures
        r@.len() == 2,
        r@[0]@ == delegation_prefix(),
        r@[1]@ == pda_id@,
{
    seeds_pair(delegation_seed_bytes(), pda_id.bytes.as_slice())
}

/// The seed triple `[b"delegation", pubkey bytes, bump]`.
pub fn delegation_seeds_with_bump_from_pubkey(pda_id: &Pubkey, bump: &[u8; 1]) -> (r: Vec<
    Vec<u8>,
>)
    ensures
        r@.len() == 3,
        r@[0]@ == delegation_prefix(),
        r@[1]@ == pda_id@,
        r@[2]@ == bump@,
{
    seeds_triple(delegation_seed_bytes(), pda_id.bytes.as_slice(), bump)
}

/// The first derivable delegation PDA of `pda_id`, with its bump seed.
pub fn delegation_pda_with_bump(pda_id: &[u8]) -> (r: Option<(Pubkey, u8)>)
    ensures
        match r {
            Some((pk, bump)) => delegation_pda_of(pda_id@) == Some((pk@, bump)),
            None => delegation_pda_of(pda_id@) is None,
        },
{
    derive_pda(delegation_seed_bytes(), pda_id)
}

/// The first derivable delegation PDA of `pda_id`.
pub fn delegation_pda(pda_id: &[u8]) -> (r: Option<Pubkey>)
    ensures
        r matches Some(pk) ==> delegation_pda_of(pda_id@) matches Some(p) && p.0 == pk@,
        r is None <==> delegation_pda_of(pda_id@) is None,
{
    match delegation_pda_with_bump(pda_id) {
        Some((pk, _)) => Some(pk),
        None => None,
    }
}

/// The first derivable delegation PDA of a pubkey, with its bump seed.
pub fn delegation_pda_with_bump_from_pubkey(pda_id: &Pubkey) -> (r: Option<(Pubkey, u8)>)
    ensures
        match r {
            Some((pk, bump)) => delegation_pda_of(pda_id@) == Some((pk@, bump)),
            None => delegation_pda_of(pda_id@) is None,
        },
{
    delegation_pda_with_bump(pda_id.bytes.as_slice())
}

/// The first derivable delegation PDA of a pubkey.
pub fn delegation_pda_from_pubkey(pda_id: &Pubkey) -> (r: Option<Pubkey>)
    ensures
        r matches Some(pk) ==> delegation_pda_of(pda_id@) matches Some(p) && p.0 == pk@,
        r is None <==> delegation_pda_of(pda_id@) is None,
{
    delegation_pda(pda_id.bytes.as_slice())
}

/// The seed pair `[b"buffer", pda_id]`.
pub fn buffer_seeds(pda_id: &[u8]) -> (r: Vec<Vec<u8>>)
    ensures
        r@.len() == 2,
        r@[0]@ == buffer_prefix(),
        r@[1]@ == pda_id@,
{
    seeds_pair(buffer_seed_bytes(), pda_id)
}

/// The seed triple `[b"buffer", pda_id, bump]`.
pub fn buffer_seeds_with_bump(pda_id: &[u8], bump: &[u8; 1]) -> (r: Vec<Vec<u8>>)
    ensures
        r@.len() == 3,
        r@[0]@ == buffer_prefix(),
        r@[1]@ == pda_id@,
        r@[2]@ == bump@,
{
    seeds_triple(buffer_seed_bytes(), pda_id, bump)
}

/// The seed pair `[b"buffer", pubkey bytes]`.
pub fn buffer_seeds_from_pubkey(pda_id: &Pubkey) -> (r: Vec<Vec<u8>>)
    ensures
        r@.len() == 2,
        r@[0]@ == buffer_prefix(),
        r@[1]@ == pda_id@,
{
    seeds_pair(buffer_seed_bytes(), pda_id.bytes.as_slice())
}

/// The seed triple `[b"buffer", pubkey bytes, bump]`.
pub fn buffer_seeds_with_bump_from_pubkey(pda_id: &Pubkey, bump: &[u8; 1]) -> (r: Vec<Vec<u8>>)
    ensures
        r@.len() == 3,
        r@[0]@ == buffer_prefix(),
        r@[1]@ == pda_id@,
        r@[2]@ == bump@,
{
    seeds_triple(buffer_seed_bytes(), pda_id.bytes.as_slice(), bump)
}

/// The first derivable buffer PDA of `pda_id`, with its bump seed.
pub fn buffer_pda_with_bump(pda_id: &[u8]) -> (r: Option<(Pubkey, u8)>)
    ensures
        match r {
            Some((pk, bump)) => buffer_pda_of(pda_id@) == Some((pk@, bump)),
            None => buffer_pda_of(pda_id@) is None,
        },
{
    derive_pda(buffer_seed_bytes(), pda_id)
}

/// The first derivable buffer PDA of `pda_id`.
pub fn buffer_pda(pda_id: &[u8]) -> (r: Option<Pubkey>)
    ensures
        r matches Some(pk) ==> buffer_pda_of(pda_id@) matches Some(p) && p.0 == pk@,
        r is None <==> buffer_pda_of(pda_id@) is None,
{
    match buffer_pda_with_bump(pda_id) {
        Some((pk, _)) => Some(pk),
        None => None,
    }
}

/// The first derivable buffer PDA of a pubkey, with its bump seed.
pub fn buffer_pda_with_bump_from_pubkey(pda_id: &Pubkey) -> (r: Option<(Pubkey, u8)>)
    ensures
        match r {
            Some((pk, bump)) => buffer_pda_of(pda_id@) == Some((pk@, bump)),
            None => buffer_pda_of(pda_id@) is None,
        },
{
    buffer_pda_with_bump(pda_id.bytes.as_slice())
}

/// The first derivable buffer PDA of a pubkey.
pub fn buffer_pda_from_pubkey(pda_id: &Pubkey) -> (r: Option<Pubkey>)
    ensures
        r matches Some(pk) ==> buffer_pda_of(pda_id@) matches Some(p) && p.0 == pk@,
        r is None <==> buffer_pda_of(pda_id@) is None,
{
    buffer_pda(pda_id.bytes.as_slice())
}

/// The seed pair `[b"state-diff", pda_id]`.
pub fn state_diff_seeds(pda_id: &[u8]) -> (r: Vec<Vec<u8>>)
    ensures
        r@.len() == 2,
        r@[0]@ == state_diff_prefix(),
        r@[1]@ == pda_id@,
{
    seeds_pair(state_diff_seed_bytes(), pda_id)
}

/// The seed triple `[b"state-diff", pda_id, bump]`.
pub fn state_diff_seeds_with_bump(pda_id: &[u8], bump: &[u8; 1]) -> (r: Vec<Vec<u8>>)
    ensures
        r@.len() == 3,
        r@[0]@ == state_diff_prefix(),
        r@[1]@ == pda_id@,
        r@[2]@ == bump@,
{
    seeds_triple(state_diff_seed_bytes(), pda_id, bump)
}

/// The seed pair `[b"state-diff", pubkey bytes]`.
pub fn state_diff_seeds_from_pubkey(pda_id: &Pubkey) -> (r: Vec<Vec<u8>>)
    ensures
        r@.len() == 2,
        r@[0]@ == state_diff_prefix(),
        r@[1]@ == pda_id@,
{
    seeds_pair(state_diff_seed_bytes(), pda_id.bytes.as_slice())
}

/// The seed triple `[b"state-diff", pubkey bytes, bump]`.
pub fn state_diff_seeds_with_bump_from_pubkey(pda_id: &Pubkey, bump: &[u8; 1]) -> (r: Vec<
    Vec<u8>,
>)
    ensures
        r@.len() == 3,
        r@[0]@ == state_diff_prefix(),
        r@[1]@ == pda_id@,
        r@[2]@ == bump@,
{
    seeds_triple(state_diff_seed_bytes(), pda_id.bytes.as_slice(), bump)
}

/// The first derivable state-diff PDA of `pda_id`, with its bump seed.
pub fn state_diff_pda_with_bump(pda_id: &[u8]) -> (r: Option<(Pubkey, u8)>)
    ensures
        match r {
            Some((pk, bump)) => state_diff_pda_of(pda_id@) == Some((pk@, bump)),
            None => state_diff_pda_of(pda_id@) is None,
        },
{
    derive_pda(state_diff_seed_bytes(), pda_id)
}

/// The first derivable state-diff PDA of `pda_id`.
pub fn state_diff_pda(pda_id: &[u8]) -> (r: Option<Pubkey>)
    ensures
        r matches Some(pk) ==> state_diff_pda_of(pda_id@) matches Some(p) && p.0 == pk@,
        r is None <==> state_diff_pda_of(pda_id@) is None,
{
    match state_diff_pda_with_bump(pda_id) {
        Some((pk, _)) => Some(pk),
        None => None,
    }
}

/// The first derivable state-diff PDA of a pubkey, with its bump seed.
pub fn state_diff_pda_with_bump_from_pubkey(pda_id: &Pubkey) -> (r: Option<(Pubkey, u8)>)
    ensures
        match r {
            Some((pk, bump)) => state_diff_pda_of(pda_id@) == Some((pk@, bump)),
            None => state_diff_pda_of(pda_id@) is None,
        },
{
    state_diff_pda_with_bump(pda_id.bytes.as_slice())
}

/// The first derivable state-diff PDA of a pubkey.
pub fn state_diff_pda_from_pubkey(pda_id: &Pubkey) -> (r: Option<Pubkey>)
    ensures
        r matches Some(pk) ==> state_diff_pda_of(pda_id@) matches Some(p) && p.0 == pk@,
        r is None <==> state_diff_pda_of(pda_id@) is None,
{
    state_diff_pda(pda_id.bytes.as_slice())
}

/// The seed pair `[b"commit-state-record", pda_id]`.
pub fn commit_record_seeds(pda_id: &[u8]) -> (r: Vec<Vec<u8>>)
    ensures
        r@.len() == 2,
        r@[0]@ == commit_record_prefix(),
        r@[1]@ == pda_id@,
{
    seeds_pair(commit_record_seed_bytes(), pda_id)
}

/// The seed triple `[b"commit-state-record", pda_id, bump]`.
pub fn commit_record_seeds_with_bump(pda_id: &[u8], bump: &[u8; 1]) -> (r: Vec<Vec<u8>>)
    ensures
        r@.len() == 3,
        r@[0]@ == commit_record_prefix(),
        r@[1]@ == pda_id@,
        r@[2]@ == bump@,
{
    seeds_triple(commit_record_seed_bytes(), pda_id, bump)
}

/// The seed pair `[b"commit-state-record", pubkey bytes]`.
pub fn commit_record_seeds_from_pubkey(pda_id: &Pubkey) -> (r: Vec<Vec<u8>>)
    ensures
        r@.len() == 2,
        r@[0]@ == commit_record_prefix(),
        r@[1]@ == pda_id@,
{
    seeds_pair(commit_record_seed_bytes(), pda_id.bytes.as_slice())
}

/// The seed triple `[b"commit-state-record", pubkey bytes, bump]`.
pub fn commit_record_seeds_with_bump_from_pubkey(pda_id: &Pubkey, bump: &[u8; 1]) -> (r: Vec<
    Vec<u8>,
>)
    ensures
        r@.len() == 3,
        r@[0]@ == commit_record_prefix(),
        r@[1]@ == pda_id@,
        r@[2]@ == bump@,
{
    seeds_triple(commit_record_seed_bytes(), pda_id.bytes.as_slice(), bump)
}

/// The first derivable commit-record PDA of `pda_id`, with its bump seed.
pub fn commit_record_pda_with_bump(pda_id: &[u8]) -> (r: Option<(Pubkey, u8)>)
    ensures
        match r {
            Some((pk, bump)) => commit_record_pda_of(pda_id@) == Some((pk@, bump)),
            None => commit_record_pda_of(pda_id@) is None,
        },
{
    derive_pda(commit_record_seed_bytes(), pda_id)
}

/// The first derivable commit-record PDA of `pda_id`.
pub fn commit_record_pda(pda_id: &[u8]) -> (r: Option<Pubkey>)
    ensures
        r matches Some(pk) ==> commit_record_pda_of(pda_id@) matches Some(p) && p.0 == pk@,
        r is None <==> commit_record_pda_of(pda_id@) is None,
{
    match commit_record_pda_with_bump(pda_id) {
        Some((pk, _)) => Some(pk),
        None => None,
    }
}

/// The first derivable commit-record PDA of a pubkey, with its bump seed.
pub fn commit_record_pda_with_bump_from_pubkey(pda_id: &Pubkey) -> (r: Option<(Pubkey, u8)>)
    ensures
        match r {
            Some((pk, bump)) => commit_record_pda_of(pda_id@) == Some((pk@, bump)),
            None => commit_record_pda_of(pda_id@) is None,
        },
{
    commit_record_pda_with_bump(pda_id.bytes.as_slice())
}

/// The first derivable commit-record PDA of a pubkey.
pub fn commit_record_pda_from_pubkey(pda_id: &Pubkey) -> (r: Option<Pubkey>)
    ensures
        r matches Some(pk) ==> commit_record_pda_of(pda_id@) matches Some(p) && p.0 == pk@,
        r is None <==> commit_record_pda_of(pda_id@) is None,
{
    commit_record_pda(pda_id.bytes.as_slice())
}

} // verus!
