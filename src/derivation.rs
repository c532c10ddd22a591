use vstd::prelude::*;

use crate::error::MetaplexError;

verus! {

/// The program-derived address and bump seed that the Solana runtime finds for
/// `seeds` under `program_id`, or none when no bump seed gives a valid address.
pub uninterp spec fn program_address_of(seeds: Seq<Seq<u8>>, program_id: Seq<u8>) -> Option<
    (Seq<u8>, u8),
>;

/// A derived address seen as plain bytes.
pub open spec fn address_view(d: Option<([u8; 32], u8)>) -> Option<(Seq<u8>, u8)> {
    match d {
        Some((k, b)) => Some((k@, b)),
        None => None,
    }
}

/// Relies on solana_program's `Pubkey::try_find_program_address`: the address
/// and bump seed found for the seeds under the program, a function of both alone.
#[verifier::external_body]
fn try_find_program_address(seeds: &Vec<Vec<u8>>, program_id: &[u8; 32]) -> (r: Option<
    ([u8; 32], u8),
>)
    ensures
        address_view(r) == program_address_of(seeds.deep_view(), program_id@),
{
    let parts: Vec<&[u8]> = seeds.iter().map(|s| s.as_slice()).collect();
    let program = solana_program::pubkey::Pubkey::new_from_array(*program_id);
    solana_program::pubkey::Pubkey::try_find_program_address(&parts, &program).map(
        |(k, b)| (k.to_bytes(), b),
    )
}

/// The seed prefix shared by the accounts of this program: the bytes of "metaplex".
pub open spec fn prefix_seed() -> Seq<u8> {
    seq![109u8, 101u8, 116u8, 97u8, 112u8, 108u8, 101u8, 120u8]
}

/// The seeds of the prize tracking ticket of one auction manager and one mint.
pub open spec fn prize_tracking_seed_seq(
    program_id: Seq<u8>,
    auction_manager: Seq<u8>,
    metadata_mint: Seq<u8>,
) -> Seq<Seq<u8>> {
    seq![prefix_seed(), program_id, auction_manager, metadata_mint]
}

/// The seeds of the auction manager of one auction.
pub open spec fn auction_manager_seed_seq(auction: Seq<u8>) -> Seq<Seq<u8>> {
    seq![prefix_seed(), auction]
}

/// Whether the derivation found `account` as the address.
pub open spec fn derived_matches(d: Option<(Seq<u8>, u8)>, account: Seq<u8>) -> bool {
    match d {
        Some((k, _)) => k == account,
        None => false,
    }
}

/// The bump seed of a derivation that found an address.
pub open spec fn derived_bump(d: Option<(Seq<u8>, u8)>) -> u8 {
    match d {
        Some((_, b)) => b,
        None => 0,
    }
}

proof fn lemma_bytes_deep_view(v: Vec<u8>)
    ensures
        v.deep_view() == v@,
{
    assert(v.deep_view() =~= v@);
}

fn prefix_vec() -> (r: Vec<u8>)
    ensures
        r@ == prefix_seed(),
{
    let r: Vec<u8> = vec![109u8, 101u8, 116u8, 97u8, 112u8, 108u8, 101u8, 120u8];
    assert(r@ =~= prefix_seed());
    r
}

fn key_vec(key: &[u8; 32]) -> (r: Vec<u8>)
    ensures
        r@ == key@,
{
    let mut r: Vec<u8> = Vec::new();
    let mut i: usize = 0;
    while i < 32
        invariant
            i <= 32,
            key@.len() == 32,
            r@ =~= key@.subrange(0, i as int),
        decreases 32 - i,
    {
        r.push(key[i]);
        i += 1;
    }
    assert(r@ =~= key@);
    r
}

/// Whether two addresses hold the same bytes.
pub fn same_key(a: &[u8; 32], b: &[u8; 32]) -> (r: bool)
    ensures
        r == (a@ == b@),
{
    let mut i: usize = 0;
    while i < 32
        invariant
            i <= 32,
            a@.len() == 32,
            b@.len() == 32,
            forall|j: int| 0 <= j < i ==> a@[j] == b@[j],
        decreases 32 - i,
    {
        if a[i] != b[i] {
            return false;
        }
        i += 1;
    }
    assert(a@ =~= b@);
    true
}

/// The seeds `["metaplex", program_id, auction_manager, metadata_mint]` of a
/// prize tracking ticket.
pub fn prize_tracking_seeds(
    program_id: &[u8; 32],
    auction_manager: &[u8; 32],
    metadata_mint: &[u8; 32],
) -> (r: Vec<Vec<u8>>)
    ensures
        r.deep_view() == prize_tracking_seed_seq(program_id@, auction_manager@, metadata_mint@),
{
    let mut r: Vec<Vec<u8>> = Vec::new();
    r.push(prefix_vec());
    r.push(key_vec(program_id));
    r.push(key_vec(auction_manager));
    r.push(key_vec(metadata_mint));
    proof {
        lemma_bytes_deep_view(r@[0]);
        lemma_bytes_deep_view(r@[1]);
        lemma_bytes_deep_view(r@[2]);
        lemma_bytes_deep_view(r@[3]);
    }
    assert(r.deep_view() =~= prize_tracking_seed_seq(
        program_id@,
        auction_manager@,
        metadata_mint@,
    ));
    r
}

/// The seeds `["metaplex", auction]` of an auction manager.
pub fn auction_manager_seeds(auction: &[u8; 32]) -> (r: Vec<Vec<u8>>)
    ensures
        r.deep_view() == auction_manager_seed_seq(auction@),
{
    let mut r: Vec<Vec<u8>> = Vec::new();
    r.push(prefix_vec());
    r.push(key_vec(auction));
    proof {
        lemma_bytes_deep_view(r@[0]);
        lemma_bytes_deep_view(r@[1]);
    }
    assert(r.deep_view() =~= auction_manager_seed_seq(auction@));
    r
}

/// Checks a derivation against the address an account claims: the bump seed
/// when the derived address is `account`, `DerivedKeyInvalid` otherwise.
pub fn check_derivation(derived: Option<([u8; 32], u8)>, account: &[u8; 32]) -> (r: Result<
    u8,
    MetaplexError,
>)
    ensures
        derived_matches(address_view(derived), account@) ==> r == Ok::<u8, MetaplexError>(
            derived_bump(address_view(derived)),
        ),
        !derived_matches(address_view(derived), account@) ==> r == Err::<u8, MetaplexError>(
            MetaplexError::DerivedKeyInvalid,
        ),
{
    match derived {
        Some((key, bump)) => {
            if same_key(&key, account) {
                Ok(bump)
            } else {
                Err(MetaplexError::DerivedKeyInvalid)
            }
        },
        None => Err(MetaplexError::DerivedKeyInvalid),
    }
}

/// Checks that `account` is the address derived from `seeds` under
/// `program_id`, and returns its bump seed.
pub fn assert_derivation(program_id: &[u8; 32], account: &[u8; 32], seeds: &Vec<Vec<u8>>) -> (r:
    Result<u8, MetaplexError>)
    ensures
        derived_matches(program_address_of(seeds.deep_view(), program_id@), account@) ==> r
            == Ok::<u8, MetaplexError>(
            derived_bump(program_address_of(seeds.deep_view(), program_id@)),
        ),
        !derived_matches(program_address_of(seeds.deep_view(), program_id@), account@) ==> r
            == Err::<u8, MetaplexError>(MetaplexError::DerivedKeyInvalid),
{
    let derived = try_find_program_address(seeds, program_id);
    check_derivation(derived, account)
}

} // verus!
