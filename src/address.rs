use anchor_lang::solana_program::pubkey::{Pubkey, PubkeyError};
use vstd::prelude::*;

verus! {

/// A 32-byte account key: a participant, a program or a record address.
pub type Key = [u8; 32];

#[verifier::external_type_specification]
#[verifier::external_body]
pub struct ExPubkeyError(PubkeyError);

/// The program address that `seeds` and `program_id` derive, or `None` where
/// they derive no valid one.
pub uninterp spec fn program_address(seeds: Seq<Seq<u8>>, program_id: Seq<u8>) -> Option<
    Seq<u8>,
>;

/// Relies on anchor's `Pubkey::create_program_address`: it hashes the seeds
/// and the program id, and refuses a result that lies on the ed25519 curve or
/// seeds that are too many or too long. The outcome depends on the arguments
/// alone.
#[verifier::external_body]
fn create_program_address(seeds: &Vec<Vec<u8>>, program_id: &Key) -> (r: Result<Key, PubkeyError>)
    ensures
        match r {
            Ok(a) => program_address(seeds.deep_view(), program_id@) == Some(a@),
            Err(_) => program_address(seeds.deep_view(), program_id@) is None,
        },
{
    let seeds: Vec<&[u8]> = seeds.iter().map(|s| s.as_slice()).collect();
    Pubkey::create_program_address(&seeds, &Pubkey::new_from_array(*program_id)).map(
        |a| a.to_bytes(),
    )
}

/// The domain tag that opens the seeds of every discount record.
pub open spec fn user_discount_tag() -> Seq<u8> {
    // the bytes of "user_discount"
    seq![117u8, 115, 101, 114, 95, 100, 105, 115, 99, 111, 117, 110, 116]
}

/// The seeds of the discount record of `user` whose derivation ended on `bump`.
pub open spec fn user_discount_seeds(user: Seq<u8>, bump: u8) -> Seq<Seq<u8>> {
    seq![user_discount_tag(), user, seq![bump]]
}

/// The address of the discount record of `user` under `program_id`, as
/// completed by `bump`; `None` where that derivation fails.
pub open spec fn user_discount_address(user: Seq<u8>, bump: u8, program_id: Seq<u8>) -> Option<
    Seq<u8>,
> {
    program_address(user_discount_seeds(user, bump), program_id)
}

fn key_bytes(k: &Key) -> (r: Vec<u8>)
    ensures
        r@ == k@,
{
    let mut r: Vec<u8> = Vec::new();
    let mut i: usize = 0;
    while i < 32
        invariant
            i <= 32,
            r@ == k@.subrange(0, i as int),
        decreases 32 - i,
    {
        r.push(k[i]);
        i = i + 1;
        assert(r@ =~= k@.subrange(0, i as int));
    }
    assert(k@.subrange(0, 32) =~= k@);
    r
}

/// The seeds that derive the discount record of `user` with `bump`.
pub fn discount_seeds(user: &Key, bump: u8) -> (r: Vec<Vec<u8>>)
    ensures
        r.deep_view() == user_discount_seeds(user@, bump),
{
    let tag: Vec<u8> = vec![117u8, 115, 101, 114, 95, 100, 105, 115, 99, 111, 117, 110, 116];
    let mut r: Vec<Vec<u8>> = Vec::new();
    r.push(tag);
    r.push(key_bytes(user));
    r.push(vec![bump]);
    assert(r.deep_view()[0] =~= user_discount_tag());
    assert(r.deep_view()[1] =~= user@);
    assert(r.deep_view()[2] =~= seq![bump]);
    assert(r.deep_view() =~= user_discount_seeds(user@, bump));
    r
}

/// Derives the address of `user`'s discount record under `program_id`,
/// completed by `bump`.
pub fn derive_user_discount_address(user: &Key, bump: u8, program_id: &Key) -> (r: Option<Key>)
    ensures
        match r {
            Some(a) => user_discount_address(user@, bump, program_id@) == Some(a@),
            None => user_discount_address(user@, bump, program_id@) is None,
        },
{
    let seeds = discount_seeds(user, bump);
    match create_program_address(&seeds, program_id) {
        Ok(a) => Some(a),
        Err(_) => None,
    }
}

/// Whether two keys hold the same bytes.
pub fn same_key(a: &Key, b: &Key) -> (r: bool)
    ensures
        r == (a@ == b@),
{
    let mut i: usize = 0;
    while i < 32
        invariant
            i <= 32,
            forall|j: int| 0 <= j < i ==> a@[j] == b@[j],
        decreases 32 - i,
    {
        if a[i] != b[i] {
            return false;
        }
        i = i + 1;
    }
    assert(a@ =~= b@);
    true
}

} // verus!
