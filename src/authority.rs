use vstd::prelude::*;

use crate::pubkey::{
    canonical_address, create_program_address, find_program_address, opt_key_view,
    program_address, seeds_view, Pubkey,
};

verus! {

/// The domain tag of a treasury's token authority: the bytes of "treasury".
pub open spec fn treasury_tag() -> Seq<u8> {
    seq![116u8, 114u8, 101u8, 97u8, 115u8, 117u8, 114u8, 121u8]
}

/// The domain tag of a promise record: the bytes of "promise".
pub open spec fn promise_tag() -> Seq<u8> {
    seq![112u8, 114u8, 111u8, 109u8, 105u8, 115u8, 101u8]
}

/// Seeds of the token authority of the treasury at `treasury`.
pub open spec fn authority_seeds(treasury: Seq<u8>) -> Seq<Seq<u8>> {
    seq![treasury_tag(), treasury]
}

/// Seeds of the promise record of `beneficiary` in the treasury at `treasury`.
pub open spec fn promise_seeds(treasury: Seq<u8>, beneficiary: Seq<u8>) -> Seq<Seq<u8>> {
    seq![promise_tag(), treasury, beneficiary]
}

/// Whether `seeds` followed by `bump` derive exactly `address`.
pub open spec fn derives(seeds: Seq<Seq<u8>>, bump: u8, program_id: Seq<u8>, address: Seq<u8>) -> bool {
    program_address(seeds.push(seq![bump]), program_id) == Some(address)
}

fn treasury_tag_vec() -> (r: Vec<u8>)
    ensures
        r@ == treasury_tag(),
{
    let r: Vec<u8> = vec![116u8, 114u8, 101u8, 97u8, 115u8, 117u8, 114u8, 121u8];
    assert(r@ =~= treasury_tag());
    r
}

fn promise_tag_vec() -> (r: Vec<u8>)
    ensures
        r@ == promise_tag(),
{
    let r: Vec<u8> = vec![112u8, 114u8, 111u8, 109u8, 105u8, 115u8, 101u8];
    assert(r@ =~= promise_tag());
    r
}

fn authority_seeds_vec(treasury: &Pubkey) -> (r: Vec<Vec<u8>>)
    ensures
        seeds_view(r@) == authority_seeds(treasury@),
{
    let mut r: Vec<Vec<u8>> = Vec::new();
    r.push(treasury_tag_vec());
    r.push(treasury.to_vec());
    assert(seeds_view(r@) =~= authority_seeds(treasury@));
    r
}

fn promise_seeds_vec(treasury: &Pubkey, beneficiary: &Pubkey) -> (r: Vec<Vec<u8>>)
    ensures
        seeds_view(r@) == promise_seeds(treasury@, beneficiary@),
{
    let mut r: Vec<Vec<u8>> = Vec::new();
    r.push(promise_tag_vec());
    r.push(treasury.to_vec());
    r.push(beneficiary.to_vec());
    assert(seeds_view(r@) =~= promise_seeds(treasury@, beneficiary@));
    r
}

/// Checks that `seeds` followed by `bump` derive `claimed`.
fn verify_derivation(seeds: Vec<Vec<u8>>, bump: u8, program_id: &Pubkey, claimed: &Pubkey) -> (r: bool)
    ensures
        r == derives(seeds_view(seeds@), bump, program_id@, claimed@),
{
    let mut with_bump = seeds;
    let ghost before = seeds_view(with_bump@);
    let last: Vec<u8> = vec![bump];
    assert(last@ =~= seq![bump]);
    with_bump.push(last);
    assert(seeds_view(with_bump@) =~= before.push(seq![bump]));
    match create_program_address(&with_bump, program_id) {
        Some(a) => a.same(claimed),
        None => false,
    }
}

/// The canonical token authority of the treasury at `treasury` and its bump:
/// the highest bump from 255 down that derives an address.
pub fn derive_authority(program_id: &Pubkey, treasury: &Pubkey) -> (r: Option<(Pubkey, u8)>)
    ensures
        match r {
            Some((a, b)) => canonical_address(authority_seeds(treasury@), program_id@) == Some((a@, b)),
            None => canonical_address(authority_seeds(treasury@), program_id@) is None,
        },
{
    let seeds = authority_seeds_vec(treasury);
    find_program_address(&seeds, program_id)
}

/// The canonical address of the promise record of `beneficiary` in the
/// treasury at `treasury`, and its bump.
pub fn derive_promise_address(program_id: &Pubkey, treasury: &Pubkey, beneficiary: &Pubkey) -> (r: Option<(Pubkey, u8)>)
    ensures
        match r {
            Some((a, b)) => canonical_address(promise_seeds(treasury@, beneficiary@), program_id@) == Some((a@, b)),
            None => canonical_address(promise_seeds(treasury@, beneficiary@), program_id@) is None,
        },
{
    let seeds = promise_seeds_vec(treasury, beneficiary);
    find_program_address(&seeds, program_id)
}

/// Whether `claimed` is the token authority that the treasury at `treasury`
/// derives with `bump`.
pub fn verify_authority(program_id: &Pubkey, treasury: &Pubkey, bump: u8, claimed: &Pubkey) -> (r: bool)
    ensures
        r == derives(authority_seeds(treasury@), bump, program_id@, claimed@),
{
    verify_derivation(authority_seeds_vec(treasury), bump, program_id, claimed)
}

/// Whether `claimed` is the canonical address of the promise record of
/// `beneficiary` in the treasury at `treasury`, and `bump` its canonical
/// bump. Any other bump is refused, even one that derives an address.
pub fn verify_promise_address(
    program_id: &Pubkey,
    treasury: &Pubkey,
    beneficiary: &Pubkey,
    bump: u8,
    claimed: &Pubkey,
) -> (r: bool)
    ensures
        r == (canonical_address(promise_seeds(treasury@, beneficiary@), program_id@) == Some((claimed@, bump))),
{
    match derive_promise_address(program_id, treasury, beneficiary) {
        Some((a, b)) => b == bump && a.same(claimed),
        None => false,
    }
}

} // verus!
