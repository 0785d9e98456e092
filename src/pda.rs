//! Derived addresses: the program's own accounts and associated token accounts.

use vstd::prelude::*;
use crate::account::Address;

verus! {

/// The address that the host derives from `seeds` and `program_id`, or none where the hash of
/// the seeds is a point of the curve.
pub uninterp spec fn program_address(seeds: Seq<Seq<u8>>, program_id: Seq<u8>) -> Option<Seq<u8>>;

/// The associated token account address of `wallet` for `mint`.
pub uninterp spec fn associated_token_address(wallet: Seq<u8>, mint: Seq<u8>) -> Seq<u8>;

/// The seeds `[root, tag, [bump]]` of one of the program's derived accounts.
pub open spec fn pda_seeds(root: Seq<u8>, tag: Seq<u8>, bump: u8) -> Seq<Seq<u8>> {
    seq![root, tag, seq![bump]]
}

/// Relies on `Pubkey::create_program_address` of solana_program: it hashes the seeds with the
/// program id and returns the result unless it lies on the curve. It fails for a seed longer
/// than 32 bytes, which `requires` leaves out.
#[verifier::external_body]
pub(crate) fn create_program_address(root: &Address, tag: &Vec<u8>, bump: u8, program_id: &Address) -> (r: Option<Address>)
    requires
        tag@.len() <= 32,
    ensures
        match r {
            Some(a) => program_address(pda_seeds(root@, tag@, bump), program_id@) == Some(a@),
            None => program_address(pda_seeds(root@, tag@, bump), program_id@) is None,
        },
{
    let program = solana_program::pubkey::Pubkey::new_from_array(program_id.bytes);
    let seeds: [&[u8]; 3] = [&root.bytes, tag.as_slice(), &[bump]];
    solana_program::pubkey::Pubkey::create_program_address(&seeds, &program)
        .ok()
        .map(|k| Address::new(k.to_bytes()))
}

/// Relies on `get_associated_token_address` of spl_associated_token_account: the associated
/// token account address of a wallet for a mint under the token program, a function of the two
/// addresses alone. Its search for a bump panics only in what the documentation of
/// `find_program_address` calls the statistically improbable event that no bump yields an
/// address, which no condition on the arguments can rule out.
#[verifier::external_body]
pub(crate) fn get_associated_token_address(wallet: &Address, mint: &Address) -> (r: Address)
    ensures
        r@ == associated_token_address(wallet@, mint@),
{
    let w = solana_program::pubkey::Pubkey::new_from_array(wallet.bytes);
    let m = solana_program::pubkey::Pubkey::new_from_array(mint.bytes);
    Address::new(spl_associated_token_account::get_associated_token_address(&w, &m).to_bytes())
}

} // verus!
