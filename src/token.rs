//! The token accounts held by the program's derived accounts.

use vstd::prelude::*;
use vstd::bytes::spec_u64_from_le_bytes;
use crate::account::Address;
use crate::error::BondError;
use spl_token::solana_program::program_pack::Pack;

verus! {

/// The number of bytes of a token account.
pub const TOKEN_ACCOUNT_LEN: usize = 165;

/// What the program reads of a token account.
#[derive(Clone, Copy, Debug)]
pub struct TokenAccount {
    /// The token's mint.
    pub mint: Address,
    /// The account's owner.
    pub owner: Address,
    /// The account's balance.
    pub amount: u64,
}

/// The owner stored in a token account.
pub open spec fn token_owner(d: Seq<u8>) -> Seq<u8> {
    d.subrange(32, 64)
}

/// The balance stored in a token account.
pub open spec fn token_amount(d: Seq<u8>) -> u64 {
    spec_u64_from_le_bytes(d.subrange(64, 72))
}

/// An optional-value tag of the token layout: four bytes, `[0, 0, 0, 0]` or `[1, 0, 0, 0]`.
pub open spec fn option_tag_ok(d: Seq<u8>, at: int) -> bool {
    (d[at] == 0 || d[at] == 1) && d[at + 1] == 0 && d[at + 2] == 0 && d[at + 3] == 0
}

/// The first 165 bytes of `d` hold a well-formed token account: the delegate, native-amount and
/// close-authority tags are well-formed and the state byte is 0, 1 or 2.
pub open spec fn token_layout_ok(d: Seq<u8>) -> bool {
    &&& option_tag_ok(d, 72)
    &&& d[108] <= 2
    &&& option_tag_ok(d, 109)
    &&& option_tag_ok(d, 129)
}

/// Relies on `Account::unpack_from_slice` of spl_token: it reads the mint at bytes 0..32, the
/// owner at 32..64 and the balance, little-endian, at 64..72, and fails where a tag of the layout
/// is not well-formed. It panics on fewer than 165 bytes, which `requires` leaves out.
#[verifier::external_body]
fn unpack_token_account(data: &Vec<u8>) -> (r: Option<TokenAccount>)
    requires
        data@.len() >= TOKEN_ACCOUNT_LEN,
    ensures
        r is Some <==> token_layout_ok(data@),
        r matches Some(t) ==> t.mint@ == data@.subrange(0, 32) && t.owner@ == data@.subrange(32, 64)
            && t.amount == spec_u64_from_le_bytes(data@.subrange(64, 72)),
{
    spl_token::state::Account::unpack_from_slice(data.as_slice()).ok().map(|a| TokenAccount {
        mint: Address::new(a.mint.to_bytes()),
        owner: Address::new(a.owner.to_bytes()),
        amount: a.amount,
    })
}

impl TokenAccount {
    /// `d` holds a token account.
    pub open spec fn decodes(d: Seq<u8>) -> bool {
        d.len() >= TOKEN_ACCOUNT_LEN && token_layout_ok(d)
    }

    /// Decodes a token account from `data`.
    pub fn from_bytes(data: &Vec<u8>) -> (r: Result<TokenAccount, BondError>)
        ensures
            r is Ok <==> Self::decodes(data@),
            r matches Ok(t) ==> t.mint@ == data@.subrange(0, 32) && t.owner@ == token_owner(data@)
                && t.amount == token_amount(data@),
            r is Err ==> r == Err::<TokenAccount, BondError>(BondError::InvalidAccountData),
    {
        if data.len() < TOKEN_ACCOUNT_LEN {
            return Err(BondError::InvalidAccountData);
        }
        match unpack_token_account(data) {
            Some(t) => Ok(t),
            None => Err(BondError::InvalidAccountData),
        }
    }
}

} // verus!
