//! Account creation and token transfers, as calls for the host to make.
//!
//! The handlers do not move value or allocate accounts themselves: they return the host calls to
//! make, in order, each naming the accounts it involves by their position in the instruction's
//! account list. The host makes them in that order and discards the whole invocation at the first
//! failure.

use vstd::prelude::*;
use crate::account::{AccountView, Address};
use crate::check::{is_derived, pda_error, Check};
use crate::error::BondError;
use crate::pda::create_program_address;
use crate::state::BondSeed;

verus! {

/// The number of decimals of the stake pool token, which every checked transfer asserts.
pub const TOKEN_DECIMALS: u8 = 9;

/// A derived account that authorizes a call by its seeds instead of a signature: the account
/// derived from the address at position `root`, `seed` and `bump`.
#[derive(Clone, Copy, Debug, PartialEq, Eq, Structural)]
pub struct Signer {
    /// The position of the root account (the config account).
    pub root: usize,
    /// The role seed.
    pub seed: BondSeed,
    /// The bump.
    pub bump: u8,
}

/// A call for the host to make.
#[derive(Clone, Copy, Debug, PartialEq, Eq, Structural)]
pub enum HostCall {
    /// Create the account at `target`, owned by the program, with `space` bytes and funded to
    /// rent exemption by `payer`; `signer` authorizes a derived target.
    CreateAccount { payer: usize, target: usize, system_program: usize, space: u32, signer: Option<Signer> },
    /// Create `wallet`'s associated token account for `mint` at `ata`, or do nothing where it
    /// exists already.
    CreateTokenAccount {
        payer: usize,
        ata: usize,
        wallet: usize,
        mint: usize,
        token_program: usize,
        associated_token_program: usize,
        system_program: usize,
    },
    /// Move `amount` tokens of `mint` from `source` to `destination`, authorized by `signer`,
    /// the derived account at `authority`; `decimals` is asserted against the mint.
    TransferChecked {
        draw_authority: usize,
        token_program: usize,
        mint: usize,
        source: usize,
        destination: usize,
        authority: usize,
        signer: Signer,
        amount: u64,
        decimals: u8,
    },
}

/// Creates accounts and moves tokens.
pub struct Create;

impl Create {
    /// The address derived from `config`'s address, `seed` and `bump`.
    pub fn pda(program_id: &Address, config: &AccountView, seed: BondSeed, bump: u8) -> (r: Result<Address, BondError>)
        ensures
            match r {
                Ok(a) => is_derived(*program_id, config.key, seed, bump, a),
                Err(e) => crate::check::derivation_fails(*program_id, config.key, seed, bump)
                    && e == BondError::InvalidSeeds,
            },
    {
        let tag = seed.as_bytes();
        match create_program_address(&config.key, &tag, bump, program_id) {
            Some(a) => Ok(a),
            None => Err(BondError::InvalidSeeds),
        }
    }

    /// Creates the account at `target`, paid by `payer`.
    pub fn account(payer: usize, target: usize, system_program: usize, space: u32, calls: &mut Vec<HostCall>)
        ensures
            final(calls)@ == old(calls)@.push(
                HostCall::CreateAccount { payer, target, system_program, space, signer: None },
            ),
    {
        calls.push(HostCall::CreateAccount { payer, target, system_program, space, signer: None });
    }

    /// Creates the derived account at `pda`, after checking that its address is the one derived
    /// from the config account at `config`, `seed` and `bump`.
    pub fn pda_account(
        program_id: &Address,
        accounts: &Vec<AccountView>,
        config: usize,
        payer: usize,
        pda: usize,
        seed: BondSeed,
        bump: u8,
        system_program: usize,
        space: u32,
        calls: &mut Vec<HostCall>,
    ) -> (r: Result<(), BondError>)
        requires
            config < accounts@.len(),
            pda < accounts@.len(),
        ensures
            r is Ok <==> pda_error(*program_id, accounts@[config as int].key, seed, bump, accounts@[pda as int].key) is None,
            r matches Err(e) ==> pda_error(*program_id, accounts@[config as int].key, seed, bump, accounts@[pda as int].key) == Some(e),
            r is Ok ==> final(calls)@ == old(calls)@.push(
                HostCall::CreateAccount { payer, target: pda, system_program, space, signer: Some(Signer { root: config, seed, bump }) },
            ),
            r is Err ==> final(calls)@ == old(calls)@,
    {
        Check::pda(program_id, &accounts[config], &accounts[pda], seed, bump)?;
        calls.push(HostCall::CreateAccount { payer, target: pda, system_program, space, signer: Some(Signer { root: config, seed, bump }) });
        Ok(())
    }

    /// Creates `wallet`'s associated token account for `mint`, unless it exists.
    pub fn ata_account(
        payer: usize,
        ata: usize,
        wallet: usize,
        mint: usize,
        token_program: usize,
        associated_token_program: usize,
        system_program: usize,
        calls: &mut Vec<HostCall>,
    )
        ensures
            final(calls)@ == old(calls)@.push(
                HostCall::CreateTokenAccount { payer, ata, wallet, mint, token_program, associated_token_program, system_program },
            ),
    {
        calls.push(HostCall::CreateTokenAccount { payer, ata, wallet, mint, token_program, associated_token_program, system_program });
    }

    /// Creates the derived account at `pda` and then its associated token account at `ata`.
    pub fn pda_and_ata_accounts(
        program_id: &Address,
        accounts: &Vec<AccountView>,
        config: usize,
        payer: usize,
        pda: usize,
        seed: BondSeed,
        bump: u8,
        ata: usize,
        mint: usize,
        token_program: usize,
        associated_token_program: usize,
        system_program: usize,
        space: u32,
        calls: &mut Vec<HostCall>,
    ) -> (r: Result<(), BondError>)
        requires
            config < accounts@.len(),
            pda < accounts@.len(),
        ensures
            r is Ok <==> pda_error(*program_id, accounts@[config as int].key, seed, bump, accounts@[pda as int].key) is None,
            r matches Err(e) ==> pda_error(*program_id, accounts@[config as int].key, seed, bump, accounts@[pda as int].key) == Some(e),
            r is Ok ==> final(calls)@ == old(calls)@.push(
                HostCall::CreateAccount { payer, target: pda, system_program, space, signer: Some(Signer { root: config, seed, bump }) },
            ).push(
                HostCall::CreateTokenAccount { payer, ata, wallet: pda, mint, token_program, associated_token_program, system_program },
            ),
            r is Err ==> final(calls)@ == old(calls)@,
    {
        Self::pda_account(program_id, accounts, config, payer, pda, seed, bump, system_program, space, calls)?;
        Self::ata_account(payer, ata, pda, mint, token_program, associated_token_program, system_program, calls);
        Ok(())
    }

    /// Moves `amount` tokens from `source` to `destination`, authorized by the derived account at
    /// `authority` (derived from the config account at `config`, `seed` and `bump`).
    pub fn token_transfer_checked(
        draw_authority: usize,
        config: usize,
        token_program: usize,
        mint: usize,
        source: usize,
        destination: usize,
        authority: usize,
        seed: BondSeed,
        bump: u8,
        amount: u64,
        calls: &mut Vec<HostCall>,
    )
        ensures
            final(calls)@ == old(calls)@.push(
                HostCall::TransferChecked {
                    draw_authority,
                    token_program,
                    mint,
                    source,
                    destination,
                    authority,
                    signer: Signer { root: config, seed, bump },
                    amount,
                    decimals: TOKEN_DECIMALS,
                },
            ),
    {
        calls.push(HostCall::TransferChecked {
            draw_authority,
            token_program,
            mint,
            source,
            destination,
            authority,
            signer: Signer { root: config, seed, bump },
            amount,
            decimals: TOKEN_DECIMALS,
        });
    }
}

} // verus!
