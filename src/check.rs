//! Checks on accounts: each one passes or fails with one error kind.

use vstd::prelude::*;
use crate::account::{AccountView, Address};
use crate::error::BondError;
use crate::pda::{associated_token_address, create_program_address, get_associated_token_address, pda_seeds, program_address};
use crate::state::{BondAccount, BondSeed};

verus! {

/// `key` is the address derived from `root`, `seed` and `bump` for `program_id`.
pub open spec fn is_derived(program_id: Address, root: Address, seed: BondSeed, bump: u8, key: Address) -> bool {
    program_address(pda_seeds(root@, seed.bytes(), bump), program_id@) == Some(key@)
}

/// The derivation from `root`, `seed` and `bump` for `program_id` yields no address.
pub open spec fn derivation_fails(program_id: Address, root: Address, seed: BondSeed, bump: u8) -> bool {
    program_address(pda_seeds(root@, seed.bytes(), bump), program_id@) is None
}

/// The error that [Check::pda] returns, if any.
pub open spec fn pda_error(program_id: Address, root: Address, seed: BondSeed, bump: u8, key: Address) -> Option<BondError> {
    if derivation_fails(program_id, root, seed, bump) {
        Some(BondError::InvalidSeeds)
    } else if !is_derived(program_id, root, seed, bump, key) {
        Some(BondError::AddressMismatch)
    } else {
        None
    }
}

/// The account checks.
pub struct Check;

impl Check {
    /// Checks that the account's balance reaches its rent-exemption threshold.
    pub fn rent_exempt(account: &AccountView) -> (r: Result<(), BondError>)
        ensures
            r is Ok <==> account.lamports >= account.rent_exempt_minimum,
            r is Err ==> r == Err::<(), BondError>(BondError::NotRentExempt),
    {
        if account.lamports < account.rent_exempt_minimum {
            Err(BondError::NotRentExempt)
        } else {
            Ok(())
        }
    }

    /// Checks that the account signed the call.
    pub fn signer(account: &AccountView) -> (r: Result<(), BondError>)
        ensures
            r is Ok <==> account.is_signer,
            r is Err ==> r == Err::<(), BondError>(BondError::MissingSignature),
    {
        if !account.is_signer {
            Err(BondError::MissingSignature)
        } else {
            Ok(())
        }
    }

    /// Checks that the account is writable.
    pub fn writable(account: &AccountView) -> (r: Result<(), BondError>)
        ensures
            r is Ok <==> account.is_writable,
            r is Err ==> r == Err::<(), BondError>(BondError::NotWritable),
    {
        if !account.is_writable {
            Err(BondError::NotWritable)
        } else {
            Ok(())
        }
    }

    /// Checks that the account is read-only.
    pub fn readonly(account: &AccountView) -> (r: Result<(), BondError>)
        ensures
            r is Ok <==> !account.is_writable,
            r is Err ==> r == Err::<(), BondError>(BondError::NotReadonly),
    {
        if account.is_writable {
            Err(BondError::NotReadonly)
        } else {
            Ok(())
        }
    }

    /// Checks that the account signed the call and is writable.
    pub fn signer_and_writable(account: &AccountView) -> (r: Result<(), BondError>)
        ensures
            r is Ok <==> account.is_signer && account.is_writable,
            !account.is_signer ==> r == Err::<(), BondError>(BondError::MissingSignature),
            account.is_signer && !account.is_writable ==> r == Err::<(), BondError>(BondError::NotWritable),
    {
        Self::signer(account)?;
        Self::writable(account)
    }

    /// Checks that the account signed the call and is read-only.
    pub fn signer_and_readonly(account: &AccountView) -> (r: Result<(), BondError>)
        ensures
            r is Ok <==> account.is_signer && !account.is_writable,
            !account.is_signer ==> r == Err::<(), BondError>(BondError::MissingSignature),
            account.is_signer && account.is_writable ==> r == Err::<(), BondError>(BondError::NotReadonly),
    {
        Self::signer(account)?;
        Self::readonly(account)
    }

    /// Checks that the account is owned by `owner_id`.
    pub fn owner(account: &AccountView, owner_id: &Address) -> (r: Result<(), BondError>)
        ensures
            r is Ok <==> account.owner@ == owner_id@,
            r is Err ==> r == Err::<(), BondError>(BondError::IncorrectOwner),
    {
        if !account.owner.same(owner_id) {
            Err(BondError::IncorrectOwner)
        } else {
            Ok(())
        }
    }

    /// Checks that `pubkey`, the owner recorded in a token account, is `account_key`.
    pub fn pubkey(pubkey: &Address, account_key: &Address) -> (r: Result<(), BondError>)
        ensures
            r is Ok <==> pubkey@ == account_key@,
            r is Err ==> r == Err::<(), BondError>(BondError::IncorrectOwner),
    {
        if !pubkey.same(account_key) {
            Err(BondError::IncorrectOwner)
        } else {
            Ok(())
        }
    }

    /// Checks that the account's address is `account_key`.
    pub fn account(account: &AccountView, account_key: &Address) -> (r: Result<(), BondError>)
        ensures
            r is Ok <==> account.key@ == account_key@,
            r is Err ==> r == Err::<(), BondError>(BondError::AddressMismatch),
    {
        if !account.key.same(account_key) {
            Err(BondError::AddressMismatch)
        } else {
            Ok(())
        }
    }

    /// Checks that `pda` is the account derived from `config`'s address, `seed` and `bump`.
    pub fn pda(program_id: &Address, config: &AccountView, pda: &AccountView, seed: BondSeed, bump: u8) -> (r: Result<(), BondError>)
        ensures
            r is Ok <==> pda_error(*program_id, config.key, seed, bump, pda.key) is None,
            r matches Err(e) ==> pda_error(*program_id, config.key, seed, bump, pda.key) == Some(e),
    {
        let tag = seed.as_bytes();
        match create_program_address(&config.key, &tag, bump, program_id) {
            Some(expected) => {
                let r = Self::account(pda, &expected);
                assert(is_derived(*program_id, config.key, seed, bump, pda.key) <==> pda.key@ == expected@);
                r
            },
            None => Err(BondError::InvalidSeeds),
        }
    }

    /// Checks that `ata` is the associated token account of `pda` for `token_mint`.
    pub fn ata(pda: &AccountView, token_mint: &Address, ata: &AccountView) -> (r: Result<(), BondError>)
        ensures
            r is Ok <==> ata.key@ == associated_token_address(pda.key@, token_mint@),
            r is Err ==> r == Err::<(), BondError>(BondError::AddressMismatch),
    {
        let expected = get_associated_token_address(&pda.key, token_mint);
        Self::account(ata, &expected)
    }

    /// Checks that the record has been initialized.
    pub fn initialized<A: BondAccount>(record: &A) -> (r: Result<(), BondError>)
        ensures
            r is Ok <==> record.kind() != crate::state::BondAccountType::Uninitialized,
            r is Err ==> r == Err::<(), BondError>(BondError::UninitializedAccount),
    {
        if !record.is_initialized() {
            Err(BondError::UninitializedAccount)
        } else {
            Ok(())
        }
    }

    /// Checks that the record has not been initialized.
    pub fn uninitialized<A: BondAccount>(record: &A) -> (r: Result<(), BondError>)
        ensures
            r is Ok <==> record.kind() == crate::state::BondAccountType::Uninitialized,
            r is Err ==> r == Err::<(), BondError>(BondError::AlreadyInitialized),
    {
        if record.is_initialized() {
            Err(BondError::AlreadyInitialized)
        } else {
            Ok(())
        }
    }

    /// Checks that the record has been initialized with its expected type.
    pub fn valid<A: BondAccount>(record: &A) -> (r: Result<(), BondError>)
        ensures
            r is Ok <==> record.kind() == A::expected_kind(),
            r is Err ==> r == Err::<(), BondError>(BondError::InvalidAccountType),
    {
        if !record.is_valid() {
            Err(BondError::InvalidAccountType)
        } else {
            Ok(())
        }
    }
}

} // verus!
