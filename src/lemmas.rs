//! Laws of the share arithmetic and of the handlers, stated over their contracts.

use vstd::prelude::*;
use vstd::bytes::lemma_auto_spec_u64_to_from_le_bytes;
use crate::account::{AccountView, Address, Clock, ProgramIds};
use crate::check::{derivation_fails, is_derived};
use crate::create::HostCall;
use crate::error::BondError;
use crate::processor::{
    config_error, init_target_ok,
    create_outcome, draw_outcome, init_outcome, split_outcome, CreateParams, InitBumps, EQUITY_DENOMINATOR, EQUITY_NUMERATOR, JACKPOT_DENOMINATOR,
    JACKPOT_NUMERATOR, STAKE_DENOMINATOR, STAKE_NUMERATOR, TREASURY_DENOMINATOR, TREASURY_NUMERATOR,
};
use crate::state::{
    record_authority, share_of, state_draw_id, BondAccountType, BondConfig, BondFee, BondSeed, BondShare, BondState,
};
use crate::token::{token_amount, TokenAccount};

verus! {

/// A share with a zero denominator is zero, whatever the amount.
pub proof fn lemma_share_zero_denominator(share: BondShare, amount: u64)
    requires
        share.denominator == 0,
    ensures
        share.share_spec(amount) == 0,
{
}

/// A share with a positive denominator is `floor(amount * numerator / denominator)`.
pub proof fn lemma_share_floor(share: BondShare, amount: u64)
    requires
        share.denominator > 0,
    ensures
        share.share_spec(amount) == (amount as int) * (share.numerator as int) / (share.denominator as int),
        share.share_spec(amount) * (share.denominator as int) <= (amount as int) * (share.numerator as int),
        (amount as int) * (share.numerator as int) < (share.share_spec(amount) + 1) * (share.denominator as int),
{
    let a = amount as int;
    let n = share.numerator as int;
    let d = share.denominator as int;
    vstd::arithmetic::div_mod::lemma_fundamental_div_mod(a * n, d);
    assert(0 <= (a * n) % d < d) by {
        vstd::arithmetic::div_mod::lemma_mod_bound(a * n, d);
    }
    assert((a * n / d) * d == d * (a * n / d)) by (nonlinear_arith);
    assert((a * n / d + 1) * d == (a * n / d) * d + d) by (nonlinear_arith);
}

/// What a share takes of the common denominator `d`: its numerator, or nothing where its own
/// denominator is zero.
pub open spec fn part_of(share: BondShare) -> int {
    if share.denominator == 0 { 0 } else { share.numerator as int }
}

/// Rounding never creates value: where the equity, treasury, jackpot and stake shares are
/// fractions over one denominator `d` (or have a zero denominator) whose numerators add up to
/// at most `d`, their shares of an amount add up to at most the amount.
pub proof fn lemma_split_conserves(amount: u64, equity: BondShare, treasury: BondShare, jackpot: BondShare, stake: BondShare, d: u32)
    requires
        d > 0,
        equity.denominator == 0 || equity.denominator == d,
        treasury.denominator == 0 || treasury.denominator == d,
        jackpot.denominator == 0 || jackpot.denominator == d,
        stake.denominator == 0 || stake.denominator == d,
        part_of(equity) + part_of(treasury) + part_of(jackpot) + part_of(stake) <= d,
    ensures
        equity.share_spec(amount) + treasury.share_spec(amount) + jackpot.share_spec(amount) + stake.share_spec(amount) <= amount,
{
    let a = amount as int;
    let dd = d as int;
    lemma_share_times(equity, amount, d);
    lemma_share_times(treasury, amount, d);
    lemma_share_times(jackpot, amount, d);
    lemma_share_times(stake, amount, d);
    let x1 = equity.share_spec(amount);
    let x2 = treasury.share_spec(amount);
    let x3 = jackpot.share_spec(amount);
    let x4 = stake.share_spec(amount);
    let p = part_of(equity) + part_of(treasury) + part_of(jackpot) + part_of(stake);
    assert((x1 + x2 + x3 + x4) * dd <= a * p) by (nonlinear_arith)
        requires
            x1 * dd <= a * part_of(equity),
            x2 * dd <= a * part_of(treasury),
            x3 * dd <= a * part_of(jackpot),
            x4 * dd <= a * part_of(stake),
            p == part_of(equity) + part_of(treasury) + part_of(jackpot) + part_of(stake);
    assert(a * p <= a * dd) by (nonlinear_arith)
        requires 0 <= a, p <= dd;
    assert(x1 + x2 + x3 + x4 <= a) by (nonlinear_arith)
        requires (x1 + x2 + x3 + x4) * dd <= a * dd, dd > 0;
}

/// A share times the common denominator is at most the amount times its part.
proof fn lemma_share_times(share: BondShare, amount: u64, d: u32)
    requires
        d > 0,
        share.denominator == 0 || share.denominator == d,
    ensures
        share.share_spec(amount) * (d as int) <= (amount as int) * part_of(share),
{
    if share.denominator != 0 {
        lemma_share_floor(share, amount);
    }
}

/// The fractions that Initialize gives the shares split an amount `f` into `f / 10`, `0`,
/// `4 f / 5` and `f / 10`, which add up to at most `f`.
pub proof fn lemma_initial_split(f: u64)
    ensures
        share_of(f as int, EQUITY_NUMERATOR as int, EQUITY_DENOMINATOR as int) == f / 10,
        share_of(f as int, TREASURY_NUMERATOR as int, TREASURY_DENOMINATOR as int) == 0,
        share_of(f as int, JACKPOT_NUMERATOR as int, JACKPOT_DENOMINATOR as int) == 4 * (f as int) / 5,
        share_of(f as int, STAKE_NUMERATOR as int, STAKE_DENOMINATOR as int) == f / 10,
        f / 10 + 4 * (f as int) / 5 + f / 10 <= f,
{
    let x = f as int;
    assert(x * 10 / 100 == x / 10) by {
        assert(x * 10 == 10 * x) by (nonlinear_arith);
        vstd::arithmetic::div_mod::lemma_div_denominator(10 * x, 10, 10);
        vstd::arithmetic::div_mod::lemma_div_multiples_vanish(x, 10);
    }
    assert(x * 80 / 100 == 4 * x / 5) by {
        assert(x * 80 == 20 * (4 * x)) by (nonlinear_arith);
        vstd::arithmetic::div_mod::lemma_div_denominator(20 * (4 * x), 20, 5);
        vstd::arithmetic::div_mod::lemma_div_multiples_vanish(4 * x, 20);
    }
    assert(x / 10 + 4 * x / 5 + x / 10 <= x) by {
        vstd::arithmetic::div_mod::lemma_fundamental_div_mod(x, 10);
        vstd::arithmetic::div_mod::lemma_fundamental_div_mod(4 * x, 5);
        vstd::arithmetic::div_mod::lemma_mod_bound(x, 10);
        vstd::arithmetic::div_mod::lemma_mod_bound(4 * x, 5);
        assert(x >= 0);
        assert((x / 10) * 10 <= x) by (nonlinear_arith)
            requires x == 10 * (x / 10) + x % 10, x % 10 >= 0;
        assert((4 * x / 5) * 5 <= 4 * x) by (nonlinear_arith)
            requires 4 * x == 5 * (4 * x / 5) + (4 * x) % 5, (4 * x) % 5 >= 0;
        assert(x / 10 + 4 * x / 5 + x / 10 <= x) by (nonlinear_arith)
            requires (x / 10) * 10 <= x, (4 * x / 5) * 5 <= 4 * x, x >= 0;
    }
}

/// A draw that pays or rolls over a non-empty jackpot was called with the draw id after the
/// stored one, and leaves that id stored.
pub proof fn lemma_draw_advances_id(
    program_id: Address,
    a: Seq<AccountView>,
    f: Seq<AccountView>,
    clock: Clock,
    receiver_seed: u64,
    draw_seed: u64,
    r: Result<Seq<HostCall>, BondError>,
)
    requires
        draw_outcome(program_id, a, f, clock, receiver_seed, draw_seed, r),
        r is Ok,
        token_amount(a[4].data@) != 0,
    ensures
        draw_seed == state_draw_id(a[2].data@) + 1,
        state_draw_id(f[2].data@) == draw_seed,
{
    lemma_auto_spec_u64_to_from_le_bytes();
    assert(f[2].data@.subrange(34, 42) =~= vstd::bytes::spec_u64_to_le_bytes(draw_seed));
}

/// A draw on a non-empty jackpot with any sequence number but the next draw id fails with
/// InvalidSeeds and changes no account.
pub proof fn lemma_draw_rejects_stale_seed(
    program_id: Address,
    a: Seq<AccountView>,
    f: Seq<AccountView>,
    clock: Clock,
    receiver_seed: u64,
    draw_seed: u64,
    r: Result<Seq<HostCall>, BondError>,
)
    requires
        draw_outcome(program_id, a, f, clock, receiver_seed, draw_seed, r),
        crate::processor::draw_checks(program_id, a),
        token_amount(a[4].data@) != 0,
        draw_seed != state_draw_id(a[2].data@) + 1,
    ensures
        r == Err::<Seq<HostCall>, BondError>(BondError::InvalidSeeds),
        f == a,
{
}

/// A draw on an empty jackpot changes no account and makes no call.
pub proof fn lemma_draw_empty_jackpot(
    program_id: Address,
    a: Seq<AccountView>,
    f: Seq<AccountView>,
    clock: Clock,
    receiver_seed: u64,
    draw_seed: u64,
    r: Result<Seq<HostCall>, BondError>,
)
    requires
        draw_outcome(program_id, a, f, clock, receiver_seed, draw_seed, r),
        crate::processor::draw_checks(program_id, a),
        token_amount(a[4].data@) == 0,
    ensures
        r == Ok::<Seq<HostCall>, BondError>(Seq::empty()),
        f == a,
{
}

/// A draw whose state account is not at the address derived from the config account, its seed
/// and its stored bump fails and changes no account.
pub proof fn lemma_draw_rejects_foreign_state(
    program_id: Address,
    a: Seq<AccountView>,
    f: Seq<AccountView>,
    clock: Clock,
    receiver_seed: u64,
    draw_seed: u64,
    r: Result<Seq<HostCall>, BondError>,
)
    requires
        draw_outcome(program_id, a, f, clock, receiver_seed, draw_seed, r),
        a.len() >= 10,
        !is_derived(program_id, a[1].key, BondSeed::State, a[2].data@[33], a[2].key),
    ensures
        r is Err,
        f == a,
{
}

/// A split whose fee account, or the account of one of its shares, is not at the address
/// derived from the config account, its seed and its stored bump fails.
pub proof fn lemma_split_rejects_foreign_accounts(program_id: Address, a: Seq<AccountView>, amount: Option<u64>, r: Result<Seq<HostCall>, BondError>)
    requires
        split_outcome(program_id, a, amount, r),
        a.len() >= 14,
        !is_derived(program_id, a[1].key, BondSeed::Fee, a[2].data@[33], a[2].key)
            || !is_derived(program_id, a[1].key, BondSeed::Equity, a[4].data@[33], a[4].key)
            || !is_derived(program_id, a[1].key, BondSeed::Treasury, a[6].data@[33], a[6].key)
            || !is_derived(program_id, a[1].key, BondSeed::Jackpot, a[8].data@[33], a[8].key)
            || !is_derived(program_id, a[1].key, BondSeed::Stake, a[10].data@[33], a[10].key),
    ensures
        r is Err,
{
}

/// Initialize with a derived account not at the address derived from the config account, its
/// seed and the given bump fails and changes no account.
pub proof fn lemma_initialize_rejects_foreign_accounts(
    program_id: Address,
    ids: ProgramIds,
    a: Seq<AccountView>,
    f: Seq<AccountView>,
    b: InitBumps,
    capacity: u32,
    excluded: Seq<Address>,
    r: Result<(), BondError>,
)
    requires
        init_outcome(program_id, ids, a, f, b, capacity, excluded, r),
        a.len() >= 11,
        !is_derived(program_id, a[1].key, BondSeed::State, b.state, a[4].key)
            || !is_derived(program_id, a[1].key, BondSeed::Fee, b.fee, a[5].key)
            || !is_derived(program_id, a[1].key, BondSeed::ExclusionList, b.exclusion_list, a[6].key)
            || !is_derived(program_id, a[1].key, BondSeed::Equity, b.equity, a[7].key)
            || !is_derived(program_id, a[1].key, BondSeed::Treasury, b.treasury, a[8].key)
            || !is_derived(program_id, a[1].key, BondSeed::Jackpot, b.jackpot, a[9].key)
            || !is_derived(program_id, a[1].key, BondSeed::Stake, b.stake, a[10].key),
    ensures
        r is Err,
        f == a,
{
}

/// Create with a derived account not at the address derived from the config account, its seed
/// and the given bump fails, and so asks the host for nothing.
pub proof fn lemma_create_rejects_foreign_accounts(
    program_id: Address,
    ids: ProgramIds,
    a: Seq<AccountView>,
    p: CreateParams,
    r: Result<Seq<HostCall>, BondError>,
)
    requires
        create_outcome(program_id, ids, a, p, r),
        a.len() >= 18,
        !is_derived(program_id, a[1].key, BondSeed::State, p.state_bump, a[2].key)
            || !is_derived(program_id, a[1].key, BondSeed::Fee, p.fee_bump, a[3].key)
            || !is_derived(program_id, a[1].key, BondSeed::ExclusionList, p.exclusion_list_bump, a[5].key)
            || !is_derived(program_id, a[1].key, BondSeed::Equity, p.equity_bump, a[6].key)
            || !is_derived(program_id, a[1].key, BondSeed::Treasury, p.treasury_bump, a[8].key)
            || !is_derived(program_id, a[1].key, BondSeed::Jackpot, p.jackpot_bump, a[10].key)
            || !is_derived(program_id, a[1].key, BondSeed::Stake, p.stake_bump, a[12].key),
    ensures
        r is Err,
{
}

/// A draw whose accounts pass every check up to the state account, and whose state account is
/// not at the address derived from the config account, its seed and its stored bump, fails
/// with AddressMismatch and changes no account.
pub proof fn lemma_draw_state_mismatch(
    program_id: Address,
    a: Seq<AccountView>,
    f: Seq<AccountView>,
    clock: Clock,
    receiver_seed: u64,
    draw_seed: u64,
    r: Result<Seq<HostCall>, BondError>,
)
    requires
        draw_outcome(program_id, a, f, clock, receiver_seed, draw_seed, r),
        a.len() >= 10,
        config_error(program_id, a) is None,
        BondState::decodes(a[2].data@),
        a[2].owner@ == program_id@,
        a[2].data@[0] == BondAccountType::State.tag(),
        a[1].key@ == record_authority(a[2].data@),
        !derivation_fails(program_id, a[1].key, BondSeed::State, a[2].data@[33]),
        !is_derived(program_id, a[1].key, BondSeed::State, a[2].data@[33], a[2].key),
    ensures
        r == Err::<Seq<HostCall>, BondError>(BondError::AddressMismatch),
        f == a,
{
}

/// A split whose accounts pass every check up to the fee account, and whose fee account is not
/// at the address derived from the config account, its seed and its stored bump, fails with
/// AddressMismatch.
pub proof fn lemma_split_fee_mismatch(program_id: Address, a: Seq<AccountView>, amount: Option<u64>, r: Result<Seq<HostCall>, BondError>)
    requires
        split_outcome(program_id, a, amount, r),
        a.len() >= 14,
        config_error(program_id, a) is None,
        BondFee::decodes(a[2].data@),
        TokenAccount::decodes(a[3].data@),
        a[1].key@ == record_authority(a[2].data@),
        a[2].owner@ == program_id@,
        a[2].data@[0] == BondAccountType::Fee.tag(),
        !derivation_fails(program_id, a[1].key, BondSeed::Fee, a[2].data@[33]),
        !is_derived(program_id, a[1].key, BondSeed::Fee, a[2].data@[33], a[2].key),
    ensures
        r == Err::<Seq<HostCall>, BondError>(BondError::AddressMismatch),
{
}

/// Initialize with accounts that pass every check up to the state account, and a state account
/// not at the address derived from the config account, its seed and the given bump, fails with
/// AddressMismatch and changes no account.
pub proof fn lemma_initialize_state_mismatch(
    program_id: Address,
    ids: ProgramIds,
    a: Seq<AccountView>,
    f: Seq<AccountView>,
    b: InitBumps,
    capacity: u32,
    excluded: Seq<Address>,
    r: Result<(), BondError>,
)
    requires
        init_outcome(program_id, ids, a, f, b, capacity, excluded, r),
        a.len() >= 11,
        a[0].is_signer && a[1].is_signer && a[1].is_writable && a[2].is_signer,
        a[3].owner@ == ids.token_program@,
        BondConfig::decodes(a[1].data@),
        init_target_ok(program_id, a[1]),
        BondState::decodes(a[4].data@),
        !derivation_fails(program_id, a[1].key, BondSeed::State, b.state),
        !is_derived(program_id, a[1].key, BondSeed::State, b.state, a[4].key),
    ensures
        r == Err::<(), BondError>(BondError::AddressMismatch),
        f == a,
{
}

/// Create with accounts that pass the signer, writable and program checks, and a state account
/// not at the address derived from the config account, its seed and the given bump, fails with
/// AddressMismatch.
pub proof fn lemma_create_state_mismatch(
    program_id: Address,
    ids: ProgramIds,
    a: Seq<AccountView>,
    p: CreateParams,
    r: Result<Seq<HostCall>, BondError>,
)
    requires
        create_outcome(program_id, ids, a, p, r),
        a.len() >= 18,
        a[0].is_signer && a[1].is_signer && a[1].is_writable,
        forall|j: int| 2 <= j <= 13 ==> #[trigger] a[j].is_writable,
        a[14].owner@ == ids.token_program@,
        a[15].key@ == ids.token_program@,
        a[16].key@ == ids.associated_token_program@,
        a[17].key@ == ids.system_program@,
        !derivation_fails(program_id, a[1].key, BondSeed::State, p.state_bump),
        !is_derived(program_id, a[1].key, BondSeed::State, p.state_bump, a[2].key),
    ensures
        r == Err::<Seq<HostCall>, BondError>(BondError::AddressMismatch),
{
}

} // verus!
