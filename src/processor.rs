//! The instruction handlers: each validates its accounts, then writes records and returns the
//! host calls to make. A handler that fails leaves every account as it was.

use vstd::prelude::*;
use vstd::bytes::spec_u64_to_le_bytes;
use crate::account::{AccountView, Address, Clock, ProgramIds};
use crate::check::{is_derived, pda_error, Check};
use crate::create::{Create, HostCall, Signer, TOKEN_DECIMALS};
use crate::error::BondError;
use crate::instruction::BondInstruction;
use crate::state::{
    config_draw_authority, record_authority, share_denominator, share_numerator, share_of,
    state_draw_id, stored, BondAccountType, BondConfig, BondDraw, BondExclusionList, BondFee,
    BondSeed, BondShare, BondState, SHARE_LEN,
};
use crate::token::{token_amount, token_owner, TokenAccount};

verus! {

/// Two views of one account agree on everything but the bytes.
pub open spec fn same_meta(a: AccountView, b: AccountView) -> bool {
    &&& a.key == b.key
    &&& a.owner == b.owner
    &&& a.is_signer == b.is_signer
    &&& a.is_writable == b.is_writable
    &&& a.lamports == b.lamports
    &&& a.rent_exempt_minimum == b.rent_exempt_minimum
}

/// `after` is `before` with the bytes of account `i` replaced by `data`.
pub open spec fn rewritten(before: Seq<AccountView>, after: Seq<AccountView>, i: int, data: Seq<u8>) -> bool {
    &&& after.len() == before.len()
    &&& same_meta(after[i], before[i])
    &&& after[i].data@ == data
    &&& forall|j: int| 0 <= j < before.len() && j != i ==> after[j] == before[j]
}

/// Writes `bytes` over the start of account `i`'s data.
fn write_data(accounts: &mut Vec<AccountView>, i: usize, bytes: &Vec<u8>)
    requires
        i < old(accounts)@.len(),
        bytes@.len() <= old(accounts)@[i as int].data@.len(),
    ensures
        rewritten(old(accounts)@, final(accounts)@, i as int, stored(bytes@, old(accounts)@[i as int].data@)),
{
    let a = &accounts[i];
    let mut data = a.data.clone();
    assert(data@ =~= a.data@);
    crate::codec::write_prefix(&mut data, bytes);
    let v = AccountView {
        key: a.key,
        owner: a.owner,
        is_signer: a.is_signer,
        is_writable: a.is_writable,
        lamports: a.lamports,
        rent_exempt_minimum: a.rent_exempt_minimum,
        data,
    };
    accounts.set(i, v);
}

/// The state record's bytes after a draw with id `id` and rollover count `rollover`.
pub open spec fn advanced_state(d: Seq<u8>, id: u64, rollover: u8) -> Seq<u8> {
    d.subrange(0, 34) + spec_u64_to_le_bytes(id) + seq![rollover] + d.subrange(43, d.len() as int)
}

/// The draw account checks of [Processor::process_draw] pass. Positions: 0 draw authority,
/// 1 config, 2 state, 3 jackpot, 4 jackpot token account, 5 receiver, 6 receiver token account,
/// 7 draw record, 8 token mint, 9 token program.
pub open spec fn draw_checks(program_id: Address, a: Seq<AccountView>) -> bool {
    &&& a.len() >= 10
    &&& BondConfig::decodes(a[1].data@)
    &&& a[1].owner@ == program_id@
    &&& a[0].is_signer
    &&& a[0].key@ == config_draw_authority(a[1].data@)
    &&& a[1].data@[0] == BondAccountType::Config.tag()
    &&& BondState::decodes(a[2].data@)
    &&& a[2].owner@ == program_id@
    &&& a[2].data@[0] == BondAccountType::State.tag()
    &&& a[1].key@ == record_authority(a[2].data@)
    &&& is_derived(program_id, a[1].key, BondSeed::State, a[2].data@[33], a[2].key)
    &&& share_checks(program_id, a, 3, BondSeed::Jackpot)
    &&& TokenAccount::decodes(a[6].data@)
    &&& token_owner(a[6].data@) == a[5].key@
    &&& BondDraw::decodes(a[7].data@)
    &&& a[7].data@[0] == BondAccountType::Uninitialized.tag()
    &&& a[7].owner@ == program_id@
}

/// The share record at `i` and its token account at `i + 1` pass the checks: the record is a
/// share under the config account at 1, owned by the program, at the address derived with
/// `seed` and its bump, and the token account belongs to it.
pub open spec fn share_checks(program_id: Address, a: Seq<AccountView>, i: int, seed: BondSeed) -> bool {
    &&& BondShare::decodes(a[i].data@)
    &&& TokenAccount::decodes(a[i + 1].data@)
    &&& a[1].key@ == record_authority(a[i].data@)
    &&& a[i].owner@ == program_id@
    &&& a[i].data@[0] == BondAccountType::Share.tag()
    &&& is_derived(program_id, a[1].key, seed, a[i].data@[33], a[i].key)
    &&& token_owner(a[i + 1].data@) == a[i].key@
}

/// The fee record at 2 and its token account at 3 pass the checks, as in [share_checks].
pub open spec fn fee_checks(program_id: Address, a: Seq<AccountView>) -> bool {
    &&& BondFee::decodes(a[2].data@)
    &&& TokenAccount::decodes(a[3].data@)
    &&& a[1].key@ == record_authority(a[2].data@)
    &&& a[2].owner@ == program_id@
    &&& a[2].data@[0] == BondAccountType::Fee.tag()
    &&& is_derived(program_id, a[1].key, BondSeed::Fee, a[2].data@[33], a[2].key)
    &&& token_owner(a[3].data@) == a[2].key@
}

/// The share record stored at `i` holds a fraction of at most one (or a zero denominator).
pub open spec fn fraction_ok(a: Seq<AccountView>, i: int) -> bool {
    share_denominator(a[i].data@) == 0 || share_numerator(a[i].data@) <= share_denominator(a[i].data@)
}

/// The checks of [Processor::process_split_shares] pass. Positions: 0 draw authority, 1 config,
/// 2 fee, 3 fee token account, 4 equity, 5 its token account, 6 treasury, 7 its token account,
/// 8 jackpot, 9 its token account, 10 stake, 11 its token account, 12 token mint, 13 token
/// program.
pub open spec fn split_checks(program_id: Address, a: Seq<AccountView>) -> bool {
    &&& a.len() >= 14
    &&& BondConfig::decodes(a[1].data@)
    &&& a[1].owner@ == program_id@
    &&& a[0].is_signer
    &&& a[0].key@ == config_draw_authority(a[1].data@)
    &&& a[1].data@[0] == BondAccountType::Config.tag()
    &&& fee_checks(program_id, a)
    &&& share_checks(program_id, a, 4, BondSeed::Equity)
    &&& share_checks(program_id, a, 6, BondSeed::Treasury)
    &&& share_checks(program_id, a, 8, BondSeed::Jackpot)
    &&& share_checks(program_id, a, 10, BondSeed::Stake)
    &&& fraction_ok(a, 4)
    &&& fraction_ok(a, 6)
    &&& fraction_ok(a, 8)
    &&& fraction_ok(a, 10)
}

/// The amount that a split distributes: the given one, else the fee token account's balance.
pub open spec fn split_amount(a: Seq<AccountView>, amount: Option<u64>) -> u64 {
    match amount {
        Some(x) => x,
        None => token_amount(a[3].data@),
    }
}

/// The transfer of the share record at `i` from the fee token account to the token account at
/// `i + 1`.
pub open spec fn share_transfer(a: Seq<AccountView>, i: int, amount: u64) -> HostCall {
    HostCall::TransferChecked {
        draw_authority: 0,
        token_program: 13,
        mint: 12,
        source: 3,
        destination: (i + 1) as usize,
        authority: 2,
        signer: Signer { root: 1, seed: BondSeed::Fee, bump: a[2].data@[33] },
        amount: share_of(amount as int, share_numerator(a[i].data@) as int, share_denominator(a[i].data@) as int) as u64,
        decimals: TOKEN_DECIMALS,
    }
}

/// The rollover count after a draw: one more where the jackpot is its own receiver, else 0.
pub open spec fn next_rollover(a: Seq<AccountView>) -> int {
    if a[5].key@ == a[3].key@ { a[2].data@[42] + 1 } else { 0 }
}

/// The draw record that a draw writes.
pub open spec fn draw_record(a: Seq<AccountView>, clock: Clock, id: u64, receiver_seed: u64) -> BondDraw {
    BondDraw {
        account_type: BondAccountType::Draw,
        authority: a[0].key,
        id,
        amount: token_amount(a[4].data@),
        receiver_seed,
        receiver: a[5].key,
        rollover: next_rollover(a) as u8,
        slot: clock.slot,
        epoch_start_timestamp: clock.epoch_start_timestamp,
        epoch: clock.epoch,
        unix_timestamp: clock.unix_timestamp,
    }
}

/// The payout of a draw: the whole jackpot balance to the receiver's token account, authorized
/// by the jackpot's derivation.
pub open spec fn payout(a: Seq<AccountView>) -> HostCall {
    HostCall::TransferChecked {
        draw_authority: 0,
        token_program: 9,
        mint: 8,
        source: 4,
        destination: 6,
        authority: 3,
        signer: Signer { root: 1, seed: BondSeed::Jackpot, bump: a[3].data@[33] },
        amount: token_amount(a[4].data@),
        decimals: TOKEN_DECIMALS,
    }
}

/// A share of at most one is between 0 and the whole.
pub proof fn lemma_share_at_most(a: int, n: int, d: int)
    requires
        0 <= a,
        0 <= n <= d,
        d > 0,
    ensures
        0 <= a * n / d <= a,
{
    assert(a * n <= a * d) by (nonlinear_arith)
        requires 0 <= a, 0 <= n <= d;
    assert(a * n / d <= a * d / d) by (nonlinear_arith)
        requires a * n <= a * d, d > 0;
    assert(a * d / d == a) by (nonlinear_arith)
        requires d > 0;
    assert(a * n / d >= 0) by (nonlinear_arith)
        requires 0 <= a, 0 <= n, d > 0;
}

/// Whether a new game is active.
pub const DEFAULT_IS_ACTIVE: bool = true;
/// The minimum number of epochs between draws of a new game.
pub const DEFAULT_EPOCHS_PER_DRAW: u8 = 0;
/// The largest number of consecutive rollovers of a new game.
pub const DEFAULT_MAX_ROLLOVER: u8 = 3;
/// The largest odds of a single account in a new game: numerator.
pub const DEFAULT_ODDS_NUMERATOR: u32 = 10;
/// The largest odds of a single account in a new game: denominator.
pub const DEFAULT_ODDS_DENOMINATOR: u32 = 100;
/// The equity's share of the rewards: numerator.
pub const EQUITY_NUMERATOR: u32 = 10;
/// The equity's share of the rewards: denominator.
pub const EQUITY_DENOMINATOR: u32 = 100;
/// The treasury's share of the rewards: numerator (a zero denominator gives it nothing).
pub const TREASURY_NUMERATOR: u32 = 0;
/// The treasury's share of the rewards: denominator.
pub const TREASURY_DENOMINATOR: u32 = 0;
/// The jackpot's share of the rewards: numerator.
pub const JACKPOT_NUMERATOR: u32 = 80;
/// The jackpot's share of the rewards: denominator.
pub const JACKPOT_DENOMINATOR: u32 = 100;
/// The stake's share of the rewards: numerator.
pub const STAKE_NUMERATOR: u32 = 10;
/// The stake's share of the rewards: denominator.
pub const STAKE_DENOMINATOR: u32 = 100;

/// An account that Initialize writes: writable, rent-exempt and owned by the program.
pub open spec fn init_target_ok(program_id: Address, x: AccountView) -> bool {
    &&& x.is_writable
    &&& x.lamports >= x.rent_exempt_minimum
    &&& x.owner@ == program_id@
}

/// The derived account at `i` decodes with `decodes`, sits at the address derived from the
/// config account at 1, `seed` and `bump`, and may be written.
pub open spec fn init_pda_ok(program_id: Address, a: Seq<AccountView>, i: int, decodes: bool, seed: BondSeed, bump: u8) -> bool {
    &&& decodes
    &&& is_derived(program_id, a[1].key, seed, bump, a[i].key)
    &&& init_target_ok(program_id, a[i])
}

/// The bumps that Initialize is given: state, fee, exclusion list, equity, treasury, jackpot,
/// stake.
pub struct InitBumps {
    /// The state account's bump.
    pub state: u8,
    /// The fee account's bump.
    pub fee: u8,
    /// The exclusion list's bump.
    pub exclusion_list: u8,
    /// The equity account's bump.
    pub equity: u8,
    /// The treasury account's bump.
    pub treasury: u8,
    /// The jackpot account's bump.
    pub jackpot: u8,
    /// The stake account's bump.
    pub stake: u8,
}

/// The checks of [Processor::process_initialize] pass. Positions: 0 payer, 1 config, 2 draw
/// authority, 3 token mint, 4 state, 5 fee, 6 exclusion list, 7 equity, 8 treasury, 9 jackpot,
/// 10 stake.
pub open spec fn init_checks(
    program_id: Address,
    ids: ProgramIds,
    a: Seq<AccountView>,
    b: InitBumps,
    capacity: u32,
    excluded: nat,
) -> bool {
    &&& a.len() >= 11
    &&& a[0].is_signer
    &&& a[1].is_signer
    &&& a[1].is_writable
    &&& a[2].is_signer
    &&& a[3].owner@ == ids.token_program@
    &&& BondConfig::decodes(a[1].data@)
    &&& init_target_ok(program_id, a[1])
    &&& init_pda_ok(program_id, a, 4, BondState::decodes(a[4].data@), BondSeed::State, b.state)
    &&& init_pda_ok(program_id, a, 5, BondFee::decodes(a[5].data@), BondSeed::Fee, b.fee)
    &&& init_pda_ok(program_id, a, 6, BondExclusionList::decodes(a[6].data@), BondSeed::ExclusionList, b.exclusion_list)
    &&& excluded <= capacity
    &&& BondExclusionList::len_for(excluded as int) <= a[6].data@.len()
    &&& init_pda_ok(program_id, a, 7, BondShare::decodes(a[7].data@), BondSeed::Equity, b.equity)
    &&& init_pda_ok(program_id, a, 8, BondShare::decodes(a[8].data@), BondSeed::Treasury, b.treasury)
    &&& init_pda_ok(program_id, a, 9, BondShare::decodes(a[9].data@), BondSeed::Jackpot, b.jackpot)
    &&& init_pda_ok(program_id, a, 10, BondShare::decodes(a[10].data@), BondSeed::Stake, b.stake)
}

/// The config record that Initialize writes.
pub open spec fn initial_config(a: Seq<AccountView>) -> BondConfig {
    BondConfig {
        account_type: BondAccountType::Config,
        is_active: DEFAULT_IS_ACTIVE,
        epochs_per_draw: DEFAULT_EPOCHS_PER_DRAW,
        max_rollover: DEFAULT_MAX_ROLLOVER,
        odds_threshold_numerator: DEFAULT_ODDS_NUMERATOR,
        odds_threshold_denominator: DEFAULT_ODDS_DENOMINATOR,
        draw_authority: a[2].key,
        token_mint: a[3].key,
    }
}

/// The share record that Initialize writes.
pub open spec fn initial_share(a: Seq<AccountView>, bump: u8, numerator: u32, denominator: u32) -> BondShare {
    BondShare { account_type: BondAccountType::Share, authority: a[1].key, bump, numerator, denominator }
}

/// The accounts after Initialize: each record written over its account's bytes, every other
/// account as it was.
pub open spec fn initialized(a: Seq<AccountView>, f: Seq<AccountView>, b: InitBumps, capacity: u32, excluded: Seq<Address>) -> bool {
    &&& f.len() == a.len()
    &&& forall|j: int| 0 <= j < a.len() && !(j == 1 || (4 <= j <= 10)) ==> f[j] == a[j]
    &&& forall|j: int| j == 1 || (4 <= j <= 10) ==> same_meta(f[j], a[j])
    &&& f[1].data@ == stored(initial_config(a).encoded(), a[1].data@)
    &&& f[4].data@ == stored(
        BondState { account_type: BondAccountType::State, authority: a[1].key, bump: b.state, draw_id: 0, rollover: 0 }.encoded(),
        a[4].data@,
    )
    &&& f[5].data@ == stored(BondFee { account_type: BondAccountType::Fee, authority: a[1].key, bump: b.fee }.encoded(), a[5].data@)
    &&& f[6].data@ == stored(BondExclusionList::bytes_of(a[1].key, b.exclusion_list, capacity, excluded), a[6].data@)
    &&& f[7].data@ == stored(initial_share(a, b.equity, EQUITY_NUMERATOR, EQUITY_DENOMINATOR).encoded(), a[7].data@)
    &&& f[8].data@ == stored(initial_share(a, b.treasury, TREASURY_NUMERATOR, TREASURY_DENOMINATOR).encoded(), a[8].data@)
    &&& f[9].data@ == stored(initial_share(a, b.jackpot, JACKPOT_NUMERATOR, JACKPOT_DENOMINATOR).encoded(), a[9].data@)
    &&& f[10].data@ == stored(initial_share(a, b.stake, STAKE_NUMERATOR, STAKE_DENOMINATOR).encoded(), a[10].data@)
}

/// The bumps and allocation sizes that Create is given, computed off the ledger.
#[derive(Clone, Copy, Debug, PartialEq, Eq, Structural)]
pub struct CreateParams {
    pub config_space: u32,
    pub state_bump: u8,
    pub state_space: u32,
    pub fee_bump: u8,
    pub fee_space: u32,
    pub exclusion_list_bump: u8,
    pub exclusion_list_space: u32,
    pub equity_bump: u8,
    pub equity_space: u32,
    pub treasury_bump: u8,
    pub treasury_space: u32,
    pub jackpot_bump: u8,
    pub jackpot_space: u32,
    pub stake_bump: u8,
    pub stake_space: u32,
}

/// The derived account at `i` sits at the address derived from the config account at 1, `seed`
/// and `bump`.
pub open spec fn create_pda_ok(program_id: Address, a: Seq<AccountView>, i: int, seed: BondSeed, bump: u8) -> bool {
    crate::check::pda_error(program_id, a[1].key, seed, bump, a[i].key) is None
}

/// The checks of [Processor::process_create] pass. Positions: 0 payer, 1 config, 2 state, 3 fee,
/// 4 its token account, 5 exclusion list, 6 equity, 7 its token account, 8 treasury, 9 its token
/// account, 10 jackpot, 11 its token account, 12 stake, 13 its token account, 14 token mint,
/// 15 token program, 16 associated token program, 17 system program.
pub open spec fn create_checks(program_id: Address, ids: ProgramIds, a: Seq<AccountView>, p: CreateParams) -> bool {
    &&& a.len() >= 18
    &&& a[0].is_signer
    &&& a[1].is_signer
    &&& a[1].is_writable
    &&& forall|j: int| 2 <= j <= 13 ==> #[trigger] a[j].is_writable
    &&& a[14].owner@ == ids.token_program@
    &&& a[15].key@ == ids.token_program@
    &&& a[16].key@ == ids.associated_token_program@
    &&& a[17].key@ == ids.system_program@
    &&& create_pda_ok(program_id, a, 2, BondSeed::State, p.state_bump)
    &&& create_pda_ok(program_id, a, 3, BondSeed::Fee, p.fee_bump)
    &&& create_pda_ok(program_id, a, 5, BondSeed::ExclusionList, p.exclusion_list_bump)
    &&& create_pda_ok(program_id, a, 6, BondSeed::Equity, p.equity_bump)
    &&& create_pda_ok(program_id, a, 8, BondSeed::Treasury, p.treasury_bump)
    &&& create_pda_ok(program_id, a, 10, BondSeed::Jackpot, p.jackpot_bump)
    &&& create_pda_ok(program_id, a, 12, BondSeed::Stake, p.stake_bump)
}

/// The creation of the derived account at `i`.
pub open spec fn create_pda_call(i: usize, seed: BondSeed, bump: u8, space: u32) -> HostCall {
    HostCall::CreateAccount { payer: 0, target: i, system_program: 17, space, signer: Some(Signer { root: 1, seed, bump }) }
}

/// The creation of the token account at `ata` for the derived account at `wallet`.
pub open spec fn create_ata_call(ata: usize, wallet: usize) -> HostCall {
    HostCall::CreateTokenAccount {
        payer: 0,
        ata,
        wallet,
        mint: 14,
        token_program: 15,
        associated_token_program: 16,
        system_program: 17,
    }
}

/// The host calls that Create makes, in order.
pub open spec fn create_calls(p: CreateParams) -> Seq<HostCall> {
    seq![
        HostCall::CreateAccount { payer: 0, target: 1, system_program: 17, space: p.config_space, signer: None },
        create_pda_call(2, BondSeed::State, p.state_bump, p.state_space),
        create_pda_call(3, BondSeed::Fee, p.fee_bump, p.fee_space),
        create_ata_call(4, 3),
        create_pda_call(5, BondSeed::ExclusionList, p.exclusion_list_bump, p.exclusion_list_space),
        create_pda_call(6, BondSeed::Equity, p.equity_bump, p.equity_space),
        create_ata_call(7, 6),
        create_pda_call(8, BondSeed::Treasury, p.treasury_bump, p.treasury_space),
        create_ata_call(9, 8),
        create_pda_call(10, BondSeed::Jackpot, p.jackpot_bump, p.jackpot_space),
        create_ata_call(11, 10),
        create_pda_call(12, BondSeed::Stake, p.stake_bump, p.stake_space),
        create_ata_call(13, 12),
    ]
}

/// The host calls of a handler's result.
pub open spec fn calls_of(r: Result<Vec<HostCall>, BondError>) -> Result<Seq<HostCall>, BondError> {
    match r {
        Ok(c) => Ok(c@),
        Err(e) => Err(e),
    }
}

/// What Draw does: with an empty jackpot, nothing; otherwise, where `draw_seed` is the next draw
/// id, it writes the draw record, advances the state, and pays the whole jackpot to the
/// receiver unless the jackpot is its own receiver. On failure no account changes.
pub open spec fn draw_outcome(
    program_id: Address,
    a: Seq<AccountView>,
    f: Seq<AccountView>,
    clock: Clock,
    receiver_seed: u64,
    draw_seed: u64,
    r: Result<Seq<HostCall>, BondError>,
) -> bool {
    &&& (r is Ok) == (draw_error(program_id, a, draw_seed) is None)
    &&& r matches Err(e) ==> draw_error(program_id, a, draw_seed) == Some(e)
    &&& r is Ok <==> draw_checks(program_id, a) && (token_amount(a[4].data@) == 0 || (
        draw_seed == state_draw_id(a[2].data@) + 1 && next_rollover(a) <= u8::MAX))
    &&& draw_checks(program_id, a) && token_amount(a[4].data@) != 0 && draw_seed != state_draw_id(a[2].data@) + 1
        ==> r == Err::<Seq<HostCall>, BondError>(BondError::InvalidSeeds)
    &&& r is Err ==> f == a
    &&& r matches Ok(calls) ==> (token_amount(a[4].data@) == 0 ==> f == a && calls == Seq::<HostCall>::empty())
    &&& r matches Ok(calls) ==> (token_amount(a[4].data@) != 0 ==> {
        &&& f.len() == a.len()
        &&& forall|j: int| 0 <= j < a.len() && j != 2 && j != 7 ==> f[j] == a[j]
        &&& same_meta(f[2], a[2])
        &&& f[2].data@ == advanced_state(a[2].data@, draw_seed, next_rollover(a) as u8)
        &&& same_meta(f[7], a[7])
        &&& f[7].data@ == stored(draw_record(a, clock, draw_seed, receiver_seed).encoded(), a[7].data@)
        &&& calls == if a[5].key@ == a[3].key@ { Seq::empty() } else { seq![payout(a)] }
    })
}

/// What SplitShares does: four transfers from the fee token account, to the equity, treasury,
/// jackpot and stake token accounts in that order, each of its share of the amount.
pub open spec fn split_outcome(program_id: Address, a: Seq<AccountView>, amount: Option<u64>, r: Result<Seq<HostCall>, BondError>) -> bool {
    &&& r is Ok <==> split_checks(program_id, a)
    &&& (r is Ok) == (split_error(program_id, a) is None)
    &&& r matches Err(e) ==> split_error(program_id, a) == Some(e)
    &&& r matches Ok(calls) ==> calls == seq![
        share_transfer(a, 4, split_amount(a, amount)),
        share_transfer(a, 6, split_amount(a, amount)),
        share_transfer(a, 8, split_amount(a, amount)),
        share_transfer(a, 10, split_amount(a, amount)),
    ]
}

/// What Initialize does: it writes every record, or on failure changes no account.
pub open spec fn init_outcome(
    program_id: Address,
    ids: ProgramIds,
    a: Seq<AccountView>,
    f: Seq<AccountView>,
    b: InitBumps,
    capacity: u32,
    excluded: Seq<Address>,
    r: Result<(), BondError>,
) -> bool {
    &&& r is Ok <==> init_checks(program_id, ids, a, b, capacity, excluded.len())
    &&& (r is Ok) == (init_error(program_id, ids, a, b, capacity, excluded.len()) is None)
    &&& r matches Err(e) ==> init_error(program_id, ids, a, b, capacity, excluded.len()) == Some(e)
    &&& r is Err ==> f == a
    &&& r is Ok ==> initialized(a, f, b, capacity, excluded)
    &&& r is Ok ==> excluded.len() <= capacity
}

/// What Create does: once every check passes, the creation calls in order.
pub open spec fn create_outcome(program_id: Address, ids: ProgramIds, a: Seq<AccountView>, p: CreateParams, r: Result<Seq<HostCall>, BondError>) -> bool {
    &&& r is Ok <==> create_checks(program_id, ids, a, p)
    &&& (r is Ok) == (create_error(program_id, ids, a, p) is None)
    &&& r matches Err(e) ==> create_error(program_id, ids, a, p) == Some(e)
    &&& r matches Ok(calls) ==> calls == create_calls(p)
}

/// The Create parameters of an instruction's fields.
pub open spec fn create_params(
    config_space: u32, state_bump: u8, state_space: u32, fee_bump: u8, fee_space: u32,
    exclusion_list_bump: u8, exclusion_list_space: u32, equity_bump: u8, equity_space: u32,
    treasury_bump: u8, treasury_space: u32, jackpot_bump: u8, jackpot_space: u32, stake_bump: u8,
    stake_space: u32,
) -> CreateParams {
    CreateParams {
        config_space, state_bump, state_space, fee_bump, fee_space, exclusion_list_bump,
        exclusion_list_space, equity_bump, equity_space, treasury_bump, treasury_space, jackpot_bump,
        jackpot_space, stake_bump, stake_space,
    }
}

/// What an instruction does: the outcome of its handler. Handlers that only return host calls
/// change no account; Initialize returns no call.
pub open spec fn process_outcome(
    program_id: Address,
    ids: ProgramIds,
    a: Seq<AccountView>,
    f: Seq<AccountView>,
    clock: Clock,
    ix: BondInstruction,
    r: Result<Seq<HostCall>, BondError>,
) -> bool {
    match ix {
        BondInstruction::Create {
            config_space, state_bump, state_space, fee_bump, fee_space, exclusion_list_bump,
            exclusion_list_space, equity_bump, equity_space, treasury_bump, treasury_space,
            jackpot_bump, jackpot_space, stake_bump, stake_space,
        } => f == a && create_outcome(program_id, ids, a, create_params(
            config_space, state_bump, state_space, fee_bump, fee_space, exclusion_list_bump,
            exclusion_list_space, equity_bump, equity_space, treasury_bump, treasury_space,
            jackpot_bump, jackpot_space, stake_bump, stake_space,
        ), r),
        BondInstruction::Initialize {
            state_bump, fee_bump, exclusion_list_bump, exclusion_list_capacity,
            exclusion_list_accounts, equity_bump, treasury_bump, jackpot_bump, stake_bump,
        } => {
            let b = InitBumps {
                state: state_bump,
                fee: fee_bump,
                exclusion_list: exclusion_list_bump,
                equity: equity_bump,
                treasury: treasury_bump,
                jackpot: jackpot_bump,
                stake: stake_bump,
            };
            let unit = match r { Ok(_) => Ok(()), Err(e) => Err(e) };
            &&& init_outcome(program_id, ids, a, f, b, exclusion_list_capacity, exclusion_list_accounts@, unit)
            &&& r matches Ok(calls) ==> calls == Seq::<HostCall>::empty()
        },
        BondInstruction::SplitShares { amount } => f == a && split_outcome(program_id, a, amount, r),
        BondInstruction::Draw { receiver_seed, draw_seed } => draw_outcome(program_id, a, f, clock, receiver_seed, draw_seed, r),
        BondInstruction::Test => f == a && r == Ok::<Seq<HostCall>, BondError>(Seq::empty()),
    }
}

/// The first of two failures: `x` where there is one, else `y`.
pub open spec fn or_else(x: Option<BondError>, y: Option<BondError>) -> Option<BondError> {
    if x is Some { x } else { y }
}

/// The first failing check on the config account at 1 and the draw authority at 0.
pub open spec fn config_error(program_id: Address, a: Seq<AccountView>) -> Option<BondError> {
    if !BondConfig::decodes(a[1].data@) {
        Some(BondError::InvalidAccountData)
    } else if a[1].owner@ != program_id@ {
        Some(BondError::IncorrectOwner)
    } else if !a[0].is_signer {
        Some(BondError::MissingSignature)
    } else if a[0].key@ != config_draw_authority(a[1].data@) {
        Some(BondError::AddressMismatch)
    } else if a[1].data@[0] != BondAccountType::Config.tag() {
        Some(BondError::InvalidAccountType)
    } else {
        None
    }
}

/// The first failing check on the derived record at `i`, of type `kind` and decoding where
/// `decodes`, and on its token account at `i + 1`.
pub open spec fn record_error(
    program_id: Address,
    a: Seq<AccountView>,
    i: int,
    decodes: bool,
    kind: BondAccountType,
    seed: BondSeed,
) -> Option<BondError> {
    if !decodes {
        Some(BondError::InvalidAccountData)
    } else if !TokenAccount::decodes(a[i + 1].data@) {
        Some(BondError::InvalidAccountData)
    } else if a[1].key@ != record_authority(a[i].data@) {
        Some(BondError::AddressMismatch)
    } else if a[i].owner@ != program_id@ {
        Some(BondError::IncorrectOwner)
    } else if a[i].data@[0] != kind.tag() {
        Some(BondError::InvalidAccountType)
    } else if pda_error(program_id, a[1].key, seed, a[i].data@[33], a[i].key) is Some {
        pda_error(program_id, a[1].key, seed, a[i].data@[33], a[i].key)
    } else if token_owner(a[i + 1].data@) != a[i].key@ {
        Some(BondError::IncorrectOwner)
    } else {
        None
    }
}

/// The first failing check on the share record at `i` and its token account.
pub open spec fn share_error(program_id: Address, a: Seq<AccountView>, i: int, seed: BondSeed) -> Option<BondError> {
    record_error(program_id, a, i, BondShare::decodes(a[i].data@), BondAccountType::Share, seed)
}

/// The first failing check on the state account at 2.
pub open spec fn state_error(program_id: Address, a: Seq<AccountView>) -> Option<BondError> {
    if !BondState::decodes(a[2].data@) {
        Some(BondError::InvalidAccountData)
    } else if a[2].owner@ != program_id@ {
        Some(BondError::IncorrectOwner)
    } else if a[2].data@[0] != BondAccountType::State.tag() {
        Some(BondError::InvalidAccountType)
    } else if a[1].key@ != record_authority(a[2].data@) {
        Some(BondError::AddressMismatch)
    } else {
        pda_error(program_id, a[1].key, BondSeed::State, a[2].data@[33], a[2].key)
    }
}

/// The first failing check on the receiver's token account at 6 and the draw record at 7.
pub open spec fn receiver_and_record_error(program_id: Address, a: Seq<AccountView>) -> Option<BondError> {
    if !TokenAccount::decodes(a[6].data@) {
        Some(BondError::InvalidAccountData)
    } else if token_owner(a[6].data@) != a[5].key@ {
        Some(BondError::IncorrectOwner)
    } else if !BondDraw::decodes(a[7].data@) {
        Some(BondError::InvalidAccountData)
    } else if a[7].data@[0] != BondAccountType::Uninitialized.tag() {
        Some(BondError::AlreadyInitialized)
    } else if a[7].owner@ != program_id@ {
        Some(BondError::IncorrectOwner)
    } else {
        None
    }
}

/// The error of Draw, if any: the first failing account check, else, on a non-empty jackpot, a
/// sequence number other than the next draw id, else a rollover count that would overflow.
pub open spec fn draw_error(program_id: Address, a: Seq<AccountView>, draw_seed: u64) -> Option<BondError> {
    if a.len() < 10 {
        Some(BondError::NotEnoughAccountKeys)
    } else {
        or_else(config_error(program_id, a), or_else(state_error(program_id, a), or_else(
            share_error(program_id, a, 3, BondSeed::Jackpot),
            or_else(receiver_and_record_error(program_id, a),
                if token_amount(a[4].data@) == 0 {
                    None
                } else if draw_seed != state_draw_id(a[2].data@) + 1 {
                    Some(BondError::InvalidSeeds)
                } else if next_rollover(a) > u8::MAX {
                    Some(BondError::RolloverOverflow)
                } else {
                    None
                }),
        )))
    }
}

/// The error of a fraction check on the share record at `i`.
pub open spec fn fraction_error(a: Seq<AccountView>, i: int) -> Option<BondError> {
    if fraction_ok(a, i) { None } else { Some(BondError::InvalidShare) }
}

/// The error of SplitShares, if any: the first failing check.
pub open spec fn split_error(program_id: Address, a: Seq<AccountView>) -> Option<BondError> {
    if a.len() < 14 {
        Some(BondError::NotEnoughAccountKeys)
    } else {
        or_else(config_error(program_id, a), or_else(
            record_error(program_id, a, 2, BondFee::decodes(a[2].data@), BondAccountType::Fee, BondSeed::Fee),
            or_else(share_error(program_id, a, 4, BondSeed::Equity), or_else(share_error(program_id, a, 6, BondSeed::Treasury),
            or_else(share_error(program_id, a, 8, BondSeed::Jackpot), or_else(share_error(program_id, a, 10, BondSeed::Stake),
            or_else(fraction_error(a, 4), or_else(fraction_error(a, 6), or_else(fraction_error(a, 8), fraction_error(a, 10))))))))))
    }
}

/// The first failing check on an account that Initialize writes.
pub open spec fn target_error(program_id: Address, x: AccountView) -> Option<BondError> {
    if !x.is_writable {
        Some(BondError::NotWritable)
    } else if x.lamports < x.rent_exempt_minimum {
        Some(BondError::NotRentExempt)
    } else if x.owner@ != program_id@ {
        Some(BondError::IncorrectOwner)
    } else {
        None
    }
}

/// The first failing check on a derived account that Initialize writes.
pub open spec fn init_pda_error(program_id: Address, a: Seq<AccountView>, i: int, decodes: bool, seed: BondSeed, bump: u8) -> Option<BondError> {
    if !decodes {
        Some(BondError::InvalidAccountData)
    } else {
        or_else(pda_error(program_id, a[1].key, seed, bump, a[i].key), target_error(program_id, a[i]))
    }
}

/// The error of Initialize, if any: the first failing check.
pub open spec fn init_error(program_id: Address, ids: ProgramIds, a: Seq<AccountView>, b: InitBumps, capacity: u32, excluded: nat) -> Option<BondError> {
    if a.len() < 11 {
        Some(BondError::NotEnoughAccountKeys)
    } else if !a[0].is_signer || !a[1].is_signer {
        Some(BondError::MissingSignature)
    } else if !a[1].is_writable {
        Some(BondError::NotWritable)
    } else if !a[2].is_signer {
        Some(BondError::MissingSignature)
    } else if a[3].owner@ != ids.token_program@ {
        Some(BondError::IncorrectOwner)
    } else if !BondConfig::decodes(a[1].data@) {
        Some(BondError::InvalidAccountData)
    } else {
        or_else(target_error(program_id, a[1]),
        or_else(init_pda_error(program_id, a, 4, BondState::decodes(a[4].data@), BondSeed::State, b.state),
        or_else(init_pda_error(program_id, a, 5, BondFee::decodes(a[5].data@), BondSeed::Fee, b.fee),
        or_else(init_pda_error(program_id, a, 6, BondExclusionList::decodes(a[6].data@), BondSeed::ExclusionList, b.exclusion_list),
        or_else(
            if excluded > capacity {
                Some(BondError::InvalidInstructionData)
            } else if BondExclusionList::len_for(excluded as int) > a[6].data@.len() {
                Some(BondError::AccountDataTooSmall)
            } else {
                None
            },
        or_else(init_pda_error(program_id, a, 7, BondShare::decodes(a[7].data@), BondSeed::Equity, b.equity),
        or_else(init_pda_error(program_id, a, 8, BondShare::decodes(a[8].data@), BondSeed::Treasury, b.treasury),
        or_else(init_pda_error(program_id, a, 9, BondShare::decodes(a[9].data@), BondSeed::Jackpot, b.jackpot),
        init_pda_error(program_id, a, 10, BondShare::decodes(a[10].data@), BondSeed::Stake, b.stake)))))))))
    }
}

/// The error of Create, if any: the first failing check.
pub open spec fn create_error(program_id: Address, ids: ProgramIds, a: Seq<AccountView>, p: CreateParams) -> Option<BondError> {
    if a.len() < 18 {
        Some(BondError::NotEnoughAccountKeys)
    } else if !a[0].is_signer || !a[1].is_signer {
        Some(BondError::MissingSignature)
    } else if !a[1].is_writable || exists|j: int| 2 <= j <= 13 && !#[trigger] a[j].is_writable {
        Some(BondError::NotWritable)
    } else if a[14].owner@ != ids.token_program@ {
        Some(BondError::IncorrectOwner)
    } else if a[15].key@ != ids.token_program@ || a[16].key@ != ids.associated_token_program@
        || a[17].key@ != ids.system_program@ {
        Some(BondError::AddressMismatch)
    } else {
        or_else(pda_error(program_id, a[1].key, BondSeed::State, p.state_bump, a[2].key),
        or_else(pda_error(program_id, a[1].key, BondSeed::Fee, p.fee_bump, a[3].key),
        or_else(pda_error(program_id, a[1].key, BondSeed::ExclusionList, p.exclusion_list_bump, a[5].key),
        or_else(pda_error(program_id, a[1].key, BondSeed::Equity, p.equity_bump, a[6].key),
        or_else(pda_error(program_id, a[1].key, BondSeed::Treasury, p.treasury_bump, a[8].key),
        or_else(pda_error(program_id, a[1].key, BondSeed::Jackpot, p.jackpot_bump, a[10].key),
        pda_error(program_id, a[1].key, BondSeed::Stake, p.stake_bump, a[12].key)))))))
    }
}

/// The instruction handlers.
pub struct Processor;

impl Processor {
    /// Checks the config account at 1 and the draw authority at 0 that signs for it.
    fn check_draw_account(program_id: &Address, accounts: &Vec<AccountView>) -> (r: Result<BondConfig, BondError>)
        requires
            accounts@.len() >= 2,
        ensures
            r is Ok <==> {
                let a = accounts@;
                &&& BondConfig::decodes(a[1].data@)
                &&& a[1].owner@ == program_id@
                &&& a[0].is_signer
                &&& a[0].key@ == config_draw_authority(a[1].data@)
                &&& a[1].data@[0] == BondAccountType::Config.tag()
            },
            (r is Ok) == (config_error(*program_id, accounts@) is None),
            r matches Err(e) ==> config_error(*program_id, accounts@) == Some(e),
    {
        let config = BondConfig::from_bytes(&accounts[1].data)?;
        Check::owner(&accounts[1], program_id)?;
        Check::signer(&accounts[0])?;
        Check::account(&accounts[0], &config.draw_authority)?;
        Check::valid(&config)?;
        Ok(config)
    }

    /// Checks the share record at `i` and its token account at `i + 1`.
    fn check_draw_pda_account(program_id: &Address, accounts: &Vec<AccountView>, i: usize, seed: BondSeed)
        -> (r: Result<(BondShare, TokenAccount), BondError>)
        requires
            2 <= i,
            i + 1 < accounts@.len(),
        ensures
            r is Ok <==> share_checks(*program_id, accounts@, i as int, seed),
            (r is Ok) == (share_error(*program_id, accounts@, i as int, seed) is None),
            r matches Err(e) ==> share_error(*program_id, accounts@, i as int, seed) == Some(e),
            r matches Ok((s, t)) ==> s.bump == accounts@[i as int].data@[33]
                && s.numerator == share_numerator(accounts@[i as int].data@)
                && s.denominator == share_denominator(accounts@[i as int].data@)
                && t.amount == token_amount(accounts@[i + 1].data@),
    {
        let _n = accounts.len();
        let share = BondShare::from_bytes(&accounts[i].data)?;
        let ata = TokenAccount::from_bytes(&accounts[i + 1].data)?;
        Check::account(&accounts[1], &share.authority)?;
        Check::owner(&accounts[i], program_id)?;
        Check::valid(&share)?;
        Check::pda(program_id, &accounts[1], &accounts[i], seed, share.bump)?;
        Check::pubkey(&ata.owner, &accounts[i].key)?;
        Ok((share, ata))
    }

    /// Runs a draw. With an empty jackpot it does nothing. Otherwise `draw_seed` must be the next
    /// draw id; the draw record is written, the state advanced, and, unless the jackpot is its
    /// own receiver (a rollover), the whole jackpot is paid to the receiver.
    pub fn process_draw(
        program_id: &Address,
        accounts: &mut Vec<AccountView>,
        clock: &Clock,
        receiver_seed: u64,
        draw_seed: u64,
    ) -> (r: Result<Vec<HostCall>, BondError>)
        ensures
            draw_outcome(*program_id, old(accounts)@, final(accounts)@, *clock, receiver_seed, draw_seed, calls_of(r)),
    {
        if accounts.len() < 10 {
            return Err(BondError::NotEnoughAccountKeys);
        }
        let ghost a = accounts@;
        Self::check_draw_account(program_id, accounts)?;

        let mut state = BondState::from_bytes(&accounts[2].data)?;
        Check::owner(&accounts[2], program_id)?;
        Check::valid(&state)?;
        Check::account(&accounts[1], &state.authority)?;
        Check::pda(program_id, &accounts[1], &accounts[2], BondSeed::State, state.bump)?;

        let (jackpot, jackpot_ata) = Self::check_draw_pda_account(program_id, accounts, 3, BondSeed::Jackpot)?;

        let receiver_ata = TokenAccount::from_bytes(&accounts[6].data)?;
        Check::pubkey(&receiver_ata.owner, &accounts[5].key)?;

        let draw = BondDraw::from_bytes(&accounts[7].data)?;
        Check::uninitialized(&draw)?;
        Check::owner(&accounts[7], program_id)?;
        assert(draw_checks(*program_id, a));

        let amount = jackpot_ata.amount;
        let mut calls: Vec<HostCall> = Vec::new();
        if amount == 0 {
            return Ok(calls);
        }
        if state.draw_id == u64::MAX || draw_seed != state.draw_id + 1 {
            return Err(BondError::InvalidSeeds);
        }
        let id = draw_seed;

        let is_rollover = accounts[5].key.same(&accounts[3].key);
        let rollover: u8 = if is_rollover {
            if state.rollover == u8::MAX {
                return Err(BondError::RolloverOverflow);
            }
            state.rollover + 1
        } else {
            0
        };

        let record = BondDraw::new(
            accounts[0].key,
            id,
            amount,
            receiver_seed,
            accounts[5].key,
            rollover,
            clock.slot,
            clock.epoch_start_timestamp,
            clock.epoch,
            clock.unix_timestamp,
        );
        let record_bytes = record.to_bytes();
        assert(record == draw_record(a, *clock, draw_seed, receiver_seed));
        write_data(accounts, 7, &record_bytes);

        let ghost before_state = state;
        state.draw_id = id;
        state.rollover = rollover;
        let state_bytes = state.to_bytes();
        proof {
            let d = a[2].data@;
            assert(before_state.encoded() == d.subrange(0, 43));
            assert(state.encoded() =~= d.subrange(0, 34) + spec_u64_to_le_bytes(id) + seq![rollover]) by {
                assert(before_state.encoded().subrange(0, 34) =~= d.subrange(0, 34));
            }
            assert(stored(state_bytes@, d) =~= advanced_state(d, id, rollover));
        }
        write_data(accounts, 2, &state_bytes);

        if !is_rollover {
            Create::token_transfer_checked(0, 1, 9, 8, 4, 6, 3, BondSeed::Jackpot, jackpot.bump, amount, &mut calls);
        }
        Ok(calls)
    }

    /// Checks the fee record at 2 and its token account at 3.
    fn check_fee_account(program_id: &Address, accounts: &Vec<AccountView>) -> (r: Result<(BondFee, TokenAccount), BondError>)
        requires
            accounts@.len() >= 4,
        ensures
            r is Ok <==> fee_checks(*program_id, accounts@),
            (r is Ok) == (record_error(*program_id, accounts@, 2, BondFee::decodes(accounts@[2].data@), BondAccountType::Fee, BondSeed::Fee) is None),
            r matches Err(e) ==> record_error(*program_id, accounts@, 2, BondFee::decodes(accounts@[2].data@), BondAccountType::Fee, BondSeed::Fee) == Some(e),
            r matches Ok((f, t)) ==> f.bump == accounts@[2].data@[33] && t.amount == token_amount(accounts@[3].data@),
    {
        let fee = BondFee::from_bytes(&accounts[2].data)?;
        let ata = TokenAccount::from_bytes(&accounts[3].data)?;
        Check::account(&accounts[1], &fee.authority)?;
        Check::owner(&accounts[2], program_id)?;
        Check::valid(&fee)?;
        Check::pda(program_id, &accounts[1], &accounts[2], BondSeed::Fee, fee.bump)?;
        Check::pubkey(&ata.owner, &accounts[2].key)?;
        Ok((fee, ata))
    }

    /// Checks that a share record's fraction is at most one.
    fn check_fraction(share: &BondShare) -> (r: Result<(), BondError>)
        ensures
            r is Ok <==> share.denominator == 0 || share.numerator <= share.denominator,
            r is Err ==> r == Err::<(), BondError>(BondError::InvalidShare),
    {
        if share.denominator != 0 && share.numerator > share.denominator {
            Err(BondError::InvalidShare)
        } else {
            Ok(())
        }
    }

    /// The share of `amount` for a record whose fraction is at most one.
    fn bounded_share(share: &BondShare, amount: u64) -> (r: u64)
        requires
            share.denominator == 0 || share.numerator <= share.denominator,
        ensures
            r == share.share_spec(amount),
            r <= amount,
    {
        proof {
            if share.denominator != 0 {
                lemma_share_at_most(amount as int, share.numerator as int, share.denominator as int);
            }
        }
        share.share(amount)
    }

    /// Splits the fee account's tokens (or `amount`, where given) between the equity, treasury,
    /// jackpot and stake accounts, in that order, each receiving its share of the whole.
    pub fn process_split_shares(program_id: &Address, accounts: &Vec<AccountView>, amount: Option<u64>)
        -> (r: Result<Vec<HostCall>, BondError>)
        ensures
            split_outcome(*program_id, accounts@, amount, calls_of(r)),
    {
        if accounts.len() < 14 {
            return Err(BondError::NotEnoughAccountKeys);
        }
        Self::check_draw_account(program_id, accounts)?;
        let (fee, fee_ata) = Self::check_fee_account(program_id, accounts)?;
        let (equity, _equity_ata) = Self::check_draw_pda_account(program_id, accounts, 4, BondSeed::Equity)?;
        let (treasury, _treasury_ata) = Self::check_draw_pda_account(program_id, accounts, 6, BondSeed::Treasury)?;
        let (jackpot, _jackpot_ata) = Self::check_draw_pda_account(program_id, accounts, 8, BondSeed::Jackpot)?;
        let (stake, _stake_ata) = Self::check_draw_pda_account(program_id, accounts, 10, BondSeed::Stake)?;
        Self::check_fraction(&equity)?;
        Self::check_fraction(&treasury)?;
        Self::check_fraction(&jackpot)?;
        Self::check_fraction(&stake)?;

        let amount: u64 = match amount {
            Some(x) => x,
            None => fee_ata.amount,
        };
        let mut calls: Vec<HostCall> = Vec::new();
        let to_equity = Self::bounded_share(&equity, amount);
        Create::token_transfer_checked(0, 1, 13, 12, 3, 5, 2, BondSeed::Fee, fee.bump, to_equity, &mut calls);
        let to_treasury = Self::bounded_share(&treasury, amount);
        Create::token_transfer_checked(0, 1, 13, 12, 3, 7, 2, BondSeed::Fee, fee.bump, to_treasury, &mut calls);
        let to_jackpot = Self::bounded_share(&jackpot, amount);
        Create::token_transfer_checked(0, 1, 13, 12, 3, 9, 2, BondSeed::Fee, fee.bump, to_jackpot, &mut calls);
        let to_stake = Self::bounded_share(&stake, amount);
        Create::token_transfer_checked(0, 1, 13, 12, 3, 11, 2, BondSeed::Fee, fee.bump, to_stake, &mut calls);
        assert(calls@ =~= seq![
            share_transfer(accounts@, 4, amount),
            share_transfer(accounts@, 6, amount),
            share_transfer(accounts@, 8, amount),
            share_transfer(accounts@, 10, amount),
        ]);
        Ok(calls)
    }

    /// Checks an account that Initialize writes.
    fn check_initialize_account(program_id: &Address, account: &AccountView) -> (r: Result<(), BondError>)
        ensures
            r is Ok <==> init_target_ok(*program_id, *account),
            r matches Err(e) ==> target_error(*program_id, *account) == Some(e),
    {
        Check::writable(account)?;
        Check::rent_exempt(account)?;
        Check::owner(account, program_id)?;
        Ok(())
    }

    /// Checks a derived account that Initialize writes.
    fn check_initialize_pda_account(program_id: &Address, accounts: &Vec<AccountView>, i: usize, seed: BondSeed, bump: u8)
        -> (r: Result<(), BondError>)
        requires
            1 < i < accounts@.len(),
        ensures
            r is Ok <==> is_derived(*program_id, accounts@[1].key, seed, bump, accounts@[i as int].key)
                && init_target_ok(*program_id, accounts@[i as int]),
            r matches Err(e) ==> or_else(
                pda_error(*program_id, accounts@[1].key, seed, bump, accounts@[i as int].key),
                target_error(*program_id, accounts@[i as int]),
            ) == Some(e),
    {
        Check::pda(program_id, &accounts[1], &accounts[i], seed, bump)?;
        Self::check_initialize_account(program_id, &accounts[i])
    }

    /// Checks the share account at `i` for Initialize.
    fn check_initialize_share(program_id: &Address, accounts: &Vec<AccountView>, i: usize, seed: BondSeed, bump: u8)
        -> (r: Result<(), BondError>)
        requires
            1 < i < accounts@.len(),
        ensures
            r is Ok <==> init_pda_ok(*program_id, accounts@, i as int, BondShare::decodes(accounts@[i as int].data@), seed, bump),
            r matches Err(e) ==> init_pda_error(*program_id, accounts@, i as int, BondShare::decodes(accounts@[i as int].data@), seed, bump) == Some(e),
    {
        let _share = BondShare::from_bytes(&accounts[i].data)?;
        Self::check_initialize_pda_account(program_id, accounts, i, seed, bump)
    }

    /// Writes a share record with the given fraction at `i`.
    fn initialize_share(accounts: &mut Vec<AccountView>, i: usize, bump: u8, numerator: u32, denominator: u32)
        requires
            1 < i < old(accounts)@.len(),
            SHARE_LEN <= old(accounts)@[i as int].data@.len(),
        ensures
            rewritten(
                old(accounts)@,
                final(accounts)@,
                i as int,
                stored(initial_share(old(accounts)@, bump, numerator, denominator).encoded(), old(accounts)@[i as int].data@),
            ),
    {
        let share = BondShare::new(accounts[1].key, bump, numerator, denominator);
        let bytes = share.to_bytes();
        write_data(accounts, i, &bytes);
    }

    /// Initializes the config, state, fee, exclusion list and the four share accounts, writing
    /// each record over its account's bytes: the config with the default settings, the draw
    /// authority at 2 and the mint at 3; every other record under the config account's authority.
    pub fn process_initialize(
        program_id: &Address,
        ids: &ProgramIds,
        accounts: &mut Vec<AccountView>,
        bumps: &InitBumps,
        exclusion_list_capacity: u32,
        exclusion_list_accounts: Vec<Address>,
    ) -> (r: Result<(), BondError>)
        ensures
            init_outcome(*program_id, *ids, old(accounts)@, final(accounts)@, *bumps, exclusion_list_capacity, exclusion_list_accounts@, r),
    {
        if accounts.len() < 11 {
            return Err(BondError::NotEnoughAccountKeys);
        }
        let ghost a = accounts@;
        Check::signer(&accounts[0])?;
        Check::signer_and_writable(&accounts[1])?;
        Check::signer(&accounts[2])?;
        Check::owner(&accounts[3], &ids.token_program)?;

        let _config = BondConfig::from_bytes(&accounts[1].data)?;
        Self::check_initialize_account(program_id, &accounts[1])?;

        let _state = BondState::from_bytes(&accounts[4].data)?;
        Self::check_initialize_pda_account(program_id, accounts, 4, BondSeed::State, bumps.state)?;

        let _fee = BondFee::from_bytes(&accounts[5].data)?;
        Self::check_initialize_pda_account(program_id, accounts, 5, BondSeed::Fee, bumps.fee)?;

        let _list = BondExclusionList::from_bytes(&accounts[6].data)?;
        Self::check_initialize_pda_account(program_id, accounts, 6, BondSeed::ExclusionList, bumps.exclusion_list)?;
        let excluded = exclusion_list_accounts.len();
        if excluded > exclusion_list_capacity as usize {
            return Err(BondError::InvalidInstructionData);
        }
        if (excluded as u128) * 32 + 42 > accounts[6].data.len() as u128 {
            return Err(BondError::AccountDataTooSmall);
        }

        Self::check_initialize_share(program_id, accounts, 7, BondSeed::Equity, bumps.equity)?;
        Self::check_initialize_share(program_id, accounts, 8, BondSeed::Treasury, bumps.treasury)?;
        Self::check_initialize_share(program_id, accounts, 9, BondSeed::Jackpot, bumps.jackpot)?;
        Self::check_initialize_share(program_id, accounts, 10, BondSeed::Stake, bumps.stake)?;
        assert(init_checks(*program_id, *ids, a, *bumps, exclusion_list_capacity, exclusion_list_accounts@.len()));

        let authority = accounts[1].key;
        let config = BondConfig::new(
            DEFAULT_IS_ACTIVE,
            DEFAULT_EPOCHS_PER_DRAW,
            DEFAULT_MAX_ROLLOVER,
            DEFAULT_ODDS_NUMERATOR,
            DEFAULT_ODDS_DENOMINATOR,
            accounts[2].key,
            accounts[3].key,
        );
        let config_bytes = config.to_bytes();
        write_data(accounts, 1, &config_bytes);
        let ghost f1 = accounts@;

        let state_bytes = BondState::new(authority, bumps.state, 0, 0).to_bytes();
        write_data(accounts, 4, &state_bytes);
        let ghost f4 = accounts@;

        let fee_bytes = BondFee::new(authority, bumps.fee).to_bytes();
        write_data(accounts, 5, &fee_bytes);
        let ghost f5 = accounts@;

        let list = BondExclusionList::new(authority, bumps.exclusion_list, exclusion_list_capacity, exclusion_list_accounts);
        let list_bytes = list.to_bytes();
        proof {
            crate::state::lemma_addresses_bytes_len(list.accounts@);
            vstd::bytes::lemma_auto_spec_u32_to_from_le_bytes();
            assert(authority@.len() == 32);
            assert(list_bytes@ =~= BondExclusionList::bytes_of(authority, bumps.exclusion_list, exclusion_list_capacity, list.accounts@));
        }
        write_data(accounts, 6, &list_bytes);
        let ghost f6 = accounts@;

        Self::initialize_share(accounts, 7, bumps.equity, EQUITY_NUMERATOR, EQUITY_DENOMINATOR);
        let ghost f7 = accounts@;
        Self::initialize_share(accounts, 8, bumps.treasury, TREASURY_NUMERATOR, TREASURY_DENOMINATOR);
        let ghost f8 = accounts@;
        Self::initialize_share(accounts, 9, bumps.jackpot, JACKPOT_NUMERATOR, JACKPOT_DENOMINATOR);
        let ghost f9 = accounts@;
        Self::initialize_share(accounts, 10, bumps.stake, STAKE_NUMERATOR, STAKE_DENOMINATOR);
        proof {
            let f = accounts@;
            assert(f[1] == f1[1]);
            assert(f[4] == f4[4]);
            assert(f[5] == f5[5]);
            assert(f[6] == f6[6]);
            assert(f[7] == f7[7]);
            assert(f[8] == f8[8]);
            assert(f[9] == f9[9]);
        }
        Ok(())
    }

    /// Creates the config account and the derived accounts, with token accounts for the fee and
    /// the four shares, once every account has passed its checks.
    pub fn process_create(program_id: &Address, ids: &ProgramIds, accounts: &Vec<AccountView>, p: &CreateParams)
        -> (r: Result<Vec<HostCall>, BondError>)
        ensures
            create_outcome(*program_id, *ids, accounts@, *p, calls_of(r)),
    {
        if accounts.len() < 18 {
            return Err(BondError::NotEnoughAccountKeys);
        }
        Check::signer(&accounts[0])?;
        Check::signer_and_writable(&accounts[1])?;
        let mut i: usize = 2;
        while i <= 13
            invariant
                2 <= i <= 14,
                accounts@.len() >= 18,
                accounts@[0].is_signer,
                accounts@[1].is_signer,
                accounts@[1].is_writable,
                forall|j: int| 2 <= j < i ==> #[trigger] accounts@[j].is_writable,
            decreases 14 - i,
        {
            if let Err(e) = Check::writable(&accounts[i]) {
                assert(!accounts@[i as int].is_writable);
                return Err(e);
            }
            i = i + 1;
        }
        Check::owner(&accounts[14], &ids.token_program)?;
        Check::account(&accounts[15], &ids.token_program)?;
        Check::account(&accounts[16], &ids.associated_token_program)?;
        Check::account(&accounts[17], &ids.system_program)?;

        let mut calls: Vec<HostCall> = Vec::new();
        Create::account(0, 1, 17, p.config_space, &mut calls);
        Create::pda_account(program_id, accounts, 1, 0, 2, BondSeed::State, p.state_bump, 17, p.state_space, &mut calls)?;
        Create::pda_and_ata_accounts(program_id, accounts, 1, 0, 3, BondSeed::Fee, p.fee_bump, 4, 14, 15, 16, 17, p.fee_space, &mut calls)?;
        Create::pda_account(
            program_id, accounts, 1, 0, 5, BondSeed::ExclusionList, p.exclusion_list_bump, 17, p.exclusion_list_space, &mut calls,
        )?;
        Create::pda_and_ata_accounts(program_id, accounts, 1, 0, 6, BondSeed::Equity, p.equity_bump, 7, 14, 15, 16, 17, p.equity_space, &mut calls)?;
        Create::pda_and_ata_accounts(
            program_id, accounts, 1, 0, 8, BondSeed::Treasury, p.treasury_bump, 9, 14, 15, 16, 17, p.treasury_space, &mut calls,
        )?;
        Create::pda_and_ata_accounts(
            program_id, accounts, 1, 0, 10, BondSeed::Jackpot, p.jackpot_bump, 11, 14, 15, 16, 17, p.jackpot_space, &mut calls,
        )?;
        Create::pda_and_ata_accounts(program_id, accounts, 1, 0, 12, BondSeed::Stake, p.stake_bump, 13, 14, 15, 16, 17, p.stake_space, &mut calls)?;
        assert(calls@ =~= create_calls(*p));
        Ok(calls)
    }

    /// Runs one instruction: its handler's checks, writes and host calls.
    pub fn process(
        program_id: &Address,
        ids: &ProgramIds,
        accounts: &mut Vec<AccountView>,
        clock: &Clock,
        instruction: BondInstruction,
    ) -> (r: Result<Vec<HostCall>, BondError>)
        ensures
            process_outcome(*program_id, *ids, old(accounts)@, final(accounts)@, *clock, instruction, calls_of(r)),
    {
        match instruction {
            BondInstruction::Create {
                config_space, state_bump, state_space, fee_bump, fee_space, exclusion_list_bump,
                exclusion_list_space, equity_bump, equity_space, treasury_bump, treasury_space,
                jackpot_bump, jackpot_space, stake_bump, stake_space,
            } => {
                let p = CreateParams {
                    config_space, state_bump, state_space, fee_bump, fee_space, exclusion_list_bump,
                    exclusion_list_space, equity_bump, equity_space, treasury_bump, treasury_space,
                    jackpot_bump, jackpot_space, stake_bump, stake_space,
                };
                Self::process_create(program_id, ids, accounts, &p)
            },
            BondInstruction::Initialize {
                state_bump, fee_bump, exclusion_list_bump, exclusion_list_capacity,
                exclusion_list_accounts, equity_bump, treasury_bump, jackpot_bump, stake_bump,
            } => {
                let bumps = InitBumps {
                    state: state_bump,
                    fee: fee_bump,
                    exclusion_list: exclusion_list_bump,
                    equity: equity_bump,
                    treasury: treasury_bump,
                    jackpot: jackpot_bump,
                    stake: stake_bump,
                };
                match Self::process_initialize(program_id, ids, accounts, &bumps, exclusion_list_capacity, exclusion_list_accounts) {
                    Ok(()) => Ok(Vec::new()),
                    Err(e) => Err(e),
                }
            },
            BondInstruction::SplitShares { amount } => Self::process_split_shares(program_id, accounts, amount),
            BondInstruction::Draw { receiver_seed, draw_seed } => {
                Self::process_draw(program_id, accounts, clock, receiver_seed, draw_seed)
            },
            BondInstruction::Test => Ok(Vec::new()),
        }
    }
}

} // verus!
