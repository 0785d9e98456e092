use bond::account::{AccountView, Address, Clock, ProgramIds};
use bond::check::Check;
use bond::create::{Create, HostCall, Signer};
use bond::error::BondError;
use bond::instruction::BondInstruction;
use bond::processor::{CreateParams, InitBumps, Processor};
use bond::state::{BondConfig, BondDraw, BondExclusionList, BondSeed, BondShare, BondState};
use bond::token::TokenAccount;
use solana_program::pubkey::Pubkey;
use spl_token::solana_program::program_option::COption;
use spl_token::solana_program::program_pack::Pack;

fn addr(p: &Pubkey) -> Address {
    Address::new(p.to_bytes())
}

fn program() -> Pubkey {
    Pubkey::new_from_array([9u8; 32])
}

fn config_key() -> Pubkey {
    Pubkey::new_from_array([1u8; 32])
}

fn mint_key() -> Pubkey {
    Pubkey::new_from_array([5u8; 32])
}

fn authority_key() -> Pubkey {
    Pubkey::new_from_array([2u8; 32])
}

fn derived(seed: &str) -> (Pubkey, u8) {
    Pubkey::find_program_address(&[config_key().as_ref(), seed.as_bytes()], &program())
}

fn ids() -> ProgramIds {
    ProgramIds {
        token_program: addr(&spl_token::id()),
        associated_token_program: addr(&spl_associated_token_account::id()),
        system_program: Address::new([0u8; 32]),
    }
}

fn view(key: &Pubkey, owner: &Pubkey, is_signer: bool, is_writable: bool, data: Vec<u8>) -> AccountView {
    AccountView {
        key: addr(key),
        owner: addr(owner),
        is_signer,
        is_writable,
        lamports: 5_000_000,
        rent_exempt_minimum: 1_000_000,
        data,
    }
}

fn token_data(owner: &Pubkey, amount: u64) -> Vec<u8> {
    let account = spl_token::state::Account {
        mint: mint_key(),
        owner: *owner,
        amount,
        delegate: COption::None,
        state: spl_token::state::AccountState::Initialized,
        is_native: COption::None,
        delegated_amount: 0,
        close_authority: COption::None,
    };
    let mut data = vec![0u8; 165];
    spl_token::state::Account::pack(account, &mut data).unwrap();
    data
}

fn ata_key(owner: &Pubkey) -> Pubkey {
    spl_associated_token_account::get_associated_token_address(owner, &mint_key())
}

fn bumps() -> InitBumps {
    InitBumps {
        state: derived("state").1,
        fee: derived("fee").1,
        exclusion_list: derived("exclusionList").1,
        equity: derived("equity").1,
        treasury: derived("treasury").1,
        jackpot: derived("jackpot").1,
        stake: derived("stake").1,
    }
}

fn init_accounts() -> Vec<AccountView> {
    let p = program();
    let other = Pubkey::new_from_array([8u8; 32]);
    vec![
        view(&other, &Pubkey::default(), true, true, vec![]),
        view(&config_key(), &p, true, true, vec![0u8; 76]),
        view(&authority_key(), &Pubkey::default(), true, false, vec![]),
        view(&mint_key(), &spl_token::id(), false, false, vec![]),
        view(&derived("state").0, &p, false, true, vec![0u8; 43]),
        view(&derived("fee").0, &p, false, true, vec![0u8; 34]),
        view(&derived("exclusionList").0, &p, false, true, vec![0u8; 42 + 32 * 4]),
        view(&derived("equity").0, &p, false, true, vec![0u8; 42]),
        view(&derived("treasury").0, &p, false, true, vec![0u8; 42]),
        view(&derived("jackpot").0, &p, false, true, vec![0u8; 42]),
        view(&derived("stake").0, &p, false, true, vec![0u8; 42]),
    ]
}

fn initialized_accounts() -> Vec<AccountView> {
    let mut accounts = init_accounts();
    let excluded = vec![Address::new([7u8; 32])];
    let r = Processor::process_initialize(&addr(&program()), &ids(), &mut accounts, &bumps(), 4, excluded);
    assert_eq!(r, Ok(()));
    accounts
}

fn split_accounts(init: &Vec<AccountView>, fee_balance: u64) -> Vec<AccountView> {
    let mut accounts = vec![view(&authority_key(), &Pubkey::default(), true, false, vec![]), init[1].clone()];
    for (i, seed) in [(5usize, "fee"), (7, "equity"), (8, "treasury"), (9, "jackpot"), (10, "stake")] {
        let pda = derived(seed).0;
        accounts.push(init[i].clone());
        let balance = if seed == "fee" { fee_balance } else { 0 };
        accounts.push(view(&ata_key(&pda), &spl_token::id(), false, true, token_data(&pda, balance)));
    }
    accounts.push(view(&mint_key(), &spl_token::id(), false, false, vec![]));
    accounts.push(view(&spl_token::id(), &Pubkey::default(), false, false, vec![]));
    accounts
}

fn draw_accounts(init: &Vec<AccountView>, jackpot_balance: u64, receiver: &Pubkey) -> Vec<AccountView> {
    let jackpot = derived("jackpot").0;
    vec![
        view(&authority_key(), &Pubkey::default(), true, false, vec![]),
        init[1].clone(),
        init[4].clone(),
        init[9].clone(),
        view(&ata_key(&jackpot), &spl_token::id(), false, true, token_data(&jackpot, jackpot_balance)),
        view(receiver, &Pubkey::default(), false, false, vec![]),
        view(&ata_key(receiver), &spl_token::id(), false, true, token_data(receiver, 0)),
        view(&Pubkey::new_from_array([6u8; 32]), &program(), false, true, vec![0u8; 122]),
        view(&mint_key(), &spl_token::id(), false, false, vec![]),
        view(&spl_token::id(), &Pubkey::default(), false, false, vec![]),
    ]
}

fn clock() -> Clock {
    Clock { slot: 100, epoch_start_timestamp: 1_600_000_000, epoch: 7, unix_timestamp: 1_600_000_500 }
}

fn transfer_amounts(calls: &Vec<HostCall>) -> Vec<u64> {
    calls
        .iter()
        .map(|c| match c {
            HostCall::TransferChecked { amount, .. } => *amount,
            _ => panic!("not a transfer"),
        })
        .collect()
}

#[test]
fn derived_address_matches_host_derivation() {
    let config = view(&config_key(), &program(), true, true, vec![]);
    for seed in [BondSeed::State, BondSeed::Fee, BondSeed::Jackpot] {
        let text = String::from_utf8(seed.as_bytes()).unwrap();
        let (expected, bump) = derived(&text);
        let got = Create::pda(&addr(&program()), &config, seed, bump).unwrap();
        assert_eq!(got, addr(&expected));
        assert_ne!(got, config.key);
        let pda = view(&expected, &program(), false, true, vec![]);
        assert_eq!(Check::pda(&addr(&program()), &config, &pda, seed, bump), Ok(()));
    }
}

#[test]
fn wrong_bump_is_a_mismatch_or_invalid_seed() {
    let config = view(&config_key(), &program(), true, true, vec![]);
    let (expected, bump) = derived("state");
    let pda = view(&expected, &program(), false, true, vec![]);
    let r = Check::pda(&addr(&program()), &config, &pda, BondSeed::State, bump.wrapping_sub(1));
    assert!(r == Err(BondError::AddressMismatch) || r == Err(BondError::InvalidSeeds));
    let other = view(&Pubkey::new_from_array([3u8; 32]), &program(), false, true, vec![]);
    assert_eq!(Check::pda(&addr(&program()), &config, &other, BondSeed::State, bump), Err(BondError::AddressMismatch));
}

#[test]
fn associated_token_address_check() {
    let (fee, _) = derived("fee");
    let fee_view = view(&fee, &program(), false, true, vec![]);
    let ata = view(&ata_key(&fee), &spl_token::id(), false, true, vec![]);
    assert_eq!(Check::ata(&fee_view, &addr(&mint_key()), &ata), Ok(()));
    assert_eq!(Check::ata(&fee_view, &addr(&mint_key()), &fee_view), Err(BondError::AddressMismatch));
}

#[test]
fn token_account_fields() {
    let owner = Pubkey::new_from_array([4u8; 32]);
    let t = TokenAccount::from_bytes(&token_data(&owner, 1_234)).unwrap();
    assert_eq!(t.owner, addr(&owner));
    assert_eq!(t.mint, addr(&mint_key()));
    assert_eq!(t.amount, 1_234);
    assert!(TokenAccount::from_bytes(&vec![0u8; 164]).is_err());
    let mut bad = token_data(&owner, 1);
    bad[108] = 3;
    assert_eq!(TokenAccount::from_bytes(&bad).err(), Some(BondError::InvalidAccountData));
}

#[test]
fn simple_checks() {
    let mut a = view(&config_key(), &program(), false, false, vec![]);
    assert_eq!(Check::signer(&a), Err(BondError::MissingSignature));
    assert_eq!(Check::writable(&a), Err(BondError::NotWritable));
    assert_eq!(Check::readonly(&a), Ok(()));
    assert_eq!(Check::signer_and_writable(&a), Err(BondError::MissingSignature));
    a.is_signer = true;
    assert_eq!(Check::signer_and_writable(&a), Err(BondError::NotWritable));
    assert_eq!(Check::signer_and_readonly(&a), Ok(()));
    a.is_writable = true;
    assert_eq!(Check::signer_and_readonly(&a), Err(BondError::NotReadonly));
    assert_eq!(Check::owner(&a, &addr(&program())), Ok(()));
    assert_eq!(Check::owner(&a, &addr(&mint_key())), Err(BondError::IncorrectOwner));
    assert_eq!(Check::account(&a, &addr(&mint_key())), Err(BondError::AddressMismatch));
    assert_eq!(Check::pubkey(&addr(&mint_key()), &addr(&config_key())), Err(BondError::IncorrectOwner));
    assert_eq!(Check::rent_exempt(&a), Ok(()));
    a.lamports = 999_999;
    assert_eq!(Check::rent_exempt(&a), Err(BondError::NotRentExempt));
    let zeros = BondDraw::from_bytes(&vec![0u8; 122]).unwrap();
    assert_eq!(Check::uninitialized(&zeros), Ok(()));
    assert_eq!(Check::initialized(&zeros), Err(BondError::UninitializedAccount));
    let state = BondState::new(addr(&config_key()), 1, 0, 0);
    assert_eq!(Check::initialized(&state), Ok(()));
    assert_eq!(Check::uninitialized(&state), Err(BondError::AlreadyInitialized));
    assert_eq!(Check::valid(&state), Ok(()));
    let wrong = BondShare::from_bytes(&state.to_bytes()[..42].to_vec()).unwrap();
    assert_eq!(Check::valid(&wrong), Err(BondError::InvalidAccountType));
}

fn create_accounts() -> Vec<AccountView> {
    let p = program();
    let sys = Pubkey::default();
    let mut accounts = vec![
        view(&Pubkey::new_from_array([8u8; 32]), &sys, true, true, vec![]),
        view(&config_key(), &sys, true, true, vec![]),
    ];
    for seed in ["state", "fee", "exclusionList", "equity", "treasury", "jackpot", "stake"] {
        let pda = derived(seed).0;
        accounts.push(view(&pda, &sys, false, true, vec![]));
        if seed != "state" && seed != "exclusionList" {
            accounts.push(view(&ata_key(&pda), &sys, false, true, vec![]));
        }
    }
    accounts.push(view(&mint_key(), &spl_token::id(), false, false, vec![]));
    accounts.push(view(&spl_token::id(), &sys, false, false, vec![]));
    accounts.push(view(&spl_associated_token_account::id(), &sys, false, false, vec![]));
    accounts.push(view(&sys, &sys, false, false, vec![]));
    let _ = p;
    accounts
}

fn create_params() -> CreateParams {
    CreateParams {
        config_space: 76,
        state_bump: derived("state").1,
        state_space: 43,
        fee_bump: derived("fee").1,
        fee_space: 34,
        exclusion_list_bump: derived("exclusionList").1,
        exclusion_list_space: 170,
        equity_bump: derived("equity").1,
        equity_space: 42,
        treasury_bump: derived("treasury").1,
        treasury_space: 42,
        jackpot_bump: derived("jackpot").1,
        jackpot_space: 42,
        stake_bump: derived("stake").1,
        stake_space: 42,
    }
}

#[test]
fn create_asks_for_every_account() {
    let accounts = create_accounts();
    let calls = Processor::process_create(&addr(&program()), &ids(), &accounts, &create_params()).unwrap();
    assert_eq!(calls.len(), 13);
    assert_eq!(calls[0], HostCall::CreateAccount { payer: 0, target: 1, system_program: 17, space: 76, signer: None });
    assert_eq!(
        calls[1],
        HostCall::CreateAccount {
            payer: 0,
            target: 2,
            system_program: 17,
            space: 43,
            signer: Some(Signer { root: 1, seed: BondSeed::State, bump: derived("state").1 }),
        }
    );
    assert_eq!(
        calls[3],
        HostCall::CreateTokenAccount {
            payer: 0,
            ata: 4,
            wallet: 3,
            mint: 14,
            token_program: 15,
            associated_token_program: 16,
            system_program: 17,
        }
    );
}

#[test]
fn create_refuses_wrong_programs_and_addresses() {
    let mut accounts = create_accounts();
    accounts[15].key = addr(&mint_key());
    assert_eq!(Processor::process_create(&addr(&program()), &ids(), &accounts, &create_params()), Err(BondError::AddressMismatch));
    let mut accounts = create_accounts();
    accounts[14].owner = Address::new([0u8; 32]);
    assert_eq!(Processor::process_create(&addr(&program()), &ids(), &accounts, &create_params()), Err(BondError::IncorrectOwner));
    let mut accounts = create_accounts();
    accounts[8].key = Address::new([3u8; 32]);
    assert_eq!(Processor::process_create(&addr(&program()), &ids(), &accounts, &create_params()), Err(BondError::AddressMismatch));
    let mut accounts = create_accounts();
    accounts[1].is_signer = false;
    assert_eq!(Processor::process_create(&addr(&program()), &ids(), &accounts, &create_params()), Err(BondError::MissingSignature));
    let accounts = create_accounts();
    assert_eq!(
        Processor::process_create(&addr(&program()), &ids(), &accounts[..17].to_vec(), &create_params()),
        Err(BondError::NotEnoughAccountKeys)
    );
}

#[test]
fn initialize_writes_every_record() {
    let accounts = initialized_accounts();
    let config = BondConfig::from_bytes(&accounts[1].data).unwrap();
    assert_eq!(config, BondConfig::new(true, 0, 3, 10, 100, addr(&authority_key()), addr(&mint_key())));
    let state = BondState::from_bytes(&accounts[4].data).unwrap();
    assert_eq!(state, BondState::new(addr(&config_key()), bumps().state, 0, 0));
    let list = BondExclusionList::from_bytes(&accounts[6].data).unwrap();
    assert_eq!(list.capacity, 4);
    assert_eq!(list.accounts, vec![Address::new([7u8; 32])]);
    let fractions: Vec<(u32, u32)> = (7..11)
        .map(|i| {
            let s = BondShare::from_bytes(&accounts[i].data).unwrap();
            (s.numerator, s.denominator)
        })
        .collect();
    assert_eq!(fractions, vec![(10, 100), (0, 0), (80, 100), (10, 100)]);
}

#[test]
fn initialize_refuses_and_writes_nothing() {
    let before = init_accounts();
    let mut accounts = before.clone();
    accounts[5].key = Address::new([3u8; 32]);
    let expect = accounts.clone();
    let r = Processor::process_initialize(&addr(&program()), &ids(), &mut accounts, &bumps(), 4, vec![]);
    assert_eq!(r, Err(BondError::AddressMismatch));
    assert_eq!(accounts.iter().map(|a| a.data.clone()).collect::<Vec<_>>(), expect.iter().map(|a| a.data.clone()).collect::<Vec<_>>());

    let mut accounts = before.clone();
    accounts[7].lamports = 1;
    let r = Processor::process_initialize(&addr(&program()), &ids(), &mut accounts, &bumps(), 4, vec![]);
    assert_eq!(r, Err(BondError::NotRentExempt));
    assert_eq!(accounts[1].data, before[1].data);

    let mut accounts = before.clone();
    let r = Processor::process_initialize(&addr(&program()), &ids(), &mut accounts, &bumps(), 1, vec![Address::new([7u8; 32]); 2]);
    assert_eq!(r, Err(BondError::InvalidInstructionData));

    let mut accounts = before.clone();
    let r = Processor::process_initialize(&addr(&program()), &ids(), &mut accounts, &bumps(), 9, vec![Address::new([7u8; 32]); 5]);
    assert_eq!(r, Err(BondError::AccountDataTooSmall));

    let mut accounts = before.clone();
    accounts[2].is_signer = false;
    let r = Processor::process_initialize(&addr(&program()), &ids(), &mut accounts, &bumps(), 4, vec![]);
    assert_eq!(r, Err(BondError::MissingSignature));
}

#[test]
fn create_initialize_split_shares() {
    let calls = Processor::process_create(&addr(&program()), &ids(), &create_accounts(), &create_params()).unwrap();
    assert_eq!(calls.len(), 13);
    let init = initialized_accounts();
    let accounts = split_accounts(&init, 1_000);
    let calls = Processor::process_split_shares(&addr(&program()), &accounts, None).unwrap();
    assert_eq!(transfer_amounts(&calls), vec![100, 0, 800, 100]);
    match calls[2] {
        HostCall::TransferChecked { source, destination, authority, signer, decimals, .. } => {
            assert_eq!((source, destination, authority, decimals), (3, 9, 2, 9));
            assert_eq!(signer, Signer { root: 1, seed: BondSeed::Fee, bump: bumps().fee });
        },
        _ => panic!("not a transfer"),
    }
    let calls = Processor::process_split_shares(&addr(&program()), &split_accounts(&init, 12_345), None).unwrap();
    assert_eq!(transfer_amounts(&calls), vec![1_234, 0, 9_876, 1_234]);
    let calls = Processor::process_split_shares(&addr(&program()), &accounts, Some(55)).unwrap();
    assert_eq!(transfer_amounts(&calls), vec![5, 0, 44, 5]);
}

#[test]
fn split_refuses_foreign_accounts() {
    let init = initialized_accounts();
    let mut accounts = split_accounts(&init, 1_000);
    accounts[4].key = Address::new([3u8; 32]);
    assert_eq!(Processor::process_split_shares(&addr(&program()), &accounts, None), Err(BondError::AddressMismatch));
    let mut accounts = split_accounts(&init, 1_000);
    accounts[0].key = Address::new([3u8; 32]);
    assert_eq!(Processor::process_split_shares(&addr(&program()), &accounts, None), Err(BondError::AddressMismatch));
    let mut accounts = split_accounts(&init, 1_000);
    accounts[5].data = token_data(&Pubkey::new_from_array([3u8; 32]), 0);
    assert_eq!(Processor::process_split_shares(&addr(&program()), &accounts, None), Err(BondError::IncorrectOwner));
    let mut accounts = split_accounts(&init, 1_000);
    accounts[2].data = accounts[4].data.clone();
    assert_eq!(Processor::process_split_shares(&addr(&program()), &accounts, None), Err(BondError::InvalidAccountType));
    let mut accounts = split_accounts(&init, 1_000);
    accounts[8].data[34] = 101;
    assert_eq!(Processor::process_split_shares(&addr(&program()), &accounts, None), Err(BondError::InvalidShare));
}

#[test]
fn draw_with_empty_jackpot_does_nothing() {
    let init = initialized_accounts();
    let receiver = Pubkey::new_from_array([11u8; 32]);
    let mut accounts = draw_accounts(&init, 0, &receiver);
    let before: Vec<Vec<u8>> = accounts.iter().map(|a| a.data.clone()).collect();
    let calls = Processor::process_draw(&addr(&program()), &mut accounts, &clock(), 3, 99).unwrap();
    assert!(calls.is_empty());
    assert_eq!(accounts.iter().map(|a| a.data.clone()).collect::<Vec<_>>(), before);
}

#[test]
fn draw_pays_the_whole_jackpot() {
    let init = initialized_accounts();
    let receiver = Pubkey::new_from_array([11u8; 32]);
    let mut accounts = draw_accounts(&init, 5_000, &receiver);
    let calls = Processor::process_draw(&addr(&program()), &mut accounts, &clock(), 42, 1).unwrap();
    assert_eq!(
        calls,
        vec![HostCall::TransferChecked {
            draw_authority: 0,
            token_program: 9,
            mint: 8,
            source: 4,
            destination: 6,
            authority: 3,
            signer: Signer { root: 1, seed: BondSeed::Jackpot, bump: bumps().jackpot },
            amount: 5_000,
            decimals: 9,
        }]
    );
    let state = BondState::from_bytes(&accounts[2].data).unwrap();
    assert_eq!((state.draw_id, state.rollover), (1, 0));
    let draw = BondDraw::from_bytes(&accounts[7].data).unwrap();
    assert_eq!(
        draw,
        BondDraw::new(addr(&authority_key()), 1, 5_000, 42, addr(&receiver), 0, 100, 1_600_000_000, 7, 1_600_000_500)
    );
}

#[test]
fn draw_rollover_keeps_the_jackpot() {
    let init = initialized_accounts();
    let jackpot = derived("jackpot").0;
    let mut accounts = draw_accounts(&init, 5_000, &jackpot);
    accounts[6] = view(&ata_key(&jackpot), &spl_token::id(), false, true, token_data(&jackpot, 5_000));
    let calls = Processor::process_draw(&addr(&program()), &mut accounts, &clock(), 7, 1).unwrap();
    assert!(calls.is_empty());
    let state = BondState::from_bytes(&accounts[2].data).unwrap();
    assert_eq!((state.draw_id, state.rollover), (1, 1));
    let draw = BondDraw::from_bytes(&accounts[7].data).unwrap();
    assert_eq!((draw.id, draw.amount, draw.rollover), (1, 5_000, 1));

    let state_after = accounts[2].clone();
    let mut next = draw_accounts(&init, 5_000, &jackpot);
    next[2] = state_after;
    next[6] = view(&ata_key(&jackpot), &spl_token::id(), false, true, token_data(&jackpot, 5_000));
    Processor::process_draw(&addr(&program()), &mut next, &clock(), 8, 2).unwrap();
    let state = BondState::from_bytes(&next[2].data).unwrap();
    assert_eq!((state.draw_id, state.rollover), (2, 2));
}

#[test]
fn draw_ids_follow_in_sequence() {
    let init = initialized_accounts();
    let receiver = Pubkey::new_from_array([11u8; 32]);
    let mut state = init[4].clone();
    for n in 1..=3u64 {
        let mut accounts = draw_accounts(&init, 10, &receiver);
        accounts[2] = state.clone();
        let stale = Processor::process_draw(&addr(&program()), &mut accounts.clone(), &clock(), 0, n + 1);
        assert_eq!(stale, Err(BondError::InvalidSeeds));
        let mut unchanged = accounts.clone();
        assert_eq!(Processor::process_draw(&addr(&program()), &mut unchanged, &clock(), 0, n - 1), Err(BondError::InvalidSeeds));
        assert_eq!(unchanged[2].data, state.data);
        Processor::process_draw(&addr(&program()), &mut accounts, &clock(), 0, n).unwrap();
        assert_eq!(BondState::from_bytes(&accounts[2].data).unwrap().draw_id, n);
        state = accounts[2].clone();
    }
}

#[test]
fn draw_refuses_used_record_and_foreign_state() {
    let init = initialized_accounts();
    let receiver = Pubkey::new_from_array([11u8; 32]);
    let mut accounts = draw_accounts(&init, 10, &receiver);
    Processor::process_draw(&addr(&program()), &mut accounts, &clock(), 0, 1).unwrap();
    let mut again = draw_accounts(&init, 10, &receiver);
    again[7] = accounts[7].clone();
    assert_eq!(Processor::process_draw(&addr(&program()), &mut again, &clock(), 0, 1), Err(BondError::AlreadyInitialized));

    let mut accounts = draw_accounts(&init, 10, &receiver);
    accounts[2].key = Address::new([3u8; 32]);
    let before = accounts[2].data.clone();
    assert_eq!(Processor::process_draw(&addr(&program()), &mut accounts, &clock(), 0, 1), Err(BondError::AddressMismatch));
    assert_eq!(accounts[2].data, before);

    let mut accounts = draw_accounts(&init, 10, &receiver);
    accounts[0].is_signer = false;
    assert_eq!(Processor::process_draw(&addr(&program()), &mut accounts, &clock(), 0, 1), Err(BondError::MissingSignature));
}

#[test]
fn process_dispatches_instructions() {
    let init = initialized_accounts();
    let mut accounts = split_accounts(&init, 1_000);
    let calls = Processor::process(
        &addr(&program()),
        &ids(),
        &mut accounts,
        &clock(),
        BondInstruction::SplitShares { amount: Some(10) },
    )
    .unwrap();
    assert_eq!(transfer_amounts(&calls), vec![1, 0, 8, 1]);
    let mut none: Vec<AccountView> = vec![];
    assert_eq!(Processor::process(&addr(&program()), &ids(), &mut none, &clock(), BondInstruction::Test), Ok(vec![]));
    assert_eq!(
        Processor::process(&addr(&program()), &ids(), &mut none, &clock(), BondInstruction::Draw { receiver_seed: 0, draw_seed: 1 }),
        Err(BondError::NotEnoughAccountKeys)
    );
}

#[test]
fn rollover_count_cannot_overflow() {
    let init = initialized_accounts();
    let jackpot = derived("jackpot").0;
    let mut accounts = draw_accounts(&init, 5_000, &jackpot);
    accounts[6] = view(&ata_key(&jackpot), &spl_token::id(), false, true, token_data(&jackpot, 5_000));
    accounts[2].data[42] = 255;
    let before: Vec<Vec<u8>> = accounts.iter().map(|a| a.data.clone()).collect();
    assert_eq!(Processor::process_draw(&addr(&program()), &mut accounts, &clock(), 0, 1), Err(BondError::RolloverOverflow));
    assert_eq!(accounts.iter().map(|a| a.data.clone()).collect::<Vec<_>>(), before);
    let receiver = Pubkey::new_from_array([11u8; 32]);
    let mut paid = draw_accounts(&init, 5_000, &receiver);
    paid[2].data[42] = 255;
    Processor::process_draw(&addr(&program()), &mut paid, &clock(), 0, 1).unwrap();
    assert_eq!(BondState::from_bytes(&paid[2].data).unwrap().rollover, 0);
}

#[test]
fn largest_draw_id_has_no_successor() {
    let init = initialized_accounts();
    let receiver = Pubkey::new_from_array([11u8; 32]);
    let mut accounts = draw_accounts(&init, 10, &receiver);
    accounts[2].data[34..42].copy_from_slice(&u64::MAX.to_le_bytes());
    assert_eq!(Processor::process_draw(&addr(&program()), &mut accounts, &clock(), 0, u64::MAX), Err(BondError::InvalidSeeds));
    assert_eq!(Processor::process_draw(&addr(&program()), &mut accounts, &clock(), 0, 0), Err(BondError::InvalidSeeds));
}

#[test]
fn process_runs_create_and_initialize() {
    let mut accounts = create_accounts();
    let p = create_params();
    let ix = BondInstruction::Create {
        config_space: p.config_space,
        state_bump: p.state_bump,
        state_space: p.state_space,
        fee_bump: p.fee_bump,
        fee_space: p.fee_space,
        exclusion_list_bump: p.exclusion_list_bump,
        exclusion_list_space: p.exclusion_list_space,
        equity_bump: p.equity_bump,
        equity_space: p.equity_space,
        treasury_bump: p.treasury_bump,
        treasury_space: p.treasury_space,
        jackpot_bump: p.jackpot_bump,
        jackpot_space: p.jackpot_space,
        stake_bump: p.stake_bump,
        stake_space: p.stake_space,
    };
    let calls = Processor::process(&addr(&program()), &ids(), &mut accounts, &clock(), ix).unwrap();
    assert_eq!(calls.len(), 13);

    let mut accounts = init_accounts();
    let b = bumps();
    let ix = BondInstruction::Initialize {
        state_bump: b.state,
        fee_bump: b.fee,
        exclusion_list_bump: b.exclusion_list,
        exclusion_list_capacity: 4,
        exclusion_list_accounts: vec![],
        equity_bump: b.equity,
        treasury_bump: b.treasury,
        jackpot_bump: b.jackpot,
        stake_bump: b.stake,
    };
    let calls = Processor::process(&addr(&program()), &ids(), &mut accounts, &clock(), ix).unwrap();
    assert!(calls.is_empty());
    let share = BondShare::from_bytes(&accounts[9].data).unwrap();
    assert_eq!((share.numerator, share.denominator), (80, 100));
}
