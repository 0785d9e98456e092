//! The typed records kept in program accounts, and their byte layouts.
//!
//! Every record starts with a one-byte type tag, followed by its fields in declaration order:
//! integers little-endian, `bool` as one byte (0 or 1), an address as its 32 bytes, a list as a
//! `u32` count followed by its items. Decoding reads a prefix and ignores trailing bytes.

use vstd::prelude::*;
use vstd::bytes::{
    lemma_auto_spec_u32_to_from_le_bytes, lemma_auto_spec_u64_to_from_le_bytes,
    spec_u32_to_le_bytes, spec_u64_to_le_bytes,
};
use crate::account::Address;
use crate::codec::{push_address, push_u32, push_u64, read_address, read_u32, read_u64, write_prefix};
use crate::error::BondError;

verus! {

/// The kinds of record managed by the program.
#[derive(Clone, Copy, Debug, PartialEq, Eq, Structural)]
pub enum BondAccountType {
    /// A new account that has not been initialized.
    Uninitialized,
    /// The game's settings.
    Config,
    /// The game's current state.
    State,
    /// A share in the staking rewards (e.g. the jackpot).
    Share,
    /// The stake pool's fee account.
    Fee,
    /// A draw result.
    Draw,
    /// Accounts excluded from winning a draw.
    ExclusionList,
}

impl BondAccountType {
    /// The byte that stands for this kind at the start of a record.
    pub open spec fn tag(self) -> u8 {
        match self {
            BondAccountType::Uninitialized => 0,
            BondAccountType::Config => 1,
            BondAccountType::State => 2,
            BondAccountType::Share => 3,
            BondAccountType::Fee => 4,
            BondAccountType::Draw => 5,
            BondAccountType::ExclusionList => 6,
        }
    }

    /// The tag byte of this kind.
    pub fn to_tag(&self) -> (r: u8)
        ensures
            r == self.tag(),
    {
        match self {
            BondAccountType::Uninitialized => 0,
            BondAccountType::Config => 1,
            BondAccountType::State => 2,
            BondAccountType::Share => 3,
            BondAccountType::Fee => 4,
            BondAccountType::Draw => 5,
            BondAccountType::ExclusionList => 6,
        }
    }

    /// The kind whose tag is `t`, if any.
    pub fn from_tag(t: u8) -> (r: Option<BondAccountType>)
        ensures
            r.is_some() <==> t <= 6,
            r matches Some(k) ==> k.tag() == t,
    {
        match t {
            0 => Some(BondAccountType::Uninitialized),
            1 => Some(BondAccountType::Config),
            2 => Some(BondAccountType::State),
            3 => Some(BondAccountType::Share),
            4 => Some(BondAccountType::Fee),
            5 => Some(BondAccountType::Draw),
            6 => Some(BondAccountType::ExclusionList),
            _ => None,
        }
    }
}

impl Default for BondAccountType {
    fn default() -> (r: Self)
        ensures
            r == BondAccountType::Uninitialized,
    {
        BondAccountType::Uninitialized
    }
}

/// The role seeds from which the program's derived addresses are computed.
#[derive(Clone, Copy, Debug, PartialEq, Eq, Structural)]
pub enum BondSeed {
    /// The current state.
    State,
    /// The stake pool's epoch fee.
    Fee,
    /// A draw result.
    Draw,
    /// Accounts excluded from winning a draw.
    ExclusionList,
    /// The creator's share.
    Equity,
    /// The treasury.
    Treasury,
    /// The jackpot.
    Jackpot,
    /// The game's locked stake.
    Stake,
}

impl BondSeed {
    /// The seed's text as ASCII bytes ("state", "fee", "draw", "exclusionList", "equity",
    /// "treasury", "jackpot", "stake").
    pub open spec fn bytes(self) -> Seq<u8> {
        match self {
            BondSeed::State => seq![115u8, 116, 97, 116, 101],
            BondSeed::Fee => seq![102u8, 101, 101],
            BondSeed::Draw => seq![100u8, 114, 97, 119],
            BondSeed::ExclusionList => seq![101u8, 120, 99, 108, 117, 115, 105, 111, 110, 76, 105, 115, 116],
            BondSeed::Equity => seq![101u8, 113, 117, 105, 116, 121],
            BondSeed::Treasury => seq![116u8, 114, 101, 97, 115, 117, 114, 121],
            BondSeed::Jackpot => seq![106u8, 97, 99, 107, 112, 111, 116],
            BondSeed::Stake => seq![115u8, 116, 97, 107, 101],
        }
    }

    /// The seed's text as bytes.
    pub fn as_bytes(&self) -> (r: Vec<u8>)
        ensures
            r@ == self.bytes(),
    {
        let r = match self {
            BondSeed::State => vec![115u8, 116, 97, 116, 101],
            BondSeed::Fee => vec![102u8, 101, 101],
            BondSeed::Draw => vec![100u8, 114, 97, 119],
            BondSeed::ExclusionList => vec![101u8, 120, 99, 108, 117, 115, 105, 111, 110, 76, 105, 115, 116],
            BondSeed::Equity => vec![101u8, 113, 117, 105, 116, 121],
            BondSeed::Treasury => vec![116u8, 114, 101, 97, 115, 117, 114, 121],
            BondSeed::Jackpot => vec![106u8, 97, 99, 107, 112, 111, 116],
            BondSeed::Stake => vec![115u8, 116, 97, 107, 101],
        };
        assert(r@ =~= self.bytes());
        r
    }
}

/// A record of the program: it can tell whether it has been initialized, and to which type.
pub trait BondAccount {
    /// The type tag held by the record.
    spec fn kind(&self) -> BondAccountType;

    /// The type that a valid record of this kind holds.
    spec fn expected_kind() -> BondAccountType;

    /// True if the record has been initialized.
    fn is_initialized(&self) -> (r: bool)
        ensures
            r == (self.kind() != BondAccountType::Uninitialized),
    ;

    /// True if the record has been initialized with its expected type.
    fn is_valid(&self) -> (r: bool)
        ensures
            r == (self.kind() == Self::expected_kind()),
    ;
}

/// A record owned by the program, under an authority.
pub trait BondProgramAccount: BondAccount {
    /// The address authorized to modify the record.
    spec fn authority_of(&self) -> Address;

    /// The address authorized to modify the record.
    fn authority(&self) -> (r: Address)
        ensures
            r == self.authority_of(),
    ;
}

/// A record owned by the program at a derived address.
pub trait BondProgramDerivedAccount: BondProgramAccount {
    /// The bump of the record's derived address.
    spec fn bump_of(&self) -> u8;

    /// The bump of the record's derived address.
    fn bump(&self) -> (r: u8)
        ensures
            r == self.bump_of(),
    ;
}

/// The byte that stands for a `bool`.
pub open spec fn bool_byte(b: bool) -> u8 {
    if b { 1 } else { 0 }
}

/// Writes `bytes` over the start of `data` when it fits; fails with nothing written otherwise.
pub fn store(bytes: &Vec<u8>, data: &mut Vec<u8>) -> (r: Result<(), BondError>)
    ensures
        r is Ok <==> bytes@.len() <= old(data)@.len(),
        r is Ok ==> final(data)@ == stored(bytes@, old(data)@),
        r is Err ==> final(data)@ == old(data)@ && r == Err::<(), BondError>(BondError::AccountDataTooSmall),
{
    if bytes.len() <= data.len() {
        write_prefix(data, bytes);
        Ok(())
    } else {
        Err(BondError::AccountDataTooSmall)
    }
}

/// `data` with its start overwritten by `bytes`.
pub open spec fn stored(bytes: Seq<u8>, data: Seq<u8>) -> Seq<u8> {
    bytes + data.subrange(bytes.len() as int, data.len() as int)
}

/// The address stored at bytes 1..33 of a record: its authority.
pub open spec fn record_authority(d: Seq<u8>) -> Seq<u8> {
    d.subrange(1, 33)
}

/// The draw authority stored in a config record.
pub open spec fn config_draw_authority(d: Seq<u8>) -> Seq<u8> {
    d.subrange(12, 44)
}

/// The draw id stored in a state record.
pub open spec fn state_draw_id(d: Seq<u8>) -> u64 {
    vstd::bytes::spec_u64_from_le_bytes(d.subrange(34, 42))
}

/// The numerator stored in a share record.
pub open spec fn share_numerator(d: Seq<u8>) -> u32 {
    vstd::bytes::spec_u32_from_le_bytes(d.subrange(34, 38))
}

/// The denominator stored in a share record.
pub open spec fn share_denominator(d: Seq<u8>) -> u32 {
    vstd::bytes::spec_u32_from_le_bytes(d.subrange(38, 42))
}

/// The number of bytes of a [BondConfig] record.
pub const CONFIG_LEN: usize = 76;

/// The game's settings.
#[derive(Clone, Copy, Debug, PartialEq, Eq)]
pub struct BondConfig {
    /// [BondAccountType::Config] once initialized.
    pub account_type: BondAccountType,
    /// Whether or not the game is active.
    pub is_active: bool,
    /// The minimum number of epochs between draws.
    pub epochs_per_draw: u8,
    /// The maximum number of consecutive rollovers.
    pub max_rollover: u8,
    /// The largest odds of a single account, as `numerator / denominator`.
    pub odds_threshold_numerator: u32,
    /// The largest odds of a single account, as `numerator / denominator`.
    pub odds_threshold_denominator: u32,
    /// The address authorized to run draws.
    pub draw_authority: Address,
    /// The stake pool token's mint.
    pub token_mint: Address,
}

impl BondAccount for BondConfig {
    open spec fn kind(&self) -> BondAccountType {
        self.account_type
    }

    open spec fn expected_kind() -> BondAccountType {
        BondAccountType::Config
    }

    fn is_initialized(&self) -> (r: bool) {
        self.account_type != BondAccountType::Uninitialized
    }

    fn is_valid(&self) -> (r: bool) {
        self.account_type == BondAccountType::Config
    }
}

impl BondConfig {
    /// `d` starts with the bytes of such a record.
    pub open spec fn decodes(d: Seq<u8>) -> bool {
        CONFIG_LEN <= d.len() && d[0] <= 6 && d[1] <= 1
    }

    /// A config record holding the given settings.
    pub fn new(
        is_active: bool,
        epochs_per_draw: u8,
        max_rollover: u8,
        odds_threshold_numerator: u32,
        odds_threshold_denominator: u32,
        draw_authority: Address,
        token_mint: Address,
    ) -> (r: Self)
        ensures
            r == (BondConfig {
                account_type: BondAccountType::Config,
                is_active,
                epochs_per_draw,
                max_rollover,
                odds_threshold_numerator,
                odds_threshold_denominator,
                draw_authority,
                token_mint,
            }),
    {
        BondConfig {
            account_type: BondAccountType::Config,
            is_active,
            epochs_per_draw,
            max_rollover,
            odds_threshold_numerator,
            odds_threshold_denominator,
            draw_authority,
            token_mint,
        }
    }

    /// The record's bytes.
    pub open spec fn encoded(&self) -> Seq<u8> {
        seq![self.account_type.tag(), bool_byte(self.is_active), self.epochs_per_draw, self.max_rollover]
            + spec_u32_to_le_bytes(self.odds_threshold_numerator)
            + spec_u32_to_le_bytes(self.odds_threshold_denominator)
            + self.draw_authority@ + self.token_mint@
    }

    /// The record's bytes.
    pub fn to_bytes(&self) -> (r: Vec<u8>)
        ensures
            r@ == self.encoded(),
            r@.len() == CONFIG_LEN,
    {
        proof { lemma_auto_spec_u32_to_from_le_bytes(); }
        let mut out: Vec<u8> = Vec::new();
        out.push(self.account_type.to_tag());
        out.push(if self.is_active { 1u8 } else { 0u8 });
        out.push(self.epochs_per_draw);
        out.push(self.max_rollover);
        push_u32(&mut out, self.odds_threshold_numerator);
        push_u32(&mut out, self.odds_threshold_denominator);
        push_address(&mut out, &self.draw_authority);
        push_address(&mut out, &self.token_mint);
        assert(out@ =~= self.encoded());
        out
    }

    /// Decodes a record from the start of `data`.
    pub fn from_bytes(data: &Vec<u8>) -> (r: Result<Self, BondError>)
        ensures
            r is Ok <==> Self::decodes(data@),
            r matches Ok(c) ==> c.encoded() == data@.subrange(0, CONFIG_LEN as int)
                && c.account_type.tag() == data@[0] && c.draw_authority@ == config_draw_authority(data@)
                && c.token_mint@ == data@.subrange(44, 76),
            r is Err ==> r == Err::<Self, BondError>(BondError::InvalidAccountData),
    {
        proof { lemma_auto_spec_u32_to_from_le_bytes(); }
        if data.len() < CONFIG_LEN || data[1] > 1 {
            return Err(BondError::InvalidAccountData);
        }
        let account_type = match BondAccountType::from_tag(data[0]) {
            Some(k) => k,
            None => { return Err(BondError::InvalidAccountData); },
        };
        let c = BondConfig {
            account_type,
            is_active: data[1] == 1,
            epochs_per_draw: data[2],
            max_rollover: data[3],
            odds_threshold_numerator: read_u32(data, 4),
            odds_threshold_denominator: read_u32(data, 8),
            draw_authority: read_address(data, 12),
            token_mint: read_address(data, 44),
        };
        assert(data@.subrange(4, 8).len() == 4);
        assert(data@.subrange(8, 12).len() == 4);
        assert(c.encoded() =~= data@.subrange(0, CONFIG_LEN as int));
        Ok(c)
    }

    /// Writes the record over the start of `data`.
    pub fn pack_into(&self, data: &mut Vec<u8>) -> (r: Result<(), BondError>)
        ensures
            r is Ok <==> CONFIG_LEN <= old(data)@.len(),
            r is Ok ==> final(data)@ == stored(self.encoded(), old(data)@),
            r is Err ==> final(data)@ == old(data)@ && r == Err::<(), BondError>(BondError::AccountDataTooSmall),
    {
        let b = self.to_bytes();
        store(&b, data)
    }
}

/// The number of bytes of a [BondState] record.
pub const STATE_LEN: usize = 43;

/// The game's current state.
#[derive(Clone, Copy, Debug, PartialEq, Eq)]
pub struct BondState {
    /// [BondAccountType::State] once initialized.
    pub account_type: BondAccountType,
    /// The address authorized to modify this record (the config account).
    pub authority: Address,
    /// The bump of the record's derived address.
    pub bump: u8,
    /// The id of the latest draw.
    pub draw_id: u64,
    /// The number of consecutive rollovers.
    pub rollover: u8,
}

impl BondAccount for BondState {
    open spec fn kind(&self) -> BondAccountType {
        self.account_type
    }

    open spec fn expected_kind() -> BondAccountType {
        BondAccountType::State
    }

    fn is_initialized(&self) -> (r: bool) {
        self.account_type != BondAccountType::Uninitialized
    }

    fn is_valid(&self) -> (r: bool) {
        self.account_type == BondAccountType::State
    }
}

impl BondProgramAccount for BondState {
    open spec fn authority_of(&self) -> Address {
        self.authority
    }

    fn authority(&self) -> (r: Address) {
        self.authority
    }
}

impl BondProgramDerivedAccount for BondState {
    open spec fn bump_of(&self) -> u8 {
        self.bump
    }

    fn bump(&self) -> (r: u8) {
        self.bump
    }
}

impl BondState {
    /// `d` starts with the bytes of such a record.
    pub open spec fn decodes(d: Seq<u8>) -> bool {
        STATE_LEN <= d.len() && d[0] <= 6
    }

    /// A state record with the given fields.
    pub fn new(authority: Address, bump: u8, draw_id: u64, rollover: u8) -> (r: Self)
        ensures
            r == (BondState { account_type: BondAccountType::State, authority, bump, draw_id, rollover }),
    {
        BondState { account_type: BondAccountType::State, authority, bump, draw_id, rollover }
    }

    /// The record's bytes.
    pub open spec fn encoded(&self) -> Seq<u8> {
        seq![self.account_type.tag()] + self.authority@ + seq![self.bump]
            + spec_u64_to_le_bytes(self.draw_id) + seq![self.rollover]
    }

    /// The record's bytes.
    pub fn to_bytes(&self) -> (r: Vec<u8>)
        ensures
            r@ == self.encoded(),
            r@.len() == STATE_LEN,
    {
        proof { lemma_auto_spec_u64_to_from_le_bytes(); }
        let mut out: Vec<u8> = Vec::new();
        out.push(self.account_type.to_tag());
        push_address(&mut out, &self.authority);
        out.push(self.bump);
        push_u64(&mut out, self.draw_id);
        out.push(self.rollover);
        assert(out@ =~= self.encoded());
        out
    }

    /// Decodes a record from the start of `data`.
    pub fn from_bytes(data: &Vec<u8>) -> (r: Result<Self, BondError>)
        ensures
            r is Ok <==> Self::decodes(data@),
            r matches Ok(c) ==> c.encoded() == data@.subrange(0, STATE_LEN as int)
                && c.account_type.tag() == data@[0] && c.authority@ == record_authority(data@)
                && c.bump == data@[33] && c.draw_id == state_draw_id(data@) && c.rollover == data@[42],
            r is Err ==> r == Err::<Self, BondError>(BondError::InvalidAccountData),
    {
        proof { lemma_auto_spec_u64_to_from_le_bytes(); }
        if data.len() < STATE_LEN {
            return Err(BondError::InvalidAccountData);
        }
        let account_type = match BondAccountType::from_tag(data[0]) {
            Some(k) => k,
            None => { return Err(BondError::InvalidAccountData); },
        };
        let c = BondState {
            account_type,
            authority: read_address(data, 1),
            bump: data[33],
            draw_id: read_u64(data, 34),
            rollover: data[42],
        };
        assert(data@.subrange(34, 42).len() == 8);
        assert(c.encoded() =~= data@.subrange(0, STATE_LEN as int));
        Ok(c)
    }

    /// Writes the record over the start of `data`.
    pub fn pack_into(&self, data: &mut Vec<u8>) -> (r: Result<(), BondError>)
        ensures
            r is Ok <==> STATE_LEN <= old(data)@.len(),
            r is Ok ==> final(data)@ == stored(self.encoded(), old(data)@),
            r is Err ==> final(data)@ == old(data)@ && r == Err::<(), BondError>(BondError::AccountDataTooSmall),
    {
        let b = self.to_bytes();
        store(&b, data)
    }
}

/// The number of bytes of a [BondShare] record.
pub const SHARE_LEN: usize = 42;

/// `floor(amount * numerator / denominator)`, and 0 where the denominator is 0.
pub open spec fn share_of(amount: int, numerator: int, denominator: int) -> int {
    if denominator == 0 { 0 } else { amount * numerator / denominator }
}

/// An account that receives a share of the stake pool's rewards.
#[derive(Clone, Copy, Debug, PartialEq, Eq)]
pub struct BondShare {
    /// [BondAccountType::Share] once initialized.
    pub account_type: BondAccountType,
    /// The address authorized to modify this record (the config account).
    pub authority: Address,
    /// The bump of the record's derived address.
    pub bump: u8,
    /// The share of the rewards, as `numerator / denominator`.
    pub numerator: u32,
    /// The share of the rewards, as `numerator / denominator`.
    pub denominator: u32,
}

impl BondAccount for BondShare {
    open spec fn kind(&self) -> BondAccountType {
        self.account_type
    }

    open spec fn expected_kind() -> BondAccountType {
        BondAccountType::Share
    }

    fn is_initialized(&self) -> (r: bool) {
        self.account_type != BondAccountType::Uninitialized
    }

    fn is_valid(&self) -> (r: bool) {
        self.account_type == BondAccountType::Share
    }
}

impl BondProgramAccount for BondShare {
    open spec fn authority_of(&self) -> Address {
        self.authority
    }

    fn authority(&self) -> (r: Address) {
        self.authority
    }
}

impl BondProgramDerivedAccount for BondShare {
    open spec fn bump_of(&self) -> u8 {
        self.bump
    }

    fn bump(&self) -> (r: u8) {
        self.bump
    }
}

impl BondShare {
    /// `d` starts with the bytes of such a record.
    pub open spec fn decodes(d: Seq<u8>) -> bool {
        SHARE_LEN <= d.len() && d[0] <= 6
    }

    /// A share record with the given fields.
    pub fn new(authority: Address, bump: u8, numerator: u32, denominator: u32) -> (r: Self)
        ensures
            r == (BondShare { account_type: BondAccountType::Share, authority, bump, numerator, denominator }),
    {
        BondShare { account_type: BondAccountType::Share, authority, bump, numerator, denominator }
    }

    /// The share of `amount` that this record receives.
    pub open spec fn share_spec(&self, amount: u64) -> int {
        share_of(amount as int, self.numerator as int, self.denominator as int)
    }

    /// The share of `amount` that this record receives: `floor(amount * numerator /
    /// denominator)`, and 0 where the denominator is 0.
    pub fn share(&self, amount: u64) -> (r: u64)
        requires
            self.share_spec(amount) <= u64::MAX,
        ensures
            r == self.share_spec(amount),
    {
        let denominator = self.denominator as u128;
        if denominator == 0 {
            0
        } else {
            assert((amount as int) * (self.numerator as int) <= (u64::MAX as int) * (u32::MAX as int))
                by (nonlinear_arith);
            let product = (amount as u128) * (self.numerator as u128);
            assert(product == (amount as int) * (self.numerator as int)) by (nonlinear_arith)
                requires product == (amount as u128) * (self.numerator as u128);
            (product / denominator) as u64
        }
    }

    /// The record's bytes.
    pub open spec fn encoded(&self) -> Seq<u8> {
        seq![self.account_type.tag()] + self.authority@ + seq![self.bump]
            + spec_u32_to_le_bytes(self.numerator) + spec_u32_to_le_bytes(self.denominator)
    }

    /// The record's bytes.
    pub fn to_bytes(&self) -> (r: Vec<u8>)
        ensures
            r@ == self.encoded(),
            r@.len() == SHARE_LEN,
    {
        proof { lemma_auto_spec_u32_to_from_le_bytes(); }
        let mut out: Vec<u8> = Vec::new();
        out.push(self.account_type.to_tag());
        push_address(&mut out, &self.authority);
        out.push(self.bump);
        push_u32(&mut out, self.numerator);
        push_u32(&mut out, self.denominator);
        assert(out@ =~= self.encoded());
        out
    }

    /// Decodes a record from the start of `data`.
    pub fn from_bytes(data: &Vec<u8>) -> (r: Result<Self, BondError>)
        ensures
            r is Ok <==> Self::decodes(data@),
            r matches Ok(c) ==> c.encoded() == data@.subrange(0, SHARE_LEN as int)
                && c.account_type.tag() == data@[0] && c.authority@ == record_authority(data@)
                && c.bump == data@[33] && c.numerator == share_numerator(data@)
                && c.denominator == share_denominator(data@),
            r is Err ==> r == Err::<Self, BondError>(BondError::InvalidAccountData),
    {
        proof { lemma_auto_spec_u32_to_from_le_bytes(); }
        if data.len() < SHARE_LEN {
            return Err(BondError::InvalidAccountData);
        }
        let account_type = match BondAccountType::from_tag(data[0]) {
            Some(k) => k,
            None => { return Err(BondError::InvalidAccountData); },
        };
        let c = BondShare {
            account_type,
            authority: read_address(data, 1),
            bump: data[33],
            numerator: read_u32(data, 34),
            denominator: read_u32(data, 38),
        };
        assert(data@.subrange(34, 38).len() == 4);
        assert(data@.subrange(38, 42).len() == 4);
        assert(c.encoded() =~= data@.subrange(0, SHARE_LEN as int));
        Ok(c)
    }

    /// Writes the record over the start of `data`.
    pub fn pack_into(&self, data: &mut Vec<u8>) -> (r: Result<(), BondError>)
        ensures
            r is Ok <==> SHARE_LEN <= old(data)@.len(),
            r is Ok ==> final(data)@ == stored(self.encoded(), old(data)@),
            r is Err ==> final(data)@ == old(data)@ && r == Err::<(), BondError>(BondError::AccountDataTooSmall),
    {
        let b = self.to_bytes();
        store(&b, data)
    }
}

/// The number of bytes of a [BondFee] record.
pub const FEE_LEN: usize = 34;

/// The account that collects the stake pool's epoch fee.
#[derive(Clone, Copy, Debug, PartialEq, Eq)]
pub struct BondFee {
    /// [BondAccountType::Fee] once initialized.
    pub account_type: BondAccountType,
    /// The address authorized to modify this record (the config account).
    pub authority: Address,
    /// The bump of the record's derived address.
    pub bump: u8,
}

impl BondAccount for BondFee {
    open spec fn kind(&self) -> BondAccountType {
        self.account_type
    }

    open spec fn expected_kind() -> BondAccountType {
        BondAccountType::Fee
    }

    fn is_initialized(&self) -> (r: bool) {
        self.account_type != BondAccountType::Uninitialized
    }

    fn is_valid(&self) -> (r: bool) {
        self.account_type == BondAccountType::Fee
    }
}

impl BondProgramAccount for BondFee {
    open spec fn authority_of(&self) -> Address {
        self.authority
    }

    fn authority(&self) -> (r: Address) {
        self.authority
    }
}

impl BondProgramDerivedAccount for BondFee {
    open spec fn bump_of(&self) -> u8 {
        self.bump
    }

    fn bump(&self) -> (r: u8) {
        self.bump
    }
}

impl BondFee {
    /// `d` starts with the bytes of such a record.
    pub open spec fn decodes(d: Seq<u8>) -> bool {
        FEE_LEN <= d.len() && d[0] <= 6
    }

    /// A fee record with the given fields.
    pub fn new(authority: Address, bump: u8) -> (r: Self)
        ensures
            r == (BondFee { account_type: BondAccountType::Fee, authority, bump }),
    {
        BondFee { account_type: BondAccountType::Fee, authority, bump }
    }

    /// The record's bytes.
    pub open spec fn encoded(&self) -> Seq<u8> {
        seq![self.account_type.tag()] + self.authority@ + seq![self.bump]
    }

    /// The record's bytes.
    pub fn to_bytes(&self) -> (r: Vec<u8>)
        ensures
            r@ == self.encoded(),
            r@.len() == FEE_LEN,
    {
        let mut out: Vec<u8> = Vec::new();
        out.push(self.account_type.to_tag());
        push_address(&mut out, &self.authority);
        out.push(self.bump);
        assert(out@ =~= self.encoded());
        out
    }

    /// Decodes a record from the start of `data`.
    pub fn from_bytes(data: &Vec<u8>) -> (r: Result<Self, BondError>)
        ensures
            r is Ok <==> Self::decodes(data@),
            r matches Ok(c) ==> c.encoded() == data@.subrange(0, FEE_LEN as int)
                && c.account_type.tag() == data@[0] && c.authority@ == record_authority(data@)
                && c.bump == data@[33],
            r is Err ==> r == Err::<Self, BondError>(BondError::InvalidAccountData),
    {
        if data.len() < FEE_LEN {
            return Err(BondError::InvalidAccountData);
        }
        let account_type = match BondAccountType::from_tag(data[0]) {
            Some(k) => k,
            None => { return Err(BondError::InvalidAccountData); },
        };
        let c = BondFee { account_type, authority: read_address(data, 1), bump: data[33] };
        assert(c.encoded() =~= data@.subrange(0, FEE_LEN as int));
        Ok(c)
    }

    /// Writes the record over the start of `data`.
    pub fn pack_into(&self, data: &mut Vec<u8>) -> (r: Result<(), BondError>)
        ensures
            r is Ok <==> FEE_LEN <= old(data)@.len(),
            r is Ok ==> final(data)@ == stored(self.encoded(), old(data)@),
            r is Err ==> final(data)@ == old(data)@ && r == Err::<(), BondError>(BondError::AccountDataTooSmall),
    {
        let b = self.to_bytes();
        store(&b, data)
    }
}

/// The number of bytes of a [BondDraw] record.
pub const DRAW_LEN: usize = 122;

/// A draw result.
#[derive(Clone, Copy, Debug, PartialEq, Eq)]
pub struct BondDraw {
    /// [BondAccountType::Draw] once initialized.
    pub account_type: BondAccountType,
    /// The draw authority that ran the draw.
    pub authority: Address,
    /// The draw's sequence number.
    pub id: u64,
    /// The amount drawn.
    pub amount: u64,
    /// The value supplied by the caller to select the receiver.
    pub receiver_seed: u64,
    /// The receiving account.
    pub receiver: Address,
    /// The rollover count after this draw.
    pub rollover: u8,
    /// The slot at which the draw took place.
    pub slot: u64,
    /// The timestamp of the first slot of `epoch`.
    pub epoch_start_timestamp: i64,
    /// The epoch at which the draw took place.
    pub epoch: u64,
    /// The timestamp at which the draw took place.
    pub unix_timestamp: i64,
}

impl BondAccount for BondDraw {
    open spec fn kind(&self) -> BondAccountType {
        self.account_type
    }

    open spec fn expected_kind() -> BondAccountType {
        BondAccountType::Draw
    }

    fn is_initialized(&self) -> (r: bool) {
        self.account_type != BondAccountType::Uninitialized
    }

    fn is_valid(&self) -> (r: bool) {
        self.account_type == BondAccountType::Draw
    }
}

impl BondProgramAccount for BondDraw {
    open spec fn authority_of(&self) -> Address {
        self.authority
    }

    fn authority(&self) -> (r: Address) {
        self.authority
    }
}

impl BondDraw {
    /// `d` starts with the bytes of such a record.
    pub open spec fn decodes(d: Seq<u8>) -> bool {
        DRAW_LEN <= d.len() && d[0] <= 6
    }

    /// A draw record with the given fields.
    pub fn new(
        authority: Address,
        id: u64,
        amount: u64,
        receiver_seed: u64,
        receiver: Address,
        rollover: u8,
        slot: u64,
        epoch_start_timestamp: i64,
        epoch: u64,
        unix_timestamp: i64,
    ) -> (r: Self)
        ensures
            r == (BondDraw {
                account_type: BondAccountType::Draw,
                authority,
                id,
                amount,
                receiver_seed,
                receiver,
                rollover,
                slot,
                epoch_start_timestamp,
                epoch,
                unix_timestamp,
            }),
    {
        BondDraw {
            account_type: BondAccountType::Draw,
            authority,
            id,
            amount,
            receiver_seed,
            receiver,
            rollover,
            slot,
            epoch_start_timestamp,
            epoch,
            unix_timestamp,
        }
    }

    /// The record's bytes.
    pub open spec fn encoded(&self) -> Seq<u8> {
        seq![self.account_type.tag()] + self.authority@ + spec_u64_to_le_bytes(self.id)
            + spec_u64_to_le_bytes(self.amount) + spec_u64_to_le_bytes(self.receiver_seed)
            + self.receiver@ + seq![self.rollover] + spec_u64_to_le_bytes(self.slot)
            + spec_u64_to_le_bytes(self.epoch_start_timestamp as u64)
            + spec_u64_to_le_bytes(self.epoch) + spec_u64_to_le_bytes(self.unix_timestamp as u64)
    }

    /// The record's bytes.
    pub fn to_bytes(&self) -> (r: Vec<u8>)
        ensures
            r@ == self.encoded(),
            r@.len() == DRAW_LEN,
    {
        proof { lemma_auto_spec_u64_to_from_le_bytes(); }
        let mut out: Vec<u8> = Vec::new();
        out.push(self.account_type.to_tag());
        push_address(&mut out, &self.authority);
        push_u64(&mut out, self.id);
        push_u64(&mut out, self.amount);
        push_u64(&mut out, self.receiver_seed);
        push_address(&mut out, &self.receiver);
        out.push(self.rollover);
        push_u64(&mut out, self.slot);
        push_u64(&mut out, self.epoch_start_timestamp as u64);
        push_u64(&mut out, self.epoch);
        push_u64(&mut out, self.unix_timestamp as u64);
        assert(out@ =~= self.encoded());
        out
    }

    /// Decodes a record from the start of `data`.
    pub fn from_bytes(data: &Vec<u8>) -> (r: Result<Self, BondError>)
        ensures
            r is Ok <==> Self::decodes(data@),
            r matches Ok(c) ==> c.encoded() == data@.subrange(0, DRAW_LEN as int)
                && c.account_type.tag() == data@[0],
            r is Err ==> r == Err::<Self, BondError>(BondError::InvalidAccountData),
    {
        proof { lemma_auto_spec_u64_to_from_le_bytes(); }
        if data.len() < DRAW_LEN {
            return Err(BondError::InvalidAccountData);
        }
        let account_type = match BondAccountType::from_tag(data[0]) {
            Some(k) => k,
            None => { return Err(BondError::InvalidAccountData); },
        };
        let start_ts = read_u64(data, 98);
        let unix_ts = read_u64(data, 114);
        let c = BondDraw {
            account_type,
            authority: read_address(data, 1),
            id: read_u64(data, 33),
            amount: read_u64(data, 41),
            receiver_seed: read_u64(data, 49),
            receiver: read_address(data, 57),
            rollover: data[89],
            slot: read_u64(data, 90),
            epoch_start_timestamp: #[verifier::truncate] (start_ts as i64),
            epoch: read_u64(data, 106),
            unix_timestamp: #[verifier::truncate] (unix_ts as i64),
        };
        assert(data@.subrange(33, 41).len() == 8);
        assert(data@.subrange(41, 49).len() == 8);
        assert(data@.subrange(49, 57).len() == 8);
        assert(data@.subrange(90, 98).len() == 8);
        assert(data@.subrange(98, 106).len() == 8);
        assert(data@.subrange(106, 114).len() == 8);
        assert(data@.subrange(114, 122).len() == 8);
        assert(((start_ts as i64) as u64) == start_ts) by (bit_vector);
        assert(((unix_ts as i64) as u64) == unix_ts) by (bit_vector);
        assert(c.encoded() =~= data@.subrange(0, DRAW_LEN as int));
        Ok(c)
    }

    /// Writes the record over the start of `data`.
    pub fn pack_into(&self, data: &mut Vec<u8>) -> (r: Result<(), BondError>)
        ensures
            r is Ok <==> DRAW_LEN <= old(data)@.len(),
            r is Ok ==> final(data)@ == stored(self.encoded(), old(data)@),
            r is Err ==> final(data)@ == old(data)@ && r == Err::<(), BondError>(BondError::AccountDataTooSmall),
    {
        let b = self.to_bytes();
        store(&b, data)
    }
}

/// The number of bytes of a [BondExclusionList] record before its addresses.
pub const EXCLUSION_LIST_HEADER_LEN: usize = 42;

/// The bytes of a list of addresses, one after the other.
pub open spec fn addresses_bytes(s: Seq<Address>) -> Seq<u8>
    decreases s.len(),
{
    if s.len() == 0 {
        Seq::empty()
    } else {
        addresses_bytes(s.drop_last()) + s.last()@
    }
}

/// Each address takes 32 bytes.
pub proof fn lemma_addresses_bytes_len(s: Seq<Address>)
    ensures
        addresses_bytes(s).len() == 32 * s.len(),
    decreases s.len(),
{
    if s.len() > 0 {
        lemma_addresses_bytes_len(s.drop_last());
    }
}

/// A list of accounts that cannot win a draw.
#[derive(Clone, Debug, PartialEq, Eq)]
pub struct BondExclusionList {
    /// [BondAccountType::ExclusionList] once initialized.
    pub account_type: BondAccountType,
    /// The address authorized to modify this record (the config account).
    pub authority: Address,
    /// The bump of the record's derived address.
    pub bump: u8,
    /// The largest number of accounts the list may hold.
    pub capacity: u32,
    /// The excluded accounts.
    pub accounts: Vec<Address>,
}

impl BondAccount for BondExclusionList {
    open spec fn kind(&self) -> BondAccountType {
        self.account_type
    }

    open spec fn expected_kind() -> BondAccountType {
        BondAccountType::ExclusionList
    }

    fn is_initialized(&self) -> (r: bool) {
        self.account_type != BondAccountType::Uninitialized
    }

    fn is_valid(&self) -> (r: bool) {
        self.account_type == BondAccountType::ExclusionList
    }
}

impl BondProgramAccount for BondExclusionList {
    open spec fn authority_of(&self) -> Address {
        self.authority
    }

    fn authority(&self) -> (r: Address) {
        self.authority
    }
}

impl BondProgramDerivedAccount for BondExclusionList {
    open spec fn bump_of(&self) -> u8 {
        self.bump
    }

    fn bump(&self) -> (r: u8) {
        self.bump
    }
}

impl BondExclusionList {
    /// `d` starts with the bytes of such a record.
    pub open spec fn decodes(d: Seq<u8>) -> bool {
        EXCLUSION_LIST_HEADER_LEN <= d.len() && d[0] <= 6 && Self::len_for(Self::stored_count(d) as int) <= d.len()
    }

    /// An exclusion list with the given fields.
    pub fn new(authority: Address, bump: u8, capacity: u32, accounts: Vec<Address>) -> (r: Self)
        ensures
            r.account_type == BondAccountType::ExclusionList,
            r.authority == authority,
            r.bump == bump,
            r.capacity == capacity,
            r.accounts@ == accounts@,
    {
        BondExclusionList { account_type: BondAccountType::ExclusionList, authority, bump, capacity, accounts }
    }

    /// The bytes of an exclusion list with the given fields.
    pub open spec fn bytes_of(authority: Address, bump: u8, capacity: u32, accounts: Seq<Address>) -> Seq<u8> {
        seq![BondAccountType::ExclusionList.tag()] + authority@ + seq![bump]
            + spec_u32_to_le_bytes(capacity)
            + spec_u32_to_le_bytes(accounts.len() as u32)
            + addresses_bytes(accounts)
    }

    /// The record's bytes.
    pub open spec fn encoded(&self) -> Seq<u8> {
        seq![self.account_type.tag()] + self.authority@ + seq![self.bump]
            + spec_u32_to_le_bytes(self.capacity)
            + spec_u32_to_le_bytes(self.accounts@.len() as u32)
            + addresses_bytes(self.accounts@)
    }

    /// The record's bytes.
    pub fn to_bytes(&self) -> (r: Vec<u8>)
        requires
            self.accounts@.len() <= u32::MAX,
        ensures
            r@ == self.encoded(),
    {
        proof { lemma_auto_spec_u32_to_from_le_bytes(); }
        let mut out: Vec<u8> = Vec::new();
        out.push(self.account_type.to_tag());
        push_address(&mut out, &self.authority);
        out.push(self.bump);
        push_u32(&mut out, self.capacity);
        push_u32(&mut out, self.accounts.len() as u32);
        let ghost header = out@;
        let mut i: usize = 0;
        while i < self.accounts.len()
            invariant
                0 <= i <= self.accounts@.len(),
                out@ == header + addresses_bytes(self.accounts@.subrange(0, i as int)),
            decreases self.accounts@.len() - i,
        {
            push_address(&mut out, &self.accounts[i]);
            proof {
                let next = self.accounts@.subrange(0, i + 1);
                assert(next.drop_last() =~= self.accounts@.subrange(0, i as int));
            }
            i = i + 1;
        }
        assert(self.accounts@.subrange(0, i as int) =~= self.accounts@);
        out
    }

    /// The number of bytes of the record when it holds `n` accounts.
    pub open spec fn len_for(n: int) -> int {
        EXCLUSION_LIST_HEADER_LEN + 32 * n
    }

    /// The account count stored in `data`'s header.
    pub open spec fn stored_count(data: Seq<u8>) -> u32 {
        vstd::bytes::spec_u32_from_le_bytes(data.subrange(38, 42))
    }

    /// Decodes a record from the start of `data`.
    pub fn from_bytes(data: &Vec<u8>) -> (r: Result<Self, BondError>)
        ensures
            r is Ok <==> Self::decodes(data@),
            r matches Ok(c) ==> c.encoded() == data@.subrange(0, Self::len_for(Self::stored_count(data@) as int))
                && c.account_type.tag() == data@[0],
            r is Err ==> r == Err::<Self, BondError>(BondError::InvalidAccountData),
    {
        proof { lemma_auto_spec_u32_to_from_le_bytes(); }
        let len = data.len();
        if len < EXCLUSION_LIST_HEADER_LEN {
            return Err(BondError::InvalidAccountData);
        }
        let account_type = match BondAccountType::from_tag(data[0]) {
            Some(k) => k,
            None => { return Err(BondError::InvalidAccountData); },
        };
        let n = read_u32(data, 38);
        if (n as u128) * 32 + 42 > len as u128 {
            return Err(BondError::InvalidAccountData);
        }
        let mut accounts: Vec<Address> = Vec::new();
        let mut i: usize = 0;
        while i < n as usize
            invariant
                0 <= i <= n,
                len == data@.len(),
                42 + 32 * (n as int) <= len,
                accounts@.len() == i,
                addresses_bytes(accounts@) == data@.subrange(42, 42 + 32 * i),
            decreases n - i,
        {
            let a = read_address(data, 42 + 32 * i);
            proof {
                let ghost prev = accounts@;
                assert(prev.push(a).drop_last() =~= prev);
            }
            accounts.push(a);
            assert(addresses_bytes(accounts@) =~= data@.subrange(42, 42 + 32 * (i + 1)));
            i = i + 1;
        }
        let c = BondExclusionList {
            account_type,
            authority: read_address(data, 1),
            bump: data[33],
            capacity: read_u32(data, 34),
            accounts,
        };
        assert(data@.subrange(34, 38).len() == 4);
        assert(data@.subrange(38, 42).len() == 4);
        assert(c.encoded() =~= data@.subrange(0, Self::len_for(n as int)));
        Ok(c)
    }

    /// Writes the record over the start of `data`.
    pub fn pack_into(&self, data: &mut Vec<u8>) -> (r: Result<(), BondError>)
        requires
            self.accounts@.len() <= u32::MAX,
        ensures
            r is Ok <==> Self::len_for(self.accounts@.len() as int) <= old(data)@.len(),
            r is Ok ==> final(data)@ == stored(self.encoded(), old(data)@),
            r is Err ==> final(data)@ == old(data)@ && r == Err::<(), BondError>(BondError::AccountDataTooSmall),
    {
        let b = self.to_bytes();
        proof {
            lemma_addresses_bytes_len(self.accounts@);
            lemma_auto_spec_u32_to_from_le_bytes();
            assert(self.authority@.len() == 32);
            assert(b@.len() == Self::len_for(self.accounts@.len() as int));
        }
        store(&b, data)
    }
}

} // verus!
