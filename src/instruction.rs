//! The instructions of the program.

use vstd::prelude::*;
use vstd::bytes::{
    lemma_auto_spec_u32_to_from_le_bytes, lemma_auto_spec_u64_to_from_le_bytes, spec_u32_to_le_bytes,
    spec_u64_to_le_bytes,
};
use crate::account::Address;
use crate::codec::{read_address, read_u32, read_u64};
use crate::error::BondError;
use crate::state::{addresses_bytes, lemma_addresses_bytes_len};

verus! {

/// The instructions supported by the program.
#[derive(Clone, Debug, PartialEq, Eq)]
pub enum BondInstruction {
    /// Creates the config account, the derived accounts and their token accounts, with bumps and
    /// allocation sizes computed off the ledger.
    Create {
        config_space: u32,
        state_bump: u8,
        state_space: u32,
        fee_bump: u8,
        fee_space: u32,
        exclusion_list_bump: u8,
        exclusion_list_space: u32,
        equity_bump: u8,
        equity_space: u32,
        treasury_bump: u8,
        treasury_space: u32,
        jackpot_bump: u8,
        jackpot_space: u32,
        stake_bump: u8,
        stake_space: u32,
    },
    /// Initializes the records of the created accounts.
    Initialize {
        state_bump: u8,
        fee_bump: u8,
        exclusion_list_bump: u8,
        exclusion_list_capacity: u32,
        exclusion_list_accounts: Vec<Address>,
        equity_bump: u8,
        treasury_bump: u8,
        jackpot_bump: u8,
        stake_bump: u8,
    },
    /// Splits the fee account's tokens, or `amount` of them, between the shares.
    SplitShares { amount: Option<u64> },
    /// Runs a draw.
    Draw { receiver_seed: u64, draw_seed: u64 },
    /// Does nothing.
    Test,
}

/// The bytes of a bump followed by an allocation size.
pub open spec fn u8_u32(b: u8, x: u32) -> Seq<u8> {
    seq![b] + spec_u32_to_le_bytes(x)
}

impl BondInstruction {
    /// The instruction can be encoded: its list of excluded accounts, if any, has a `u32` count.
    pub open spec fn encodable(&self) -> bool {
        match self {
            BondInstruction::Initialize { exclusion_list_accounts, .. } => exclusion_list_accounts@.len() <= u32::MAX,
            _ => true,
        }
    }

    /// The instruction's bytes: a variant tag (0 Create, 1 Initialize, 2 SplitShares, 3 Draw,
    /// 4 Test), then the fields in order. A list is a `u32` count and its items; an optional
    /// value is 0, or 1 and the value.
    pub open spec fn encoded(&self) -> Seq<u8> {
        match self {
            BondInstruction::Create {
                config_space, state_bump, state_space, fee_bump, fee_space, exclusion_list_bump,
                exclusion_list_space, equity_bump, equity_space, treasury_bump, treasury_space,
                jackpot_bump, jackpot_space, stake_bump, stake_space,
            } => seq![0u8] + spec_u32_to_le_bytes(*config_space) + u8_u32(*state_bump, *state_space)
                + u8_u32(*fee_bump, *fee_space) + u8_u32(*exclusion_list_bump, *exclusion_list_space)
                + u8_u32(*equity_bump, *equity_space) + u8_u32(*treasury_bump, *treasury_space)
                + u8_u32(*jackpot_bump, *jackpot_space) + u8_u32(*stake_bump, *stake_space),
            BondInstruction::Initialize {
                state_bump, fee_bump, exclusion_list_bump, exclusion_list_capacity,
                exclusion_list_accounts, equity_bump, treasury_bump, jackpot_bump, stake_bump,
            } => seq![1u8, *state_bump, *fee_bump, *exclusion_list_bump]
                + spec_u32_to_le_bytes(*exclusion_list_capacity)
                + spec_u32_to_le_bytes(exclusion_list_accounts@.len() as u32)
                + addresses_bytes(exclusion_list_accounts@)
                + seq![*equity_bump, *treasury_bump, *jackpot_bump, *stake_bump],
            BondInstruction::SplitShares { amount } => match amount {
                None => seq![2u8, 0u8],
                Some(x) => seq![2u8, 1u8] + spec_u64_to_le_bytes(*x),
            },
            BondInstruction::Draw { receiver_seed, draw_seed } => seq![3u8] + spec_u64_to_le_bytes(*receiver_seed)
                + spec_u64_to_le_bytes(*draw_seed),
            BondInstruction::Test => seq![4u8],
        }
    }

    /// The shape of an instruction's bytes: what [BondInstruction::unpack] tests before it reads.
    pub open spec fn shape_ok(d: Seq<u8>) -> bool {
        &&& d.len() > 0
        &&& d[0] == 0 ==> d.len() == 40
        &&& d[0] == 1 ==> d.len() >= 12 && d.len() == 16 + 32 * vstd::bytes::spec_u32_from_le_bytes(d.subrange(8, 12))
        &&& d[0] == 2 ==> (d.len() == 2 && d[1] == 0) || (d.len() == 10 && d[1] == 1)
        &&& d[0] == 3 ==> d.len() == 17
        &&& d[0] == 4 ==> d.len() == 1
        &&& d[0] <= 4
    }

    /// The bytes of an instruction have the shape that decoding tests.
    pub proof fn lemma_encoded_shape(ix: BondInstruction)
        requires
            ix.encodable(),
        ensures
            Self::shape_ok(ix.encoded()),
    {
        lemma_auto_spec_u32_to_from_le_bytes();
        lemma_auto_spec_u64_to_from_le_bytes();
        let d = ix.encoded();
        match ix {
            BondInstruction::Initialize { exclusion_list_capacity, exclusion_list_accounts, .. } => {
                let n = exclusion_list_accounts@.len();
                lemma_addresses_bytes_len(exclusion_list_accounts@);
                assert(d.subrange(8, 12) =~= spec_u32_to_le_bytes(n as u32));
            },
            _ => {},
        }
    }

    /// Decodes an instruction from all of `data`; trailing bytes are refused.
    pub fn unpack(data: &Vec<u8>) -> (r: Result<BondInstruction, BondError>)
        ensures
            r matches Ok(ix) ==> ix.encoded() == data@,
            (exists|ix: BondInstruction| ix.encodable() && #[trigger] ix.encoded() == data@) ==> r is Ok,
            r is Err ==> r == Err::<BondInstruction, BondError>(BondError::InvalidInstructionData),
    {
        proof {
            lemma_auto_spec_u32_to_from_le_bytes();
            lemma_auto_spec_u64_to_from_le_bytes();
        }
        let len = data.len();
        proof {
            if exists|ix: BondInstruction| ix.encodable() && #[trigger] ix.encoded() == data@ {
                let ix = choose|ix: BondInstruction| ix.encodable() && #[trigger] ix.encoded() == data@;
                Self::lemma_encoded_shape(ix);
            }
        }
        if len == 0 {
            return Err(BondError::InvalidInstructionData);
        }
        let tag = data[0];
        if tag == 0 {
            if len != 40 {
                return Err(BondError::InvalidInstructionData);
            }
            let ix = BondInstruction::Create {
                config_space: read_u32(data, 1),
                state_bump: data[5],
                state_space: read_u32(data, 6),
                fee_bump: data[10],
                fee_space: read_u32(data, 11),
                exclusion_list_bump: data[15],
                exclusion_list_space: read_u32(data, 16),
                equity_bump: data[20],
                equity_space: read_u32(data, 21),
                treasury_bump: data[25],
                treasury_space: read_u32(data, 26),
                jackpot_bump: data[30],
                jackpot_space: read_u32(data, 31),
                stake_bump: data[35],
                stake_space: read_u32(data, 36),
            };
            assert(data@.subrange(1, 5).len() == 4);
            assert(data@.subrange(6, 10).len() == 4);
            assert(data@.subrange(11, 15).len() == 4);
            assert(data@.subrange(16, 20).len() == 4);
            assert(data@.subrange(21, 25).len() == 4);
            assert(data@.subrange(26, 30).len() == 4);
            assert(data@.subrange(31, 35).len() == 4);
            assert(data@.subrange(36, 40).len() == 4);
            assert(ix.encoded() =~= data@);
            Ok(ix)
        } else if tag == 1 {
            if len < 12 {
                return Err(BondError::InvalidInstructionData);
            }
            let n = read_u32(data, 8);
            if (n as u128) * 32 + 16 != len as u128 {
                return Err(BondError::InvalidInstructionData);
            }
            let mut accounts: Vec<Address> = Vec::new();
            let mut i: usize = 0;
            while i < n as usize
                invariant
                    0 <= i <= n,
                    len == data@.len(),
                    16 + 32 * (n as int) == len,
                    accounts@.len() == i,
                    addresses_bytes(accounts@) == data@.subrange(12, 12 + 32 * i),
                decreases n - i,
            {
                let a = read_address(data, 12 + 32 * i);
                proof {
                    let ghost prev = accounts@;
                    assert(prev.push(a).drop_last() =~= prev);
                }
                accounts.push(a);
                assert(addresses_bytes(accounts@) =~= data@.subrange(12, 12 + 32 * (i + 1)));
                i = i + 1;
            }
            let tail = 12 + 32 * (n as usize);
            let ix = BondInstruction::Initialize {
                state_bump: data[1],
                fee_bump: data[2],
                exclusion_list_bump: data[3],
                exclusion_list_capacity: read_u32(data, 4),
                exclusion_list_accounts: accounts,
                equity_bump: data[tail],
                treasury_bump: data[tail + 1],
                jackpot_bump: data[tail + 2],
                stake_bump: data[tail + 3],
            };
            assert(data@.subrange(4, 8).len() == 4);
            assert(data@.subrange(8, 12).len() == 4);
            assert(ix.encoded() =~= data@);
            Ok(ix)
        } else if tag == 2 {
            if len == 2 && data[1] == 0 {
                let ix = BondInstruction::SplitShares { amount: None };
                assert(ix.encoded() =~= data@);
                Ok(ix)
            } else if len == 10 && data[1] == 1 {
                let ix = BondInstruction::SplitShares { amount: Some(read_u64(data, 2)) };
                assert(data@.subrange(2, 10).len() == 8);
                assert(ix.encoded() =~= data@);
                Ok(ix)
            } else {
                Err(BondError::InvalidInstructionData)
            }
        } else if tag == 3 {
            if len != 17 {
                return Err(BondError::InvalidInstructionData);
            }
            let ix = BondInstruction::Draw { receiver_seed: read_u64(data, 1), draw_seed: read_u64(data, 9) };
            assert(data@.subrange(1, 9).len() == 8);
            assert(data@.subrange(9, 17).len() == 8);
            assert(ix.encoded() =~= data@);
            Ok(ix)
        } else if tag == 4 && len == 1 {
            let ix = BondInstruction::Test;
            assert(ix.encoded() =~= data@);
            Ok(ix)
        } else {
            Err(BondError::InvalidInstructionData)
        }
    }
}

} // verus!
