//! Addresses, account metadata as the host hands it over, and the host's clock.

use vstd::prelude::*;

verus! {

/// A 32-byte account address.
#[derive(Clone, Copy, Debug)]
pub struct Address {
    pub bytes: [u8; 32],
}

impl View for Address {
    type V = Seq<u8>;

    open spec fn view(&self) -> Seq<u8> {
        self.bytes@
    }
}

impl Address {
    /// The address made of the given bytes.
    pub fn new(bytes: [u8; 32]) -> (r: Address)
        ensures
            r@ == bytes@,
    {
        Address { bytes }
    }

    /// True when both addresses hold the same bytes.
    pub fn same(&self, other: &Address) -> (r: bool)
        ensures
            r == (self@ == other@),
    {
        let mut i: usize = 0;
        while i < 32
            invariant
                0 <= i <= 32,
                self@.len() == 32,
                other@.len() == 32,
                forall|j: int| 0 <= j < i ==> self@[j] == other@[j],
            decreases 32 - i,
        {
            if self.bytes[i] != other.bytes[i] {
                return false;
            }
            i = i + 1;
        }
        assert(self@ =~= other@);
        true
    }

    /// The address's bytes, in order.
    pub fn to_vec(&self) -> (r: Vec<u8>)
        ensures
            r@ == self@,
    {
        let mut out: Vec<u8> = Vec::new();
        let mut i: usize = 0;
        while i < 32
            invariant
                0 <= i <= 32,
                self@.len() == 32,
                out@ == self@.subrange(0, i as int),
            decreases 32 - i,
        {
            out.push(self.bytes[i]);
            i = i + 1;
        }
        assert(out@ =~= self@);
        out
    }
}

impl PartialEq for Address {
    fn eq(&self, other: &Address) -> (r: bool) {
        self.same(other)
    }
}

impl vstd::std_specs::cmp::PartialEqSpecImpl for Address {
    open spec fn obeys_eq_spec() -> bool {
        true
    }

    open spec fn eq_spec(&self, other: &Address) -> bool {
        self@ == other@
    }
}

impl Eq for Address {
}

/// An account as the host hands it to an instruction.
#[derive(Clone, Debug)]
pub struct AccountView {
    /// The account's address.
    pub key: Address,
    /// The program that owns the account.
    pub owner: Address,
    /// Whether the account signed the call.
    pub is_signer: bool,
    /// Whether the call may write the account.
    pub is_writable: bool,
    /// The account's balance in lamports.
    pub lamports: u64,
    /// The host's rent-exemption threshold for an account of this size.
    pub rent_exempt_minimum: u64,
    /// The account's bytes.
    pub data: Vec<u8>,
}

/// The host's clock at the time of the call.
#[derive(Clone, Copy, Debug, PartialEq, Eq, Structural)]
pub struct Clock {
    /// The current slot.
    pub slot: u64,
    /// The timestamp of the first slot of the current epoch.
    pub epoch_start_timestamp: i64,
    /// The current epoch.
    pub epoch: u64,
    /// The current time.
    pub unix_timestamp: i64,
}

/// The well-known program addresses that the checks compare against.
#[derive(Clone, Copy, Debug)]
pub struct ProgramIds {
    /// The token program.
    pub token_program: Address,
    /// The associated token account program.
    pub associated_token_program: Address,
    /// The system program.
    pub system_program: Address,
}

} // verus!
