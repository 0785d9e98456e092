//! Little-endian byte helpers for the fixed record layouts.

use vstd::prelude::*;
use vstd::bytes::{
    spec_u32_from_le_bytes, spec_u32_to_le_bytes, spec_u64_from_le_bytes, spec_u64_to_le_bytes,
    u32_from_le_bytes, u32_to_le_bytes, u64_from_le_bytes, u64_to_le_bytes,
};
use vstd::slice::slice_subrange;
use crate::account::Address;

verus! {

/// Reads the little-endian `u64` at `pos`.
pub fn read_u64(d: &Vec<u8>, pos: usize) -> (r: u64)
    requires
        pos + 8 <= d@.len(),
    ensures
        r == spec_u64_from_le_bytes(d@.subrange(pos as int, pos + 8)),
{
    let _n = d.len();
    let s = slice_subrange(d.as_slice(), pos, pos + 8);
    u64_from_le_bytes(s)
}

/// Reads the little-endian `u32` at `pos`.
pub fn read_u32(d: &Vec<u8>, pos: usize) -> (r: u32)
    requires
        pos + 4 <= d@.len(),
    ensures
        r == spec_u32_from_le_bytes(d@.subrange(pos as int, pos + 4)),
{
    let _n = d.len();
    let s = slice_subrange(d.as_slice(), pos, pos + 4);
    u32_from_le_bytes(s)
}

/// Reads the 32-byte address at `pos`.
pub fn read_address(d: &Vec<u8>, pos: usize) -> (r: Address)
    requires
        pos + 32 <= d@.len(),
    ensures
        r@ == d@.subrange(pos as int, pos + 32),
{
    let _n = d.len();
    let mut bytes: [u8; 32] = [0u8; 32];
    let mut i: usize = 0;
    while i < 32
        invariant
            0 <= i <= 32,
            pos + 32 <= d@.len(),
            d@.len() == _n,
            bytes@.len() == 32,
            forall|j: int| 0 <= j < i ==> bytes@[j] == d@[pos + j],
        decreases 32 - i,
    {
        bytes[i] = d[pos + i];
        i = i + 1;
    }
    assert(bytes@ =~= d@.subrange(pos as int, pos + 32));
    Address::new(bytes)
}

/// Appends the little-endian bytes of `x`.
pub fn push_u64(out: &mut Vec<u8>, x: u64)
    ensures
        final(out)@ == old(out)@ + spec_u64_to_le_bytes(x),
{
    let mut b = u64_to_le_bytes(x);
    out.append(&mut b);
}

/// Appends the little-endian bytes of `x`.
pub fn push_u32(out: &mut Vec<u8>, x: u32)
    ensures
        final(out)@ == old(out)@ + spec_u32_to_le_bytes(x),
{
    let mut b = u32_to_le_bytes(x);
    out.append(&mut b);
}

/// Appends the bytes of an address.
pub fn push_address(out: &mut Vec<u8>, a: &Address)
    ensures
        final(out)@ == old(out)@ + a@,
{
    let mut b = a.to_vec();
    out.append(&mut b);
}

/// Overwrites the start of `data` with `bytes`, leaving the rest as it was.
pub fn write_prefix(data: &mut Vec<u8>, bytes: &Vec<u8>)
    requires
        bytes@.len() <= old(data)@.len(),
    ensures
        final(data)@ == bytes@ + old(data)@.subrange(bytes@.len() as int, old(data)@.len() as int),
{
    let ghost start = data@;
    let mut i: usize = 0;
    while i < bytes.len()
        invariant
            0 <= i <= bytes@.len(),
            bytes@.len() <= start.len(),
            data@.len() == start.len(),
            forall|j: int| 0 <= j < i ==> data@[j] == bytes@[j],
            forall|j: int| i <= j < start.len() ==> data@[j] == start[j],
        decreases bytes@.len() - i,
    {
        data.set(i, bytes[i]);
        i = i + 1;
    }
    assert(data@ =~= bytes@ + start.subrange(bytes@.len() as int, start.len() as int));
}

} // verus!
