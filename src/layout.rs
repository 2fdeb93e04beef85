use vstd::prelude::*;

use vstd::bytes::{spec_u64_from_le_bytes, spec_u64_to_le_bytes, u64_from_le_bytes, u64_to_le_bytes};
use vstd::slice::slice_subrange;

use crate::error::ExchangeError;
use crate::state::Address;

verus! {

/// The little-endian integer in the eight bytes of `s` from `off` on.
pub open spec fn u64_at(s: Seq<u8>, off: int) -> u64 {
    spec_u64_from_le_bytes(s.subrange(off, off + 8))
}

pub open spec fn le_bytes(x: u64) -> Seq<u8> {
    spec_u64_to_le_bytes(x)
}

pub open spec fn flag_byte(b: bool) -> u8 {
    if b {
        1
    } else {
        0
    }
}

pub fn read_u64(src: &[u8], off: usize) -> (r: u64)
    requires
        off + 8 <= src@.len(),
    ensures
        r == u64_at(src@, off as int),
{
    let n = src.len();
    assert(off + 8 <= n);
    u64_from_le_bytes(slice_subrange(src, off, off + 8))
}

pub fn read_address(src: &[u8], off: usize) -> (r: Address)
    requires
        off + 32 <= src@.len(),
    ensures
        r.bytes@ == src@.subrange(off as int, off + 32),
{
    let n = src.len();
    let mut bytes = [0u8; 32];
    let mut i: usize = 0;
    while i < 32
        invariant
            0 <= i <= 32,
            off + 32 <= src@.len(),
            n == src@.len(),
            bytes@.len() == 32,
            forall|j: int| 0 <= j < i ==> bytes@[j] == src@[off + j],
        decreases 32 - i,
    {
        bytes[i] = src[off + i];
        i = i + 1;
    }
    let r = Address { bytes };
    assert(r.bytes@ =~= src@.subrange(off as int, off + 32));
    r
}

pub fn push_u64(dst: &mut Vec<u8>, x: u64)
    ensures
        final(dst)@ == old(dst)@ + le_bytes(x),
{
    let b = u64_to_le_bytes(x);
    dst.extend_from_slice(b.as_slice());
}

pub fn push_address(dst: &mut Vec<u8>, a: &Address)
    ensures
        final(dst)@ == old(dst)@ + a.bytes@,
{
    dst.extend_from_slice(a.bytes.as_slice());
}

/// Writes `src` over the first bytes of `dst`, leaving the rest as it was.
pub fn write_prefix(dst: &mut [u8], src: &Vec<u8>)
    requires
        src@.len() <= old(dst)@.len(),
    ensures
        final(dst)@ == src@ + old(dst)@.subrange(src@.len() as int, old(dst)@.len() as int),
{
    let mut i: usize = 0;
    while i < src.len()
        invariant
            0 <= i <= src@.len(),
            src@.len() <= dst@.len(),
            dst@.len() == old(dst)@.len(),
            forall|j: int| 0 <= j < i ==> dst@[j] == src@[j],
            forall|j: int| i <= j < dst@.len() ==> dst@[j] == old(dst)@[j],
        decreases src@.len() - i,
    {
        dst[i] = src[i];
        i = i + 1;
    }
    assert(dst@ =~= src@ + old(dst)@.subrange(src@.len() as int, old(dst)@.len() as int));
}

/// An optional address on the wire: a zero byte for none, or a one byte and
/// the 32 bytes of the address; 33 bytes in all once packed.
pub open spec fn address_option_bytes(value: Option<Address>) -> Seq<u8> {
    match value {
        Some(a) => seq![1u8] + a.bytes@,
        None => Seq::new(33, |i: int| 0u8),
    }
}

/// Reads an optional address from the front of `input`, giving it with the
/// bytes that follow it.
pub fn unpack_address_option(input: &[u8]) -> (r: Result<(Option<Address>, &[u8]), ExchangeError>)
    ensures
        input@.len() >= 1 && input@[0] == 0 ==> r is Ok && r->Ok_0.0 is None && r->Ok_0.1@
            == input@.subrange(1, input@.len() as int),
        input@.len() >= 33 && input@[0] == 1 ==> r is Ok && r->Ok_0.0 is Some
            && r->Ok_0.0->Some_0.bytes@ == input@.subrange(1, 33) && r->Ok_0.1@ == input@.subrange(
            33,
            input@.len() as int,
        ),
        !(input@.len() >= 1 && input@[0] == 0) && !(input@.len() >= 33 && input@[0] == 1) ==> r
            == Err::<(Option<Address>, &[u8]), ExchangeError>(ExchangeError::InvalidInstruction),
{
    let n = input.len();
    if n >= 1 && input[0] == 0 {
        Ok((None, vstd::slice::slice_subrange(input, 1, n)))
    } else if n >= 33 && input[0] == 1 {
        let key = read_address(input, 1);
        Ok((Some(key), vstd::slice::slice_subrange(input, 33, n)))
    } else {
        Err(ExchangeError::InvalidInstruction)
    }
}

/// Writes an optional address into a 33-byte field.
pub fn pack_address_option(value: &Option<Address>, dst: &mut [u8])
    requires
        old(dst)@.len() == 33,
    ensures
        final(dst)@ == address_option_bytes(*value),
{
    let mut v: Vec<u8> = Vec::new();
    match value {
        Some(key) => {
            v.push(1u8);
            push_address(&mut v, key);
        },
        None => {
            let mut i: usize = 0;
            while i < 33
                invariant
                    0 <= i <= 33,
                    v@ == Seq::new(i as nat, |j: int| 0u8),
                decreases 33 - i,
            {
                v.push(0u8);
                i = i + 1;
                assert(v@ =~= Seq::new(i as nat, |j: int| 0u8));
            }
        },
    }
    assert(v@ =~= address_option_bytes(*value));
    write_prefix(dst, &v);
    assert(dst@ =~= address_option_bytes(*value));
}

} // verus!
