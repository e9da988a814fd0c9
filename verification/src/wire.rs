//! Little-endian read and write helpers shared by the packet codecs.

use vstd::bytes::*;
use vstd::prelude::*;
use vstd::slice::slice_subrange;

verus! {

broadcast use vstd::slice::group_slice_axioms;

/// Appends the two little-endian bytes of `x`.
pub fn write_u16(out: &mut Vec<u8>, x: u16)
    ensures
        final(out)@ == old(out)@ + spec_u16_to_le_bytes(x),
{
    let mut b: Vec<u8> = u16_to_le_bytes(x);
    out.append(&mut b);
}

/// Appends the four little-endian bytes of `x`.
pub fn write_u32(out: &mut Vec<u8>, x: u32)
    ensures
        final(out)@ == old(out)@ + spec_u32_to_le_bytes(x),
{
    let mut b: Vec<u8> = u32_to_le_bytes(x);
    out.append(&mut b);
}

/// Appends the eight little-endian bytes of `x`.
pub fn write_u64(out: &mut Vec<u8>, x: u64)
    ensures
        final(out)@ == old(out)@ + spec_u64_to_le_bytes(x),
{
    let mut b: Vec<u8> = u64_to_le_bytes(x);
    out.append(&mut b);
}

/// Reads a little-endian `u16` at offset `i`.
pub fn read_u16(data: &[u8], i: usize) -> (r: u16)
    requires
        i + 2 <= data@.len(),
    ensures
        r == spec_u16_from_le_bytes(data@.subrange(i as int, i + 2)),
        spec_u16_to_le_bytes(r) == data@.subrange(i as int, i + 2),
{
    proof {
        lemma_auto_spec_u16_to_from_le_bytes();
    }
    // Reading the length as a usize bounds the index arithmetic.
    let _n: usize = data.len();
    u16_from_le_bytes(slice_subrange(data, i, i + 2))
}

/// Reads a little-endian `u32` at offset `i`.
pub fn read_u32(data: &[u8], i: usize) -> (r: u32)
    requires
        i + 4 <= data@.len(),
    ensures
        r == spec_u32_from_le_bytes(data@.subrange(i as int, i + 4)),
        spec_u32_to_le_bytes(r) == data@.subrange(i as int, i + 4),
{
    proof {
        lemma_auto_spec_u32_to_from_le_bytes();
    }
    // Reading the length as a usize bounds the index arithmetic.
    let _n: usize = data.len();
    u32_from_le_bytes(slice_subrange(data, i, i + 4))
}

/// Reads a little-endian `u64` at offset `i`.
pub fn read_u64(data: &[u8], i: usize) -> (r: u64)
    requires
        i + 8 <= data@.len(),
    ensures
        r == spec_u64_from_le_bytes(data@.subrange(i as int, i + 8)),
        spec_u64_to_le_bytes(r) == data@.subrange(i as int, i + 8),
{
    proof {
        lemma_auto_spec_u64_to_from_le_bytes();
    }
    // Reading the length as a usize bounds the index arithmetic.
    let _n: usize = data.len();
    u64_from_le_bytes(slice_subrange(data, i, i + 8))
}

/// Brings the lengths of the little-endian encodings into scope.
pub proof fn lemma_le_bytes_lens()
    ensures
        forall|x: u16| #[trigger] spec_u16_to_le_bytes(x).len() == 2,
        forall|x: u32| #[trigger] spec_u32_to_le_bytes(x).len() == 4,
        forall|x: u64| #[trigger] spec_u64_to_le_bytes(x).len() == 8,
{
    lemma_auto_spec_u16_to_from_le_bytes();
    lemma_auto_spec_u32_to_from_le_bytes();
    lemma_auto_spec_u64_to_from_le_bytes();
}

/// The little-endian bytes of a `u16` determine it.
pub proof fn lemma_u16_bytes_inj(x: u16, y: u16)
    requires
        spec_u16_to_le_bytes(x) == spec_u16_to_le_bytes(y),
    ensures
        x == y,
{
    lemma_auto_spec_u16_to_from_le_bytes();
    assert(spec_u16_to_le_bytes(x).len() == 2);
    assert(spec_u16_to_le_bytes(y).len() == 2);
    assert(spec_u16_from_le_bytes(spec_u16_to_le_bytes(x)) == x);
    assert(spec_u16_from_le_bytes(spec_u16_to_le_bytes(y)) == y);
}

/// The little-endian bytes of a `u32` determine it.
pub proof fn lemma_u32_bytes_inj(x: u32, y: u32)
    requires
        spec_u32_to_le_bytes(x) == spec_u32_to_le_bytes(y),
    ensures
        x == y,
{
    lemma_auto_spec_u32_to_from_le_bytes();
    assert(spec_u32_to_le_bytes(x).len() == 4);
    assert(spec_u32_to_le_bytes(y).len() == 4);
    assert(spec_u32_from_le_bytes(spec_u32_to_le_bytes(x)) == x);
    assert(spec_u32_from_le_bytes(spec_u32_to_le_bytes(y)) == y);
}

/// The little-endian bytes of a `u64` determine it.
pub proof fn lemma_u64_bytes_inj(x: u64, y: u64)
    requires
        spec_u64_to_le_bytes(x) == spec_u64_to_le_bytes(y),
    ensures
        x == y,
{
    lemma_auto_spec_u64_to_from_le_bytes();
    assert(spec_u64_to_le_bytes(x).len() == 8);
    assert(spec_u64_to_le_bytes(y).len() == 8);
    assert(spec_u64_from_le_bytes(spec_u64_to_le_bytes(x)) == x);
    assert(spec_u64_from_le_bytes(spec_u64_to_le_bytes(y)) == y);
}

} // verus!
