//! Little-endian numbers and comparisons of byte strings.
use vstd::prelude::*;

verus! {

/// The number that the eight bytes from `start` on stand for, least significant first.
pub open spec fn le_value(data: Seq<u8>, start: int) -> int {
    data[start] + 0x100 * data[start + 1] + 0x1_0000 * data[start + 2] + 0x100_0000 * data[start
        + 3] + 0x1_0000_0000 * data[start + 4] + 0x100_0000_0000 * data[start + 5]
        + 0x1_0000_0000_0000 * data[start + 6] + 0x100_0000_0000_0000 * data[start + 7]
}

/// Reads the little-endian number that starts at `start`.
pub fn read_u64(data: &[u8], start: usize) -> (r: u64)
    requires
        start + 8 <= data.len(),
    ensures
        r == le_value(data@, start as int),
{
    data[start] as u64 + 0x100 * data[start + 1] as u64 + 0x1_0000 * data[start + 2] as u64
        + 0x100_0000 * data[start + 3] as u64 + 0x1_0000_0000 * data[start + 4] as u64
        + 0x100_0000_0000 * data[start + 5] as u64 + 0x1_0000_0000_0000 * data[start + 6] as u64
        + 0x100_0000_0000_0000 * data[start + 7] as u64
}

/// Whether `data` starts with the eight little-endian bytes of a number below 256.
pub open spec fn starts_with_discriminator(data: Seq<u8>, discriminator: u8) -> bool {
    &&& data.len() >= 8
    &&& data[0] == discriminator
    &&& forall|i: int| 1 <= i < 8 ==> data[i] == 0
}

/// Tests for the eight-byte discriminator at the start of `data`.
pub fn has_discriminator(data: &[u8], discriminator: u8) -> (r: bool)
    ensures
        r == starts_with_discriminator(data@, discriminator),
{
    if data.len() < 8 || data[0] != discriminator {
        return false;
    }
    let mut i: usize = 1;
    while i < 8
        invariant
            1 <= i <= 8,
            data.len() >= 8,
            forall|j: int| 1 <= j < i ==> data@[j] == 0,
        decreases 8 - i,
    {
        if data[i] != 0 {
            return false;
        }
        i = i + 1;
    }
    true
}

/// True exactly when both hold the same bytes.
pub fn same_bytes(a: &[u8], b: &[u8]) -> (r: bool)
    ensures
        r == (a@ == b@),
{
    if a.len() != b.len() {
        return false;
    }
    let mut i: usize = 0;
    while i < a.len()
        invariant
            i <= a.len(),
            a.len() == b.len(),
            forall|j: int| 0 <= j < i ==> a@[j] == b@[j],
        decreases a.len() - i,
    {
        if a[i] != b[i] {
            return false;
        }
        i = i + 1;
    }
    assert(a@ =~= b@);
    true
}

/// A copy of the bytes of `data`.
pub fn copy_bytes(data: &[u8]) -> (r: Vec<u8>)
    ensures
        r@ == data@,
{
    let mut r: Vec<u8> = Vec::new();
    let mut i: usize = 0;
    while i < data.len()
        invariant
            i <= data.len(),
            r@ == data@.take(i as int),
        decreases data.len() - i,
    {
        r.push(data[i]);
        i = i + 1;
        assert(data@.take(i as int) =~= data@.take(i - 1).push(data@[i - 1]));
    }
    assert(data@.take(data@.len() as int) =~= data@);
    r
}

} // verus!
