//! The 32-byte data-flash block and its checksum.
use vstd::prelude::*;

verus! {

/// Number of bytes in one data-flash block.
pub const BLOCK_LEN: usize = 32;

/// Sum of the bytes of `s`, as a mathematical integer.
pub open spec fn byte_sum(s: Seq<u8>) -> int
    decreases s.len(),
{
    if s.len() == 0 {
        0
    } else {
        byte_sum(s.drop_last()) + s.last() as int
    }
}

/// The checksum the gauge expects for a block: 255 minus the byte sum
/// taken modulo 256.
pub open spec fn checksum_of(s: Seq<u8>) -> u8 {
    (255 - byte_sum(s) % 256) as u8
}

/// Computes the checksum of a block.
pub fn flash_block_checksum(block: &[u8; 32]) -> (r: u8)
    ensures
        r == checksum_of(block@),
{
    let mut acc: u8 = 0;
    let mut i: usize = 0;
    while i < BLOCK_LEN
        invariant
            i <= BLOCK_LEN,
            block@.len() == BLOCK_LEN,
            acc as int == byte_sum(block@.take(i as int)) % 256,
        decreases BLOCK_LEN - i,
    {
        proof {
            assert(block@.take(i as int + 1).drop_last() =~= block@.take(i as int));
        }
        acc = ((acc as u16 + block[i] as u16) % 256) as u8;
        i = i + 1;
    }
    proof {
        assert(block@.take(32) =~= block@);
    }
    255 - acc
}

/// The checksum and the byte sum of any block add up to 255 modulo 256.
pub proof fn lemma_checksum_complements_sum(block: Seq<u8>)
    ensures
        (checksum_of(block) as int + byte_sum(block)) % 256 == 255,
{
    let s = byte_sum(block);
    assert((255 - s % 256 + s) % 256 == 255) by (nonlinear_arith);
}

} // verus!

verus! {

/// The block after writing each `(offset, byte)` pair of `writes` in order.
pub open spec fn patched(block: Seq<u8>, writes: Seq<(u8, u8)>) -> Seq<u8>
    decreases writes.len(),
{
    if writes.len() == 0 {
        block
    } else {
        patched(block, writes.drop_last()).update(writes.last().0 as int, writes.last().1)
    }
}

/// Every offset of `pairs` lies inside a block.
pub open spec fn offsets_in_block(pairs: Seq<(u8, u8)>) -> bool {
    forall|i: int| 0 <= i < pairs.len() ==> (#[trigger] pairs[i]).0 < BLOCK_LEN
}

/// Whether `block` holds, at each offset of `expected`, the byte given there.
pub open spec fn holds_all(block: Seq<u8>, expected: Seq<(u8, u8)>) -> bool {
    forall|i: int|
        0 <= i < expected.len() ==> block[(#[trigger] expected[i]).0 as int] == expected[i].1
}

/// Copies a 32-byte reply into a block.
pub fn block_from_bytes(bytes: &[u8]) -> (r: [u8; 32])
    requires
        bytes@.len() == BLOCK_LEN,
    ensures
        r@ == bytes@,
{
    let mut b: [u8; 32] = [0u8; 32];
    let mut i: usize = 0;
    while i < BLOCK_LEN
        invariant
            i <= BLOCK_LEN,
            bytes@.len() == BLOCK_LEN,
            b@.len() == BLOCK_LEN,
            forall|j: int| 0 <= j < i ==> b@[j] == bytes@[j],
        decreases BLOCK_LEN - i,
    {
        b[i] = bytes[i];
        i = i + 1;
    }
    proof {
        assert(b@ =~= bytes@);
    }
    b
}

/// Writes each `(offset, byte)` pair into the block, in order.
pub fn patch_block(block: &mut [u8; 32], writes: &Vec<(u8, u8)>)
    requires
        offsets_in_block(writes@),
    ensures
        final(block)@ == patched(old(block)@, writes@),
{
    let ghost start = old(block)@;
    let mut i: usize = 0;
    while i < writes.len()
        invariant
            i <= writes@.len(),
            offsets_in_block(writes@),
            block@.len() == BLOCK_LEN,
            start.len() == BLOCK_LEN,
            block@ == patched(start, writes@.take(i as int)),
        decreases writes@.len() - i,
    {
        let (offset, value) = writes[i];
        assert(writes@[i as int].0 < BLOCK_LEN);
        proof {
            assert(writes@.take(i as int + 1).drop_last() =~= writes@.take(i as int));
        }
        block[offset as usize] = value;
        i = i + 1;
        proof {
            assert(block@ =~= patched(start, writes@.take(i as int)));
        }
    }
    proof {
        assert(writes@.take(writes@.len() as int) =~= writes@);
    }
}

/// Whether the block holds, at each offset of `expected`, the byte given there.
pub fn block_holds(block: &[u8], expected: &Vec<(u8, u8)>) -> (r: bool)
    requires
        block@.len() == BLOCK_LEN,
        offsets_in_block(expected@),
    ensures
        r == holds_all(block@, expected@),
{
    let mut i: usize = 0;
    while i < expected.len()
        invariant
            i <= expected@.len(),
            block@.len() == BLOCK_LEN,
            offsets_in_block(expected@),
            holds_all(block@, expected@.take(i as int)),
        decreases expected@.len() - i,
    {
        let (offset, value) = expected[i];
        assert(expected@[i as int].0 < BLOCK_LEN);
        if block[offset as usize] != value {
            return false;
        }
        i = i + 1;
        proof {
            assert forall|j: int| 0 <= j < i implies block@[(#[trigger] expected@.take(i as int)[j]).0 as int]
                == expected@.take(i as int)[j].1 by {
                if j < i - 1 {
                    assert(expected@.take(i as int)[j] == expected@.take(i as int - 1)[j]);
                }
            }
        }
    }
    proof {
        assert(expected@.take(expected@.len() as int) =~= expected@);
    }
    true
}

} // verus!
