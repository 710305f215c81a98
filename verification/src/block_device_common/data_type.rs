//! The block unit model: a fixed 4096-byte block, the unmapped sentinel
//! a block holds until it is first written, and a device's block vector.

use vstd::prelude::*;
use vstd::array::array_fill_for_copy_types;

verus! {

/// The device's minimum addressable and transfer unit, in bytes.
pub const BLOCK_SIZE: usize = 4096;

/// The byte every unmapped block is filled with.
pub const UNMAP_BYTE: u8 = 0xF;

/// One fixed-size storage block. Equality and copy are by value.
#[derive(Clone, Copy, Debug, PartialEq)]
pub struct DataBlock(pub [u8; BLOCK_SIZE]);

impl View for DataBlock {
    type V = Seq<u8>;

    open spec fn view(&self) -> Seq<u8> {
        self.0@
    }
}

/// The bytes of the unmapped sentinel block.
pub open spec fn spec_unmap_bytes() -> Seq<u8> {
    Seq::new(BLOCK_SIZE as nat, |i: int| UNMAP_BYTE)
}

/// Whether a block holds the unmapped sentinel value.
pub open spec fn is_unmap_block(b: DataBlock) -> bool {
    b@ == spec_unmap_bytes()
}

/// The unmapped sentinel block: the value a block reads as until it is
/// first written.
pub fn unmap_block() -> (r: DataBlock)
    ensures
        is_unmap_block(r),
{
    let arr: [u8; BLOCK_SIZE] = array_fill_for_copy_types(UNMAP_BYTE);
    proof {
        assert(arr@ =~= spec_unmap_bytes());
    }
    DataBlock(arr)
}

/// A device's block vector.
#[derive(Debug)]
pub struct Data(pub Vec<DataBlock>);

impl View for Data {
    type V = Seq<DataBlock>;

    open spec fn view(&self) -> Seq<DataBlock> {
        self.0@
    }
}

impl Data {
    /// Overwrites blocks `[lba, lba + num_blocks)` with the first
    /// `num_blocks` buffer entries; every other block keeps its value.
    pub fn write_range(&mut self, lba: u64, num_blocks: u64, buffer: &Vec<DataBlock>)
        requires
            num_blocks != 0,
            lba + num_blocks <= old(self)@.len(),
            num_blocks <= buffer@.len(),
        ensures
            final(self)@ == spec_write(old(self)@, lba as int, num_blocks as int, buffer@),
    {
        let ghost orig = self@;
        let total = self.0.len();
        let buf_len = buffer.len();
        let mut offset: u64 = 0;
        while offset < num_blocks
            invariant
                offset <= num_blocks,
                num_blocks != 0,
                lba + num_blocks <= orig.len(),
                num_blocks <= buffer@.len(),
                orig.len() == total,
                buffer@.len() == buf_len,
                self@.len() == orig.len(),
                forall|i: int| 0 <= i < orig.len() && !(lba <= i < lba + offset)
                    ==> self@[i] == orig[i],
                forall|i: int| lba <= i < lba + offset ==> self@[i] == buffer@[i - lba],
            decreases num_blocks - offset,
        {
            let idx = (lba + offset) as usize;
            let val = buffer[offset as usize];
            *vstd::std_specs::vec::vec_index_mut(&mut self.0, idx) = val;
            offset = offset + 1;
        }
        proof {
            assert(self@ =~= spec_write(orig, lba as int, num_blocks as int, buffer@));
        }
    }

    /// Copies blocks `[lba, lba + num_blocks)` out, in LBA order.
    pub fn read_range(&self, lba: u64, num_blocks: u64) -> (r: Vec<DataBlock>)
        requires
            lba + num_blocks <= self@.len(),
        ensures
            r@ == spec_read(self@, lba as int, num_blocks as int),
    {
        let total = self.0.len();
        let mut out: Vec<DataBlock> = Vec::new();
        let mut offset: u64 = 0;
        while offset < num_blocks
            invariant
                offset <= num_blocks,
                lba + num_blocks <= self@.len(),
                self@.len() == total,
                out@.len() == offset,
                forall|i: int| 0 <= i < offset ==> out@[i] == self@[lba + i],
            decreases num_blocks - offset,
        {
            let idx = (lba + offset) as usize;
            out.push(self.0[idx]);
            offset = offset + 1;
        }
        proof {
            assert(out@ =~= spec_read(self@, lba as int, num_blocks as int));
        }
        out
    }

    /// A fresh block vector of `size` blocks, all unmapped.
    pub fn new(size: usize) -> (r: Self)
        ensures
            r@.len() == size,
            forall|i: int| 0 <= i < size ==> is_unmap_block(#[trigger] r@[i]),
    {
        let block = unmap_block();
        let mut items: Vec<DataBlock> = Vec::new();
        let mut n: usize = 0;
        while n < size
            invariant
                n <= size,
                items@.len() == n,
                is_unmap_block(block),
                forall|i: int| 0 <= i < n ==> is_unmap_block(#[trigger] items@[i]),
            decreases size - n,
        {
            items.push(block);
            n = n + 1;
        }
        Self(items)
    }
}

/// The block vector after blocks `[lba, lba + num_blocks)` are overwritten
/// with `buffer[0 .. num_blocks]`; every other block keeps its value.
pub open spec fn spec_write(
    data: Seq<DataBlock>,
    lba: int,
    num_blocks: int,
    buffer: Seq<DataBlock>,
) -> Seq<DataBlock> {
    Seq::new(
        data.len(),
        |i: int|
            if lba <= i < lba + num_blocks {
                buffer[i - lba]
            } else {
                data[i]
            },
    )
}

/// The blocks a read of `[lba, lba + num_blocks)` returns, in LBA order.
pub open spec fn spec_read(data: Seq<DataBlock>, lba: int, num_blocks: int) -> Seq<DataBlock> {
    data.subrange(lba, lba + num_blocks)
}

/// Whether `[lba, lba + num_blocks)` is a non-empty range of valid block
/// addresses on a device of `total_blocks` blocks.
pub open spec fn spec_valid_range(lba: u64, num_blocks: u64, total_blocks: u64) -> bool {
    num_blocks != 0 && lba + num_blocks <= total_blocks
}

/// Writing a range and then reading it back yields exactly the blocks
/// written, in order: the first `num_blocks` entries of the buffer.
pub proof fn lemma_write_then_read(
    data: Seq<DataBlock>,
    lba: int,
    num_blocks: int,
    buffer: Seq<DataBlock>,
)
    requires
        0 <= lba,
        0 < num_blocks,
        lba + num_blocks <= data.len(),
        num_blocks <= buffer.len(),
    ensures
        spec_read(spec_write(data, lba, num_blocks, buffer), lba, num_blocks) == buffer.take(
            num_blocks,
        ),
{
    assert(spec_read(spec_write(data, lba, num_blocks, buffer), lba, num_blocks) =~= buffer.take(
        num_blocks,
    ));
}

/// Checks a transfer range as `spec_valid_range` states, without
/// overflowing on any input.
pub fn is_valid_transfer(lba: u64, num_blocks: u64, total_blocks: u64) -> (r: bool)
    ensures
        r == spec_valid_range(lba, num_blocks, total_blocks),
{
    num_blocks != 0 && num_blocks <= total_blocks && lba <= total_blocks - num_blocks
}

/// On a device whose blocks are all unmapped - as every fresh device's
/// are - every block a read returns is the unmapped sentinel.
pub proof fn lemma_read_unmapped(data: Seq<DataBlock>, lba: int, num_blocks: int)
    requires
        0 <= lba,
        0 <= num_blocks,
        lba + num_blocks <= data.len(),
        forall|i: int| 0 <= i < data.len() ==> is_unmap_block(#[trigger] data[i]),
    ensures
        forall|i: int|
            0 <= i < num_blocks ==> is_unmap_block(
                #[trigger] spec_read(data, lba, num_blocks)[i],
            ),
{
}

/// A block a write does not cover keeps its value; in particular an
/// unmapped block stays unmapped under writes elsewhere, so an LBA never
/// written still reads as the unmapped sentinel.
pub proof fn lemma_unwritten_block_unchanged(
    data: Seq<DataBlock>,
    lba: int,
    num_blocks: int,
    buffer: Seq<DataBlock>,
    i: int,
)
    requires
        0 <= i < data.len(),
        !(lba <= i < lba + num_blocks),
    ensures
        spec_write(data, lba, num_blocks, buffer)[i] == data[i],
{
}

} // verus!
