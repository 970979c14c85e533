use vstd::prelude::*;

verus! {

/// Offset number that marks a tuple identifier as invalid (a deleted tuple).
pub const INVALID_OFFSET_NUMBER: u16 = 0;

/// A tuple identifier: a block number and a line-pointer offset within it.
#[derive(Clone, Copy, Debug, PartialEq, Eq, Structural)]
pub struct ItemPointer {
    pub block_number: u32,
    pub offset: u16,
}

/// A tuple identifier in the heap relation.
pub type HeapPointer = ItemPointer;

/// A tuple identifier in the index relation.
pub type IndexPointer = ItemPointer;

/// The number that orders tuple identifiers by block, then by offset.
pub open spec fn tid_key(tid: ItemPointer) -> int {
    tid.block_number * 65536 + tid.offset
}

impl ItemPointer {
    /// The key of this identifier in block-then-offset order.
    pub fn key(&self) -> (k: u64)
        ensures
            k == tid_key(*self),
            k < 0x1_0000_0000_0000,
    {
        (self.block_number as u64) * 65536 + (self.offset as u64)
    }
}

/// Two identifiers have the same key exactly when they are equal.
pub proof fn lemma_tid_key_injective(a: ItemPointer, b: ItemPointer)
    ensures
        tid_key(a) == tid_key(b) <==> a == b,
{
}

} // verus!
