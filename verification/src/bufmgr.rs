//! Buffer identifiers and where the block of a buffer lies.

use vstd::prelude::*;
use crate::all_versions::BLCKSZ;
use crate::types::Buffer;

verus! {

/// The buffer identifier that names no buffer.
pub const InvalidBuffer: Buffer = 0;

/// Where a buffer's block lies.
#[derive(Clone, Copy, Debug, PartialEq, Eq, Structural)]
pub enum Block {
    /// In the backend's own table of local block pointers, at `index`.
    Local { index: u32 },
    /// In the shared buffer pool, `offset` bytes from its start.
    Shared { offset: u64 },
}

/// A page is the block of its buffer.
pub type Page = Block;

/// Local buffers carry negative identifiers.
pub open spec fn buffer_is_local(buffer: Buffer) -> bool {
    buffer < 0
}

/// The block of a valid buffer: local buffer `-1` is the first local block,
/// `-2` the second and so on; shared buffer `1` lies at the start of the
/// pool, each further one a block later.
pub open spec fn block_of(buffer: Buffer) -> Block
    recommends
        buffer != InvalidBuffer,
{
    if buffer_is_local(buffer) {
        Block::Local { index: (-buffer - 1) as u32 }
    } else {
        Block::Shared { offset: ((buffer - 1) * BLCKSZ) as u64 }
    }
}

/// Whether the buffer is local to the backend.
pub fn BufferIsLocal(buffer: Buffer) -> (local: bool)
    ensures
        local == buffer_is_local(buffer),
{
    buffer < 0
}

/// Where the block of `buffer` lies. The invalid buffer has no block.
pub fn BufferGetBlock(buffer: Buffer) -> (block: Block)
    requires
        buffer != InvalidBuffer,
    ensures
        block == block_of(buffer),
        buffer < 0 ==> block == (Block::Local { index: (-buffer - 1) as u32 }),
        buffer > 0 ==> block == (Block::Shared { offset: ((buffer - 1) * 8192) as u64 }),
{
    if BufferIsLocal(buffer) {
        let below: i32 = -(buffer + 1);
        Block::Local { index: below as u32 }
    } else {
        let before: u64 = (buffer - 1) as u64;
        Block::Shared { offset: before * (BLCKSZ as u64) }
    }
}

/// The page of `buffer`: its block.
pub fn BufferGetPage(buffer: Buffer) -> (page: Page)
    requires
        buffer != InvalidBuffer,
    ensures
        page == block_of(buffer),
{
    BufferGetBlock(buffer)
}

/// Different valid buffers have different blocks, and blocks of shared
/// buffers start on block boundaries.
pub proof fn blocks_are_distinct(a: Buffer, b: Buffer)
    requires
        a != InvalidBuffer,
        b != InvalidBuffer,
        a != b,
    ensures
        block_of(a) != block_of(b),
        block_of(a) matches Block::Shared { offset } ==> offset % (BLCKSZ as u64) == 0,
{
    if a > 0 {
        assert(((a - 1) * 8192) % 8192 == 0) by (nonlinear_arith);
    }
}

} // verus!
