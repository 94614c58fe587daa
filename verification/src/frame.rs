//! Frame header metadata.

use vstd::prelude::*;

verus! {

/// Largest block a frame may carry.
#[derive(Clone, Copy, Debug, PartialEq, Eq, Structural)]
pub enum BlockSize {
    Default,
    Max64KB,
    Max256KB,
    Max1MB,
    Max4MB,
}

/// Whether a block may refer back into the blocks before it.
#[derive(Clone, Copy, Debug, PartialEq, Eq, Structural)]
pub enum BlockMode {
    Linked,
    Independent,
}

/// What a frame header announces about the frame that follows it.
#[derive(Clone, Copy, Debug, PartialEq, Eq, Structural)]
pub struct FrameInfo {
    /// Size of the decoded content, where the header states it.
    pub content_size: Option<u64>,
    pub block_size: BlockSize,
    pub block_mode: BlockMode,
    /// Each block is followed by its checksum.
    pub block_checksum: bool,
    /// The frame ends with a checksum of the whole content.
    pub content_checksum: bool,
    /// Identifier of the dictionary the frame was encoded with; zero for none.
    pub dict_id: u32,
}

} // verus!
