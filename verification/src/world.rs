//! Coordinates of the block world.

use vstd::prelude::*;
use crate::math::Point;

verus! {

/// A position along one axis, in blocks.
pub type BlockPos = i64;

/// A position along one axis, in chunks.
pub type ChunkPos = i32;

/// The blocks along each edge of a chunk.
pub const CHUNK_SIZE: usize = 32;

/// How many chunks around the viewer are kept.
pub const CHUNK_DISTANCE: usize = 10;

/// The place of a block.
#[derive(Debug, Clone, Copy, PartialEq, Eq, Hash, Structural)]
pub struct BlockCoord {
    pub x: BlockPos,
    pub y: BlockPos,
    pub z: BlockPos,
}

impl Point<BlockPos, 3> for BlockCoord {
    open spec fn coordinates(&self) -> Seq<BlockPos> {
        seq![self.x, self.y, self.z]
    }

    fn to_array(&self) -> (array: [BlockPos; 3]) {
        let array = [self.x, self.y, self.z];
        assert(array@ =~= seq![self.x, self.y, self.z]);
        array
    }
}

/// The place of a chunk.
#[derive(Debug, Clone, Copy, PartialEq, Eq, Hash, Structural)]
pub struct ChunkCoord {
    pub x: ChunkPos,
    pub y: ChunkPos,
    pub z: ChunkPos,
}

impl Point<ChunkPos, 3> for ChunkCoord {
    open spec fn coordinates(&self) -> Seq<ChunkPos> {
        seq![self.x, self.y, self.z]
    }

    fn to_array(&self) -> (array: [ChunkPos; 3]) {
        let array = [self.x, self.y, self.z];
        assert(array@ =~= seq![self.x, self.y, self.z]);
        array
    }
}

} // verus!
