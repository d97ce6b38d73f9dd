use vstd::prelude::*;

verus! {

/// The kinds of block a voxel can hold. `Air` is the one empty kind: it has
/// no geometry and never hides a neighbouring face.
#[derive(Copy, Clone, Debug, PartialEq, Eq, Hash, Structural)]
pub enum BlockId {
    Air,
    Dirt,
    Grass,
    Stone,
    Sand,
    Water,
}

/// Number of block kinds; `BlockId::index` maps them onto `0..BLOCK_KINDS`.
pub const BLOCK_KINDS: usize = 6;

impl BlockId {
    /// Position of the kind in declaration order.
    pub open spec fn spec_index(self) -> nat {
        match self {
            BlockId::Air => 0,
            BlockId::Dirt => 1,
            BlockId::Grass => 2,
            BlockId::Stone => 3,
            BlockId::Sand => 4,
            BlockId::Water => 5,
        }
    }

    /// Whether this is the empty kind.
    pub open spec fn spec_is_air(self) -> bool {
        self == BlockId::Air
    }

    pub fn index(self) -> (r: usize)
        ensures
            r == self.spec_index(),
            r < BLOCK_KINDS,
    {
        match self {
            BlockId::Air => 0,
            BlockId::Dirt => 1,
            BlockId::Grass => 2,
            BlockId::Stone => 3,
            BlockId::Sand => 4,
            BlockId::Water => 5,
        }
    }

    pub fn is_air(self) -> (r: bool)
        ensures
            r == self.spec_is_air(),
    {
        self == BlockId::Air
    }
}

/// Distinct kinds have distinct indices.
pub proof fn lemma_index_injective(a: BlockId, b: BlockId)
    ensures
        a.spec_index() == b.spec_index() ==> a == b,
{
}

/// A single block.
#[derive(Copy, Clone, Debug, PartialEq, Eq, Structural)]
pub struct Block {
    pub id: BlockId,
}

} // verus!
