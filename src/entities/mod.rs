//! The player entity's state, and the collision layers that filter its rays.
use vstd::prelude::*;

pub mod player;

verus! {

/// Collision layers used to filter the player's rays and body contacts.
#[derive(Clone, Copy, Debug, PartialEq, Eq, Structural)]
pub enum EntityCollisionLayers {
    Ground,
    Interaction,
    Player,
    Props,
}

impl EntityCollisionLayers {
    /// The layer's position in declaration order.
    pub open spec fn index(self) -> nat {
        match self {
            EntityCollisionLayers::Ground => 0,
            EntityCollisionLayers::Interaction => 1,
            EntityCollisionLayers::Player => 2,
            EntityCollisionLayers::Props => 3,
        }
    }

    /// The layer's bit in a collision mask: one bit per layer, in
    /// declaration order.
    pub fn to_bits(&self) -> (r: u32)
        ensures
            r == 1u32 << (self.index() as u32),
    {
        proof {
            assert(1u32 << 0u32 == 1u32) by (bit_vector);
            assert(1u32 << 1u32 == 2u32) by (bit_vector);
            assert(1u32 << 2u32 == 4u32) by (bit_vector);
            assert(1u32 << 3u32 == 8u32) by (bit_vector);
        }
        match self {
            EntityCollisionLayers::Ground => 1,
            EntityCollisionLayers::Interaction => 2,
            EntityCollisionLayers::Player => 4,
            EntityCollisionLayers::Props => 8,
        }
    }
}

} // verus!
