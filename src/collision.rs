use vstd::prelude::*;

verus! {

/// Collision layers of the world; each is one bit of a layer mask, in
/// declaration order.
#[derive(Clone, Copy, Debug, PartialEq, Eq, Default, Structural)]
pub enum CollisionLayer {
    #[default]
    Character,
    Object,
    Vehicle,
    Terrain,
    AreaTransition,
    Item,
}

pub open spec fn layer_bit(l: CollisionLayer) -> u32 {
    match l {
        CollisionLayer::Character => 1,
        CollisionLayer::Object => 2,
        CollisionLayer::Vehicle => 4,
        CollisionLayer::Terrain => 8,
        CollisionLayer::AreaTransition => 16,
        CollisionLayer::Item => 32,
    }
}

/// Which layers a collider belongs to and which layers it collides with.
#[derive(Clone, Copy, Debug, PartialEq, Eq, Structural)]
pub struct CollisionLayers {
    pub memberships: u32,
    pub filters: u32,
}

impl CollisionLayer {
    pub fn to_bits(&self) -> (r: u32)
        ensures
            r == layer_bit(*self),
    {
        match self {
            CollisionLayer::Character => 1,
            CollisionLayer::Object => 2,
            CollisionLayer::Vehicle => 4,
            CollisionLayer::Terrain => 8,
            CollisionLayer::AreaTransition => 16,
            CollisionLayer::Item => 32,
        }
    }

    /// What a character can stand on: objects and terrain.
    pub fn standable_mask() -> (r: u32)
        ensures
            r == layer_bit(CollisionLayer::Object) | layer_bit(CollisionLayer::Terrain),
            r == 0b1010,
    {
        assert(2u32 | 8u32 == 0b1010u32) by (bit_vector);
        0b1010
    }

    pub fn terrain_layers() -> (r: CollisionLayers)
        ensures
            r.memberships == layer_bit(CollisionLayer::Terrain),
            r.filters == layer_bit(CollisionLayer::Vehicle) | layer_bit(CollisionLayer::Character)
                | layer_bit(CollisionLayer::Object),
    {
        assert(4u32 | 1u32 | 2u32 == 0b0111u32) by (bit_vector);
        CollisionLayers { memberships: 8, filters: 0b0111 }
    }

    pub fn character_layers() -> (r: CollisionLayers)
        ensures
            r.memberships == layer_bit(CollisionLayer::Character),
            r.filters == layer_bit(CollisionLayer::Vehicle) | layer_bit(CollisionLayer::Character)
                | layer_bit(CollisionLayer::Item) | layer_bit(CollisionLayer::Terrain)
                | layer_bit(CollisionLayer::Object),
    {
        assert(4u32 | 1u32 | 32u32 | 8u32 | 2u32 == 0b10_1111u32) by (bit_vector);
        CollisionLayers { memberships: 1, filters: 0b10_1111 }
    }

    pub fn object_layers() -> (r: CollisionLayers)
        ensures
            r.memberships == layer_bit(CollisionLayer::Object),
            r.filters == layer_bit(CollisionLayer::Vehicle) | layer_bit(CollisionLayer::Character)
                | layer_bit(CollisionLayer::Terrain) | layer_bit(CollisionLayer::Object),
    {
        assert(4u32 | 1u32 | 8u32 | 2u32 == 0b1111u32) by (bit_vector);
        CollisionLayers { memberships: 2, filters: 0b1111 }
    }

    pub fn item_layers() -> (r: CollisionLayers)
        ensures
            r.memberships == layer_bit(CollisionLayer::Item),
            r.filters == layer_bit(CollisionLayer::Character),
    {
        CollisionLayers { memberships: 32, filters: 1 }
    }

    pub fn transition_layers() -> (r: CollisionLayers)
        ensures
            r.memberships == layer_bit(CollisionLayer::AreaTransition),
            r.filters == layer_bit(CollisionLayer::Character),
    {
        CollisionLayers { memberships: 16, filters: 1 }
    }
}

/// The other party of a collision pair that involves `of`.
pub fn collision_partner(entity1: u64, entity2: u64, of: u64) -> (r: u64)
    ensures
        r == (if entity1 == of { entity2 } else { entity1 }),
{
    if entity1 == of { entity2 } else { entity1 }
}

} // verus!
