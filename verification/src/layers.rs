//! Physics collision layers as plain bit masks.
//!
//! A layer setting is a pair of masks: the groups a body belongs to
//! (`memberships`) and the groups it can collide with (`filters`). Two
//! bodies interact when each one's memberships meet the other's filters.
use vstd::prelude::*;

verus! {

/// The memberships and filters of a body, one bit per collision group.
#[derive(Clone, Copy, PartialEq, Eq, Debug, Structural)]
pub struct CollisionLayerBits {
    pub memberships: u32,
    pub filters: u32,
}

/// Whether two bodies with these layer settings can collide.
pub open spec fn spec_interacts(a: CollisionLayerBits, b: CollisionLayerBits) -> bool {
    (a.memberships & b.filters) != 0 && (b.memberships & a.filters) != 0
}

impl CollisionLayerBits {
    /// A layer setting from raw masks.
    pub fn from_bits(memberships: u32, filters: u32) -> (r: Self)
        ensures
            r.memberships == memberships,
            r.filters == filters,
    {
        CollisionLayerBits { memberships, filters }
    }

    /// Whether a body with this setting can collide with one with `other`.
    pub fn interacts_with(&self, other: &Self) -> (r: bool)
        ensures
            r == spec_interacts(*self, *other),
    {
        (self.memberships & other.filters) != 0 && (other.memberships & self.filters) != 0
    }
}

/// The collision groups of the room scenes.
#[derive(Clone, Copy, PartialEq, Eq, Debug, Structural)]
pub enum GameLayer {
    Default,
    Player,
    Room,
}

impl Default for GameLayer {
    fn default() -> (r: Self)
        ensures
            r == GameLayer::Default,
    {
        GameLayer::Default
    }
}

/// The bit of a group: one bit per group, in the order of declaration.
pub open spec fn spec_layer_bit(l: GameLayer) -> u32 {
    match l {
        GameLayer::Default => 1,
        GameLayer::Player => 2,
        GameLayer::Room => 4,
    }
}

impl GameLayer {
    /// The bit of this group.
    pub fn to_bits(&self) -> (r: u32)
        ensures
            r == spec_layer_bit(*self),
    {
        match self {
            GameLayer::Default => 1,
            GameLayer::Player => 2,
            GameLayer::Room => 4,
        }
    }
}

/// The player of the room scenes: in the player's group, colliding with the
/// default group and the room.
pub fn player_layers() -> (r: CollisionLayerBits)
    ensures
        r == (CollisionLayerBits {
            memberships: spec_layer_bit(GameLayer::Player),
            filters: spec_layer_bit(GameLayer::Default) | spec_layer_bit(GameLayer::Room),
        }),
{
    let d = GameLayer::Default.to_bits();
    let r = GameLayer::Room.to_bits();
    CollisionLayerBits::from_bits(GameLayer::Player.to_bits(), d | r)
}

/// The walls of the room scenes: in the room's group, colliding with the
/// player.
pub fn room_layers() -> (r: CollisionLayerBits)
    ensures
        r == (CollisionLayerBits { memberships: spec_layer_bit(GameLayer::Room), filters: spec_layer_bit(GameLayer::Player) }),
{
    CollisionLayerBits::from_bits(GameLayer::Room.to_bits(), GameLayer::Player.to_bits())
}

/// The player and the walls of a room collide.
pub proof fn lemma_player_meets_room()
    ensures
        spec_interacts(
            CollisionLayerBits {
                memberships: spec_layer_bit(GameLayer::Player),
                filters: spec_layer_bit(GameLayer::Default) | spec_layer_bit(GameLayer::Room),
            },
            CollisionLayerBits { memberships: spec_layer_bit(GameLayer::Room), filters: spec_layer_bit(GameLayer::Player) },
        ),
{
    assert((2u32 & 2u32) != 0 && (4u32 & (1u32 | 4u32)) != 0) by (bit_vector);
}

} // verus!
