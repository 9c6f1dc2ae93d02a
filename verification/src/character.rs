//! The player of the room scenes: where it appears, its body, and how the
//! keyboard steers it.
use vstd::prelude::*;
use crate::layers::{CollisionLayerBits, GameLayer, player_layers, spec_layer_bit};

verus! {

/// What a spawn point of a room's map stands for.
#[derive(Clone, Copy, PartialEq, Eq, Debug, Structural)]
pub enum SpawnPoint {
    Unknown,
    Player,
}

impl Default for SpawnPoint {
    fn default() -> (r: Self)
        ensures
            r == SpawnPoint::Unknown,
    {
        SpawnPoint::Unknown
    }
}

/// The body the player is given: a circle of `collider_radius` pixels, not
/// pulled by gravity, reporting its collisions.
#[derive(Clone, Copy, PartialEq, Eq, Debug, Structural)]
pub struct PlayerBody {
    pub collider_radius: u32,
    pub gravity_scale: u32,
    pub layers: CollisionLayerBits,
    pub collision_events: bool,
}

/// The player's body.
pub open spec fn spec_player_body() -> PlayerBody {
    PlayerBody {
        collider_radius: 5,
        gravity_scale: 0,
        layers: CollisionLayerBits {
            memberships: spec_layer_bit(GameLayer::Player),
            filters: spec_layer_bit(GameLayer::Default) | spec_layer_bit(GameLayer::Room),
        },
        collision_events: true,
    }
}

/// The body of a new player, placed where the caller puts it.
pub fn spawn_player() -> (r: PlayerBody)
    ensures
        r == spec_player_body(),
{
    PlayerBody { collider_radius: 5, gravity_scale: 0, layers: player_layers(), collision_events: true }
}

/// Where the player appears: the first of the map's spawn points that is
/// the player's, or none when there is no such point.
pub fn spawn_player_spawnpoint(spawnpoints: &Vec<SpawnPoint>) -> (r: Option<usize>)
    ensures
        r matches Some(i) ==> i < spawnpoints@.len() && spawnpoints@[i as int] == SpawnPoint::Player
            && forall|k: int| 0 <= k < i ==> spawnpoints@[k] != SpawnPoint::Player,
        r is None ==> forall|k: int| 0 <= k < spawnpoints@.len() ==> spawnpoints@[k] != SpawnPoint::Player,
{
    let mut i: usize = 0;
    while i < spawnpoints.len()
        invariant
            i <= spawnpoints@.len(),
            forall|k: int| 0 <= k < i ==> spawnpoints@[k] != SpawnPoint::Player,
        decreases spawnpoints@.len() - i,
    {
        if spawnpoints[i] == SpawnPoint::Player {
            return Some(i);
        }
        i = i + 1;
    }
    None
}

/// The direction the keys W, S, A and D ask for: up, down, left and right,
/// opposite keys cancelling out.
pub fn control_player(w: bool, s: bool, a: bool, d: bool) -> (r: (i32, i32))
    ensures
        r.0 == (if d { 1int } else { 0int }) - (if a { 1int } else { 0int }),
        r.1 == (if w { 1int } else { 0int }) - (if s { 1int } else { 0int }),
{
    let mut x: i32 = 0;
    let mut y: i32 = 0;
    if w {
        y = y + 1;
    }
    if s {
        y = y - 1;
    }
    if a {
        x = x - 1;
    }
    if d {
        x = x + 1;
    }
    (x, y)
}

} // verus!
