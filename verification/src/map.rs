//! The objects of the shooter's map: the swinging doors, the sensors that
//! start the dialogs, the wall that closes the boss room behind the player,
//! and the navigation mesh the enemies walk on.
use vstd::prelude::*;
use crate::layers::CollisionLayerBits;
use crate::miami::dialog_sensor_layer;
use crate::states::AppState;

verus! {

/// Marks the sensor at the boss room's entrance, which becomes a wall once
/// the fight begins.
#[derive(Clone, Copy, PartialEq, Eq, Debug, Default, Structural)]
pub struct BossEntrypointCollider;

/// Marks the sensor that starts the first dialog.
#[derive(Clone, Copy, PartialEq, Eq, Debug, Default, Structural)]
pub struct EntrypointDialog;

/// Marks the sensor that starts the boss's dialog.
#[derive(Clone, Copy, PartialEq, Eq, Debug, Default, Structural)]
pub struct BossDialog;

/// Marks a door that swings about a hinge on its side, lying across the
/// corridor.
#[derive(Clone, Copy, PartialEq, Eq, Debug, Default, Structural)]
pub struct HorizontalDoor;

/// Marks a door that swings about a hinge above it.
#[derive(Clone, Copy, PartialEq, Eq, Debug, Default, Structural)]
pub struct VerticalDoor;

/// Marks an obstacle of the map that the enemies' paths go around.
#[derive(Clone, Copy, PartialEq, Eq, Debug, Default, Structural)]
pub struct PathfinderObstacle;

/// Announces that new obstacles were made, so that the navigation mesh is
/// built again.
#[derive(Clone, Copy, PartialEq, Eq, Debug, Default, Structural)]
pub struct ObstacleCreated;

/// The settings of the navigation mesh: a square of `extent` pixels from the
/// origin, the enemies' radius and the simplification in tenths of a pixel,
/// the merge steps, and whether it is rebuilt on request only.
#[derive(Clone, Copy, PartialEq, Eq, Debug, Structural)]
pub struct NavMeshSpec {
    pub extent: u32,
    pub agent_radius_tenths: u32,
    pub simplify_tenths: u32,
    pub merge_steps: u32,
    pub on_demand: bool,
}

/// The navigation mesh of the shooter's map.
pub open spec fn spec_navmesh() -> NavMeshSpec {
    NavMeshSpec { extent: 1700, agent_radius_tenths: 65, simplify_tenths: 100, merge_steps: 3, on_demand: true }
}

/// The navigation mesh made when a collider of the map turns out to be an
/// obstacle: a square of a thousand pixels, enemies six pixels wide in
/// radius, simplified by a pixel in one merge step, rebuilt as soon as
/// anything changes.
pub open spec fn spec_obstacle_navmesh() -> NavMeshSpec {
    NavMeshSpec { extent: 1000, agent_radius_tenths: 60, simplify_tenths: 10, merge_steps: 1, on_demand: false }
}

/// The navigation mesh to build when obstacles were made: only in the
/// shooter.
pub fn obstacle_watcher(state: AppState) -> (r: Option<NavMeshSpec>)
    ensures
        r == (if state == AppState::Miami { Some(spec_navmesh()) } else { None }),
{
    if state != AppState::Miami {
        return None;
    }
    Some(NavMeshSpec { extent: 1700, agent_radius_tenths: 65, simplify_tenths: 100, merge_steps: 3, on_demand: true })
}

/// How a door is built: its body is a capsule placed at an offset from the
/// door's marker and turned by some quarter turns, and it hangs on a hinge
/// at the marker that lets it swing so many radians each way.
#[derive(Clone, Copy, PartialEq, Eq, Debug, Structural)]
pub struct DoorSetup {
    pub body_dx: i32,
    pub body_dy: i32,
    pub body_quarter_turns: i32,
    pub layers: CollisionLayerBits,
    pub capsule_radius: u32,
    pub capsule_length: u32,
    pub mass: u32,
    pub angle_limit: u32,
    /// The turn of the hinge's frame on the door's side, in quarter turns.
    pub hinge_frame_quarter_turns: i32,
    /// Whether the hinge is removed when the shooter ends.
    pub hinge_despawns_on_exit: bool,
}

/// The doors' bodies: they collide with walls, characters and shots.
pub open spec fn spec_door_layers() -> CollisionLayerBits {
    CollisionLayerBits { memberships: 0b101010111, filters: 0b000010110 }
}

/// A vertical door: the body hangs sixteen pixels below the hinge and swings
/// two radians each way.
pub open spec fn spec_v_door() -> DoorSetup {
    DoorSetup {
        body_dx: 0,
        body_dy: -16i32,
        body_quarter_turns: 0,
        layers: spec_door_layers(),
        capsule_radius: 4,
        capsule_length: 32,
        mass: 100,
        angle_limit: 2,
        hinge_frame_quarter_turns: 0,
        hinge_despawns_on_exit: true,
    }
}

/// A horizontal door: the body lies sixteen pixels right of the hinge,
/// turned a quarter, and swings three radians each way; its hinge stays
/// when the shooter ends.
pub open spec fn spec_h_door() -> DoorSetup {
    DoorSetup {
        body_dx: 16,
        body_dy: 0,
        body_quarter_turns: 1,
        layers: spec_door_layers(),
        capsule_radius: 4,
        capsule_length: 32,
        mass: 100,
        angle_limit: 3,
        hinge_frame_quarter_turns: -1i32,
        hinge_despawns_on_exit: false,
    }
}

/// The door to build for a new vertical door marker: only in the shooter.
pub fn on_v_door(state: AppState) -> (r: Option<DoorSetup>)
    ensures
        r == (if state == AppState::Miami { Some(spec_v_door()) } else { None }),
{
    if state != AppState::Miami {
        return None;
    }
    Some(DoorSetup {
        body_dx: 0,
        body_dy: -16,
        body_quarter_turns: 0,
        layers: CollisionLayerBits::from_bits(0b101010111, 0b000010110),
        capsule_radius: 4,
        capsule_length: 32,
        mass: 100,
        angle_limit: 2,
        hinge_frame_quarter_turns: 0,
        hinge_despawns_on_exit: true,
    })
}

/// The door to build for a new horizontal door marker: only in the shooter.
pub fn on_h_door(state: AppState) -> (r: Option<DoorSetup>)
    ensures
        r == (if state == AppState::Miami { Some(spec_h_door()) } else { None }),
{
    if state != AppState::Miami {
        return None;
    }
    Some(DoorSetup {
        body_dx: 16,
        body_dy: 0,
        body_quarter_turns: 1,
        layers: CollisionLayerBits::from_bits(0b101010111, 0b000010110),
        capsule_radius: 4,
        capsule_length: 32,
        mass: 100,
        angle_limit: 3,
        hinge_frame_quarter_turns: -1,
        hinge_despawns_on_exit: false,
    })
}

/// The three kinds of sensors of the map.
#[derive(Clone, Copy, PartialEq, Eq, Debug, Structural)]
pub enum MapSensor {
    /// Starts the first dialog when the player walks in.
    EntrypointDialog,
    /// The boss room's entrance.
    BossEntrypoint,
    /// Starts the boss's dialog when the player walks in.
    BossDialog,
}

/// How a collider of the map is set up: its kind, whether it is a sensor
/// (the player walks through it) or solid, and its layers.
#[derive(Clone, Copy, PartialEq, Eq, Debug, Structural)]
pub struct SensorSetup {
    pub kind: MapSensor,
    pub sensor: bool,
    pub layers: CollisionLayerBits,
}

/// The sensor of kind `kind`, which only the player notices.
pub open spec fn spec_sensor(kind: MapSensor) -> SensorSetup {
    SensorSetup { kind, sensor: true, layers: dialog_sensor_layer_spec() }
}

/// The layers of the dialog sensors.
pub open spec fn dialog_sensor_layer_spec() -> CollisionLayerBits {
    CollisionLayerBits { memberships: 0b000000100, filters: 0b000000100 }
}

/// The set-up of a collider made for the map, if its parent object (when it
/// has one) carries the marker of `kind`; only in the shooter.
fn sensor_for(state: AppState, parent_marked: bool, kind: MapSensor) -> (r: Option<SensorSetup>)
    ensures
        r == (if state == AppState::Miami && parent_marked { Some(spec_sensor(kind)) } else { None }),
{
    if state != AppState::Miami || !parent_marked {
        return None;
    }
    Some(SensorSetup { kind, sensor: true, layers: dialog_sensor_layer() })
}

/// A collider of the map whose parent is marked as the first dialog's
/// trigger becomes that sensor; walking into it starts the dialog.
pub fn on_entrypoint_dialog_spawned(state: AppState, parent_marked: bool) -> (r: Option<SensorSetup>)
    ensures
        r == (if state == AppState::Miami && parent_marked { Some(spec_sensor(MapSensor::EntrypointDialog)) } else { None }),
{
    sensor_for(state, parent_marked, MapSensor::EntrypointDialog)
}

/// A collider of the map whose parent is marked as the boss room's
/// entrance becomes that sensor.
pub fn on_boss_entrypoint_spawned(state: AppState, parent_marked: bool) -> (r: Option<SensorSetup>)
    ensures
        r == (if state == AppState::Miami && parent_marked { Some(spec_sensor(MapSensor::BossEntrypoint)) } else { None }),
{
    sensor_for(state, parent_marked, MapSensor::BossEntrypoint)
}

/// A collider of the map whose parent is marked as the boss's dialog
/// trigger becomes that sensor; walking into it starts the dialog.
pub fn on_boss_dialog_spawned(state: AppState, parent_marked: bool) -> (r: Option<SensorSetup>)
    ensures
        r == (if state == AppState::Miami && parent_marked { Some(spec_sensor(MapSensor::BossDialog)) } else { None }),
{
    sensor_for(state, parent_marked, MapSensor::BossDialog)
}

/// The boss room's entrance once the fight begins: no longer a sensor but
/// a wall, with the same layers.
pub open spec fn spec_bossroom_wall() -> SensorSetup {
    SensorSetup { kind: MapSensor::BossEntrypoint, sensor: false, layers: dialog_sensor_layer_spec() }
}

/// Close the boss room: each of its entrance colliders (given by entity
/// bits) becomes a wall, in the same order.
pub fn block_bossroom(entrances: &Vec<u64>) -> (r: Vec<(u64, SensorSetup)>)
    ensures
        r@.len() == entrances@.len(),
        forall|i: int| 0 <= i < entrances@.len() ==> #[trigger] r@[i] == (entrances@[i], spec_bossroom_wall()),
{
    let mut r: Vec<(u64, SensorSetup)> = Vec::new();
    let mut i: usize = 0;
    while i < entrances.len()
        invariant
            i <= entrances@.len(),
            r@.len() == i,
            forall|k: int| 0 <= k < i ==> #[trigger] r@[k] == (entrances@[k], spec_bossroom_wall()),
        decreases entrances@.len() - i,
    {
        r.push((entrances[i], SensorSetup { kind: MapSensor::BossEntrypoint, sensor: false, layers: dialog_sensor_layer() }));
        i = i + 1;
    }
    r
}

} // verus!
