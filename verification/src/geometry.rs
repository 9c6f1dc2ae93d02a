//! The gravity-flipping runner: a cube that belongs to the yellow or the
//! white half of the level and flips to the other half at the flip pads.
use vstd::prelude::*;
use crate::layers::CollisionLayerBits;
use crate::text::str_eq;

verus! {

/// The directions the cube feels in.
#[derive(Clone, Copy, PartialEq, Eq, Debug, Structural)]
pub enum CastDir {
    X,
    Y,
    NEGX,
    NEGY,
}

/// The collision group of the cube and the untouched parts of the level.
pub const GD_DEFAULT: u32 = 1;
/// The yellow half of the level.
pub const GD_YELLOW: u32 = 2;
/// The white half of the level.
pub const GD_WHITE: u32 = 4;
/// The flip pads.
pub const GD_ABOBA: u32 = 8;
/// The finish.
pub const GD_END: u32 = 16;

/// The kinds of blocks of the level.
#[derive(Clone, Copy, PartialEq, Eq, Debug, Structural)]
pub enum GdBlock {
    Yellow,
    White,
    Aboba,
    End,
}

/// The cube's layers at the start: it collides with the yellow half, the
/// pads and the finish.
pub fn gd_player_layers() -> (r: CollisionLayerBits)
    ensures
        r == (CollisionLayerBits { memberships: GD_DEFAULT, filters: GD_YELLOW | GD_ABOBA | GD_END }),
{
    CollisionLayerBits::from_bits(GD_DEFAULT, GD_YELLOW | GD_ABOBA | GD_END)
}

/// The block made from a collider of the tile layer named `layer_name`
/// while the game is in `state`; outside the geometry game nothing is made.
pub fn on_collider_spawned(state: crate::states::AppState, layer_name: &str) -> (r: Option<(GdBlock, CollisionLayerBits)>)
    ensures
        state != crate::states::AppState::Geometry ==> r is None,
        state == crate::states::AppState::Geometry && (layer_name@ == "yellow_front"@ || layer_name@ == "yellow_back"@) ==> r == Some(
            (GdBlock::Yellow, CollisionLayerBits { memberships: GD_YELLOW, filters: GD_YELLOW | GD_DEFAULT }),
        ),
        state == crate::states::AppState::Geometry && (layer_name@ == "white_front"@ || layer_name@ == "white_back"@) ==> r == Some(
            (GdBlock::White, CollisionLayerBits { memberships: GD_WHITE, filters: GD_WHITE | GD_DEFAULT }),
        ),
        state == crate::states::AppState::Geometry && (layer_name@ == "white_aboba"@ || layer_name@ == "yellow_aboba"@) ==> r == Some(
            (GdBlock::Aboba, CollisionLayerBits { memberships: GD_ABOBA, filters: GD_DEFAULT }),
        ),
        state == crate::states::AppState::Geometry && layer_name@ == "white_end"@ ==> r == Some((GdBlock::End, CollisionLayerBits { memberships: GD_END, filters: GD_DEFAULT })),
        !(layer_name@ == "yellow_front"@ || layer_name@ == "yellow_back"@ || layer_name@ == "white_front"@
            || layer_name@ == "white_back"@ || layer_name@ == "white_aboba"@ || layer_name@ == "yellow_aboba"@
            || layer_name@ == "white_end"@) ==> r is None,
{
    if state != crate::states::AppState::Geometry {
        return None;
    }
    proof {
        reveal_strlit("yellow_front");
        reveal_strlit("yellow_back");
        reveal_strlit("white_front");
        reveal_strlit("white_back");
        reveal_strlit("white_aboba");
        reveal_strlit("yellow_aboba");
        reveal_strlit("white_end");
        assert("yellow_front"@[0] == 'y' && "yellow_back"@[0] == 'y' && "yellow_aboba"@[0] == 'y');
        assert("white_front"@[0] == 'w' && "white_back"@[0] == 'w' && "white_aboba"@[0] == 'w' && "white_end"@[0] == 'w');
        assert("yellow_front"@[7] != "yellow_aboba"@[7]);
        assert("white_front"@[6] != "white_aboba"@[6]);
        assert("white_end"@.len() == 9 && "white_back"@.len() == 10 && "white_front"@.len() == 11);
    }
    if str_eq(layer_name, "yellow_front") || str_eq(layer_name, "yellow_back") {
        return Some((GdBlock::Yellow, CollisionLayerBits::from_bits(GD_YELLOW, GD_YELLOW | GD_DEFAULT)));
    }
    if str_eq(layer_name, "white_front") || str_eq(layer_name, "white_back") {
        return Some((GdBlock::White, CollisionLayerBits::from_bits(GD_WHITE, GD_WHITE | GD_DEFAULT)));
    }
    if str_eq(layer_name, "white_aboba") || str_eq(layer_name, "yellow_aboba") {
        return Some((GdBlock::Aboba, CollisionLayerBits::from_bits(GD_ABOBA, GD_DEFAULT)));
    }
    if str_eq(layer_name, "white_end") {
        return Some((GdBlock::End, CollisionLayerBits::from_bits(GD_END, GD_DEFAULT)));
    }
    None
}

/// What the collisions of a frame mean for the cube.
#[derive(Clone, Copy, PartialEq, Eq, Debug, Structural)]
pub enum GdCollision {
    /// The cube reached the finish.
    Win,
    /// The cube touched a flip pad.
    Flip,
    /// Nothing of note.
    Nothing,
}

/// The first collision with a pad or the finish decides, looking at the
/// second collider of each collision in order.
pub open spec fn spec_gd_collisions(others: Seq<Option<GdBlock>>) -> GdCollision
    decreases others.len(),
{
    if others.len() == 0 {
        GdCollision::Nothing
    } else if others[0] == Some(GdBlock::Aboba) {
        GdCollision::Flip
    } else if others[0] == Some(GdBlock::End) {
        GdCollision::Win
    } else {
        spec_gd_collisions(others.drop_first())
    }
}

/// Whether touching `b` decides the frame: a flip pad or the finish.
pub open spec fn is_pad_or_finish(b: Option<GdBlock>) -> bool {
    b == Some(GdBlock::Aboba) || b == Some(GdBlock::End)
}

/// The first pad or finish the cube touched in a frame decides it: when
/// the `k`-th collision is the first with a pad or the finish, the frame is
/// won if it is the finish and the cube flips if it is a flip pad, whatever
/// comes after.
pub proof fn lemma_first_pad_or_finish_decides(others: Seq<Option<GdBlock>>, k: int)
    requires
        0 <= k < others.len(),
        is_pad_or_finish(others[k]),
        forall|j: int| 0 <= j < k ==> !is_pad_or_finish(#[trigger] others[j]),
    ensures
        others[k] == Some(GdBlock::End) ==> spec_gd_collisions(others) == GdCollision::Win,
        others[k] == Some(GdBlock::Aboba) ==> spec_gd_collisions(others) == GdCollision::Flip,
    decreases others.len(),
{
    if k > 0 {
        let rest = others.drop_first();
        assert(!is_pad_or_finish(others[0]));
        assert(rest[k - 1] == others[k]);
        assert forall|j: int| 0 <= j < k - 1 implies !is_pad_or_finish(#[trigger] rest[j]) by {
            assert(rest[j] == others[j + 1]);
        }
        lemma_first_pad_or_finish_decides(rest, k - 1);
    }
}

/// A frame in which the cube touched neither a pad nor the finish changes
/// nothing.
pub proof fn lemma_no_pad_no_finish(others: Seq<Option<GdBlock>>)
    requires
        forall|j: int| 0 <= j < others.len() ==> !is_pad_or_finish(#[trigger] others[j]),
    ensures
        spec_gd_collisions(others) == GdCollision::Nothing,
    decreases others.len(),
{
    if others.len() > 0 {
        let rest = others.drop_first();
        assert(!is_pad_or_finish(others[0]));
        assert forall|j: int| 0 <= j < rest.len() implies !is_pad_or_finish(#[trigger] rest[j]) by {
            assert(rest[j] == others[j + 1]);
        }
        lemma_no_pad_no_finish(rest);
    }
}

/// Judge the collisions of a frame, each given by the block the cube hit,
/// if it is one.
pub fn gd_collisions(others: &Vec<Option<GdBlock>>) -> (r: GdCollision)
    ensures
        r == spec_gd_collisions(others@),
{
    let mut i: usize = 0;
    assert(others@.skip(0) =~= others@);
    while i < others.len()
        invariant
            i <= others@.len(),
            spec_gd_collisions(others@) == spec_gd_collisions(others@.skip(i as int)),
        decreases others@.len() - i,
    {
        assert(others@.skip(i as int)[0] == others@[i as int]);
        assert(others@.skip(i as int).drop_first() =~= others@.skip(i as int + 1));
        if others[i] == Some(GdBlock::Aboba) {
            return GdCollision::Flip;
        }
        if others[i] == Some(GdBlock::End) {
            return GdCollision::Win;
        }
        i = i + 1;
    }
    assert(others@.skip(i as int).len() == 0);
    GdCollision::Nothing
}

/// The cube after it touches a flip pad.
#[derive(Clone, Copy, PartialEq, Eq, Debug, Structural)]
pub struct AbobaFlip {
    /// The groups the cube now collides with.
    pub filters: u32,
    /// The groups its feelers now look for.
    pub caster_mask: u32,
    /// Whether the cube now runs to the left.
    pub is_left: bool,
    /// How far the cube drops, in pixels: six tiles.
    pub drop_px: u32,
}

/// A flip: the cube turns around, drops six tiles and moves to the other
/// half of the level; its feelers follow it, though on the way back to
/// yellow they no longer look for the finish.
pub fn aboba_flip(filters: u32, is_left: bool) -> (r: AbobaFlip)
    ensures
        r.is_left == !is_left,
        r.drop_px == 96,
        r.filters == spec_flip_filters(filters),
        filters == (GD_YELLOW | GD_ABOBA | GD_END) ==> r.filters == (GD_WHITE | GD_ABOBA | GD_END) && r.caster_mask == (GD_WHITE
            | GD_ABOBA | GD_END),
        filters != (GD_YELLOW | GD_ABOBA | GD_END) ==> r.filters == (GD_YELLOW | GD_ABOBA | GD_END) && r.caster_mask == (GD_YELLOW
            | GD_ABOBA),
{
    if filters == GD_YELLOW | GD_ABOBA | GD_END {
        AbobaFlip { filters: GD_WHITE | GD_ABOBA | GD_END, caster_mask: GD_WHITE | GD_ABOBA | GD_END, is_left: !is_left, drop_px: 96 }
    } else {
        AbobaFlip { filters: GD_YELLOW | GD_ABOBA | GD_END, caster_mask: GD_YELLOW | GD_ABOBA, is_left: !is_left, drop_px: 96 }
    }
}

/// The groups the cube collides with after a flip from `filters`.
pub open spec fn spec_flip_filters(filters: u32) -> u32 {
    if filters == (GD_YELLOW | GD_ABOBA | GD_END) {
        GD_WHITE | GD_ABOBA | GD_END
    } else {
        GD_YELLOW | GD_ABOBA | GD_END
    }
}

/// Two flips bring the cube back to the half of the level it was in, and
/// in either half it still collides with the pads and the finish.
pub proof fn lemma_flip_twice(filters: u32)
    requires
        filters == (GD_YELLOW | GD_ABOBA | GD_END) || filters == (GD_WHITE | GD_ABOBA | GD_END),
    ensures
        spec_flip_filters(spec_flip_filters(filters)) == filters,
        spec_flip_filters(filters) & GD_ABOBA != 0,
        spec_flip_filters(filters) & GD_END != 0,
{
    assert((GD_YELLOW | GD_ABOBA | GD_END) == 26u32) by (bit_vector);
    assert((GD_WHITE | GD_ABOBA | GD_END) == 28u32) by (bit_vector);
    assert(26u32 & 8u32 != 0 && 26u32 & 16u32 != 0 && 28u32 & 8u32 != 0 && 28u32 & 16u32 != 0) by (bit_vector);
}

/// Marks the player's cube.
#[derive(Clone, Copy, PartialEq, Eq, Debug, Default, Structural)]
pub struct Cube;

/// Marks where the cube appears.
#[derive(Clone, Copy, PartialEq, Eq, Debug, Default, Structural)]
pub struct SpawnPoint;

/// Marks where the camera looks.
#[derive(Clone, Copy, PartialEq, Eq, Debug, Default, Structural)]
pub struct CameraCenter;

/// The cube's entity bits, once it is made.
#[derive(Clone, Copy, PartialEq, Eq, Debug, Structural)]
pub struct PlayerEntity {
    pub entity: Option<u64>,
}

/// Whether the cube runs to the left.
#[derive(Clone, Copy, PartialEq, Eq, Debug, Structural)]
pub struct IsLeft {
    pub is: bool,
}

/// The runner at its start: no cube yet, and it will run to the right.
pub fn setup() -> (r: (PlayerEntity, IsLeft))
    ensures
        r.0.entity is None,
        !r.1.is,
{
    (PlayerEntity { entity: None }, IsLeft { is: false })
}

/// How the cube is made at its spawn point: a square of `size` pixels cut
/// from a strip of `atlas_rows` frames, not pulled by gravity, with four
/// feelers (right, left, up, down), each a slightly smaller square that
/// reports its first hit within `caster_distance` pixels among the groups
/// of `caster_mask`; the camera zooms out to `camera_scale`.
#[derive(Clone, Copy, Debug)]
pub struct CubeSpawn {
    pub layers: CollisionLayerBits,
    pub size: u32,
    pub atlas_rows: u32,
    pub gravity_scale: u32,
    pub casters: [CastDir; 4],
    pub caster_mask: u32,
    pub caster_distance: u32,
    pub caster_max_hits: u32,
    pub caster_scale_percent: u32,
    pub camera_scale: u32,
}

/// The cube made at the spawn point.
pub fn spawnpoint_handler() -> (r: CubeSpawn)
    ensures
        r.layers == (CollisionLayerBits { memberships: GD_DEFAULT, filters: GD_YELLOW | GD_ABOBA | GD_END }),
        r.size == 16,
        r.atlas_rows == 6,
        r.gravity_scale == 0,
        r.casters@ == seq![CastDir::X, CastDir::NEGX, CastDir::Y, CastDir::NEGY],
        r.caster_mask == GD_YELLOW | GD_ABOBA | GD_END,
        r.caster_distance == 10,
        r.caster_max_hits == 1,
        r.caster_scale_percent == 95,
        r.camera_scale == 2,
{
    CubeSpawn {
        layers: gd_player_layers(),
        size: 16,
        atlas_rows: 6,
        gravity_scale: 0,
        casters: [CastDir::X, CastDir::NEGX, CastDir::Y, CastDir::NEGY],
        caster_mask: GD_YELLOW | GD_ABOBA | GD_END,
        caster_distance: 10,
        caster_max_hits: 1,
        caster_scale_percent: 95,
        camera_scale: 2,
    }
}

/// The upward speed of a jump, in pixels per second.
pub const GD_JUMP_SPEED: u32 = 160;

/// The cube's sideways speed, in pixels per second.
pub const GD_RUN_SPEED: i32 = 0;

/// What the cube remembers between frames about its jumps: whether it has
/// just jumped, and whether it is in the air after a jump.
#[derive(Clone, Copy, PartialEq, Eq, Debug, Structural)]
pub struct GdAir {
    pub just_jumped: bool,
    pub in_air: bool,
}

/// The cube's moves in one frame.
#[derive(Clone, Copy, PartialEq, Eq, Debug, Structural)]
pub struct GdControl {
    /// It jumps: its upward speed becomes the jump speed.
    pub jump: bool,
    /// Its sideways speed.
    pub velocity_x: i32,
    /// It spins, being off the ground.
    pub spin: bool,
    /// Its rotation snaps to the nearest quarter turn, being on the ground.
    pub snap: bool,
    /// It lands after a jump.
    pub landed: bool,
    /// What it remembers for the next frame.
    pub air: GdAir,
}

/// The cube's moves in a frame, from whether it stands on the ground,
/// whether Space is held, what it remembers and where it runs: it jumps
/// from the ground; once off the ground after a jump it is in the air
/// until it lands; it spins while off the ground.
pub fn controller(on_ground: bool, jump_pressed: bool, air: GdAir, is_left: bool) -> (r: GdControl)
    ensures
        r.jump == (jump_pressed && on_ground),
        r.velocity_x == (if is_left { -GD_RUN_SPEED } else { GD_RUN_SPEED as int }),
        r.spin == !on_ground,
        r.snap == on_ground,
        r.landed == (on_ground && air.in_air),
        r.air.just_jumped == (if on_ground { jump_pressed || air.just_jumped } else { false }),
        r.air.in_air == (if on_ground { false } else { air.just_jumped || air.in_air }),
{
    let mut in_air = air.in_air;
    let mut just_jumped = air.just_jumped;
    let mut landed = false;
    if on_ground && in_air {
        landed = true;
        in_air = false;
    }
    let velocity_x = if !is_left { GD_RUN_SPEED } else { -GD_RUN_SPEED };
    let jump = jump_pressed && on_ground;
    if jump {
        just_jumped = true;
    }
    if !on_ground && just_jumped {
        just_jumped = false;
        in_air = true;
    }
    GdControl { jump, velocity_x, spin: !on_ground, snap: on_ground, landed, air: GdAir { just_jumped, in_air } }
}

/// How long the cube lies broken before the game is lost, in milliseconds.
pub const DEATH_DELAY: u64 = 1000;

/// The cube broken for `t_ms` milliseconds: after a second a screenshot is
/// asked for (one at a time) and the defeat screen follows. Returns the
/// game to go to and whether the screenshot is taken now.
pub fn tick_defeat<H>(t_ms: u64, shot: &mut crate::states::LastScreenshot<H>) -> (r: (Option<crate::states::AppState>, bool))
    ensures
        t_ms < DEATH_DELAY ==> r == (None::<crate::states::AppState>, false) && *final(shot) == *old(shot),
        t_ms >= DEATH_DELAY ==> r == (Some(crate::states::AppState::Defeat), !old(shot).awaiting)
            && *final(shot) == crate::states::spec_requested(*old(shot)),
{
    if t_ms < DEATH_DELAY {
        return (None, false);
    }
    let asked = shot.request();
    (Some(crate::states::AppState::Defeat), asked)
}

/// The runner won: the platformer follows.
pub fn tick_win() -> (r: crate::states::AppState)
    ensures
        r == crate::states::AppState::Platformer,
{
    crate::states::AppState::Platformer
}

} // verus!
