//! The colour-switching platformer: the player belongs to the yellow or the
//! white world and only collides with the tiles of its own colour; a frog
//! crawls around the walls and a toaster-rhino patrols a ledge.
use vstd::prelude::*;
use crate::layers::{CollisionLayerBits, spec_interacts};
use crate::palette::Rgba8;
use crate::text::str_eq;

verus! {

/// The player while it belongs to the yellow world.
pub fn platformer_player_yellow_layer() -> (r: CollisionLayerBits)
    ensures
        r == (CollisionLayerBits { memberships: 0b0100111, filters: 0b0100111 }),
{
    CollisionLayerBits::from_bits(0b0100111, 0b0100111)
}

/// The player while it belongs to the white world.
pub fn platformer_player_white_layer() -> (r: CollisionLayerBits)
    ensures
        r == (CollisionLayerBits { memberships: 0b0010111, filters: 0b0010111 }),
{
    CollisionLayerBits::from_bits(0b0010111, 0b0010111)
}

/// The enemies.
pub fn platformer_enemy_layer() -> (r: CollisionLayerBits)
    ensures
        r == (CollisionLayerBits { memberships: 0b0001001, filters: 0b0001001 }),
{
    CollisionLayerBits::from_bits(0b0001001, 0b0001001)
}

/// The rays the enemies cast to feel the walls of both worlds.
pub fn platformer_raycast_layer() -> (r: CollisionLayerBits)
    ensures
        r == (CollisionLayerBits { memberships: 0b0000000, filters: 0b0110000 }),
{
    CollisionLayerBits::from_bits(0b0000000, 0b0110000)
}

/// The tiles of the yellow world.
pub fn platformer_yellow_layer() -> (r: CollisionLayerBits)
    ensures
        r == (CollisionLayerBits { memberships: 0b0100000, filters: 0b0100000 }),
{
    CollisionLayerBits::from_bits(0b0100000, 0b0100000)
}

/// The tiles of the white world.
pub fn platformer_white_layer() -> (r: CollisionLayerBits)
    ensures
        r == (CollisionLayerBits { memberships: 0b0010000, filters: 0b0010000 }),
{
    CollisionLayerBits::from_bits(0b0010000, 0b0010000)
}

/// The tint of the player in the yellow world.
pub fn player_color_yellow() -> (r: Rgba8)
    ensures
        r == (Rgba8 { r: 255, g: 185, b: 0, a: 255 }),
{
    Rgba8::rgba_u8(255, 185, 0, 255)
}

/// The tint of the player in the white world.
pub fn player_color_white() -> (r: Rgba8)
    ensures
        r == (Rgba8 { r: 255, g: 255, b: 255, a: 255 }),
{
    Rgba8::rgba_u8(255, 255, 255, 255)
}

/// The two worlds a tile layer of the map belongs to.
#[derive(Clone, Copy, PartialEq, Eq, Debug, Structural)]
pub enum PlatformerSwitchableLayer {
    Yellow,
    White,
}

impl Default for PlatformerSwitchableLayer {
    fn default() -> (r: Self)
        ensures
            r == PlatformerSwitchableLayer::Yellow,
    {
        PlatformerSwitchableLayer::Yellow
    }
}

/// The effect of a world switch.
#[derive(Clone, Copy, PartialEq, Eq, Debug, Structural)]
pub struct SwapOutcome {
    /// The player's new collision layers.
    pub layer: CollisionLayerBits,
    /// The player's new tint.
    pub color: Rgba8,
    /// The groups the switch sensor looks for: the tiles of the other world.
    pub switch_caster_mask: u32,
    /// The groups the player's ground probe looks for.
    pub player_caster_mask: u32,
    /// Whether the yellow tiles are shown (and the white hidden).
    pub show_yellow: bool,
    /// Whether the player carries the yellow-world marker afterwards.
    pub on_yellow_after: bool,
}

/// The outcome of a switch from a player that carries the yellow-world
/// marker exactly when `on_yellow` holds.
pub open spec fn spec_swap(on_yellow: bool) -> SwapOutcome {
    if on_yellow {
        SwapOutcome {
            layer: CollisionLayerBits { memberships: 0b0100111, filters: 0b0100111 },
            color: Rgba8 { r: 255, g: 185, b: 0, a: 255 },
            switch_caster_mask: 0b0010000,
            player_caster_mask: 0b0100001,
            show_yellow: true,
            on_yellow_after: false,
        }
    } else {
        SwapOutcome {
            layer: CollisionLayerBits { memberships: 0b0010111, filters: 0b0010111 },
            color: Rgba8 { r: 255, g: 255, b: 255, a: 255 },
            switch_caster_mask: 0b0100000,
            player_caster_mask: 0b0010001,
            show_yellow: false,
            on_yellow_after: true,
        }
    }
}

/// Switch the player between the worlds when Q is pressed, unless the
/// switch sensor touches a tile of the other world (the player would end up
/// inside it).
pub fn swap(q_pressed: bool, blocked: bool, on_yellow: bool) -> (r: Option<SwapOutcome>)
    ensures
        !q_pressed || blocked ==> r is None,
        q_pressed && !blocked ==> r == Some(spec_swap(on_yellow)),
{
    if !q_pressed {
        return None;
    }
    if blocked {
        return None;
    }
    let layer = if on_yellow {
        platformer_player_yellow_layer()
    } else {
        platformer_player_white_layer()
    };
    let opposite_layer = if on_yellow {
        platformer_player_white_layer()
    } else {
        platformer_player_yellow_layer()
    };
    let color = if on_yellow {
        player_color_yellow()
    } else {
        player_color_white()
    };
    let switch_caster_mask = opposite_layer.filters & 0b110000;
    let player_caster_mask = layer.filters & 0b110001;
    assert(0b0010111u32 & 0b110000u32 == 0b0010000u32) by (bit_vector);
    assert(0b0100111u32 & 0b110000u32 == 0b0100000u32) by (bit_vector);
    assert(0b0100111u32 & 0b110001u32 == 0b0100001u32) by (bit_vector);
    assert(0b0010111u32 & 0b110001u32 == 0b0010001u32) by (bit_vector);
    Some(SwapOutcome {
        layer,
        color,
        switch_caster_mask,
        player_caster_mask,
        show_yellow: on_yellow,
        on_yellow_after: !on_yellow,
    })
}

/// Whether a tile layer of `layer`'s world is shown after a switch that
/// shows the yellow world exactly when `show_yellow` holds.
pub fn layer_visible(layer: PlatformerSwitchableLayer, show_yellow: bool) -> (r: bool)
    ensures
        r == ((layer == PlatformerSwitchableLayer::Yellow) == show_yellow),
{
    (layer == PlatformerSwitchableLayer::Yellow) == show_yellow
}

/// Two switches in a row bring the player back to where it was, and after
/// any switch the player collides with the tiles that are shown and passes
/// through the hidden ones, while its switch sensor feels the hidden ones.
pub proof fn lemma_swap_consistent(on_yellow: bool)
    ensures
        spec_swap(spec_swap(on_yellow).on_yellow_after).on_yellow_after == on_yellow,
        spec_swap(spec_swap(on_yellow).on_yellow_after).layer == (if on_yellow {
            CollisionLayerBits { memberships: 0b0010111, filters: 0b0010111 }
        } else {
            CollisionLayerBits { memberships: 0b0100111, filters: 0b0100111 }
        }),
        spec_swap(on_yellow).show_yellow ==> {
            &&& spec_interacts(spec_swap(on_yellow).layer, CollisionLayerBits { memberships: 0b0100000, filters: 0b0100000 })
            &&& !spec_interacts(spec_swap(on_yellow).layer, CollisionLayerBits { memberships: 0b0010000, filters: 0b0010000 })
            &&& spec_swap(on_yellow).switch_caster_mask == 0b0010000
        },
        !spec_swap(on_yellow).show_yellow ==> {
            &&& spec_interacts(spec_swap(on_yellow).layer, CollisionLayerBits { memberships: 0b0010000, filters: 0b0010000 })
            &&& !spec_interacts(spec_swap(on_yellow).layer, CollisionLayerBits { memberships: 0b0100000, filters: 0b0100000 })
            &&& spec_swap(on_yellow).switch_caster_mask == 0b0100000
        },
{
    assert(0b0100111u32 & 0b0100000u32 != 0u32) by (bit_vector);
    assert(0b0100000u32 & 0b0100111u32 != 0u32) by (bit_vector);
    assert(0b0100111u32 & 0b0010000u32 == 0u32) by (bit_vector);
    assert(0b0010111u32 & 0b0010000u32 != 0u32) by (bit_vector);
    assert(0b0010000u32 & 0b0010111u32 != 0u32) by (bit_vector);
    assert(0b0010111u32 & 0b0100000u32 == 0u32) by (bit_vector);
}

/// The enemies collide with the player in either world, and the enemies'
/// feelers touch the tiles of both worlds but not the player.
pub proof fn lemma_enemies_reach_player()
    ensures
        spec_interacts(
            CollisionLayerBits { memberships: 0b0001001, filters: 0b0001001 },
            CollisionLayerBits { memberships: 0b0100111, filters: 0b0100111 },
        ),
        spec_interacts(
            CollisionLayerBits { memberships: 0b0001001, filters: 0b0001001 },
            CollisionLayerBits { memberships: 0b0010111, filters: 0b0010111 },
        ),
        (0b0110000u32 & 0b0100000u32) != 0 && (0b0110000u32 & 0b0010000u32) != 0,
        (0b0110000u32 & 0b0100111u32) & 0b0001111u32 == 0,
{
    assert(0b0001001u32 & 0b0100111u32 != 0u32) by (bit_vector);
    assert(0b0100111u32 & 0b0001001u32 != 0u32) by (bit_vector);
    assert(0b0001001u32 & 0b0010111u32 != 0u32) by (bit_vector);
    assert(0b0010111u32 & 0b0001001u32 != 0u32) by (bit_vector);
    assert((0b0110000u32 & 0b0100000u32) != 0 && (0b0110000u32 & 0b0010000u32) != 0) by (bit_vector);
    assert((0b0110000u32 & 0b0100111u32) & 0b0001111u32 == 0) by (bit_vector);
}

/// How a collider of the map is set up, from the name of its tile layer:
/// a yellow-world tile, or a white-world tile whose layer starts hidden.
#[derive(Clone, Copy, PartialEq, Eq, Debug, Structural)]
pub struct TileColliderSetup {
    pub layer: CollisionLayerBits,
    pub hide_layer: bool,
}

/// The setup of a collider made from the tile layer named `layer_name`
/// while the game is in `state`: in the platformer, the "yellow" layer
/// gives yellow-world tiles, the "white" layer gives white-world tiles
/// hidden at first, and other layers are left alone; in any other state
/// nothing is set up.
pub fn on_collider_spawned(state: crate::states::AppState, layer_name: &str) -> (r: Option<TileColliderSetup>)
    ensures
        state != crate::states::AppState::Platformer ==> r is None,
        state == crate::states::AppState::Platformer && layer_name@ == "yellow"@ ==> r == Some(TileColliderSetup {
            layer: CollisionLayerBits { memberships: 0b0100000, filters: 0b0100000 },
            hide_layer: false,
        }),
        state == crate::states::AppState::Platformer && layer_name@ == "white"@ ==> r == Some(TileColliderSetup {
            layer: CollisionLayerBits { memberships: 0b0010000, filters: 0b0010000 },
            hide_layer: true,
        }),
        layer_name@ != "yellow"@ && layer_name@ != "white"@ ==> r is None,
{
    if state != crate::states::AppState::Platformer {
        return None;
    }
    proof {
        reveal_strlit("yellow");
        reveal_strlit("white");
        assert("yellow"@[0] != "white"@[0]);
    }
    let yellow = if str_eq(layer_name, "yellow") {
        true
    } else if str_eq(layer_name, "white") {
        false
    } else {
        return None;
    };
    let layer = if yellow {
        platformer_yellow_layer()
    } else {
        platformer_white_layer()
    };
    Some(TileColliderSetup { layer, hide_layer: !yellow })
}


/// The directions in which the frog feels for walls, and in which it moves.
#[derive(Clone, Copy, PartialEq, Eq, Debug, Structural)]
pub enum FrogCastDir {
    Right,
    Left,
    Top,
    Bottom,
    TopLeft,
    TopRight,
    BottomLeft,
    BottomRight,
}

/// One of the four axis directions.
pub open spec fn is_straight(d: FrogCastDir) -> bool {
    d == FrogCastDir::Right || d == FrogCastDir::Left || d == FrogCastDir::Top || d == FrogCastDir::Bottom
}

/// The unit vector of a direction, with y pointing up.
pub open spec fn dir_vec(d: FrogCastDir) -> (int, int) {
    match d {
        FrogCastDir::Right => (1, 0),
        FrogCastDir::Left => (-1, 0),
        FrogCastDir::Top => (0, 1),
        FrogCastDir::Bottom => (0, -1),
        FrogCastDir::TopLeft => (-1, 1),
        FrogCastDir::TopRight => (1, 1),
        FrogCastDir::BottomLeft => (-1, -1),
        FrogCastDir::BottomRight => (1, -1),
    }
}

/// The opposite of an axis direction.
pub open spec fn spec_inverse(d: FrogCastDir) -> FrogCastDir {
    match d {
        FrogCastDir::Bottom => FrogCastDir::Top,
        FrogCastDir::Top => FrogCastDir::Bottom,
        FrogCastDir::Left => FrogCastDir::Right,
        _ => FrogCastDir::Left,
    }
}

/// The axis direction whose unit vector is `v`, if there is one.
pub open spec fn axis_of(v: (int, int)) -> Option<FrogCastDir> {
    if v == (1int, 0int) {
        Some(FrogCastDir::Right)
    } else if v == (-1int, 0int) {
        Some(FrogCastDir::Left)
    } else if v == (0int, 1int) {
        Some(FrogCastDir::Top)
    } else if v == (0int, -1int) {
        Some(FrogCastDir::Bottom)
    } else {
        None
    }
}

/// The direction the frog takes when only the diagonal feeler `diag` hits
/// while it moves along `current`: the sum of the two unit vectors, when
/// that is an axis direction, and `current` otherwise.
pub open spec fn spec_orange(diag: FrogCastDir, current: FrogCastDir) -> FrogCastDir {
    let s = (dir_vec(diag).0 + dir_vec(current).0, dir_vec(diag).1 + dir_vec(current).1);
    match axis_of(s) {
        Some(d) => d,
        None => current,
    }
}

impl FrogCastDir {
    /// The opposite direction; only axis directions have one here.
    pub fn inverse(&self) -> (r: Self)
        requires
            is_straight(*self),
        ensures
            r == spec_inverse(*self),
            dir_vec(r) == (-dir_vec(*self).0, -dir_vec(*self).1),
    {
        match self {
            FrogCastDir::Bottom => FrogCastDir::Top,
            FrogCastDir::Top => FrogCastDir::Bottom,
            FrogCastDir::Left => FrogCastDir::Right,
            _ => FrogCastDir::Left,
        }
    }

    /// The new direction of a frog moving along `current` when only this
    /// diagonal feeler touches a wall: it turns around the corner when the
    /// wall lies ahead on its side, and keeps going otherwise.
    pub fn handle_orange_case(&self, current_dir: FrogCastDir) -> (r: Self)
        requires
            !is_straight(*self),
            is_straight(current_dir),
        ensures
            r == spec_orange(*self, current_dir),
            is_straight(r),
    {
        let (mut mx, mut my): (i32, i32) = match self {
            FrogCastDir::TopRight => (1, 1),
            FrogCastDir::TopLeft => (-1, 1),
            FrogCastDir::BottomRight => (1, -1),
            _ => (-1, -1),
        };
        match current_dir {
            FrogCastDir::Bottom => { my = my - 1; },
            FrogCastDir::Top => { my = my + 1; },
            FrogCastDir::Left => { mx = mx - 1; },
            _ => { mx = mx + 1; },
        }
        if mx == 1 && my == 0 {
            FrogCastDir::Right
        } else if mx == -1 && my == 0 {
            FrogCastDir::Left
        } else if mx == 0 && my == 1 {
            FrogCastDir::Top
        } else if mx == 0 && my == -1 {
            FrogCastDir::Bottom
        } else {
            current_dir
        }
    }
}

/// Which of the frog's eight feelers touch a wall.
#[derive(Clone, Copy, PartialEq, Eq, Debug, Structural)]
pub struct FrogHits {
    pub right: bool,
    pub left: bool,
    pub top: bool,
    pub bottom: bool,
    pub top_left: bool,
    pub top_right: bool,
    pub bottom_left: bool,
    pub bottom_right: bool,
}

/// Whether the feeler in direction `d` touches a wall.
pub open spec fn hit(h: FrogHits, d: FrogCastDir) -> bool {
    match d {
        FrogCastDir::Right => h.right,
        FrogCastDir::Left => h.left,
        FrogCastDir::Top => h.top,
        FrogCastDir::Bottom => h.bottom,
        FrogCastDir::TopLeft => h.top_left,
        FrogCastDir::TopRight => h.top_right,
        FrogCastDir::BottomLeft => h.bottom_left,
        FrogCastDir::BottomRight => h.bottom_right,
    }
}

/// 1 when `b` holds, else 0.
pub open spec fn count(b: bool) -> nat {
    if b { 1 } else { 0 }
}

/// How many axis feelers touch a wall.
pub open spec fn straight_hits(h: FrogHits) -> nat {
    count(h.right) + count(h.left) + count(h.top) + count(h.bottom)
}

/// How many diagonal feelers touch a wall.
pub open spec fn diagonal_hits(h: FrogHits) -> nat {
    count(h.top_left) + count(h.top_right) + count(h.bottom_left) + count(h.bottom_right)
}

/// Where the frog turns when exactly one axis feeler touches a wall: it
/// keeps the wall on its right-hand side.
pub open spec fn spec_turn(d: FrogCastDir) -> FrogCastDir {
    match d {
        FrogCastDir::Bottom => FrogCastDir::Left,
        FrogCastDir::Top => FrogCastDir::Right,
        FrogCastDir::Right => FrogCastDir::Bottom,
        _ => FrogCastDir::Top,
    }
}

/// The axis feeler that touches, when exactly one does.
pub open spec fn the_straight_hit(h: FrogHits) -> FrogCastDir {
    if h.bottom {
        FrogCastDir::Bottom
    } else if h.top {
        FrogCastDir::Top
    } else if h.right {
        FrogCastDir::Right
    } else {
        FrogCastDir::Left
    }
}

/// The axis feeler other than `current` that touches, when two do.
pub open spec fn other_straight_hit(h: FrogHits, current: FrogCastDir) -> FrogCastDir {
    if h.right && current != FrogCastDir::Right {
        FrogCastDir::Right
    } else if h.left && current != FrogCastDir::Left {
        FrogCastDir::Left
    } else if h.top && current != FrogCastDir::Top {
        FrogCastDir::Top
    } else {
        FrogCastDir::Bottom
    }
}

/// The diagonal feeler that touches, when exactly one does.
pub open spec fn the_diagonal_hit(h: FrogHits) -> FrogCastDir {
    if h.top_left {
        FrogCastDir::TopLeft
    } else if h.top_right {
        FrogCastDir::TopRight
    } else if h.bottom_left {
        FrogCastDir::BottomLeft
    } else {
        FrogCastDir::BottomRight
    }
}

/// The feeler picked by `the_straight_hit`, `other_straight_hit` and
/// `the_diagonal_hit` is indeed one that touches, and the only one of its
/// kind besides the current direction.
pub proof fn lemma_picked_hits(h: FrogHits, current: FrogCastDir)
    ensures
        straight_hits(h) == 1 ==> is_straight(the_straight_hit(h)) && hit(h, the_straight_hit(h))
            && forall|d: FrogCastDir| is_straight(d) && hit(h, d) ==> d == the_straight_hit(h),
        straight_hits(h) == 2 && is_straight(current) && hit(h, current) ==> {
            &&& is_straight(other_straight_hit(h, current))
            &&& other_straight_hit(h, current) != current
            &&& hit(h, other_straight_hit(h, current))
            &&& forall|d: FrogCastDir| is_straight(d) && hit(h, d) && d != current ==> d == other_straight_hit(h, current)
        },
        diagonal_hits(h) == 1 ==> !is_straight(the_diagonal_hit(h)) && hit(h, the_diagonal_hit(h))
            && forall|d: FrogCastDir| !is_straight(d) && hit(h, d) ==> d == the_diagonal_hit(h),
{
}

/// With a single axis feeler on a wall, the frog turns a quarter turn
/// clockwise from the direction of that wall: the wall it touched stays on
/// the same side of it. A wall below sends it left, a wall above right, a
/// wall on the right down and a wall on the left up.
pub proof fn lemma_frog_follows_wall(h: FrogHits, d: FrogCastDir)
    requires
        straight_hits(h) == 1,
        is_straight(d),
        hit(h, d),
    ensures
        dir_vec(spec_turn(the_straight_hit(h))).0 == dir_vec(d).1,
        dir_vec(spec_turn(the_straight_hit(h))).1 == -dir_vec(d).0,
        is_straight(spec_turn(the_straight_hit(h))),
{
    lemma_picked_hits(h, d);
}

/// The frog's next direction from its feelers and its current direction.
/// Diagonal feelers count only when no axis feeler touches. One axis hit
/// turns the frog; two axis hits, one of them ahead, send it away from the
/// other wall; more, or two without the one ahead, leave it undecided
/// (`None`). A lone diagonal hit is the outer-corner case. With no hit the
/// frog keeps going.
pub fn frog_next_dir(hits: &FrogHits, current: FrogCastDir) -> (r: Option<FrogCastDir>)
    requires
        straight_hits(*hits) == 0 && diagonal_hits(*hits) > 0 ==> diagonal_hits(*hits) == 1 && is_straight(current),
    ensures
        straight_hits(*hits) == 1 ==> r == Some(spec_turn(the_straight_hit(*hits))),
        straight_hits(*hits) == 2 ==> (if is_straight(current) && hit(*hits, current) {
            r == Some(spec_inverse(other_straight_hit(*hits, current)))
        } else {
            r is None
        }),
        straight_hits(*hits) > 2 ==> r is None,
        straight_hits(*hits) == 0 && diagonal_hits(*hits) == 1 ==> r == Some(spec_orange(the_diagonal_hit(*hits), current)),
        straight_hits(*hits) == 0 && diagonal_hits(*hits) == 0 ==> r == Some(current),
        is_straight(current) ==> (r matches Some(d) ==> is_straight(d)),
{
    let straight: u32 = (if hits.right { 1u32 } else { 0 }) + (if hits.left { 1u32 } else { 0 })
        + (if hits.top { 1u32 } else { 0 }) + (if hits.bottom { 1u32 } else { 0 });
    let diagonal: u32 = (if hits.top_left { 1u32 } else { 0 }) + (if hits.top_right { 1u32 } else { 0 })
        + (if hits.bottom_left { 1u32 } else { 0 }) + (if hits.bottom_right { 1u32 } else { 0 });
    if straight > 0 {
        if straight == 1 {
            let d = if hits.bottom {
                FrogCastDir::Bottom
            } else if hits.top {
                FrogCastDir::Top
            } else if hits.right {
                FrogCastDir::Right
            } else {
                FrogCastDir::Left
            };
            let t = match d {
                FrogCastDir::Bottom => FrogCastDir::Left,
                FrogCastDir::Top => FrogCastDir::Right,
                FrogCastDir::Right => FrogCastDir::Bottom,
                _ => FrogCastDir::Top,
            };
            Some(t)
        } else if straight == 2 {
            let on_current = match current {
                FrogCastDir::Right => hits.right,
                FrogCastDir::Left => hits.left,
                FrogCastDir::Top => hits.top,
                FrogCastDir::Bottom => hits.bottom,
                _ => false,
            };
            if !on_current {
                return None;
            }
            let other = if hits.right && current != FrogCastDir::Right {
                FrogCastDir::Right
            } else if hits.left && current != FrogCastDir::Left {
                FrogCastDir::Left
            } else if hits.top && current != FrogCastDir::Top {
                FrogCastDir::Top
            } else {
                FrogCastDir::Bottom
            };
            Some(other.inverse())
        } else {
            None
        }
    } else if diagonal != 0 {
        let d = if hits.top_left {
            FrogCastDir::TopLeft
        } else if hits.top_right {
            FrogCastDir::TopRight
        } else if hits.bottom_left {
            FrogCastDir::BottomLeft
        } else {
            FrogCastDir::BottomRight
        };
        Some(d.handle_orange_case(current))
    } else {
        Some(current)
    }
}

/// The unit vector of the velocity of a frog moving along an axis
/// direction, with y pointing up.
pub fn frog_velocity_dir(d: FrogCastDir) -> (r: (i32, i32))
    requires
        is_straight(d),
    ensures
        r.0 == dir_vec(d).0,
        r.1 == dir_vec(d).1,
{
    match d {
        FrogCastDir::Bottom => (0, -1),
        FrogCastDir::Top => (0, 1),
        FrogCastDir::Left => (-1, 0),
        _ => (1, 0),
    }
}

/// The frog only ever moves along an axis: starting from an axis direction,
/// every decision it makes is again an axis direction.
pub proof fn lemma_frog_keeps_axis(d: FrogCastDir, current: FrogCastDir)
    requires
        is_straight(current),
    ensures
        is_straight(spec_turn(d)),
        is_straight(d) ==> is_straight(spec_inverse(d)),
        !is_straight(d) ==> is_straight(spec_orange(d, current)),
{
}

/// The feelers of the toaster-rhino.
#[derive(Clone, Copy, PartialEq, Eq, Debug, Structural)]
pub enum TosterCaster {
    Left,
    Right,
    Top,
}

/// The heading of the toaster after its feelers report, in the order its
/// feelers are visited: the last feeler that touched something decides,
/// the left one sending it right and any other sending it left.
pub open spec fn spec_toster_heading(curr_is_left: bool, hits: Seq<(TosterCaster, bool)>) -> bool
    decreases hits.len(),
{
    if hits.len() == 0 {
        curr_is_left
    } else if hits.last().1 {
        hits.last().0 != TosterCaster::Left
    } else {
        spec_toster_heading(curr_is_left, hits.drop_last())
    }
}

/// Of all the feelers that touch something, the last one in the report
/// turns the toaster: it heads right when that feeler is the left one and
/// left for any other feeler, the upward one included; when no feeler
/// touches anything it keeps its heading.
pub proof fn lemma_last_touching_feeler_decides(curr_is_left: bool, hits: Seq<(TosterCaster, bool)>)
    ensures
        (forall|j: int| 0 <= j < hits.len() ==> !(#[trigger] hits[j]).1) ==> spec_toster_heading(curr_is_left, hits)
            == curr_is_left,
        forall|k: int|
            0 <= k < hits.len() && (#[trigger] hits[k]).1 && (forall|j: int| k < j < hits.len() ==> !(#[trigger] hits[j]).1)
                ==> spec_toster_heading(curr_is_left, hits) == (hits[k].0 != TosterCaster::Left),
    decreases hits.len(),
{
    if hits.len() > 0 {
        let rest = hits.drop_last();
        let l = hits.len() - 1;
        lemma_last_touching_feeler_decides(curr_is_left, rest);
        assert forall|j: int| 0 <= j < rest.len() implies rest[j] == hits[j] by {}
        if !hits[l].1 {
            assert forall|k: int|
                0 <= k < hits.len() && (#[trigger] hits[k]).1 && (forall|j: int| k < j < hits.len() ==> !(#[trigger] hits[j]).1)
                implies spec_toster_heading(curr_is_left, hits) == (hits[k].0 != TosterCaster::Left) by {
                assert(k < l);
                assert(rest[k] == hits[k]);
                assert forall|j: int| k < j < rest.len() implies !(#[trigger] rest[j]).1 by {
                    assert(rest[j] == hits[j]);
                }
            }
            if forall|j: int| 0 <= j < hits.len() ==> !(#[trigger] hits[j]).1 {
                assert forall|j: int| 0 <= j < rest.len() implies !(#[trigger] rest[j]).1 by {
                    assert(rest[j] == hits[j]);
                }
            }
        } else {
            assert forall|k: int|
                0 <= k < hits.len() && (#[trigger] hits[k]).1 && (forall|j: int| k < j < hits.len() ==> !(#[trigger] hits[j]).1)
                implies spec_toster_heading(curr_is_left, hits) == (hits[k].0 != TosterCaster::Left) by {
                if k < l {
                    assert(!hits[l].1);
                }
            }
        }
    }
}

/// Whether the toaster heads left after its feelers report `hits`, each a
/// feeler and whether it touches something other than itself or the
/// player.
pub fn toster_heading(curr_is_left: bool, hits: &Vec<(TosterCaster, bool)>) -> (r: bool)
    ensures
        r == spec_toster_heading(curr_is_left, hits@),
{
    let mut left = curr_is_left;
    let mut i: usize = 0;
    while i < hits.len()
        invariant
            i <= hits@.len(),
            left == spec_toster_heading(curr_is_left, hits@.take(i as int)),
        decreases hits@.len() - i,
    {
        let (caster, did_hit) = hits[i];
        assert(hits@.take(i as int + 1).drop_last() =~= hits@.take(i as int));
        if did_hit {
            if caster == TosterCaster::Left {
                left = false;
            } else {
                left = true;
            }
        }
        i = i + 1;
    }
    assert(hits@.take(hits@.len() as int) =~= hits@);
    left
}

/// The next frame of a looping animation of `frames` frames.
pub fn next_frame(index: usize, frames: usize) -> (r: usize)
    requires
        frames > 0,
        index < usize::MAX,
    ensures
        r == (index + 1) % (frames as int),
        r < frames,
{
    (index + 1) % frames
}

/// What a collider that took part in a collision is, for the enemies.
#[derive(Clone, Copy, PartialEq, Eq, Debug, Structural)]
pub enum EnemyKind {
    Cactus,
    Frog,
    /// A toaster, by its index among the toasters.
    Toster(usize),
    Other,
}

/// A collision that started this frame.
#[derive(Clone, Copy, PartialEq, Eq, Debug, Structural)]
pub struct EnemyCollision {
    pub collider1: EnemyKind,
    pub collider2: EnemyKind,
}

/// The toaster a collision involves, looking at the second collider first.
pub open spec fn toster_of(e: EnemyCollision) -> Option<usize> {
    match e.collider2 {
        EnemyKind::Toster(t) => Some(t),
        _ => match e.collider1 {
            EnemyKind::Toster(t) => Some(t),
            _ => None,
        },
    }
}

/// A collision with the cactus or the frog kills the player.
pub open spec fn touches_hazard(e: EnemyCollision) -> bool {
    e.collider1 == EnemyKind::Cactus || e.collider2 == EnemyKind::Cactus
        || e.collider1 == EnemyKind::Frog || e.collider2 == EnemyKind::Frog
}

/// A collision kills the player: it touches the cactus or the frog, or a
/// toaster whose top feelers do not all feel the player on its back.
pub open spec fn deadly(e: EnemyCollision, top_hits: Seq<bool>, player: bool) -> bool {
    touches_hazard(e) || (toster_of(e) is Some && player && top_hits.contains(false))
}

/// A toaster collision in which the first top feeler feels the player:
/// the player lands on the toaster's back and it dies.
pub open spec fn stomps(e: EnemyCollision, top_hits: Seq<bool>, player: bool) -> bool {
    !touches_hazard(e) && toster_of(e) is Some && player && top_hits.len() > 0 && top_hits[0]
}

/// The toasters stomped by the collisions of a frame, in order: each
/// stomping collision kills its toaster, and the first deadly collision
/// ends the frame (after its own stomp, if it is one).
pub open spec fn spec_killed(events: Seq<EnemyCollision>, top_hits: Seq<bool>, player: bool) -> Seq<usize>
    decreases events.len(),
{
    if events.len() == 0 {
        seq![]
    } else {
        let e = events[0];
        let head: Seq<usize> = if stomps(e, top_hits, player) { seq![toster_of(e)->0] } else { seq![] };
        if deadly(e, top_hits, player) {
            head
        } else {
            head + spec_killed(events.drop_first(), top_hits, player)
        }
    }
}

/// The result of the enemies' collisions in one frame.
pub struct EnemyCollisionOutcome {
    pub defeat: bool,
    /// The toasters that die, in the order they are stomped.
    pub killed: Vec<usize>,
}

/// Judge the collisions of a frame in order, stopping at the first deadly
/// one. `top_hits` tells, for each top feeler of a toaster, whether it
/// feels the player; `player` whether the player exists.
pub fn handle_enemy_collisions(events: &Vec<EnemyCollision>, top_hits: &Vec<bool>, player: bool) -> (r: EnemyCollisionOutcome)
    ensures
        r.defeat == exists|k: int| 0 <= k < events@.len() && deadly(#[trigger] events@[k], top_hits@, player),
        forall|t: usize|
            r.killed@.contains(t) <==> exists|k: int|
                0 <= k < events@.len() && toster_of(#[trigger] events@[k]) == Some(t) && stomps(events@[k], top_hits@, player)
                    && forall|j: int| 0 <= j < k ==> !deadly(#[trigger] events@[j], top_hits@, player),
        r.killed@ == spec_killed(events@, top_hits@, player),
{
    let mut defeat = false;
    let mut killed: Vec<usize> = Vec::new();
    let mut all_hit = true;
    let mut j: usize = 0;
    while j < top_hits.len()
        invariant
            j <= top_hits@.len(),
            all_hit == forall|k: int| 0 <= k < j ==> top_hits@[k],
        decreases top_hits@.len() - j,
    {
        if !top_hits[j] {
            all_hit = false;
        }
        j = j + 1;
    }
    assert(all_hit == !top_hits@.contains(false));
    let first_hit = top_hits.len() > 0 && top_hits[0];
    let mut i: usize = 0;
    assert(events@.skip(0) =~= events@);
    assert(killed@ + spec_killed(events@, top_hits@, player) =~= spec_killed(events@, top_hits@, player));
    while i < events.len()
        invariant_except_break
            !defeat,
            forall|j: int| 0 <= j < i ==> !deadly(#[trigger] events@[j], top_hits@, player),
            forall|t: usize|
                killed@.contains(t) <==> exists|k: int|
                    0 <= k < i && toster_of(#[trigger] events@[k]) == Some(t) && stomps(events@[k], top_hits@, player),
            killed@ + spec_killed(events@.skip(i as int), top_hits@, player) == spec_killed(events@, top_hits@, player),
        invariant
            i <= events@.len(),
            all_hit == !top_hits@.contains(false),
            first_hit == (top_hits@.len() > 0 && top_hits@[0]),
        ensures
            defeat ==> 0 <= i < events@.len() && deadly(events@[i as int], top_hits@, player),
            !defeat ==> i == events@.len(),
            forall|j: int| 0 <= j < i ==> !deadly(#[trigger] events@[j], top_hits@, player),
            forall|t: usize|
                killed@.contains(t) <==> exists|k: int|
                    0 <= k <= i && k < events@.len() && toster_of(#[trigger] events@[k]) == Some(t) && stomps(events@[k], top_hits@, player),
            killed@ == spec_killed(events@, top_hits@, player),
        decreases events@.len() - i,
    {
        let e = events[i];
        let ghost before = killed@;
        let ghost rest = spec_killed(events@.skip(i + 1), top_hits@, player);
        assert(events@.skip(i as int)[0] == e);
        assert(events@.skip(i as int).drop_first() =~= events@.skip(i + 1));
        if e.collider2 == EnemyKind::Cactus || e.collider1 == EnemyKind::Cactus {
            defeat = true;
            assert(!stomps(e, top_hits@, player));
            assert(killed@ + seq![] =~= killed@);
            break;
        }
        if e.collider2 == EnemyKind::Frog || e.collider1 == EnemyKind::Frog {
            defeat = true;
            assert(!stomps(e, top_hits@, player));
            assert(killed@ + seq![] =~= killed@);
            break;
        }
        let t = match e.collider2 {
            EnemyKind::Toster(t) => Some(t),
            _ => match e.collider1 {
                EnemyKind::Toster(t) => Some(t),
                _ => None,
            },
        };
        assert(t == toster_of(e));
        if let Some(t) = t {
            if player {
                if first_hit {
                    killed.push(t);
                    proof {
                        crate::seqs::lemma_push_contains(before, t);
                        assert(killed@ + rest =~= before + (seq![t] + rest));
                        assert(killed@ =~= before + seq![t]);
                    }
                }
                if !all_hit {
                    defeat = true;
                    assert(forall|t2: usize|
                        killed@.contains(t2) <==> (before.contains(t2) || (t2 == t && stomps(e, top_hits@, player))));
                    break;
                }
            }
        }
        assert(forall|t2: usize|
            killed@.contains(t2) <==> (before.contains(t2) || (toster_of(e) == Some(t2) && stomps(e, top_hits@, player))));
        assert(!stomps(e, top_hits@, player) ==> killed@ + rest =~= before + rest);
        i = i + 1;
    }
    proof {
        if !defeat {
            assert(events@.skip(i as int) =~= Seq::<EnemyCollision>::empty());
            assert(killed@ + seq![] =~= killed@);
        }
    }
    EnemyCollisionOutcome { defeat, killed }
}

/// Marks the player of the platformer.
#[derive(Clone, Copy, PartialEq, Eq, Debug, Default, Structural)]
pub struct Player;

/// Marks the platformer's enemies.
#[derive(Clone, Copy, PartialEq, Eq, Debug, Default, Structural)]
pub struct PlatformerEnemy;

/// Marks the cactus-hippo, which does not move.
#[derive(Clone, Copy, PartialEq, Eq, Debug, Default, Structural)]
pub struct Cactus;

/// Marks a player on the yellow layer.
#[derive(Clone, Copy, PartialEq, Eq, Debug, Default, Structural)]
pub struct OnYellowLayer;

/// The player's feeler that tells whether the other layer has room for it,
/// by its entity bits.
#[derive(Clone, Copy, PartialEq, Eq, Debug, Structural)]
pub struct PlayerSwitchSensor(pub u64);

/// The body of an enemy, in pixels.
#[derive(Clone, Copy, PartialEq, Eq, Debug, Structural)]
pub enum EnemyShape {
    Capsule { radius: u32, length: u32 },
    Rectangle { width: u32, height: u32 },
    Circle { radius: u32 },
}

/// How an enemy is placed: where (in hundredths of a pixel), its body,
/// whether it moves, its layers and its colour.
#[derive(Clone, Copy, PartialEq, Eq, Debug, Structural)]
pub struct EnemySpawn {
    pub x_centi: i32,
    pub y_centi: i32,
    pub shape: EnemyShape,
    pub dynamic: bool,
    pub rotation_locked: bool,
    pub layers: CollisionLayerBits,
    pub color: Rgba8,
}

/// The platformer's three enemies: a cactus, a toaster with three feelers
/// (the upward one looks among all groups, the others among the layers'
/// groups only) that starts alive, walking left, at its first frame, and a
/// frog with eight feelers that starts heading left at its first frame;
/// every feeler is a slightly smaller copy of the
/// body reaching `caster_distance` pixels.
#[derive(Clone, Copy, Debug)]
pub struct EnemySpawns {
    pub cactus: EnemySpawn,
    pub toster: EnemySpawn,
    pub frog: EnemySpawn,
    pub toster_casters: [(TosterCaster, bool); 3],
    pub frog_casters: [FrogCastDir; 8],
    pub caster_mask: u32,
    pub caster_distance: u32,
    pub caster_scale_percent: u32,
    pub toster_state: Toster,
    pub frog_state: Frog,
}

/// The enemies of the platformer.
pub fn spawn_enemies() -> (r: EnemySpawns)
    ensures
        r.cactus == (EnemySpawn {
            x_centi: 0, y_centi: 0,
            shape: EnemyShape::Capsule { radius: 10, length: 20 },
            dynamic: false,
            rotation_locked: false,
            layers: CollisionLayerBits { memberships: 0b0001001, filters: 0b0001001 },
            color: Rgba8 { r: 255, g: 185, b: 0, a: 255 },
        }),
        r.toster == (EnemySpawn {
            x_centi: 95000, y_centi: 131600,
            shape: EnemyShape::Rectangle { width: 60, height: 40 },
            dynamic: true,
            rotation_locked: false,
            layers: CollisionLayerBits { memberships: 0b0001001, filters: 0b0001001 },
            color: Rgba8 { r: 255, g: 185, b: 0, a: 255 },
        }),
        r.frog == (EnemySpawn {
            x_centi: 83582, y_centi: 139800,
            shape: EnemyShape::Circle { radius: 26 },
            dynamic: true,
            rotation_locked: true,
            layers: CollisionLayerBits { memberships: 0b0001001, filters: 0b0001001 },
            color: Rgba8 { r: 255, g: 185, b: 0, a: 255 },
        }),
        r.toster_casters@ == seq![(TosterCaster::Right, true), (TosterCaster::Left, true), (TosterCaster::Top, false)],
        r.frog_casters@ == seq![
            FrogCastDir::Right,
            FrogCastDir::Left,
            FrogCastDir::Top,
            FrogCastDir::Bottom,
            FrogCastDir::TopRight,
            FrogCastDir::TopLeft,
            FrogCastDir::BottomRight,
            FrogCastDir::BottomLeft,
        ],
        r.caster_mask == 0b0110000,
        r.caster_distance == 12,
        r.caster_scale_percent == 95,
        r.toster_state == (Toster { curr_is_left: true, delay: 0, is_dead: false }),
        r.frog_state == (Frog { current_dir: FrogCastDir::Left, delay: 0 }),
{
    let layers = platformer_enemy_layer();
    let color = player_color_yellow();
    EnemySpawns {
        cactus: EnemySpawn {
            x_centi: 0, y_centi: 0,
            shape: EnemyShape::Capsule { radius: 10, length: 20 },
            dynamic: false,
            rotation_locked: false,
            layers,
            color,
        },
        toster: EnemySpawn {
            x_centi: 95000, y_centi: 131600,
            shape: EnemyShape::Rectangle { width: 60, height: 40 },
            dynamic: true,
            rotation_locked: false,
            layers,
            color,
        },
        frog: EnemySpawn {
            x_centi: 83582, y_centi: 139800,
            shape: EnemyShape::Circle { radius: 26 },
            dynamic: true,
            rotation_locked: true,
            layers,
            color,
        },
        toster_casters: [(TosterCaster::Right, true), (TosterCaster::Left, true), (TosterCaster::Top, false)],
        frog_casters: [
            FrogCastDir::Right,
            FrogCastDir::Left,
            FrogCastDir::Top,
            FrogCastDir::Bottom,
            FrogCastDir::TopRight,
            FrogCastDir::TopLeft,
            FrogCastDir::BottomRight,
            FrogCastDir::BottomLeft,
        ],
        caster_mask: platformer_raycast_layer().filters,
        caster_distance: 12,
        caster_scale_percent: 95,
        toster_state: Toster { curr_is_left: true, delay: 0, is_dead: false },
        frog_state: Frog { current_dir: FrogCastDir::Left, delay: 0 },
    }
}

/// The speed of a jump, in thousandths of a pixel per second.
pub const PLATFORMER_JUMP_FORCE: i32 = 300_000;

/// The running speed, in thousandths of a pixel per second.
pub const PLATFORMER_MAX_SPEED: i32 = 200_000;

/// How fast the player speeds up or slows down in the air and on the
/// ground, in pixels per second squared (thousandths of a pixel per second
/// gained each millisecond).
pub const PLATFORMER_AIR_GAIN: i64 = 1000;
pub const PLATFORMER_GROUND_GAIN: i64 = 1500;

/// How long a frame of the running animation lasts, in milliseconds.
pub const PLATFORMER_ANIM_DELAY: u64 = 100;

/// `cur` moved towards `target` by at most `max_delta`.
pub open spec fn spec_move_towards(cur: int, target: int, max_delta: int) -> int {
    if target - cur > max_delta {
        cur + max_delta
    } else if cur - target > max_delta {
        cur - max_delta
    } else {
        target
    }
}

/// The player of the platformer after a frame.
#[derive(Clone, Copy, PartialEq, Eq, Debug, Structural)]
pub struct PlayerMove {
    /// Its speed, in thousandths of a pixel per second.
    pub vx: i32,
    pub vy: i32,
    /// Whether it now faces left, if that changed.
    pub flip_x: Option<bool>,
    /// The clock of the running animation, in milliseconds.
    pub anim_t: u64,
    /// The frame of its sprite sheet to show.
    pub atlas_index: usize,
}

/// One frame of `dt_ms` milliseconds of the platformer's player: it stands
/// on the ground when its feeler touches anything that is not a sensor
/// (`hits_solid` has a mark per hit); from the ground Space makes it jump;
/// A and D set a running speed to the left and right (D winning the way it
/// faces), and its speed moves towards it, faster on the ground, but in the
/// air only while a key is held; its animation stands, runs, rises or
/// falls.
pub fn tick(hits_solid: &Vec<bool>, jump: bool, left: bool, right: bool, vx: i32, vy: i32, anim_t: u64, dt_ms: u32) -> (r: PlayerMove)
    ensures
        ({
            let grounded = exists|k: int| 0 <= k < hits_solid@.len() && #[trigger] hits_solid@[k];
            let gain = if grounded { PLATFORMER_GROUND_GAIN } else { PLATFORMER_AIR_GAIN };
            let target = (if right { PLATFORMER_MAX_SPEED as int } else { 0int }) - (if left { PLATFORMER_MAX_SPEED as int } else { 0int });
            let t0 = if anim_t + dt_ms > u64::MAX { u64::MAX as int } else { anim_t + dt_ms };
            let t = if t0 > 4 * PLATFORMER_ANIM_DELAY { 0int } else { t0 };
            &&& r.vy == (if jump && grounded { PLATFORMER_JUMP_FORCE as int } else { vy as int })
            &&& r.vx == (if grounded || target != 0 { spec_move_towards(vx as int, target, gain * dt_ms) } else { vx as int })
            &&& r.flip_x == (if right { Some(false) } else if left { Some(true) } else { None })
            &&& r.anim_t == t
            &&& r.atlas_index == (if grounded {
                if -2000 < vx < 2000 { (t / (2 * PLATFORMER_ANIM_DELAY as int)) * 2 } else { (t / PLATFORMER_ANIM_DELAY as int) * 2 + 1 }
            } else if r.vy > 0 {
                4int
            } else {
                6int
            })
        }),
{
    let mut grounded = false;
    let mut i: usize = 0;
    while i < hits_solid.len()
        invariant
            i <= hits_solid@.len(),
            grounded == exists|k: int| 0 <= k < i && #[trigger] hits_solid@[k],
        decreases hits_solid@.len() - i,
    {
        if hits_solid[i] {
            grounded = true;
        }
        i = i + 1;
    }
    let new_vy = if jump && grounded { PLATFORMER_JUMP_FORCE } else { vy };
    let gain: i64 = if grounded { PLATFORMER_GROUND_GAIN } else { PLATFORMER_AIR_GAIN };
    let mut target: i64 = 0;
    let mut flip_x: Option<bool> = None;
    if left {
        target = target - (PLATFORMER_MAX_SPEED as i64);
        flip_x = Some(true);
    }
    if right {
        target = target + (PLATFORMER_MAX_SPEED as i64);
        flip_x = Some(false);
    }
    let mut t = anim_t.saturating_add(dt_ms as u64);
    if t > 4 * PLATFORMER_ANIM_DELAY {
        t = 0;
    }
    let atlas_index: usize = if grounded {
        if -2000 < vx && vx < 2000 {
            ((t / (2 * PLATFORMER_ANIM_DELAY)) * 2) as usize
        } else {
            ((t / PLATFORMER_ANIM_DELAY) * 2 + 1) as usize
        }
    } else if new_vy > 0 {
        4
    } else {
        6
    };
    let mut new_vx = vx;
    if grounded || target != 0 {
        assert(0 <= gain * (dt_ms as i64) <= 1500 * 0xffff_ffffi64) by (nonlinear_arith)
            requires
                0 <= gain <= 1500,
                0 <= dt_ms <= 0xffff_ffffi64,
        ;
        let max_delta: i64 = gain * (dt_ms as i64);
        let cur = vx as i64;
        let moved: i64 = if target - cur > max_delta {
            cur + max_delta
        } else if cur - target > max_delta {
            cur - max_delta
        } else {
            target
        };
        new_vx = moved as i32;
    }
    PlayerMove { vx: new_vx, vy: new_vy, flip_x, anim_t: t, atlas_index }
}

/// Marks the sensor at the end of the level that leads to the next game.
#[derive(Clone, Copy, PartialEq, Eq, Debug, Default, Structural)]
pub struct NextTrigger;

/// Marks the sensor that stops the player at the end of the level.
#[derive(Clone, Copy, PartialEq, Eq, Debug, Default, Structural)]
pub struct StopTrigger;

/// Whether a collider of the level's map becomes a trigger sensor: in the
/// platformer, when its parent object carries the trigger's marker.
pub fn on_next_spawned(state: crate::states::AppState, parent_marked: bool) -> (r: bool)
    ensures
        r == (state == crate::states::AppState::Platformer && parent_marked),
{
    state == crate::states::AppState::Platformer && parent_marked
}

/// Whether a collider of the level's map becomes a stop sensor: in the
/// platformer, when its parent object carries the stop marker.
pub fn on_stop_spawned(state: crate::states::AppState, parent_marked: bool) -> (r: bool)
    ensures
        r == (state == crate::states::AppState::Platformer && parent_marked),
{
    state == crate::states::AppState::Platformer && parent_marked
}

/// What a collision with the player does in the platformer.
#[derive(Clone, Copy, PartialEq, Eq, Debug, Structural)]
pub struct TriggerReaction {
    /// A screenshot is taken on the way to the next game.
    pub screenshot: bool,
    /// The player stops dead under the stop sensor and can no longer move.
    pub stop_player: bool,
}

/// A collision in the platformer between a sensor and the player: the next
/// game's sensor asks for a screenshot (one at a time), and the stop sensor
/// stops the player. Other collisions, and collisions elsewhere, do
/// nothing.
pub fn on_collision<H>(
    state: crate::states::AppState,
    shot: &mut crate::states::LastScreenshot<H>,
    with_player: bool,
    is_next: bool,
    is_stop: bool,
) -> (r: TriggerReaction)
    ensures
        ({
            let active = state == crate::states::AppState::Platformer && with_player;
            &&& r.screenshot == (active && is_next && !old(shot).awaiting)
            &&& r.stop_player == (active && is_stop)
            &&& *final(shot) == (if active && is_next { crate::states::spec_requested(*old(shot)) } else { *old(shot) })
        }),
{
    if state != crate::states::AppState::Platformer || !with_player {
        return TriggerReaction { screenshot: false, stop_player: false };
    }
    let mut screenshot = false;
    if is_next {
        screenshot = shot.request();
    }
    TriggerReaction { screenshot, stop_player: is_stop }
}

/// How the platformer's player is made at its spawn point: a capsule on the
/// yellow layer, pulled by gravity, with a feeler below for the ground and
/// a smaller one that tells whether the white layer has room for it; both
/// feelers reach 8.1 pixels (given in tenths).
#[derive(Clone, Copy, PartialEq, Eq, Debug, Structural)]
pub struct PlatformerPlayerSpawn {
    pub layers: CollisionLayerBits,
    pub color: Rgba8,
    pub capsule: u32,
    pub ground_caster_capsule: u32,
    pub ground_caster_mask: u32,
    pub switch_caster_capsule: u32,
    pub switch_caster_mask: u32,
    pub caster_reach_tenths: u32,
    pub gravity_scale: u32,
}

/// The player made at the platformer's spawn point, which the camera then
/// follows; nothing outside the platformer.
pub fn focus_player(state: crate::states::AppState) -> (r: Option<PlatformerPlayerSpawn>)
    ensures
        state != crate::states::AppState::Platformer ==> r is None,
        state == crate::states::AppState::Platformer ==> r == Some(PlatformerPlayerSpawn {
            layers: CollisionLayerBits { memberships: 0b0100111, filters: 0b0100111 },
            color: Rgba8 { r: 255, g: 185, b: 0, a: 255 },
            capsule: 20,
            ground_caster_capsule: 16,
            ground_caster_mask: 1,
            switch_caster_capsule: 12,
            switch_caster_mask: 0b0010000,
            caster_reach_tenths: 81,
            gravity_scale: 50,
        }),
{
    if state != crate::states::AppState::Platformer {
        return None;
    }
    let switch_mask = platformer_white_layer().filters & 0b110001;
    assert(0b0010000u32 & 0b110001u32 == 0b0010000u32) by (bit_vector);
    Some(PlatformerPlayerSpawn {
        layers: platformer_player_yellow_layer(),
        color: player_color_yellow(),
        capsule: 20,
        ground_caster_capsule: 16,
        ground_caster_mask: crate::layers::GameLayer::Default.to_bits(),
        switch_caster_capsule: 12,
        switch_caster_mask: switch_mask,
        caster_reach_tenths: 81,
        gravity_scale: 50,
    })
}

/// The toaster-rhino: which way it walks, the time since its last frame
/// in milliseconds, and whether it has been stomped.
#[derive(Clone, Copy, PartialEq, Eq, Debug, Structural)]
pub struct Toster {
    pub curr_is_left: bool,
    pub delay: u64,
    pub is_dead: bool,
}

/// The frog: the way it heads and the time since its last frame, in
/// milliseconds.
#[derive(Clone, Copy, PartialEq, Eq, Debug, Structural)]
pub struct Frog {
    pub current_dir: FrogCastDir,
    pub delay: u64,
}

/// How long a frame of the enemies' animations lasts, in milliseconds.
pub const ENEMY_FRAME_DELAY: u64 = 200;

/// What the toaster's sprite shows after a frame.
#[derive(Clone, Copy, PartialEq, Eq, Debug, Structural)]
pub enum TosterSprite {
    /// It is dead: it shows its last frame, stops moving and loses its
    /// feelers.
    Dead,
    /// It walks on: the next of its two frames, facing the way it walks.
    Frame { index: usize, flip_x: bool },
    /// Nothing changes yet.
    Same,
}

/// The toaster's animation in a frame of `dt_ms` milliseconds, its sprite
/// showing frame `index`: once a frame has lasted long enough the next of
/// its two frames shows, facing the way it walks.
pub fn toster_atlas_handler(t: &mut Toster, index: usize, dt_ms: u32) -> (r: TosterSprite)
    requires
        index < usize::MAX,
    ensures
        old(t).is_dead ==> r == TosterSprite::Dead && *final(t) == *old(t),
        !old(t).is_dead && old(t).delay > ENEMY_FRAME_DELAY ==> r == (TosterSprite::Frame {
            index: ((index + 1) % 2) as usize,
            flip_x: !old(t).curr_is_left,
        }) && *final(t) == (Toster { delay: 0, ..*old(t) }),
        !old(t).is_dead && old(t).delay <= ENEMY_FRAME_DELAY ==> r == TosterSprite::Same && *final(t) == (Toster {
            delay: (old(t).delay + dt_ms) as u64,
            ..*old(t)
        }),
{
    if t.is_dead {
        return TosterSprite::Dead;
    }
    if t.delay > ENEMY_FRAME_DELAY {
        t.delay = 0;
        return TosterSprite::Frame { index: next_frame(index, 2), flip_x: !t.curr_is_left };
    }
    t.delay = t.delay + (dt_ms as u64);
    TosterSprite::Same
}

/// The frog's animation in a frame of `dt_ms` milliseconds, its sprite
/// showing frame `index`: once a frame has lasted long enough the next of
/// its eight frames shows.
pub fn frog_atlas_handler(f: &mut Frog, index: usize, dt_ms: u32) -> (r: Option<usize>)
    requires
        index < usize::MAX,
    ensures
        old(f).delay > ENEMY_FRAME_DELAY ==> r == Some(((index + 1) % 8) as usize) && *final(f) == (Frog { delay: 0, ..*old(f) }),
        old(f).delay <= ENEMY_FRAME_DELAY ==> r is None && *final(f) == (Frog { delay: (old(f).delay + dt_ms) as u64, ..*old(f) }),
{
    if f.delay > ENEMY_FRAME_DELAY {
        f.delay = 0;
        return Some(next_frame(index, 8));
    }
    f.delay = f.delay + (dt_ms as u64);
    None
}

} // verus!
