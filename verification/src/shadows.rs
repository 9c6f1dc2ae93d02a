//! The drop shadows of the shooter: each character sprite casts a dark copy
//! of itself, a little to the right and below, that follows it around; the
//! map's shadow layer is shifted by the same amount.
use vstd::prelude::*;
use crate::miami::Offset3;
use crate::palette::Rgba8;
use crate::states::AppState;

verus! {

/// Marks the tile layer that is drawn as the map's shadow.
#[derive(Clone, Copy, PartialEq, Eq, Debug, Default, Structural)]
pub struct TilemapShadow;

/// A shadow, with the entity bits of the sprite that casts it.
#[derive(Clone, Copy, PartialEq, Eq, Debug, Structural)]
pub struct ShadowOf(pub u64);

/// Marks a sprite whose shadow is still to be made.
#[derive(Clone, Copy, PartialEq, Eq, Debug, Default, Structural)]
pub struct ShadowInit;

/// Marks a sprite that casts a shadow.
#[derive(Clone, Copy, PartialEq, Eq, Debug, Default, Structural)]
pub struct ShadowCaster;

/// Marks the point a shadow turns about.
#[derive(Clone, Copy, PartialEq, Eq, Debug, Default, Structural)]
pub struct ShadowPivot;

/// The colour of the shadows: black, mostly opaque.
pub open spec fn spec_shadow_color() -> Rgba8 {
    Rgba8 { r: 0, g: 0, b: 0, a: 218 }
}

/// Where a shadow lies from its caster: two pixels right, two down, and
/// half a unit behind.
pub open spec fn spec_shadow_offset() -> Offset3 {
    Offset3 { x: 2, y: -2i32, z_centi: -50i32 }
}

/// The colour of the shadows.
pub fn miami_shadow_color() -> (r: Rgba8)
    ensures
        r == spec_shadow_color(),
{
    Rgba8::rgba_u8(0, 0, 0, 218)
}

/// Where a shadow lies from its caster.
pub fn miami_shadow_offset() -> (r: Offset3)
    ensures
        r == spec_shadow_offset(),
{
    Offset3 { x: 2, y: -2, z_centi: -50 }
}

/// A shadow to make: whose it is, its colour and where it lies.
#[derive(Clone, Copy, PartialEq, Eq, Debug, Structural)]
pub struct ShadowSpawn {
    pub of: ShadowOf,
    pub color: Rgba8,
    pub offset: Offset3,
}

/// The shadow made for the sprite with entity bits `e`.
pub open spec fn spec_shadow_for(e: u64) -> ShadowSpawn {
    ShadowSpawn { of: ShadowOf(e), color: spec_shadow_color(), offset: spec_shadow_offset() }
}

/// The shadows to make for the sprites still waiting for one (given by
/// their entity bits), in the same order; each of those sprites then casts
/// its shadow.
pub fn setup_shadows(init: &Vec<u64>) -> (r: Vec<ShadowSpawn>)
    ensures
        r@.len() == init@.len(),
        forall|i: int| 0 <= i < init@.len() ==> #[trigger] r@[i] == spec_shadow_for(init@[i]),
{
    let mut r: Vec<ShadowSpawn> = Vec::new();
    let mut i: usize = 0;
    while i < init.len()
        invariant
            i <= init@.len(),
            r@.len() == i,
            forall|k: int| 0 <= k < i ==> #[trigger] r@[k] == spec_shadow_for(init@[k]),
        decreases init@.len() - i,
    {
        r.push(ShadowSpawn { of: ShadowOf(init[i]), color: miami_shadow_color(), offset: miami_shadow_offset() });
        i = i + 1;
    }
    r
}

/// The first place of `x` in `v`, if it occurs.
pub fn position_u64(v: &Vec<u64>, x: u64) -> (r: Option<usize>)
    ensures
        r matches Some(j) ==> j < v@.len() && v@[j as int] == x && forall|k: int| 0 <= k < j ==> v@[k] != x,
        r is None ==> !v@.contains(x),
{
    let mut i: usize = 0;
    while i < v.len()
        invariant
            i <= v@.len(),
            forall|k: int| 0 <= k < i ==> v@[k] != x,
        decreases v@.len() - i,
    {
        if v[i] == x {
            return Some(i);
        }
        i = i + 1;
    }
    None
}

/// Whether `r` is the first place of `x` in `v`, or nothing when `x` does
/// not occur.
pub open spec fn is_first_place(v: Seq<u64>, x: u64, r: Option<usize>) -> bool {
    match r {
        Some(j) => j < v.len() && v[j as int] == x && forall|k: int| 0 <= k < j ==> v[k] != x,
        None => !v.contains(x),
    }
}

/// For each shadow, the caster it follows this frame (its place among
/// `casters`, given by entity bits), or nothing when its caster is gone; the
/// shadow then takes the caster's position plus the offset, its rotation
/// and its sprite rectangle.
pub fn update_shadows(shadows: &Vec<ShadowOf>, casters: &Vec<u64>) -> (r: Vec<Option<usize>>)
    ensures
        r@.len() == shadows@.len(),
        forall|i: int| 0 <= i < shadows@.len() ==> is_first_place(casters@, shadows@[i].0, #[trigger] r@[i]),
{
    let mut r: Vec<Option<usize>> = Vec::new();
    let mut i: usize = 0;
    while i < shadows.len()
        invariant
            i <= shadows@.len(),
            r@.len() == i,
            forall|k: int| 0 <= k < i ==> is_first_place(casters@, shadows@[k].0, #[trigger] r@[k]),
        decreases shadows@.len() - i,
    {
        let p = position_u64(casters, shadows[i].0);
        r.push(p);
        i = i + 1;
    }
    r
}

/// How far the map's shadow layer is moved when it is created, in pixels:
/// only in the shooter, and only for the layer marked as shadow.
pub fn setup_tilemap_shadows(state: AppState, is_shadow_layer: bool) -> (r: Option<(i32, i32)>)
    ensures
        r == (if state == AppState::Miami && is_shadow_layer {
            Some((spec_shadow_offset().x, spec_shadow_offset().y))
        } else {
            None
        }),
{
    if state != AppState::Miami || !is_shadow_layer {
        return None;
    }
    let o = miami_shadow_offset();
    Some((o.x, o.y))
}

} // verus!
