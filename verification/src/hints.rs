//! The key hints shown at the top of the screen when a game begins.
use vstd::prelude::*;

verus! {

/// The key combinations a hint can show.
#[derive(Clone, Copy, PartialEq, Eq, Debug, Structural)]
pub enum KeyHint {
    KeysQAD,
    KeysSpace,
    KeysLmb,
    KeysRmb,
    KeysWASD,
    KeysMouseAll,
}

/// The columns of the key sheet, one animated strip per hint.
#[derive(Clone, Copy, PartialEq, Eq, Debug, Structural)]
pub enum HintAtlas {
    Qad,
    Wasd,
    Space,
    MouseAll,
    MouseRmb,
    MouseLmb,
}

/// The strip of each hint.
pub open spec fn spec_hint_atlas(h: KeyHint) -> HintAtlas {
    match h {
        KeyHint::KeysQAD => HintAtlas::Qad,
        KeyHint::KeysSpace => HintAtlas::Space,
        KeyHint::KeysLmb => HintAtlas::MouseLmb,
        KeyHint::KeysRmb => HintAtlas::MouseRmb,
        KeyHint::KeysWASD => HintAtlas::Wasd,
        KeyHint::KeysMouseAll => HintAtlas::MouseAll,
    }
}

/// The left edge of a strip on the key sheet, in pixels, and the size of
/// one of its three frames.
pub open spec fn spec_atlas_layout(a: HintAtlas) -> (u32, u32, u32) {
    match a {
        HintAtlas::Qad => (0, 57, 42),
        HintAtlas::Wasd => (57, 57, 42),
        HintAtlas::Space => (114, 57, 21),
        HintAtlas::MouseAll => (171, 19, 21),
        HintAtlas::MouseRmb => (190, 19, 21),
        HintAtlas::MouseLmb => (209, 19, 21),
    }
}

impl KeyHint {
    /// The strip of the key sheet that animates this hint.
    pub fn get_asset(&self) -> (r: HintAtlas)
        ensures
            r == spec_hint_atlas(*self),
    {
        match self {
            KeyHint::KeysQAD => HintAtlas::Qad,
            KeyHint::KeysSpace => HintAtlas::Space,
            KeyHint::KeysLmb => HintAtlas::MouseLmb,
            KeyHint::KeysRmb => HintAtlas::MouseRmb,
            KeyHint::KeysWASD => HintAtlas::Wasd,
            KeyHint::KeysMouseAll => HintAtlas::MouseAll,
        }
    }
}

impl HintAtlas {
    /// The left edge of the strip on the key sheet and the width and height
    /// of one frame, in pixels; every strip has three frames stacked.
    pub fn layout(&self) -> (r: (u32, u32, u32))
        ensures
            r == spec_atlas_layout(*self),
    {
        match self {
            HintAtlas::Qad => (0, 57, 42),
            HintAtlas::Wasd => (57, 57, 42),
            HintAtlas::Space => (114, 57, 21),
            HintAtlas::MouseAll => (171, 19, 21),
            HintAtlas::MouseRmb => (190, 19, 21),
            HintAtlas::MouseLmb => (209, 19, 21),
        }
    }
}

/// Different hints use different strips, and the strips do not overlap on
/// the sheet.
pub proof fn lemma_hint_strips_distinct(a: KeyHint, b: KeyHint)
    ensures
        spec_hint_atlas(a) == spec_hint_atlas(b) ==> a == b,
        spec_hint_atlas(a) != spec_hint_atlas(b) ==> {
            let la = spec_atlas_layout(spec_hint_atlas(a));
            let lb = spec_atlas_layout(spec_hint_atlas(b));
            la.0 + la.1 <= lb.0 || lb.0 + lb.1 <= la.0
        },
{
}

/// The strips of the hints to show, side by side in the same order.
pub fn show_hints(hints: &Vec<KeyHint>) -> (r: Vec<HintAtlas>)
    ensures
        r@.len() == hints@.len(),
        forall|i: int| 0 <= i < hints@.len() ==> #[trigger] r@[i] == spec_hint_atlas(hints@[i]),
{
    let mut r: Vec<HintAtlas> = Vec::new();
    let mut i: usize = 0;
    while i < hints.len()
        invariant
            i <= hints@.len(),
            r@.len() == i,
            forall|k: int| 0 <= k < i ==> #[trigger] r@[k] == spec_hint_atlas(hints@[k]),
        decreases hints@.len() - i,
    {
        r.push(hints[i].get_asset());
        i = i + 1;
    }
    r
}

/// How long a row of hints slides in, stays and slides out, in
/// milliseconds.
pub const HINT_IN_DURATION: u64 = 300;
pub const HINT_STAY_DURATION: u64 = 10000;
pub const HINT_OUT_DURATION: u64 = 300;

/// How many frames of a strip play each second.
pub const HINT_ANIM_SPEED: u64 = 3;

/// A row of hints: how long it has been shown, in milliseconds, and its
/// pictures by entity bits.
pub struct KeyHints {
    pub t: u64,
    pub hints: Vec<u64>,
}

/// A row of hints `t_ms` milliseconds after it appeared: whether it is gone
/// (it has slid in, stayed and slid out), and the frame each of its strips
/// shows, going round the three frames three times a second.
pub fn update_hints(t_ms: u64) -> (r: (bool, usize))
    ensures
        r.0 == (t_ms > HINT_IN_DURATION + HINT_STAY_DURATION + HINT_OUT_DURATION),
        r.1 == (t_ms * HINT_ANIM_SPEED / 1000) % 3,
        r.1 < 3,
{
    let ticks: u128 = (t_ms as u128) * (HINT_ANIM_SPEED as u128) / 1000;
    let frame = (ticks % 3) as usize;
    (t_ms > HINT_IN_DURATION + HINT_STAY_DURATION + HINT_OUT_DURATION, frame)
}

} // verus!
