//! The opening scene: Pac-Man walks across the title, chomping, and the
//! first game begins once he has crossed it.
use vstd::prelude::*;
use crate::states::AppState;

verus! {

/// The longest frame the scene takes into account, in milliseconds.
pub const MAX_DT: u32 = 100;

/// How long a chomp lasts, in milliseconds.
pub const ANIM_DELAY: u64 = 60;

/// Pac-Man's walking speed, in thousandths of a pixel per millisecond.
pub const WALK_SPEED: i64 = 400;

/// Half the length of the path, in thousandths of a pixel.
pub const PATH_HALF: i64 = 280_000;

/// Where Pac-Man is (in thousandths of a pixel), the time since the last
/// chomp, in milliseconds, and the frame of his sprite.
#[derive(Clone, Copy, PartialEq, Eq, Debug, Structural)]
pub struct PacmanWalk {
    pub x: i64,
    pub anim_t: u64,
    pub index: usize,
}

impl PacmanWalk {
    /// Pac-Man at the left end of the path, mouth closed.
    pub fn new() -> (r: Self)
        ensures
            r == (PacmanWalk { x: -280_000i64, anim_t: 0, index: 0 }),
    {
        PacmanWalk { x: -PATH_HALF, anim_t: 0, index: 0 }
    }
}

/// One frame of the scene, `dt_ms` milliseconds long but counted as at
/// most a tenth of a second: Pac-Man chomps to his next frame (of three)
/// every 60 milliseconds and walks on; once he is past the end of the path
/// the flapping game begins.
pub fn tick(w: &mut PacmanWalk, dt_ms: u32) -> (r: Option<AppState>)
    requires
        old(w).index < usize::MAX,
        old(w).x <= i64::MAX - WALK_SPEED * (MAX_DT as int),
        old(w).anim_t <= u64::MAX - (MAX_DT as int),
    ensures
        ({
            let dt = if dt_ms < MAX_DT { dt_ms as int } else { MAX_DT as int };
            let t = old(w).anim_t + dt;
            let x = old(w).x + WALK_SPEED * dt;
            &&& final(w).x == x
            &&& final(w).anim_t == (if t >= ANIM_DELAY { 0int } else { t })
            &&& final(w).index == (if t >= ANIM_DELAY { ((old(w).index + 1) % 3) as usize } else { old(w).index })
            &&& r == (if x > PATH_HALF { Some(AppState::FlappyBird) } else { None })
        }),
{
    let dt: u32 = if dt_ms < MAX_DT { dt_ms } else { MAX_DT };
    w.anim_t = w.anim_t + (dt as u64);
    if w.anim_t >= ANIM_DELAY {
        w.index = (w.index + 1) % 3;
        w.anim_t = 0;
    }
    w.x = w.x + WALK_SPEED * (dt as i64);
    if w.x > PATH_HALF {
        Some(AppState::FlappyBird)
    } else {
        None
    }
}

} // verus!
