//! The false ending: the last screenshot, pasted on a card, tilts up a
//! hundredth of a radian a frame with a creak until it stands past upright,
//! waits two seconds, then falls over backwards with a second creak while
//! the story moves on.
use vstd::prelude::*;
use crate::states::AppState;

verus! {

/// Whether the card of the false ending is set up, so that it may move.
#[derive(Clone, Copy, PartialEq, Eq, Debug, Structural)]
pub struct JokerSetUp(pub bool);

/// The phases of the false ending.
#[derive(Clone, Copy, PartialEq, Eq, Debug, Structural)]
pub enum SuperLocalState {
    Setup,
    Game,
    JokerUp,
    JokerDown,
}

impl Default for SuperLocalState {
    fn default() -> (r: Self)
        ensures
            r == SuperLocalState::Setup,
    {
        SuperLocalState::Setup
    }
}

/// The card's fall: whether it has begun, how many frames it has turned,
/// and a timer.
#[derive(Clone, Copy, PartialEq, Eq, Debug, Structural)]
pub struct FallStart {
    pub start: bool,
    pub num: usize,
    pub timer: u64,
}

/// The card's climb: how many frames it has turned, how long it has stood
/// since, in milliseconds, and whether it has climbed.
#[derive(Clone, Copy, PartialEq, Eq, Debug, Structural)]
pub struct ClimbStart {
    pub num: usize,
    pub timer: u64,
    pub climbed: bool,
}

/// The frames of climbing after which the card has turned past a quarter
/// turn, at a hundredth of a radian a frame.
pub const CLIMB_STEPS: usize = 158;

/// The frames of falling after which the card has turned past half a turn.
pub const FALL_STEPS: usize = 315;

/// How long the card stands before it falls, in milliseconds.
pub const STAND_TIME: u64 = 2000;

/// What a frame of the false ending does.
#[derive(Clone, Copy, PartialEq, Eq, Debug, Structural)]
pub struct MonkeStep {
    /// The first creak, as the climb begins.
    pub creak1: bool,
    /// The card turns one step up.
    pub climb_rotates: bool,
    /// The second creak, as the fall begins.
    pub creak2: bool,
    /// The card turns one step over.
    pub fall_rotates: bool,
    /// The game to go on with.
    pub next_app_state: Option<AppState>,
    /// The phase to go to.
    pub super_state: Option<SuperLocalState>,
}

/// One frame of `dt_ms` milliseconds of the false ending, from the climb
/// and the fall before it: the card climbs one step a frame, the first
/// step with a creak, until it has turned past a quarter turn; then it
/// stands, and after two seconds it falls, one step a frame; the first step
/// of the fall creaks and moves the story on, and once it has turned past
/// half a turn the ending is over.
pub open spec fn spec_monke_fall(climb: ClimbStart, fall: FallStart, dt_ms: u32) -> (ClimbStart, FallStart, MonkeStep) {
    let climbing = climb.num < CLIMB_STEPS;
    let stood = if climb.timer + dt_ms > u64::MAX { u64::MAX as int } else { climb.timer + dt_ms };
    let falls = fall.start || (!climbing && stood >= STAND_TIME);
    let first = falls && fall.num == 0;
    (
        if climbing { ClimbStart { num: (climb.num + 1) as usize, ..climb } } else { ClimbStart { timer: stood as u64, ..climb } },
        FallStart { start: falls, num: if falls { (fall.num + 1) as usize } else { fall.num }, ..fall },
        MonkeStep {
            creak1: climbing && climb.num == 0,
            climb_rotates: climbing,
            creak2: first,
            fall_rotates: falls,
            next_app_state: if first { Some(AppState::Novel) } else { None },
            super_state: if falls && fall.num >= FALL_STEPS {
                Some(SuperLocalState::JokerDown)
            } else if first {
                Some(SuperLocalState::JokerUp)
            } else {
                None
            },
        },
    )
}

/// One frame of `dt_ms` milliseconds of the false ending.
pub fn monke_fall(climb: &mut ClimbStart, fall: &mut FallStart, dt_ms: u32) -> (r: MonkeStep)
    requires
        old(fall).num < usize::MAX,
    ensures
        (*final(climb), *final(fall), r) == spec_monke_fall(*old(climb), *old(fall), dt_ms),
{
    let mut r = MonkeStep {
        creak1: false,
        climb_rotates: false,
        creak2: false,
        fall_rotates: false,
        next_app_state: None,
        super_state: None,
    };
    if climb.num >= CLIMB_STEPS {
        climb.timer = climb.timer.saturating_add(dt_ms as u64);
        if climb.timer >= STAND_TIME {
            fall.start = true;
        }
    } else {
        if climb.num == 0 {
            r.creak1 = true;
        }
        r.climb_rotates = true;
        climb.num = climb.num + 1;
    }
    if fall.start {
        if fall.num == 0 {
            r.next_app_state = Some(AppState::Novel);
            r.super_state = Some(SuperLocalState::JokerUp);
            r.creak2 = true;
        }
        if fall.num >= FALL_STEPS {
            r.super_state = Some(SuperLocalState::JokerDown);
        }
        r.fall_rotates = true;
        fall.num = fall.num + 1;
    }
    r
}

/// Once the card falls it keeps falling, and the story moves on only on
/// the first frame of the fall: never on the frame after.
pub proof fn lemma_story_moves_on_once(climb: ClimbStart, fall: FallStart, dt1: u32, dt2: u32)
    requires
        fall.num < usize::MAX,
    ensures
        ({
            let (c1, f1, r1) = spec_monke_fall(climb, fall, dt1);
            &&& fall.start ==> f1.start
            &&& r1.next_app_state is Some ==> spec_monke_fall(c1, f1, dt2).2.next_app_state is None
        }),
{
}

} // verus!
