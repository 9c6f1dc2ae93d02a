//! The finale: the lights go out, the bear's question appears with an organ
//! chord, and then every picture of the journey zooms away.
use vstd::prelude::*;

verus! {

/// The pictures of the finale.
#[derive(Clone, Copy, PartialEq, Eq, Debug, Structural)]
pub enum SpriteType {
    Black,
    BearQuestion,
    CJ,
    Joker,
    Miami,
    Cactus,
    FlappyBird,
    Bevy,
    Me,
}

/// The place of each picture in the table of starting positions; the black
/// backdrop shares the bear's place.
pub open spec fn spec_sprite_index(t: SpriteType) -> usize {
    match t {
        SpriteType::Black => 0,
        SpriteType::BearQuestion => 0,
        SpriteType::CJ => 1,
        SpriteType::Joker => 2,
        SpriteType::Miami => 3,
        SpriteType::Cactus => 4,
        SpriteType::FlappyBird => 5,
        SpriteType::Bevy => 6,
        SpriteType::Me => 7,
    }
}

/// The place of a picture in the table of starting positions.
pub fn sprite_index(t: SpriteType) -> (r: usize)
    ensures
        r == spec_sprite_index(t),
{
    match t {
        SpriteType::Black => 0,
        SpriteType::BearQuestion => 0,
        SpriteType::CJ => 1,
        SpriteType::Joker => 2,
        SpriteType::Miami => 3,
        SpriteType::Cactus => 4,
        SpriteType::FlappyBird => 5,
        SpriteType::Bevy => 6,
        SpriteType::Me => 7,
    }
}

/// When the lights go out, in milliseconds after the finale began.
pub const LIGHTS_OUT_TIMING: u64 = 100;
/// When the bear's question appears.
pub const QUESTION_TIMING: u64 = LIGHTS_OUT_TIMING + 1000;
/// How long the question stands before the zoom begins.
pub const QUESTION_TO_ZOOMOUT_DELTA: u64 = 2000;
/// When the zoom begins.
pub const START_ZOOMOUT_TIMING: u64 = QUESTION_TIMING + QUESTION_TO_ZOOMOUT_DELTA;

/// The cues of the finale, each with its sound.
#[derive(Clone, Copy, PartialEq, Eq, Debug, Structural)]
pub enum FinaleCue {
    /// The breaker clicks and the lights go out.
    LightsOut,
    /// The organ plays and the bear's question shows.
    FreddyAppears,
    /// The drone plays and the zoom begins.
    ZoomOut,
}

/// Which cues have been given.
#[derive(Clone, Copy, PartialEq, Eq, Debug, Structural)]
pub struct Played {
    pub lights_out: bool,
    pub question: bool,
    pub zoom_out: bool,
}

impl Default for Played {
    fn default() -> (r: Self)
        ensures
            r == (Played { lights_out: false, question: false, zoom_out: false }),
    {
        Played { lights_out: false, question: false, zoom_out: false }
    }
}

/// The cue given while looking at one picture at time `counter`: the
/// latest cue that is due and not yet given, where the question is only
/// given while looking at the bear's picture.
pub open spec fn timing_step(counter: u64, p: Played, t: SpriteType) -> (Played, Option<FinaleCue>) {
    if counter >= START_ZOOMOUT_TIMING && !p.zoom_out {
        (Played { zoom_out: true, ..p }, Some(FinaleCue::ZoomOut))
    } else if counter >= QUESTION_TIMING && !p.question {
        if t == SpriteType::BearQuestion {
            (Played { question: true, ..p }, Some(FinaleCue::FreddyAppears))
        } else {
            (p, None)
        }
    } else if counter >= LIGHTS_OUT_TIMING && !p.lights_out {
        (Played { lights_out: true, ..p }, Some(FinaleCue::LightsOut))
    } else {
        (p, None)
    }
}

/// The cues given while looking at the pictures in order.
pub open spec fn timing_fold(counter: u64, p: Played, sprites: Seq<SpriteType>) -> (Played, Seq<FinaleCue>)
    decreases sprites.len(),
{
    if sprites.len() == 0 {
        (p, seq![])
    } else {
        let before = timing_fold(counter, p, sprites.drop_last());
        let step = timing_step(counter, before.0, sprites.last());
        (step.0, match step.1 {
            Some(c) => before.1.push(c),
            None => before.1,
        })
    }
}

/// One frame of the finale at `counter_ms` milliseconds: each picture in
/// turn may give the cue that is due; the cues given, in order.
pub fn timing_system(counter_ms: u64, played: &mut Played, sprites: &Vec<SpriteType>) -> (r: Vec<FinaleCue>)
    ensures
        (*final(played), r@) == timing_fold(counter_ms, *old(played), sprites@),
{
    let mut cues: Vec<FinaleCue> = Vec::new();
    let mut i: usize = 0;
    while i < sprites.len()
        invariant
            i <= sprites@.len(),
            (*played, cues@) == timing_fold(counter_ms, *old(played), sprites@.take(i as int)),
        decreases sprites@.len() - i,
    {
        let t = sprites[i];
        assert(sprites@.take(i + 1).drop_last() =~= sprites@.take(i as int));
        if counter_ms >= START_ZOOMOUT_TIMING && !played.zoom_out {
            played.zoom_out = true;
            cues.push(FinaleCue::ZoomOut);
        } else if counter_ms >= QUESTION_TIMING && !played.question {
            if t == SpriteType::BearQuestion {
                played.question = true;
                cues.push(FinaleCue::FreddyAppears);
            }
        } else if counter_ms >= LIGHTS_OUT_TIMING && !played.lights_out {
            played.lights_out = true;
            cues.push(FinaleCue::LightsOut);
        }
        i = i + 1;
    }
    assert(sprites@.take(i as int) =~= sprites@);
    cues
}

/// Each cue is given at most once: a cue already given is never given
/// again, whatever the pictures.
pub proof fn lemma_cues_once(counter: u64, p: Played, sprites: Seq<SpriteType>)
    ensures
        p.lights_out ==> !timing_fold(counter, p, sprites).1.contains(FinaleCue::LightsOut) && timing_fold(counter, p, sprites).0.lights_out,
        p.question ==> !timing_fold(counter, p, sprites).1.contains(FinaleCue::FreddyAppears) && timing_fold(counter, p, sprites).0.question,
        p.zoom_out ==> !timing_fold(counter, p, sprites).1.contains(FinaleCue::ZoomOut) && timing_fold(counter, p, sprites).0.zoom_out,
    decreases sprites.len(),
{
    if sprites.len() > 0 {
        lemma_cues_once(counter, p, sprites.drop_last());
        let before = timing_fold(counter, p, sprites.drop_last());
        let step = timing_step(counter, before.0, sprites.last());
        if let Some(c) = step.1 {
            crate::seqs::lemma_push_contains(before.1, c);
        }
    }
}

/// A frame of the wait before the zoom, `timer_ms` milliseconds into it:
/// once the question has stood long enough, the zoom begins if the bear's
/// question is on screen; until then the wait goes on. Returns whether the
/// zoom begins and the wait's new length.
pub fn start_zoom(timer_ms: u64, dt_ms: u32, question_visible: bool) -> (r: (bool, u64))
    ensures
        timer_ms >= QUESTION_TO_ZOOMOUT_DELTA ==> r == (question_visible, timer_ms),
        timer_ms < QUESTION_TO_ZOOMOUT_DELTA ==> r == (false, (timer_ms + dt_ms) as u64),
{
    if timer_ms >= QUESTION_TO_ZOOMOUT_DELTA {
        (question_visible, timer_ms)
    } else {
        (false, timer_ms + (dt_ms as u64))
    }
}

/// The pictures (by entity bits and kind) to remove once the pictures of
/// kind `to_remove` have shrunk away: all of that kind.
pub fn despawn_shrinked(to_remove: Option<SpriteType>, sprites: &Vec<(u64, SpriteType)>) -> (r: Vec<u64>)
    ensures
        to_remove is None ==> r@.len() == 0,
        to_remove matches Some(t) ==> forall|e: u64|
            r@.contains(e) <==> exists|k: int| 0 <= k < sprites@.len() && #[trigger] sprites@[k] == (e, t),
{
    let mut r: Vec<u64> = Vec::new();
    let t = match to_remove {
        Some(t) => t,
        None => return r,
    };
    let mut i: usize = 0;
    while i < sprites.len()
        invariant
            i <= sprites@.len(),
            forall|e: u64| r@.contains(e) <==> exists|k: int| 0 <= k < i && #[trigger] sprites@[k] == (e, t),
        decreases sprites@.len() - i,
    {
        let (e, kind) = sprites[i];
        let ghost before = r@;
        if kind == t {
            r.push(e);
        }
        proof {
            crate::seqs::lemma_push_contains(before, e);
        }
        assert forall|x: u64| r@.contains(x) <==> exists|k: int| 0 <= k < i + 1 && #[trigger] sprites@[k] == (x, t) by {
            if exists|k: int| 0 <= k < i + 1 && #[trigger] sprites@[k] == (x, t) {
                let k = choose|k: int| 0 <= k < i + 1 && #[trigger] sprites@[k] == (x, t);
                if k < i {
                    assert(before.contains(x));
                }
            }
        }
        i = i + 1;
    }
    r
}

} // verus!
