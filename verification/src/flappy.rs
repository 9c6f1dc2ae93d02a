//! The flapping mini-game: pipes scroll in from the right at a steady
//! rhythm, and the pipes that left the screen are used again instead of
//! making new ones.
use vstd::prelude::*;
use crate::states::{AppState, LastScreenshot, spec_requested};

verus! {

/// Marks the flapping player.
#[derive(Clone, Copy, PartialEq, Eq, Debug, Default, Structural)]
pub struct Pacman;

/// Marks the picture that slides away when the game begins.
#[derive(Clone, Copy, PartialEq, Eq, Debug, Default, Structural)]
pub struct TransitionScreen;

/// The time between two pipes, in milliseconds.
pub const FLAPPY_PIPE_SPAWN_DELAY: u64 = 1500;

/// The pipes made so far (by entity bits), the time since the last pipe
/// came in, in milliseconds, and the pipes that left the screen, ready to
/// be used again, the next one last.
pub struct Pipes {
    pub pipes: Vec<u64>,
    pub since_prev: u64,
    pub buffer: Vec<u64>,
}

/// The pipes among `pipes` marked in `off`, in order.
pub open spec fn gone_pipes(pipes: Seq<u64>, off: Seq<bool>) -> Seq<u64>
    decreases pipes.len(),
{
    if pipes.len() == 0 {
        seq![]
    } else {
        let rest = gone_pipes(pipes.drop_last(), off.take(pipes.len() - 1));
        if off[pipes.len() - 1] {
            rest.push(pipes.last())
        } else {
            rest
        }
    }
}

/// Every pipe in `gone_pipes` is one of the pipes.
proof fn lemma_gone_are_pipes(pipes: Seq<u64>, off: Seq<bool>)
    ensures
        forall|x: u64| #[trigger] gone_pipes(pipes, off).contains(x) ==> pipes.contains(x),
    decreases pipes.len(),
{
    if pipes.len() > 0 {
        lemma_gone_are_pipes(pipes.drop_last(), off.take(pipes.len() - 1));
        let rest = gone_pipes(pipes.drop_last(), off.take(pipes.len() - 1));
        assert forall|x: u64| #[trigger] gone_pipes(pipes, off).contains(x) implies pipes.contains(x) by {
            if off[pipes.len() - 1] {
                crate::seqs::lemma_push_contains(rest, pipes.last());
                if x == pipes.last() {
                    assert(pipes[pipes.len() - 1] == x);
                } else {
                    assert(rest.contains(x));
                    let k = choose|k: int| 0 <= k < pipes.drop_last().len() && pipes.drop_last()[k] == x;
                    assert(pipes[k] == x);
                }
            } else {
                let k = choose|k: int| 0 <= k < pipes.drop_last().len() && pipes.drop_last()[k] == x;
                assert(pipes[k] == x);
            }
        }
    }
}

/// What comes in when it is time for a new pipe.
#[derive(Clone, Copy, PartialEq, Eq, Debug, Structural)]
pub enum PipeChoice {
    /// Not yet time.
    Nothing,
    /// A pipe that left the screen comes in again.
    Reuse(u64),
    /// A new pipe is to be made, and then added with `add_pipe`.
    Spawn,
}

impl Pipes {
    /// Every pipe ready to be used again is one of the pipes made.
    pub open spec fn wf(&self) -> bool {
        forall|x: u64| #[trigger] self.buffer@.contains(x) ==> self.pipes@.contains(x)
    }

    /// The pipes when the game begins: none yet, and the first one due at
    /// once.
    pub fn new() -> (r: Self)
        ensures
            r.wf(),
            r.pipes@.len() == 0,
            r.buffer@.len() == 0,
            r.since_prev == 100_000,
    {
        Pipes { pipes: Vec::new(), since_prev: 100_000, buffer: Vec::new() }
    }

    /// A new pipe was made for the `Spawn` choice.
    pub fn add_pipe(&mut self, e: u64)
        requires
            old(self).wf(),
        ensures
            final(self).wf(),
            final(self).pipes@ == old(self).pipes@.push(e),
            final(self).buffer@ == old(self).buffer@,
            final(self).since_prev == old(self).since_prev,
    {
        let ghost before = self.pipes@;
        self.pipes.push(e);
        proof {
            assert forall|x: u64| #[trigger] self.buffer@.contains(x) implies self.pipes@.contains(x) by {
                crate::seqs::lemma_push_contains(before, e);
            }
        }
    }

    /// A frame of `dt_ms` milliseconds: the pipes marked in `offscreen`
    /// (one mark per pipe, in order) left the screen and are kept for use
    /// again; when the time since the last pipe exceeds the delay, the
    /// count starts over and the pipe kept last comes in again, or a new
    /// one is to be made when none is kept.
    pub fn tick_pipes(&mut self, offscreen: &Vec<bool>, dt_ms: u32) -> (r: PipeChoice)
        requires
            old(self).wf(),
            offscreen@.len() == old(self).pipes@.len(),
        ensures
            final(self).wf(),
            final(self).pipes@ == old(self).pipes@,
            ({
                let buf = old(self).buffer@ + gone_pipes(old(self).pipes@, offscreen@);
                let t = if old(self).since_prev + dt_ms > u64::MAX { u64::MAX as int } else { old(self).since_prev + dt_ms };
                if t > FLAPPY_PIPE_SPAWN_DELAY {
                    &&& final(self).since_prev == 0
                    &&& buf.len() != 0 ==> r == PipeChoice::Reuse(buf.last()) && final(self).buffer@ == buf.drop_last()
                    &&& buf.len() == 0 ==> r == PipeChoice::Spawn && final(self).buffer@.len() == 0
                } else {
                    &&& final(self).since_prev == t
                    &&& r == PipeChoice::Nothing
                    &&& final(self).buffer@ == buf
                }
            }),
    {
        self.since_prev = self.since_prev.saturating_add(dt_ms as u64);
        let ghost start = self.buffer@;
        let mut i: usize = 0;
        while i < self.pipes.len()
            invariant
                i <= self.pipes@.len(),
                self.pipes@ == old(self).pipes@,
                offscreen@.len() == self.pipes@.len(),
                start == old(self).buffer@,
                self.since_prev == (if old(self).since_prev + dt_ms > u64::MAX { u64::MAX as int } else { old(self).since_prev + dt_ms }),
                self.buffer@ == start + gone_pipes(self.pipes@.take(i as int), offscreen@.take(i as int)),
            decreases self.pipes@.len() - i,
        {
            let p = self.pipes[i];
            assert(self.pipes@.take(i + 1).drop_last() =~= self.pipes@.take(i as int));
            assert(offscreen@.take(i + 1).take(i as int) =~= offscreen@.take(i as int));
            if offscreen[i] {
                self.buffer.push(p);
                assert(self.buffer@ =~= start + gone_pipes(self.pipes@.take(i + 1), offscreen@.take(i + 1)));
            } else {
                assert(self.buffer@ =~= start + gone_pipes(self.pipes@.take(i + 1), offscreen@.take(i + 1)));
            }
            i = i + 1;
        }
        assert(self.pipes@.take(i as int) =~= self.pipes@);
        assert(offscreen@.take(i as int) =~= offscreen@);
        proof {
            lemma_gone_are_pipes(self.pipes@, offscreen@);
            let buf = self.buffer@;
            assert forall|x: u64| #[trigger] buf.contains(x) implies self.pipes@.contains(x) by {
                let k = choose|k: int| 0 <= k < buf.len() && buf[k] == x;
                if k < start.len() {
                    assert(start[k] == x);
                    assert(start.contains(x));
                } else {
                    let g = gone_pipes(self.pipes@, offscreen@);
                    assert(g[k - start.len()] == x);
                    assert(g.contains(x));
                }
            }
        }
        if self.since_prev > FLAPPY_PIPE_SPAWN_DELAY {
            self.since_prev = 0;
            let ghost buf = self.buffer@;
            match self.buffer.pop() {
                Some(p) => {
                    proof {
                        assert forall|x: u64| #[trigger] self.buffer@.contains(x) implies self.pipes@.contains(x) by {
                            let k = choose|k: int| 0 <= k < self.buffer@.len() && self.buffer@[k] == x;
                            assert(buf[k] == x);
                            assert(buf.contains(x));
                        }
                    }
                    PipeChoice::Reuse(p)
                },
                None => PipeChoice::Spawn,
            }
        } else {
            PipeChoice::Nothing
        }
    }
}

/// How a pipe is made: two colliding halves, each a rectangle of `width`
/// by `height` pixels drawn at a quarter of their size, one above and one
/// below the gap, `offset` pixels from the middle, at depth `depth`.
#[derive(Clone, Copy, PartialEq, Eq, Debug, Structural)]
pub struct PipeSpawn {
    pub width: u32,
    pub height: u32,
    pub scale_percent: u32,
    pub offset: i32,
    pub depth: i32,
}

/// A new pipe: its halves are a quarter of 120 by 884 pixels, 150 pixels
/// above and below the middle of the gap.
pub fn spawn_pipe() -> (r: PipeSpawn)
    ensures
        r == (PipeSpawn { width: 120, height: 884, scale_percent: 25, offset: 150, depth: 5 }),
{
    PipeSpawn { width: 120, height: 884, scale_percent: 25, offset: 150, depth: 5 }
}

/// What a collision does in the flapping game.
#[derive(Clone, Copy, PartialEq, Eq, Debug, Structural)]
pub struct FlappyCrash {
    /// A screenshot is taken on the way to the false ending.
    pub screenshot: bool,
    /// The player stops being a body and falls no more.
    pub stop_pacman: bool,
}

/// A collision during the flapping game proper that involves the player
/// ends the game: a screenshot is asked for (one at a time) and the player
/// stops; anything else does nothing.
pub fn collision_handler<H>(state: AppState, in_game: bool, involves_pacman: bool, shot: &mut LastScreenshot<H>) -> (r: FlappyCrash)
    ensures
        ({
            let crash = state == AppState::FlappyBird && in_game && involves_pacman;
            &&& r.stop_pacman == crash
            &&& r.screenshot == (crash && !old(shot).awaiting)
            &&& *final(shot) == (if crash { spec_requested(*old(shot)) } else { *old(shot) })
        }),
{
    if state != AppState::FlappyBird || !in_game || !involves_pacman {
        return FlappyCrash { screenshot: false, stop_pacman: false };
    }
    let screenshot = shot.request();
    FlappyCrash { screenshot, stop_pacman: true }
}

/// The speed at which the player leaves after winning, in thousandths of
/// a pixel per millisecond.
pub const FLAPPY_BIRD_OUT_SPEED: i64 = 500;

/// Where the player has left the screen, in thousandths of a pixel.
pub const FLAPPY_OUT_BOUND: i64 = 388_000;

/// The longest frame the game takes into account, in milliseconds.
pub const MAX_DT: u32 = 100;

/// A frame after winning: the player flies off to the right, and once it
/// is off the screen the runner game begins.
pub fn tick_win(x: &mut i64, dt_ms: u32) -> (r: Option<AppState>)
    requires
        *old(x) <= i64::MAX - FLAPPY_BIRD_OUT_SPEED * (MAX_DT as int),
    ensures
        *final(x) == *old(x) + FLAPPY_BIRD_OUT_SPEED * (if dt_ms < MAX_DT { dt_ms as int } else { MAX_DT as int }),
        r == (if *final(x) >= FLAPPY_OUT_BOUND { Some(AppState::Geometry) } else { None }),
{
    let dt: u32 = if dt_ms < MAX_DT { dt_ms } else { MAX_DT };
    *x = *x + FLAPPY_BIRD_OUT_SPEED * (dt as i64);
    if *x >= FLAPPY_OUT_BOUND {
        Some(AppState::Geometry)
    } else {
        None
    }
}

} // verus!
