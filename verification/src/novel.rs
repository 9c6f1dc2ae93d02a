//! The visual novel: a script of stages, each with a background, the actors
//! on screen, the music, an optional sound effect, a speaker and a line of
//! text that is typed out one character at a time.
use vstd::prelude::*;
use vstd::string::StrSliceExecFns;

verus! {

/// The characters that can appear on screen.
#[derive(Clone, Copy, PartialEq, Eq, Debug, Structural)]
pub enum Actor {
    Freddy,
    FreddyNight,
    CJ,
    Bob,
    Ass,
    Bal,
    Time,
    Rust,
    Go,
}

/// The backdrops of the novel.
#[derive(Clone, Copy, PartialEq, Eq, Debug, Structural)]
pub enum Background {
    StreetAutumnNight,
    LivingroomDark,
    BedroomNight,
    KitchenNight,
    GroveStreet,
    Computer,
}

/// One-shot sounds a stage can play when it begins.
#[derive(Clone, Copy, PartialEq, Eq, Debug, Structural)]
pub enum NovelSoundEffect {
    PipeFall,
}

/// The looping tracks of the novel.
#[derive(Clone, Copy, PartialEq, Eq, Debug, Structural)]
pub enum NovelMusic {
    Journey,
    Battle,
}

impl Default for Actor {
    fn default() -> (r: Self)
        ensures
            r == Actor::Freddy,
    {
        Actor::Freddy
    }
}

impl Default for Background {
    fn default() -> (r: Self)
        ensures
            r == Background::StreetAutumnNight,
    {
        Background::StreetAutumnNight
    }
}

impl Default for NovelSoundEffect {
    fn default() -> (r: Self)
        ensures
            r == NovelSoundEffect::PipeFall,
    {
        NovelSoundEffect::PipeFall
    }
}

impl Default for NovelMusic {
    fn default() -> (r: Self)
        ensures
            r == NovelMusic::Journey,
    {
        NovelMusic::Journey
    }
}

/// Where an actor stands: a horizontal offset from the centre of the
/// screen, in pixels, and a uniform scale in percent.
#[derive(Clone, Copy, PartialEq, Eq, Debug, Structural)]
pub struct Placement {
    pub x: i32,
    pub scale_percent: u32,
}

/// The horizontal offset of an actor standing on the left.
pub const LEFT_X: i32 = -150;
/// The horizontal offset of an actor standing on the right.
pub const RIGHT_X: i32 = 150;

impl Default for Placement {
    /// Centre of the screen, natural size.
    fn default() -> (r: Self)
        ensures
            r.x == 0,
            r.scale_percent == 100,
    {
        Placement { x: 0, scale_percent: 100 }
    }
}

/// One actor shown during a stage.
#[derive(Clone, Copy, PartialEq, Eq, Debug, Structural)]
pub struct ActorAppearance {
    pub actor: Actor,
    pub flip_x: bool,
    pub transform: Placement,
}

impl Default for ActorAppearance {
    fn default() -> (r: Self)
        ensures
            r.actor == Actor::Freddy,
            !r.flip_x,
            r.transform == (Placement { x: 0, scale_percent: 100 }),
    {
        ActorAppearance { actor: Actor::Freddy, flip_x: false, transform: Placement { x: 0, scale_percent: 100 } }
    }
}

/// One screen of the novel.
pub struct NovelStage {
    pub actors: Vec<ActorAppearance>,
    pub sfx: Option<NovelSoundEffect>,
    pub music: NovelMusic,
    pub speaker: String,
    pub bg: Background,
    pub text: String,
}

/// How long the typing clock takes to type one character, in
/// milliseconds: twenty characters a second.
pub const NOVEL_CHAR_DELAY_MS: u32 = 50;

/// The reader's progress through the script: the current stage, how many
/// characters of its text are already on screen, and the typing clock, the
/// milliseconds since the last character was typed.
pub struct NovelState {
    pub stages: Vec<NovelStage>,
    pub current_stage: usize,
    pub chars_shown: usize,
    pub chars_total: usize,
    pub current_music: NovelMusic,
    pub typing_ms: u32,
}

/// The first `n` characters of `text`, or all of it when it is shorter.
pub open spec fn text_prefix(text: Seq<char>, n: int) -> Seq<char> {
    if n < text.len() {
        text.take(n)
    } else {
        text
    }
}

impl NovelState {
    /// The stage the reader is on.
    pub open spec fn stage(self) -> NovelStage {
        self.stages@[self.current_stage as int]
    }

    /// The full text of the current stage.
    pub open spec fn stage_text(self) -> Seq<char> {
        self.stage().text@
    }

    /// The text that is currently on screen.
    pub open spec fn shown_text(self) -> Seq<char> {
        text_prefix(self.stage_text(), self.chars_shown as int)
    }

    /// The reader stands on a stage of the script, the count of characters
    /// is that of the stage's text, no more of it is shown than it has, and
    /// the typing clock has not yet reached a character's delay.
    pub open spec fn wf(self) -> bool {
        &&& self.current_stage < self.stages@.len()
        &&& self.chars_total == self.stage_text().len()
        &&& self.chars_shown <= self.chars_total
        &&& self.typing_ms < NOVEL_CHAR_DELAY_MS
    }

    /// The reader is on the last stage and its text is fully shown.
    pub open spec fn spec_is_finished(self) -> bool {
        self.current_stage == self.stages@.len() - 1 && self.chars_shown == self.chars_total
    }

    /// Move to the following stage and start typing its text from nothing,
    /// on a fresh typing clock.
    pub fn next_stage(&mut self)
        requires
            old(self).current_stage + 1 < old(self).stages@.len(),
        ensures
            final(self).stages == old(self).stages,
            final(self).current_music == old(self).current_music,
            final(self).current_stage == old(self).current_stage + 1,
            final(self).chars_shown == 0,
            final(self).chars_total == final(self).stage_text().len(),
            final(self).typing_ms == 0,
            final(self).wf(),
    {
        let n = self.stages.len();
        assert(self.current_stage + 1 < n);
        self.current_stage = self.current_stage + 1;
        self.chars_shown = 0;
        self.chars_total = self.full_text().unicode_len();
        self.typing_ms = 0;
    }

    /// The backdrop of the current stage.
    pub fn bg(&self) -> (r: &Background)
        requires
            self.current_stage < self.stages@.len(),
        ensures
            *r == self.stage().bg,
    {
        &self.stages[self.current_stage].bg
    }

    /// The actors on screen during the current stage.
    pub fn actors(&self) -> (r: &Vec<ActorAppearance>)
        requires
            self.current_stage < self.stages@.len(),
        ensures
            r@ == self.stage().actors@,
    {
        &self.stages[self.current_stage].actors
    }

    /// The part of the current stage's text that has been typed so far.
    pub fn text(&self) -> (r: &str)
        requires
            self.current_stage < self.stages@.len(),
        ensures
            r@ == self.shown_text(),
    {
        let s = self.stages[self.current_stage].text.as_str();
        let len = s.unicode_len();
        let end = if self.chars_shown < len {
            self.chars_shown
        } else {
            len
        };
        let r = s.substring_char(0, end);
        assert(s@.subrange(0, end as int) =~= self.shown_text());
        r
    }

    /// The name shown above the current stage's text.
    pub fn speaker(&self) -> (r: &String)
        requires
            self.current_stage < self.stages@.len(),
        ensures
            r@ == self.stage().speaker@,
    {
        &self.stages[self.current_stage].speaker
    }

    /// The sound the current stage plays when it begins, if any.
    pub fn sfx(&self) -> (r: Option<&NovelSoundEffect>)
        requires
            self.current_stage < self.stages@.len(),
        ensures
            match self.stage().sfx {
                Some(e) => r == Some(&e),
                None => r is None,
            },
    {
        self.stages[self.current_stage].sfx.as_ref()
    }

    /// The track of the current stage.
    pub fn music(&self) -> (r: &NovelMusic)
        requires
            self.current_stage < self.stages@.len(),
        ensures
            *r == self.stage().music,
    {
        &self.stages[self.current_stage].music
    }

    /// The whole text of the current stage.
    pub fn full_text(&self) -> (r: &str)
        requires
            self.current_stage < self.stages@.len(),
        ensures
            r@ == self.stage_text(),
    {
        self.stages[self.current_stage].text.as_str()
    }

    /// Show the rest of the current stage's text at once.
    pub fn read_all_text(&mut self)
        ensures
            final(self).stages == old(self).stages,
            final(self).current_stage == old(self).current_stage,
            final(self).current_music == old(self).current_music,
            final(self).chars_total == old(self).chars_total,
            final(self).chars_shown == old(self).chars_total,
            final(self).typing_ms == old(self).typing_ms,
    {
        self.chars_shown = self.chars_total;
    }

    /// Whether the reader has reached the end of the last stage.
    pub fn is_finished(&self) -> (r: bool)
        requires
            self.stages@.len() > 0,
        ensures
            r == self.spec_is_finished(),
    {
        self.current_stage == self.stages.len() - 1 && self.is_all_chars_shown()
    }

    /// Whether the current stage's text is fully on screen.
    pub fn is_all_chars_shown(&self) -> (r: bool)
        ensures
            r == (self.chars_shown == self.chars_total),
    {
        self.chars_shown == self.chars_total
    }

    /// Type one more character of the current stage's text.
    pub fn show_next_char(&mut self)
        requires
            old(self).chars_shown < usize::MAX,
        ensures
            final(self).stages == old(self).stages,
            final(self).current_stage == old(self).current_stage,
            final(self).current_music == old(self).current_music,
            final(self).chars_total == old(self).chars_total,
            final(self).chars_shown == old(self).chars_shown + 1,
            final(self).typing_ms == old(self).typing_ms,
            old(self).wf() && old(self).chars_shown < old(self).chars_total ==> final(self).wf(),
    {
        self.chars_shown = self.chars_shown + 1;
    }

    /// Go back to the beginning of the script, on a fresh typing clock.
    pub fn init(&mut self)
        requires
            old(self).stages@.len() > 0,
        ensures
            final(self).stages == old(self).stages,
            final(self).current_music == old(self).current_music,
            final(self).current_stage == 0,
            final(self).chars_shown == 0,
            final(self).chars_total == final(self).stage_text().len(),
            final(self).typing_ms == 0,
            final(self).wf(),
    {
        self.current_stage = 0;
        self.chars_shown = 0;
        self.chars_total = self.full_text().unicode_len();
        self.typing_ms = 0;
    }

    /// This state, sent back to the beginning of the script.
    pub fn inited(self) -> (r: Self)
        requires
            self.stages@.len() > 0,
        ensures
            r.stages == self.stages,
            r.current_music == self.current_music,
            r.current_stage == 0,
            r.chars_shown == 0,
            r.chars_total == r.stage_text().len(),
            r.typing_ms == 0,
            r.wf(),
    {
        let mut s = self;
        s.init();
        s
    }
}

/// The text on screen is the beginning of the stage's text, exactly as
/// many characters long as have been typed, and it is the whole text once
/// every character is shown.
pub proof fn lemma_shown_text_is_typed_prefix(s: NovelState)
    requires
        s.wf(),
    ensures
        s.shown_text() == s.stage_text().take(s.chars_shown as int),
        s.shown_text().len() == s.chars_shown,
        s.chars_shown == s.chars_total ==> s.shown_text() == s.stage_text(),
{
    if s.chars_shown as int == s.stage_text().len() {
        assert(s.stage_text().take(s.chars_shown as int) =~= s.stage_text());
    }
}

/// What a frame of the novel did, given whether Space was just pressed.
#[derive(Clone, Copy, PartialEq, Eq, Debug, Structural)]
pub enum NovelTick {
    /// The script is over and Space was not pressed.
    Finished,
    /// The script is over and Space was pressed: the novel ends.
    Leave,
    /// The current text is complete and Space was not pressed.
    AwaitingPress,
    /// Space moved the reader to the next stage; `music_changed` tells
    /// whether its track differs from the previous stage's.
    NextStage { music_changed: bool },
    /// Space cut the typing short: the whole text is on screen.
    RevealedAll,
    /// The text is still being typed: the typing clock ran for the frame,
    /// and `typed` tells whether it typed a character.
    Typing { typed: bool },
}

/// Decide one frame of `dt_ms` milliseconds of the novel: leave at the end
/// of the script, move to the next stage when the text is complete, show
/// the whole text when the reader presses Space while it is being typed,
/// and keep typing otherwise: once the typing clock reaches a character's
/// delay, one more character is typed and the clock starts over.
pub fn tick(state: &mut NovelState, pressed: bool, dt_ms: u32) -> (r: NovelTick)
    requires
        old(state).current_stage < old(state).stages@.len(),
        old(state).chars_shown < usize::MAX,
    ensures
        final(state).stages == old(state).stages,
        final(state).current_music == old(state).current_music,
        old(state).wf() ==> final(state).wf(),
        old(state).spec_is_finished() ==> {
            &&& *final(state) == *old(state)
            &&& r == (if pressed { NovelTick::Leave } else { NovelTick::Finished })
        },
        !old(state).spec_is_finished() && old(state).chars_shown == old(state).chars_total ==> {
            if pressed {
                &&& final(state).current_stage == old(state).current_stage + 1
                &&& final(state).chars_shown == 0
                &&& final(state).typing_ms == 0
                &&& final(state).wf()
                &&& r == (NovelTick::NextStage {
                    music_changed: final(state).stage().music != old(state).stage().music,
                })
            } else {
                &&& *final(state) == *old(state)
                &&& r == NovelTick::AwaitingPress
            }
        },
        old(state).chars_shown != old(state).chars_total ==> {
            if pressed {
                &&& final(state).current_stage == old(state).current_stage
                &&& final(state).chars_total == old(state).chars_total
                &&& final(state).chars_shown == old(state).chars_total
                &&& final(state).typing_ms == old(state).typing_ms
                &&& r == NovelTick::RevealedAll
            } else {
                let typed = old(state).typing_ms + dt_ms >= NOVEL_CHAR_DELAY_MS;
                &&& final(state).current_stage == old(state).current_stage
                &&& final(state).chars_total == old(state).chars_total
                &&& final(state).chars_shown == (if typed {
                    old(state).chars_shown + 1
                } else {
                    old(state).chars_shown as int
                })
                &&& final(state).typing_ms == (if typed { 0 } else { old(state).typing_ms + dt_ms })
                &&& r == (NovelTick::Typing { typed })
            }
        },
{
    if state.is_finished() {
        if pressed {
            return NovelTick::Leave;
        }
        return NovelTick::Finished;
    }
    if state.is_all_chars_shown() {
        if pressed {
            let current = *state.music();
            state.next_stage();
            let next = *state.music();
            return NovelTick::NextStage { music_changed: current != next };
        }
        return NovelTick::AwaitingPress;
    }
    if pressed {
        state.read_all_text();
        return NovelTick::RevealedAll;
    }
    let clock = state.typing_ms.saturating_add(dt_ms);
    if clock >= NOVEL_CHAR_DELAY_MS {
        state.show_next_char();
        state.typing_ms = 0;
        NovelTick::Typing { typed: true }
    } else {
        state.typing_ms = clock;
        NovelTick::Typing { typed: false }
    }
}


/// The backdrop of each stage of the script, in order.
pub open spec fn script_backgrounds() -> Seq<Background> {
    seq![Background::StreetAutumnNight, Background::StreetAutumnNight, Background::GroveStreet, Background::GroveStreet, Background::GroveStreet, Background::GroveStreet, Background::GroveStreet, Background::GroveStreet, Background::StreetAutumnNight, Background::StreetAutumnNight, Background::LivingroomDark, Background::LivingroomDark, Background::LivingroomDark, Background::LivingroomDark, Background::LivingroomDark, Background::LivingroomDark, Background::LivingroomDark, Background::KitchenNight, Background::KitchenNight, Background::KitchenNight, Background::KitchenNight, Background::KitchenNight, Background::Computer, Background::Computer, Background::Computer, Background::Computer, Background::Computer, Background::Computer, Background::Computer, Background::Computer, Background::Computer, Background::Computer]
}

/// The track of each stage of the script, in order.
pub open spec fn script_music() -> Seq<NovelMusic> {
    seq![NovelMusic::Journey, NovelMusic::Journey, NovelMusic::Battle, NovelMusic::Journey, NovelMusic::Journey, NovelMusic::Journey, NovelMusic::Journey, NovelMusic::Journey, NovelMusic::Journey, NovelMusic::Journey, NovelMusic::Journey, NovelMusic::Journey, NovelMusic::Journey, NovelMusic::Journey, NovelMusic::Journey, NovelMusic::Journey, NovelMusic::Journey, NovelMusic::Journey, NovelMusic::Journey, NovelMusic::Journey, NovelMusic::Journey, NovelMusic::Journey, NovelMusic::Journey, NovelMusic::Journey, NovelMusic::Journey, NovelMusic::Journey, NovelMusic::Battle, NovelMusic::Battle, NovelMusic::Battle, NovelMusic::Battle, NovelMusic::Battle, NovelMusic::Battle]
}

/// The sound effect of each stage of the script, in order.
pub open spec fn script_sfx() -> Seq<Option<NovelSoundEffect>> {
    seq![Some(NovelSoundEffect::PipeFall), None, Some(NovelSoundEffect::PipeFall), None, None, None, None, None, None, None, None, None, None, None, None, None, None, None, None, None, None, None, None, None, None, None, None, None, None, None, None, None]
}

/// The actors on screen in each stage of the script, in order.
pub open spec fn script_actors() -> Seq<Seq<ActorAppearance>> {
    seq![
        seq![],
        seq![],
        seq![ActorAppearance { actor: Actor::CJ, flip_x: true, transform: Placement { x: 0, scale_percent: 50 } }],
        seq![ActorAppearance { actor: Actor::CJ, flip_x: true, transform: Placement { x: 0, scale_percent: 50 } }],
        seq![ActorAppearance { actor: Actor::CJ, flip_x: true, transform: Placement { x: 0, scale_percent: 50 } }],
        seq![ActorAppearance { actor: Actor::CJ, flip_x: false, transform: Placement { x: RIGHT_X, scale_percent: 50 } }, ActorAppearance { actor: Actor::Bob, flip_x: false, transform: Placement { x: LEFT_X, scale_percent: 100 } }],
        seq![ActorAppearance { actor: Actor::CJ, flip_x: false, transform: Placement { x: RIGHT_X, scale_percent: 50 } }, ActorAppearance { actor: Actor::Bob, flip_x: false, transform: Placement { x: LEFT_X, scale_percent: 100 } }],
        seq![ActorAppearance { actor: Actor::CJ, flip_x: true, transform: Placement { x: 0, scale_percent: 50 } }],
        seq![],
        seq![],
        seq![],
        seq![],
        seq![ActorAppearance { actor: Actor::Freddy, flip_x: false, transform: Placement { x: 0, scale_percent: 100 } }],
        seq![ActorAppearance { actor: Actor::Freddy, flip_x: true, transform: Placement { x: 0, scale_percent: 100 } }],
        seq![ActorAppearance { actor: Actor::Freddy, flip_x: true, transform: Placement { x: RIGHT_X, scale_percent: 100 } }],
        seq![],
        seq![],
        seq![],
        seq![ActorAppearance { actor: Actor::Bal, flip_x: false, transform: Placement { x: RIGHT_X, scale_percent: 30 } }, ActorAppearance { actor: Actor::Ass, flip_x: false, transform: Placement { x: LEFT_X, scale_percent: 20 } }],
        seq![ActorAppearance { actor: Actor::Bal, flip_x: false, transform: Placement { x: RIGHT_X, scale_percent: 30 } }, ActorAppearance { actor: Actor::Ass, flip_x: false, transform: Placement { x: LEFT_X, scale_percent: 20 } }],
        seq![ActorAppearance { actor: Actor::Bal, flip_x: false, transform: Placement { x: RIGHT_X, scale_percent: 30 } }, ActorAppearance { actor: Actor::Ass, flip_x: false, transform: Placement { x: LEFT_X, scale_percent: 20 } }],
        seq![ActorAppearance { actor: Actor::Bal, flip_x: false, transform: Placement { x: RIGHT_X, scale_percent: 30 } }],
        seq![],
        seq![ActorAppearance { actor: Actor::Time, flip_x: false, transform: Placement { x: 0, scale_percent: 100 } }],
        seq![],
        seq![],
        seq![],
        seq![],
        seq![],
        seq![ActorAppearance { actor: Actor::Rust, flip_x: false, transform: Placement { x: RIGHT_X, scale_percent: 100 } }, ActorAppearance { actor: Actor::Go, flip_x: false, transform: Placement { x: LEFT_X, scale_percent: 100 } }],
        seq![ActorAppearance { actor: Actor::Rust, flip_x: false, transform: Placement { x: RIGHT_X, scale_percent: 100 } }, ActorAppearance { actor: Actor::Go, flip_x: false, transform: Placement { x: LEFT_X, scale_percent: 100 } }],
        seq![ActorAppearance { actor: Actor::Rust, flip_x: false, transform: Placement { x: RIGHT_X, scale_percent: 100 } }, ActorAppearance { actor: Actor::Go, flip_x: false, transform: Placement { x: LEFT_X, scale_percent: 100 } }],
    ]
}

/// The text of each stage of the script, in order.
pub open spec fn script_texts() -> Seq<Seq<char>> {
    seq![
        "What a nice evening!"@,
        "I think I should walk around a bit more..."@,
        "Aye, whatcha doin here man?"@,
        "This ain't your hood"@,
        "Looking for trouble?"@,
        "Chill mate, guy buys stuff from me \nLet him off the hook"@,
        "Fine Bobby, but only this time"@,
        "Now get the hell outa here"@,
        "Well, that was one hell of an encounter"@,
        "I'd better head home..."@,
        "Gotta get some coffee..."@,
        "What's that sound?"@,
        "ur ur \n urur"@,
        ""@,
        ""@,
        ""@,
        "..."@,
        "What coffee do I have here?\nOh right, these two"@,
        "Oh no, darling...\nHe's here for us..."@,
        "No, my love, I can't lose you!\nYou're the love of my life!"@,
        "I have to let him drink me, so you can live another day...\nGoodbye my love..."@,
        "NOOOOOOOO"@,
        "Hmm, I guess I should do some work..."@,
        "Oh yes, it's time for bevy jam!"@,
        "Let's see what's the topic this time"@,
        "..."@,
        "Bevy editor from another world"@,
        "What an interesting choice.\nI guess any game engine needs an editor..."@,
        "But Rust is hard...\nshould I even study rust?"@,
        "There's no point in rust\nBackend can be done with kotlin or golang"@,
        "Rust is definitely faster\nGo even has a garbage collector\nKotlin has a ton of legacy code behind it"@,
        "So what did you choose?"@,
    ]
}

/// The speaker of each stage of the script, in order.
pub open spec fn script_speakers() -> Seq<Seq<char>> {
    seq![""@, ""@, "CJ"@, ""@, ""@, ""@, ""@, ""@, ""@, ""@, ""@, ""@, "Freddy"@, ""@, ""@, ""@, ""@, ""@, ""@, ""@, ""@, ""@, ""@, ""@, ""@, ""@, ""@, ""@, ""@, ""@, ""@, ""@]
}

/// An actor on screen.
fn appear(actor: Actor, flip_x: bool, x: i32, scale_percent: u32) -> (r: ActorAppearance)
    ensures
        r.actor == actor,
        r.flip_x == flip_x,
        r.transform.x == x,
        r.transform.scale_percent == scale_percent,
{
    ActorAppearance { actor, flip_x, transform: Placement { x, scale_percent } }
}

/// A stage of the script.
fn stage(
    bg: Background,
    music: NovelMusic,
    actors: Vec<ActorAppearance>,
    speaker: &str,
    text: &str,
    sfx: Option<NovelSoundEffect>,
) -> (r: NovelStage)
    ensures
        r.bg == bg,
        r.music == music,
        r.actors@ == actors@,
        r.speaker@ == speaker@,
        r.text@ == text@,
        r.sfx == sfx,
{
    NovelStage { actors, sfx, music, speaker: speaker.to_owned(), bg, text: text.to_owned() }
}

impl Default for NovelState {
    /// The whole script, with the reader not yet placed on it.
    fn default() -> (r: Self)
        ensures
            r.stages@.len() == 32,
            r.current_stage == 0,
            r.chars_shown == 0,
            r.chars_total == 0,
            r.current_music == NovelMusic::Journey,
            r.typing_ms == 0,
            forall|i: int|
                0 <= i < 32 ==> {
                    &&& #[trigger] r.stages@[i].bg == script_backgrounds()[i]
                    &&& r.stages@[i].music == script_music()[i]
                    &&& r.stages@[i].sfx == script_sfx()[i]
                    &&& r.stages@[i].actors@ == script_actors()[i]
                    &&& r.stages@[i].text@ == script_texts()[i]
                    &&& r.stages@[i].speaker@ == script_speakers()[i]
                },
    {
        let stages = vec![
            stage(Background::StreetAutumnNight, NovelMusic::Journey, vec![], "", "What a nice evening!", Some(NovelSoundEffect::PipeFall)),
            stage(Background::StreetAutumnNight, NovelMusic::Journey, vec![], "", "I think I should walk around a bit more...", None),
            stage(Background::GroveStreet, NovelMusic::Battle, vec![appear(Actor::CJ, true, 0, 50)], "CJ", "Aye, whatcha doin here man?", Some(NovelSoundEffect::PipeFall)),
            stage(Background::GroveStreet, NovelMusic::Journey, vec![appear(Actor::CJ, true, 0, 50)], "", "This ain't your hood", None),
            stage(Background::GroveStreet, NovelMusic::Journey, vec![appear(Actor::CJ, true, 0, 50)], "", "Looking for trouble?", None),
            stage(Background::GroveStreet, NovelMusic::Journey, vec![appear(Actor::CJ, false, RIGHT_X, 50), appear(Actor::Bob, false, LEFT_X, 100)], "", "Chill mate, guy buys stuff from me \nLet him off the hook", None),
            stage(Background::GroveStreet, NovelMusic::Journey, vec![appear(Actor::CJ, false, RIGHT_X, 50), appear(Actor::Bob, false, LEFT_X, 100)], "", "Fine Bobby, but only this time", None),
            stage(Background::GroveStreet, NovelMusic::Journey, vec![appear(Actor::CJ, true, 0, 50)], "", "Now get the hell outa here", None),
            stage(Background::StreetAutumnNight, NovelMusic::Journey, vec![], "", "Well, that was one hell of an encounter", None),
            stage(Background::StreetAutumnNight, NovelMusic::Journey, vec![], "", "I'd better head home...", None),
            stage(Background::LivingroomDark, NovelMusic::Journey, vec![], "", "Gotta get some coffee...", None),
            stage(Background::LivingroomDark, NovelMusic::Journey, vec![], "", "What's that sound?", None),
            stage(Background::LivingroomDark, NovelMusic::Journey, vec![appear(Actor::Freddy, false, 0, 100)], "Freddy", "ur ur \n urur", None),
            stage(Background::LivingroomDark, NovelMusic::Journey, vec![appear(Actor::Freddy, true, 0, 100)], "", "", None),
            stage(Background::LivingroomDark, NovelMusic::Journey, vec![appear(Actor::Freddy, true, RIGHT_X, 100)], "", "", None),
            stage(Background::LivingroomDark, NovelMusic::Journey, vec![], "", "", None),
            stage(Background::LivingroomDark, NovelMusic::Journey, vec![], "", "...", None),
            stage(Background::KitchenNight, NovelMusic::Journey, vec![], "", "What coffee do I have here?\nOh right, these two", None),
            stage(Background::KitchenNight, NovelMusic::Journey, vec![appear(Actor::Bal, false, RIGHT_X, 30), appear(Actor::Ass, false, LEFT_X, 20)], "", "Oh no, darling...\nHe's here for us...", None),
            stage(Background::KitchenNight, NovelMusic::Journey, vec![appear(Actor::Bal, false, RIGHT_X, 30), appear(Actor::Ass, false, LEFT_X, 20)], "", "No, my love, I can't lose you!\nYou're the love of my life!", None),
            stage(Background::KitchenNight, NovelMusic::Journey, vec![appear(Actor::Bal, false, RIGHT_X, 30), appear(Actor::Ass, false, LEFT_X, 20)], "", "I have to let him drink me, so you can live another day...\nGoodbye my love...", None),
            stage(Background::KitchenNight, NovelMusic::Journey, vec![appear(Actor::Bal, false, RIGHT_X, 30)], "", "NOOOOOOOO", None),
            stage(Background::Computer, NovelMusic::Journey, vec![], "", "Hmm, I guess I should do some work...", None),
            stage(Background::Computer, NovelMusic::Journey, vec![appear(Actor::Time, false, 0, 100)], "", "Oh yes, it's time for bevy jam!", None),
            stage(Background::Computer, NovelMusic::Journey, vec![], "", "Let's see what's the topic this time", None),
            stage(Background::Computer, NovelMusic::Journey, vec![], "", "...", None),
            stage(Background::Computer, NovelMusic::Battle, vec![], "", "Bevy editor from another world", None),
            stage(Background::Computer, NovelMusic::Battle, vec![], "", "What an interesting choice.\nI guess any game engine needs an editor...", None),
            stage(Background::Computer, NovelMusic::Battle, vec![], "", "But Rust is hard...\nshould I even study rust?", None),
            stage(Background::Computer, NovelMusic::Battle, vec![appear(Actor::Rust, false, RIGHT_X, 100), appear(Actor::Go, false, LEFT_X, 100)], "", "There's no point in rust\nBackend can be done with kotlin or golang", None),
            stage(Background::Computer, NovelMusic::Battle, vec![appear(Actor::Rust, false, RIGHT_X, 100), appear(Actor::Go, false, LEFT_X, 100)], "", "Rust is definitely faster\nGo even has a garbage collector\nKotlin has a ton of legacy code behind it", None),
            stage(Background::Computer, NovelMusic::Battle, vec![appear(Actor::Rust, false, RIGHT_X, 100), appear(Actor::Go, false, LEFT_X, 100)], "", "So what did you choose?", None),
        ];
        NovelState {
            stages,
            current_stage: 0,
            chars_shown: 0,
            chars_total: 0,
            current_music: NovelMusic::Journey,
            typing_ms: 0,
        }
    }
}

} // verus!
