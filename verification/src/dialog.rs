//! The shooter's dialogs: a list of lines, each said by a speaker whose
//! portrait slides in, advanced with Space; the end of a dialog starts the
//! next part of the story.
use vstd::prelude::*;
use crate::states::AppState;

verus! {

/// Who says a line.
#[derive(Clone, Copy, PartialEq, Eq, Debug, Structural)]
pub enum Speaker {
    Pacman,
    Freddy,
    BeatenFreddy,
}

/// The portraits shown beside the lines.
#[derive(Clone, Copy, PartialEq, Eq, Debug, Structural)]
pub enum DialogPortrait {
    Pac,
    Faz,
    BeatenFaz,
}

/// The portrait of each speaker.
pub open spec fn spec_portrait(s: Speaker) -> DialogPortrait {
    match s {
        Speaker::Pacman => DialogPortrait::Pac,
        Speaker::Freddy => DialogPortrait::Faz,
        Speaker::BeatenFreddy => DialogPortrait::BeatenFaz,
    }
}

impl Speaker {
    /// The portrait of this speaker.
    pub fn to_asset(&self) -> (r: DialogPortrait)
        ensures
            r == spec_portrait(*self),
    {
        match self {
            Speaker::Pacman => DialogPortrait::Pac,
            Speaker::Freddy => DialogPortrait::Faz,
            Speaker::BeatenFreddy => DialogPortrait::BeatenFaz,
        }
    }
}

/// A dialog in progress: its lines and the one on screen.
pub struct DialogState {
    state: usize,
    dialogs: Vec<(String, Speaker)>,
}

impl DialogState {
    /// The index of the line on screen; at the number of lines once the
    /// dialog is over.
    pub closed spec fn index(self) -> nat {
        self.state as nat
    }

    /// The lines of the dialog: what is said and by whom.
    pub closed spec fn lines(self) -> Seq<(Seq<char>, Speaker)> {
        self.dialogs@.map_values(|l: (String, Speaker)| (l.0@, l.1))
    }

    /// The number of lines.
    pub fn len(&self) -> (r: usize)
        ensures
            r == self.lines().len(),
    {
        self.dialogs.len()
    }

    /// The index of the line on screen.
    pub fn current(&self) -> (r: usize)
        ensures
            r == self.index(),
    {
        self.state
    }

    /// The text of line `i`.
    pub fn text(&self, i: usize) -> (r: &String)
        requires
            i < self.lines().len(),
        ensures
            r@ == self.lines()[i as int].0,
    {
        &self.dialogs[i].0
    }

    /// The speaker of line `i`.
    pub fn speaker(&self, i: usize) -> (r: Speaker)
        requires
            i < self.lines().len(),
        ensures
            r == self.lines()[i as int].1,
    {
        self.dialogs[i].1
    }
}

/// A dialog made of `dialogs`, showing the first line; none when there are
/// no lines.
pub fn start_dialog(dialogs: Vec<(String, Speaker)>) -> (r: Option<DialogState>)
    ensures
        dialogs@.len() == 0 ==> r is None,
        dialogs@.len() != 0 ==> (r matches Some(d) && d.index() == 0
            && d.lines() == dialogs@.map_values(|l: (String, Speaker)| (l.0@, l.1))),
{
    if dialogs.len() == 0 {
        return None;
    }
    Some(DialogState { state: 0, dialogs })
}

/// A line said by `speaker`.
fn line(text: &str, speaker: Speaker) -> (r: (String, Speaker))
    ensures
        r.0@ == text@,
        r.1 == speaker,
{
    (text.to_owned(), speaker)
}

/// Freddy greets the player at the entrance of the pizzeria.
pub fn start_entrypoint_dialog() -> (r: DialogState)
    ensures
        r.index() == 0,
        r.lines() == seq![("Hello, my dear1"@, Speaker::Freddy), ("Hi"@, Speaker::Pacman)],
{
    let d = DialogState { state: 0, dialogs: vec![line("Hello, my dear1", Speaker::Freddy), line("Hi", Speaker::Pacman)] };
    assert(d.lines() =~= seq![("Hello, my dear1"@, Speaker::Freddy), ("Hi"@, Speaker::Pacman)]);
    d
}

/// Freddy greets the player at the door of the boss room.
pub fn start_boss_dialog() -> (r: DialogState)
    ensures
        r.index() == 0,
        r.lines() == seq![("Hello, my dear2"@, Speaker::Freddy), ("Hi"@, Speaker::Pacman)],
{
    let d = DialogState { state: 0, dialogs: vec![line("Hello, my dear2", Speaker::Freddy), line("Hi", Speaker::Pacman)] };
    assert(d.lines() =~= seq![("Hello, my dear2"@, Speaker::Freddy), ("Hi"@, Speaker::Pacman)]);
    d
}

/// Freddy speaks before he enters the fight himself.
pub fn start_freddy_enter_dialog() -> (r: DialogState)
    ensures
        r.index() == 0,
        r.lines() == seq![("Hello, my dear2"@, Speaker::Freddy), ("Hi"@, Speaker::Pacman)],
{
    let d = DialogState { state: 0, dialogs: vec![line("Hello, my dear2", Speaker::Freddy), line("Hi", Speaker::Pacman)] };
    assert(d.lines() =~= seq![("Hello, my dear2"@, Speaker::Freddy), ("Hi"@, Speaker::Pacman)]);
    d
}

/// The beaten Freddy gives up.
pub fn start_final_dialog() -> (r: DialogState)
    ensures
        r.index() == 0,
        r.lines() == seq![("Ok, you win..."@, Speaker::BeatenFreddy)],
{
    let d = DialogState { state: 0, dialogs: vec![line("Ok, you win...", Speaker::BeatenFreddy)] };
    assert(d.lines() =~= seq![("Ok, you win..."@, Speaker::BeatenFreddy)]);
    d
}

/// Which dialog is running: the one before the boss fight, the one before
/// Freddy's stage, or the one after Freddy's defeat.
#[derive(Clone, Copy, PartialEq, Eq, Debug, Structural)]
pub struct DialogFlags {
    pub bossfight: bool,
    pub pre_freddy: bool,
    pub final_dialog: bool,
}

/// What the end of a dialog starts.
#[derive(Clone, Copy, PartialEq, Eq, Debug, Structural)]
pub struct DialogEnding {
    /// The boss fight begins and the boss room is sealed.
    pub begin_bossfight: bool,
    /// Freddy's stage of the fight begins.
    pub start_freddy: bool,
    /// A screenshot is taken on the way out of the shooter; the dialog
    /// stays on screen until the next game.
    pub take_screenshot: bool,
    /// The dialog slides away and the player can move again.
    pub close: bool,
}

/// The end of a dialog, from which dialog it was and whether a screenshot
/// is already being taken.
pub open spec fn spec_ending(flags: DialogFlags, awaiting_screenshot: bool) -> DialogEnding {
    let shot = flags.final_dialog && !awaiting_screenshot;
    DialogEnding {
        begin_bossfight: flags.bossfight,
        start_freddy: flags.pre_freddy,
        take_screenshot: shot,
        close: !shot,
    }
}

/// What a frame of a dialog does.
#[derive(Clone, Copy, PartialEq, Eq, Debug, Structural)]
pub enum DialogTick {
    /// Nothing.
    Idle,
    /// Line `index` comes on screen; the portrait slides out and a new one
    /// in when the speaker's portrait changes.
    Line { index: usize, portrait_changed: bool },
    /// The last line was read.
    Finished(DialogEnding),
}

/// The outcome of a press of Space on a dialog at line `index` of `len`.
pub open spec fn spec_press(index: nat, len: nat, lines: Seq<(Seq<char>, Speaker)>, flags: DialogFlags, awaiting: bool) -> DialogTick {
    if index >= len {
        DialogTick::Idle
    } else if index + 1 < len {
        DialogTick::Line {
            index: (index + 1) as usize,
            portrait_changed: spec_portrait(lines[index + 1int].1) != spec_portrait(lines[index as int].1),
        }
    } else {
        DialogTick::Finished(spec_ending(flags, awaiting))
    }
}

/// The press that passes the last line of a dialog ends it, and the end
/// does what the dialog was for: the boss-fight dialog begins the fight,
/// the dialog before Freddy's stage starts that stage, and the closing
/// dialog takes the screenshot on the way out unless one is already being
/// taken, in which case it closes like the others. Before the last line a
/// press never ends the dialog, and after it nothing happens.
pub proof fn lemma_dialog_end_does_its_job(index: nat, len: nat, lines: Seq<(Seq<char>, Speaker)>, flags: DialogFlags, awaiting: bool)
    requires
        lines.len() == len,
    ensures
        index + 1 == len ==> (spec_press(index, len, lines, flags, awaiting) matches DialogTick::Finished(e) && {
            &&& e.begin_bossfight == flags.bossfight
            &&& e.start_freddy == flags.pre_freddy
            &&& e.take_screenshot == (flags.final_dialog && !awaiting)
            &&& e.close == !e.take_screenshot
        }),
        index + 1 < len ==> spec_press(index, len, lines, flags, awaiting) is Line,
        index >= len ==> spec_press(index, len, lines, flags, awaiting) == DialogTick::Idle,
{
}

/// One frame of a dialog: Space shows the next line, and after the last
/// one the dialog ends; once over, presses do nothing.
pub fn tick_dialog(state: &mut DialogState, pressed: bool, flags: DialogFlags, awaiting_screenshot: bool) -> (r: DialogTick)
    ensures
        final(state).lines() == old(state).lines(),
        !pressed ==> r == DialogTick::Idle && final(state).index() == old(state).index(),
        pressed ==> r == spec_press(old(state).index(), old(state).lines().len(), old(state).lines(), flags, awaiting_screenshot),
        pressed ==> final(state).index() == (if old(state).index() < old(state).lines().len() {
            old(state).index() + 1
        } else {
            old(state).index()
        }),
{
    if !pressed {
        return DialogTick::Idle;
    }
    let n = self_len(state);
    if state.state >= n {
        return DialogTick::Idle;
    }
    state.state = state.state + 1;
    if state.state >= n {
        let shot = flags.final_dialog && !awaiting_screenshot;
        DialogTick::Finished(DialogEnding {
            begin_bossfight: flags.bossfight,
            start_freddy: flags.pre_freddy,
            take_screenshot: shot,
            close: !shot,
        })
    } else {
        let next = state.dialogs[state.state].1.to_asset();
        let prev = state.dialogs[state.state - 1].1.to_asset();
        DialogTick::Line { index: state.state, portrait_changed: next != prev }
    }
}

/// The number of lines of a dialog.
fn self_len(state: &DialogState) -> (r: usize)
    ensures
        r == state.lines().len(),
        r == state.dialogs@.len(),
{
    state.dialogs.len()
}

/// The outcome of `presses` presses of Space on a fresh dialog of `len`
/// lines: the line on screen.
pub open spec fn index_after(presses: nat, len: nat) -> nat {
    if presses < len { presses } else { len }
}

/// A dialog of `len` lines shows a new line on each of the first `len - 1`
/// presses, ends on press number `len`, and ignores all presses after.
pub proof fn lemma_dialog_runs_its_lines(presses: nat, len: nat, lines: Seq<(Seq<char>, Speaker)>, flags: DialogFlags, awaiting: bool)
    requires
        len > 0,
        lines.len() == len,
    ensures
        presses + 1 < len ==> spec_press(index_after(presses, len), len, lines, flags, awaiting) is Line,
        presses + 1 == len ==> spec_press(index_after(presses, len), len, lines, flags, awaiting) == DialogTick::Finished(
            spec_ending(flags, awaiting),
        ),
        presses >= len ==> spec_press(index_after(presses, len), len, lines, flags, awaiting) == DialogTick::Idle,
        index_after(presses + 1, len) == (if index_after(presses, len) < len {
            index_after(presses, len) + 1
        } else {
            index_after(presses, len)
        }),
{
}

/// Which dialogs of the shooter have already been triggered.
pub struct ShootedDialogs {
    pub entrypoint: bool,
    pub boss: bool,
}

impl Default for ShootedDialogs {
    fn default() -> (r: Self)
        ensures
            !r.entrypoint,
            !r.boss,
    {
        ShootedDialogs { entrypoint: false, boss: false }
    }
}

/// Whether a collision in the shooter starts the entrance dialog: the first
/// collision reported to the entrance sensor's observer uses up the dialog,
/// and it starts if that collision is with the sensor itself and a camera
/// exists. Later collisions never start it again.
pub fn on_entrypoint_dialog_collision(state: AppState, shooted: &mut ShootedDialogs, is_sensor: bool, has_camera: bool) -> (r: bool)
    ensures
        final(shooted).boss == old(shooted).boss,
        final(shooted).entrypoint == (old(shooted).entrypoint || state == AppState::Miami),
        r == (state == AppState::Miami && !old(shooted).entrypoint && is_sensor && has_camera),
{
    if state != AppState::Miami {
        return false;
    }
    if shooted.entrypoint {
        return false;
    }
    shooted.entrypoint = true;
    is_sensor && has_camera
}

/// Whether a collision in the shooter starts the boss-room dialog, used up
/// in the same way as the entrance dialog.
pub fn on_boss_dialog_collision(state: AppState, shooted: &mut ShootedDialogs, is_sensor: bool, has_camera: bool) -> (r: bool)
    ensures
        final(shooted).entrypoint == old(shooted).entrypoint,
        final(shooted).boss == (old(shooted).boss || state == AppState::Miami),
        r == (state == AppState::Miami && !old(shooted).boss && is_sensor && has_camera),
{
    if state != AppState::Miami {
        return false;
    }
    if shooted.boss {
        return false;
    }
    shooted.boss = true;
    is_sensor && has_camera
}

/// Present while the dialog before the boss fight runs.
#[derive(Clone, Copy, PartialEq, Eq, Debug, Default, Structural)]
pub struct BossfightDialog;

/// Present while the dialog before Freddy's stage runs.
#[derive(Clone, Copy, PartialEq, Eq, Debug, Default, Structural)]
pub struct PreFreddyDialog;

/// Present while the dialog after Freddy's defeat runs.
#[derive(Clone, Copy, PartialEq, Eq, Debug, Default, Structural)]
pub struct FinalDialog;

impl DialogFlags {
    /// The flags from the markers present.
    pub fn from_markers(bossfight: Option<BossfightDialog>, pre_freddy: Option<PreFreddyDialog>, final_dialog: Option<FinalDialog>) -> (r: Self)
        ensures
            r.bossfight == bossfight is Some,
            r.pre_freddy == pre_freddy is Some,
            r.final_dialog == final_dialog is Some,
    {
        DialogFlags { bossfight: bossfight.is_some(), pre_freddy: pre_freddy.is_some(), final_dialog: final_dialog.is_some() }
    }
}

/// Marks the part of the dialog box that tilts in.
#[derive(Clone, Copy, PartialEq, Eq, Debug, Default, Structural)]
pub struct DialogRot;

/// Marks the speaker's portrait.
#[derive(Clone, Copy, PartialEq, Eq, Debug, Default, Structural)]
pub struct DialogHead;

/// Marks the shadow of the speaker's portrait.
#[derive(Clone, Copy, PartialEq, Eq, Debug, Default, Structural)]
pub struct DialogHeadShadow;

/// Marks the band at the top of the screen during a dialog.
#[derive(Clone, Copy, PartialEq, Eq, Debug, Default, Structural)]
pub struct TopDialog;

/// Marks the band at the bottom of the screen during a dialog.
#[derive(Clone, Copy, PartialEq, Eq, Debug, Default, Structural)]
pub struct BottomDialog;

/// Marks the darkened background of a dialog.
#[derive(Clone, Copy, PartialEq, Eq, Debug, Default, Structural)]
pub struct BgDialog;

/// Marks the text of the line on screen.
#[derive(Clone, Copy, PartialEq, Eq, Debug, Default, Structural)]
pub struct DialogLabel;

/// Marks the shadow of the text of the line on screen.
#[derive(Clone, Copy, PartialEq, Eq, Debug, Default, Structural)]
pub struct DialogShadowLabel;

/// Marks the portrait sliding out when the speaker changes.
#[derive(Clone, Copy, PartialEq, Eq, Debug, Default, Structural)]
pub struct PrevHead;

} // verus!
