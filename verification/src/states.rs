//! The sequence of mini-games, the record of the last game played, the
//! screenshots taken when a game is lost or won, and the tasks that must
//! finish before the first game starts.
use vstd::prelude::*;

verus! {

/// The screens of the collection.
#[derive(Clone, Copy, PartialEq, Eq, Debug, Structural)]
pub enum AppState {
    Defeat,
    LoadingScreen,
    LoadingAssets,
    PacmanEnter,
    FlappyBird,
    Geometry,
    Platformer,
    Miami,
    Titles,
    Novel,
    Novel2Fnaf,
    Fnaf,
    FakeEnd,
    End,
}

impl Default for AppState {
    fn default() -> (r: Self)
        ensures
            r == AppState::LoadingScreen,
    {
        AppState::LoadingScreen
    }
}

/// The game that was entered last, to which a lost game returns, and the
/// screenshot taken on the way.
pub struct LastState<H> {
    pub state: AppState,
    pub screenshot: Option<H>,
}

impl<H> Default for LastState<H> {
    /// The first game of the collection, with no screenshot.
    fn default() -> (r: Self)
        ensures
            r.state == AppState::PacmanEnter,
            r.screenshot is None,
    {
        LastState { state: AppState::PacmanEnter, screenshot: None }
    }
}

impl<H> LastState<H> {
    /// Record that `state` is the game being played.
    pub fn enter(&mut self, state: AppState)
        ensures
            final(self).state == state,
            final(self).screenshot == old(self).screenshot,
    {
        self.state = state;
    }
}

/// The last screenshot of the screen, and whether one is being taken.
pub struct LastScreenshot<H> {
    pub image: Option<H>,
    pub awaiting: bool,
}

impl<H> Default for LastScreenshot<H> {
    fn default() -> (r: Self)
        ensures
            r.image is None,
            !r.awaiting,
    {
        LastScreenshot { image: None, awaiting: false }
    }
}

/// The record after a screenshot is asked for.
pub open spec fn spec_requested<H>(s: LastScreenshot<H>) -> LastScreenshot<H> {
    LastScreenshot { image: s.image, awaiting: true }
}

/// The record after the screenshot `image` arrived.
pub open spec fn spec_arrived<H>(s: LastScreenshot<H>, image: H) -> LastScreenshot<H> {
    LastScreenshot { image: Some(image), awaiting: false }
}

impl<H> LastScreenshot<H> {
    /// Ask for a screenshot: granted (`true`) unless one is already being
    /// taken, so that a game never takes two at once.
    pub fn request(&mut self) -> (r: bool)
        ensures
            r == !old(self).awaiting,
            *final(self) == spec_requested(*old(self)),
    {
        if !self.awaiting {
            self.awaiting = true;
            true
        } else {
            false
        }
    }

    /// The screenshot arrived: keep it, stop waiting, and go to `state`.
    pub fn await_screenshot_and_translate(&mut self, image: H, state: AppState) -> (r: AppState)
        ensures
            *final(self) == spec_arrived(*old(self), image),
            r == state,
    {
        self.image = Some(image);
        self.awaiting = false;
        state
    }
}

/// One screenshot at a time: after a request, every further request is
/// refused until the picture arrives; once it has arrived it is kept and
/// the next request is granted.
pub proof fn lemma_one_screenshot_at_a_time<H>(s: LastScreenshot<H>, image: H)
    ensures
        spec_requested(s).awaiting,
        spec_requested(spec_requested(s)) == spec_requested(s),
        !spec_arrived(spec_requested(s), image).awaiting,
        spec_arrived(spec_requested(s), image).image == Some(image),
{
}

/// Where the defeat screen leads: back to the game that was lost, once its
/// screenshot exists and no hand animation is already running; nowhere
/// otherwise.
pub fn on_defeat<H>(last: &LastState<H>, has_screenshot: bool, hand_present: bool) -> (r: Option<AppState>)
    ensures
        has_screenshot && !hand_present ==> r == Some(last.state),
        !has_screenshot || hand_present ==> r is None,
{
    if !has_screenshot {
        return None;
    }
    if hand_present {
        return None;
    }
    Some(last.state)
}

/// The stages of the start-up of the program.
#[derive(Clone, Copy, PartialEq, Eq, Debug, Structural)]
pub enum GlobalAppState {
    AssetLoading,
    InGame,
    Defeat,
}

impl Default for GlobalAppState {
    fn default() -> (r: Self)
        ensures
            r == GlobalAppState::AssetLoading,
    {
        GlobalAppState::AssetLoading
    }
}

/// The progress of the asset loading.
#[derive(Clone, Copy, PartialEq, Eq, Debug, Structural)]
pub enum AppLoadingAssetsSubState {
    Loading,
    Done,
}

impl Default for AppLoadingAssetsSubState {
    fn default() -> (r: Self)
        ensures
            r == AppLoadingAssetsSubState::Loading,
    {
        AppLoadingAssetsSubState::Loading
    }
}

/// The named tasks that must finish before the game starts.
pub struct PreGameTasks {
    tasks: Vec<String>,
}

impl PreGameTasks {
    /// The names of the pending tasks.
    pub closed spec fn view(self) -> Set<Seq<char>> {
        self.tasks@.map_values(|t: String| t@).to_set()
    }

    /// No task is listed twice.
    pub closed spec fn wf(self) -> bool {
        forall|i: int, j: int|
            0 <= i < j < self.tasks@.len() ==> self.tasks@[i]@ != self.tasks@[j]@
    }

    /// No task pending.
    pub fn new() -> (r: Self)
        ensures
            r.wf(),
            r.view() == Set::<Seq<char>>::empty(),
    {
        let r = PreGameTasks { tasks: Vec::new() };
        assert(r.tasks@.map_values(|t: String| t@).to_set() =~= Set::<Seq<char>>::empty());
        r
    }

    /// Whether `task` is pending, and where it is listed.
    fn find(&self, task: &String) -> (r: Option<usize>)
        ensures
            match r {
                Some(i) => i < self.tasks@.len() && self.tasks@[i as int]@ == task@,
                None => forall|i: int| 0 <= i < self.tasks@.len() ==> self.tasks@[i]@ != task@,
            },
    {
        let mut i: usize = 0;
        while i < self.tasks.len()
            invariant
                i <= self.tasks@.len(),
                forall|j: int| 0 <= j < i ==> self.tasks@[j]@ != task@,
            decreases self.tasks@.len() - i,
        {
            if self.tasks[i] == *task {
                return Some(i);
            }
            i = i + 1;
        }
        None
    }

    /// A task starts: it becomes pending.
    pub fn add(&mut self, task: String)
        requires
            old(self).wf(),
        ensures
            final(self).wf(),
            final(self).view() == old(self).view().insert(task@),
    {
        let ghost old_tasks = self.tasks@;
        match self.find(&task) {
            Some(i) => {
                assert(old_tasks.map_values(|t: String| t@)[i as int] == task@);
                assert(self.view().insert(task@) =~= self.view());
            },
            None => {
                self.tasks.push(task);
                assert(self.tasks@.map_values(|t: String| t@) =~= old_tasks.map_values(|t: String| t@).push(task@));
                assert(self.tasks@.map_values(|t: String| t@).to_set() =~= old_tasks.map_values(|t: String| t@).to_set().insert(task@)) by {
                    lemma_to_set_push(old_tasks.map_values(|t: String| t@), task@);
                }
            },
        }
    }

    /// A task is done: it is no longer pending.
    pub fn done(&mut self, task: String)
        requires
            old(self).wf(),
        ensures
            final(self).wf(),
            final(self).view() == old(self).view().remove(task@),
    {
        let ghost old_tasks = self.tasks@;
        match self.find(&task) {
            Some(i) => {
                self.tasks.remove(i);
                assert forall|n: Seq<char>| #[trigger] self.view().contains(n) <==> old(self).view().remove(task@).contains(n) by {
                    lemma_view_contains(old_tasks, n);
                    lemma_view_contains(self.tasks@, n);
                    if self.view().contains(n) {
                        let k = choose|k: int| 0 <= k < self.tasks@.len() && self.tasks@[k]@ == n;
                        if k < i {
                            assert(old_tasks[k]@ == n);
                        } else {
                            assert(old_tasks[k + 1]@ == n);
                        }
                    }
                    if old(self).view().remove(task@).contains(n) {
                        let k = choose|k: int| 0 <= k < old_tasks.len() && old_tasks[k]@ == n;
                        assert(k != i);
                        if k < i {
                            assert(self.tasks@[k]@ == n);
                        } else {
                            assert(self.tasks@[k - 1]@ == n);
                        }
                    }
                }
                assert(self.view() =~= old(self).view().remove(task@));
            },
            None => {
                assert forall|n: Seq<char>| #[trigger] self.view().contains(n) implies n != task@ by {
                    lemma_view_contains(self.tasks@, n);
                }
                assert(self.view() =~= old(self).view().remove(task@));
            },
        }
    }

    /// Whether no task is pending.
    pub fn is_empty(&self) -> (r: bool)
        ensures
            r == (self.view() == Set::<Seq<char>>::empty()),
    {
        if self.tasks.len() == 0 {
            assert(self.tasks@.map_values(|t: String| t@).to_set() =~= Set::<Seq<char>>::empty());
            true
        } else {
            proof {
                let first = self.tasks@[0]@;
                lemma_view_contains(self.tasks@, first);
                assert(self.view().contains(first));
            }
            false
        }
    }
}

/// A name is pending exactly when some listed task has it.
proof fn lemma_view_contains(tasks: Seq<String>, n: Seq<char>)
    ensures
        tasks.map_values(|t: String| t@).to_set().contains(n) <==> exists|k: int| 0 <= k < tasks.len() && tasks[k]@ == n,
{
    let m = tasks.map_values(|t: String| t@);
    if m.to_set().contains(n) {
        assert(m.contains(n));
        let k = choose|k: int| 0 <= k < m.len() && m[k] == n;
        assert(tasks[k]@ == n);
    }
    if exists|k: int| 0 <= k < tasks.len() && tasks[k]@ == n {
        let k = choose|k: int| 0 <= k < tasks.len() && tasks[k]@ == n;
        assert(m[k] == n);
        assert(m.contains(n));
    }
}

/// The set of a sequence with one more element pushed.
proof fn lemma_to_set_push(s: Seq<Seq<char>>, x: Seq<char>)
    ensures
        s.push(x).to_set() == s.to_set().insert(x),
{
    assert forall|y: Seq<char>| s.push(x).to_set().contains(y) <==> s.to_set().insert(x).contains(y) by {
        if s.push(x).contains(y) {
            let k = choose|k: int| 0 <= k < s.push(x).len() && s.push(x)[k] == y;
            if k < s.len() {
                assert(s[k] == y);
                assert(s.contains(y));
            }
        }
        if s.contains(y) {
            let k = choose|k: int| 0 <= k < s.len() && s[k] == y;
            assert(s.push(x)[k] == y);
        }
        if y == x {
            assert(s.push(x)[s.len() as int] == y);
        }
    }
    assert(s.push(x).to_set() =~= s.to_set().insert(x));
}

/// The game starts once the assets are loaded and no task is pending.
pub fn try_translate(loading_state: AppLoadingAssetsSubState, tasks: &PreGameTasks) -> (r: Option<GlobalAppState>)
    ensures
        loading_state == AppLoadingAssetsSubState::Done && tasks.view() == Set::<Seq<char>>::empty() ==> r
            == Some(GlobalAppState::InGame),
        !(loading_state == AppLoadingAssetsSubState::Done && tasks.view() == Set::<Seq<char>>::empty()) ==> r is None,
{
    if loading_state == AppLoadingAssetsSubState::Done && tasks.is_empty() {
        Some(GlobalAppState::InGame)
    } else {
        None
    }
}

/// Marks the hand that snatches the screenshot of a lost game.
#[derive(Clone, Copy, PartialEq, Eq, Debug, Default, Structural)]
pub struct HandEntity;

/// How long the hand takes to reach in and to pull out, in milliseconds.
pub const HAND_IN_ANIMATION_DURATION: u64 = 250;
pub const HAND_OUT_ANIMATION_DURATION: u64 = 200;

/// The snatched screenshot `t_ms` milliseconds after the hand appeared:
/// whether the hand has closed on it, and whether the animation is over
/// (the screenshot then goes and the clock starts over).
pub fn animate_screenshot(t_ms: u64) -> (r: (bool, bool))
    ensures
        r.0 == (t_ms > HAND_IN_ANIMATION_DURATION),
        r.1 == (t_ms > HAND_IN_ANIMATION_DURATION + HAND_OUT_ANIMATION_DURATION),
{
    (t_ms > HAND_IN_ANIMATION_DURATION, t_ms > HAND_IN_ANIMATION_DURATION + HAND_OUT_ANIMATION_DURATION)
}

} // verus!
