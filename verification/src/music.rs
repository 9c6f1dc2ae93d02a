//! The background music that carries over from one game to the next: a
//! game asks for a track, and the track playing fades out or stops while
//! the new one fades in or starts at once.
use vstd::prelude::*;

verus! {

/// A request for background music: a track (by its asset id), or silence,
/// and whether the change happens at once instead of fading.
#[derive(Clone, Copy, PartialEq, Eq, Debug, Structural)]
pub struct NewBgMusic {
    pub handle: Option<u64>,
    pub instant_translation: bool,
}

/// The track playing now, by its asset id.
#[derive(Clone, Copy, PartialEq, Eq, Debug, Structural)]
pub struct CurrentGlobalMusic {
    pub handle: u64,
}

/// What happens to the first pending request and the track playing.
#[derive(Clone, Copy, PartialEq, Eq, Debug, Structural)]
pub enum MusicPlan {
    /// No request, or silence asked for while nothing plays: nothing to do.
    Nothing,
    /// Nothing played: the requested track starts, at full volume when
    /// `instant`, silent and fading in otherwise.
    Start { handle: u64, instant: bool },
    /// Silence asked for: the track playing stops at once when `instant`,
    /// fades out otherwise; the request is dropped.
    Stop { instant: bool },
    /// The requested track is already playing: the request is dropped.
    Keep,
    /// Another track is asked for: the playing one stops at once or fades
    /// out, and the requested one starts at once or fades in.
    Replace { handle: u64, instant: bool },
}

/// The plan for a request and the track playing, if any.
pub open spec fn spec_music_plan(request: NewBgMusic, current: Option<CurrentGlobalMusic>) -> MusicPlan {
    match (request.handle, current) {
        (None, None) => MusicPlan::Nothing,
        (Some(h), None) => MusicPlan::Start { handle: h, instant: request.instant_translation },
        (None, Some(_)) => MusicPlan::Stop { instant: request.instant_translation },
        (Some(h), Some(c)) => if h == c.handle {
            MusicPlan::Keep
        } else {
            MusicPlan::Replace { handle: h, instant: request.instant_translation }
        },
    }
}

/// The decision of the music watcher, from the pending requests and the
/// tracks playing: the first request is weighed against the first track.
/// Whenever there is a request, the other requests are dropped, and so are
/// the other tracks playing.
pub fn music_watcher(requests: &Vec<NewBgMusic>, current: &Vec<CurrentGlobalMusic>) -> (r: MusicPlan)
    ensures
        requests@.len() == 0 ==> r == MusicPlan::Nothing,
        requests@.len() != 0 ==> r == spec_music_plan(
            requests@[0],
            if current@.len() == 0 { None } else { Some(current@[0]) },
        ),
{
    if requests.len() == 0 {
        return MusicPlan::Nothing;
    }
    let q = requests[0];
    if current.len() == 0 {
        return match q.handle {
            Some(h) => MusicPlan::Start { handle: h, instant: q.instant_translation },
            None => MusicPlan::Nothing,
        };
    }
    let c = current[0];
    match q.handle {
        None => MusicPlan::Stop { instant: q.instant_translation },
        Some(h) => if h == c.handle {
            MusicPlan::Keep
        } else {
            MusicPlan::Replace { handle: h, instant: q.instant_translation }
        },
    }
}

/// The starting volume of a new track, in percent: full for an instant
/// change, silent for a fade-in.
pub fn start_volume_percent(instant: bool) -> (r: u32)
    ensures
        r == (if instant { 100u32 } else { 0u32 }),
{
    if instant {
        100
    } else {
        0
    }
}

/// Asking again for the track that plays changes nothing, whether or not
/// the change was to be instant.
pub proof fn lemma_same_track_kept(request: NewBgMusic, current: CurrentGlobalMusic)
    requires
        request.handle == Some(current.handle),
    ensures
        spec_music_plan(request, Some(current)) == MusicPlan::Keep,
{
}

} // verus!
