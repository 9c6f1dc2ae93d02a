//! How the shooter's enemies hunt the player: they spot the player within
//! their range of sight, run to where they saw them, search for a while,
//! go back to their post, and wander when they have stood still too long.
use vstd::prelude::*;
use crate::miami::{ChaserStats, CharacterStats};

verus! {

/// A path through the navigation mesh: the waypoint an enemy heads for,
/// and the ones after it, the next one last.
pub struct Path<P> {
    pub current: P,
    pub next: Vec<P>,
}

impl<P: Copy> Path<P> {
    /// The waypoints still to reach, in the order they are reached.
    pub open spec fn remaining(self) -> Seq<P> {
        seq![self.current] + self.next@.reverse()
    }

    /// The path through `points`: heading for the first, then the others
    /// in order; none when there are no points.
    pub fn from_points(points: &Vec<P>) -> (r: Option<Path<P>>)
        ensures
            points@.len() == 0 ==> r is None,
            points@.len() != 0 ==> (r matches Some(p) && p.remaining() == points@),
    {
        if points.len() == 0 {
            return None;
        }
        let mut next: Vec<P> = Vec::new();
        let mut i: usize = points.len();
        while i > 1
            invariant
                1 <= i <= points@.len(),
                next@ == points@.subrange(i as int, points@.len() as int).reverse(),
            decreases i,
        {
            i = i - 1;
            next.push(points[i]);
            assert(next@ =~= points@.subrange(i as int, points@.len() as int).reverse());
        }
        let p = Path { current: points[0], next };
        assert(p.next@.reverse() =~= points@.subrange(1, points@.len() as int));
        assert(p.remaining() =~= points@);
        Some(p)
    }

    /// Head for the next waypoint, if there is one; whether there was.
    pub fn advance(&mut self) -> (moved: bool)
        ensures
            moved == (old(self).next@.len() != 0),
            moved ==> final(self).remaining() == old(self).remaining().drop_first(),
            !moved ==> final(self).remaining() == old(self).remaining(),
            final(self).next@.len() == (if moved { old(self).next@.len() - 1 } else { 0int }),
    {
        match self.next.pop() {
            Some(p) => {
                self.current = p;
                assert(final(self).remaining() =~= old(self).remaining().drop_first());
                true
            },
            None => false,
        }
    }

    /// Whether the waypoint ahead is the last one.
    pub fn is_last(&self) -> (r: bool)
        ensures
            r == (self.remaining().len() == 1),
    {
        self.next.len() == 0
    }
}

/// Whether an enemy sees the player among the hits of its sight, each the
/// entity bits of what it hit and the distance in whole pixels (rounded
/// down): the player counts when nearer than the range of sight, which is
/// the short attention range when the player is behind the enemy.
pub fn sees_player(hits: &Vec<(u64, u32)>, player: u64, behind: bool, chaser: &ChaserStats) -> (r: bool)
    ensures
        r == exists|k: int| 0 <= k < hits@.len() && #[trigger] hits@[k].0 == player
            && hits@[k].1 < (if behind { chaser.attention_range } else { chaser.seek_range }),
{
    let range = if behind { chaser.attention_range } else { chaser.seek_range };
    let mut i: usize = 0;
    while i < hits.len()
        invariant
            i <= hits@.len(),
            range == (if behind { chaser.attention_range } else { chaser.seek_range }),
            forall|k: int| 0 <= k < i ==> !(#[trigger] hits@[k].0 == player && hits@[k].1 < range),
        decreases hits@.len() - i,
    {
        let (e, d) = hits[i];
        if e == player && d < range {
            assert(hits@[i as int].0 == player);
            return true;
        }
        i = i + 1;
    }
    false
}

/// What an enemy decides in a frame.
#[derive(Clone, Copy, PartialEq, Eq, Debug, Structural)]
pub enum ChaserAction {
    /// It sees the player somewhere new: it leaves its post and runs there.
    Chase,
    /// It sees the player where it saw them last: it keeps going.
    Watch,
    /// It searched too long: it forgets the player, stops looking around
    /// and walks back to its post.
    GoHome,
    /// It stood still too long: it walks to a random spot nearby.
    Wander,
    /// It waits a little longer.
    Wait,
}

/// An enemy's decision, from whether it sees the player, whether that is
/// somewhere else than where it last saw them, whether its search has
/// lasted too long and whether it has stood still too long; and the speed
/// it then moves at, if it sets off.
pub fn update_chasers(stats: &CharacterStats, sees: bool, new_sighting: bool, seek_over: bool, stay_over: bool) -> (r: (ChaserAction, Option<u32>))
    ensures
        r == (if sees {
            if new_sighting { (ChaserAction::Chase, Some(stats.run_speed)) } else { (ChaserAction::Watch, None) }
        } else if seek_over {
            (ChaserAction::GoHome, Some(stats.walk_speed))
        } else if stay_over {
            (ChaserAction::Wander, Some(stats.walk_speed))
        } else {
            (ChaserAction::Wait, None)
        }),
{
    if sees {
        if new_sighting {
            (ChaserAction::Chase, Some(stats.run_speed))
        } else {
            (ChaserAction::Watch, None)
        }
    } else if seek_over {
        (ChaserAction::GoHome, Some(stats.walk_speed))
    } else if stay_over {
        (ChaserAction::Wander, Some(stats.walk_speed))
    } else {
        (ChaserAction::Wait, None)
    }
}

} // verus!
