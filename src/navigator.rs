//! Moving to the next or previous episode of a hydrated show, across season
//! boundaries.
use vstd::prelude::*;
use crate::flixhq::FlixHQSeason;

verus! {

/// A position in a show: `season` counts from 1, `episode` from 0.
#[derive(Debug, Clone, Copy, PartialEq, Eq, Structural)]
pub struct EpisodeCursor {
    pub season: usize,
    pub episode: usize,
}

/// The outcome of a move: the new position, or `Terminal` when there is no
/// episode to move to.
#[derive(Debug, Clone, Copy, PartialEq, Eq, Structural)]
pub enum Step {
    Moved(EpisodeCursor),
    Terminal,
}

/// Every season's episode list has a length that fits in `usize`, as the
/// length of every `Vec` does.
pub open spec fn lengths_fit(seasons: FlixHQSeason) -> bool {
    forall|k: int| 0 <= k < seasons.episodes@.len() ==> #[trigger] seasons.episodes@[k]@.len() <= usize::MAX
}

/// The number of episodes of season `s` (counted from 1).
pub open spec fn season_len(seasons: FlixHQSeason, s: int) -> int {
    seasons.episodes@[s - 1]@.len() as int
}

impl EpisodeCursor {
    /// The cursor points at an existing episode of `seasons`.
    pub open spec fn valid(self, seasons: FlixHQSeason) -> bool {
        &&& 1 <= self.season <= seasons.total_seasons
        &&& self.episode < season_len(seasons, self.season as int)
    }

    /// The next episode: the following one of the season, else the first of
    /// the next season; terminal after the last season or when the next
    /// season has no episodes.
    pub open spec fn next(self, seasons: FlixHQSeason) -> Step {
        if self.episode + 1 < season_len(seasons, self.season as int) {
            Step::Moved(EpisodeCursor { season: self.season, episode: (self.episode + 1) as usize })
        } else if self.season < seasons.total_seasons && season_len(seasons, self.season + 1) > 0 {
            Step::Moved(EpisodeCursor { season: (self.season + 1) as usize, episode: 0 })
        } else {
            Step::Terminal
        }
    }

    /// The previous episode: the one before in the season, else the last of
    /// the previous season; terminal at the first season or when the
    /// previous season has no episodes.
    pub open spec fn prev(self, seasons: FlixHQSeason) -> Step {
        if self.episode > 0 {
            Step::Moved(EpisodeCursor { season: self.season, episode: (self.episode - 1) as usize })
        } else if self.season > 1 && season_len(seasons, self.season - 1) > 0 {
            Step::Moved(
                EpisodeCursor {
                    season: (self.season - 1) as usize,
                    episode: (season_len(seasons, self.season - 1) - 1) as usize,
                },
            )
        } else {
            Step::Terminal
        }
    }

    /// Moves to the next episode.
    pub fn advance(&self, seasons: &FlixHQSeason) -> (r: Step)
        requires
            seasons.hydrated(),
            self.valid(*seasons),
        ensures
            r == self.next(*seasons),
            r matches Step::Moved(c) ==> c.valid(*seasons),
    {
        let len = seasons.episodes[self.season - 1].len();
        if self.episode + 1 < len {
            Step::Moved(EpisodeCursor { season: self.season, episode: self.episode + 1 })
        } else if self.season < seasons.total_seasons && seasons.episodes[self.season].len() > 0 {
            Step::Moved(EpisodeCursor { season: self.season + 1, episode: 0 })
        } else {
            Step::Terminal
        }
    }

    /// Moves to the previous episode.
    pub fn retreat(&self, seasons: &FlixHQSeason) -> (r: Step)
        requires
            seasons.hydrated(),
            self.valid(*seasons),
        ensures
            r == self.prev(*seasons),
            r matches Step::Moved(c) ==> c.valid(*seasons),
    {
        if self.episode > 0 {
            Step::Moved(EpisodeCursor { season: self.season, episode: self.episode - 1 })
        } else if self.season > 1 && seasons.episodes[self.season - 2].len() > 0 {
            let len = seasons.episodes[self.season - 2].len();
            Step::Moved(EpisodeCursor { season: self.season - 1, episode: len - 1 })
        } else {
            Step::Terminal
        }
    }
}

/// Going back after a move forward returns to where the move started.
pub proof fn retreat_undoes_advance(c: EpisodeCursor, seasons: FlixHQSeason)
    requires
        seasons.hydrated(),
        lengths_fit(seasons),
        c.valid(seasons),
        c.next(seasons) is Moved,
    ensures
        (c.next(seasons)->Moved_0).prev(seasons) == Step::Moved(c),
{
    assert(seasons.episodes@[c.season - 1]@.len() <= usize::MAX);
}

/// Going forward after a move back returns to where the move started.
pub proof fn advance_undoes_retreat(c: EpisodeCursor, seasons: FlixHQSeason)
    requires
        seasons.hydrated(),
        lengths_fit(seasons),
        c.valid(seasons),
        c.prev(seasons) is Moved,
    ensures
        (c.prev(seasons)->Moved_0).next(seasons) == Step::Moved(c),
{
    if c.episode == 0 {
        assert(seasons.episodes@[c.season - 2]@.len() <= usize::MAX);
    }
}

/// There is no episode after the last episode of the last season, and none
/// before the first episode of the first season.
pub proof fn ends_are_terminal(seasons: FlixHQSeason)
    requires
        seasons.hydrated(),
        seasons.total_seasons > 0,
    ensures
        forall|e: usize|
            e + 1 == season_len(seasons, seasons.total_seasons as int) ==> (EpisodeCursor {
                season: seasons.total_seasons,
                episode: e,
            }).next(seasons) == Step::Terminal,
        (EpisodeCursor { season: 1, episode: 0 }).prev(seasons) == Step::Terminal,
{
}

} // verus!
