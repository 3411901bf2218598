use lobster::flixhq::{FlixHQEpisode, FlixHQSeason};
use lobster::navigator::{EpisodeCursor, Step};

fn season(n: usize, tag: &str) -> Vec<FlixHQEpisode> {
    (0..n)
        .map(|i| FlixHQEpisode { id: format!("{}-{}", tag, i), title: format!("Eps {}", i + 1) })
        .collect()
}

fn example_show() -> FlixHQSeason {
    FlixHQSeason { total_seasons: 2, episodes: vec![season(3, "a"), season(5, "b")] }
}

#[test]
fn advance_crosses_into_next_season_then_ends() {
    let seasons = example_show();
    let cursor = EpisodeCursor { season: 1, episode: 2 };
    let next = cursor.advance(&seasons);
    assert_eq!(next, Step::Moved(EpisodeCursor { season: 2, episode: 0 }));
    let last = EpisodeCursor { season: 2, episode: 4 };
    assert_eq!(last.advance(&seasons), Step::Terminal);
}

#[test]
fn retreat_crosses_into_previous_season_then_ends() {
    let seasons = example_show();
    let cursor = EpisodeCursor { season: 2, episode: 0 };
    assert_eq!(cursor.retreat(&seasons), Step::Moved(EpisodeCursor { season: 1, episode: 2 }));
    let first = EpisodeCursor { season: 1, episode: 0 };
    assert_eq!(first.retreat(&seasons), Step::Terminal);
}

#[test]
fn advance_then_retreat_returns() {
    let seasons = example_show();
    for (s, e) in [(1usize, 0usize), (1, 1), (1, 2), (2, 0), (2, 3)] {
        let c = EpisodeCursor { season: s, episode: e };
        match c.advance(&seasons) {
            Step::Moved(d) => assert_eq!(d.retreat(&seasons), Step::Moved(c)),
            Step::Terminal => panic!("({}, {}) has a successor", s, e),
        }
    }
}

#[test]
fn within_season_moves_by_one() {
    let seasons = example_show();
    let c = EpisodeCursor { season: 2, episode: 2 };
    assert_eq!(c.advance(&seasons), Step::Moved(EpisodeCursor { season: 2, episode: 3 }));
    assert_eq!(c.retreat(&seasons), Step::Moved(EpisodeCursor { season: 2, episode: 1 }));
}

#[test]
fn empty_neighbour_season_is_terminal() {
    let seasons = FlixHQSeason { total_seasons: 2, episodes: vec![season(2, "a"), vec![]] };
    let c = EpisodeCursor { season: 1, episode: 1 };
    assert_eq!(c.advance(&seasons), Step::Terminal);
}
