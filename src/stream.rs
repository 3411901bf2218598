//! What the playback step needs from resolved sources: the subtitle files of
//! a language and the title shown by the player.
use vstd::prelude::*;
use crate::cli::{language_name, Languages};
use crate::providers::vidcloud::Track;
use crate::text::{contains, occurs_in};

verus! {

/// The files of the tracks whose label mentions `lang`, in order.
pub open spec fn subtitle_files(tracks: Seq<Track>, lang: Seq<char>) -> Seq<Seq<char>>
    decreases tracks.len(),
{
    if tracks.len() == 0 {
        Seq::empty()
    } else {
        let rest = subtitle_files(tracks.drop_last(), lang);
        if occurs_in(lang, tracks.last().label@) {
            rest.push(tracks.last().file@)
        } else {
            rest
        }
    }
}

/// The subtitle files in `language`: those of the tracks whose label names it.
pub fn selected_subtitles(tracks: &Vec<Track>, language: Languages) -> (r: Vec<String>)
    ensures
        r.deep_view() == subtitle_files(tracks@, language_name(language)),
{
    let lang = language.name();
    let mut out: Vec<String> = Vec::new();
    let mut i: usize = 0;
    while i < tracks.len()
        invariant
            lang@ == language_name(language),
            i <= tracks@.len(),
            out.deep_view() == subtitle_files(tracks@.take(i as int), lang@),
        decreases tracks@.len() - i,
    {
        assert(tracks@.take(i + 1).drop_last() =~= tracks@.take(i as int));
        if contains(tracks[i].label.as_str(), lang.as_str()) {
            out.push(tracks[i].file.clone());
            assert(out.deep_view() =~= subtitle_files(tracks@.take(i as int), lang@).push(
                tracks@[i as int].file@,
            ));
        }
        i = i + 1;
    }
    assert(tracks@.take(tracks@.len() as int) =~= tracks@);
    out
}

/// The player's title: `"<media> - <episode>"` for an episode, the media's
/// title alone for a movie.
pub fn media_title(title: &str, episode_title: Option<&str>) -> (r: String)
    ensures
        r@ == match episode_title {
            Some(e) => title@ + " - "@ + e@,
            None => title@,
        },
{
    let mut t = title.to_owned();
    match episode_title {
        Some(e) => {
            t.append(" - ");
            t.append(e);
        },
        None => {},
    }
    t
}

} // verus!
