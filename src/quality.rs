//! Choosing a stream from an HLS master playlist: the variant of a requested
//! height, or the tallest one.
use vstd::prelude::*;
use crate::cli::{quality_label, Quality};
use crate::text::{
    decimal_value, is_prefix, is_u32_text, parse_u32, split_on, starts_with, substring,
    unsigned_digits,
};

verus! {

/// The stream URLs of a playlist.
pub const STREAM_URL: &'static str = "https://[^\\s]+m3u8";

/// The resolution tags of a playlist; group 2 is the height.
pub const RESOLUTION_TAG: &'static str = "RESOLUTION=(\\d+)x(\\d+)";

/// For each successive non-overlapping match of `pattern` in `text`, the text
/// of capture group `group` if it took part in the match; `None` when the
/// pattern does not compile.
pub uninterp spec fn regex_captures(pattern: Seq<char>, text: Seq<char>, group: nat) -> Option<
    Seq<Option<Seq<char>>>,
>;

/// Relies on `regex::Regex::new`, `Regex::captures_iter` and `Captures::get`.
#[verifier::external_body]
fn capture_group(pattern: &str, text: &str, group: usize) -> (r: Option<Vec<Option<String>>>)
    ensures
        r.deep_view() == regex_captures(pattern@, text@, group as nat),
{
    match regex::Regex::new(pattern) {
        Ok(re) => Some(
            re.captures_iter(text).map(|c| c.get(group).map(|m| m.as_str().to_string())).collect(),
        ),
        Err(_) => None,
    }
}

/// The captures, none when the pattern did not compile.
pub open spec fn captured(c: Option<Seq<Option<Seq<char>>>>) -> Seq<Option<Seq<char>>> {
    match c {
        Some(v) => v,
        None => Seq::empty(),
    }
}

pub open spec fn text_or_empty(o: Option<Seq<char>>) -> Seq<char> {
    match o {
        Some(t) => t,
        None => Seq::empty(),
    }
}

/// The URL of the first of the first `n` variants whose height text is
/// `label`.
pub open spec fn first_of_height(
    urls: Seq<Option<Seq<char>>>,
    heights: Seq<Option<Seq<char>>>,
    label: Seq<char>,
    n: int,
) -> Option<Seq<char>>
    decreases n,
{
    if n <= 0 {
        None
    } else {
        match first_of_height(urls, heights, label, n - 1) {
            Some(u) => Some(u),
            None => if heights[n - 1] == Some(label) {
                Some(text_or_empty(urls[n - 1]))
            } else {
                None
            },
        }
    }
}

/// The height and URL of the tallest of the first `n` variants whose height
/// is a number; the earliest among equals.
pub open spec fn tallest(heights: Seq<Option<Seq<char>>>, urls: Seq<Option<Seq<char>>>, n: int) -> Option<
    (nat, Seq<char>),
>
    decreases n,
{
    if n <= 0 {
        None
    } else {
        let best = tallest(heights, urls, n - 1);
        let h = text_or_empty(heights[n - 1]);
        if is_u32_text(h) {
            let v = decimal_value(unsigned_digits(h));
            match best {
                Some((b, u)) => if v > b {
                    Some((v, text_or_empty(urls[n - 1])))
                } else {
                    Some((b, u))
                },
                None => Some((v, text_or_empty(urls[n - 1]))),
            }
        } else {
            best
        }
    }
}

/// A line without its trailing carriage return.
pub open spec fn line_body(l: Seq<char>) -> Seq<char> {
    if l.len() > 0 && l.last() == '\r' {
        l.drop_last()
    } else {
        l
    }
}

/// The first of `lines` that starts with `https://`.
pub open spec fn first_https(lines: Seq<Seq<char>>) -> Option<Seq<char>>
    decreases lines.len(),
{
    if lines.len() == 0 {
        None
    } else {
        match first_https(lines.drop_last()) {
            Some(l) => Some(l),
            None => if is_prefix("https://"@, line_body(lines.last())) {
                Some(line_body(lines.last()))
            } else {
                None
            },
        }
    }
}

/// The first line of `text` that starts with `https://`, empty when there is
/// none.
pub open spec fn first_https_line(text: Seq<char>) -> Seq<char> {
    text_or_empty(first_https(split_on(text, '\n')))
}

pub open spec fn min_nat(a: nat, b: nat) -> nat {
    if a <= b {
        a
    } else {
        b
    }
}

/// The stream chosen from URLs and heights paired in order: for a requested
/// quality the first variant of that height, else the first `https://` line
/// of the playlist; with no request the tallest variant, `None` when no
/// variant has a numeric height.
pub open spec fn chosen_stream(
    urls: Seq<Option<Seq<char>>>,
    heights: Seq<Option<Seq<char>>>,
    quality: Option<Quality>,
    playlist: Seq<char>,
) -> Option<Seq<char>> {
    let n = min_nat(urls.len(), heights.len()) as int;
    match quality {
        Some(q) => match first_of_height(urls, heights, quality_label(q), n) {
            Some(u) => Some(u),
            None => Some(first_https_line(playlist)),
        },
        None => match tallest(heights, urls, n) {
            Some((_, u)) => Some(u),
            None => None,
        },
    }
}

fn captures_or_empty(c: Option<Vec<Option<String>>>) -> (r: Vec<Option<String>>)
    ensures
        r.deep_view() == captured(c.deep_view()),
{
    match c {
        Some(v) => v,
        None => {
            let v: Vec<Option<String>> = Vec::new();
            assert(v.deep_view() =~= Seq::<Option<Seq<char>>>::empty());
            v
        },
    }
}

fn owned_or_empty(o: &Option<String>) -> (r: String)
    ensures
        r@ == text_or_empty(o.deep_view()),
{
    match o {
        Some(s) => s.clone(),
        None => String::new(),
    }
}

fn opt_eq(o: &Option<String>, s: &String) -> (r: bool)
    ensures
        r == (o.deep_view() == Some(s@)),
{
    match o {
        Some(t) => *t == *s,
        None => false,
    }
}

/// The first line of `text` that starts with `https://`, without its
/// trailing carriage return; empty when there is none.
pub fn first_https_url(text: &str) -> (r: String)
    ensures
        r@ == first_https_line(text@),
{
    let n = text.unicode_len();
    let mut found: Option<String> = None;
    let mut start: usize = 0;
    let mut i: usize = 0;
    proof {
        assert(text@.take(0) =~= Seq::<char>::empty());
        assert(split_on(text@.take(0), '\n').drop_last() =~= Seq::<Seq<char>>::empty());
    }
    while i < n
        invariant
            n == text@.len(),
            start <= i <= n,
            found.deep_view() == first_https(split_on(text@.take(i as int), '\n').drop_last()),
            split_on(text@.take(i as int), '\n').last() == text@.subrange(start as int, i as int),
            split_on(text@.take(i as int), '\n').len() > 0,
        decreases n - i,
    {
        let ghost t = text@.take(i + 1);
        let ghost rest = split_on(text@.take(i as int), '\n');
        assert(t.drop_last() =~= text@.take(i as int));
        if text.get_char(i) == '\n' {
            assert(split_on(t, '\n') == rest.push(Seq::<char>::empty()));
            assert(split_on(t, '\n').drop_last() =~= rest);
            assert(rest =~= rest.drop_last().push(rest.last()));
            if found.is_none() {
                let line = https_line(text, start, i);
                found = line;
            }
            start = i + 1;
            assert(text@.subrange(start as int, start as int) =~= Seq::<char>::empty());
        } else {
            assert(split_on(t, '\n').drop_last() =~= rest.drop_last());
            assert(text@.subrange(start as int, i + 1) =~= text@.subrange(start as int, i as int).push(
                text@[i as int],
            ));
        }
        i = i + 1;
    }
    assert(text@.take(n as int) =~= text@);
    let ghost all = split_on(text@, '\n');
    assert(all =~= all.drop_last().push(all.last()));
    if found.is_none() {
        found = https_line(text, start, n);
    }
    match found {
        Some(l) => l,
        None => String::new(),
    }
}

/// The line `text[from..to]` without its trailing carriage return, when it
/// starts with `https://`.
fn https_line(text: &str, from: usize, to: usize) -> (r: Option<String>)
    requires
        from <= to <= text@.len(),
    ensures
        r.deep_view() == if is_prefix("https://"@, line_body(text@.subrange(from as int, to as int))) {
            Some(line_body(text@.subrange(from as int, to as int)))
        } else {
            None
        },
{
    let end = if to > from && text.get_char(to - 1) == '\r' {
        to - 1
    } else {
        to
    };
    let line = substring(text, from, end);
    assert(line@ =~= line_body(text@.subrange(from as int, to as int)));
    if starts_with(line.as_str(), "https://") {
        Some(line)
    } else {
        None
    }
}

/// Picks a stream from the playlist's URLs and heights (paired in order) as
/// `chosen_stream` says.
pub fn choose_stream(
    urls: &Vec<Option<String>>,
    heights: &Vec<Option<String>>,
    quality: Option<Quality>,
    playlist: &str,
) -> (r: Option<String>)
    ensures
        r.deep_view() == chosen_stream(urls.deep_view(), heights.deep_view(), quality, playlist@),
{
    let n = if urls.len() <= heights.len() {
        urls.len()
    } else {
        heights.len()
    };
    let ghost us = urls.deep_view();
    let ghost hs = heights.deep_view();
    match quality {
        Some(q) => {
            let label = q.label();
            let mut found: Option<String> = None;
            let mut i: usize = 0;
            while i < n
                invariant
                    n <= urls@.len() && n <= heights@.len(),
                    us == urls.deep_view(),
                    hs == heights.deep_view(),
                    i <= n,
                    found.deep_view() == first_of_height(us, hs, label@, i as int),
                decreases n - i,
            {
                if found.is_none() && opt_eq(&heights[i], &label) {
                    found = Some(owned_or_empty(&urls[i]));
                }
                i = i + 1;
            }
            match found {
                Some(u) => Some(u),
                None => Some(first_https_url(playlist)),
            }
        },
        None => {
            let mut best: Option<(u32, String)> = None;
            let mut i: usize = 0;
            while i < n
                invariant
                    n <= urls@.len() && n <= heights@.len(),
                    us == urls.deep_view(),
                    hs == heights.deep_view(),
                    i <= n,
                    match best {
                        Some((b, u)) => tallest(hs, us, i as int) == Some((b as nat, u@)),
                        None => tallest(hs, us, i as int) is None,
                    },
                decreases n - i,
            {
                let h = owned_or_empty(&heights[i]);
                match parse_u32(h.as_str()) {
                    Ok(v) => {
                        let better = match &best {
                            Some((b, _)) => v > *b,
                            None => true,
                        };
                        if better {
                            best = Some((v, owned_or_empty(&urls[i])));
                        }
                    },
                    Err(_) => {},
                }
                i = i + 1;
            }
            match best {
                Some((_, u)) => Some(u),
                None => None,
            }
        },
    }
}

/// The stream of a playlist for the requested quality, as `chosen_stream`
/// says of the playlist's stream URLs and resolution heights.
pub fn url_quality(playlist: &str, quality: Option<Quality>) -> (r: Option<String>)
    ensures
        r.deep_view() == chosen_stream(
            captured(regex_captures(STREAM_URL@, playlist@, 0)),
            captured(regex_captures(RESOLUTION_TAG@, playlist@, 2)),
            quality,
            playlist@,
        ),
{
    let urls = captures_or_empty(capture_group(STREAM_URL, playlist, 0));
    let heights = captures_or_empty(capture_group(RESOLUTION_TAG, playlist, 2));
    choose_stream(&urls, &heights, quality, playlist)
}

} // verus!
