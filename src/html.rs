//! The HTML extractor: structural queries over catalog pages, turned into
//! catalog entities. Missing elements give empty values; only a document that
//! does not parse is an error.
use vstd::prelude::*;
use crate::flixhq::{
    BASE_URL, FlixHQ, FlixHQEpisode, FlixHQError, FlixHQInfo, FlixHQMovie, FlixHQResult,
    FlixHQSeason, FlixHQServer, FlixHQShow, MediaType,
};
use crate::text::{
    before_first, first_segment, is_usize_text, join_trimmed, join_trimmed_fields, parse_usize,
    lemma_first_index, split_on, str_eq, trim, trimmed, unsigned_digits, decimal_value, is_prefix, remove_all, remove_pattern, strip_leading_repeats, strip_prefix, strip_repeated,
};

verus! {

/// Whether visdom parses `html` into a document.
pub uninterp spec fn html_loads(html: Seq<char>) -> bool;

/// For each element that `selector` matches in the document, in document
/// order, the value of attribute `attr` if the element has it (a bare
/// attribute reads as empty); nothing when the document does not parse.
pub uninterp spec fn query_attributes(html: Seq<char>, selector: Seq<char>, attr: Seq<char>) -> Seq<
    Option<Seq<char>>,
>;

/// For each element that `selector` matches in the document, in document
/// order, its text content with entities decoded; nothing when the document
/// does not parse.
pub uninterp spec fn query_texts(html: Seq<char>, selector: Seq<char>) -> Seq<Seq<char>>;

/// Relies on `visdom::Vis::load`: whether the document parses.
#[verifier::external_body]
fn document_loads(html: &str) -> (r: bool)
    ensures
        r == html_loads(html@),
{
    visdom::Vis::load(html).is_ok()
}

/// Relies on visdom's `Elements::find`, `Elements::map` and `get_attribute`:
/// one entry per matched element, in document order.
#[verifier::external_body]
fn select_attributes(html: &str, selector: &str, attr: &str) -> (r: Vec<Option<String>>)
    ensures
        r.deep_view() == query_attributes(html@, selector@, attr@),
{
    match visdom::Vis::load(html) {
        Ok(doc) => doc.find(selector).map(|_, e| e.get_attribute(attr).map(|v| v.to_string())),
        Err(_) => Vec::new(),
    }
}

/// Relies on visdom's `Elements::find`, `Elements::map` and the element's
/// `text`: one entry per matched element, in document order.
#[verifier::external_body]
fn select_texts(html: &str, selector: &str) -> (r: Vec<String>)
    ensures
        r.deep_view() == query_texts(html@, selector@),
{
    match visdom::Vis::load(html) {
        Ok(doc) => doc.find(selector).map(|_, e| e.text()),
        Err(_) => Vec::new(),
    }
}

/// The values that are present, in order.
pub open spec fn present(attrs: Seq<Option<Seq<char>>>) -> Seq<Seq<char>>
    decreases attrs.len(),
{
    if attrs.len() == 0 {
        Seq::empty()
    } else {
        let rest = present(attrs.drop_last());
        match attrs.last() {
            Some(v) => rest.push(v),
            None => rest,
        }
    }
}

/// The values that are present and start with `/`, without it, in order.
pub open spec fn present_paths(attrs: Seq<Option<Seq<char>>>) -> Seq<Seq<char>>
    decreases attrs.len(),
{
    if attrs.len() == 0 {
        Seq::empty()
    } else {
        let rest = present_paths(attrs.drop_last());
        match attrs.last() {
            Some(v) => if is_prefix("/"@, v) {
                rest.push(v.skip(1))
            } else {
                rest
            },
            None => rest,
        }
    }
}

/// All texts, one after the other (what visdom's `Elements::text` returns).
pub open spec fn concat_all(texts: Seq<Seq<char>>) -> Seq<char>
    decreases texts.len(),
{
    if texts.len() == 0 {
        Seq::empty()
    } else {
        concat_all(texts.drop_last()) + texts.last()
    }
}

fn present_values(attrs: &Vec<Option<String>>) -> (r: Vec<String>)
    ensures
        r.deep_view() == present(attrs.deep_view()),
{
    let mut out: Vec<String> = Vec::new();
    let mut i: usize = 0;
    while i < attrs.len()
        invariant
            i <= attrs@.len(),
            out.deep_view() == present(attrs.deep_view().take(i as int)),
        decreases attrs@.len() - i,
    {
        let ghost t = attrs.deep_view().take(i + 1);
        assert(t.drop_last() =~= attrs.deep_view().take(i as int));
        match &attrs[i] {
            Some(v) => {
                out.push(v.clone());
                assert(out.deep_view() =~= present(attrs.deep_view().take(i as int)).push(v@));
            },
            None => {},
        }
        i = i + 1;
    }
    assert(attrs.deep_view().take(attrs@.len() as int) =~= attrs.deep_view());
    out
}

fn present_path_values(attrs: &Vec<Option<String>>) -> (r: Vec<String>)
    ensures
        r.deep_view() == present_paths(attrs.deep_view()),
{
    let mut out: Vec<String> = Vec::new();
    let mut i: usize = 0;
    while i < attrs.len()
        invariant
            i <= attrs@.len(),
            out.deep_view() == present_paths(attrs.deep_view().take(i as int)),
        decreases attrs@.len() - i,
    {
        let ghost t = attrs.deep_view().take(i + 1);
        assert(t.drop_last() =~= attrs.deep_view().take(i as int));
        match &attrs[i] {
            Some(v) => {
                match strip_prefix(v.as_str(), "/") {
                    Some(p) => {
                        proof {
                            reveal_strlit("/");
                        }
                        out.push(p);
                        assert(out.deep_view() =~= present_paths(
                            attrs.deep_view().take(i as int),
                        ).push(v@.skip(1)));
                    },
                    None => {},
                }
            },
            None => {},
        }
        i = i + 1;
    }
    assert(attrs.deep_view().take(attrs@.len() as int) =~= attrs.deep_view());
    out
}

fn concat_texts(texts: &Vec<String>) -> (r: String)
    ensures
        r@ == concat_all(texts.deep_view()),
{
    let mut out = String::new();
    let mut i: usize = 0;
    while i < texts.len()
        invariant
            i <= texts@.len(),
            out@ == concat_all(texts.deep_view().take(i as int)),
        decreases texts@.len() - i,
    {
        let ghost t = texts.deep_view().take(i + 1);
        assert(t.drop_last() =~= texts.deep_view().take(i as int));
        out.append(texts[i].as_str());
        i = i + 1;
    }
    assert(texts.deep_view().take(texts@.len() as int) =~= texts.deep_view());
    out
}

/// The season links of a show's season dropdown.
pub const SEASON_LINKS: &'static str = ".dropdown-menu > a";

/// The links of an episode list or of a server list.
pub const LIST_LINKS: &'static str = "ul > li > a";

/// The season ids of a season dropdown, in document order.
pub open spec fn season_ids_of(html: Seq<char>) -> Seq<Seq<char>> {
    present(query_attributes(html, SEASON_LINKS@, "data-id"@))
}

/// Pairs `a[i]` with `b[i]` up to the shorter length.
pub open spec fn zip_attrs(a: Seq<Option<Seq<char>>>, b: Seq<Option<Seq<char>>>) -> Seq<
    (Option<Seq<char>>, Option<Seq<char>>),
> {
    Seq::new(
        if a.len() <= b.len() {
            a.len()
        } else {
            b.len()
        },
        |i: int| (a[i], b[i]),
    )
}

/// Episodes from (id, title) pairs: a pair without a non-empty id is dropped,
/// a missing title becomes empty.
pub open spec fn episode_rows(pairs: Seq<(Option<Seq<char>>, Option<Seq<char>>)>) -> Seq<
    (Seq<char>, Seq<char>),
>
    decreases pairs.len(),
{
    if pairs.len() == 0 {
        Seq::empty()
    } else {
        let rest = episode_rows(pairs.drop_last());
        match pairs.last().0 {
            Some(id) => if id.len() > 0 {
                rest.push(
                    (
                        id,
                        match pairs.last().1 {
                            Some(t) => t,
                            None => Seq::empty(),
                        },
                    ),
                )
            } else {
                rest
            },
            None => rest,
        }
    }
}

/// The episodes of an episode-list document, as (id, title).
pub open spec fn episodes_of(html: Seq<char>) -> Seq<(Seq<char>, Seq<char>)> {
    episode_rows(
        zip_attrs(
            query_attributes(html, LIST_LINKS@, "data-id"@),
            query_attributes(html, LIST_LINKS@, "title"@),
        ),
    )
}

proof fn lemma_present_grows(attrs: Seq<Option<Seq<char>>>, k: int)
    requires
        0 <= k <= attrs.len(),
    ensures
        present(attrs.take(k)).len() <= present(attrs).len(),
    decreases attrs.len() - k,
{
    if k < attrs.len() {
        lemma_present_grows(attrs, k + 1);
        assert(attrs.take(k + 1).drop_last() =~= attrs.take(k));
    } else {
        assert(attrs.take(k) =~= attrs);
    }
}

proof fn lemma_episode_rows_bounded(
    ids: Seq<Option<Seq<char>>>,
    titles: Seq<Option<Seq<char>>>,
    k: int,
)
    requires
        0 <= k <= zip_attrs(ids, titles).len(),
    ensures
        episode_rows(zip_attrs(ids, titles).take(k)).len() <= present(ids.take(k)).len(),
        forall|i: int|
            0 <= i < episode_rows(zip_attrs(ids, titles).take(k)).len() ==> (#[trigger] episode_rows(
                zip_attrs(ids, titles).take(k),
            )[i]).0.len() > 0,
    decreases k,
{
    let pairs = zip_attrs(ids, titles);
    if k > 0 {
        lemma_episode_rows_bounded(ids, titles, k - 1);
        assert(pairs.take(k).drop_last() =~= pairs.take(k - 1));
        assert(ids.take(k).drop_last() =~= ids.take(k - 1));
        assert(pairs.take(k).last().0 == ids.take(k).last());
        let prev = episode_rows(pairs.take(k - 1));
        let now = episode_rows(pairs.take(k));
        assert forall|i: int| 0 <= i < now.len() implies (#[trigger] now[i]).0.len() > 0 by {
            if i < prev.len() {
                assert(now[i] == prev[i]);
            }
        }
    } else {
        assert(pairs.take(0) =~= Seq::<(Option<Seq<char>>, Option<Seq<char>>)>::empty());
    }
}

/// An episode list never yields more episodes than it has `data-id`
/// attributes, and every episode it yields has a non-empty id.
pub proof fn episodes_within_ids(html: Seq<char>)
    ensures
        episodes_of(html).len() <= present(query_attributes(html, LIST_LINKS@, "data-id"@)).len(),
        forall|i: int| 0 <= i < episodes_of(html).len() ==> (#[trigger] episodes_of(html)[i]).0.len() > 0,
{
    let ids = query_attributes(html, LIST_LINKS@, "data-id"@);
    let titles = query_attributes(html, LIST_LINKS@, "title"@);
    let pairs = zip_attrs(ids, titles);
    lemma_episode_rows_bounded(ids, titles, pairs.len() as int);
    assert(pairs.take(pairs.len() as int) =~= pairs);
    lemma_present_grows(ids, pairs.len() as int);
}

/// `eps` holds exactly the episodes `rows`, in order.
pub open spec fn episodes_are(eps: Seq<FlixHQEpisode>, rows: Seq<(Seq<char>, Seq<char>)>) -> bool {
    &&& eps.len() == rows.len()
    &&& forall|i: int|
        0 <= i < rows.len() ==> (#[trigger] eps[i]).id@ == rows[i].0 && eps[i].title@ == rows[i].1
}

/// The watch URL of a server of `media_id`.
pub open spec fn watch_url(media_id: Seq<char>, server_id: Seq<char>) -> Seq<char> {
    BASE_URL@ + "/watch-"@ + media_id + "."@ + server_id
}

/// A server from its (id, title) attributes.
pub open spec fn server_row(pair: (Option<Seq<char>>, Option<Seq<char>>), media_id: Seq<char>) -> (
    Seq<char>,
    Seq<char>,
) {
    let id = match pair.0 {
        Some(v) => remove_all(v, "watch-"@),
        None => Seq::empty(),
    };
    let name = match pair.1 {
        Some(v) => strip_repeated(v, "Server "@),
        None => Seq::empty(),
    };
    (name, watch_url(media_id, id))
}

/// The servers of a server-list document, as (name, url).
pub open spec fn servers_of(html: Seq<char>, media_id: Seq<char>) -> Seq<(Seq<char>, Seq<char>)> {
    zip_attrs(
        query_attributes(html, LIST_LINKS@, "id"@),
        query_attributes(html, LIST_LINKS@, "title"@),
    ).map_values(|p: (Option<Seq<char>>, Option<Seq<char>>)| server_row(p, media_id))
}

/// `servers` holds exactly the (name, url) rows, in order.
pub open spec fn servers_are(servers: Seq<FlixHQServer>, rows: Seq<(Seq<char>, Seq<char>)>) -> bool {
    &&& servers.len() == rows.len()
    &&& forall|i: int|
        0 <= i < rows.len() ==> (#[trigger] servers[i]).name@ == rows[i].0 && servers[i].url@
            == rows[i].1
}

/// The whole document could not be parsed.
pub open spec fn parse_failed<T>(r: Result<T, FlixHQError>, html: Seq<char>) -> bool {
    &&& (r is Err <==> !html_loads(html))
    &&& (r matches Err(e) ==> e == FlixHQError::Parse)
}

fn min_len(a: usize, b: usize) -> (r: usize)
    ensures
        r == if a <= b {
            a
        } else {
            b
        },
{
    if a <= b {
        a
    } else {
        b
    }
}

fn owned_or_empty(v: &Option<String>) -> (r: String)
    ensures
        r@ == match v {
            Some(s) => s@,
            None => Seq::empty(),
        },
{
    match v {
        Some(s) => s.clone(),
        None => String::new(),
    }
}

/// Builds the watch URL of a server of `media_id`.
pub fn watch_link(media_id: &str, server_id: &str) -> (r: String)
    ensures
        r@ == watch_url(media_id@, server_id@),
{
    let mut u = String::from_str(BASE_URL);
    u.append("/watch-");
    u.append(media_id);
    u.append(".");
    u.append(server_id);
    u
}

impl FlixHQ {
    /// The season ids of a season dropdown, in document order: index 0 is
    /// season 1.
    pub fn season_info(&self, html: &str) -> (r: Result<Vec<String>, FlixHQError>)
        ensures
            parse_failed(r, html@),
            r matches Ok(v) ==> v.deep_view() == season_ids_of(html@),
    {
        if !document_loads(html) {
            return Err(FlixHQError::Parse);
        }
        let attrs = select_attributes(html, SEASON_LINKS, "data-id");
        Ok(present_values(&attrs))
    }

    /// The episodes of an episode list, paired positionally from the links'
    /// `data-id` and `title` attributes.
    pub fn episode_info(&self, html: &str) -> (r: Result<Vec<FlixHQEpisode>, FlixHQError>)
        ensures
            parse_failed(r, html@),
            r matches Ok(v) ==> episodes_are(v@, episodes_of(html@)),
    {
        if !document_loads(html) {
            return Err(FlixHQError::Parse);
        }
        let ids = select_attributes(html, LIST_LINKS, "data-id");
        let titles = select_attributes(html, LIST_LINKS, "title");
        let ghost pairs = zip_attrs(ids.deep_view(), titles.deep_view());
        let n = min_len(ids.len(), titles.len());
        let mut out: Vec<FlixHQEpisode> = Vec::new();
        let mut i: usize = 0;
        while i < n
            invariant
                n == pairs.len(),
                n <= ids@.len(),
                n <= titles@.len(),
                pairs == zip_attrs(ids.deep_view(), titles.deep_view()),
                i <= n,
                episodes_are(out@, episode_rows(pairs.take(i as int))),
            decreases n - i,
        {
            assert(pairs.take(i + 1).drop_last() =~= pairs.take(i as int));
            let ghost prev = out@;
            match &ids[i] {
                Some(id) => {
                    if id.unicode_len() > 0 {
                        let title = owned_or_empty(&titles[i]);
                        out.push(FlixHQEpisode { id: id.clone(), title });
                    }
                },
                None => {},
            }
            i = i + 1;
        }
        assert(pairs.take(n as int) =~= pairs);
        Ok(out)
    }

    /// The servers of a server list, each named by its title without the
    /// `Server ` prefix and pointed at the watch URL of `media_id`.
    pub fn info_server(&self, html: &str, media_id: &str) -> (r: Result<Vec<FlixHQServer>, FlixHQError>)
        ensures
            parse_failed(r, html@),
            r matches Ok(v) ==> servers_are(v@, servers_of(html@, media_id@)),
    {
        if !document_loads(html) {
            return Err(FlixHQError::Parse);
        }
        let ids = select_attributes(html, LIST_LINKS, "id");
        let titles = select_attributes(html, LIST_LINKS, "title");
        let ghost pairs = zip_attrs(ids.deep_view(), titles.deep_view());
        let ghost rows = servers_of(html@, media_id@);
        let n = min_len(ids.len(), titles.len());
        let mut out: Vec<FlixHQServer> = Vec::new();
        let mut i: usize = 0;
        while i < n
            invariant
                n == pairs.len(),
                n <= ids@.len(),
                n <= titles@.len(),
                pairs == zip_attrs(ids.deep_view(), titles.deep_view()),
                rows == pairs.map_values(
                    |p: (Option<Seq<char>>, Option<Seq<char>>)| server_row(p, media_id@),
                ),
                i <= n,
                servers_are(out@, rows.take(i as int)),
            decreases n - i,
        {
            let id = match &ids[i] {
                Some(v) => {
                    proof {
                        reveal_strlit("watch-");
                    }
                    remove_pattern(v.as_str(), "watch-")
                },
                None => String::new(),
            };
            let name = match &titles[i] {
                Some(v) => strip_leading_repeats(v.as_str(), "Server "),
                None => String::new(),
            };
            let url = watch_link(media_id, id.as_str());
            out.push(FlixHQServer { name, url });
            i = i + 1;
        }
        assert(rows.take(n as int) =~= rows);
        Ok(out)
    }
}

/// One poster card: (id, image, title, first label, third label).
pub type Card = (Seq<char>, Seq<char>, Seq<char>, Seq<char>, Seq<char>);

/// The kind of an item, from the first segment of its id.
pub open spec fn kind_of(id: Seq<char>) -> Option<MediaType> {
    if first_segment(id, '/') == "tv"@ {
        Some(MediaType::Tv)
    } else if first_segment(id, '/') == "movie"@ {
        Some(MediaType::Movie)
    } else {
        None
    }
}

/// A count label such as `SS 3`: the number after `pat` is removed, 0 when
/// what remains is no number.
pub open spec fn count_label(s: Seq<char>, pat: Seq<char>) -> nat {
    let t = remove_all(s, pat);
    if is_usize_text(t) {
        decimal_value(unsigned_digits(t))
    } else {
        0
    }
}

pub open spec fn min5(a: nat, b: nat, c: nat, d: nat, e: nat) -> nat {
    let ab = if a <= b {
        a
    } else {
        b
    };
    let cd = if c <= d {
        c
    } else {
        d
    };
    let abcd = if ab <= cd {
        ab
    } else {
        cd
    };
    if abcd <= e {
        abcd
    } else {
        e
    }
}

/// The cards of a listing page: the five lists paired positionally, up to the
/// shortest.
pub open spec fn card_rows(
    html: Seq<char>,
    ids: Seq<char>,
    images: Seq<char>,
    titles: Seq<char>,
    firsts: Seq<char>,
    thirds: Seq<char>,
) -> Seq<Card> {
    let a = present_paths(query_attributes(html, ids, "href"@));
    let b = present(query_attributes(html, images, "data-src"@));
    let c = present(query_attributes(html, titles, "title"@));
    let d = query_texts(html, firsts);
    let e = query_texts(html, thirds);
    Seq::new(min5(a.len(), b.len(), c.len(), d.len(), e.len()), |i: int| (a[i], b[i], c[i], d[i], e[i]))
}

/// The cards that are kept, with their kind: `fixed` when given, else the kind
/// of the id; a card of unknown kind is dropped.
pub open spec fn kept_cards(rows: Seq<Card>, fixed: Option<MediaType>) -> Seq<(MediaType, Card)>
    decreases rows.len(),
{
    if rows.len() == 0 {
        Seq::empty()
    } else {
        let rest = kept_cards(rows.drop_last(), fixed);
        let kind = match fixed {
            Some(k) => Some(k),
            None => kind_of(rows.last().0),
        };
        match kind {
            Some(k) => rest.push((k, rows.last())),
            None => rest,
        }
    }
}

/// `info` is the entry that card `c` of kind `k` gives.
pub open spec fn info_is(info: FlixHQInfo, k: MediaType, c: Card) -> bool {
    match info {
        FlixHQInfo::Tv(s) => {
            &&& k == MediaType::Tv
            &&& s.id@ == c.0 && s.image@ == c.1 && s.title@ == c.2
            &&& s.seasons.total_seasons == count_label(c.3, "SS "@)
            &&& s.seasons.episodes@.len() == 0
            &&& s.episodes == count_label(c.4, "EPS "@)
            &&& s.media_type == MediaType::Tv
        },
        FlixHQInfo::Movie(m) => {
            &&& k == MediaType::Movie
            &&& m.id@ == c.0 && m.image@ == c.1 && m.title@ == c.2
            &&& m.year@ == c.3 && m.duration@ == c.4
            &&& m.media_type == MediaType::Movie
        },
    }
}

pub open spec fn infos_are(infos: Seq<FlixHQInfo>, cards: Seq<(MediaType, Card)>) -> bool {
    &&& infos.len() == cards.len()
    &&& forall|i: int| 0 <= i < cards.len() ==> info_is(#[trigger] infos[i], cards[i].0, cards[i].1)
}

/// The kind of an item from its id: `tv/...` is a show, `movie/...` a movie.
pub fn media_kind(id: &str) -> (r: Option<MediaType>)
    ensures
        r == kind_of(id@),
{
    let seg = before_first(id, '/');
    if str_eq(seg.as_str(), "tv") {
        Some(MediaType::Tv)
    } else if str_eq(seg.as_str(), "movie") {
        Some(MediaType::Movie)
    } else {
        None
    }
}

/// A path under `tv/` is a show, one under `movie/` a movie.
pub proof fn kind_of_path(id: Seq<char>)
    ensures
        is_prefix("tv/"@, id) ==> kind_of(id) == Some(MediaType::Tv),
        is_prefix("movie/"@, id) ==> kind_of(id) == Some(MediaType::Movie),
{
    reveal_strlit("tv/");
    reveal_strlit("tv");
    reveal_strlit("movie/");
    reveal_strlit("movie");
    if is_prefix("tv/"@, id) {
        assert(id[0] == 't' && id[1] == 'v' && id[2] == '/') by {
            assert(id.subrange(0, 3)[0] == id[0]);
            assert(id.subrange(0, 3)[1] == id[1]);
            assert(id.subrange(0, 3)[2] == id[2]);
        }
        lemma_first_index(id, '/', 2);
        assert(id.skip(2)[0] == '/');
        assert(first_segment(id, '/') =~= "tv"@);
    }
    if is_prefix("movie/"@, id) {
        assert forall|k: int| 0 <= k < 6 implies id[k] == "movie/"@[k] by {
            assert(id.subrange(0, 6)[k] == id[k]);
        }
        lemma_first_index(id, '/', 5);
        assert(id.skip(5)[0] == '/');
        assert(first_segment(id, '/') =~= "movie"@);
        assert(first_segment(id, '/') != "tv"@);
    }
}

/// The number in a count label such as `SS 3`, 0 when there is none.
pub fn label_count(s: &str, pat: &str) -> (r: usize)
    requires
        pat@.len() > 0,
    ensures
        r == count_label(s@, pat@),
{
    let t = remove_pattern(s, pat);
    match parse_usize(t.as_str()) {
        Ok(v) => v,
        Err(_) => 0,
    }
}

fn card_info(kind: MediaType, id: String, image: String, title: String, first: &str, third: &str) -> (r:
    FlixHQInfo)
    ensures
        info_is(r, kind, (id@, image@, title@, first@, third@)),
{
    match kind {
        MediaType::Tv => {
            proof {
                reveal_strlit("SS ");
                reveal_strlit("EPS ");
            }
            let total_seasons = label_count(first, "SS ");
            let episodes = label_count(third, "EPS ");
            FlixHQInfo::Tv(
                FlixHQShow {
                    id,
                    title,
                    image,
                    seasons: FlixHQSeason { total_seasons, episodes: Vec::new() },
                    episodes,
                    media_type: MediaType::Tv,
                },
            )
        },
        MediaType::Movie => FlixHQInfo::Movie(
            FlixHQMovie {
                id,
                title,
                year: first.to_owned(),
                image,
                duration: third.to_owned(),
                media_type: MediaType::Movie,
            },
        ),
    }
}

fn min5_len(a: usize, b: usize, c: usize, d: usize, e: usize) -> (r: usize)
    ensures
        r == min5(a as nat, b as nat, c as nat, d as nat, e as nat),
{
    min_len(min_len(min_len(a, b), min_len(c, d)), e)
}

/// The entries of a listing page whose cards are found by the five selectors.
fn parse_cards(
    html: &str,
    ids_sel: &str,
    images_sel: &str,
    titles_sel: &str,
    firsts_sel: &str,
    thirds_sel: &str,
    fixed: Option<MediaType>,
) -> (r: Result<Vec<FlixHQInfo>, FlixHQError>)
    ensures
        parse_failed(r, html@),
        r matches Ok(v) ==> infos_are(
            v@,
            kept_cards(
                card_rows(html@, ids_sel@, images_sel@, titles_sel@, firsts_sel@, thirds_sel@),
                fixed,
            ),
        ),
{
    if !document_loads(html) {
        return Err(FlixHQError::Parse);
    }
    let ids = present_path_values(&select_attributes(html, ids_sel, "href"));
    let images = present_values(&select_attributes(html, images_sel, "data-src"));
    let titles = present_values(&select_attributes(html, titles_sel, "title"));
    let firsts = select_texts(html, firsts_sel);
    let thirds = select_texts(html, thirds_sel);
    let ghost rows = card_rows(html@, ids_sel@, images_sel@, titles_sel@, firsts_sel@, thirds_sel@);
    let n = min5_len(ids.len(), images.len(), titles.len(), firsts.len(), thirds.len());
    let mut out: Vec<FlixHQInfo> = Vec::new();
    let mut i: usize = 0;
    while i < n
        invariant
            n == rows.len(),
            n <= ids@.len() && n <= images@.len() && n <= titles@.len(),
            n <= firsts@.len() && n <= thirds@.len(),
            forall|j: int|
                0 <= j < n ==> #[trigger] rows[j] == (
                    ids.deep_view()[j],
                    images.deep_view()[j],
                    titles.deep_view()[j],
                    firsts.deep_view()[j],
                    thirds.deep_view()[j],
                ),
            i <= n,
            infos_are(out@, kept_cards(rows.take(i as int), fixed)),
        decreases n - i,
    {
        assert(rows.take(i + 1).drop_last() =~= rows.take(i as int));
        assert(rows.take(i + 1).last() == rows[i as int]);
        let kind = match fixed {
            Some(k) => Some(k),
            None => media_kind(ids[i].as_str()),
        };
        match kind {
            Some(k) => {
                let info = card_info(
                    k,
                    ids[i].clone(),
                    images[i].clone(),
                    titles[i].clone(),
                    firsts[i].as_str(),
                    thirds[i].as_str(),
                );
                out.push(info);
            },
            None => {},
        }
        i = i + 1;
    }
    assert(rows.take(n as int) =~= rows);
    Ok(out)
}

// The card selectors of the search results page.
pub const SEARCH_IDS: &'static str = "div.film-poster > a";
pub const SEARCH_IMAGES: &'static str = "div.film-poster > img";
pub const SEARCH_TITLES: &'static str = "div.film-detail > h2.film-name > a";
pub const SEARCH_FIRSTS: &'static str = "div.fd-infor > span:nth-child(1)";
pub const SEARCH_THIRDS: &'static str = "div.fd-infor > span:nth-child(3)";

// The card selectors of the recent movies section of the home page.
pub const RECENT_MOVIE_IDS: &'static str = "#main-wrapper > div > section:nth-child(6) > div.block_area-content.block_area-list.film_list.film_list-grid > div > div.flw-item > div.film-poster > a";
pub const RECENT_MOVIE_IMAGES: &'static str = "#main-wrapper > div > section:nth-child(6) > div.block_area-content.block_area-list.film_list.film_list-grid > div > div.flw-item > div.film-poster > img";
pub const RECENT_MOVIE_TITLES: &'static str = "#main-wrapper > div > section:nth-child(6) > div.block_area-content.block_area-list.film_list.film_list-grid > div > div.flw-item > div.film-detail > h3.film-name > a";
pub const RECENT_MOVIE_FIRSTS: &'static str = "#main-wrapper > div > section:nth-child(6) > div.block_area-content.block_area-list.film_list.film_list-grid > div > div.flw-item > div.film-detail > div.fd-infor > span:nth-child(1)";
pub const RECENT_MOVIE_THIRDS: &'static str = "#main-wrapper > div > section:nth-child(6) > div.block_area-content.block_area-list.film_list.film_list-grid > div > div.flw-item > div.film-detail > div.fd-infor > span:nth-child(3)";

// The card selectors of the recent shows section of the home page.
pub const RECENT_SHOW_IDS: &'static str = "#main-wrapper > div > section:nth-child(7) > div.block_area-content.block_area-list.film_list.film_list-grid > div > div.flw-item > div.film-poster > a";
pub const RECENT_SHOW_IMAGES: &'static str = "#main-wrapper > div > section:nth-child(7) > div.block_area-content.block_area-list.film_list.film_list-grid > div > div.flw-item > div.film-poster > img";
pub const RECENT_SHOW_TITLES: &'static str = "#main-wrapper > div > section:nth-child(7) > div.block_area-content.block_area-list.film_list.film_list-grid > div > div.flw-item > div.film-detail > h3.film-name > a";
pub const RECENT_SHOW_FIRSTS: &'static str = "#main-wrapper > div > section:nth-child(7) > div.block_area-content.block_area-list.film_list.film_list-grid > div > div.flw-item > div.film-detail > div.fd-infor > span:nth-child(1)";
pub const RECENT_SHOW_THIRDS: &'static str = "#main-wrapper > div > section:nth-child(7) > div.block_area-content.block_area-list.film_list.film_list-grid > div > div.flw-item > div.film-detail > div.fd-infor > span:nth-child(3)";

// The card selectors of the trending movies of the home page.
pub const TRENDING_MOVIE_IDS: &'static str = "div#trending-movies div.film_list-wrap div.flw-item div.film-poster a";
pub const TRENDING_MOVIE_IMAGES: &'static str = "div#trending-movies div.film_list-wrap div.flw-item div.film-poster > img";
pub const TRENDING_MOVIE_TITLES: &'static str = "div#trending-movies div.film_list-wrap div.flw-item > div.film-detail > h3.film-name > a";
pub const TRENDING_MOVIE_FIRSTS: &'static str = "div#trending-movies div.film_list-wrap div.flw-item > div.film-detail > div.fd-infor > span:nth-child(1)";
pub const TRENDING_MOVIE_THIRDS: &'static str = "div#trending-movies div.film_list-wrap div.flw-item > div.film-detail > div.fd-infor > span:nth-child(3)";

// The card selectors of the trending shows of the home page.
pub const TRENDING_SHOW_IDS: &'static str = "div#trending-tv div.film_list-wrap div.flw-item div.film-poster a";
pub const TRENDING_SHOW_IMAGES: &'static str = "div#trending-tv div.film_list-wrap div.flw-item div.film-poster > img";
pub const TRENDING_SHOW_TITLES: &'static str = "div#trending-tv div.film_list-wrap div.flw-item > div.film-detail > h3.film-name > a";
pub const TRENDING_SHOW_FIRSTS: &'static str = "div#trending-tv div.film_list-wrap div.flw-item > div.film-detail > div.fd-infor > span:nth-child(1)";
pub const TRENDING_SHOW_THIRDS: &'static str = "div#trending-tv div.film_list-wrap div.flw-item > div.film-detail > div.fd-infor > span:nth-child(3)";

/// The kept cards of the search results page.
pub open spec fn search_cards(html: Seq<char>) -> Seq<(MediaType, Card)> {
    kept_cards(
        card_rows(html, SEARCH_IDS@, SEARCH_IMAGES@, SEARCH_TITLES@, SEARCH_FIRSTS@, SEARCH_THIRDS@),
        None,
    )
}

/// The kept cards of the recent movies section of the home page.
pub open spec fn recent_movies_cards(html: Seq<char>) -> Seq<(MediaType, Card)> {
    kept_cards(
        card_rows(html, RECENT_MOVIE_IDS@, RECENT_MOVIE_IMAGES@, RECENT_MOVIE_TITLES@, RECENT_MOVIE_FIRSTS@, RECENT_MOVIE_THIRDS@),
        Some(MediaType::Movie),
    )
}

/// The kept cards of the recent shows section of the home page.
pub open spec fn recent_shows_cards(html: Seq<char>) -> Seq<(MediaType, Card)> {
    kept_cards(
        card_rows(html, RECENT_SHOW_IDS@, RECENT_SHOW_IMAGES@, RECENT_SHOW_TITLES@, RECENT_SHOW_FIRSTS@, RECENT_SHOW_THIRDS@),
        Some(MediaType::Tv),
    )
}

/// The kept cards of the trending movies of the home page.
pub open spec fn trending_movies_cards(html: Seq<char>) -> Seq<(MediaType, Card)> {
    kept_cards(
        card_rows(html, TRENDING_MOVIE_IDS@, TRENDING_MOVIE_IMAGES@, TRENDING_MOVIE_TITLES@, TRENDING_MOVIE_FIRSTS@, TRENDING_MOVIE_THIRDS@),
        Some(MediaType::Movie),
    )
}

/// The kept cards of the trending shows of the home page.
pub open spec fn trending_shows_cards(html: Seq<char>) -> Seq<(MediaType, Card)> {
    kept_cards(
        card_rows(html, TRENDING_SHOW_IDS@, TRENDING_SHOW_IMAGES@, TRENDING_SHOW_TITLES@, TRENDING_SHOW_FIRSTS@, TRENDING_SHOW_THIRDS@),
        Some(MediaType::Tv),
    )
}

/// A search page with a single card whose id is under `tv/` yields exactly
/// that card, as a show.
pub proof fn single_show_search(html: Seq<char>)
    requires
        card_rows(html, SEARCH_IDS@, SEARCH_IMAGES@, SEARCH_TITLES@, SEARCH_FIRSTS@, SEARCH_THIRDS@).len()
            == 1,
        is_prefix(
            "tv/"@,
            card_rows(html, SEARCH_IDS@, SEARCH_IMAGES@, SEARCH_TITLES@, SEARCH_FIRSTS@, SEARCH_THIRDS@)[0].0,
        ),
    ensures
        search_cards(html) == seq![
            (
                MediaType::Tv,
                card_rows(html, SEARCH_IDS@, SEARCH_IMAGES@, SEARCH_TITLES@, SEARCH_FIRSTS@, SEARCH_THIRDS@)[0],
            ),
        ],
{
    let rows = card_rows(html, SEARCH_IDS@, SEARCH_IMAGES@, SEARCH_TITLES@, SEARCH_FIRSTS@, SEARCH_THIRDS@);
    kind_of_path(rows[0].0);
    assert(rows.drop_last() =~= Seq::<Card>::empty());
    assert(kept_cards(rows.drop_last(), None) == Seq::<(MediaType, Card)>::empty());
    assert(rows.last() == rows[0]);
    assert(kind_of(rows.last().0) == Some(MediaType::Tv));
    assert(kept_cards(rows, None) == Seq::<(MediaType, Card)>::empty().push((MediaType::Tv, rows[0])));
    assert(search_cards(html) =~= seq![(MediaType::Tv, rows[0])]);
}

impl FlixHQ {
    /// The entries of a search results page; an entry whose id is neither
    /// `tv/...` nor `movie/...` is dropped.
    pub fn parse_search(&self, html: &str) -> (r: Result<Vec<FlixHQInfo>, FlixHQError>)
        ensures
            parse_failed(r, html@),
            r matches Ok(v) ==> infos_are(v@, search_cards(html@)),
    {
        parse_cards(html, SEARCH_IDS, SEARCH_IMAGES, SEARCH_TITLES, SEARCH_FIRSTS, SEARCH_THIRDS, None)
    }

    /// The movies of the recent-movies section.
    pub fn parse_recent_movies(&self, html: &str) -> (r: Result<Vec<FlixHQInfo>, FlixHQError>)
        ensures
            parse_failed(r, html@),
            r matches Ok(v) ==> infos_are(v@, recent_movies_cards(html@)),
    {
        parse_cards(html, RECENT_MOVIE_IDS, RECENT_MOVIE_IMAGES, RECENT_MOVIE_TITLES, RECENT_MOVIE_FIRSTS, RECENT_MOVIE_THIRDS, Some(MediaType::Movie))
    }

    /// The shows of the recent-shows section.
    pub fn parse_recent_shows(&self, html: &str) -> (r: Result<Vec<FlixHQInfo>, FlixHQError>)
        ensures
            parse_failed(r, html@),
            r matches Ok(v) ==> infos_are(v@, recent_shows_cards(html@)),
    {
        parse_cards(html, RECENT_SHOW_IDS, RECENT_SHOW_IMAGES, RECENT_SHOW_TITLES, RECENT_SHOW_FIRSTS, RECENT_SHOW_THIRDS, Some(MediaType::Tv))
    }

    /// The movies of the trending-movies list.
    pub fn parse_trending_movies(&self, html: &str) -> (r: Result<Vec<FlixHQInfo>, FlixHQError>)
        ensures
            parse_failed(r, html@),
            r matches Ok(v) ==> infos_are(v@, trending_movies_cards(html@)),
    {
        parse_cards(html, TRENDING_MOVIE_IDS, TRENDING_MOVIE_IMAGES, TRENDING_MOVIE_TITLES, TRENDING_MOVIE_FIRSTS, TRENDING_MOVIE_THIRDS, Some(MediaType::Movie))
    }

    /// The shows of the trending-shows list.
    pub fn parse_trending_shows(&self, html: &str) -> (r: Result<Vec<FlixHQInfo>, FlixHQError>)
        ensures
            parse_failed(r, html@),
            r matches Ok(v) ==> infos_are(v@, trending_shows_cards(html@)),
    {
        parse_cards(html, TRENDING_SHOW_IDS, TRENDING_SHOW_IMAGES, TRENDING_SHOW_TITLES, TRENDING_SHOW_FIRSTS, TRENDING_SHOW_THIRDS, Some(MediaType::Tv))
    }
}

// The detail page's selectors.
pub const DETAIL_TITLE: &'static str = "#main-wrapper > div.movie_information > div > div.m_i-detail > div.m_i-d-content > h2";
pub const DETAIL_POSTER: &'static str = "div.m_i-d-poster > div > img";
pub const DETAIL_RELEASED: &'static str = "div.m_i-d-content > div.elements > div:nth-child(3)";
pub const DETAIL_DURATION: &'static str = "span.item:nth-child(3)";

/// The attribute of the first matched element, empty when there is none.
pub open spec fn first_attr(attrs: Seq<Option<Seq<char>>>) -> Seq<char> {
    if attrs.len() > 0 && attrs[0] is Some {
        attrs[0]->Some_0
    } else {
        Seq::empty()
    }
}

/// A labelled metadata row: the label removed, split on commas, each piece
/// trimmed, and the pieces joined.
pub open spec fn label_value(text: Seq<char>, label: Seq<char>) -> Seq<char> {
    join_trimmed(split_on(remove_all(text, label), ','))
}

pub open spec fn detail_title(html: Seq<char>) -> Seq<char> {
    trimmed(concat_all(query_texts(html, DETAIL_TITLE@)))
}

pub open spec fn detail_image(html: Seq<char>) -> Seq<char> {
    first_attr(query_attributes(html, DETAIL_POSTER@, "src"@))
}

pub open spec fn detail_year(html: Seq<char>) -> Seq<char> {
    label_value(concat_all(query_texts(html, DETAIL_RELEASED@)), "Released:"@)
}

pub open spec fn detail_duration(html: Seq<char>) -> Seq<char> {
    trimmed(concat_all(query_texts(html, DETAIL_DURATION@)))
}

/// The trimmed text of all elements that `selector` matches.
fn query_text_trimmed(html: &str, selector: &str) -> (r: String)
    ensures
        r@ == trimmed(concat_all(query_texts(html@, selector@))),
{
    let texts = select_texts(html, selector);
    let all = concat_texts(&texts);
    trim(all.as_str())
}

impl FlixHQ {
    /// The fields of a detail page; a missing field is empty. The kind comes
    /// from the first segment of `id`.
    pub fn single_page(&self, html: &str, id: &str) -> (r: Result<FlixHQResult, FlixHQError>)
        ensures
            parse_failed(r, html@),
            r matches Ok(d) ==> {
                &&& d.title@ == detail_title(html@)
                &&& d.image@ == detail_image(html@)
                &&& d.year@ == detail_year(html@)
                &&& d.duration@ == detail_duration(html@)
                &&& d.media_type == kind_of(id@)
                &&& d.id@ == id@
            },
    {
        if !document_loads(html) {
            return Err(FlixHQError::Parse);
        }
        let title = query_text_trimmed(html, DETAIL_TITLE);
        let posters = select_attributes(html, DETAIL_POSTER, "src");
        let image = if posters.len() > 0 {
            owned_or_empty(&posters[0])
        } else {
            String::new()
        };
        let released = concat_texts(&select_texts(html, DETAIL_RELEASED));
        proof {
            reveal_strlit("Released:");
        }
        let stripped = remove_pattern(released.as_str(), "Released:");
        let year = join_trimmed_fields(stripped.as_str(), ',');
        let duration = query_text_trimmed(html, DETAIL_DURATION);
        Ok(
            FlixHQResult {
                id: id.to_owned(),
                title,
                year,
                image,
                duration,
                media_type: media_kind(id),
            },
        )
    }
}

} // verus!
