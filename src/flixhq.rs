//! Catalog entities: search results, movies, shows with their seasons and
//! episodes, server listings and resolved sources.
use vstd::prelude::*;
use crate::cli::{provider_named, Provider};
use crate::html::{html_loads, servers_are, servers_of};
use crate::json::{find_field, read_json, JsonNode};
use crate::providers::vidcloud::{envelope_link, Source, Track};
use crate::text::{
    after_last, before_first, contains, dash_spaces, first_segment, is_prefix, last_segment,
    occurs_in, replace_char, starts_with,
};

verus! {

/// The origin site that every catalog path is relative to.
pub const BASE_URL: &'static str = "https://flixhq.to";

/// Whether a catalog item is a show or a movie.
#[derive(Debug, Clone, Copy, PartialEq, Eq, Structural)]
pub enum MediaType {
    Tv,
    Movie,
}

impl MediaType {
    /// The lower-case name used in catalog paths.
    pub fn name(&self) -> (r: String)
        ensures
            r@ == media_type_name(*self),
    {
        match self {
            MediaType::Tv => String::from_str("tv"),
            MediaType::Movie => String::from_str("movie"),
        }
    }
}

pub open spec fn media_type_name(m: MediaType) -> Seq<char> {
    match m {
        MediaType::Tv => "tv"@,
        MediaType::Movie => "movie"@,
    }
}

#[derive(Debug)]
pub enum FlixHQInfo {
    Tv(FlixHQShow),
    Movie(FlixHQMovie),
}

#[derive(Debug)]
pub struct FlixHQMovie {
    pub title: String,
    pub year: String,
    pub media_type: MediaType,
    pub duration: String,
    pub image: String,
    pub id: String,
}

#[derive(Debug)]
pub struct FlixHQShow {
    pub title: String,
    pub media_type: MediaType,
    pub image: String,
    pub id: String,
    pub seasons: FlixHQSeason,
    pub episodes: usize,
}

/// The seasons of a show: `episodes[k]` lists season `k + 1`.
#[derive(Debug)]
pub struct FlixHQSeason {
    pub total_seasons: usize,
    pub episodes: Vec<Vec<FlixHQEpisode>>,
}

impl FlixHQSeason {
    /// Fully hydrated: one episode list per season.
    pub open spec fn hydrated(&self) -> bool {
        self.total_seasons == self.episodes@.len()
    }
}

/// What a detail page yields before the seasons are fetched.
#[derive(Debug)]
pub struct FlixHQResult {
    pub id: String,
    pub title: String,
    pub year: String,
    pub image: String,
    pub duration: String,
    pub media_type: Option<MediaType>,
}

#[derive(Debug)]
pub struct FlixHQEpisode {
    pub id: String,
    pub title: String,
}

#[derive(Debug)]
pub struct FlixHQServers {
    pub servers: Vec<FlixHQServer>,
}

#[derive(Debug)]
pub struct FlixHQServer {
    pub name: String,
    pub url: String,
}

/// The JSON envelope of a server: the embed link to resolve.
#[derive(Debug)]
pub struct FlixHQServerInfo {
    pub link: String,
}

#[derive(Debug)]
pub struct FlixHQSources {
    pub subtitles: FlixHQSubtitles,
    pub sources: FlixHQSourceType,
}

#[derive(Debug)]
pub enum FlixHQSourceType {
    VidCloud(Vec<Source>),
}

#[derive(Debug)]
pub enum FlixHQSubtitles {
    VidCloud(Vec<Track>),
}

/// The catalog client; it holds no state.
pub struct FlixHQ;

/// What can go wrong while reading the catalog.
#[derive(Debug, Clone, Copy, PartialEq, Eq, Structural)]
pub enum FlixHQError {
    /// The outer HTML document could not be parsed.
    Parse,
    /// A JSON envelope matched no expected shape.
    Decode,
    /// The detail page's id names neither a show nor a movie.
    UnknownMediaType,
    /// No known provider is advertised for the item.
    NoServersFound,
    /// The chosen provider resolved no playable file.
    NoSourcesAvailable,
}

/// `BASE_URL` followed by `path`.
pub open spec fn site_url(path: Seq<char>) -> Seq<char> {
    BASE_URL@ + path
}

/// The canonical numeric id of a catalog path: what follows its last `-`.
pub open spec fn numeric_id(id: Seq<char>) -> Seq<char> {
    last_segment(id, '-')
}

/// The servers endpoint: the movie shape when `media_id` names a movie or
/// `episode_id` is already an endpoint path, the episode shape otherwise.
pub open spec fn servers_endpoint(episode_id: Seq<char>, media_id: Seq<char>) -> Seq<char> {
    if !is_prefix(BASE_URL@ + "/ajax"@, episode_id) && !occurs_in("movie"@, media_id) {
        site_url("/ajax/v2/episode/servers/"@ + episode_id)
    } else {
        site_url("/ajax/movie/episodes/"@ + episode_id)
    }
}

/// The (name, url) rows whose name is a known provider, in order.
pub open spec fn known_rows(rows: Seq<(Seq<char>, Seq<char>)>) -> Seq<(Seq<char>, Seq<char>)>
    decreases rows.len(),
{
    if rows.len() == 0 {
        rows
    } else {
        let rest = known_rows(rows.drop_last());
        if provider_named(rows.last().0) is Some {
            rest.push(rows.last())
        } else {
            rest
        }
    }
}

/// `i` is the first index of a server named `name`.
pub open spec fn first_named_at(servers: Seq<FlixHQServer>, name: Seq<char>, i: int) -> bool {
    &&& 0 <= i < servers.len()
    &&& servers[i].name@ == name
    &&& forall|j: int| 0 <= j < i ==> (#[trigger] servers[j]).name@ != name
}

/// No server is named `name`.
pub open spec fn none_named(servers: Seq<FlixHQServer>, name: Seq<char>) -> bool {
    forall|j: int| 0 <= j < servers.len() ==> (#[trigger] servers[j]).name@ != name
}

fn site_link(path: &str) -> (r: String)
    ensures
        r@ == site_url(path@),
{
    let mut u = String::from_str(BASE_URL);
    u.append(path);
    u
}

fn site_link2(a: &str, b: &str) -> (r: String)
    ensures
        r@ == site_url(a@ + b@),
{
    let mut u = String::from_str(BASE_URL);
    u.append(a);
    u.append(b);
    assert(u@ =~= site_url(a@ + b@));
    u
}

/// The index of the first server named `name`.
fn position_named(servers: &Vec<FlixHQServer>, name: &str) -> (r: Option<usize>)
    ensures
        r matches Some(i) ==> first_named_at(servers@, name@, i as int),
        r is None ==> none_named(servers@, name@),
{
    let mut i: usize = 0;
    while i < servers.len()
        invariant
            i <= servers@.len(),
            forall|j: int| 0 <= j < i ==> (#[trigger] servers@[j]).name@ != name@,
        decreases servers@.len() - i,
    {
        if str_eq_string(&servers[i].name, name) {
            return Some(i);
        }
        i = i + 1;
    }
    None
}

fn str_eq_string(a: &String, b: &str) -> (r: bool)
    ensures
        r == (a@ == b@),
{
    crate::text::str_eq(a.as_str(), b)
}

impl FlixHQ {
    /// The search page of a query: spaces become dashes.
    pub fn search_url(&self, query: &str) -> (r: String)
        ensures
            r@ == site_url("/search/"@ + replace_char(query@, ' ', '-')),
    {
        let q = dash_spaces(query);
        site_link2("/search/", q.as_str())
    }

    /// The detail page of a catalog path.
    pub fn info_url(&self, media_id: &str) -> (r: String)
        ensures
            r@ == site_url("/"@ + media_id@),
    {
        site_link2("/", media_id)
    }

    /// The season dropdown of a show, addressed by its numeric id.
    pub fn seasons_url(&self, media_id: &str) -> (r: String)
        ensures
            r@ == site_url("/ajax/v2/tv/seasons/"@ + numeric_id(media_id@)),
    {
        let id = after_last(media_id, '-');
        site_link2("/ajax/v2/tv/seasons/", id.as_str())
    }

    /// The episode list of a season.
    pub fn episodes_url(&self, season_id: &str) -> (r: String)
        ensures
            r@ == site_url("/ajax/v2/season/episodes/"@ + season_id@),
    {
        site_link2("/ajax/v2/season/episodes/", season_id)
    }

    /// The server list of an episode or of a movie.
    pub fn servers_url(&self, episode_id: &str, media_id: &str) -> (r: String)
        ensures
            r@ == servers_endpoint(episode_id@, media_id@),
    {
        let ajax = site_link("/ajax");
        if !starts_with(episode_id, ajax.as_str()) && !contains(media_id, "movie") {
            site_link2("/ajax/v2/episode/servers/", episode_id)
        } else {
            site_link2("/ajax/movie/episodes/", episode_id)
        }
    }

    /// The sources endpoint of a server: the server token is what follows the
    /// last `.` of its watch URL.
    pub fn sources_url(&self, server_url: &str) -> (r: String)
        ensures
            r@ == site_url("/ajax/episode/sources/"@ + last_segment(server_url@, '.')),
    {
        let token = after_last(server_url, '.');
        site_link2("/ajax/episode/sources/", token.as_str())
    }

    /// A movie from its detail page: the numeric id, and the year up to its
    /// first `-`.
    pub fn movie_from(&self, detail: FlixHQResult) -> (r: FlixHQMovie)
        ensures
            r.id@ == numeric_id(detail.id@),
            r.title@ == detail.title@,
            r.image@ == detail.image@,
            r.year@ == first_segment(detail.year@, '-'),
            r.duration@ == detail.duration@,
            r.media_type == MediaType::Movie,
    {
        FlixHQMovie {
            id: after_last(detail.id.as_str(), '-'),
            year: before_first(detail.year.as_str(), '-'),
            title: detail.title,
            image: detail.image,
            duration: detail.duration,
            media_type: MediaType::Movie,
        }
    }

    /// A hydrated show from its detail page and the episodes of each of its
    /// seasons, fetched in season order. The season count is the number of
    /// season ids, whatever the episode lists hold.
    pub fn show_from(
        &self,
        detail: FlixHQResult,
        season_ids: &Vec<String>,
        episodes: Vec<Vec<FlixHQEpisode>>,
    ) -> (r: FlixHQShow)
        requires
            episodes@.len() == season_ids@.len(),
        ensures
            r.seasons.total_seasons == season_ids@.len(),
            r.seasons.episodes@ == episodes@,
            r.seasons.hydrated(),
            r.episodes == if episodes@.len() == 0 {
                0
            } else {
                episodes@.last()@.len()
            },
            r.id@ == numeric_id(detail.id@),
            r.title@ == detail.title@,
            r.image@ == detail.image@,
            r.media_type == MediaType::Tv,
    {
        let n = episodes.len();
        let last = if n == 0 {
            0
        } else {
            episodes[n - 1].len()
        };
        FlixHQShow {
            id: after_last(detail.id.as_str(), '-'),
            title: detail.title,
            image: detail.image,
            seasons: FlixHQSeason { total_seasons: season_ids.len(), episodes },
            episodes: last,
            media_type: MediaType::Tv,
        }
    }

    /// The servers of a server-list document that a known provider runs
    /// (names matched exactly); the others are dropped.
    pub fn servers(&self, html: &str, media_id: &str) -> (r: Result<FlixHQServers, FlixHQError>)
        ensures
            r is Err <==> !html_loads(html@),
            r matches Err(e) ==> e == FlixHQError::Parse,
            r matches Ok(s) ==> servers_are(s.servers@, known_rows(servers_of(html@, media_id@))),
            r matches Ok(s) ==> forall|i: int|
                0 <= i < s.servers@.len() ==> provider_named((#[trigger] s.servers@[i]).name@) is Some,
    {
        let all = match self.info_server(html, media_id) {
            Ok(v) => v,
            Err(e) => {
                return Err(e);
            },
        };
        let ghost rows = servers_of(html@, media_id@);
        let mut kept: Vec<FlixHQServer> = Vec::new();
        let mut rest = all;
        let n = rest.len();
        let mut i: usize = 0;
        while i < n
            invariant
                n == rest@.len(),
                n == rows.len(),
                servers_are(rest@, rows),
                i <= n,
                servers_are(kept@, known_rows(rows.take(i as int))),
                forall|j: int|
                    0 <= j < kept@.len() ==> provider_named((#[trigger] kept@[j]).name@) is Some,
            decreases n - i,
        {
            assert(rows.take(i + 1).drop_last() =~= rows.take(i as int));
            assert(rows.take(i + 1).last() == rows[i as int]);
            if Provider::from_name(rest[i].name.as_str()).is_some() {
                let server = FlixHQServer { name: rest[i].name.clone(), url: rest[i].url.clone() };
                kept.push(server);
            }
            i = i + 1;
        }
        assert(rows.take(n as int) =~= rows);
        Ok(FlixHQServers { servers: kept })
    }

    /// The embed link of a server's JSON envelope `{"link": ...}`.
    pub fn server_info(&self, text: &str) -> (r: Result<FlixHQServerInfo, FlixHQError>)
        ensures
            r is Ok <==> envelope_link(text@) is Some,
            r matches Ok(i) ==> i.link@ == envelope_link(text@)->Some_0,
            r matches Err(e) ==> e == FlixHQError::Decode,
    {
        let link = match read_json(text) {
            Some(JsonNode::Object(es)) => find_field(&es, "link"),
            _ => None,
        };
        match link {
            Some(t) => match read_json(t.as_str()) {
                Some(JsonNode::Str(l)) => Ok(FlixHQServerInfo { link: l }),
                _ => Err(FlixHQError::Decode),
            },
            None => Err(FlixHQError::Decode),
        }
    }

    /// The server to fetch sources from: the first advertised under the
    /// requested name if that is a known provider, else the first advertised
    /// as Vidcloud, the default provider. `None` when neither is advertised.
    pub fn choose_server(&self, servers: &Vec<FlixHQServer>, requested: &str) -> (r: Option<
        (usize, Provider),
    >)
        ensures
            provider_named(requested@) matches Some(p) ==> (!none_named(servers@, requested@) ==> (
            r matches Some((i, q)) && q == p && first_named_at(servers@, requested@, i as int))),
            (provider_named(requested@) is None || none_named(servers@, requested@)) ==> ({
                &&& none_named(servers@, "Vidcloud"@) ==> r is None
                &&& !none_named(servers@, "Vidcloud"@) ==> (r matches Some((i, q)) && q
                    == Provider::Vidcloud && first_named_at(servers@, "Vidcloud"@, i as int))
            }),
    {
        match Provider::from_name(requested) {
            Some(p) => {
                match position_named(servers, requested) {
                    Some(i) => {
                        return Some((i, p));
                    },
                    None => {},
                }
            },
            None => {},
        }
        match position_named(servers, "Vidcloud") {
            Some(i) => Some((i, Provider::Vidcloud)),
            None => None,
        }
    }
}

} // verus!
