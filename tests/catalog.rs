use lobster::flixhq::{FlixHQ, FlixHQEpisode, FlixHQError, FlixHQInfo, FlixHQResult, FlixHQServer, MediaType};

const SEARCH_PAGE: &str = r#"<html><body>
<div class="flw-item">
  <div class="film-poster"><img data-src="https://img.example/1.jpg"><a href="/tv/example-99"></a></div>
  <div class="film-detail"><h2 class="film-name"><a title="Example"></a></h2>
    <div class="fd-infor"><span>SS 2</span><span class="dot"></span><span>EPS 8</span></div></div>
</div>
<div class="flw-item">
  <div class="film-poster"><img data-src="https://img.example/2.jpg"><a href="/movie/watch-film-5678"></a></div>
  <div class="film-detail"><h2 class="film-name"><a title="Film"></a></h2>
    <div class="fd-infor"><span>2021</span><span class="dot"></span><span>95m</span></div></div>
</div>
<div class="flw-item">
  <div class="film-poster"><img data-src="https://img.example/3.jpg"><a href="/anime/other-1"></a></div>
  <div class="film-detail"><h2 class="film-name"><a title="Other"></a></h2>
    <div class="fd-infor"><span>x</span><span class="dot"></span><span>y</span></div></div>
</div>
</body></html>"#;

#[test]
fn search_results_keep_shows_and_movies() {
    let results = FlixHQ.parse_search(SEARCH_PAGE).unwrap();
    assert_eq!(results.len(), 2);
    match &results[0] {
        FlixHQInfo::Tv(show) => {
            assert_eq!(show.id, "tv/example-99");
            assert_eq!(show.title, "Example");
            assert_eq!(show.image, "https://img.example/1.jpg");
            assert_eq!(show.seasons.total_seasons, 2);
            assert_eq!(show.episodes, 8);
            assert!(show.seasons.episodes.is_empty());
        }
        other => panic!("expected a show, got {:?}", other),
    }
    match &results[1] {
        FlixHQInfo::Movie(movie) => {
            assert_eq!(movie.id, "movie/watch-film-5678");
            assert_eq!(movie.title, "Film");
            assert_eq!(movie.year, "2021");
            assert_eq!(movie.duration, "95m");
            assert_eq!(movie.media_type, MediaType::Movie);
        }
        other => panic!("expected a movie, got {:?}", other),
    }
}

#[test]
fn search_of_empty_page_is_empty() {
    let results = FlixHQ.parse_search("<html><body><p>nothing</p></body></html>").unwrap();
    assert!(results.is_empty());
}

#[test]
fn season_ids_in_document_order() {
    let html = r#"<div class="dropdown-menu"><a data-id="111">Season 1</a><a data-id="222">Season 2</a><a>Extras</a><a data-id="333">Season 3</a></div>"#;
    let ids = FlixHQ.season_info(html).unwrap();
    assert_eq!(ids, vec!["111".to_string(), "222".to_string(), "333".to_string()]);
}

#[test]
fn episodes_drop_entries_without_id() {
    let html = r#"<ul><li><a data-id="1" title="Eps 1: Pilot">a</a></li><li><a title="Trailer">b</a></li><li><a data-id="3">c</a></li><li><a data-id="" title="Empty">d</a></li></ul>"#;
    let eps = FlixHQ.episode_info(html).unwrap();
    assert_eq!(eps.len(), 2);
    assert_eq!(eps[0].id, "1");
    assert_eq!(eps[0].title, "Eps 1: Pilot");
    assert_eq!(eps[1].id, "3");
    assert_eq!(eps[1].title, "");
}

#[test]
fn servers_get_names_and_watch_urls() {
    let html = r#"<ul><li><a id="watch-123" title="Server Vidcloud">x</a></li><li><a id="watch-456" title="Server Upcloud">y</a></li></ul>"#;
    let servers = FlixHQ.info_server(html, "tv/example-99").unwrap();
    assert_eq!(servers.len(), 2);
    assert_eq!(servers[0].name, "Vidcloud");
    assert_eq!(servers[0].url, "https://flixhq.to/watch-tv/example-99.123");
    assert_eq!(servers[1].name, "Upcloud");
    assert_eq!(servers[1].url, "https://flixhq.to/watch-tv/example-99.456");
}

#[test]
fn detail_page_fields() {
    let html = r#"<div id="main-wrapper"><div class="movie_information"><div><div class="m_i-detail">
      <div class="m_i-d-poster"><div><img src="https://img.example/poster.jpg"></div></div>
      <div class="m_i-d-content"><h2>  Example Show  </h2>
        <div class="elements"><div>a</div><div>b</div><div>Released: 2019-05-01 , </div></div>
      </div></div></div></div></div>"#;
    let d = FlixHQ.single_page(html, "tv/example-99").unwrap();
    assert_eq!(d.title, "Example Show");
    assert_eq!(d.image, "https://img.example/poster.jpg");
    assert_eq!(d.year, "2019-05-01");
    assert_eq!(d.duration, "");
    assert_eq!(d.media_type, Some(MediaType::Tv));
    assert_eq!(d.id, "tv/example-99");
}

fn detail(id: &str, year: &str) -> FlixHQResult {
    FlixHQResult {
        id: id.to_string(),
        title: "Example".to_string(),
        year: year.to_string(),
        image: "img".to_string(),
        duration: "95m".to_string(),
        media_type: Some(MediaType::Tv),
    }
}

#[test]
fn hydrated_show_counts_season_ids() {
    let ids = vec!["s1".to_string(), "s2".to_string()];
    let show = FlixHQ.show_from(detail("tv/example-99", ""), &ids, vec![vec![], vec![]]);
    assert_eq!(show.seasons.total_seasons, 2);
    assert_eq!(show.id, "99");
    assert_eq!(show.episodes, 0);
}

#[test]
fn movie_keeps_year_before_dash() {
    let m = FlixHQ.movie_from(detail("movie/watch-film-5678", "2021-03-04"));
    assert_eq!(m.id, "5678");
    assert_eq!(m.year, "2021");
    assert_eq!(m.duration, "95m");
}

#[test]
fn catalog_urls() {
    assert_eq!(FlixHQ.search_url("the example show"), "https://flixhq.to/search/the-example-show");
    assert_eq!(FlixHQ.info_url("tv/example-99"), "https://flixhq.to/tv/example-99");
    assert_eq!(FlixHQ.seasons_url("tv/example-99"), "https://flixhq.to/ajax/v2/tv/seasons/99");
    assert_eq!(FlixHQ.episodes_url("777"), "https://flixhq.to/ajax/v2/season/episodes/777");
    assert_eq!(FlixHQ.servers_url("1234", "tv/example-99"), "https://flixhq.to/ajax/v2/episode/servers/1234");
    assert_eq!(FlixHQ.servers_url("5678", "movie/watch-film-5678"), "https://flixhq.to/ajax/movie/episodes/5678");
    assert_eq!(
        FlixHQ.sources_url("https://flixhq.to/watch-tv/example-99.123"),
        "https://flixhq.to/ajax/episode/sources/123"
    );
}

fn server(name: &str) -> FlixHQServer {
    FlixHQServer { name: name.to_string(), url: format!("https://flixhq.to/watch-x.{}", name) }
}

#[test]
fn unknown_provider_falls_back_to_vidcloud() {
    let servers = vec![server("Vidcloud"), server("Upcloud")];
    let chosen = FlixHQ.choose_server(&servers, "Hdcloud");
    assert_eq!(chosen.map(|(i, _)| i), Some(0));
    assert_eq!(chosen.map(|(_, p)| p.name()), Some("Vidcloud".to_string()));
}

#[test]
fn requested_provider_is_chosen() {
    let servers = vec![server("Vidcloud"), server("Upcloud")];
    let chosen = FlixHQ.choose_server(&servers, "Upcloud");
    assert_eq!(chosen.map(|(i, _)| i), Some(1));
}

#[test]
fn no_known_server_is_none() {
    let servers = vec![server("Streamtape")];
    assert!(FlixHQ.choose_server(&servers, "Upcloud").is_none());
}

#[test]
fn server_envelope_link() {
    let info = FlixHQ.server_info(r#"{"type":"iframe","link":"https://embed.example/e-1/abc?z="}"#).unwrap();
    assert_eq!(info.link, "https://embed.example/e-1/abc?z=");
    assert_eq!(FlixHQ.server_info(r#"{"link": 5}"#).unwrap_err(), FlixHQError::Decode);
    assert_eq!(FlixHQ.server_info("not json").unwrap_err(), FlixHQError::Decode);
}

#[test]
fn episode_struct_holds_fields() {
    let e = FlixHQEpisode { id: "1".to_string(), title: "t".to_string() };
    assert_eq!(e.id, "1");
}

const HOME_PAGE: &str = r#"<html><body><div id="main-wrapper">
<div id="trending-movies"><div class="film_list-wrap">
  <div class="flw-item">
    <div class="film-poster"><img data-src="https://img.example/t1.jpg"><a href="/movie/watch-top-1"></a></div>
    <div class="film-detail"><h3 class="film-name"><a title="Top Film"></a></h3>
      <div class="fd-infor"><span>2024</span><span class="dot"></span><span>120m</span></div></div>
  </div>
</div></div>
<div id="trending-tv"><div class="film_list-wrap">
  <div class="flw-item">
    <div class="film-poster"><img data-src="https://img.example/t2.jpg"><a href="/tv/watch-top-2"></a></div>
    <div class="film-detail"><h3 class="film-name"><a title="Top Show"></a></h3>
      <div class="fd-infor"><span>SS 4</span><span class="dot"></span><span>EPS N/A</span></div></div>
  </div>
</div></div>
</div></body></html>"#;

#[test]
fn trending_movies_and_shows() {
    let movies = FlixHQ.parse_trending_movies(HOME_PAGE).unwrap();
    assert_eq!(movies.len(), 1);
    match &movies[0] {
        FlixHQInfo::Movie(m) => {
            assert_eq!(m.id, "movie/watch-top-1");
            assert_eq!(m.title, "Top Film");
            assert_eq!(m.year, "2024");
            assert_eq!(m.duration, "120m");
        }
        other => panic!("expected a movie, got {:?}", other),
    }
    let shows = FlixHQ.parse_trending_shows(HOME_PAGE).unwrap();
    assert_eq!(shows.len(), 1);
    match &shows[0] {
        FlixHQInfo::Tv(s) => {
            assert_eq!(s.id, "tv/watch-top-2");
            assert_eq!(s.seasons.total_seasons, 4);
            assert_eq!(s.episodes, 0);
        }
        other => panic!("expected a show, got {:?}", other),
    }
}

#[test]
fn recent_sections_absent_give_nothing() {
    assert!(FlixHQ.parse_recent_movies(HOME_PAGE).unwrap().is_empty());
    assert!(FlixHQ.parse_recent_shows(HOME_PAGE).unwrap().is_empty());
}

#[test]
fn count_labels() {
    assert_eq!(lobster::html::label_count("SS 12", "SS "), 12);
    assert_eq!(lobster::html::label_count("EPS N/A", "EPS "), 0);
    assert_eq!(lobster::html::media_kind("tv/x-1"), Some(MediaType::Tv));
    assert_eq!(lobster::html::media_kind("anime/x-1"), None);
}

#[test]
fn malformed_document_is_a_parse_error() {
    assert_eq!(FlixHQ.season_info("<!DOCTYPEhtml><div></div>").unwrap_err(), FlixHQError::Parse);
    assert_eq!(FlixHQ.parse_search("<!DOCTYPEhtml>").unwrap_err(), FlixHQError::Parse);
}

#[test]
fn server_listing_keeps_known_providers() {
    let html = r#"<ul><li><a id="watch-1" title="Server Vidcloud">x</a></li><li><a id="watch-2" title="Server Streamtape">y</a></li><li><a id="watch-3" title="Server Upcloud">z</a></li><li><a id="watch-4" title="Server upcloud">w</a></li></ul>"#;
    let listing = FlixHQ.servers(html, "movie/watch-film-5678").unwrap();
    let names: Vec<&str> = listing.servers.iter().map(|s| s.name.as_str()).collect();
    assert_eq!(names, vec!["Vidcloud", "Upcloud"]);
    assert_eq!(listing.servers[1].url, "https://flixhq.to/watch-movie/watch-film-5678.3");
    assert!(FlixHQ.servers("<!DOCTYPEhtml>", "x").is_err());
}
