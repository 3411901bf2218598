use lobster::cli::Quality;
use lobster::quality::{choose_stream, first_https_url, url_quality};

const PLAYLIST: &str = "#EXTM3U\n\
#EXT-X-STREAM-INF:BANDWIDTH=800000,RESOLUTION=640x360\n\
https://cdn.example/360/index.m3u8\n\
#EXT-X-STREAM-INF:BANDWIDTH=2800000,RESOLUTION=1280x720\n\
https://cdn.example/720/index.m3u8\n\
#EXT-X-STREAM-INF:BANDWIDTH=5000000,RESOLUTION=1920x1080\n\
https://cdn.example/1080/index.m3u8\n";

#[test]
fn requested_height_is_chosen() {
    assert_eq!(
        url_quality(PLAYLIST, Some(Quality::Q720)),
        Some("https://cdn.example/720/index.m3u8".to_string())
    );
}

#[test]
fn no_request_takes_tallest() {
    assert_eq!(url_quality(PLAYLIST, None), Some("https://cdn.example/1080/index.m3u8".to_string()));
}

#[test]
fn unlisted_height_falls_back_to_first_https_line() {
    let playlist = "#EXTM3U\r\n#EXT-X-STREAM-INF:RESOLUTION=1280x720\r\nhttps://cdn.example/720/index.m3u8\r\n#EXT-X-STREAM-INF:RESOLUTION=1920x1080\r\nhttps://cdn.example/1080/index.m3u8\r\n";
    assert_eq!(
        url_quality(playlist, Some(Quality::Q360)),
        Some("https://cdn.example/720/index.m3u8".to_string())
    );
}

#[test]
fn playlist_without_variants_has_no_tallest() {
    assert_eq!(url_quality("#EXTM3U\n", None), None);
    assert_eq!(url_quality("#EXTM3U\n", Some(Quality::Q1080)), Some(String::new()));
}

#[test]
fn tallest_keeps_first_among_equal_heights() {
    let urls = vec![Some("a".to_string()), Some("b".to_string()), Some("c".to_string())];
    let heights = vec![Some("720".to_string()), Some("1080".to_string()), Some("1080".to_string())];
    assert_eq!(choose_stream(&urls, &heights, None, ""), Some("b".to_string()));
}

#[test]
fn first_https_line_skips_others() {
    assert_eq!(first_https_url("#x\nhttp://a\nhttps://b/c\nhttps://d"), "https://b/c");
    assert_eq!(first_https_url("none here"), "");
}

#[test]
fn quality_from_text() {
    assert_eq!(Quality::from_str("480").unwrap(), Quality::Q360);
    assert_eq!(Quality::from_str("720").unwrap(), Quality::Q720);
    assert_eq!(Quality::from_str("841").unwrap(), Quality::Q1080);
    assert_eq!(Quality::from_str("4000").unwrap(), Quality::Q1080);
    assert!(Quality::from_str("hd").is_err());
    assert_eq!(Quality::Q720.to_u32(), 720);
    assert_eq!(Quality::Q1080.label(), "1080");
}
