use lobster::flixhq::FlixHQError;
use lobster::providers::vidcloud::{decode_payload, decode_source_list, decode_tracks, SourcePayload, VidCloud};
use lobster::providers::VideoExtractor;
use lobster::stream::{media_title, selected_subtitles};

const PLAIN: &str = r#"{"sources":[{"file":"https://cdn.example/master.m3u8","type":"hls"}],"tracks":[{"file":"https://subs.example/en.vtt","label":"English","kind":"captions","default":true},{"file":"https://subs.example/es.vtt","label":"Spanish","kind":"captions"}]}"#;
const ENCRYPTED: &str = r#"{"sources":"U2FsdGVkX1+abc","tracks":[{"file":"https://subs.example/en.vtt","label":"English","kind":"captions"}]}"#;

#[test]
fn plain_sources_are_read_directly() {
    let mut v = VidCloud::new();
    assert_eq!(v.extract(PLAIN).unwrap(), None);
    assert_eq!(v.sources.len(), 1);
    assert_eq!(v.sources[0].file, "https://cdn.example/master.m3u8");
    assert_eq!(v.sources[0].kind, "hls");
    assert_eq!(v.tracks.len(), 2);
    assert_eq!(v.tracks[0].default, Some(true));
    assert_eq!(v.tracks[1].default, None);
}

#[test]
fn encrypted_sources_wait_for_decryption() {
    let mut v = VidCloud::new();
    assert_eq!(v.extract(ENCRYPTED).unwrap(), Some("U2FsdGVkX1+abc".to_string()));
    assert!(v.sources.is_empty());
    assert_eq!(v.tracks.len(), 1);
    v.set_decrypted(r#"[{"file":"https://cdn.example/master.m3u8","type":"hls"}]"#).unwrap();
    assert_eq!(v.sources.len(), 1);
    assert_eq!(v.sources[0].file, "https://cdn.example/master.m3u8");
    assert_eq!(v.sources[0].kind, "hls");
}

#[test]
fn both_shapes_give_the_same_files() {
    let plain = match decode_payload(PLAIN).unwrap() {
        SourcePayload::Plain(v) => v,
        SourcePayload::Encrypted(_) => panic!("array read as encrypted"),
    };
    let decrypted = decode_source_list(r#"[{"file":"https://cdn.example/master.m3u8","type":"hls"}]"#).unwrap();
    assert_eq!(plain.len(), decrypted.len());
    assert_eq!(plain[0].file, decrypted[0].file);
    assert_eq!(plain[0].kind, decrypted[0].kind);
}

#[test]
fn other_source_shapes_do_not_decode() {
    assert_eq!(decode_payload(r#"{"sources":5}"#).unwrap_err(), FlixHQError::Decode);
    assert_eq!(decode_payload(r#"{"tracks":[]}"#).unwrap_err(), FlixHQError::Decode);
    assert_eq!(decode_payload("[1,2]").unwrap_err(), FlixHQError::Decode);
    assert_eq!(decode_payload(r#"{"sources":[{"type":"hls"}]}"#).unwrap_err(), FlixHQError::Decode);
    assert_eq!(decode_source_list(r#""still encrypted""#).unwrap_err(), FlixHQError::Decode);
}

#[test]
fn tracks_absent_or_null_are_empty() {
    assert!(decode_tracks(r#"{"sources":[]}"#).unwrap().is_empty());
    assert!(decode_tracks(r#"{"sources":[],"tracks":null}"#).unwrap().is_empty());
    assert_eq!(decode_tracks(r#"{"tracks":"x"}"#).unwrap_err(), FlixHQError::Decode);
}

#[test]
fn failed_extract_keeps_previous_state() {
    let mut v = VidCloud::new();
    v.extract(PLAIN).unwrap();
    assert!(v.extract(r#"{"sources":true}"#).is_err());
    assert_eq!(v.sources.len(), 1);
    assert_eq!(v.tracks.len(), 2);
}

#[test]
fn subtitles_of_language() {
    let mut v = VidCloud::new();
    v.extract(PLAIN).unwrap();
    assert_eq!(
        selected_subtitles(&v.tracks, lobster::cli::Languages::Spanish),
        vec!["https://subs.example/es.vtt".to_string()]
    );
    assert!(selected_subtitles(&v.tracks, lobster::cli::Languages::German).is_empty());
}

#[test]
fn resolver_request_url() {
    assert_eq!(
        VidCloud::request_url("https://embed.example/e-1/abc"),
        "https://dec.eatmynerds.live?url=https://embed.example/e-1/abc"
    );
}

#[test]
fn player_titles() {
    assert_eq!(media_title("Example", Some("Eps 3: Finale")), "Example - Eps 3: Finale");
    assert_eq!(media_title("Film", None), "Film");
}

#[test]
fn primary_file_or_no_sources() {
    let mut v = VidCloud::new();
    assert_eq!(v.primary_file().unwrap_err(), FlixHQError::NoSourcesAvailable);
    v.extract(PLAIN).unwrap();
    assert_eq!(v.primary_file().unwrap(), "https://cdn.example/master.m3u8");
}

#[test]
fn extract_rejects_other_shapes_without_change() {
    let mut v = VidCloud::new();
    v.extract(ENCRYPTED).unwrap();
    assert_eq!(v.extract(r#"{"sources":{"file":"x"}}"#).unwrap_err(), FlixHQError::Decode);
    assert!(v.sources.is_empty());
    assert_eq!(v.tracks.len(), 1);
    assert_eq!(v.tracks[0].label, "English");
}
