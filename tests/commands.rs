use lobster::cli::{Languages, Player, PlayerError, Provider};
use lobster::config::{Args, Config};
use lobster::players::{Celluloid, CelluloidArgs, Iina, IinaArgs, Mpv, MpvArgs, Vlc, VlcArgs};
use lobster::tools::{Ffmpeg, FfmpegArgs, Fzf, FzfArgs, Rofi, RofiArgs};

fn strs(v: &[&str]) -> Vec<String> {
    v.iter().map(|s| s.to_string()).collect()
}

#[test]
fn mpv_command_line() {
    let mpv = Mpv::new();
    assert_eq!(mpv.executable, "mpv");
    let args = MpvArgs {
        url: "https://cdn.example/a.m3u8".to_string(),
        sub_files: Some(strs(&["https://s.example/en.vtt", "C:\\subs\\es.vtt"])),
        force_media_title: Some("Example - Eps 1".to_string()),
        save_position_on_quit: true,
        watch_later_dir: Some("/tmp/watchlater".to_string()),
        ..Default::default()
    };
    assert_eq!(
        mpv.command_args(&args),
        strs(&[
            "https://cdn.example/a.m3u8",
            "--sub-files=https\\://s.example/en.vtt:C\\:\\subs\\es.vtt",
            "--save-position-on-quit",
            "--watch-later-dir=/tmp/watchlater",
            "--force-media-title=Example - Eps 1",
        ])
    );
}

#[test]
fn vlc_command_line() {
    let vlc = Vlc::new();
    let args = VlcArgs {
        url: "u".to_string(),
        input_slave: Some(strs(&["a.vtt", "b.vtt"])),
        meta_title: Some("T".to_string()),
    };
    assert_eq!(vlc.command_args(&args), strs(&["u", "--input-slave=\"a.vtt#b.vtt\"", "--meta-title=T"]));
}

#[test]
fn celluloid_and_iina_command_lines() {
    let c = Celluloid::new();
    let a = CelluloidArgs { url: "u".to_string(), mpv_sub_files: None, mpv_force_media_title: Some("T".to_string()) };
    assert_eq!(c.command_args(&a), strs(&["u", "--mpv-force-media-title=T"]));
    let i = Iina::new();
    let b = IinaArgs { url: "u".to_string(), no_stdin: true, keep_running: true, mpv_sub_files: Some(strs(&["x:y"])), mpv_force_media_title: None };
    assert_eq!(i.command_args(&b), strs(&["u", "--no-stdin", "--keep-running", "--mpv-sub-files=x\\:y"]));
}

#[test]
fn fzf_command_line() {
    let fzf = Fzf::new();
    let args = FzfArgs {
        prompt: Some("Choose: ".to_string()),
        reverse: true,
        with_nth: Some("1".to_string()),
        delimiter: Some("\t".to_string()),
        ..Default::default()
    };
    assert_eq!(fzf.command_args(&args), strs(&["--prompt", "Choose: ", "--reverse", "--with-nth=1", "--delimiter=\t"]));
}

#[test]
fn rofi_command_line() {
    let rofi = Rofi::new();
    let args = RofiArgs {
        sort: true,
        dmenu: true,
        case_sensitive: true,
        width: Some(1500),
        entry_prompt: Some(String::new()),
        mesg: Some("Search".to_string()),
        display_columns: Some(1),
        ..Default::default()
    };
    assert_eq!(
        rofi.command_args(&args),
        strs(&["-sort", "-dmenu", "-i", "-width", "1500", "-p", "", "-display-columns", "1", "-mesg", "Search"])
    );
}

#[test]
fn ffmpeg_command_line_with_several_subtitles() {
    let ffmpeg = Ffmpeg::new();
    let subs = strs(&["en.vtt", "es.vtt"]);
    let args = FfmpegArgs {
        input_file: "in.m3u8".to_string(),
        stats: true,
        log_level: Some("error".to_string()),
        output_file: "out.mkv".to_string(),
        subtitle_files: Some(&subs),
        subtitle_language: Some("Spanish".to_string()),
        codec: Some("copy".to_string()),
    };
    assert_eq!(
        ffmpeg.command_args(&args),
        strs(&[
            "-i", "in.m3u8", "-stats", "-loglevel", "error", "-i", "en.vtt", "-i", "es.vtt", "-map", "0:v", "-map",
            "0:a", "-map", "1", "-map", "2", "-c:v", "copy", "-c:a", "copy", "-c:s", "srt",
            "-metadata:s:s:0 language=Spanish_1", "-metadata:s:s:1 language=Spanish_2", "-c", "copy", "out.mkv",
        ])
    );
}

#[test]
fn ffmpeg_command_line_with_one_subtitle() {
    let ffmpeg = Ffmpeg::new();
    let subs = strs(&["en.vtt"]);
    let args = FfmpegArgs { input_file: "in".to_string(), output_file: "out".to_string(), subtitle_files: Some(&subs), ..Default::default() };
    assert_eq!(
        ffmpeg.command_args(&args),
        strs(&["-i", "in", "-i", "en.vtt", "-map", "0:v", "-map", "0:a", "-map", "1", "-metadata:s:s:0", "language=English", "out"])
    );
}

#[test]
fn player_names() {
    assert_eq!(Player::from_str("vlc").unwrap(), Player::Vlc);
    assert_eq!(Player::from_str("syncplay").unwrap(), Player::SyncPlay);
    match Player::from_str("winamp") {
        Err(PlayerError::InvalidPlayer { player_name }) => assert_eq!(player_name, "winamp"),
        other => panic!("unexpected {:?}", other),
    }
    assert_eq!(Player::default(), Player::Mpv);
    assert_eq!(Provider::from_name("Upcloud"), Some(Provider::Upcloud));
    assert_eq!(Provider::from_name("upcloud"), None);
    assert_eq!(Languages::default().name(), "English");
}

fn config() -> Config {
    Config {
        use_external_menu: true,
        download: "/downloads".to_string(),
        provider: Provider::Upcloud,
        subs_language: Languages::German,
        player: "mpv".to_string(),
        history: false,
        histfile: "h".to_string(),
        image_preview: false,
        debug: true,
    }
}

#[test]
fn settings_fill_in_arguments() {
    let mut args = Args { download: Some(None), query: Some("q".to_string()), ..Default::default() };
    Config::program_configuration(&mut args, &config(), true);
    assert!(args.rofi);
    assert!(!args.image_preview);
    assert!(args.debug);
    assert_eq!(args.download, Some(Some("/downloads".to_string())));
    assert_eq!(args.provider, Some(Provider::Upcloud));
    assert_eq!(args.language, Some(Languages::German));
    assert_eq!(args.query, Some("q".to_string()));
}

#[test]
fn given_arguments_win_and_rofi_needs_linux() {
    let mut args = Args {
        rofi: true,
        download: Some(Some("/here".to_string())),
        provider: Some(Provider::Vidcloud),
        language: Some(Languages::Arabic),
        ..Default::default()
    };
    Config::program_configuration(&mut args, &config(), false);
    assert!(!args.rofi);
    assert_eq!(args.download, Some(Some("/here".to_string())));
    assert_eq!(args.provider, Some(Provider::Vidcloud));
    assert_eq!(args.language, Some(Languages::Arabic));
}
