use deezer_tui::api::json::{Json, JsonField};
use deezer_tui::cli::{
    dislike_command, like_command, parse_args, pause_command, play_command, repeat_word,
    status_line, status_word, step_command, volume_percent, CliAction,
};
use deezer_tui::models::TrackData;
use deezer_tui::player::{PlaybackStatus, RepeatMode};
use deezer_tui::protocol::{pid_path, socket_path, Command, DaemonSnapshot};
use deezer_tui::release::{asset_name, update_offer, version_is_newer};

fn args(words: &[&str]) -> Vec<String> {
    let mut all = vec!["deezer-tui".to_string()];
    all.extend(words.iter().map(|w| w.to_string()));
    all
}

fn track() -> TrackData {
    TrackData {
        track_id: "1".to_string(),
        title: "So\u{7}ng".to_string(),
        artist: "Artist".to_string(),
        album: String::new(),
        duration: 200,
        album_picture: String::new(),
        artist_id: None,
        album_id: None,
        track_token: None,
        md5_origin: String::new(),
        stream_url: None,
        fallback_id: None,
    }
}

#[test]
fn help_comes_first() {
    assert!(matches!(parse_args(&args(&["-q", "--help"])), CliAction::Help));
    assert!(matches!(parse_args(&args(&["-v", "-n"])), CliAction::Version));
}

#[test]
fn flags_become_commands() {
    for (words, wanted) in [
        (vec!["--stop"], "Send(Stop)"),
        (vec!["-n"], "Send(NextTrack)"),
        (vec!["--prev"], "Send(PrevTrack)"),
        (vec!["-p"], "Send(TogglePause)"),
        (vec!["--toggle-shuffle"], "Send(ToggleShuffle)"),
        (vec!["--repeat"], "Send(CycleRepeat)"),
        (vec!["--seek", "30"], "Send(SeekAbsolute { secs: 30 })"),
        (vec!["--seek", "x"], "SeekInvalid"),
        (vec!["--seek"], "SeekInvalid"),
        (vec!["--seek-forward"], "Send(SeekForward { secs: 5 })"),
        (vec!["--seek-forward", "12"], "Send(SeekForward { secs: 12 })"),
        (vec!["--seek-backward", "y"], "Send(SeekBackward { secs: 5 })"),
        (vec!["--play"], "Play"),
        (vec!["--pause"], "Pause"),
        (vec!["--like"], "Like"),
        (vec!["--dislike"], "Dislike"),
        (vec!["-s", "-j"], "Status { json: true }"),
        (vec!["--current"], "Status { json: false }"),
        (vec!["--volume", "40"], "Volume(\"40\")"),
        (vec!["--volume"], "VolumeMissing"),
        (vec!["--volume-up"], "VolumeStep { up: true, step: None }"),
        (vec!["--volume-down", "3"], "VolumeStep { up: false, step: Some(\"3\") }"),
        (vec!["--completions", "zsh"], "Completions(\"zsh\")"),
        (vec!["--completions"], "CompletionsMissing"),
        (vec!["--quit"], "Quit"),
        (vec![], "Client { updated: false }"),
        (vec!["--updated"], "Client { updated: true }"),
    ] {
        assert_eq!(format!("{:?}", parse_args(&args(&words))), wanted);
    }
}

#[test]
fn only_paused_playback_goes_on() {
    assert!(matches!(play_command(PlaybackStatus::Paused), Some(Command::TogglePause)));
    assert!(play_command(PlaybackStatus::Loading).is_none());
    assert!(matches!(pause_command(PlaybackStatus::Playing), Some(Command::TogglePause)));
    assert!(pause_command(PlaybackStatus::Stopped).is_none());
}

#[test]
fn liking_needs_a_track() {
    assert!(like_command(None).is_none());
    assert!(matches!(like_command(Some(track())), Some(Command::AddFavorite { track_id }) if track_id == "1"));
    assert!(dislike_command(None).is_none());
    assert!(matches!(dislike_command(Some(track())), Some(Command::DislikeTrack { track_id }) if track_id == "1"));
}

#[test]
fn volume_steps_stay_in_range() {
    assert!(matches!(step_command(980, 50), Command::SetVolume { volume: 1000 }));
    assert!(matches!(step_command(20, -50), Command::SetVolume { volume: 0 }));
    assert!(matches!(step_command(500, -50), Command::SetVolume { volume: 450 }));
    assert_eq!(volume_percent(805), 81);
    assert_eq!(volume_percent(1000), 100);
}

#[test]
fn the_status_is_one_line() {
    let snap = |status| DaemonSnapshot {
        status,
        current_track: Some(track()),
        position_secs: 65,
        duration_secs: 200,
        ..DaemonSnapshot::default()
    };
    assert_eq!(
        status_line(&snap(PlaybackStatus::Playing)),
        "▶ Song — Artist [01:05/03:20]"
    );
    assert_eq!(
        status_line(&snap(PlaybackStatus::Paused)),
        "⏸ Song — Artist [01:05/03:20]"
    );
    assert_eq!(status_line(&snap(PlaybackStatus::Loading)), "⏳ Song — Artist");
    assert_eq!(status_line(&snap(PlaybackStatus::Stopped)), "⏹ Stopped");
    assert_eq!(status_line(&DaemonSnapshot::default()), "⏹ Stopped");
    assert_eq!(status_word(PlaybackStatus::Loading), "loading");
    assert_eq!(repeat_word(RepeatMode::Queue), "queue");
}

#[test]
fn newer_versions_are_told() {
    assert!(version_is_newer("1.2.3", "1.2.2"));
    assert!(version_is_newer("1.10.0", "1.9.9"));
    assert!(version_is_newer("2", "1.9.9"));
    assert!(!version_is_newer("1.2", "1.2.0"));
    assert!(!version_is_newer("1.2.0", "1.2.0"));
    assert!(!version_is_newer("abc", "0.0.1"));
    assert!(version_is_newer("1.x.5.9", "1.5.8"));
}

#[test]
fn releases_offer_the_right_file() {
    let field = |key: &str, value| JsonField {
        key: key.to_string(),
        value,
    };
    let asset = |name: &str, url: &str| {
        Json::Object(vec![
            field("name", Json::Str(name.to_string())),
            field("browser_download_url", Json::Str(url.to_string())),
        ])
    };
    let release = |tag: &str| {
        Json::Object(vec![
            field("tag_name", Json::Str(tag.to_string())),
            field(
                "assets",
                Json::Array(vec![
                    asset("deezer-tui-linux-aarch64", "arm"),
                    asset("deezer-tui-linux-x86_64", "intel"),
                ]),
            ),
        ])
    };
    assert_eq!(
        update_offer(&release("v9.0.0"), "1.0.0", "linux", "x86_64"),
        Some(("9.0.0".to_string(), "intel".to_string()))
    );
    assert_eq!(update_offer(&release("v1.0.0"), "1.0.0", "linux", "x86_64"), None);
    assert_eq!(update_offer(&release("v9.0.0"), "1.0.0", "macos", "x86_64"), None);
    assert_eq!(update_offer(&release("v9.0.0"), "1.0.0", "windows", "x86_64"), None);
    assert_eq!(update_offer(&Json::Null, "1.0.0", "linux", "x86_64"), None);
    assert_eq!(asset_name("macos", "anything"), Some("deezer-tui-macos-universal"));
}

#[test]
fn the_players_files_are_in_the_configuration_directory() {
    assert_eq!(socket_path(Some("/home/me/.config")), "/home/me/.config/daemon.sock");
    assert_eq!(socket_path(None), "/tmp/daemon.sock");
    assert_eq!(pid_path(Some("/x/")), "/x/daemon.pid");
}
