use deezer_tui::client::session::{cell_size, CaptureState};
use deezer_tui::models::{AudioQuality, TrackData};
use deezer_tui::mpris::{
    cover_url, loop_status, loop_steps, pause, play, seek, set_position, set_shuffle,
    to_mpris_status, track_path, DesktopStatus, LoopMode, MprisProperty, MprisSnapshot,
};
use deezer_tui::player::{PlaybackStatus, PlayerState, RepeatMode};
use deezer_tui::protocol::Command;
use deezer_tui::spectrum::{band_source, BandSource};

fn track(id: &str) -> TrackData {
    TrackData {
        track_id: id.to_string(),
        title: "Song".to_string(),
        artist: "Artist".to_string(),
        album: String::new(),
        duration: 10,
        album_picture: "hash".to_string(),
        artist_id: None,
        album_id: None,
        track_token: None,
        md5_origin: String::new(),
        stream_url: None,
        fallback_id: None,
    }
}

fn playing(id: &str) -> PlayerState {
    let mut state = PlayerState::default();
    state.load(track(id), AudioQuality::Flac, 0, false);
    state
}

#[test]
fn tracks_have_a_path_and_uploads_have_none() {
    assert_eq!(
        track_path("3135556").as_deref(),
        Some("/org/deezer_tui/track/3135556")
    );
    assert_eq!(track_path("-12"), None);
    assert_eq!(track_path(""), None);
    assert_eq!(track_path("a//b"), None);
    assert_eq!(track_path("a/b_C9").as_deref(), Some("/org/deezer_tui/track/a/b_C9"));
    assert_eq!(track_path("é"), None);
    assert_eq!(track_path("9/"), None);
}

#[test]
fn the_desktop_is_told_what_changed() {
    let silent = PlayerState::default();
    let before = MprisSnapshot::capture(&silent);
    let state = playing("1");
    let now = MprisSnapshot::capture(&state);
    let told = now.changed_properties(&before, &state, true);
    assert_eq!(told.len(), 7);
    match &told[0] {
        MprisProperty::Metadata(m) => {
            assert_eq!(m.title.as_deref(), Some("Song"));
            assert_eq!(m.album, None);
            assert_eq!(
                m.art_url.as_deref(),
                Some("https://e-cdns-images.dzcdn.net/images/cover/hash/264x264-000000-80-0-0.jpg")
            );
            assert_eq!(m.length, Some(10));
        }
        other => panic!("{other:?}"),
    }
    assert!(matches!(told[1], MprisProperty::PlaybackStatus(DesktopStatus::Playing)));
    assert!(matches!(told[2], MprisProperty::CanGoNext(true)));
    assert!(matches!(told[6], MprisProperty::CanSeek(true)));
    assert!(now.changed_properties(&now, &state, true).is_empty());
}

#[test]
fn volume_changes_are_told() {
    let mut state = playing("1");
    let before = MprisSnapshot::capture(&state);
    state.volume = 250;
    let told = MprisSnapshot::capture(&state).changed_properties(&before, &state, true);
    assert_eq!(told.len(), 1);
    assert!(matches!(told[0], MprisProperty::Volume(250)));
}

#[test]
fn covers_need_a_picture() {
    assert_eq!(cover_url("hash", false), None);
    assert!(cover_url("hash", true).unwrap().contains("/hash/"));
}

#[test]
fn loading_counts_as_playing() {
    assert_eq!(to_mpris_status(PlaybackStatus::Loading), DesktopStatus::Playing);
    assert_eq!(to_mpris_status(PlaybackStatus::Stopped), DesktopStatus::Stopped);
}

#[test]
fn media_keys_do_not_toggle_by_accident() {
    assert!(matches!(play(PlaybackStatus::Paused), Some(Command::TogglePause)));
    assert!(play(PlaybackStatus::Loading).is_none());
    assert!(play(PlaybackStatus::Playing).is_none());
    assert!(matches!(pause(PlaybackStatus::Playing), Some(Command::TogglePause)));
    assert!(pause(PlaybackStatus::Paused).is_none());
    assert!(set_shuffle(true, true).is_none());
    assert!(matches!(set_shuffle(true, false), Some(Command::ToggleShuffle)));
}

#[test]
fn seeking_goes_both_ways() {
    assert!(matches!(seek(5), Command::SeekForward { secs: 5 }));
    assert!(matches!(seek(-5), Command::SeekBackward { secs: 5 }));
    assert!(matches!(
        seek(i64::MIN),
        Command::SeekBackward { secs: 9_223_372_036_854_775_808 }
    ));
    assert!(matches!(set_position(-3), Command::SeekAbsolute { secs: 0 }));
    assert!(matches!(set_position(7), Command::SeekAbsolute { secs: 7 }));
}

#[test]
fn loop_modes_are_reached_by_cycling() {
    for current in [RepeatMode::Off, RepeatMode::Queue, RepeatMode::Track] {
        for wanted in [LoopMode::Off, LoopMode::Track, LoopMode::Playlist] {
            let mut mode = current;
            for _ in 0..loop_steps(current, wanted) {
                mode = mode.next();
            }
            assert_eq!(loop_status(mode), wanted);
        }
    }
    assert_eq!(loop_steps(RepeatMode::Track, LoopMode::Playlist), 2);
}

#[test]
fn fft_resolution_holes_are_interpolated_without_changing_real_silence() {
    let mut magnitudes = vec![0.2_f32, 0.0, 0.6, 0.0];
    let counts: Vec<u16> = vec![1, 0, 1, 1];
    for band in 0..magnitudes.len() {
        match band_source(&counts, band) {
            BandSource::Sampled => {}
            BandSource::Between { left, right } => {
                let position = (band - left) as f32 / (right - left) as f32;
                magnitudes[band] =
                    magnitudes[left] + (magnitudes[right] - magnitudes[left]) * position;
            }
            BandSource::Copy(from) => magnitudes[band] = magnitudes[from],
            BandSource::Silent => magnitudes[band] = 0.0,
        }
    }
    assert!((magnitudes[1] - 0.4).abs() < f32::EPSILON);
    assert_eq!(magnitudes[3], 0.0, "a sampled silent band stays silent");
}

#[test]
fn holes_at_the_edges_copy_their_neighbour() {
    let counts: Vec<u16> = vec![0, 0, 3, 0];
    assert_eq!(band_source(&counts, 0), BandSource::Copy(2));
    assert_eq!(band_source(&counts, 3), BandSource::Copy(2));
    assert_eq!(band_source(&vec![0, 0], 1), BandSource::Silent);
}

#[test]
fn cells_are_measured_where_the_terminal_tells_its_size() {
    assert_eq!(cell_size(80, 24, 880, 600), Some((11, 25)));
    assert_eq!(cell_size(0, 24, 880, 600), None);
    assert_eq!(cell_size(80, 24, 880, 0), None);
}

#[test]
fn a_capture_that_broke_off_is_not_tried_again_on_the_page() {
    assert!(CaptureState::Off.starts(true));
    assert!(!CaptureState::Off.starts(false));
    assert_eq!(CaptureState::started(false), CaptureState::Failed);
    let state = CaptureState::started(true);
    assert_eq!(state.after(true, false), CaptureState::On);
    let lost = state.after(true, true);
    assert_eq!(lost, CaptureState::Failed);
    assert!(!lost.starts(true));
    assert_eq!(lost.after(false, false), CaptureState::Off);
}
