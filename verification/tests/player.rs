use deezer_tui::models::{AudioQuality, TrackData};
use deezer_tui::player::{position_of_total, PlaybackStatus, PlayerState, RepeatMode, SavedFile, SavedState};

fn track(id: &str, duration: u64) -> TrackData {
    TrackData {
        track_id: id.to_string(),
        title: "Song".to_string(),
        artist: "Artist".to_string(),
        album: String::new(),
        duration,
        album_picture: String::new(),
        artist_id: None,
        album_id: None,
        track_token: None,
        md5_origin: String::new(),
        stream_url: None,
        fallback_id: None,
    }
}

#[test]
fn saved_state_keeps_position_and_reads_older_files() {
    let state = PlayerState {
        status: PlaybackStatus::Paused,
        position_secs: 73,
        ..PlayerState::default()
    };
    let saved = SavedState::from_player_state(&state);
    assert_eq!(saved.position_secs, 73);
    assert!(saved.was_playing);

    let old = SavedState::from_file(SavedFile {
        current_track: None,
        quality: AudioQuality::Mp3_128,
        volume: 800,
        shuffle: false,
        repeat: RepeatMode::Off,
        queue: Vec::new(),
        queue_index: 0,
        position_secs: None,
        was_playing: None,
    });
    assert_eq!(old.position_secs, 0);
    assert!(!old.was_playing);
}

#[test]
fn stopped_playback_is_not_resumed() {
    let saved = SavedState::from_player_state(&PlayerState::default());
    assert!(!saved.was_playing);
    assert_eq!(saved.position_secs, 0);
}

#[test]
fn repeat_modes_go_round() {
    let mut mode = RepeatMode::Off;
    let mut seen = Vec::new();
    for _ in 0..3 {
        mode = mode.next();
        seen.push(mode);
    }
    assert_eq!(seen, vec![RepeatMode::Queue, RepeatMode::Track, RepeatMode::Off]);
}

#[test]
fn a_loaded_track_starts_where_it_was_left() {
    let mut state = PlayerState::default();
    state.load(track("1", 200), AudioQuality::Flac, 42, true);
    assert_eq!(state.status, PlaybackStatus::Paused);
    assert_eq!(state.position_secs, 42);
    assert_eq!(state.duration_secs, 200);
    assert_eq!(state.quality, AudioQuality::Flac);
    assert_eq!(state.format_position(), position_of_total(42, 200));
}

#[test]
fn positions_are_shown_with_the_length() {
    assert_eq!(position_of_total(65, 200), "1:05 / 3:20");
    assert_eq!(position_of_total(0, 3_600), "0:00 / 60:00");
}
