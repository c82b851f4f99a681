use deezer_tui::daemon::results::AsyncResult;
use deezer_tui::daemon::{Chance, Config, Daemon, Effect, EngineCommand};
use deezer_tui::models::{AlbumDetail, AudioQuality, PlaylistDetail, TrackData};
use deezer_tui::notice::NoticeKind;
use deezer_tui::player::{PlaybackStatus, RepeatMode};
use deezer_tui::protocol::{
    ActiveTab, Command, ExploreCategory, FavoritesCategory, NavOverlay, OfflineCategory, RadioItem,
    Screen, SearchCategory,
};
use deezer_tui::storage::{FavoritesCache, OfflineIndex};

const CHANCE: Chance = Chance { pick: 3, seed: 11 };

fn track(id: &str) -> TrackData {
    TrackData {
        track_id: id.to_string(),
        title: format!("Song {id}"),
        artist: "Artist".to_string(),
        album: String::new(),
        duration: 200,
        album_picture: String::new(),
        artist_id: None,
        album_id: None,
        track_token: Some("token".to_string()),
        md5_origin: String::new(),
        stream_url: None,
        fallback_id: None,
    }
}

fn daemon() -> Daemon {
    let mut d = Daemon::new(
        Config {
            arl: Some("arl".to_string()),
            volume: 800,
            quality: AudioQuality::Mp3_320,
        },
        FavoritesCache::new(),
        OfflineIndex::new(),
        false,
    );
    d.handle_result(AsyncResult::MasterKeyReady { engine_error: None }, 0, CHANCE);
    let _ = d.take_effects();
    d
}

/// A player that plays the first of these tracks.
fn playing(ids: &[&str]) -> Daemon {
    let mut d = daemon();
    d.player.queue = ids.iter().map(|id| track(id)).collect();
    d.handle_command(Command::PlayFromQueue { index: 0 }, 0, CHANCE);
    arrive(&mut d, ids[0]);
    d
}

/// The audio of a track arrives.
fn arrive(d: &mut Daemon, id: &str) {
    let generation = d.run.generation;
    d.handle_result(
        AsyncResult::TrackReady {
            track: track(id),
            quality: AudioQuality::Mp3_320,
            generation,
            play_error: None,
        },
        0,
        CHANCE,
    );
    let _ = d.take_effects();
}

fn send(d: &mut Daemon, cmd: Command) -> Vec<Effect> {
    d.handle_command(cmd, 0, CHANCE);
    d.take_effects()
}

fn fetched(effects: &[Effect]) -> Option<String> {
    effects.iter().find_map(|e| match e {
        Effect::FetchTrack { track, .. } => Some(track.track_id.clone()),
        _ => None,
    })
}

#[test]
fn a_remembered_login_opens_the_main_screen() {
    assert_eq!(daemon().snapshot().screen, Screen::Main);
    let fresh = Daemon::new(
        Config {
            arl: None,
            volume: 800,
            quality: AudioQuality::Mp3_128,
        },
        FavoritesCache::new(),
        OfflineIndex::new(),
        false,
    );
    assert_eq!(fresh.snapshot().screen, Screen::Login);
    let offline = Daemon::new(
        Config {
            arl: None,
            volume: 800,
            quality: AudioQuality::Mp3_128,
        },
        FavoritesCache::new(),
        OfflineIndex::new(),
        true,
    );
    assert_eq!(offline.snapshot().active_tab, ActiveTab::Downloads);
}

#[test]
fn the_next_track_follows_the_queue() {
    let mut d = playing(&["1", "2", "3"]);
    assert_eq!(d.player.status, PlaybackStatus::Playing);
    assert_eq!(fetched(&send(&mut d, Command::NextTrack)), Some("2".to_string()));
    arrive(&mut d, "2");
    assert_eq!(fetched(&send(&mut d, Command::PrevTrack)), Some("1".to_string()));
    assert_eq!(d.player.queue_index, 0);
}

#[test]
fn previous_undoes_next_while_shuffling() {
    let mut d = playing(&["1", "2", "3", "4", "5"]);
    let _ = send(&mut d, Command::ToggleShuffle);
    let before = d.player.queue_index;
    let _ = send(&mut d, Command::NextTrack);
    assert_ne!(d.player.queue_index, before);
    let _ = send(&mut d, Command::PrevTrack);
    assert_eq!(d.player.queue_index, before);
}

#[test]
fn late_audio_of_an_older_request_is_ignored() {
    let mut d = playing(&["1", "2"]);
    let old = d.run.generation;
    let _ = send(&mut d, Command::NextTrack);
    d.handle_result(
        AsyncResult::TrackReady {
            track: track("1"),
            quality: AudioQuality::Flac,
            generation: old,
            play_error: None,
        },
        0,
        CHANCE,
    );
    assert_eq!(d.player.status, PlaybackStatus::Loading);
    assert_eq!(d.player.queue_index, 1);
}

#[test]
fn failing_tracks_are_not_skipped_for_ever() {
    let ids: Vec<String> = (0..40).map(|i| i.to_string()).collect();
    let names: Vec<&str> = ids.iter().map(|s| s.as_str()).collect();
    let mut d = playing(&names);
    d.player.repeat = RepeatMode::Queue;
    let mut tries = 0;
    let _ = send(&mut d, Command::NextTrack);
    for _ in 0..200 {
        let generation = d.run.generation;
        d.handle_result(
            AsyncResult::TrackFetchError {
                err: "gone".to_string(),
                generation,
            },
            0,
            CHANCE,
        );
        if fetched(&d.take_effects()).is_none() {
            break;
        }
        tries += 1;
    }
    assert!(tries < 40, "{tries}");
    assert_eq!(d.player.status, PlaybackStatus::Stopped);
}

#[test]
fn pausing_and_resuming_keep_the_place() {
    let mut d = playing(&["1"]);
    d.handle_command(Command::TogglePause, 30_000, CHANCE);
    assert_eq!(d.player.status, PlaybackStatus::Paused);
    let place = d.player.position_secs;
    assert!(d
        .take_effects()
        .iter()
        .any(|e| matches!(e, Effect::Engine(EngineCommand::Pause))));
    d.handle_command(Command::TogglePause, 90_000, CHANCE);
    assert_eq!(d.player.status, PlaybackStatus::Playing);
    assert_eq!(d.player.position_secs, place);
}

#[test]
fn stopping_clears_the_track() {
    let mut d = playing(&["1"]);
    let effects = send(&mut d, Command::Stop);
    assert!(effects
        .iter()
        .any(|e| matches!(e, Effect::Engine(EngineCommand::Stop))));
    assert_eq!(d.player.status, PlaybackStatus::Stopped);
    assert!(d.player.current_track.is_none());
    assert_eq!(d.player.position_secs, 0);
}

#[test]
fn queued_tracks_come_next_or_last() {
    let mut d = playing(&["1", "2"]);
    let _ = send(&mut d, Command::PlayNext { track: track("8") });
    let _ = send(&mut d, Command::AddToQueue { track: track("9") });
    let ids: Vec<&str> = d.player.queue.iter().map(|t| t.track_id.as_str()).collect();
    assert_eq!(ids, vec!["1", "8", "2", "9"]);
}

#[test]
fn removing_before_the_current_track_keeps_it_current() {
    let mut d = playing(&["1", "2", "3"]);
    let _ = send(&mut d, Command::NextTrack);
    arrive(&mut d, "2");
    let _ = send(&mut d, Command::RemoveFromQueue { index: 0 });
    assert_eq!(d.player.queue_index, 0);
    assert_eq!(d.player.queue[0].track_id, "2");
    let _ = send(&mut d, Command::RemoveFromQueue { index: 0 });
    assert_eq!(d.player.queue.len(), 2, "the playing track stays");
}

#[test]
fn shuffle_and_repeat_are_switched() {
    let mut d = playing(&["1", "2"]);
    let _ = send(&mut d, Command::CycleRepeat);
    assert_eq!(d.player.repeat, RepeatMode::Queue);
    let _ = send(&mut d, Command::ToggleShuffle);
    assert!(d.player.shuffle);
    let _ = send(&mut d, Command::ToggleShuffle);
    assert!(!d.player.shuffle);
}

#[test]
fn the_volume_is_kept() {
    let mut d = daemon();
    let effects = send(&mut d, Command::SetVolume { volume: 300 });
    assert_eq!(d.player.volume, 300);
    assert_eq!(d.config.volume, 300);
    assert!(effects
        .iter()
        .any(|e| matches!(e, Effect::Engine(EngineCommand::SetVolume(300)))));
    assert!(effects.iter().any(|e| matches!(e, Effect::SaveConfig)));
    let _ = send(&mut d, Command::SetVolume { volume: 5_000 });
    assert_eq!(d.player.volume, 1_000);
}

#[test]
fn seeking_stays_inside_the_track() {
    let mut d = playing(&["1"]);
    let effects = send(&mut d, Command::SeekForward { secs: 1_000 });
    assert!(effects
        .iter()
        .any(|e| matches!(e, Effect::Seek { secs } if *secs <= 200)));
    let effects = send(&mut d, Command::SeekBackward { secs: 1_000 });
    assert!(effects.iter().any(|e| matches!(e, Effect::Seek { secs: 0 })));
}

#[test]
fn searches_answer_with_tracks() {
    let mut d = daemon();
    let effects = send(&mut d, Command::Search { query: "daft".into() });
    assert!(effects
        .iter()
        .any(|e| matches!(e, Effect::SearchTracks { query } if query == "daft")));
    assert!(d.snapshot().search_loading);
    d.handle_result(
        AsyncResult::SearchResults(vec![track("1"), track("2")]),
        0,
        CHANCE,
    );
    assert!(!d.snapshot().search_loading);
    assert_eq!(d.snapshot().search_display.len(), 2);
    let notice = d.snapshot().status_msg.unwrap();
    assert_eq!(notice.kind, NoticeKind::Results);
    assert_eq!(fetched(&send(&mut d, Command::PlayFromSearch { index: 1 })), Some("2".to_string()));
}

#[test]
fn failures_are_reported() {
    let mut d = daemon();
    for (result, kind) in [
        (AsyncResult::SearchError("x".into()), NoticeKind::SearchError),
        (AsyncResult::MixError("x".into()), NoticeKind::MixError),
        (AsyncResult::FlowError("x".into()), NoticeKind::FlowError),
        (AsyncResult::AlbumDetailError("x".into()), NoticeKind::AlbumError),
        (AsyncResult::ArtistDetailError("x".into()), NoticeKind::ArtistError),
        (AsyncResult::RadiosError("x".into()), NoticeKind::RadiosError),
        (AsyncResult::GenresError("x".into()), NoticeKind::GenresError),
        (AsyncResult::PlaylistRenameError("x".into()), NoticeKind::PlaylistRenameError),
        (AsyncResult::PlaylistDeleteError("x".into()), NoticeKind::PlaylistDeleteError),
        (AsyncResult::DislikeError("x".into()), NoticeKind::DislikeError),
    ] {
        d.handle_result(result, 0, CHANCE);
        let notice = d.snapshot().status_msg.unwrap();
        assert_eq!(notice.kind, kind);
        assert_eq!(notice.detail, "x");
    }
    d.handle_result(AsyncResult::LoginError("bad".into()), 0, CHANCE);
    assert_eq!(d.snapshot().login_error.as_deref(), Some("bad"));
}

#[test]
fn late_favorites_are_not_mixed_up() {
    let mut d = daemon();
    d.fav.category = FavoritesCategory::Artists;
    d.handle_result(
        AsyncResult::FavoritesLoaded(FavoritesCategory::Tracks, vec![track("1")]),
        0,
        CHANCE,
    );
    assert!(d.snapshot().favorites_display.is_empty());
}

#[test]
fn opened_pages_are_remembered() {
    let mut d = daemon();
    let _ = send(&mut d, Command::PushNavOverlay(NavOverlay::ArtistDetail));
    let _ = send(
        &mut d,
        Command::PushNavOverlay(NavOverlay::AlbumDetail { from_artist: true }),
    );
    assert_eq!(
        d.snapshot().nav_overlay,
        Some(NavOverlay::AlbumDetail { from_artist: true })
    );
    let _ = send(&mut d, Command::PopNavOverlay);
    assert_eq!(d.snapshot().nav_overlay, Some(NavOverlay::ArtistDetail));
    let _ = send(&mut d, Command::ClearNavOverlayStack);
    assert_eq!(d.snapshot().nav_overlay, None);
}

#[test]
fn deleted_playlists_are_gone() {
    let mut d = daemon();
    d.pages.playlist = Some(PlaylistDetail {
        playlist_id: "5".into(),
        title: "Mine".into(),
        creator: "me".into(),
        nb_tracks: 1,
        tracks: vec![track("1")],
    });
    d.handle_result(AsyncResult::PlaylistDeleted("5".into()), 0, CHANCE);
    assert!(d.snapshot().playlists.iter().all(|p| p.playlist_id != "5"));
}

#[test]
fn downloads_play_without_a_connection() {
    let mut index = OfflineIndex::new();
    index.add_track(track("7"), AudioQuality::Flac);
    let mut d = Daemon::new(
        Config {
            arl: None,
            volume: 800,
            quality: AudioQuality::Mp3_128,
        },
        FavoritesCache::new(),
        index,
        true,
    );
    let effects = send(&mut d, Command::PlayFromOffline { index: 0 });
    assert!(effects
        .iter()
        .any(|e| matches!(e, Effect::ReadTrack { track, .. } if track.track_id == "7")));
}

#[test]
fn a_play_is_reported_once() {
    let mut d = playing(&["1"]);
    let mut reports = 0;
    for tick in 0..120u64 {
        d.on_tick(false, tick * 1_000, CHANCE);
        reports += d
            .take_effects()
            .iter()
            .filter(|e| matches!(e, Effect::LogListen { .. }))
            .count();
    }
    assert_eq!(reports, 1);
}

#[test]
fn categories_are_shown_from_the_top() {
    let mut d = daemon();
    d.active_tab = ActiveTab::Explore;
    d.explore.radios = (0..9)
        .map(|id| RadioItem {
            id,
            title: format!("Station {id}"),
        })
        .collect();
    d.explore.radios_selected = 5;
    d.explore.moods_selected = 2;
    send(&mut d, Command::SetCategory { index: 3 });
    assert_eq!(d.explore.category, ExploreCategory::Radios);
    assert_eq!(d.explore.radios_selected, 0);
    assert_eq!(d.selection(), 0);
    assert_eq!(d.active_tab, ActiveTab::Explore);
    // The category that is shown already and one that is not there.
    d.explore.radios_selected = 4;
    send(&mut d, Command::SetCategory { index: 3 });
    send(&mut d, Command::SetCategory { index: 4 });
    assert_eq!(d.selection(), 4);
    send(&mut d, Command::PrevCategory);
    assert_eq!(d.explore.category, ExploreCategory::Categories);
    send(&mut d, Command::NextCategory);
    assert_eq!(d.explore.category, ExploreCategory::Radios);
    assert_eq!(d.selection(), 0);
}

#[test]
fn every_tab_shows_a_new_category_from_the_top() {
    let mut d = daemon();
    d.active_tab = ActiveTab::Search;
    d.search.selected = 3;
    send(&mut d, Command::SetCategory { index: 1 });
    assert_eq!(d.search.category, SearchCategory::Artist);
    assert_eq!(d.selection(), 0);
    d.active_tab = ActiveTab::Favorites;
    d.fav.selected = 3;
    send(&mut d, Command::SetCategory { index: 5 });
    assert_eq!(d.fav.category, FavoritesCategory::Following);
    assert_eq!(d.selection(), 0);
    d.active_tab = ActiveTab::Downloads;
    d.offline.selected = 3;
    send(&mut d, Command::SetCategory { index: 2 });
    assert_eq!(d.offline.category, OfflineCategory::Playlists);
    assert_eq!(d.selection(), 0);
}

#[test]
fn downloads_play_the_row_they_show() {
    let mut index = OfflineIndex::new();
    index.add_track(track("1"), AudioQuality::Flac);
    index.add_track(track("2"), AudioQuality::Flac);
    index.add_album(AlbumDetail {
        album_id: "a".to_string(),
        title: "Album".to_string(),
        artist: "Artist".to_string(),
        nb_tracks: 1,
        release_date: String::new(),
        cover_url: String::new(),
        label: String::new(),
        tracks: vec![track("1")],
    });
    let mut d = daemon();
    d.offline.index = index;
    d.active_tab = ActiveTab::Downloads;
    assert_eq!(d.current_list_len(), 1);
    let shown = d.snapshot().offline_tracks[0].track.track_id.clone();
    assert_eq!(shown, "2");
    let effects = send(&mut d, Command::PlayFromOffline { index: 0 });
    assert!(effects
        .iter()
        .any(|e| matches!(e, Effect::ReadTrack { track, .. } if track.track_id == "2")));
    assert_eq!(d.player.queue.len(), 1);
    assert!(send(&mut d, Command::PlayFromOffline { index: 1 }).is_empty());
}
