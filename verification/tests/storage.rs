use deezer_tui::fetch::{download_percent, FetchAction, FetchError, FetchEvent, FetchTask, SaveTask};
use deezer_tui::models::{
    playable_tracks, AlbumDetail, ArtistSubTab, AudioQuality, DisplayItem, PlaylistData,
    PlaylistDetail, TrackData,
};
use deezer_tui::protocol::{ActiveTab, GenreDetailSubTab, SearchCategory};
use deezer_tui::rows::{adjust_playlists, adjust_rows, count_rows, drop_rows, rename_rows};
use deezer_tui::seqs::{contains_id, drop_id, find_id};
use deezer_tui::storage::{FavoritesCache, OfflineIndex};

fn track(id: &str) -> TrackData {
    TrackData {
        track_id: id.to_string(),
        title: format!("Song {id}"),
        artist: "Artist".to_string(),
        album: String::new(),
        duration: 10,
        album_picture: String::new(),
        artist_id: None,
        album_id: None,
        track_token: Some("token".to_string()),
        md5_origin: String::new(),
        stream_url: None,
        fallback_id: None,
    }
}

fn playlist(id: &str, tracks: Vec<TrackData>) -> PlaylistDetail {
    PlaylistDetail {
        playlist_id: id.to_string(),
        title: "Mine".to_string(),
        creator: "me".to_string(),
        nb_tracks: tracks.len() as u64,
        tracks,
    }
}

fn row(id: &str, count: &str) -> DisplayItem {
    DisplayItem {
        col1: "Mine".to_string(),
        col2: String::new(),
        col3: count.to_string(),
        col4: String::new(),
        track: None,
        album_id: None,
        playlist_id: Some(id.to_string()),
        artist_id: None,
        show_id: None,
    }
}

#[test]
fn downloads_are_found_again() {
    let mut index = OfflineIndex::new();
    index.add_track(track("1"), AudioQuality::Flac);
    assert!(index.has_track("1"));
    assert!(!index.has_track("2"));
    index.remove_track("1");
    assert!(!index.has_track("1"));
}

#[test]
fn grouped_downloads_are_not_listed_alone() {
    let mut index = OfflineIndex::new();
    index.add_track(track("1"), AudioQuality::Flac);
    index.add_missing(&vec![track("1"), track("2")], AudioQuality::Mp3_128);
    index.add_playlist(playlist("9", vec![track("2")]));
    assert_eq!(index.track_ids().len(), 2);
    assert!(index.is_grouped("2") && !index.is_grouped("1"));
    let alone = index.standalone_tracks();
    assert_eq!(alone.len(), 1);
    assert_eq!(alone[0].track.track_id, "1");
    assert_eq!(index.playlist_tracks("9").unwrap().len(), 1);
    assert!(index.playlist_tracks("8").is_none());
    index.remove_playlist("9");
    assert!(index.playlist_tracks("9").is_none());
}

#[test]
fn playlists_are_remembered_and_forgotten() {
    let mut cache = FavoritesCache::new();
    cache.remember_playlist(playlist("1", vec![track("1")]));
    cache.remember_playlist(playlist("1", vec![track("1"), track("2")]));
    assert_eq!(cache.playlist_details.len(), 1);
    assert_eq!(cache.playlist_details[0].tracks.len(), 2);
    cache.invalidate_playlists("1");
    assert!(cache.playlist_details.is_empty());
}

#[test]
fn rows_follow_their_playlist() {
    let rows = adjust_rows(vec![row("1", "5"), row("2", "7")], "1", 1);
    assert_eq!(rows[0].col3, "6");
    assert_eq!(rows[1].col3, "7");
    let far = adjust_rows(vec![row("1", "5")], "1", 40);
    assert_eq!(far[0].col3, "45");
    let none = adjust_rows(far, "1", i64::MIN);
    assert_eq!(none[0].col3, "0");
    let rows = adjust_rows(rows, "1", -1);
    assert_eq!(rows[0].col3, "5");
    let rows = count_rows(rows, "2", 3);
    assert_eq!(rows[1].col3, "3");
    let rows = rename_rows(rows, "2", &"Other".to_string());
    assert_eq!(rows[1].col1, "Other");
    let rows = drop_rows(rows, "1");
    assert_eq!(rows.len(), 1);
    let list = adjust_playlists(
        vec![PlaylistData {
            playlist_id: "1".into(),
            title: "Mine".into(),
            nb_songs: 0,
            author: "me".into(),
            collaborative: false,
        }],
        "1",
        -1,
    );
    assert_eq!(list[0].nb_songs, 0);
}

#[test]
fn ids_are_found_and_dropped() {
    let ids: Vec<String> = vec!["a".into(), "b".into(), "a".into()];
    assert_eq!(find_id(&ids, "b"), Some(1));
    assert_eq!(find_id(&ids, "a"), Some(0));
    assert!(!contains_id(&ids, "c"));
    assert_eq!(drop_id(ids, "a"), vec!["b"]);
}

#[test]
fn rows_without_a_track_are_not_played() {
    let rows = vec![row("1", "2"), DisplayItem::from_track(&track("5"))];
    let tracks = playable_tracks(&rows);
    assert_eq!(tracks.len(), 1);
    assert_eq!(tracks[0].track_id, "5");
}

#[test]
fn tabs_go_round() {
    let mut tab = ActiveTab::Search;
    for _ in 0..4 {
        assert_eq!(tab.next().prev(), tab);
        tab = tab.next();
    }
    let mut sub = ArtistSubTab::TopTracks;
    for _ in 0..6 {
        assert_eq!(sub.next().prev(), sub);
        sub = sub.next();
    }
    let mut genre = GenreDetailSubTab::at(0).unwrap();
    for i in 0..4 {
        assert_eq!(genre.position(), i % 4);
        assert_eq!(genre.next().prev(), genre);
        genre = genre.next();
    }
    assert_ne!(SearchCategory::Track.api_key(), SearchCategory::Artist.api_key());
}

#[test]
fn a_track_drops_out_of_a_page() {
    let mut page = playlist("1", vec![track("1"), track("2")]);
    page.drop_track("1");
    assert_eq!(page.tracks.len(), 1);
    assert_eq!(page.nb_tracks, 1);
    let album = AlbumDetail {
        album_id: "1".into(),
        title: "A".into(),
        artist: "B".into(),
        cover_url: String::new(),
        release_date: String::new(),
        label: String::new(),
        nb_tracks: 1,
        tracks: vec![track("1")],
    };
    let mut index = OfflineIndex::new();
    index.add_album(album);
    assert!(index.has_album("1"));
    index.remove_album("1");
    assert!(!index.has_album("1"));
}

#[test]
fn fetching_asks_for_a_fresh_token_once() {
    let (mut task, action) = FetchTask::begin(track("1"), AudioQuality::Flac, true);
    assert!(matches!(action, FetchAction::GetStreamUrl { .. }));
    let action = task.step(FetchEvent::Failed("expired".into()));
    assert!(matches!(action, FetchAction::GetTrack { track_id } if track_id == "1"));
    let action = task.step(FetchEvent::Track(track("1")));
    assert!(matches!(action, FetchAction::GetStreamUrl { .. }));
    let action = task.step(FetchEvent::Url {
        url: "https://x".into(),
        quality: AudioQuality::Mp3_128,
    });
    assert!(matches!(action, FetchAction::Download { url, .. } if url == "https://x"));
    let action = task.step(FetchEvent::Downloaded);
    assert!(matches!(
        action,
        FetchAction::Ready { quality: AudioQuality::Mp3_128, .. }
    ));
}

#[test]
fn nothing_is_downloaded_without_the_key() {
    let (mut task, _) = FetchTask::begin(track("1"), AudioQuality::Flac, false);
    let action = task.step(FetchEvent::Url {
        url: "https://x".into(),
        quality: AudioQuality::Flac,
    });
    assert!(matches!(action, FetchAction::Failed { err: FetchError::NotReady }));
}

#[test]
fn substitutes_do_not_show() {
    let mut wanted = track("1");
    wanted.fallback_id = Some("2".to_string());
    let (mut task, _) = FetchTask::begin(wanted, AudioQuality::Flac, true);
    let _ = task.step(FetchEvent::Failed("no rights".into()));
    let mut fresh = track("1");
    fresh.fallback_id = Some("2".to_string());
    let _ = task.step(FetchEvent::Track(fresh));
    let action = task.step(FetchEvent::Failed("no rights".into()));
    assert!(matches!(&action, FetchAction::GetTrack { track_id } if track_id == "2"), "{action:?}");
    let _ = task.step(FetchEvent::Track(track("2")));
    let _ = task.step(FetchEvent::Url {
        url: "https://x".into(),
        quality: AudioQuality::Flac,
    });
    match task.step(FetchEvent::Downloaded) {
        FetchAction::Ready { track, .. } => assert_eq!(track.track_id, "1"),
        other => panic!("{other:?}"),
    }
}

#[test]
fn episodes_are_downloaded_as_they_are() {
    let mut episode = track("1");
    episode.stream_url = Some("https://podcast".to_string());
    let (mut task, action) = FetchTask::begin(episode, AudioQuality::Flac, false);
    assert!(matches!(action, FetchAction::DownloadDirect { url } if url == "https://podcast"));
    assert!(matches!(task.step(FetchEvent::Downloaded), FetchAction::Ready { .. }));
}

#[test]
fn downloads_for_offline_use_try_once() {
    let (mut task, action) = SaveTask::begin(track("1"), AudioQuality::Flac);
    assert!(matches!(action, FetchAction::GetStreamUrl { .. }));
    match task.step(FetchEvent::Failed("gone".into())) {
        FetchAction::Failed { err: FetchError::Service(m) } => assert_eq!(m, "gone"),
        other => panic!("{other:?}"),
    }
}

#[test]
fn progress_ends_at_a_hundred() {
    assert_eq!(download_percent(0, 7), 0);
    assert_eq!(download_percent(3, 7), 42);
    assert_eq!(download_percent(7, 7), 100);
    assert_eq!(download_percent(0, 0), 0);
}
