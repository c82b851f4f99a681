use deezer_tui::api::addresses::{
    album_url, artist_albums_url, artist_related_url, artist_url, chart_url, genre_radios_url,
    user_data_url,
};
use deezer_tui::api::auth::{DeezerClient, UserData};
use deezer_tui::api::entries::{
    artist_row, decoded, episode_row, genre_stations, genres, playlist_row, podcast_row,
    profile_row, show_page, stations, user_data, EpisodeData, PodcastData, ProfileData,
};
use deezer_tui::api::gateway::{
    after_history, favorite_albums, favorite_artist_row, favorite_artists, following,
    history_entries, history_tracks, is_personal_songs, new_releases_entries,
    personal_playlist_ids, radio_track_ids, search_section_data, track_results, HistoryAction,
    HistoryStage,
};
use deezer_tui::api::graphql::mood_track_ids;
use deezer_tui::api::json::Json;
use deezer_tui::api::pages::{
    album_page, album_track_ids, artist_page, chart_track_ids, genre_page, playlist_page,
    public_error, top_track_ids,
};
use deezer_tui::api::replies::graphql_reply;
use deezer_tui::api::requests;
use deezer_tui::api::DeezerError;
use deezer_tui::models::{ArtistData, AudioQuality, PlaylistData, TrackData};

fn json(text: &str) -> Json {
    graphql_reply(200, "", &format!("{{\"data\":{text}}}")).unwrap()
}

fn track(id: &str) -> TrackData {
    TrackData {
        track_id: id.to_string(),
        title: "Song".to_string(),
        artist: "Artist".to_string(),
        album: String::new(),
        duration: 10,
        album_picture: String::new(),
        artist_id: None,
        album_id: None,
        track_token: None,
        md5_origin: String::new(),
        stream_url: None,
        fallback_id: None,
    }
}

#[test]
fn album_pages_are_read() {
    let resp = json(
        r#"{"title":"Discovery","artist":{"name":"Daft Punk"},"nb_tracks":14,
            "release_date":"2001-03-07","cover_big":"big","label":"Virgin",
            "tracks":{"data":[{"id":1},{"title":"no id"},{"id":2}]}}"#,
    );
    assert_eq!(album_track_ids(&resp), vec!["1", "2"]);
    let page = album_page("302127", &resp, vec![track("1")]);
    assert_eq!(page.title, "Discovery");
    assert_eq!(page.artist, "Daft Punk");
    assert_eq!(page.nb_tracks, 14);
    assert_eq!(page.cover_url, "big");
    assert_eq!(page.label, "Virgin");
    assert_eq!(page.tracks.len(), 1);
}

#[test]
fn artist_pages_list_their_records_newest_first() {
    let resp = json(r#"{"name":"Daft Punk","nb_fan":5,"picture_medium":"m"}"#);
    let top = json(r#"{"data":[{"id":3135556}]}"#);
    assert_eq!(top_track_ids(&top), vec!["3135556"]);
    let albums = json(
        r#"{"data":[{"id":1,"title":"Old","release_date":"1997-01-01"},
                    {"id":2,"title":"New","release_date":"2013-05-17","record_type":"single"}]}"#,
    );
    let related = json(r#"{"data":[{"id":9,"name":"Justice","nb_fan":3}]}"#);
    let page = artist_page("27", &resp, Vec::new(), &albums, &related);
    assert_eq!(page.name, "Daft Punk");
    assert_eq!(page.picture_url, "m");
    assert_eq!(page.albums[0].title, "New");
    assert_eq!(page.albums[0].record_type, "single");
    assert_eq!(page.albums[1].record_type, "album");
    assert_eq!(page.similar_artists[0].name, "Justice");
}

#[test]
fn genre_pages_take_their_artists_from_the_albums() {
    let chart = json(
        r#"{"tracks":{"data":[{"id":4}]},
            "albums":{"data":[{"id":1,"title":"A","artist":{"id":7,"name":"X"}},
                              {"id":2,"title":"B","artist":{"id":7,"name":"X"}}]},
            "playlists":{"data":[{"id":5,"title":"P","nb_tracks":3}]}}"#,
    );
    assert_eq!(chart_track_ids(&chart), vec!["4"]);
    let page = genre_page(132, "Pop".to_string(), &chart, vec![track("4")], Vec::new());
    assert_eq!(page.albums.len(), 2);
    assert_eq!(page.artists.len(), 1);
    assert_eq!(page.artists[0].artist_id, "7");
    assert_eq!(page.playlists.len(), 1);
}

#[test]
fn playlist_pages_count_their_tracks() {
    let counted = json(r#"{"DATA":{"TITLE":"Mix","PARENT_USERNAME":"me","NB_SONG":"12"}}"#);
    let page = playlist_page("5", &counted, Vec::new());
    assert_eq!(page.nb_tracks, 12);
    assert_eq!(page.creator, "me");
    let page = playlist_page("5", &json("{}"), vec![track("1")]);
    assert_eq!(page.nb_tracks, 1);
}

#[test]
fn public_errors_are_read() {
    let e = public_error(&json(r#"{"error":{"message":"no data"}}"#), "Unknown album error");
    assert!(matches!(e, Some(DeezerError::Api(m)) if m == "no data"));
    let e = public_error(&json(r#"{"error":{}}"#), "Unknown album error");
    assert!(matches!(e, Some(DeezerError::Api(m)) if m == "Unknown album error"));
    assert!(public_error(&json("{}"), "Unknown album error").is_none());
}

#[test]
fn histories_come_in_three_shapes() {
    let flat = json(r#"{"data":[{"SNG_ID":"1","TS":5},{"SNG_ID":"2"}]}"#);
    let entries = history_entries(&flat).unwrap();
    assert_eq!(entries.len(), 2);
    assert_eq!(entries[0].at, Some(5));
    assert_eq!(entries[1].at, None);

    let days = json(r#"{"data":[{"DATE":"100","data":[{"SNG_ID":"1"},{"SNG_ID":"2","TS":7}]}]}"#);
    let entries = history_entries(&days).unwrap();
    assert_eq!(entries[0].at, Some(100));
    assert_eq!(entries[1].at, Some(7));

    assert_eq!(history_entries(&json(r#"[{"SNG_ID":"1"}]"#)).unwrap().len(), 1);
    assert!(history_entries(&json("{}")).is_none());
}

#[test]
fn the_latest_track_comes_first() {
    let tracks = history_tracks(vec![
        (Some(5), track("a")),
        (None, track("b")),
        (Some(9), track("c")),
    ])
    .unwrap();
    let ids: Vec<&str> = tracks.iter().map(|t| t.track_id.as_str()).collect();
    assert_eq!(ids, vec!["c", "a", "b"]);
    assert!(history_tracks(Vec::new()).is_none());
}

#[test]
fn histories_fall_back_to_the_favorites() {
    let mut client = DeezerClient::new();
    assert!(matches!(
        after_history(HistoryStage::Songs, None, &client),
        HistoryAction::Failed(DeezerError::Auth(_))
    ));
    let _ = client.login_arl(UserData {
        api_token: "t".into(),
        license_token: "l".into(),
        user_id: 5,
        user_name: "me".into(),
    });
    assert!(matches!(
        after_history(HistoryStage::Songs, None, &client),
        HistoryAction::AskProfile(5)
    ));
    assert!(matches!(
        after_history(HistoryStage::Profile, None, &client),
        HistoryAction::AskFavorites
    ));
    assert!(matches!(
        after_history(HistoryStage::Profile, Some(vec![track("1")]), &client),
        HistoryAction::Done(list) if list.len() == 1
    ));
}

#[test]
fn marked_artists_and_albums_become_rows() {
    let data = json(r#"{"artistsByIds":[{"id":"27","name":"Daft Punk","fansCount":900},{"name":"x"}]}"#);
    let artists = favorite_artists(&data).unwrap();
    assert_eq!(artists.len(), 1);
    let row = favorite_artist_row(artists.into_iter().next().unwrap(), "900 fans".to_string());
    assert_eq!(row.col1, "Daft Punk");
    assert_eq!(row.col2, "900 fans");
    assert_eq!(row.artist_id.as_deref(), Some("27"));
    assert!(matches!(favorite_artists(&json("{}")), Err(DeezerError::Api(_))));
    assert!(matches!(favorite_albums(&json("{}")), Err(DeezerError::Api(_))));
}

#[test]
fn lists_are_found_in_their_replies() {
    assert_eq!(
        personal_playlist_ids(&json(r#"{"me":{"rawPlaylists":[{"id":"1"}]}}"#)).unwrap(),
        vec!["1"]
    );
    assert!(matches!(personal_playlist_ids(&json("{}")), Err(DeezerError::Api(_))));
    assert_eq!(radio_track_ids(&json(r#"{"data":[{"id":1}]}"#)).unwrap(), vec!["1"]);
    assert!(matches!(radio_track_ids(&json("{}")), Err(DeezerError::Api(_))));
    assert_eq!(following(&json(r#"{"data":[{"name":"Ann"}]}"#)).unwrap()[0].col1, "Ann");
    assert_eq!(
        mood_track_ids(&json(r#"{"flowConfig":{"tracks":[{"track":{"id":"8"}},{}]}}"#)).unwrap(),
        vec!["8"]
    );
    match mood_track_ids(&json("{}")) {
        Err(DeezerError::Api(m)) => assert_eq!(m, "No tracks in mood Flow config"),
        other => panic!("{other:?}"),
    }
    assert_eq!(
        new_releases_entries(&json(r#"{"SONGS":{"data":[{}]}}"#)).unwrap().len(),
        1
    );
    match new_releases_entries(&json("{}")) {
        Err(DeezerError::Api(m)) => assert_eq!(m, "Missing SONGS.data in new releases"),
        other => panic!("{other:?}"),
    }
    match track_results(&json("{}")) {
        Err(DeezerError::Api(m)) => assert_eq!(m, "Missing 'TRACK' in search results"),
        other => panic!("{other:?}"),
    }
    match search_section_data(&json("{}"), "TRACK") {
        Err(DeezerError::Api(m)) => assert_eq!(m, "Section not found in search results"),
        other => panic!("{other:?}"),
    }
    match search_section_data(&json(r#"{"TRACK":{}}"#), "TRACK") {
        Err(DeezerError::Api(m)) => assert_eq!(m, "Missing 'data' in search section"),
        other => panic!("{other:?}"),
    }
    assert!(is_personal_songs("__deezer_personal_songs__"));
    assert!(!is_personal_songs("12"));
}

#[test]
fn requests_name_their_method_and_parameters() {
    let r = requests::get_track("42");
    assert_eq!(r.method, "song.getData");
    assert!(matches!(r.params.get("sng_id"), Some(Json::Str(s)) if s == "42"));
    let r = requests::get_tracks(&vec![1, 2]);
    assert!(matches!(r.params.get("sng_ids"), Some(Json::Array(a)) if a.len() == 2));
    let r = requests::add_favorite_artist("27");
    assert!(matches!(r.params.get("ART_ID"), Some(Json::UInt(27))));
    let r = requests::log_listen(100, "42", AudioQuality::Flac.as_api_format(), "42", "x");
    let params = r.params.get("params").unwrap();
    assert!(matches!(params.get("ts_listen"), Some(Json::UInt(100))));
    assert!(matches!(params.get2("media", "id"), Some(Json::UInt(42))));
    for (method, made) in [
        (requests::remove_favorite_artist("1").method, "artist.deleteFavorite"),
        (requests::get_flow(5).method, "radio.getUserRadio"),
        (requests::get_smart_radio("5").method, "song.getSearchTrackMix"),
        (requests::get_playlist_detail("5").method, "deezer.pagePlaylist"),
        (requests::get_show_episodes("5").method, "deezer.pageShow"),
        (requests::get_new_releases().method, "deezer.pageSmartTracklist"),
        (requests::songs_history().method, "user.getSongsHistory"),
    ] {
        assert_eq!(method, made);
    }
}

#[test]
fn pages_have_addresses() {
    assert_eq!(album_url("1"), "https://api.deezer.com/album/1");
    assert_eq!(artist_url("1"), "https://api.deezer.com/artist/1");
    assert_eq!(artist_albums_url("1"), "https://api.deezer.com/artist/1/albums?limit=500");
    assert_eq!(artist_related_url("1"), "https://api.deezer.com/artist/1/related?limit=50");
    assert_eq!(chart_url(132), "https://api.deezer.com/chart/132");
    assert_eq!(genre_radios_url(132), "https://api.deezer.com/genre/132/radios");
    assert!(user_data_url().ends_with("method=deezer.getUserData&input=3&api_version=1.0&api_token="));
}

#[test]
fn users_are_read_from_their_reply() {
    let body = json(
        r#"{"results":{"checkForm":"tok","USER":{"USER_ID":"12","BLOG_NAME":"Ann","OPTIONS":{"license_token":"lic"}}}}"#,
    );
    let user = user_data(&body).unwrap();
    assert_eq!(user.api_token, "tok");
    assert_eq!(user.license_token, "lic");
    assert_eq!(user.user_id, 12);
    assert_eq!(user.user_name, "Ann");
    assert_eq!(user_data(&json(r#"{"results":{}}"#)).unwrap().user_id, 0);
    match user_data(&json("{}")) {
        Err(DeezerError::Api(m)) => assert_eq!(m, "Missing 'results' in response"),
        other => panic!("{other:?}"),
    }
}

#[test]
fn genres_and_stations_that_cannot_be_read_are_left_out() {
    let list = json(r#"{"data":[{"id":0,"name":"All"},{"id":3,"name":"Rock"},{"id":4},{"name":"x"}]}"#);
    let found = genres(&list).unwrap();
    assert_eq!(found.len(), 1);
    assert_eq!((found[0].id, found[0].name.as_str()), (3, "Rock"));
    match genres(&json("{}")) {
        Err(DeezerError::Api(m)) => assert_eq!(m, "Missing 'data' in genres response"),
        other => panic!("{other:?}"),
    }
    let list = json(r#"{"data":[{"id":7,"title":"Mix"},{"title":"x"}]}"#);
    assert_eq!(stations(&list).unwrap()[0].title, "Mix");
    assert_eq!(stations(&list).unwrap().len(), 1);
    match stations(&json("{}")) {
        Err(DeezerError::Api(m)) => assert_eq!(m, "Missing 'data' in radios response"),
        other => panic!("{other:?}"),
    }
    assert_eq!(genre_stations(&list)[0].id, 7);
    assert!(genre_stations(&json("{}")).is_empty());
}

#[test]
fn answers_that_tell_no_user_are_reported() {
    for text in [r#"{"results":3}"#, r#"{"results":[]}"#, r#"{"results":null}"#] {
        match user_data(&json(text)) {
            Err(DeezerError::Api(m)) => {
                assert_eq!(m, "Failed to parse user data: expected an object")
            }
            other => panic!("{other:?}"),
        }
    }
}

fn an_episode() -> EpisodeData {
    EpisodeData {
        episode_id: "5".to_string(),
        title: "First".to_string(),
        show_name: "Cast".to_string(),
        duration: 61,
        show_picture: "hash".to_string(),
        track_token: None,
        stream_url: Some("http://a/b".to_string()),
    }
}

#[test]
fn podcasts_become_pages_of_tracks() {
    let page = show_page(
        "9",
        &json(r#"{"DATA":{"SHOW_NAME":"Cast"}}"#),
        &vec![an_episode()],
    );
    assert_eq!(page.playlist_id, "9");
    assert_eq!(page.title, "Cast");
    assert_eq!(page.nb_tracks, 1);
    assert_eq!(page.tracks[0].track_id, "5");
    assert_eq!(page.tracks[0].duration, 61);
    assert_eq!(page.tracks[0].stream_url.as_deref(), Some("http://a/b"));
    assert!(show_page("9", &json("{}"), &Vec::new()).tracks.is_empty());
}

#[test]
fn complaints_of_a_decoder_are_reported() {
    assert_eq!(decoded(Ok(3), "search section").unwrap(), 3);
    let failed: Result<u8, String> = Err("missing field `SHOW_ID`".to_string());
    match decoded(failed, "search section") {
        Err(DeezerError::Api(m)) => {
            assert_eq!(m, "Failed to parse search section: missing field `SHOW_ID`")
        }
        other => panic!("{other:?}"),
    }
}

#[test]
fn an_album_names_its_first_contributor() {
    let rows = favorite_albums(&json(
        r#"{"albumsByIds":[{"id":"1","contributors":{"edges":[{"node":{"name":"A"}}]}},{"id":"2","contributors":{"edges":{"0":{"node":{"name":"B"}}}}},{"id":"3","contributors":{"edges":[]}}]}"#,
    ))
    .unwrap();
    assert_eq!(rows[0].col2, "A");
    assert_eq!(rows[1].col2, "B");
    assert_eq!(rows[2].col2, "");
}

#[test]
fn entries_of_a_search_become_rows() {
    let row = podcast_row(PodcastData {
        show_id: "1".to_string(),
        name: "Cast".to_string(),
    });
    assert_eq!(row.col1, "Cast");
    assert_eq!(row.show_id.as_deref(), Some("1"));
    let row = episode_row(&an_episode());
    assert_eq!(row.col1, "First");
    assert_eq!(row.track.as_ref().unwrap().track_id, "5");
    let row = profile_row(ProfileData {
        name: "Ann".to_string(),
    });
    assert_eq!(row.col1, "Ann");
    let artist = ArtistData {
        artist_id: "3".to_string(),
        name: "Band".to_string(),
        nb_fan: 10,
    };
    let row = artist_row(artist, "10 fans".to_string());
    assert_eq!((row.col1.as_str(), row.col2.as_str()), ("Band", "10 fans"));
    assert_eq!(row.artist_id.as_deref(), Some("3"));
    let playlist = PlaylistData {
        playlist_id: "4".to_string(),
        title: "Mine".to_string(),
        nb_songs: 12,
        author: "Ann".to_string(),
        collaborative: false,
    };
    let row = playlist_row(playlist);
    assert_eq!((row.col2.as_str(), row.col3.as_str()), ("Ann", "12"));
    assert_eq!(row.playlist_id.as_deref(), Some("4"));
}
