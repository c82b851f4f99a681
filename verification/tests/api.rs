use deezer_tui::api::addresses::{
    albums_query, artist_top_url, artists_query, favorite_ids_query, followings_url, gateway_url, login_cookie,
    moods_query, playlist_ids_query, playlists_query, radio_tracks_url,
};
use deezer_tui::api::auth::{DeezerClient, UserData};
use deezer_tui::api::gateway::{
    add_to_playlist_error, created_playlist_id, extract_ts, fans_scale, favorite_ids, format_fans,
    found_albums, gw_refusal, gw_results, gw_verdict, numeric_ids, own_playlists, personal_songs, real_genres,
    with_personal_songs, writable_playlist, FansScale, GwVerdict,
};
use deezer_tui::api::graphql::{
    hardcoded_moods, is_stale_jwt, mood_source, moods_of, retries_with_fresh_token, MoodSource,
};
use deezer_tui::api::json::{parse_id, value_string, value_u64, Json, JsonField};
use deezer_tui::api::pages::{album_artists, newest_first};
use deezer_tui::api::replies::{graphql_reply, jwt_reply, take_field};
use deezer_tui::api::requests::{plain_query, query_by_ids};
use deezer_tui::api::DeezerError;
use deezer_tui::models::{ArtistAlbumEntry, GenreData, MoodItem, TrackData};

fn obj(fields: Vec<(&str, Json)>) -> Json {
    Json::Object(
        fields
            .into_iter()
            .map(|(key, value)| JsonField {
                key: key.to_string(),
                value,
            })
            .collect(),
    )
}

fn text(s: &str) -> Json {
    Json::Str(s.to_string())
}

fn track(id: &str) -> TrackData {
    TrackData {
        track_id: id.to_string(),
        title: "Song".to_string(),
        artist: "Artist".to_string(),
        album: String::new(),
        duration: 10,
        album_picture: String::new(),
        artist_id: None,
        album_id: None,
        track_token: None,
        md5_origin: String::new(),
        stream_url: None,
        fallback_id: None,
    }
}

#[test]
fn stale_jwt_is_detected_from_the_graphql_message() {
    // The message Deezer actually returns, as reported in #14.
    assert!(is_stale_jwt(&DeezerError::Api(
        "GraphQL error: JWT token has expired, please reauthenticate".into()
    )));
    // Newer wording, returned with type JwtTokenExpiredError.
    assert!(is_stale_jwt(&DeezerError::Api(
        "GraphQL error: Given jwt token is not valid anymore, please refresh it or re-authenticate".into()
    )));
    // The 401/403 path raises Auth instead.
    assert!(is_stale_jwt(&DeezerError::Auth(
        "GraphQL rejected the JWT (status=401 Unauthorized)".into()
    )));
}

#[test]
fn unrelated_errors_do_not_trigger_a_jwt_retry() {
    assert!(!is_stale_jwt(&DeezerError::Api(
        "GraphQL error: field 'moods' not found".into()
    )));
    assert!(!is_stale_jwt(&DeezerError::Http("connection reset".into())));
    // "Not authenticated" is a missing session, not a stale token.
    assert!(!is_stale_jwt(&DeezerError::Auth(
        "Not authenticated".into()
    )));
}

#[test]
fn a_fresh_token_is_tried_once() {
    let stale = DeezerError::Auth("GraphQL rejected the JWT (status=403 Forbidden)".into());
    assert!(retries_with_fresh_token(&stale, false));
    assert!(!retries_with_fresh_token(&stale, true));
}

#[test]
fn tokens_come_out_of_their_reply() {
    assert_eq!(jwt_reply(r#"{"jwt":"abc"}"#, "200 OK").unwrap(), "abc");
    match jwt_reply(r#"{"jwt":5}"#, "200 OK") {
        Err(DeezerError::Auth(m)) => {
            assert_eq!(m, "Missing 'jwt' in auth response (status=200 OK)")
        }
        other => panic!("{other:?}"),
    }
    match jwt_reply("<html>", "502 Bad Gateway") {
        Err(DeezerError::Http(m)) => assert!(m.starts_with("JWT response not JSON: "), "{m}"),
        other => panic!("{other:?}"),
    }
}

#[test]
fn query_replies_bring_data_or_errors() {
    let data = graphql_reply(200, "200 OK", r#"{"data":{"a":[1,-2,0.5,null,true]}}"#).unwrap();
    match take_field(data, "a") {
        Some(Json::Array(list)) => {
            assert!(matches!(list[0], Json::UInt(1)));
            assert!(matches!(list[1], Json::Int(-2)));
            assert!(matches!(&list[2], Json::Fraction(s) if s == "0.5"));
            assert!(matches!(list[3], Json::Null));
            assert!(matches!(list[4], Json::Bool(true)));
        }
        other => panic!("{other:?}"),
    }
    match graphql_reply(200, "200 OK", r#"{"errors":[{"message":"one"},{},{"message":"two"}]}"#) {
        Err(DeezerError::Api(m)) => assert_eq!(m, "GraphQL error: one; two"),
        other => panic!("{other:?}"),
    }
    match graphql_reply(200, "200 OK", r#"{"errors":[]}"#) {
        Err(DeezerError::Api(m)) => assert_eq!(m, "Missing 'data' in GraphQL response"),
        other => panic!("{other:?}"),
    }
    match graphql_reply(401, "401 Unauthorized", "not even JSON") {
        Err(DeezerError::Auth(m)) => {
            assert_eq!(m, "GraphQL rejected the JWT (status=401 Unauthorized)")
        }
        other => panic!("{other:?}"),
    }
    match graphql_reply(200, "200 OK", "oops") {
        Err(DeezerError::Http(m)) => {
            assert!(m.starts_with("Non-JSON response: ") && m.ends_with(" body=oops"), "{m}")
        }
        other => panic!("{other:?}"),
    }
}

#[test]
fn addresses_name_what_is_wanted() {
    assert_eq!(
        gateway_url("song.getData", "tok"),
        "https://www.deezer.com/ajax/gw-light.php?method=song.getData&input=3&api_version=1.0&api_token=tok"
    );
    assert_eq!(artist_top_url("27"), "https://api.deezer.com/artist/27/top?limit=50");
    assert_eq!(radio_tracks_url(31061), "https://api.deezer.com/radio/31061/tracks");
    assert_eq!(followings_url(5), "https://api.deezer.com/user/5/followings?limit=2000");
    assert_eq!(login_cookie("x"), "arl=x; Domain=.deezer.com; Path=/");
    assert_eq!(
        favorite_ids_query("rawTracks"),
        "{ me { userFavorites { rawTracks { id } } } }"
    );
}

#[test]
fn the_first_field_of_a_name_counts() {
    let j = obj(vec![("k", Json::UInt(1)), ("k", Json::UInt(2))]);
    assert!(matches!(j.get("k"), Some(Json::UInt(1))));
    assert!(matches!(take_field(j, "k"), Some(Json::UInt(1))));
    assert!(take_field(Json::Null, "k").is_none());
}

#[test]
fn a_rejected_gateway_token_is_replaced_once() {
    let body = obj(vec![(
        "error",
        obj(vec![("VALID_TOKEN_REQUIRED", text("Invalid CSRF token"))]),
    )]);
    assert_eq!(gw_verdict(&body, false), GwVerdict::Refresh);
    assert_eq!(gw_verdict(&body, true), GwVerdict::Refused);
    let fine = obj(vec![("error", Json::Array(Vec::new())), ("results", Json::UInt(7))]);
    assert_eq!(gw_verdict(&fine, false), GwVerdict::Accepted);
    assert!(matches!(gw_results(&fine), Ok(Json::UInt(7))));
    match gw_results(&Json::Null) {
        Err(DeezerError::Api(m)) => assert_eq!(m, "Missing 'results' in response"),
        other => panic!("{other:?}"),
    }
}

#[test]
fn sessions_need_a_valid_login() {
    let mut client = DeezerClient::new();
    assert!(!client.is_authenticated());
    assert!(matches!(client.user_id(), Err(DeezerError::Auth(_))));
    assert!(matches!(client.api_token(), Err(DeezerError::Auth(_))));
    let user = |user_id| UserData {
        api_token: "token".into(),
        license_token: "license".into(),
        user_id,
        user_name: "me".into(),
    };
    match client.login_arl(user(0)) {
        Err(DeezerError::Auth(m)) => assert_eq!(m, "Invalid ARL token — user_id is 0"),
        other => panic!("{other:?}"),
    }
    assert!(!client.is_authenticated());
    assert!(client.login_arl(user(5)).is_ok());
    assert_eq!(client.user_id().unwrap(), 5);
    assert_eq!(client.api_token().unwrap(), "token");
    match client.refresh_api_token(user(0)) {
        Err(DeezerError::Auth(m)) => {
            assert_eq!(m, "Session expired — ARL token is no longer valid")
        }
        other => panic!("{other:?}"),
    }
}

#[test]
fn cached_tokens_are_dropped_on_demand() {
    let mut client = DeezerClient::new();
    assert_eq!(client.cached_jwt(false), None);
    client.keep_jwt("j".into());
    assert_eq!(client.cached_jwt(false), Some("j".to_string()));
    assert_eq!(client.cached_jwt(true), None);
    assert_eq!(client.cached_jwt(false), None);
}

#[test]
fn moods_fall_back_to_the_known_ones() {
    assert!(!hardcoded_moods().is_empty());
    assert_eq!(moods_of(None).len(), hardcoded_moods().len());
    let node = obj(vec![("node", obj(vec![("id", text("chill")), ("title", text("Chill"))]))]);
    let bare = obj(vec![("node", obj(vec![("id", text("x"))]))]);
    let data = obj(vec![(
        "me",
        obj(vec![(
            "flowConfigs",
            obj(vec![("moods", obj(vec![("edges", Json::Array(vec![bare, node]))]))]),
        )]),
    )]);
    let moods = moods_of(Some(&data));
    assert_eq!(moods.len(), 1);
    assert_eq!(moods[0].title, "Chill");
}

#[test]
fn moods_say_where_their_tracks_are() {
    let mood = |id: &str, radio_id| MoodItem {
        id: id.to_string(),
        title: String::new(),
        target: String::new(),
        radio_id,
    };
    assert!(matches!(mood_source(&mood("x", Some(7))), MoodSource::Radio(7)));
    match mood_source(&mood("a\"b", None)) {
        MoodSource::Query(q) => assert_eq!(
            q,
            "{ flowConfig(flowConfigId: \"a\\\"b\") { tracks { track { id } } } }"
        ),
        other => panic!("{other:?}"),
    }
    assert!(matches!(
        mood_source(&mood("", None)),
        MoodSource::Missing(DeezerError::Api(_))
    ));
}

#[test]
fn ids_are_read_from_texts_and_numbers() {
    assert_eq!(value_string(Some(&Json::UInt(12))), Some("12".to_string()));
    assert_eq!(value_string(Some(&text("12"))), Some("12".to_string()));
    assert_eq!(value_string(Some(&Json::Null)), None);
    assert_eq!(value_u64(Some(&text("12"))), Some(12));
    assert_eq!(value_u64(Some(&text("x"))), None);
    assert_eq!(numeric_ids(&vec!["3".into(), "x".into(), "4".into()]), vec![3, 4]);
    assert!(matches!(parse_id("31"), Json::UInt(31)));
    assert!(matches!(parse_id("-31x"), Json::Str(s) if s == "-31x"));
}

#[test]
fn favorite_ids_are_listed() {
    let list = Json::Array(vec![
        obj(vec![("id", text("1"))]),
        obj(vec![("id", Json::UInt(2))]),
        obj(vec![]),
    ]);
    let data = obj(vec![(
        "me",
        obj(vec![("userFavorites", obj(vec![("rawTracks", list)]))]),
    )]);
    assert_eq!(favorite_ids(&data, "rawTracks").unwrap(), vec!["1", "2"]);
    match favorite_ids(&data, "rawAlbums") {
        Err(DeezerError::Api(m)) => {
            assert_eq!(m, "Missing userFavorites.rawAlbums in GraphQL response")
        }
        other => panic!("{other:?}"),
    }
}

#[test]
fn found_albums_become_rows() {
    let resp = obj(vec![(
        "data",
        Json::Array(vec![obj(vec![
            ("id", Json::UInt(302127)),
            ("title", text("Discovery")),
            ("artist", obj(vec![("name", text("Daft Punk"))])),
            ("nb_tracks", Json::UInt(14)),
        ])]),
    )]);
    let rows = found_albums(&resp).unwrap();
    assert_eq!(rows.len(), 1);
    assert_eq!(rows[0].col1, "Discovery");
    assert_eq!(rows[0].col2, "Daft Punk");
    assert_eq!(rows[0].col4, "14");
    assert_eq!(rows[0].album_id.as_deref(), Some("302127"));
    assert!(matches!(found_albums(&Json::Null), Err(DeezerError::Api(_))));
}

#[test]
fn fans_are_scaled() {
    assert_eq!(fans_scale(999), FansScale::Plain);
    assert_eq!(fans_scale(1_000), FansScale::Thousands);
    assert_eq!(fans_scale(1_000_000), FansScale::Millions);
    assert_eq!(format_fans(950, ""), "950 fans");
    assert_eq!(format_fans(1_500, "1.5"), "1.5K fans");
    assert_eq!(format_fans(2_000_000, "2.0"), "2.0M fans");
}

#[test]
fn adding_a_track_twice_is_told_apart() {
    let e = add_to_playlist_error(DeezerError::Api(
        "ERROR_DATA_EXISTS: song already exists in playlist".into(),
    ));
    assert!(matches!(e, DeezerError::TrackAlreadyInPlaylist), "{e:?}");
    let e = add_to_playlist_error(DeezerError::Http("timeout".into()));
    assert!(matches!(e, DeezerError::Http(m) if m == "timeout"));
}

#[test]
fn created_playlists_have_an_id() {
    assert_eq!(created_playlist_id(&Json::UInt(99)).unwrap(), "99");
    assert!(matches!(created_playlist_id(&Json::Null), Err(DeezerError::Api(_))));
}

#[test]
fn timestamps_are_read() {
    assert_eq!(extract_ts(&obj(vec![("TS", Json::UInt(1_700_000_000))])), Some(1_700_000_000));
    assert_eq!(extract_ts(&obj(vec![])), None);
}

#[test]
fn uploads_are_a_playlist_of_their_own() {
    let songs = personal_songs(vec![track("-1"), track("-2")]);
    assert_eq!(songs.tracks.len(), 2);
    assert_eq!(songs.nb_tracks, 2);
    let rows = with_personal_songs(Vec::new(), Some(songs));
    assert_eq!(rows.len(), 1);
    assert!(with_personal_songs(Vec::new(), None).is_empty());
}

#[test]
fn own_playlists_become_rows() {
    let data = obj(vec![(
        "playlistsByIds",
        Json::Array(vec![
            obj(vec![
                ("id", text("77")),
                ("title", text("Mine")),
                ("owner", obj(vec![("name", text("me"))])),
                ("estimatedTracksCount", text("3")),
            ]),
            obj(vec![("title", text("no id"))]),
        ]),
    )]);
    let rows = own_playlists(&data).unwrap();
    assert_eq!(rows.len(), 1);
    assert_eq!(rows[0].playlist_id.as_deref(), Some("77"));
    assert_eq!(rows[0].col2, "me");
    assert_eq!(rows[0].col3, "3");
    assert!(matches!(own_playlists(&Json::Null), Err(DeezerError::Api(_))));
}

#[test]
fn playlists_of_others_cannot_be_written() {
    let entry = |owner: &str, status: u64, kind: &str| {
        obj(vec![
            ("PARENT_USER_ID", text(owner)),
            ("STATUS", Json::UInt(status)),
            ("TYPE", text(kind)),
        ])
    };
    assert_eq!(writable_playlist(&entry("5", 0, "0"), "5"), Some(false));
    assert_eq!(writable_playlist(&entry("6", 0, "0"), "5"), None);
    assert_eq!(writable_playlist(&entry("6", 2, "0"), "5"), Some(true));
    assert_eq!(writable_playlist(&entry("5", 0, "Loved"), "5"), None);
}

#[test]
fn all_is_no_genre() {
    let genre = |id, name: &str| GenreData {
        id,
        name: name.to_string(),
    };
    let kept = real_genres(vec![genre(0, "All"), genre(132, "Pop")]);
    assert_eq!(kept.len(), 1);
    assert_eq!(kept[0].id, 132);
}

#[test]
fn records_are_listed_newest_first() {
    let record = |id: &str, date: &str| ArtistAlbumEntry {
        album_id: id.to_string(),
        title: String::new(),
        record_type: "album".to_string(),
        release_date: date.to_string(),
        fans: 0,
        cover_url: String::new(),
    };
    let sorted = newest_first(vec![
        record("a", "2001-01-01"),
        record("b", "2020-05-05"),
        record("c", "2001-01-01"),
    ]);
    let ids: Vec<&str> = sorted.iter().map(|r| r.album_id.as_str()).collect();
    assert_eq!(ids, vec!["b", "a", "c"]);
}

#[test]
fn artists_are_listed_once() {
    let album = |id: u64, name: &str| {
        obj(vec![(
            "artist",
            obj(vec![("id", Json::UInt(id)), ("name", text(name))]),
        )])
    };
    let artists = album_artists(&vec![album(1, "A"), album(2, "B"), album(1, "A")]);
    assert_eq!(artists.len(), 2);
}

#[test]
fn refusals_are_reported_in_the_service_own_words() {
    let error = obj(vec![
        ("CODE", Json::UInt(4)),
        ("DATA_ERROR", Json::Str("song already \"in\" playlist".to_string())),
        ("LIST", Json::Array(vec![Json::Null, Json::Int(-1), Json::Bool(true)])),
        ("SHARE", Json::Fraction("0.5".to_string())),
    ]);
    let body = obj(vec![("error", error)]);
    assert_eq!(gw_verdict(&body, true), GwVerdict::Refused);
    match gw_refusal(&body) {
        DeezerError::Api(m) => assert_eq!(
            m,
            r#"{"CODE":4,"DATA_ERROR":"song already \"in\" playlist","LIST":[null,-1,true],"SHARE":0.5}"#
        ),
        other => panic!("{other:?}"),
    }
    assert!(matches!(
        add_to_playlist_error(gw_refusal(&body)),
        DeezerError::TrackAlreadyInPlaylist
    ));
    match gw_refusal(&obj(vec![])) {
        DeezerError::Api(m) => assert_eq!(m, "null"),
        other => panic!("{other:?}"),
    }
}

#[test]
fn queries_carry_their_variables() {
    let plain = plain_query(playlist_ids_query());
    assert!(matches!(plain.get("query"), Some(Json::Str(q)) if q == "{ me { rawPlaylists { id } } }"));
    assert!(matches!(plain.get("variables"), Some(Json::Object(f)) if f.is_empty()));
    let body = query_by_ids(artists_query(), &vec!["1".to_string(), "2".to_string()]);
    match body.get2("variables", "ids") {
        Some(Json::Array(ids)) => {
            assert_eq!(ids.len(), 2);
            assert!(matches!(&ids[1], Json::Str(id) if id == "2"));
        }
        other => panic!("{other:?}"),
    }
    assert!(artists_query().contains("artistsByIds(ids: $ids)"));
    assert!(albums_query().contains("albumsByIds(ids: $ids)"));
    assert!(playlists_query().contains("playlistsByIds(ids: $ids)"));
    assert!(moods_query().contains("flowConfigs"));
}
