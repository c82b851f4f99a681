//! What the service's answers mean.

use vstd::prelude::*;

use crate::api;
use crate::api::auth::DeezerClient;
use crate::api::json;
use crate::api::json::{
    count_of, first_of, first_present, list_of, read_list, text_or_empty, value_string, value_u64, whole_of,
    Json, JsonReader,
};
use crate::api::replies;
use crate::api::sorting;
use crate::api::sorting::{rank_order, Moment};
use crate::api::{api_error, DeezerError};
use crate::models;
use crate::models::{DisplayItem, DisplayItemView, GenreData, PlaylistDetail, TrackData};
use crate::text;
use crate::text::{
    ascii_lower, contains, decimal, joined, lowercase, owned, parse_signed, parse_unsigned,
    push_text, same_text,
};

verus! {

// ── The gateway ─────────────────────────────────────────────────────

/// What is to be done with an answer of the gateway.
#[derive(Debug, Clone, Copy, PartialEq, Eq, Structural)]
pub enum GwVerdict {
    /// The token has expired: fetch another one and ask again.
    Refresh,
    /// The gateway reports an error.
    Refused,
    /// The answer is good.
    Accepted,
}

/// The fields of the error that an answer reports.
pub open spec fn error_fields(body: Json) -> Seq<json::JsonField> {
    match json::at(body, "error"@) {
        Some(Json::Object(fields)) => fields@,
        _ => Seq::empty(),
    }
}

/// The gateway rejects the token.
pub open spec fn token_rejected(body: Json) -> bool {
    json::field_of(error_fields(body), "VALID_TOKEN_REQUIRED"@) is Some
}

/// What is to be done with an answer: a rejected token is replaced once.
pub open spec fn verdict_on(body: Json, retried: bool) -> GwVerdict {
    if token_rejected(body) && !retried {
        GwVerdict::Refresh
    } else if error_fields(body).len() > 0 {
        GwVerdict::Refused
    } else {
        GwVerdict::Accepted
    }
}

/// What is to be done with an answer of the gateway.
pub fn gw_verdict(body: &Json, retried: bool) -> (r: GwVerdict)
    ensures
        r == verdict_on(*body, retried),
{
    match body.get("error") {
        Some(error) => match error {
            Json::Object(fields) => {
                let rejected: bool = error.get("VALID_TOKEN_REQUIRED").is_some();
                if rejected && !retried {
                    GwVerdict::Refresh
                } else if fields.len() > 0 {
                    GwVerdict::Refused
                } else {
                    GwVerdict::Accepted
                }
            },
            _ => GwVerdict::Accepted,
        },
        None => GwVerdict::Accepted,
    }
}

/// What an answer reports as its error, in words.
pub open spec fn refusal_text(body: Json) -> Seq<char> {
    match json::at(body, "error"@) {
        Some(error) => replies::rendered(error),
        None => replies::rendered(Json::Null),
    }
}

/// The error of an answer that the gateway refused.
pub fn gw_refusal(body: &Json) -> (r: DeezerError)
    ensures
        api::is_api(r, refusal_text(*body)),
{
    match body.get("error") {
        Some(error) => DeezerError::Api(replies::render(error)),
        None => DeezerError::Api(replies::render(&Json::Null)),
    }
}

/// A token is replaced once at most: the second answer is taken as it is.
pub proof fn a_token_is_replaced_once(body: Json)
    ensures
        verdict_on(body, true) != GwVerdict::Refresh,
{
}

/// What an answer of the gateway brings.
pub fn gw_results<'a>(body: &'a Json) -> (r: Result<&'a Json, DeezerError>)
    ensures
        match r {
            Ok(v) => json::at(*body, "results"@) == Some(*v),
            Err(e) => json::at(*body, "results"@) is None && api::is_api(
                e,
                "Missing 'results' in response"@,
            ),
        },
{
    match body.get("results") {
        Some(v) => Ok(v),
        None => Err(api_error("Missing 'results' in response")),
    }
}

/// The text of the error for an answer without data.
pub open spec fn no_data(place: Seq<char>) -> Seq<char> {
    "Missing 'data' in "@ + place
}

/// The data that an answer brings.
pub fn data_in<'a>(results: &'a Json, place: &str) -> (r: Result<&'a Json, DeezerError>)
    ensures
        match r {
            Ok(v) => json::at(*results, "data"@) == Some(*v),
            Err(e) => json::at(*results, "data"@) is None && api::is_api(e, no_data(place@)),
        },
{
    match results.get("data") {
        Some(v) => Ok(v),
        None => {
            let msg: String = joined("Missing 'data' in ", place);
            Err(DeezerError::Api(msg))
        },
    }
}

/// The list of data that an answer brings.
pub fn list_in<'a>(resp: &'a Json, place: &str) -> (r: Result<&'a Vec<Json>, DeezerError>)
    ensures
        match r {
            Ok(v) => json::as_list(json::at(*resp, "data"@)) == Some(v@),
            Err(e) => json::as_list(json::at(*resp, "data"@)) is None && api::is_api(
                e,
                no_data(place@),
            ),
        },
{
    match list_of(resp.get("data")) {
        Some(v) => Ok(v),
        None => {
            let msg: String = joined("Missing 'data' in ", place);
            Err(DeezerError::Api(msg))
        },
    }
}

/// The tracks that a search found.
pub fn track_results<'a>(results: &'a Json) -> (r: Result<&'a Json, DeezerError>)
    ensures
        match r {
            Ok(v) => json::at(*results, "TRACK"@) == Some(*v),
            Err(e) => json::at(*results, "TRACK"@) is None && api::is_api(
                e,
                "Missing 'TRACK' in search results"@,
            ),
        },
{
    match results.get("TRACK") {
        Some(v) => Ok(v),
        None => Err(api_error("Missing 'TRACK' in search results")),
    }
}

/// The data of one section of a search.
pub fn search_section_data<'a>(results: &'a Json, key: &str) -> (r: Result<&'a Json, DeezerError>)
    ensures
        match r {
            Ok(v) => json::at2(*results, key@, "data"@) == Some(*v),
            Err(e) => json::at2(*results, key@, "data"@) is None && if json::at(
                *results,
                key@,
            ) is None {
                api::is_api(e, "Section not found in search results"@)
            } else {
                api::is_api(e, "Missing 'data' in search section"@)
            },
        },
{
    match results.get(key) {
        Some(section) => match section.get("data") {
            Some(v) => Ok(v),
            None => Err(api_error("Missing 'data' in search section")),
        },
        None => Err(api_error("Section not found in search results")),
    }
}

// ── Rows ────────────────────────────────────────────────────────────

/// A row with these columns and nothing to play or open.
pub open spec fn bare_row(
    col1: Seq<char>,
    col2: Seq<char>,
    col3: Seq<char>,
    col4: Seq<char>,
) -> DisplayItemView {
    DisplayItemView {
        col1,
        col2,
        col3,
        col4,
        track: None,
        album_id: None,
        playlist_id: None,
        artist_id: None,
        show_id: None,
    }
}

/// A row with these columns and nothing to play or open.
pub(crate) fn make_row(col1: String, col2: String, col3: String, col4: String) -> (r: DisplayItem)
    ensures
        r@ == bare_row(col1@, col2@, col3@, col4@),
        r.track is None,
        r.album_id is None,
        r.playlist_id is None,
        r.artist_id is None,
        r.show_id is None,
{
    DisplayItem {
        col1,
        col2,
        col3,
        col4,
        track: None,
        album_id: None,
        playlist_id: None,
        artist_id: None,
        show_id: None,
    }
}

/// An album that a search found.
pub struct FoundAlbum;

impl JsonReader for FoundAlbum {
    type Item = DisplayItem;

    open spec fn readable(j: Json) -> bool {
        true
    }

    open spec fn says(j: Json, item: DisplayItem) -> bool {
        item@ == (DisplayItemView {
            album_id: match json::as_count(json::at(j, "id"@)) {
                Some(n) => Some(text::decimal_of(n as nat)),
                None => None,
            },
            ..bare_row(
                json::text_at(j, "title"@),
                json::text_or(json::at2(j, "artist"@, "name"@), Seq::empty()),
                Seq::empty(),
                text::decimal_of(json::count_at(j, "nb_tracks"@) as nat),
            )
        })
    }

    fn read(j: &Json) -> (r: Option<DisplayItem>) {
        let title: String = j.text_at("title");
        let artist: String = text_or_empty(j.get2("artist", "name"));
        let tracks: String = decimal(j.count_at("nb_tracks"));
        let album_id: Option<String> = match count_of(j.get("id")) {
            Some(n) => Some(decimal(n)),
            None => None,
        };
        Some(DisplayItem { album_id, ..make_row(title, artist, String::new(), tracks) })
    }
}

/// The albums that a search found.
pub fn found_albums(resp: &Json) -> (r: Result<Vec<DisplayItem>, DeezerError>)
    ensures
        match r {
            Ok(rows) => json::as_list(json::at(*resp, "data"@)) matches Some(list)
                && json::read_from::<FoundAlbum>(list, rows@),
            Err(e) => json::as_list(json::at(*resp, "data"@)) is None && api::is_api(
                e,
                no_data("album search"@),
            ),
        },
{
    match list_in(resp, "album search") {
        Ok(list) => Ok(read_list::<FoundAlbum>(list)),
        Err(e) => Err(e),
    }
}

/// An artist that the user has marked, with the number of fans.
#[derive(Debug)]
pub struct FavoriteArtist {
    pub artist_id: String,
    pub name: String,
    pub fans: u64,
}

/// Reads a [`FavoriteArtist`].
pub struct MarkedArtist;

impl JsonReader for MarkedArtist {
    type Item = FavoriteArtist;

    open spec fn readable(j: Json) -> bool {
        json::id_text(json::at(j, "id"@)) is Some
    }

    open spec fn says(j: Json, item: FavoriteArtist) -> bool {
        &&& json::id_text(json::at(j, "id"@)) == Some(item.artist_id@)
        &&& item.name@ == json::text_at(j, "name"@)
        &&& item.fans == (match json::loose_count(json::at(j, "fansCount"@)) {
            Some(n) => n,
            None => 0,
        })
    }

    fn read(j: &Json) -> (r: Option<FavoriteArtist>) {
        match value_string(j.get("id")) {
            Some(artist_id) => {
                let fans: u64 = match value_u64(j.get("fansCount")) {
                    Some(n) => n,
                    None => 0,
                };
                Some(FavoriteArtist { artist_id, name: j.text_at("name"), fans })
            },
            None => None,
        }
    }
}

/// The artists that the user has marked.
pub fn favorite_artists(data: &Json) -> (r: Result<Vec<FavoriteArtist>, DeezerError>)
    ensures
        match r {
            Ok(artists) => json::as_list(json::at(*data, "artistsByIds"@)) matches Some(list)
                && json::read_from::<MarkedArtist>(list, artists@),
            Err(e) => json::as_list(json::at(*data, "artistsByIds"@)) is None && api::is_api(
                e,
                "Missing artistsByIds in GraphQL response"@,
            ),
        },
{
    match list_of(data.get("artistsByIds")) {
        Some(list) => Ok(read_list::<MarkedArtist>(list)),
        None => Err(api_error("Missing artistsByIds in GraphQL response")),
    }
}

/// How a number of fans is written.
#[derive(Debug, Clone, Copy, PartialEq, Eq, Structural)]
pub enum FansScale {
    /// In millions, with one decimal.
    Millions,
    /// In thousands, with one decimal.
    Thousands,
    /// As it is.
    Plain,
}

/// How a number of fans is written.
pub open spec fn scale_of(n: u64) -> FansScale {
    if n >= 1_000_000 {
        FansScale::Millions
    } else if n >= 1_000 {
        FansScale::Thousands
    } else {
        FansScale::Plain
    }
}

/// How a number of fans is written.
pub fn fans_scale(n: u64) -> (r: FansScale)
    ensures
        r == scale_of(n),
{
    if n >= 1_000_000 {
        FansScale::Millions
    } else if n >= 1_000 {
        FansScale::Thousands
    } else {
        FansScale::Plain
    }
}

/// A number of fans. `scaled` is the number of millions or thousands, written
/// with one decimal.
pub fn format_fans(n: u64, scaled: &str) -> (r: String)
    ensures
        r@ == (match scale_of(n) {
            FansScale::Millions => scaled@ + "M fans"@,
            FansScale::Thousands => scaled@ + "K fans"@,
            FansScale::Plain => text::decimal_of(n as nat) + " fans"@,
        }),
{
    match fans_scale(n) {
        FansScale::Millions => joined(scaled, "M fans"),
        FansScale::Thousands => joined(scaled, "K fans"),
        FansScale::Plain => {
            let number: String = decimal(n);
            joined(&number, " fans")
        },
    }
}

/// The row of an artist that the user has marked.
pub fn favorite_artist_row(artist: FavoriteArtist, fans: String) -> (r: DisplayItem)
    ensures
        r@ == (DisplayItemView {
            artist_id: Some(artist.artist_id@),
            ..bare_row(artist.name@, fans@, Seq::empty(), Seq::empty())
        }),
{
    DisplayItem {
        artist_id: Some(artist.artist_id),
        ..make_row(artist.name, fans, String::new(), String::new())
    }
}

/// The name of the first contributor of an album.
pub open spec fn first_contributor(j: Json) -> Option<Json> {
    match json::zeroth(json::at2(j, "contributors"@, "edges"@)) {
        Some(edge) => json::at2(edge, "node"@, "name"@),
        None => None,
    }
}

/// Reads the row of an album that the user has marked.
pub struct MarkedAlbum;

impl JsonReader for MarkedAlbum {
    type Item = DisplayItem;

    open spec fn readable(j: Json) -> bool {
        json::id_text(json::at(j, "id"@)) is Some
    }

    open spec fn says(j: Json, item: DisplayItem) -> bool {
        item@ == (DisplayItemView {
            album_id: json::id_text(json::at(j, "id"@)),
            ..bare_row(
                json::text_at(j, "displayTitle"@),
                json::text_or(first_contributor(j), Seq::empty()),
                json::text_at(j, "releaseDate"@),
                Seq::empty(),
            )
        })
    }

    fn read(j: &Json) -> (r: Option<DisplayItem>) {
        match value_string(j.get("id")) {
            Some(album_id) => {
                let artist: String = match first_of(j.get2("contributors", "edges")) {
                    Some(edge) => text_or_empty(edge.get2("node", "name")),
                    None => String::new(),
                };
                let title: String = j.text_at("displayTitle");
                let date: String = j.text_at("releaseDate");
                Some(
                    DisplayItem {
                        album_id: Some(album_id),
                        ..make_row(title, artist, date, String::new())
                    },
                )
            },
            None => None,
        }
    }
}

/// The albums that the user has marked.
pub fn favorite_albums(data: &Json) -> (r: Result<Vec<DisplayItem>, DeezerError>)
    ensures
        match r {
            Ok(rows) => json::as_list(json::at(*data, "albumsByIds"@)) matches Some(list)
                && json::read_from::<MarkedAlbum>(list, rows@),
            Err(e) => json::as_list(json::at(*data, "albumsByIds"@)) is None && api::is_api(
                e,
                "Missing albumsByIds in GraphQL response"@,
            ),
        },
{
    match list_of(data.get("albumsByIds")) {
        Some(list) => Ok(read_list::<MarkedAlbum>(list)),
        None => Err(api_error("Missing albumsByIds in GraphQL response")),
    }
}

/// Reads an id, given as a text or a number.
pub struct AnyId;

impl JsonReader for AnyId {
    type Item = String;

    open spec fn readable(j: Json) -> bool {
        json::id_text(json::at(j, "id"@)) is Some
    }

    open spec fn says(j: Json, item: String) -> bool {
        json::id_text(json::at(j, "id"@)) == Some(item@)
    }

    fn read(j: &Json) -> (r: Option<String>) {
        value_string(j.get("id"))
    }
}

/// Reads an id that is given as a number.
pub struct NumberId;

impl JsonReader for NumberId {
    type Item = String;

    open spec fn readable(j: Json) -> bool {
        json::as_count(json::at(j, "id"@)) is Some
    }

    open spec fn says(j: Json, item: String) -> bool {
        json::as_count(json::at(j, "id"@)) matches Some(n) && item@ == text::decimal_of(n as nat)
    }

    fn read(j: &Json) -> (r: Option<String>) {
        match count_of(j.get("id")) {
            Some(n) => Some(decimal(n)),
            None => None,
        }
    }
}

/// The ids of what the user has marked, of one kind.
pub fn favorite_ids(data: &Json, kind: &str) -> (r: Result<Vec<String>, DeezerError>)
    ensures
        match r {
            Ok(ids) => json::as_list(
                json::at3(*data, "me"@, "userFavorites"@, kind@),
            ) matches Some(list) && json::read_from::<AnyId>(list, ids@),
            Err(e) => json::as_list(json::at3(*data, "me"@, "userFavorites"@, kind@)) is None
                && api::is_api(e, "Missing userFavorites."@ + kind@ + " in GraphQL response"@),
        },
{
    match list_of(data.get3("me", "userFavorites", kind)) {
        Some(list) => Ok(read_list::<AnyId>(list)),
        None => {
            let mut msg: String = joined("Missing userFavorites.", kind);
            push_text(&mut msg, " in GraphQL response");
            Err(DeezerError::Api(msg))
        },
    }
}

/// The ids of the user's own playlists.
pub fn personal_playlist_ids(data: &Json) -> (r: Result<Vec<String>, DeezerError>)
    ensures
        match r {
            Ok(ids) => json::as_list(json::at2(*data, "me"@, "rawPlaylists"@)) matches Some(list)
                && json::read_from::<AnyId>(list, ids@),
            Err(e) => json::as_list(json::at2(*data, "me"@, "rawPlaylists"@)) is None
                && api::is_api(e, "Missing me.rawPlaylists in GraphQL response"@),
        },
{
    match list_of(data.get2("me", "rawPlaylists")) {
        Some(list) => Ok(read_list::<AnyId>(list)),
        None => Err(api_error("Missing me.rawPlaylists in GraphQL response")),
    }
}

/// The entries of one tab of the user's profile.
pub fn profile_tab<'a>(results: &'a Json, tab: &str) -> (r: Result<&'a Json, DeezerError>)
    ensures
        match r {
            Ok(v) => json::at3(*results, "TAB"@, tab@, "data"@) == Some(*v),
            Err(e) => json::at3(*results, "TAB"@, tab@, "data"@) is None && api::is_api(
                e,
                "Missing TAB."@ + tab@ + ".data in profile"@,
            ),
        },
{
    match results.get3("TAB", tab, "data") {
        Some(v) => Ok(v),
        None => {
            let mut msg: String = joined("Missing TAB.", tab);
            push_text(&mut msg, ".data in profile");
            Err(DeezerError::Api(msg))
        },
    }
}

/// The id under which the user's uploads are shown like a playlist.
pub open spec fn personal_songs_id() -> Seq<char> {
    "__deezer_personal_songs__"@
}

/// Whether a playlist stands for the user's uploads.
pub fn is_personal_songs(playlist_id: &str) -> (r: bool)
    ensures
        r == (playlist_id@ == personal_songs_id()),
{
    same_text(playlist_id, "__deezer_personal_songs__")
}

/// The user's uploads, as a playlist.
pub fn personal_songs(tracks: Vec<TrackData>) -> (r: PlaylistDetail)
    ensures
        r.playlist_id@ == personal_songs_id(),
        r.title@ == "My Mp3s"@,
        r.creator@.len() == 0,
        r.nb_tracks == tracks@.len(),
        r.tracks@ == tracks@,
{
    PlaylistDetail {
        playlist_id: owned("__deezer_personal_songs__"),
        title: owned("My Mp3s"),
        creator: String::new(),
        nb_tracks: tracks.len() as u64,
        tracks,
    }
}

/// The row of the user's uploads.
pub open spec fn personal_songs_row(detail: models::PlaylistDetailView) -> DisplayItemView {
    DisplayItemView {
        playlist_id: Some(personal_songs_id()),
        ..bare_row(
            detail.title@,
            "Personal uploads"@,
            text::decimal_of(detail.nb_tracks as nat),
            Seq::empty(),
        )
    }
}

/// Reads the row of a playlist.
pub struct OwnPlaylist;

impl JsonReader for OwnPlaylist {
    type Item = DisplayItem;

    open spec fn readable(j: Json) -> bool {
        json::id_text(json::at(j, "id"@)) is Some
    }

    open spec fn says(j: Json, item: DisplayItem) -> bool {
        item@ == (DisplayItemView {
            playlist_id: json::id_text(json::at(j, "id"@)),
            ..bare_row(
                json::text_at(j, "title"@),
                json::text_or(json::at2(j, "owner"@, "name"@), Seq::empty()),
                text::decimal_of(
                    (match json::loose_count(json::at(j, "estimatedTracksCount"@)) {
                        Some(n) => n,
                        None => 0,
                    }) as nat,
                ),
                Seq::empty(),
            )
        })
    }

    fn read(j: &Json) -> (r: Option<DisplayItem>) {
        match value_string(j.get("id")) {
            Some(playlist_id) => {
                let count: u64 = match value_u64(j.get("estimatedTracksCount")) {
                    Some(n) => n,
                    None => 0,
                };
                let title: String = j.text_at("title");
                let owner: String = text_or_empty(j.get2("owner", "name"));
                Some(
                    DisplayItem {
                        playlist_id: Some(playlist_id),
                        ..make_row(title, owner, decimal(count), String::new())
                    },
                )
            },
            None => None,
        }
    }
}

/// The rows of the user's own playlists.
pub fn own_playlists(data: &Json) -> (r: Result<Vec<DisplayItem>, DeezerError>)
    ensures
        match r {
            Ok(rows) => json::as_list(json::at(*data, "playlistsByIds"@)) matches Some(list)
                && json::read_from::<OwnPlaylist>(list, rows@),
            Err(e) => json::as_list(json::at(*data, "playlistsByIds"@)) is None && api::is_api(
                e,
                "Missing playlistsByIds in GraphQL response"@,
            ),
        },
{
    match list_of(data.get("playlistsByIds")) {
        Some(list) => Ok(read_list::<OwnPlaylist>(list)),
        None => Err(api_error("Missing playlistsByIds in GraphQL response")),
    }
}

/// The rows of the user's playlists, with the uploads at the end where there are
/// any to be had.
pub fn with_personal_songs(rows: Vec<DisplayItem>, uploads: Option<PlaylistDetail>) -> (r: Vec<
    DisplayItem,
>)
    ensures
        models::rows_of(r@) == (match uploads {
            Some(detail) => models::rows_of(rows@).push(personal_songs_row(detail@)),
            None => models::rows_of(rows@),
        }),
{
    match uploads {
        Some(detail) => {
            let mut out: Vec<DisplayItem> = rows;
            let ghost before = out@;
            let ghost shown = detail@;
            let count: String = decimal(detail.nb_tracks);
            let row: DisplayItem = DisplayItem {
                playlist_id: Some(owned("__deezer_personal_songs__")),
                ..make_row(detail.title, owned("Personal uploads"), count, String::new())
            };
            let ghost new = row;
            out.push(row);
            proof {
                assert(models::rows_of(out@) =~= models::rows_of(before).push(new@));
            }
            out
        },
        None => rows,
    }
}

/// Reads the row of a user who is followed.
pub struct Followed;

impl JsonReader for Followed {
    type Item = DisplayItem;

    open spec fn readable(j: Json) -> bool {
        true
    }

    open spec fn says(j: Json, item: DisplayItem) -> bool {
        item@ == bare_row(json::text_at(j, "name"@), Seq::empty(), Seq::empty(), Seq::empty())
    }

    fn read(j: &Json) -> (r: Option<DisplayItem>) {
        Some(make_row(j.text_at("name"), String::new(), String::new(), String::new()))
    }
}

/// The rows of the users who are followed.
pub fn following(resp: &Json) -> (r: Result<Vec<DisplayItem>, DeezerError>)
    ensures
        match r {
            Ok(rows) => json::as_list(json::at(*resp, "data"@)) matches Some(list)
                && json::read_from::<Followed>(list, rows@),
            Err(e) => json::as_list(json::at(*resp, "data"@)) is None && api::is_api(
                e,
                no_data("following"@),
            ),
        },
{
    match list_in(resp, "following") {
        Ok(list) => Ok(read_list::<Followed>(list)),
        Err(e) => Err(e),
    }
}

// ── Listening history ───────────────────────────────────────────────

/// The time that a field of an entry gives, as a number or a text.
pub open spec fn time_at(j: Json, key: Seq<char>) -> Option<i64> {
    match json::at(j, key) {
        Some(v) => match json::as_whole(Some(v)) {
            Some(n) => Some(n),
            None => match json::as_text(Some(v)) {
                Some(t) => match text::signed_of(t) {
                    Some(n) => Some(n as i64),
                    None => None,
                },
                None => None,
            },
        },
        None => None,
    }
}

/// The time of an entry, from the first field that gives one.
pub open spec fn time_of(j: Json) -> Option<i64> {
    if time_at(j, "TS"@) is Some {
        time_at(j, "TS"@)
    } else if time_at(j, "DATE"@) is Some {
        time_at(j, "DATE"@)
    } else if time_at(j, "DATE_ADD"@) is Some {
        time_at(j, "DATE_ADD"@)
    } else {
        time_at(j, "TIMESTAMP"@)
    }
}

/// The time that a field of an entry gives.
fn read_time_at(j: &Json, key: &str) -> (r: Option<i64>)
    ensures
        r == time_at(*j, key@),
{
    match j.get(key) {
        Some(v) => match whole_of(Some(v)) {
            Some(n) => Some(n),
            None => match v {
                Json::Str(s) => parse_signed(s),
                _ => None,
            },
        },
        None => None,
    }
}

/// The time of an entry.
pub fn extract_ts(j: &Json) -> (r: Option<i64>)
    ensures
        r == time_of(*j),
{
    let ts: Option<i64> = read_time_at(j, "TS");
    if ts.is_some() {
        return ts;
    }
    let date: Option<i64> = read_time_at(j, "DATE");
    if date.is_some() {
        return date;
    }
    let added: Option<i64> = read_time_at(j, "DATE_ADD");
    if added.is_some() {
        return added;
    }
    read_time_at(j, "TIMESTAMP")
}

/// The entries of a listening history: the list under `data`, or the answer
/// itself.
pub open spec fn history_list(node: Json) -> Option<Seq<Json>> {
    match json::as_list(json::at(node, "data"@)) {
        Some(s) => Some(s),
        None => json::as_list(Some(node)),
    }
}

/// An entry is a day with entries of its own.
pub open spec fn is_day(j: Json) -> bool {
    json::as_list(json::at(j, "data"@)) is Some
}

/// The history is grouped by day.
pub open spec fn by_day(s: Seq<Json>) -> bool {
    exists|i: int| 0 <= i < s.len() && is_day(#[trigger] s[i])
}

/// A track of a listening history that is still to be decoded, with its time.
pub struct HistoryEntry<'a> {
    pub item: &'a Json,
    pub at: Option<i64>,
}

/// The entries of a list, with their times; `day` is the time of those that have
/// none.
pub open spec fn timed(s: Seq<Json>, day: Option<i64>) -> Seq<(Json, Option<i64>)> {
    s.map_values(
        |j: Json|
            (
                j,
                if time_of(j) is Some {
                    time_of(j)
                } else {
                    day
                },
            ),
    )
}

/// The entries of all days, with their times.
pub open spec fn entries_of_days(s: Seq<Json>) -> Seq<(Json, Option<i64>)>
    decreases s.len(),
{
    if s.len() == 0 {
        Seq::empty()
    } else {
        entries_of_days(s.drop_last()) + timed(
            json::list_or_empty(json::at(s.last(), "data"@)),
            time_of(s.last()),
        )
    }
}

/// The entries of a history, with their times.
pub open spec fn history_entries_of(s: Seq<Json>) -> Seq<(Json, Option<i64>)> {
    if by_day(s) {
        entries_of_days(s)
    } else {
        timed(s, None)
    }
}

/// The entries that these are.
pub open spec fn entries_shown(v: Seq<HistoryEntry>) -> Seq<(Json, Option<i64>)> {
    v.map_values(|e: HistoryEntry| (*e.item, e.at))
}

/// Puts the entries of a list behind others.
fn push_timed<'a>(out: &mut Vec<HistoryEntry<'a>>, list: &'a Vec<Json>, day: Option<i64>)
    ensures
        entries_shown(final(out)@) == entries_shown(old(out)@) + timed(list@, day),
{
    let n: usize = list.len();
    let mut i: usize = 0;
    let ghost before = entries_shown(out@);
    proof {
        assert(timed(list@.take(0), day) =~= Seq::empty());
        assert(before + timed(list@.take(0), day) =~= before);
    }
    while i < n
        invariant
            i <= n,
            n == list@.len(),
            entries_shown(out@) == before + timed(list@.take(i as int), day),
        decreases n - i,
    {
        let own: Option<i64> = extract_ts(&list[i]);
        let at: Option<i64> = if own.is_some() {
            own
        } else {
            day
        };
        let ghost was = out@;
        out.push(HistoryEntry { item: &list[i], at });
        proof {
            assert(list@.take(i + 1) =~= list@.take(i as int).push(list@[i as int]));
            assert(timed(list@.take(i + 1), day) =~= timed(list@.take(i as int), day).push(
                (list@[i as int], at),
            ));
            assert(entries_shown(out@) =~= entries_shown(was).push((list@[i as int], at)));
        }
        i = i + 1;
    }
    proof {
        assert(list@.take(n as int) =~= list@);
    }
}

/// Whether a history is grouped by day.
fn has_days(list: &Vec<Json>) -> (r: bool)
    ensures
        r == by_day(list@),
{
    let n: usize = list.len();
    let mut i: usize = 0;
    while i < n
        invariant
            i <= n,
            n == list@.len(),
            forall|k: int| 0 <= k < i ==> !is_day(#[trigger] list@[k]),
        decreases n - i,
    {
        if list_of(list[i].get("data")).is_some() {
            assert(is_day(list@[i as int]));
            return true;
        }
        i = i + 1;
    }
    false
}

/// The entries of a listening history, with their times. Three shapes of answers
/// are understood: a list of tracks, an object with such a list, and an object
/// with a list of days.
pub fn history_entries<'a>(node: &'a Json) -> (r: Option<Vec<HistoryEntry<'a>>>)
    ensures
        match r {
            Some(entries) => history_list(*node) matches Some(list) && entries_shown(entries@)
                == history_entries_of(list),
            None => history_list(*node) is None,
        },
{
    let list: &Vec<Json> = match list_of(node.get("data")) {
        Some(list) => list,
        None => match list_of(Some(node)) {
            Some(list) => list,
            None => {
                return None;
            },
        },
    };
    let days: bool = has_days(list);
    let mut out: Vec<HistoryEntry<'a>> = Vec::new();
    proof {
        assert(entries_shown(out@) =~= Seq::empty());
    }
    if days {
        let n: usize = list.len();
        let mut i: usize = 0;
        proof {
            assert(list@.take(0) =~= Seq::empty());
        }
        while i < n
            invariant
                i <= n,
                n == list@.len(),
                entries_shown(out@) == entries_of_days(list@.take(i as int)),
            decreases n - i,
        {
            proof {
                assert(list@.take(i + 1).drop_last() =~= list@.take(i as int));
                assert(list@.take(i + 1).last() == list@[i as int]);
            }
            let day: Option<i64> = extract_ts(&list[i]);
            match list_of(list[i].get("data")) {
                Some(inner) => {
                    push_timed(&mut out, inner, day);
                },
                None => {
                    proof {
                        assert(timed(Seq::empty(), day) =~= Seq::empty());
                        assert(entries_of_days(list@.take(i + 1)) =~= entries_of_days(
                            list@.take(i as int),
                        ));
                    }
                },
            }
            i = i + 1;
        }
        proof {
            assert(list@.take(n as int) =~= list@);
        }
    } else {
        push_timed(&mut out, list, None);
        proof {
            assert(Seq::<(Json, Option<i64>)>::empty() + timed(list@, None) =~= timed(list@, None));
        }
    }
    Some(out)
}

/// The times of a history's tracks.
pub open spec fn times_of(played: Seq<(Option<i64>, TrackData)>) -> Seq<Moment> {
    played.map_values(|p: (Option<i64>, TrackData)| Moment { at: p.0 })
}

/// The tracks of a history.
pub open spec fn tracks_of(played: Seq<(Option<i64>, TrackData)>) -> Seq<TrackData> {
    played.map_values(|p: (Option<i64>, TrackData)| p.1)
}

/// A track of the history has a time.
pub open spec fn any_timed(played: Seq<(Option<i64>, TrackData)>) -> bool {
    exists|i: int| 0 <= i < played.len() && (#[trigger] played[i]).0 is Some
}

/// The tracks of a listening history, the latest first. Tracks without a time
/// come last; where no track has one, the order is that of the answer. A history
/// without tracks is none.
pub fn history_tracks(played: Vec<(Option<i64>, TrackData)>) -> (r: Option<Vec<TrackData>>)
    ensures
        match r {
            Some(tracks) => {
                &&& played@.len() > 0
                &&& sorting::sorted_from(times_of(played@), tracks_of(played@), tracks@)
                &&& !any_timed(played@) ==> tracks@ == tracks_of(played@)
            },
            None => played@.len() == 0,
        },
{
    let n: usize = played.len();
    if n == 0 {
        return None;
    }
    let mut times: Vec<Moment> = Vec::new();
    let mut i: usize = 0;
    while i < n
        invariant
            i <= n,
            n == played@.len(),
            times@ =~= times_of(played@).take(i as int),
        decreases n - i,
    {
        times.push(Moment { at: played[i].0 });
        i = i + 1;
    }
    proof {
        assert(times@ =~= times_of(played@));
    }
    let order: Vec<usize> = rank_order(&times);
    let mut out: Vec<TrackData> = Vec::new();
    let mut k: usize = 0;
    while k < n
        invariant
            k <= n,
            n == played@.len(),
            sorting::in_order(times_of(played@), order@),
            out@.len() == k,
            forall|j: int|
                0 <= j < k ==> #[trigger] out@[j] == tracks_of(played@)[order@[j] as int],
        decreases n - k,
    {
        assert(order@[k as int] < n);
        out.push(played[order[k]].1.clone());
        k = k + 1;
    }
    proof {
        assert(sorting::sorted_from(times_of(played@), tracks_of(played@), out@));
        if !any_timed(played@) {
            let plain = crate::queue::in_order(n as nat);
            untimed_keeps_its_order(played@);
            sorting::order_is_unique(times_of(played@), order@, plain);
            assert(out@ =~= tracks_of(played@));
        }
    }
    Some(out)
}

/// A history without times is in order as it is.
proof fn untimed_keeps_its_order(played: Seq<(Option<i64>, TrackData)>)
    requires
        !any_timed(played),
        played.len() <= usize::MAX,
    ensures
        sorting::in_order(times_of(played), crate::queue::in_order(played.len())),
{
    let order = crate::queue::in_order(played.len());
    let keys = times_of(played);
    assert forall|p: usize| p < keys.len() implies #[trigger] order.contains(p) by {
        assert(order[p as int] == p);
    }
    assert forall|i: int, j: int| 0 <= i < j < order.len() implies #[trigger] sorting::comes_first(
        keys,
        order[i],
        order[j],
    ) by {
        assert(played[i].0 is None);
        assert(played[j].0 is None);
    }
}

/// Which answer the listening history is waited for.
#[derive(Debug, Clone, Copy, PartialEq, Eq, Structural)]
pub enum HistoryStage {
    /// The list of tracks that were played.
    Songs,
    /// The tab of the user's profile.
    Profile,
}

/// What is to be done next for the listening history.
#[derive(Debug)]
pub enum HistoryAction {
    /// These tracks were played.
    Done(Vec<TrackData>),
    /// Ask for the tab of this user's profile.
    AskProfile(u64),
    /// Show the favorites in its place.
    AskFavorites,
    /// There is no session to ask with.
    Failed(DeezerError),
}

/// How the listening history goes on after an answer: the first answer that has
/// tracks is taken. `found` is what the answer holds.
pub fn after_history(stage: HistoryStage, found: Option<Vec<TrackData>>, client: &DeezerClient) -> (r:
    HistoryAction)
    ensures
        match found {
            Some(tracks) => r == HistoryAction::Done(tracks),
            None => match (stage, client.session) {
                (HistoryStage::Songs, Some(session)) => r == HistoryAction::AskProfile(
                    session.user_id,
                ),
                (HistoryStage::Songs, None) => r matches HistoryAction::Failed(e) && api::is_auth(
                    e,
                    "Not authenticated"@,
                ),
                (HistoryStage::Profile, _) => r == HistoryAction::AskFavorites,
            },
        },
{
    match found {
        Some(tracks) => HistoryAction::Done(tracks),
        None => match stage {
            HistoryStage::Songs => match client.user_id() {
                Ok(user_id) => HistoryAction::AskProfile(user_id),
                Err(e) => HistoryAction::Failed(e),
            },
            HistoryStage::Profile => HistoryAction::AskFavorites,
        },
    }
}

// ── Changing playlists ──────────────────────────────────────────────

/// The gateway's message says that the track is in the playlist already.
pub open spec fn says_already(msg: Seq<char>) -> bool {
    let low = text::lowercase_of(msg);
    text::occurs(low, "already"@) || text::occurs(low, "duplicate"@)
}

/// Whether a message says that the track is in the playlist already. `low` is the
/// message in lower case.
pub fn reads_already(low: &str) -> (r: bool)
    ensures
        r == (text::occurs(low@, "already"@) || text::occurs(low@, "duplicate"@)),
{
    contains(low, "already") || contains(low, "duplicate")
}

/// What an error of adding a track to a playlist means.
pub fn add_to_playlist_error(e: DeezerError) -> (r: DeezerError)
    ensures
        r == (match e {
            DeezerError::Api(msg) => if says_already(msg@) {
                DeezerError::TrackAlreadyInPlaylist
            } else {
                e
            },
            _ => e,
        }),
{
    match e {
        DeezerError::Api(msg) => {
            let low: String = lowercase(&msg);
            if reads_already(&low) {
                DeezerError::TrackAlreadyInPlaylist
            } else {
                DeezerError::Api(msg)
            }
        },
        other => other,
    }
}

/// The id of a playlist that was created: the answer itself, or a field of it.
pub open spec fn created_id(results: Json) -> Option<Seq<char>> {
    match results {
        Json::Object(_) => json::id_text(
            json::either(json::at(results, "PLAYLIST_ID"@), json::at(results, "playlist_id"@)),
        ),
        _ => json::id_text(Some(results)),
    }
}

/// The id of a playlist that was created.
pub fn created_playlist_id(results: &Json) -> (r: Result<String, DeezerError>)
    ensures
        match r {
            Ok(id) => created_id(*results) == Some(id@),
            Err(e) => created_id(*results) is None && api::is_api(
                e,
                "Missing playlist_id in create response"@,
            ),
        },
{
    let id: Option<String> = match results {
        Json::Object(_) => value_string(
            first_present(results.get("PLAYLIST_ID"), results.get("playlist_id")),
        ),
        _ => value_string(Some(results)),
    };
    match id {
        Some(id) => Ok(id),
        None => Err(api_error("Missing playlist_id in create response")),
    }
}

/// A playlist that tracks can be added to: the user's own, or one that several
/// users share. The list of loved tracks is none: it is changed through the
/// favorites. The result tells whether it is shared.
pub open spec fn writable_of(entry: Json, owner: Seq<char>) -> Option<bool> {
    let shared = json::loose_count(json::at(entry, "STATUS"@)) == Some(2u64);
    if text::ascii_lower_of(json::text_at(entry, "TYPE"@)) == "loved"@ {
        None
    } else if json::id_text(json::at(entry, "PARENT_USER_ID"@)) == Some(owner) || shared {
        Some(shared)
    } else {
        None
    }
}

/// Whether tracks can be added to a playlist, and whether it is shared.
pub fn writable_playlist(entry: &Json, owner: &str) -> (r: Option<bool>)
    ensures
        r == writable_of(*entry, owner@),
{
    let shared: bool = match value_u64(entry.get("STATUS")) {
        Some(n) => n == 2,
        None => false,
    };
    let kind: String = ascii_lower(&entry.text_at("TYPE"));
    if same_text(&kind, "loved") {
        return None;
    }
    let own: bool = match value_string(entry.get("PARENT_USER_ID")) {
        Some(id) => same_text(&id, owner),
        None => false,
    };
    if own || shared {
        Some(shared)
    } else {
        None
    }
}

// ── Podcasts ────────────────────────────────────────────────────────

/// The list two fields down, where there is one.
pub fn entries_at<'a>(res: &'a Json, key: &str, inner: &str) -> (r: Option<&'a Vec<Json>>)
    ensures
        match r {
            Some(list) => json::as_list(json::at2(*res, key@, inner@)) == Some(list@),
            None => json::as_list(json::at2(*res, key@, inner@)) is None,
        },
{
    list_of(res.get2(key, inner))
}

/// The entries of the weekly new releases.
pub fn new_releases_entries<'a>(results: &'a Json) -> (r: Result<&'a Vec<Json>, DeezerError>)
    ensures
        match r {
            Ok(list) => json::as_list(json::at2(*results, "SONGS"@, "data"@)) == Some(list@),
            Err(e) => json::as_list(json::at2(*results, "SONGS"@, "data"@)) is None && api::is_api(
                e,
                "Missing SONGS.data in new releases"@,
            ),
        },
{
    match entries_at(results, "SONGS", "data") {
        Some(list) => Ok(list),
        None => Err(api_error("Missing SONGS.data in new releases")),
    }
}

/// The ids that can be asked for at once: those that are numbers.
pub open spec fn numbers_of(ids: Seq<String>) -> Seq<u64>
    decreases ids.len(),
{
    if ids.len() == 0 {
        Seq::empty()
    } else {
        let rest = numbers_of(ids.drop_last());
        match text::unsigned_of(ids.last()@, u64::MAX as nat) {
            Some(n) => rest.push(n as u64),
            None => rest,
        }
    }
}

/// The ids that can be asked for at once.
pub fn numeric_ids(ids: &Vec<String>) -> (r: Vec<u64>)
    ensures
        r@ == numbers_of(ids@),
{
    let n: usize = ids.len();
    let mut out: Vec<u64> = Vec::new();
    let mut i: usize = 0;
    proof {
        assert(ids@.take(0) =~= Seq::empty());
    }
    while i < n
        invariant
            i <= n,
            n == ids@.len(),
            out@ == numbers_of(ids@.take(i as int)),
        decreases n - i,
    {
        proof {
            assert(ids@.take(i + 1).drop_last() =~= ids@.take(i as int));
            assert(ids@.take(i + 1).last() == ids@[i as int]);
        }
        match parse_unsigned(&ids[i], u64::MAX) {
            Some(v) => {
                out.push(v);
            },
            None => {},
        }
        i = i + 1;
    }
    proof {
        assert(ids@.take(n as int) =~= ids@);
    }
    out
}

/// The ids of a station's tracks.
pub fn radio_track_ids(resp: &Json) -> (r: Result<Vec<String>, DeezerError>)
    ensures
        match r {
            Ok(ids) => json::as_list(json::at(*resp, "data"@)) matches Some(list)
                && json::read_from::<NumberId>(list, ids@),
            Err(e) => json::as_list(json::at(*resp, "data"@)) is None && api::is_api(
                e,
                no_data("radio tracks response"@),
            ),
        },
{
    match list_in(resp, "radio tracks response") {
        Ok(list) => Ok(read_list::<NumberId>(list)),
        Err(e) => Err(e),
    }
}

/// A genre of its own. The service also lists one that stands for all.
pub open spec fn real_genre() -> spec_fn(GenreData) -> bool {
    |g: GenreData| g.id != 0
}

/// The genres without the one that stands for all.
pub fn real_genres(list: Vec<GenreData>) -> (r: Vec<GenreData>)
    ensures
        r@ == list@.filter(real_genre()),
{
    let ghost all = list@;
    let mut out: Vec<GenreData> = Vec::new();
    proof {
        reveal(Seq::filter);
        assert(all.take(0) =~= Seq::empty());
    }
    for g in it: list
        invariant
            it.seq() == all,
            out@ == all.take(it.index() as int).filter(real_genre()),
    {
        proof {
            let i = it.index() as int;
            reveal(Seq::filter);
            assert(all.take(i + 1).drop_last() =~= all.take(i));
            assert(all.take(i + 1).last() == all[i]);
        }
        if g.id != 0 {
            out.push(g);
        }
    }
    proof {
        assert(all.take(all.len() as int) =~= all);
    }
    out
}

/// An answer is taken unless it reports an error; one that rejects the token is
/// asked for again with a fresh one, the first time, and refused the second.
pub proof fn answers_are_judged_by_their_error(body: Json, retried: bool)
    ensures
        json::at(body, "error"@) is None ==> verdict_on(body, retried) == GwVerdict::Accepted,
        json::at(body, "error"@) matches Some(Json::Object(fields)) ==> {
            let rejected = json::field_of(fields@, "VALID_TOKEN_REQUIRED"@) is Some;
            &&& fields@.len() == 0 && !rejected ==> verdict_on(body, retried) == GwVerdict::Accepted
            &&& rejected && !retried ==> verdict_on(body, retried) == GwVerdict::Refresh
            &&& fields@.len() > 0 && !rejected ==> verdict_on(body, retried) == GwVerdict::Refused
            &&& fields@.len() > 0 && retried ==> verdict_on(body, retried) == GwVerdict::Refused
        },
{
}

/// The loved tracks are no playlist to add to; the user's own playlists are, and
/// those that several users share.
pub proof fn own_and_shared_playlists_can_be_added_to(entry: Json, owner: Seq<char>)
    ensures
        ({
            let own = json::id_text(json::at(entry, "PARENT_USER_ID"@)) == Some(owner);
            let shared = json::loose_count(json::at(entry, "STATUS"@)) == Some(2u64);
            let loved = text::ascii_lower_of(json::text_at(entry, "TYPE"@)) == "loved"@;
            &&& loved ==> writable_of(entry, owner) is None
            &&& !loved && (own || shared) ==> writable_of(entry, owner) == Some(shared)
            &&& !own && !shared ==> writable_of(entry, owner) is None
        }),
{
}

/// The time of an entry is the one of the first field that has one: when it was
/// played, else a date.
pub proof fn the_first_time_counts(j: Json)
    ensures
        time_at(j, "TS"@) is Some ==> time_of(j) == time_at(j, "TS"@),
        time_at(j, "TS"@) is None && time_at(j, "DATE"@) is Some ==> time_of(j) == time_at(
            j,
            "DATE"@,
        ),
        time_at(j, "TS"@) is None && time_at(j, "DATE"@) is None && time_at(j, "DATE_ADD"@) is Some
            ==> time_of(j) == time_at(j, "DATE_ADD"@),
        time_at(j, "TS"@) is None && time_at(j, "DATE"@) is None && time_at(j, "DATE_ADD"@) is None
            ==> time_of(j) == time_at(j, "TIMESTAMP"@),
{
}

/// Thousands are counted from a thousand up, and millions from a million up.
pub proof fn fans_are_counted_in_scales(n: u64)
    ensures
        n < 1_000 <==> scale_of(n) == FansScale::Plain,
        1_000 <= n < 1_000_000 <==> scale_of(n) == FansScale::Thousands,
        n >= 1_000_000 <==> scale_of(n) == FansScale::Millions,
{
}

} // verus!
