//! Single entries of the service's answers: users, genres, stations, podcasts, and
//! the rows of a search.

use vstd::prelude::*;

use crate::api;
use crate::api::auth::UserData;
use crate::api::gateway;
use crate::api::gateway::{gw_results, list_in, make_row, real_genres};
use crate::api::json;
use crate::api::json::{
    count_of, read_list, read_optional, text_of_value, text_or_empty, value_u64, Json, JsonReader,
};
use crate::api::DeezerError;
use crate::models;
use crate::models::{
    ArtistData, DisplayItem, DisplayItemView, GenreData, PlaylistData, PlaylistDetail, RadioData,
    TrackData,
};
use crate::text;
use crate::text::{decimal, joined, owned, push_text};

verus! {

/// A number that may be given as a text; zero where there is none.
pub open spec fn loose_or_zero(j: Option<Json>) -> u64 {
    match json::loose_count(j) {
        Some(n) => n,
        None => 0,
    }
}

fn loose_number(j: Option<&Json>) -> (r: u64)
    ensures
        r == loose_or_zero(json::pointed(j)),
{
    match value_u64(j) {
        Some(n) => n,
        None => 0,
    }
}

// ── Decoding ────────────────────────────────────────────────────────

/// What is said of an answer that cannot be decoded, and why.
pub open spec fn failure(what: Seq<char>, why: Seq<char>) -> Seq<char> {
    "Failed to parse "@ + what + ": "@ + why
}

/// The error for an answer that cannot be decoded.
fn unreadable(what: &str, why: &str) -> (r: DeezerError)
    ensures
        api::is_api(r, failure(what@, why@)),
{
    let mut msg: String = joined("Failed to parse ", what);
    push_text(&mut msg, ": ");
    push_text(&mut msg, why);
    DeezerError::Api(msg)
}

/// What a decoder made of an answer: the value, or its complaint as an error.
pub fn decoded<T>(outcome: Result<T, String>, what: &str) -> (r: Result<T, DeezerError>)
    ensures
        match outcome {
            Ok(value) => r matches Ok(v) && v == value,
            Err(why) => r matches Err(e) && api::is_api(e, failure(what@, why@)),
        },
{
    match outcome {
        Ok(value) => Ok(value),
        Err(why) => Err(unreadable(what, &why)),
    }
}

// ── The user ────────────────────────────────────────────────────────

/// An answer tells this of the user.
pub open spec fn tells_user(j: Json, user: UserData) -> bool {
    &&& user.api_token@ == json::text_at(j, "checkForm"@)
    &&& user.license_token@ == json::text_or(
        json::at3(j, "USER"@, "OPTIONS"@, "license_token"@),
        Seq::empty(),
    )
    &&& user.user_id == loose_or_zero(json::at2(j, "USER"@, "USER_ID"@))
    &&& user.user_name@ == json::text_or(json::at2(j, "USER"@, "BLOG_NAME"@), Seq::empty())
}

/// What the service tells about the user of a cookie. An answer that is no object
/// tells nothing.
pub fn user_data(body: &Json) -> (r: Result<UserData, DeezerError>)
    ensures
        match json::at(*body, "results"@) {
            None => r matches Err(e) && api::is_api(e, "Missing 'results' in response"@),
            Some(Json::Object(fields)) => r matches Ok(user) && tells_user(
                Json::Object(fields),
                user,
            ),
            Some(_) => r matches Err(e) && api::is_api(
                e,
                failure("user data"@, "expected an object"@),
            ),
        },
{
    let results: &Json = match gw_results(body) {
        Ok(results) => results,
        Err(e) => {
            return Err(e);
        },
    };
    match results {
        Json::Object(_) => Ok(
            UserData {
                api_token: results.text_at("checkForm"),
                license_token: text_or_empty(results.get3("USER", "OPTIONS", "license_token")),
                user_id: loose_number(results.get2("USER", "USER_ID")),
                user_name: text_or_empty(results.get2("USER", "BLOG_NAME")),
            },
        ),
        _ => Err(unreadable("user data", "expected an object")),
    }
}

// ── Genres and stations ─────────────────────────────────────────────

/// Reads a genre: an entry with an id and a name.
pub struct Genre;

impl JsonReader for Genre {
    type Item = GenreData;

    open spec fn readable(j: Json) -> bool {
        json::as_count(json::at(j, "id"@)) is Some && json::as_text(json::at(j, "name"@)) is Some
    }

    open spec fn says(j: Json, item: GenreData) -> bool {
        &&& json::as_count(json::at(j, "id"@)) == Some(item.id)
        &&& json::as_text(json::at(j, "name"@)) == Some(item.name@)
    }

    fn read(j: &Json) -> (r: Option<GenreData>) {
        match (count_of(j.get("id")), text_of_value(j.get("name"))) {
            (Some(id), Some(name)) => Some(GenreData { id, name }),
            _ => None,
        }
    }
}

/// Reads a station: an entry with an id and a title.
pub struct Station;

impl JsonReader for Station {
    type Item = RadioData;

    open spec fn readable(j: Json) -> bool {
        json::as_count(json::at(j, "id"@)) is Some && json::as_text(json::at(j, "title"@)) is Some
    }

    open spec fn says(j: Json, item: RadioData) -> bool {
        &&& json::as_count(json::at(j, "id"@)) == Some(item.id)
        &&& json::as_text(json::at(j, "title"@)) == Some(item.title@)
    }

    fn read(j: &Json) -> (r: Option<RadioData>) {
        match (count_of(j.get("id")), text_of_value(j.get("title"))) {
            (Some(id), Some(title)) => Some(RadioData { id, title }),
            _ => None,
        }
    }
}

/// The genres are those of the list that can be read, without the one that stands
/// for all.
pub open spec fn lists_genres(list: Seq<Json>, found: Seq<GenreData>) -> bool {
    exists|all: Seq<GenreData>| #[trigger]
        json::read_from::<Genre>(list, all) && found == all.filter(gateway::real_genre())
}

/// The genres of an answer that can be read, without the one that stands for all.
pub fn genres(resp: &Json) -> (r: Result<Vec<GenreData>, DeezerError>)
    ensures
        match r {
            Ok(found) => json::as_list(json::at(*resp, "data"@)) matches Some(list) && lists_genres(
                list,
                found@,
            ),
            Err(e) => json::as_list(json::at(*resp, "data"@)) is None && api::is_api(
                e,
                gateway::no_data("genres response"@),
            ),
        },
{
    match list_in(resp, "genres response") {
        Ok(list) => {
            let all: Vec<GenreData> = read_list::<Genre>(list);
            let ghost read = all@;
            let found: Vec<GenreData> = real_genres(all);
            proof {
                assert(json::read_from::<Genre>(list@, read));
                assert(lists_genres(list@, found@));
            }
            Ok(found)
        },
        Err(e) => Err(e),
    }
}

/// The stations of an answer that can be read.
pub fn stations(resp: &Json) -> (r: Result<Vec<RadioData>, DeezerError>)
    ensures
        match r {
            Ok(found) => json::as_list(json::at(*resp, "data"@)) matches Some(list)
                && json::read_from::<Station>(list, found@),
            Err(e) => json::as_list(json::at(*resp, "data"@)) is None && api::is_api(
                e,
                gateway::no_data("radios response"@),
            ),
        },
{
    match list_in(resp, "radios response") {
        Ok(list) => Ok(read_list::<Station>(list)),
        Err(e) => Err(e),
    }
}

/// The stations of a genre; none where the answer lists none.
pub fn genre_stations(resp: &Json) -> (r: Vec<RadioData>)
    ensures
        json::read_from::<Station>(json::list_or_empty(json::at(*resp, "data"@)), r@),
{
    read_optional::<Station>(resp.get("data"))
}

// ── Podcasts ────────────────────────────────────────────────────────

/// A podcast.
#[derive(Debug)]
pub struct PodcastData {
    pub show_id: String,
    pub name: String,
}

/// An episode of a podcast.
#[derive(Debug)]
pub struct EpisodeData {
    pub episode_id: String,
    pub title: String,
    pub show_name: String,
    /// Length in seconds.
    pub duration: u64,
    /// Hash naming the podcast's picture.
    pub show_picture: String,
    pub track_token: Option<String>,
    /// Address of the unencrypted stream, where there is one.
    pub stream_url: Option<String>,
}

/// Another user of the service.
#[derive(Debug)]
pub struct ProfileData {
    pub name: String,
}

/// An episode plays as this track.
pub open spec fn plays_as(e: EpisodeData, t: TrackData) -> bool {
    &&& t.track_id == e.episode_id
    &&& t.title == e.title
    &&& t.artist == e.show_name
    &&& t.album == e.show_name
    &&& t.duration == e.duration
    &&& t.album_picture == e.show_picture
    &&& t.artist_id is None
    &&& t.album_id is None
    &&& t.track_token == e.track_token
    &&& t.md5_origin@.len() == 0
    &&& t.stream_url == e.stream_url
    &&& t.fallback_id is None
}

impl EpisodeData {
    /// The episode as a track, so that it plays like one.
    pub fn to_track(&self) -> (r: TrackData)
        ensures
            plays_as(*self, r),
    {
        TrackData {
            track_id: self.episode_id.clone(),
            title: self.title.clone(),
            artist: self.show_name.clone(),
            album: self.show_name.clone(),
            duration: self.duration,
            album_picture: self.show_picture.clone(),
            artist_id: None,
            album_id: None,
            track_token: self.track_token.clone(),
            md5_origin: String::new(),
            stream_url: self.stream_url.clone(),
            fallback_id: None,
        }
    }
}

/// The page of a podcast, with its episodes in the order in which they are given.
pub fn show_page(show_id: &str, res: &Json, episodes: &Vec<EpisodeData>) -> (r: PlaylistDetail)
    ensures
        r.playlist_id@ == show_id@,
        r.title@ == json::text_or(json::at2(*res, "DATA"@, "SHOW_NAME"@), Seq::empty()),
        r.creator@.len() == 0,
        r.nb_tracks == episodes@.len(),
        r.tracks@.len() == episodes@.len(),
        forall|i: int| 0 <= i < r.tracks@.len() ==> plays_as(episodes@[i], #[trigger] r.tracks@[i]),
{
    let n: usize = episodes.len();
    let mut tracks: Vec<TrackData> = Vec::new();
    let mut i: usize = 0;
    while i < n
        invariant
            i <= n,
            n == episodes@.len(),
            tracks@.len() == i,
            forall|k: int| 0 <= k < i ==> plays_as(episodes@[k], #[trigger] tracks@[k]),
        decreases n - i,
    {
        tracks.push(episodes[i].to_track());
        i = i + 1;
    }
    PlaylistDetail {
        playlist_id: owned(show_id),
        title: text_or_empty(res.get2("DATA", "SHOW_NAME")),
        creator: String::new(),
        nb_tracks: n as u64,
        tracks,
    }
}

// ── Rows of a search ────────────────────────────────────────────────

/// The row of a podcast.
pub fn podcast_row(podcast: PodcastData) -> (r: DisplayItem)
    ensures
        r@ == (DisplayItemView {
            show_id: Some(podcast.show_id@),
            ..gateway::bare_row(podcast.name@, Seq::empty(), Seq::empty(), Seq::empty())
        }),
{
    DisplayItem {
        show_id: Some(podcast.show_id),
        ..make_row(podcast.name, String::new(), String::new(), String::new())
    }
}

/// The row of an episode, which plays it.
pub fn episode_row(episode: &EpisodeData) -> (r: DisplayItem)
    ensures
        r.track matches Some(track) && plays_as(*episode, track) && r@ == models::row_of_track(
            track,
        ),
{
    let track: TrackData = episode.to_track();
    DisplayItem::from_track(&track)
}

/// The row of another user.
pub fn profile_row(profile: ProfileData) -> (r: DisplayItem)
    ensures
        r@ == gateway::bare_row(profile.name@, Seq::empty(), Seq::empty(), Seq::empty()),
{
    make_row(profile.name, String::new(), String::new(), String::new())
}

/// The row of an artist, with the number of fans in words.
pub fn artist_row(artist: ArtistData, fans: String) -> (r: DisplayItem)
    ensures
        r@ == (DisplayItemView {
            artist_id: Some(artist.artist_id@),
            ..gateway::bare_row(artist.name@, fans@, Seq::empty(), Seq::empty())
        }),
{
    DisplayItem {
        artist_id: Some(artist.artist_id),
        ..make_row(artist.name, fans, String::new(), String::new())
    }
}

/// The row of a playlist.
pub fn playlist_row(playlist: PlaylistData) -> (r: DisplayItem)
    ensures
        r@ == (DisplayItemView {
            playlist_id: Some(playlist.playlist_id@),
            ..gateway::bare_row(
                playlist.title@,
                playlist.author@,
                text::decimal_of(playlist.nb_songs as nat),
                Seq::empty(),
            )
        }),
{
    let count: String = decimal(playlist.nb_songs);
    DisplayItem {
        playlist_id: Some(playlist.playlist_id),
        ..make_row(playlist.title, playlist.author, count, String::new())
    }
}

} // verus!
