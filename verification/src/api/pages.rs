//! The pages of albums, artists, playlists and genres, put together from the
//! service's answers.

use vstd::prelude::*;

use crate::api;
use crate::api::gateway::NumberId;
use crate::api::json;
use crate::api::json::{
    count_of, first_present, list_of, read_optional, text_or_empty, value_u64, Json, JsonReader,
};
use crate::api::sorting;
use crate::api::sorting::rank_order;
use crate::api::{api_error, DeezerError};
use crate::models::{
    AlbumData, AlbumDetail, ArtistAlbumEntry, ArtistData, ArtistDetail, GenreDetail, PlaylistData,
    PlaylistDetail, RadioData, SimilarArtistEntry, TrackData,
};
use crate::text;
use crate::text::{decimal, owned};

verus! {

/// The text of the error that a public answer reports; `unknown` where it has no
/// words.
pub open spec fn public_error_text(resp: Json, unknown: Seq<char>) -> Option<Seq<char>> {
    match json::at(resp, "error"@) {
        Some(err) => Some(json::text_or(json::at(err, "message"@), unknown)),
        None => None,
    }
}

/// The error that a public answer reports.
pub fn public_error(resp: &Json, unknown: &str) -> (r: Option<DeezerError>)
    ensures
        match r {
            Some(e) => public_error_text(*resp, unknown@) matches Some(msg) && api::is_api(e, msg),
            None => public_error_text(*resp, unknown@) is None,
        },
{
    match resp.get("error") {
        Some(err) => match err.get("message") {
            Some(Json::Str(msg)) => Some(DeezerError::Api(msg.clone())),
            _ => Some(api_error(unknown)),
        },
        None => None,
    }
}

/// The first of three pictures that is there.
pub open spec fn picture(j: Json, a: Seq<char>, b: Seq<char>, c: Seq<char>) -> Seq<char> {
    json::text_or(
        json::either(json::either(json::at(j, a), json::at(j, b)), json::at(j, c)),
        Seq::empty(),
    )
}

/// The first of three pictures that is there.
fn read_picture(j: &Json, a: &str, b: &str, c: &str) -> (r: String)
    ensures
        r@ == picture(*j, a@, b@, c@),
{
    text_or_empty(first_present(first_present(j.get(a), j.get(b)), j.get(c)))
}

// ── Albums ──────────────────────────────────────────────────────────

/// The ids of an album's tracks.
pub fn album_track_ids(resp: &Json) -> (r: Vec<String>)
    ensures
        json::read_from::<NumberId>(
            json::list_or_empty(json::at2(*resp, "tracks"@, "data"@)),
            r@,
        ),
{
    read_optional::<NumberId>(resp.get2("tracks", "data"))
}

/// An album's page.
pub fn album_page(album_id: &str, resp: &Json, tracks: Vec<TrackData>) -> (r: AlbumDetail)
    ensures
        r.album_id@ == album_id@,
        r.title@ == json::text_at(*resp, "title"@),
        r.artist@ == json::text_or(json::at2(*resp, "artist"@, "name"@), Seq::empty()),
        r.nb_tracks == json::count_at(*resp, "nb_tracks"@),
        r.release_date@ == json::text_at(*resp, "release_date"@),
        r.cover_url@ == picture(*resp, "cover_xl"@, "cover_big"@, "cover_medium"@),
        r.label@ == json::text_at(*resp, "label"@),
        r.tracks@ == tracks@,
{
    AlbumDetail {
        album_id: owned(album_id),
        title: resp.text_at("title"),
        artist: text_or_empty(resp.get2("artist", "name")),
        nb_tracks: resp.count_at("nb_tracks"),
        release_date: resp.text_at("release_date"),
        cover_url: read_picture(resp, "cover_xl", "cover_big", "cover_medium"),
        label: resp.text_at("label"),
        tracks,
    }
}

// ── Artists ─────────────────────────────────────────────────────────

/// The ids of an artist's top tracks.
pub fn top_track_ids(resp: &Json) -> (r: Vec<String>)
    ensures
        json::read_from::<NumberId>(json::list_or_empty(json::at(*resp, "data"@)), r@),
{
    read_optional::<NumberId>(resp.get("data"))
}

/// The decimal text of a field's number; empty where there is none.
pub open spec fn number_text(j: Json, key: Seq<char>) -> Seq<char> {
    match json::as_count(json::at(j, key)) {
        Some(n) => text::decimal_of(n as nat),
        None => Seq::empty(),
    }
}

/// The decimal text of a field's number; empty where there is none.
fn read_number_text(j: &Json, key: &str) -> (r: String)
    ensures
        r@ == number_text(*j, key@),
{
    match count_of(j.get(key)) {
        Some(n) => decimal(n),
        None => String::new(),
    }
}

/// Reads a record of an artist.
pub struct ArtistRecord;

impl JsonReader for ArtistRecord {
    type Item = ArtistAlbumEntry;

    open spec fn readable(j: Json) -> bool {
        true
    }

    open spec fn says(j: Json, item: ArtistAlbumEntry) -> bool {
        &&& item.album_id@ == number_text(j, "id"@)
        &&& item.title@ == json::text_at(j, "title"@)
        &&& item.release_date@ == json::text_at(j, "release_date"@)
        &&& item.fans == json::count_at(j, "fans"@)
        &&& item.record_type@ == json::text_or(json::at(j, "record_type"@), "album"@)
        &&& item.cover_url@ == picture(j, "cover_xl"@, "cover_big"@, "cover_medium"@)
    }

    fn read(j: &Json) -> (r: Option<ArtistAlbumEntry>) {
        let record_type: String = match j.get("record_type") {
            Some(Json::Str(s)) => s.clone(),
            _ => owned("album"),
        };
        Some(
            ArtistAlbumEntry {
                album_id: read_number_text(j, "id"),
                title: j.text_at("title"),
                release_date: j.text_at("release_date"),
                fans: j.count_at("fans"),
                record_type,
                cover_url: read_picture(j, "cover_xl", "cover_big", "cover_medium"),
            },
        )
    }
}

/// Reads an artist who is like another one.
pub struct RelatedArtist;

impl JsonReader for RelatedArtist {
    type Item = SimilarArtistEntry;

    open spec fn readable(j: Json) -> bool {
        true
    }

    open spec fn says(j: Json, item: SimilarArtistEntry) -> bool {
        &&& item.artist_id@ == number_text(j, "id"@)
        &&& item.name@ == json::text_at(j, "name"@)
        &&& item.nb_fan == json::count_at(j, "nb_fan"@)
    }

    fn read(j: &Json) -> (r: Option<SimilarArtistEntry>) {
        Some(
            SimilarArtistEntry {
                artist_id: read_number_text(j, "id"),
                name: j.text_at("name"),
                nb_fan: j.count_at("nb_fan"),
            },
        )
    }
}

/// The release dates of records.
pub open spec fn dates_of(s: Seq<ArtistAlbumEntry>) -> Seq<String> {
    s.map_values(|a: ArtistAlbumEntry| a.release_date)
}

/// The records of an artist, the newest first.
pub fn newest_first(records: Vec<ArtistAlbumEntry>) -> (r: Vec<ArtistAlbumEntry>)
    ensures
        sorting::sorted_from(dates_of(records@), records@, r@),
{
    let n: usize = records.len();
    let mut dates: Vec<String> = Vec::new();
    let mut i: usize = 0;
    while i < n
        invariant
            i <= n,
            n == records@.len(),
            dates@ =~= dates_of(records@).take(i as int),
        decreases n - i,
    {
        dates.push(records[i].release_date.clone());
        i = i + 1;
    }
    proof {
        assert(dates@ =~= dates_of(records@));
    }
    let order: Vec<usize> = rank_order(&dates);
    let mut out: Vec<ArtistAlbumEntry> = Vec::new();
    let mut k: usize = 0;
    while k < n
        invariant
            k <= n,
            n == records@.len(),
            sorting::in_order(dates_of(records@), order@),
            out@.len() == k,
            forall|j: int| 0 <= j < k ==> #[trigger] out@[j] == records@[order@[j] as int],
        decreases n - k,
    {
        assert(order@[k as int] < n);
        out.push(records[order[k]].clone());
        k = k + 1;
    }
    proof {
        assert(sorting::sorted_from(dates_of(records@), records@, out@));
    }
    out
}

/// An artist's page. Its records come newest first.
pub fn artist_page(
    artist_id: &str,
    resp: &Json,
    top_tracks: Vec<TrackData>,
    albums_resp: &Json,
    related_resp: &Json,
) -> (r: ArtistDetail)
    ensures
        r.artist_id@ == artist_id@,
        r.name@ == json::text_at(*resp, "name"@),
        r.nb_fan == json::count_at(*resp, "nb_fan"@),
        r.picture_url@ == picture(*resp, "picture_big"@, "picture_medium"@, "picture_small"@),
        r.top_tracks@ == top_tracks@,
        exists|records: Seq<ArtistAlbumEntry>| #[trigger]
            json::read_from::<ArtistRecord>(
                json::list_or_empty(json::at(*albums_resp, "data"@)),
                records,
            ) && sorting::sorted_from(dates_of(records), records, r.albums@),
        json::read_from::<RelatedArtist>(
            json::list_or_empty(json::at(*related_resp, "data"@)),
            r.similar_artists@,
        ),
{
    let records: Vec<ArtistAlbumEntry> = read_optional::<ArtistRecord>(albums_resp.get("data"));
    let ghost read = records@;
    let albums: Vec<ArtistAlbumEntry> = newest_first(records);
    let similar_artists: Vec<SimilarArtistEntry> = read_optional::<RelatedArtist>(
        related_resp.get("data"),
    );
    proof {
        assert(json::read_from::<ArtistRecord>(
            json::list_or_empty(json::at(*albums_resp, "data"@)),
            read,
        ));
    }
    ArtistDetail {
        artist_id: owned(artist_id),
        name: resp.text_at("name"),
        nb_fan: resp.count_at("nb_fan"),
        picture_url: read_picture(resp, "picture_big", "picture_medium", "picture_small"),
        top_tracks,
        albums,
        similar_artists,
    }
}

// ── Playlists ───────────────────────────────────────────────────────

/// The page of a playlist. Its track count comes as a number or as a text; where
/// it is missing, the tracks are counted.
pub fn playlist_page(playlist_id: &str, res: &Json, tracks: Vec<TrackData>) -> (r: PlaylistDetail)
    ensures
        r.playlist_id@ == playlist_id@,
        r.title@ == json::text_or(json::at2(*res, "DATA"@, "TITLE"@), Seq::empty()),
        r.creator@ == json::text_or(json::at2(*res, "DATA"@, "PARENT_USERNAME"@), Seq::empty()),
        r.nb_tracks == (match json::loose_count(json::at2(*res, "DATA"@, "NB_SONG"@)) {
            Some(n) => n,
            None => tracks@.len() as u64,
        }),
        r.tracks@ == tracks@,
{
    let nb_tracks: u64 = match value_u64(res.get2("DATA", "NB_SONG")) {
        Some(n) => n,
        None => tracks.len() as u64,
    };
    PlaylistDetail {
        playlist_id: owned(playlist_id),
        title: text_or_empty(res.get2("DATA", "TITLE")),
        creator: text_or_empty(res.get2("DATA", "PARENT_USERNAME")),
        nb_tracks,
        tracks,
    }
}

// ── Genres ──────────────────────────────────────────────────────────

/// Reads an album of a chart.
pub struct ChartAlbum;

impl JsonReader for ChartAlbum {
    type Item = AlbumData;

    open spec fn readable(j: Json) -> bool {
        json::as_count(json::at(j, "id"@)) is Some
    }

    open spec fn says(j: Json, item: AlbumData) -> bool {
        &&& item.album_id@ == number_text(j, "id"@)
        &&& item.title@ == json::text_at(j, "title"@)
        &&& item.artist@ == json::text_or(json::at2(j, "artist"@, "name"@), Seq::empty())
        &&& item.nb_tracks == json::count_at(j, "nb_tracks"@)
        &&& item.release_date@.len() == 0
        &&& item.nb_fan == 0
    }

    fn read(j: &Json) -> (r: Option<AlbumData>) {
        match count_of(j.get("id")) {
            Some(id) => Some(
                AlbumData {
                    album_id: decimal(id),
                    title: j.text_at("title"),
                    artist: text_or_empty(j.get2("artist", "name")),
                    nb_tracks: j.count_at("nb_tracks"),
                    release_date: String::new(),
                    nb_fan: 0,
                },
            ),
            None => None,
        }
    }
}

/// Reads a playlist of a chart.
pub struct ChartPlaylist;

impl JsonReader for ChartPlaylist {
    type Item = PlaylistData;

    open spec fn readable(j: Json) -> bool {
        json::as_count(json::at(j, "id"@)) is Some
    }

    open spec fn says(j: Json, item: PlaylistData) -> bool {
        &&& item.playlist_id@ == number_text(j, "id"@)
        &&& item.title@ == json::text_at(j, "title"@)
        &&& item.nb_songs == json::count_at(j, "nb_tracks"@)
        &&& item.author@ == json::text_or(json::at2(j, "user"@, "name"@), Seq::empty())
        &&& !item.collaborative
    }

    fn read(j: &Json) -> (r: Option<PlaylistData>) {
        match count_of(j.get("id")) {
            Some(id) => Some(
                PlaylistData {
                    playlist_id: decimal(id),
                    title: j.text_at("title"),
                    nb_songs: j.count_at("nb_tracks"),
                    author: text_or_empty(j.get2("user", "name")),
                    collaborative: false,
                },
            ),
            None => None,
        }
    }
}

/// The id of an album's artist.
pub open spec fn album_artist(j: Json) -> Option<u64> {
    json::as_count(json::at2(j, "artist"@, "id"@))
}

/// The artists of a list of albums, each one once, where it first comes up: its id
/// and its name.
pub open spec fn artists_of(albums: Seq<Json>) -> Seq<(u64, Seq<char>)>
    decreases albums.len(),
{
    if albums.len() == 0 {
        Seq::empty()
    } else {
        let rest = artists_of(albums.drop_last());
        match album_artist(albums.last()) {
            Some(id) => if met(rest, id) {
                rest
            } else {
                rest.push((id, json::text_or(json::at2(albums.last(), "artist"@, "name"@), Seq::empty())))
            },
            None => rest,
        }
    }
}

/// An artist came up already.
pub open spec fn met(s: Seq<(u64, Seq<char>)>, id: u64) -> bool {
    exists|i: int| 0 <= i < s.len() && (#[trigger] s[i]).0 == id
}

/// The artists that are listed are these.
pub open spec fn lists_artists(v: Seq<ArtistData>, s: Seq<(u64, Seq<char>)>) -> bool {
    &&& v.len() == s.len()
    &&& forall|i: int|
        0 <= i < v.len() ==> {
            &&& (#[trigger] v[i]).artist_id@ == text::decimal_of(s[i].0 as nat)
            &&& v[i].name@ == s[i].1
            &&& v[i].nb_fan == 0
        }
}

/// The artists of a list of albums, each one once.
pub fn album_artists(albums: &Vec<Json>) -> (r: Vec<ArtistData>)
    ensures
        lists_artists(r@, artists_of(albums@)),
{
    let n: usize = albums.len();
    let mut seen: Vec<u64> = Vec::new();
    let mut out: Vec<ArtistData> = Vec::new();
    let mut i: usize = 0;
    proof {
        assert(albums@.take(0) =~= Seq::empty());
    }
    while i < n
        invariant
            i <= n,
            n == albums@.len(),
            lists_artists(out@, artists_of(albums@.take(i as int))),
            seen@.len() == out@.len(),
            forall|k: int|
                0 <= k < seen@.len() ==> #[trigger] seen@[k] == artists_of(albums@.take(i as int))[k].0,
        decreases n - i,
    {
        let ghost known = artists_of(albums@.take(i as int));
        proof {
            assert(albums@.take(i + 1).drop_last() =~= albums@.take(i as int));
            assert(albums@.take(i + 1).last() == albums@[i as int]);
        }
        match count_of(albums[i].get2("artist", "id")) {
            Some(id) => {
                if !among(&seen, id) {
                    proof {
                        if met(known, id) {
                            let k = choose|k: int| 0 <= k < known.len() && (#[trigger] known[k]).0 == id;
                            assert(seen@[k] == id);
                        }
                    }
                    seen.push(id);
                    out.push(
                        ArtistData {
                            artist_id: decimal(id),
                            name: text_or_empty(albums[i].get2("artist", "name")),
                            nb_fan: 0,
                        },
                    );
                } else {
                    proof {
                        let k = choose|k: int| 0 <= k < seen@.len() && seen@[k] == id;
                        assert(known[k].0 == id);
                    }
                }
            },
            None => {},
        }
        i = i + 1;
    }
    proof {
        assert(albums@.take(n as int) =~= albums@);
    }
    out
}

/// Whether a number is listed.
fn among(list: &Vec<u64>, x: u64) -> (r: bool)
    ensures
        r == list@.contains(x),
{
    let n: usize = list.len();
    let mut i: usize = 0;
    while i < n
        invariant
            i <= n,
            n == list@.len(),
            forall|k: int| 0 <= k < i ==> list@[k] != x,
        decreases n - i,
    {
        if list[i] == x {
            assert(list@[i as int] == x);
            return true;
        }
        i = i + 1;
    }
    false
}

/// Every artist of the albums is listed, and listed once.
pub proof fn artists_are_listed_once(albums: Seq<Json>)
    ensures
        forall|i: int, j: int|
            0 <= i < j < artists_of(albums).len() ==> artists_of(albums)[i].0 != artists_of(
                albums,
            )[j].0,
        forall|k: int|
            0 <= k < albums.len() && album_artist(#[trigger] albums[k]) is Some ==> met(
                artists_of(albums),
                album_artist(albums[k])->0,
            ),
    decreases albums.len(),
{
    if albums.len() > 0 {
        let rest = albums.drop_last();
        artists_are_listed_once(rest);
        let known = artists_of(rest);
        let now = artists_of(albums);
        assert forall|k: int|
            0 <= k < albums.len() && album_artist(#[trigger] albums[k]) is Some implies met(
            now,
            album_artist(albums[k])->0,
        ) by {
            let id = album_artist(albums[k])->0;
            if k < rest.len() {
                assert(rest[k] == albums[k]);
                let i = choose|i: int| 0 <= i < known.len() && (#[trigger] known[i]).0 == id;
                assert(now[i] == known[i]);
            } else if !met(known, id) {
                assert(now[known.len() as int].0 == id);
            }
        }
        assert forall|i: int, j: int| 0 <= i < j < now.len() implies now[i].0 != now[j].0 by {
            if j < known.len() {
                assert(now[i] == known[i] && now[j] == known[j]);
            } else {
                assert(now[i] == known[i]);
            }
        }
    }
}

/// The ids of a chart's tracks.
pub fn chart_track_ids(chart: &Json) -> (r: Vec<String>)
    ensures
        json::read_from::<NumberId>(
            json::list_or_empty(json::at2(*chart, "tracks"@, "data"@)),
            r@,
        ),
{
    read_optional::<NumberId>(chart.get2("tracks", "data"))
}

/// A genre's page. The chart's own artists are those of all genres, so they are
/// taken from its albums.
pub fn genre_page(
    genre_id: u64,
    name: String,
    chart: &Json,
    tracks: Vec<TrackData>,
    radios: Vec<RadioData>,
) -> (r: GenreDetail)
    ensures
        r.genre_id == genre_id,
        r.name == name,
        r.tracks@ == tracks@,
        r.radios@ == radios@,
        json::read_from::<ChartAlbum>(
            json::list_or_empty(json::at2(*chart, "albums"@, "data"@)),
            r.albums@,
        ),
        lists_artists(
            r.artists@,
            artists_of(json::list_or_empty(json::at2(*chart, "albums"@, "data"@))),
        ),
        json::read_from::<ChartPlaylist>(
            json::list_or_empty(json::at2(*chart, "playlists"@, "data"@)),
            r.playlists@,
        ),
{
    let albums: Vec<AlbumData> = read_optional::<ChartAlbum>(chart.get2("albums", "data"));
    let artists: Vec<ArtistData> = match list_of(chart.get2("albums", "data")) {
        Some(list) => album_artists(list),
        None => Vec::new(),
    };
    let playlists: Vec<PlaylistData> = read_optional::<ChartPlaylist>(
        chart.get2("playlists", "data"),
    );
    GenreDetail { genre_id, name, tracks, albums, artists, playlists, radios }
}

} // verus!
