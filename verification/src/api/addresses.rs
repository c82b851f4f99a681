//! Addresses of the service's interfaces, and the queries that name what is wanted.

use vstd::prelude::*;

use crate::text;
use crate::text::{decimal, owned, push_text};

verus! {

/// A call of the gateway, with its token.
pub fn gateway_url(method: &str, api_token: &str) -> (r: String)
    ensures
        r@ == "https://www.deezer.com/ajax/gw-light.php?method="@ + method@ + "&input=3&api_version=1.0&api_token="@ + api_token@,
{
    let mut r: String = owned("https://www.deezer.com/ajax/gw-light.php?method=");
    push_text(&mut r, method);
    push_text(&mut r, "&input=3&api_version=1.0&api_token=");
    push_text(&mut r, api_token);
    r
}

/// The user of a cookie. It needs no token.
pub fn user_data_url() -> (r: String)
    ensures
        r@ == "https://www.deezer.com/ajax/gw-light.php?method=deezer.getUserData&input=3&api_version=1.0&api_token="@,
{
    owned("https://www.deezer.com/ajax/gw-light.php?method=deezer.getUserData&input=3&api_version=1.0&api_token=")
}

/// The cookie that logs a user in.
pub fn login_cookie(arl: &str) -> (r: String)
    ensures
        r@ == "arl="@ + arl@ + "; Domain=.deezer.com; Path=/"@,
{
    let mut r: String = owned("arl=");
    push_text(&mut r, arl);
    push_text(&mut r, "; Domain=.deezer.com; Path=/");
    r
}

/// The profiles that a user follows.
pub fn followings_url(user_id: u64) -> (r: String)
    ensures
        r@ == "https://api.deezer.com/user/"@ + text::decimal_of(user_id as nat) + "/followings?limit=2000"@,
{
    let mut r: String = owned("https://api.deezer.com/user/");
    let id: String = decimal(user_id);
    push_text(&mut r, &id);
    push_text(&mut r, "/followings?limit=2000");
    r
}

/// An album.
pub fn album_url(album_id: &str) -> (r: String)
    ensures
        r@ == "https://api.deezer.com/album/"@ + album_id@,
{
    let mut r: String = owned("https://api.deezer.com/album/");
    push_text(&mut r, album_id);
    r
}

/// An artist.
pub fn artist_url(artist_id: &str) -> (r: String)
    ensures
        r@ == "https://api.deezer.com/artist/"@ + artist_id@,
{
    let mut r: String = owned("https://api.deezer.com/artist/");
    push_text(&mut r, artist_id);
    r
}

/// The top tracks of an artist.
pub fn artist_top_url(artist_id: &str) -> (r: String)
    ensures
        r@ == "https://api.deezer.com/artist/"@ + artist_id@ + "/top?limit=50"@,
{
    let mut r: String = owned("https://api.deezer.com/artist/");
    push_text(&mut r, artist_id);
    push_text(&mut r, "/top?limit=50");
    r
}

/// The records of an artist.
pub fn artist_albums_url(artist_id: &str) -> (r: String)
    ensures
        r@ == "https://api.deezer.com/artist/"@ + artist_id@ + "/albums?limit=500"@,
{
    let mut r: String = owned("https://api.deezer.com/artist/");
    push_text(&mut r, artist_id);
    push_text(&mut r, "/albums?limit=500");
    r
}

/// Artists that are like an artist.
pub fn artist_related_url(artist_id: &str) -> (r: String)
    ensures
        r@ == "https://api.deezer.com/artist/"@ + artist_id@ + "/related?limit=50"@,
{
    let mut r: String = owned("https://api.deezer.com/artist/");
    push_text(&mut r, artist_id);
    push_text(&mut r, "/related?limit=50");
    r
}

/// The chart of a genre.
pub fn chart_url(genre_id: u64) -> (r: String)
    ensures
        r@ == "https://api.deezer.com/chart/"@ + text::decimal_of(genre_id as nat),
{
    let mut r: String = owned("https://api.deezer.com/chart/");
    let id: String = decimal(genre_id);
    push_text(&mut r, &id);
    r
}

/// The stations of a genre.
pub fn genre_radios_url(genre_id: u64) -> (r: String)
    ensures
        r@ == "https://api.deezer.com/genre/"@ + text::decimal_of(genre_id as nat) + "/radios"@,
{
    let mut r: String = owned("https://api.deezer.com/genre/");
    let id: String = decimal(genre_id);
    push_text(&mut r, &id);
    push_text(&mut r, "/radios");
    r
}

/// The tracks of a station.
pub fn radio_tracks_url(radio_id: u64) -> (r: String)
    ensures
        r@ == "https://api.deezer.com/radio/"@ + text::decimal_of(radio_id as nat) + "/tracks"@,
{
    let mut r: String = owned("https://api.deezer.com/radio/");
    let id: String = decimal(radio_id);
    push_text(&mut r, &id);
    push_text(&mut r, "/tracks");
    r
}

/// The query for artists by their ids.
pub fn artists_query() -> (r: &'static str)
    ensures
        r@ == "query ArtistById($ids: [String!]!) { artistsByIds(ids: $ids) { id name fansCount } }"@,
{
    "query ArtistById($ids: [String!]!) { artistsByIds(ids: $ids) { id name fansCount } }"
}

/// The query for albums by their ids.
pub fn albums_query() -> (r: &'static str)
    ensures
        r@
            == "query AlbumsById($ids: [String!]!) { albumsByIds(ids: $ids) { id displayTitle contributors { edges { node { ... on Artist { name } } } } releaseDate } }"@,
{
    "query AlbumsById($ids: [String!]!) { albumsByIds(ids: $ids) { id displayTitle contributors { edges { node { ... on Artist { name } } } } releaseDate } }"
}

/// The query for playlists by their ids.
pub fn playlists_query() -> (r: &'static str)
    ensures
        r@
            == "query PlaylistById($ids: [String!]!) { playlistsByIds(ids: $ids) { id title estimatedTracksCount owner { name } } }"@,
{
    "query PlaylistById($ids: [String!]!) { playlistsByIds(ids: $ids) { id title estimatedTracksCount owner { name } } }"
}

/// The query for the ids of the user's playlists.
pub fn playlist_ids_query() -> (r: &'static str)
    ensures
        r@ == "{ me { rawPlaylists { id } } }"@,
{
    "{ me { rawPlaylists { id } } }"
}

/// The query for the moods that the service offers.
pub fn moods_query() -> (r: &'static str)
    ensures
        r@ == "{ me { flowConfigs { moods { edges { node { id title } } } } } }"@,
{
    "{ me { flowConfigs { moods { edges { node { id title } } } } } }"
}

/// The query for the ids of what the user has marked, of one kind.
pub fn favorite_ids_query(field: &str) -> (r: String)
    ensures
        r@ == "{ me { userFavorites { "@ + field@ + " { id } } } }"@,
{
    let mut r: String = owned("{ me { userFavorites { ");
    push_text(&mut r, field);
    push_text(&mut r, " { id } } } }");
    r
}

} // verus!
