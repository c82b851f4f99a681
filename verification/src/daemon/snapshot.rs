//! What a client is shown of the player.

use vstd::prelude::*;

use crate::daemon::{Daemon, DaemonView};
use crate::models;
use crate::models::{AlbumDetail, ArtistDetail, GenreDetail, PlaylistDetail};
use crate::protocol::DaemonSnapshot;
use crate::seqs;
use crate::seqs::HasId;
use crate::storage;

verus! {

/// A snapshot shows what the player holds.
pub open spec fn shows(s: DaemonSnapshot, d: DaemonView) -> bool {
    &&& s.screen == d.screen
    &&& s.active_tab == d.active_tab
    &&& s.status == d.player.status
    &&& s.current_track == d.player.current_track
    &&& s.quality == d.player.quality
    &&& s.position_secs == d.player.position_secs
    &&& s.duration_secs == d.player.duration_secs
    &&& s.volume == d.player.volume
    &&& s.shuffle == d.player.shuffle
    &&& s.repeat == d.player.repeat
    &&& s.queue@ == d.player.queue
    &&& s.queue_index == d.player.queue_index
    &&& s.search_results@ == d.search.results
    &&& s.search_selected == d.search.selected
    &&& s.search_loading == d.search.loading
    &&& s.search_category == d.search.category
    &&& models::rows_of(s.search_display@) == d.search.display
    &&& models::rows_of(s.new_releases@) == d.explore.new_releases
    &&& s.new_releases_selected == d.explore.new_releases_selected
    &&& s.new_releases_loading == d.explore.new_releases_loading
    &&& s.favorites@ == d.fav.tracks
    &&& s.favorites_selected == d.fav.selected
    &&& s.favorites_loading == d.fav.loading
    &&& s.favorites_category == d.fav.category
    &&& models::rows_of(s.favorites_display@) == d.fav.display
    &&& s.favorite_track_ids@ == d.fav.track_ids
    &&& s.favorite_artist_ids@ == d.fav.artist_ids
    &&& s.favorite_album_ids@ == d.fav.album_ids
    &&& s.offline_category == d.offline.category
    &&& s.offline_tracks@ == d.offline.index.standalone()
    &&& seqs::views(s.offline_albums@) == d.offline.index.albums
    &&& seqs::views(s.offline_playlists@) == d.offline.index.playlists
    &&& s.offline_selected == d.offline.selected
    &&& s.offline_loading == d.offline.loading
    &&& s.offline_track_ids@ == models::ids_of(storage::plain_tracks(d.offline.index.tracks))
    &&& s.explore_category == d.explore.category
    &&& s.radios@ == d.explore.radios
    &&& s.radios_selected == d.explore.radios_selected
    &&& s.radios_loading == d.explore.radios_loading
    &&& s.moods@ == d.explore.moods
    &&& s.moods_selected == d.explore.moods_selected
    &&& s.moods_loading == d.explore.moods_loading
    &&& s.genres@ == d.explore.genres
    &&& s.genres_selected == d.explore.genres_selected
    &&& s.genres_loading == d.explore.genres_loading
    &&& s.playlists@ == d.playlists
    &&& seqs::opt_view(s.album_detail) == d.pages.album
    &&& s.album_detail_selected == d.pages.album_selected
    &&& s.album_detail_loading == d.pages.album_loading
    &&& seqs::opt_view(s.artist_detail) == d.pages.artist
    &&& s.artist_detail_selected == d.pages.artist_selected
    &&& s.artist_detail_loading == d.pages.artist_loading
    &&& s.artist_detail_sub_tab == d.pages.artist_sub_tab
    &&& seqs::opt_view(s.playlist_detail) == d.pages.playlist
    &&& s.playlist_detail_selected == d.pages.playlist_selected
    &&& s.playlist_detail_loading == d.pages.playlist_loading
    &&& seqs::opt_view(s.genre_detail) == d.pages.genre
    &&& s.genre_detail_loading == d.pages.genre_loading
    &&& s.nav_overlay == d.pages.top
    &&& s.nav_overlay_stack@ == d.pages.below
    &&& seqs::opt_view(s.status_msg) == d.status_msg
    &&& s.login_error == d.login.error
    &&& s.login_loading == d.login.loading
    &&& s.user_name == d.login.user_name
    &&& s.is_offline == d.is_offline
}

fn copied_album(page: &Option<AlbumDetail>) -> (r: Option<AlbumDetail>)
    ensures
        seqs::opt_view(r) == seqs::opt_view(*page),
{
    match page {
        Some(page) => Some(page.clone()),
        None => None,
    }
}

fn copied_artist(page: &Option<ArtistDetail>) -> (r: Option<ArtistDetail>)
    ensures
        seqs::opt_view(r) == seqs::opt_view(*page),
{
    match page {
        Some(page) => Some(page.clone()),
        None => None,
    }
}

fn copied_playlist(page: &Option<PlaylistDetail>) -> (r: Option<PlaylistDetail>)
    ensures
        seqs::opt_view(r) == seqs::opt_view(*page),
{
    match page {
        Some(page) => Some(page.clone()),
        None => None,
    }
}

fn copied_genre(page: &Option<GenreDetail>) -> (r: Option<GenreDetail>)
    ensures
        seqs::opt_view(r) == seqs::opt_view(*page),
{
    match page {
        Some(page) => Some(page.clone()),
        None => None,
    }
}

fn copied_albums(list: &Vec<AlbumDetail>) -> (r: Vec<AlbumDetail>)
    ensures
        seqs::views(r@) == seqs::views(list@),
{
    let n: usize = list.len();
    let mut out: Vec<AlbumDetail> = Vec::new();
    let mut i: usize = 0;
    while i < n
        invariant
            i <= n,
            n == list@.len(),
            out@.len() == i,
            forall|k: int| 0 <= k < i ==> (#[trigger] out@[k])@ == list@[k]@,
        decreases n - i,
    {
        out.push(list[i].clone());
        i = i + 1;
    }
    proof {
        assert(seqs::views(out@) =~= seqs::views(list@));
    }
    out
}

fn copied_playlists(list: &Vec<PlaylistDetail>) -> (r: Vec<PlaylistDetail>)
    ensures
        seqs::views(r@) == seqs::views(list@),
{
    let n: usize = list.len();
    let mut out: Vec<PlaylistDetail> = Vec::new();
    let mut i: usize = 0;
    while i < n
        invariant
            i <= n,
            n == list@.len(),
            out@.len() == i,
            forall|k: int| 0 <= k < i ==> (#[trigger] out@[k])@ == list@[k]@,
        decreases n - i,
    {
        out.push(list[i].clone());
        i = i + 1;
    }
    proof {
        assert(seqs::views(out@) =~= seqs::views(list@));
    }
    out
}

impl Daemon {
    /// What a client is shown.
    pub fn snapshot(&self) -> (r: DaemonSnapshot)
        ensures
            shows(r, self@),
    {
        DaemonSnapshot {
            screen: self.screen,
            active_tab: self.active_tab,
            status: self.player.status,
            current_track: self.player.current_track.clone(),
            quality: self.player.quality,
            position_secs: self.player.position_secs,
            duration_secs: self.player.duration_secs,
            volume: self.player.volume,
            shuffle: self.player.shuffle,
            repeat: self.player.repeat,
            queue: self.player.queue.clone(),
            queue_index: self.player.queue_index,
            search_results: self.search.results.clone(),
            search_selected: self.search.selected,
            search_loading: self.search.loading,
            search_category: self.search.category,
            search_display: self.search.display.clone(),
            new_releases: self.explore.new_releases.clone(),
            new_releases_selected: self.explore.new_releases_selected,
            new_releases_loading: self.explore.new_releases_loading,
            favorites: self.fav.tracks.clone(),
            favorites_selected: self.fav.selected,
            favorites_loading: self.fav.loading,
            favorites_category: self.fav.category,
            favorites_display: self.fav.display.clone(),
            favorite_track_ids: self.fav.track_ids.clone(),
            favorite_artist_ids: self.fav.artist_ids.clone(),
            favorite_album_ids: self.fav.album_ids.clone(),
            offline_category: self.offline.category,
            offline_tracks: self.offline.index.standalone_tracks(),
            offline_albums: copied_albums(&self.offline.index.albums),
            offline_playlists: copied_playlists(&self.offline.index.playlists),
            offline_selected: self.offline.selected,
            offline_loading: self.offline.loading,
            offline_track_ids: self.offline.index.track_ids(),
            explore_category: self.explore.category,
            radios: self.explore.radios.clone(),
            radios_selected: self.explore.radios_selected,
            radios_loading: self.explore.radios_loading,
            moods: self.explore.moods.clone(),
            moods_selected: self.explore.moods_selected,
            moods_loading: self.explore.moods_loading,
            genres: self.explore.genres.clone(),
            genres_selected: self.explore.genres_selected,
            genres_loading: self.explore.genres_loading,
            playlists: self.playlists.clone(),
            album_detail: copied_album(&self.pages.album),
            album_detail_selected: self.pages.album_selected,
            album_detail_loading: self.pages.album_loading,
            artist_detail: copied_artist(&self.pages.artist),
            artist_detail_selected: self.pages.artist_selected,
            artist_detail_loading: self.pages.artist_loading,
            artist_detail_sub_tab: self.pages.artist_sub_tab,
            playlist_detail: copied_playlist(&self.pages.playlist),
            playlist_detail_selected: self.pages.playlist_selected,
            playlist_detail_loading: self.pages.playlist_loading,
            genre_detail: copied_genre(&self.pages.genre),
            genre_detail_loading: self.pages.genre_loading,
            nav_overlay: self.pages.top,
            nav_overlay_stack: self.pages.below.clone(),
            status_msg: self.status_msg.clone(),
            login_error: self.login.error.clone(),
            login_loading: self.login.loading,
            user_name: self.login.user_name.clone(),
            is_offline: self.is_offline,
        }
    }
}

/// What a client is shown of playback is what plays.
pub proof fn clients_see_what_plays(s: DaemonSnapshot, d: DaemonView)
    requires
        shows(s, d),
    ensures
        s.status == d.player.status,
        s.current_track == d.player.current_track,
        s.quality == d.player.quality,
        s.position_secs == d.player.position_secs,
        s.duration_secs == d.player.duration_secs,
        s.volume == d.player.volume,
        s.shuffle == d.player.shuffle,
        s.repeat == d.player.repeat,
        s.queue@ == d.player.queue,
        s.queue_index == d.player.queue_index,
        s.is_offline == d.is_offline,
        s.screen == d.screen,
        s.active_tab == d.active_tab,
        s.login_error == d.login.error,
        s.login_loading == d.login.loading,
        s.user_name == d.login.user_name,
        d.status_msg is Some <==> s.status_msg is Some,
        d.status_msg is Some ==> s.status_msg->0@ == d.status_msg->0,
{
}

/// What a client is shown of the lists is what the player holds: row by row, with
/// the same cursor, category and mark of loading.
pub proof fn clients_see_the_lists(s: DaemonSnapshot, d: DaemonView)
    requires
        shows(s, d),
    ensures
        s.search_results@ == d.search.results,
        s.search_selected == d.search.selected,
        s.search_loading == d.search.loading,
        s.search_category == d.search.category,
        s.search_display@.len() == d.search.display.len(),
        forall|i: int|
            0 <= i < d.search.display.len() ==> (#[trigger] s.search_display@[i])@
                == d.search.display[i],
        s.favorites@ == d.fav.tracks,
        s.favorites_selected == d.fav.selected,
        s.favorites_loading == d.fav.loading,
        s.favorites_category == d.fav.category,
        s.favorites_display@.len() == d.fav.display.len(),
        forall|i: int|
            0 <= i < d.fav.display.len() ==> (#[trigger] s.favorites_display@[i])@
                == d.fav.display[i],
        s.favorite_track_ids@ == d.fav.track_ids,
        s.favorite_artist_ids@ == d.fav.artist_ids,
        s.favorite_album_ids@ == d.fav.album_ids,
        s.playlists@ == d.playlists,
        s.explore_category == d.explore.category,
        s.new_releases@.len() == d.explore.new_releases.len(),
        forall|i: int|
            0 <= i < d.explore.new_releases.len() ==> (#[trigger] s.new_releases@[i])@
                == d.explore.new_releases[i],
        s.new_releases_selected == d.explore.new_releases_selected,
        s.new_releases_loading == d.explore.new_releases_loading,
        s.radios@ == d.explore.radios,
        s.radios_selected == d.explore.radios_selected,
        s.radios_loading == d.explore.radios_loading,
        s.moods@ == d.explore.moods,
        s.moods_selected == d.explore.moods_selected,
        s.moods_loading == d.explore.moods_loading,
        s.genres@ == d.explore.genres,
        s.genres_selected == d.explore.genres_selected,
        s.genres_loading == d.explore.genres_loading,
{
    assert forall|i: int| 0 <= i < d.search.display.len() implies (
    #[trigger] s.search_display@[i])@ == d.search.display[i] by {
        assert(models::rows_of(s.search_display@)[i] == s.search_display@[i]@);
    }
    assert forall|i: int| 0 <= i < d.fav.display.len() implies (
    #[trigger] s.favorites_display@[i])@ == d.fav.display[i] by {
        assert(models::rows_of(s.favorites_display@)[i] == s.favorites_display@[i]@);
    }
    assert forall|i: int| 0 <= i < d.explore.new_releases.len() implies (
    #[trigger] s.new_releases@[i])@ == d.explore.new_releases[i] by {
        assert(models::rows_of(s.new_releases@)[i] == s.new_releases@[i]@);
    }
}

/// What a client is shown of the detail pages and the downloads is what the player
/// holds. Every download is known to be one by its id, and a download that belongs
/// to a downloaded album or playlist is not listed on its own.
pub proof fn clients_see_the_pages_and_downloads(s: DaemonSnapshot, d: DaemonView)
    requires
        shows(s, d),
    ensures
        d.pages.album is Some <==> s.album_detail is Some,
        d.pages.album is Some ==> s.album_detail->0@ == d.pages.album->0,
        s.album_detail_selected == d.pages.album_selected,
        s.album_detail_loading == d.pages.album_loading,
        d.pages.artist is Some <==> s.artist_detail is Some,
        d.pages.artist is Some ==> s.artist_detail->0@ == d.pages.artist->0,
        s.artist_detail_selected == d.pages.artist_selected,
        s.artist_detail_loading == d.pages.artist_loading,
        s.artist_detail_sub_tab == d.pages.artist_sub_tab,
        d.pages.playlist is Some <==> s.playlist_detail is Some,
        d.pages.playlist is Some ==> s.playlist_detail->0@ == d.pages.playlist->0,
        s.playlist_detail_selected == d.pages.playlist_selected,
        s.playlist_detail_loading == d.pages.playlist_loading,
        d.pages.genre is Some <==> s.genre_detail is Some,
        d.pages.genre is Some ==> s.genre_detail->0@ == d.pages.genre->0,
        s.genre_detail_loading == d.pages.genre_loading,
        s.nav_overlay == d.pages.top,
        s.nav_overlay_stack@ == d.pages.below,
        s.offline_category == d.offline.category,
        s.offline_selected == d.offline.selected,
        s.offline_loading == d.offline.loading,
        s.offline_albums@.len() == d.offline.index.albums.len(),
        forall|i: int|
            0 <= i < d.offline.index.albums.len() ==> (#[trigger] s.offline_albums@[i])@
                == d.offline.index.albums[i],
        s.offline_playlists@.len() == d.offline.index.playlists.len(),
        forall|i: int|
            0 <= i < d.offline.index.playlists.len() ==> (#[trigger] s.offline_playlists@[i])@
                == d.offline.index.playlists[i],
        s.offline_track_ids@.len() == d.offline.index.tracks.len(),
        forall|i: int|
            0 <= i < d.offline.index.tracks.len() ==> (#[trigger] s.offline_track_ids@[i])
                == d.offline.index.tracks[i].track.track_id,
        forall|i: int|
            0 <= i < s.offline_tracks@.len() ==> d.offline.index.tracks.contains(
                #[trigger] s.offline_tracks@[i],
            ) && !in_a_group(d, s.offline_tracks@[i].track.track_id@),
        forall|i: int|
            0 <= i < d.offline.index.tracks.len() && !in_a_group(
                d,
                (#[trigger] d.offline.index.tracks[i]).track.track_id@,
            ) ==> s.offline_tracks@.contains(d.offline.index.tracks[i]),
{
    let index = d.offline.index;
    assert forall|i: int| 0 <= i < index.albums.len() implies (
    #[trigger] s.offline_albums@[i])@ == index.albums[i] by {
        assert(seqs::views(s.offline_albums@)[i] == s.offline_albums@[i]@);
    }
    assert forall|i: int| 0 <= i < index.playlists.len() implies (
    #[trigger] s.offline_playlists@[i])@ == index.playlists[i] by {
        assert(seqs::views(s.offline_playlists@)[i] == s.offline_playlists@[i]@);
    }
    let test = |t: models::OfflineTrack| !storage::grouped(index, t.track.track_id@);
    assert(index.standalone() == index.tracks.filter(test));
    seqs::what_passes_is_left(index.tracks, test);
    assert forall|i: int| 0 <= i < s.offline_tracks@.len() implies index.tracks.contains(
        #[trigger] s.offline_tracks@[i],
    ) && !in_a_group(d, s.offline_tracks@[i].track.track_id@) by {
        assert(test(s.offline_tracks@[i]));
        grouped_is_in_a_group(d, s.offline_tracks@[i].track.track_id@);
    }
    assert forall|i: int|
        0 <= i < index.tracks.len() && !in_a_group(
            d,
            (#[trigger] index.tracks[i]).track.track_id@,
        ) implies s.offline_tracks@.contains(index.tracks[i]) by {
        grouped_is_in_a_group(d, index.tracks[i].track.track_id@);
        assert(test(index.tracks[i]));
    }
}

/// A track of this id is one of a downloaded album's or playlist's.
pub open spec fn in_a_group(d: DaemonView, id: Seq<char>) -> bool {
    ||| exists|i: int, k: int|
        0 <= i < d.offline.index.albums.len() && 0 <= k < d.offline.index.albums[i].tracks.len()
            && (#[trigger] d.offline.index.albums[i].tracks[k]).track_id@ == id
    ||| exists|i: int, k: int|
        0 <= i < d.offline.index.playlists.len() && 0 <= k
            < d.offline.index.playlists[i].tracks.len() && (
        #[trigger] d.offline.index.playlists[i].tracks[k]).track_id@ == id
}

/// The two ways to say that a download belongs to an album or a playlist agree.
proof fn grouped_is_in_a_group(d: DaemonView, id: Seq<char>)
    ensures
        storage::grouped(d.offline.index, id) == in_a_group(d, id),
{
    let v = d.offline.index;
    if exists|i: int| 0 <= i < v.albums.len() && seqs::listed((#[trigger] v.albums[i]).tracks, id) {
        let i = choose|i: int|
            0 <= i < v.albums.len() && seqs::listed((#[trigger] v.albums[i]).tracks, id);
        let s = v.albums[i].tracks;
        let k = choose|k: int| 0 <= k < s.len() && (#[trigger] s[k]).id_of() == id;
        assert(v.albums[i].tracks[k].track_id@ == id);
    }
    if exists|i: int|
        0 <= i < v.playlists.len() && seqs::listed((#[trigger] v.playlists[i]).tracks, id) {
        let i = choose|i: int|
            0 <= i < v.playlists.len() && seqs::listed((#[trigger] v.playlists[i]).tracks, id);
        let s = v.playlists[i].tracks;
        let k = choose|k: int| 0 <= k < s.len() && (#[trigger] s[k]).id_of() == id;
        assert(v.playlists[i].tracks[k].track_id@ == id);
    }
    if exists|i: int, k: int|
        0 <= i < v.albums.len() && 0 <= k < v.albums[i].tracks.len() && (
        #[trigger] v.albums[i].tracks[k]).track_id@ == id {
        let (i, k) = choose|i: int, k: int|
            0 <= i < v.albums.len() && 0 <= k < v.albums[i].tracks.len() && (
            #[trigger] v.albums[i].tracks[k]).track_id@ == id;
        assert(v.albums[i].tracks[k].id_of() == id);
        assert(seqs::listed(v.albums[i].tracks, id));
    }
    if exists|i: int, k: int|
        0 <= i < v.playlists.len() && 0 <= k < v.playlists[i].tracks.len() && (
        #[trigger] v.playlists[i].tracks[k]).track_id@ == id {
        let (i, k) = choose|i: int, k: int|
            0 <= i < v.playlists.len() && 0 <= k < v.playlists[i].tracks.len() && (
            #[trigger] v.playlists[i].tracks[k]).track_id@ == id;
        assert(v.playlists[i].tracks[k].id_of() == id);
        assert(seqs::listed(v.playlists[i].tracks, id));
    }
}

} // verus!
