//! What the answers to background work promise: what each of them shows, keeps,
//! starts and asks for next.

use vstd::prelude::*;

use crate::daemon::command_laws;
use crate::daemon::playback_laws;
use crate::daemon::results::AsyncResult;
use crate::daemon::{DaemonView, Effect, EngineCommand};
use crate::models;
use crate::models::{
    AlbumDetail, ArtistDetail, AudioQuality, DisplayItem, DisplayItemView, GenreDetail,
    OfflineTrack, PlaylistData, PlaylistDetail, TrackData,
};
use crate::notice::{NoticeKind, NoticeView};
use crate::player::{PlaybackStatus, RepeatMode};
use crate::protocol::{ActiveTab, FavoritesCategory, GenreItem, MoodEntry, RadioItem, Screen};
use crate::seqs;
use crate::seqs::HasId;
use crate::storage;
use crate::storage::OfflineView;
use crate::text;

verus! {

/// A message about something is shown and nothing else changes.
pub open spec fn only_reports(
    d: DaemonView,
    result: AsyncResult,
    now: u64,
    seed: u64,
    kind: NoticeKind,
    err: Seq<char>,
) -> bool {
    d.result(result, now, seed) == (DaemonView {
        status_msg: Some(NoticeView { kind, detail: err, count: 0 }),
        ..d
    })
}

/// A message with a count is shown.
pub open spec fn counts(r: DaemonView, kind: NoticeKind, count: nat) -> bool {
    r.status_msg == Some(NoticeView { kind, detail: Seq::empty(), count })
}

/// A message with a text is shown.
pub open spec fn reports(r: DaemonView, kind: NoticeKind, detail: Seq<char>) -> bool {
    r.status_msg == Some(NoticeView { kind, detail, count: 0 })
}

// ── Session ─────────────────────────────────────────────────────────

/// A new player is at rest, with the preferred volume and quality: without a
/// connection it shows the downloads, and with one the login screen unless a login
/// is remembered. What was kept shows at once.
pub proof fn a_new_player_is_at_rest(
    config: crate::daemon::Config,
    cache: storage::FavoritesCacheView,
    offline: OfflineView,
    is_offline: bool,
    last_query: String,
)
    ensures
        ({
            let d = crate::daemon::initial(config, cache, offline, is_offline, last_query);
            &&& d.config == config
            &&& d.player.status == PlaybackStatus::Stopped
            &&& d.player.current_track is None
            &&& d.player.queue.len() == 0
            &&& d.player.volume == config.volume
            &&& d.player.quality == config.quality
            &&& d.player.position_secs == 0
            &&& !d.player.shuffle
            &&& d.player.repeat == RepeatMode::Off
            &&& d.outbox.len() == 0
            &&& !d.run.engine_ready && !d.run.key_ready
            &&& !d.run.flow_active && d.run.active_mood is None && d.run.skips == 0
            &&& d.is_offline == is_offline
            &&& is_offline ==> d.screen == Screen::Main && d.active_tab == ActiveTab::Downloads
            &&& !is_offline ==> d.active_tab == ActiveTab::Search
            &&& !is_offline ==> (d.screen == Screen::Main <==> config.arl is Some)
            &&& d.offline.index == offline
            &&& d.fav.cache == cache
            &&& cache.moods is Some ==> d.explore.moods == cache.moods->0
            &&& cache.tracks is Some ==> {
                &&& d.fav.track_ids.len() == cache.tracks->0.len()
                &&& forall|i: int|
                    0 <= i < cache.tracks->0.len() ==> (#[trigger] d.fav.track_ids[i])
                        == cache.tracks->0[i].track_id
            }
            &&& cache.tracks is None ==> d.fav.track_ids.len() == 0
            &&& d.search.last_query == last_query
            &&& d.pages.top is None
        }),
{
}

/// The player begins by opening the audio output where there is no connection,
/// and by logging in where a login is remembered.
pub proof fn the_player_begins_with_what_it_has(d: DaemonView)
    ensures
        ({
            let r = d.begin();
            &&& d.is_offline ==> r == (DaemonView { outbox: d.outbox.push(Effect::OpenEngine), ..d })
            &&& !d.is_offline && d.config.arl is Some ==> {
                &&& r.outbox == d.outbox.push(Effect::Login { arl: d.config.arl->0 })
                &&& r.login.loading && r.login.error is None
                &&& command_laws::says(r, NoticeKind::Connecting)
            }
            &&& !d.is_offline && d.config.arl is None ==> r == d
        }),
{
    reveal(DaemonView::begin);
    reveal(DaemonView::start_login);
}

/// A login that succeeds shows the main screen and asks for the key; one that is
/// refused shows the login screen and why.
pub proof fn logins_are_answered(d: DaemonView, name: String, err: String, now: u64, seed: u64)
    ensures
        ({
            let r = d.result(AsyncResult::LoginSuccess(name), now, seed);
            &&& r.screen == Screen::Main
            &&& r.login.user_name == Some(name)
            &&& !r.login.loading
            &&& r.outbox == d.outbox.push(Effect::FetchMasterKey)
            &&& command_laws::says(r, NoticeKind::FetchingKey)
            &&& r.player == d.player
            &&& r.config == d.config
        }),
        ({
            let r = d.result(AsyncResult::LoginError(err), now, seed);
            &&& r.screen == Screen::Login
            &&& r.login.error == Some(err)
            &&& !r.login.loading
            &&& r.login.user_name == d.login.user_name
            &&& r.outbox == d.outbox
            &&& r.player == d.player
            &&& r.config == d.config
        }),
{
    reveal(DaemonView::result);
    reveal(DaemonView::login_success);
    reveal(DaemonView::start_fetch_master_key);
    reveal(DaemonView::login_error);
}

/// The audio output opens at the preferred volume.
pub proof fn the_audio_output_opens_at_the_preferred_volume(d: DaemonView)
    ensures
        ({
            let r = d.engine_opened();
            &&& r.run.engine_ready
            &&& r.player.volume == d.config.volume
            &&& r.outbox == d.outbox.push(Effect::Engine(EngineCommand::SetVolume(d.config.volume)))
            &&& r.player.status == d.player.status
            &&& r.player.current_track == d.player.current_track
            &&& playback_laws::same_queue(d, r)
        }),
{
    reveal(DaemonView::engine_opened);
}

/// Once the key is there, the lists are asked for: the favorites on display unless
/// they are kept, the ids of the favorites, the stations, the moods unless they
/// are there, and the genres. The audio output is used if it opened, and otherwise
/// why it did not is shown.
#[verifier::rlimit(40)]
pub proof fn the_key_opens_the_library(
    d: DaemonView,
    engine_error: Option<String>,
    now: u64,
    seed: u64,
)
    requires
        !d.is_offline,
    ensures
        ({
            let r = d.result(AsyncResult::MasterKeyReady { engine_error }, now, seed);
            let volume = if engine_error is None {
                seq![Effect::Engine(EngineCommand::SetVolume(d.config.volume))]
            } else {
                Seq::empty()
            };
            let kept = match d.fav.category {
                FavoritesCategory::RecentlyPlayed => false,
                FavoritesCategory::Tracks => d.fav.cache.tracks is Some,
                FavoritesCategory::Artists => d.fav.cache.artists is Some,
                FavoritesCategory::Albums => d.fav.cache.albums is Some,
                FavoritesCategory::Playlists => d.fav.cache.playlists is Some,
                FavoritesCategory::Following => d.fav.cache.following is Some,
            };
            let favorites = if kept {
                Seq::empty()
            } else {
                seq![Effect::LoadFavorites { category: d.fav.category }]
            };
            let moods = if d.explore.moods.len() == 0 {
                seq![Effect::LoadMoods]
            } else {
                Seq::empty()
            };
            &&& r.run.key_ready
            &&& r.run.engine_ready == (engine_error is None || d.run.engine_ready)
            &&& engine_error is None ==> r.player.volume == d.config.volume
            &&& engine_error is Some ==> reports(
                r,
                NoticeKind::AudioInitError,
                engine_error->0@,
            )
            &&& engine_error is None ==> command_laws::says(r, NoticeKind::Ready)
            &&& r.outbox == d.outbox + volume + favorites + seq![
                Effect::LoadFavoriteIds,
                Effect::LoadRadios,
            ] + moods + seq![Effect::LoadGenres]
            &&& r.player.queue == d.player.queue
            &&& r.player.current_track == d.player.current_track
        }),
{
    reveal(DaemonView::result);
    reveal(DaemonView::master_key_ready);
    reveal(DaemonView::engine_opened);
    reveal(DaemonView::start_load_favorites_category);
    reveal(DaemonView::start_load_favorite_ids);
    reveal(DaemonView::start_load_radios);
    reveal(DaemonView::start_load_moods);
    reveal(DaemonView::start_load_genres);
}

/// A key that could not be fetched, and what came of a dislike, is shown and
/// changes nothing else.
pub proof fn failures_of_the_session_are_reported(d: DaemonView, err: String, now: u64, seed: u64)
    ensures
        only_reports(
            d,
            AsyncResult::MasterKeyError(err),
            now,
            seed,
            NoticeKind::KeyError,
            err@,
        ),
        only_reports(
            d,
            AsyncResult::DislikeError(err),
            now,
            seed,
            NoticeKind::DislikeError,
            err@,
        ),
        only_reports(
            d,
            AsyncResult::DislikeOk,
            now,
            seed,
            NoticeKind::TrackDisliked,
            Seq::empty(),
        ),
{
    reveal(DaemonView::result);
    reveal(DaemonView::report);
    reveal(DaemonView::mention);
}

/// A favorite that could not be changed is reported, and nothing changes.
pub proof fn failures_of_favorites_are_reported(d: DaemonView, err: String, now: u64, seed: u64)
    ensures
        only_reports(
            d,
            AsyncResult::FavoriteError(err),
            now,
            seed,
            NoticeKind::FavoriteError,
            err@,
        ),
        only_reports(
            d,
            AsyncResult::FavoriteArtistError(err),
            now,
            seed,
            NoticeKind::FavoriteError,
            err@,
        ),
        only_reports(
            d,
            AsyncResult::FavoriteAlbumError(err),
            now,
            seed,
            NoticeKind::FavoriteError,
            err@,
        ),
{
    reveal(DaemonView::result);
    reveal(DaemonView::favorites_result);
    reveal(DaemonView::report);
    reveal(DaemonView::mention);
}

/// What could not be done to a playlist is reported, and nothing changes.
pub proof fn failures_of_playlists_are_reported(d: DaemonView, err: String, now: u64, seed: u64)
    ensures
        only_reports(
            d,
            AsyncResult::PlaylistsError(err),
            now,
            seed,
            NoticeKind::PlaylistsError,
            err@,
        ),
        only_reports(
            d,
            AsyncResult::AddToPlaylistError(err),
            now,
            seed,
            NoticeKind::AddToPlaylistError,
            err@,
        ),
        only_reports(
            d,
            AsyncResult::RemoveFromPlaylistError(err),
            now,
            seed,
            NoticeKind::RemoveFromPlaylistError,
            err@,
        ),
        only_reports(
            d,
            AsyncResult::PlaylistCreatedError(err),
            now,
            seed,
            NoticeKind::PlaylistCreateError,
            err@,
        ),
        only_reports(
            d,
            AsyncResult::PlaylistRenameError(err),
            now,
            seed,
            NoticeKind::PlaylistRenameError,
            err@,
        ),
        only_reports(
            d,
            AsyncResult::PlaylistDeleteError(err),
            now,
            seed,
            NoticeKind::PlaylistDeleteError,
            err@,
        ),
        only_reports(
            d,
            AsyncResult::AlreadyInPlaylist,
            now,
            seed,
            NoticeKind::AlreadyInPlaylist,
            Seq::empty(),
        ),
{
    reveal(DaemonView::result);
    reveal(DaemonView::favorites_result);
    reveal(DaemonView::playlists_result);
    reveal(DaemonView::report);
    reveal(DaemonView::mention);
}

/// A mix or a station that could not be had is reported, and what plays plays on.
pub proof fn failures_of_streams_are_reported(d: DaemonView, err: String, now: u64, seed: u64)
    ensures
        only_reports(
            d,
            AsyncResult::MixError(err),
            now,
            seed,
            NoticeKind::MixError,
            err@,
        ),
        only_reports(
            d,
            AsyncResult::RadioTracksError(err),
            now,
            seed,
            NoticeKind::RadioTracksError,
            err@,
        ),
{
    reveal(DaemonView::result);
    reveal(DaemonView::favorites_result);
    reveal(DaemonView::playlists_result);
    reveal(DaemonView::pages_result);
    reveal(DaemonView::playing_result);
    reveal(DaemonView::report);
    reveal(DaemonView::mention);
}

// ── Search ──────────────────────────────────────────────────────────

/// What a search found is shown from the top, one row for each track that was
/// found; a search that fails leaves what was shown before.
pub proof fn search_results_are_shown_from_the_top(
    d: DaemonView,
    tracks: Vec<TrackData>,
    items: Vec<DisplayItem>,
    err: String,
    now: u64,
    seed: u64,
)
    ensures
        ({
            let r = d.result(AsyncResult::SearchResults(tracks), now, seed);
            &&& r.search.results == tracks@
            &&& r.search.display.len() == tracks@.len()
            &&& forall|i: int|
                0 <= i < tracks@.len() ==> row_shows(#[trigger] r.search.display[i], tracks@[i])
            &&& r.search.selected == 0
            &&& !r.search.loading
            &&& r.search.category == d.search.category
            &&& r.search.last_query == d.search.last_query
            &&& counts(r, NoticeKind::Results, tracks@.len())
            &&& r.outbox == d.outbox && r.player == d.player
        }),
        ({
            let r = d.result(AsyncResult::SearchDisplayResults(items), now, seed);
            &&& r.search.results.len() == 0
            &&& r.search.display.len() == items@.len()
            &&& forall|i: int|
                0 <= i < items@.len() ==> (#[trigger] r.search.display[i]) == items@[i]@
            &&& r.search.selected == 0
            &&& !r.search.loading
            &&& r.search.category == d.search.category
            &&& counts(r, NoticeKind::Results, items@.len())
            &&& r.outbox == d.outbox && r.player == d.player
        }),
        ({
            let r = d.result(AsyncResult::SearchError(err), now, seed);
            &&& r.search.results == d.search.results
            &&& r.search.display == d.search.display
            &&& r.search.selected == d.search.selected
            &&& !r.search.loading
            &&& reports(r, NoticeKind::SearchError, err@)
            &&& r.outbox == d.outbox && r.player == d.player
        }),
{
    reveal(DaemonView::result);
    reveal(DaemonView::search_found);
    reveal(DaemonView::search_failed);
}

/// The row of a track: its title, artist, album and length, and it plays.
pub open spec fn row_shows(row: DisplayItemView, track: TrackData) -> bool {
    &&& row.col1 == track.title@
    &&& row.col2 == track.artist@
    &&& row.col3 == track.album@
    &&& row.col4 == text::clock_text(track.duration as nat)
    &&& row.track == Some(track)
    &&& row.album_id is None
    &&& row.playlist_id is None
    &&& row.artist_id is None
    &&& row.show_id is None
}

// ── Favorites ───────────────────────────────────────────────────────

/// The favorite tracks that have come are kept, mark the hearts, and are shown
/// from the top if they are on display.
pub proof fn favorite_tracks_are_kept_and_shown(
    d: DaemonView,
    tracks: Vec<TrackData>,
    now: u64,
    seed: u64,
)
    ensures
        ({
            let r = d.result(
                AsyncResult::FavoritesLoaded(FavoritesCategory::Tracks, tracks),
                now,
                seed,
            );
            &&& r.fav.cache.tracks == Some(tracks@)
            &&& r.fav.tracks == tracks@
            &&& r.fav.track_ids.len() == tracks@.len()
            &&& forall|i: int|
                0 <= i < tracks@.len() ==> (#[trigger] r.fav.track_ids[i]) == tracks@[i].track_id
            &&& r.fav.artist_ids == d.fav.artist_ids
            &&& r.fav.album_ids == d.fav.album_ids
            &&& r.fav.cache.artists == d.fav.cache.artists
            &&& r.fav.cache.albums == d.fav.cache.albums
            &&& r.fav.cache.playlists == d.fav.cache.playlists
            &&& r.fav.cache.following == d.fav.cache.following
            &&& r.outbox == d.outbox.push(Effect::SaveFavoritesCache)
            &&& d.fav.category == FavoritesCategory::Tracks ==> {
                &&& r.fav.display.len() == tracks@.len()
                &&& forall|i: int|
                    0 <= i < tracks@.len() ==> row_shows(#[trigger] r.fav.display[i], tracks@[i])
                &&& r.fav.selected == 0
                &&& !r.fav.loading
                &&& counts(r, NoticeKind::Loaded, tracks@.len())
            }
            &&& d.fav.category != FavoritesCategory::Tracks ==> {
                &&& r.fav.display == d.fav.display
                &&& r.fav.selected == d.fav.selected
                &&& r.fav.loading == d.fav.loading
            }
            &&& r.player == d.player
        }),
{
    reveal(DaemonView::result);
    reveal(DaemonView::favorites_result);
    reveal(DaemonView::favorites_loaded);
}

/// The tracks that were played last are shown if they are on display, and never
/// kept.
pub proof fn recent_plays_are_not_kept(
    d: DaemonView,
    tracks: Vec<TrackData>,
    now: u64,
    seed: u64,
)
    ensures
        ({
            let r = d.result(
                AsyncResult::FavoritesLoaded(FavoritesCategory::RecentlyPlayed, tracks),
                now,
                seed,
            );
            &&& r.fav.cache == d.fav.cache
            &&& r.fav.track_ids == d.fav.track_ids
            &&& r.outbox == d.outbox
            &&& d.fav.category == FavoritesCategory::RecentlyPlayed ==> {
                &&& r.fav.tracks == tracks@
                &&& r.fav.display.len() == tracks@.len()
                &&& forall|i: int|
                    0 <= i < tracks@.len() ==> row_shows(#[trigger] r.fav.display[i], tracks@[i])
                &&& r.fav.selected == 0
                &&& !r.fav.loading
            }
            &&& d.fav.category != FavoritesCategory::RecentlyPlayed ==> r == d
        }),
{
    reveal(DaemonView::result);
    reveal(DaemonView::favorites_result);
    reveal(DaemonView::favorites_loaded);
}

/// Rows of a favorites category are kept under that category and no other, and
/// shown from the top if it is on display.
pub proof fn favorite_rows_are_kept_and_shown(
    d: DaemonView,
    category: FavoritesCategory,
    items: Vec<DisplayItem>,
    now: u64,
    seed: u64,
)
    ensures
        ({
            let r = d.result(AsyncResult::FavoritesDisplayLoaded(category, items), now, seed);
            let rows = items@.map_values(|i: DisplayItem| i@);
            &&& r.fav.cache.artists == (if category == FavoritesCategory::Artists {
                Some(rows)
            } else {
                d.fav.cache.artists
            })
            &&& r.fav.cache.albums == (if category == FavoritesCategory::Albums {
                Some(rows)
            } else {
                d.fav.cache.albums
            })
            &&& r.fav.cache.playlists == (if category == FavoritesCategory::Playlists {
                Some(rows)
            } else {
                d.fav.cache.playlists
            })
            &&& r.fav.cache.following == (if category == FavoritesCategory::Following {
                Some(rows)
            } else {
                d.fav.cache.following
            })
            &&& r.fav.cache.tracks == d.fav.cache.tracks
            &&& r.fav.track_ids == d.fav.track_ids
            &&& r.outbox == d.outbox.push(Effect::SaveFavoritesCache)
            &&& category == d.fav.category ==> {
                &&& r.fav.display == rows
                &&& r.fav.tracks.len() == 0
                &&& r.fav.selected == 0
                &&& !r.fav.loading
                &&& counts(r, NoticeKind::Loaded, rows.len())
            }
            &&& category != d.fav.category ==> {
                &&& r.fav.display == d.fav.display
                &&& r.fav.selected == d.fav.selected
                &&& r.fav.loading == d.fav.loading
            }
        }),
{
    reveal(DaemonView::result);
    reveal(DaemonView::favorites_result);
    reveal(DaemonView::favorites_display_loaded);
    let rows = items@.map_values(|i: DisplayItem| i@);
    assert(models::rows_of(items@) =~= rows);
}

/// Favorites that could not be loaded leave an empty list on display.
pub proof fn failed_favorites_are_empty(
    d: DaemonView,
    category: FavoritesCategory,
    err: String,
    now: u64,
    seed: u64,
)
    ensures
        ({
            let r = d.result(AsyncResult::FavoritesError(category, err), now, seed);
            &&& category == d.fav.category ==> {
                &&& !r.fav.loading
                &&& r.fav.display.len() == 0
                &&& r.fav.tracks.len() == 0
                &&& r.fav.selected == 0
                &&& r.fav.cache == d.fav.cache
                &&& reports(r, NoticeKind::FavoritesError, err@)
                &&& r.outbox == d.outbox
            }
            &&& category != d.fav.category ==> r == d
        }),
{
    reveal(DaemonView::result);
    reveal(DaemonView::favorites_result);
    reveal(DaemonView::favorites_failed);
}

/// Adding an id to a list.
proof fn an_id_is_added(ids: Seq<String>, id: String, other: Seq<char>)
    ensures
        command_laws::holds(crate::daemon::results::with_id(ids, id), id@),
        other != id@ ==> command_laws::holds(crate::daemon::results::with_id(ids, id), other)
            == command_laws::holds(ids, other),
{
    let more = ids.push(id);
    assert(more[ids.len() as int]@ == id@);
    if seqs::listed(ids, id@) {
        let i = choose|i: int| 0 <= i < ids.len() && (#[trigger] ids[i]).id_of() == id@;
        assert(ids[i]@ == id@);
    }
    if other != id@ {
        if command_laws::holds(ids, other) {
            let i = choose|i: int| 0 <= i < ids.len() && (#[trigger] ids[i])@ == other;
            assert(more[i]@ == other);
        }
        if command_laws::holds(more, other) {
            let i = choose|i: int| 0 <= i < more.len() && (#[trigger] more[i])@ == other;
            assert(ids[i]@ == other);
        }
    }
}

/// A favorite track that was added or removed is marked so, what was kept of the
/// favorites is dropped, and they are asked for again.
pub proof fn favorite_tracks_are_loaded_again(
    d: DaemonView,
    id: String,
    other: Seq<char>,
    now: u64,
    seed: u64,
)
    requires
        !d.is_offline,
    ensures
        ({
            let on = d.result(AsyncResult::FavoriteAdded(id), now, seed);
            let off = d.result(AsyncResult::FavoriteRemoved(id), now, seed);
            let asks = d.outbox.push(Effect::SaveFavoritesCache).push(
                Effect::LoadFavorites { category: FavoritesCategory::Tracks },
            );
            &&& command_laws::holds(on.fav.track_ids, id@)
            &&& !command_laws::holds(off.fav.track_ids, id@)
            &&& other != id@ ==> {
                &&& command_laws::holds(on.fav.track_ids, other) == command_laws::holds(
                    d.fav.track_ids,
                    other,
                )
                &&& command_laws::holds(off.fav.track_ids, other) == command_laws::holds(
                    d.fav.track_ids,
                    other,
                )
            }
            &&& on.fav.cache.tracks is None && off.fav.cache.tracks is None
            &&& on.fav.loading && off.fav.loading
            &&& on.outbox == asks && off.outbox == asks
            &&& command_laws::says(on, NoticeKind::AddedToFavorites)
            &&& command_laws::says(off, NoticeKind::RemovedFromFavorites)
            &&& on.fav.artist_ids == d.fav.artist_ids && off.fav.artist_ids == d.fav.artist_ids
            &&& on.fav.album_ids == d.fav.album_ids && off.fav.album_ids == d.fav.album_ids
            &&& on.player == d.player && off.player == d.player
        }),
{
    reveal(DaemonView::result);
    reveal(DaemonView::favorites_result);
    reveal(DaemonView::favorite_tracks_changed);
    reveal(DaemonView::start_load_favorites);
    an_id_is_added(d.fav.track_ids, id, other);
    command_laws::dropping_an_id_keeps_the_others(d.fav.track_ids, id@, other);
}

/// A favorite artist that was added or removed is marked so, and what was kept of
/// the artists is dropped and saved so; on display they are asked for again.
pub proof fn favorite_artists_are_marked(
    d: DaemonView,
    id: String,
    other: Seq<char>,
    now: u64,
    seed: u64,
)
    requires
        !d.is_offline,
    ensures
        ({
            let on = d.result(AsyncResult::FavoriteArtistAdded(id), now, seed);
            let off = d.result(AsyncResult::FavoriteArtistRemoved(id), now, seed);
            &&& command_laws::holds(on.fav.artist_ids, id@)
            &&& !command_laws::holds(off.fav.artist_ids, id@)
            &&& other != id@ ==> {
                &&& command_laws::holds(on.fav.artist_ids, other) == command_laws::holds(
                    d.fav.artist_ids,
                    other,
                )
                &&& command_laws::holds(off.fav.artist_ids, other) == command_laws::holds(
                    d.fav.artist_ids,
                    other,
                )
            }
            &&& on.fav.cache.artists is None && off.fav.cache.artists is None
            &&& on.fav.cache.albums == d.fav.cache.albums
            &&& on.outbox.len() > d.outbox.len()
            &&& on.outbox[d.outbox.len() as int] == Effect::SaveFavoritesCache
            &&& off.outbox.len() > d.outbox.len()
            &&& off.outbox[d.outbox.len() as int] == Effect::SaveFavoritesCache
            &&& d.fav.category == FavoritesCategory::Artists ==> {
                &&& on.outbox == d.outbox.push(Effect::SaveFavoritesCache).push(
                    Effect::LoadFavorites { category: FavoritesCategory::Artists },
                )
                &&& off.outbox == on.outbox
                &&& on.fav.loading && off.fav.loading
            }
            &&& on.fav.track_ids == d.fav.track_ids && on.fav.album_ids == d.fav.album_ids
            &&& command_laws::says(on, NoticeKind::AddedToFavorites)
            &&& command_laws::says(off, NoticeKind::RemovedFromFavorites)
        }),
{
    reveal(DaemonView::result);
    reveal(DaemonView::favorites_result);
    reveal(DaemonView::favorite_artists_changed);
    reveal(DaemonView::start_load_favorites_category);
    an_id_is_added(d.fav.artist_ids, id, other);
    command_laws::dropping_an_id_keeps_the_others(d.fav.artist_ids, id@, other);
}

/// A favorite album that was added or removed is marked so, and what was kept of
/// the albums is dropped and saved so; on display they are asked for again.
pub proof fn favorite_albums_are_marked(
    d: DaemonView,
    id: String,
    other: Seq<char>,
    now: u64,
    seed: u64,
)
    requires
        !d.is_offline,
    ensures
        ({
            let on = d.result(AsyncResult::FavoriteAlbumAdded(id), now, seed);
            let off = d.result(AsyncResult::FavoriteAlbumRemoved(id), now, seed);
            &&& command_laws::holds(on.fav.album_ids, id@)
            &&& !command_laws::holds(off.fav.album_ids, id@)
            &&& other != id@ ==> {
                &&& command_laws::holds(on.fav.album_ids, other) == command_laws::holds(
                    d.fav.album_ids,
                    other,
                )
                &&& command_laws::holds(off.fav.album_ids, other) == command_laws::holds(
                    d.fav.album_ids,
                    other,
                )
            }
            &&& on.fav.cache.albums is None && off.fav.cache.albums is None
            &&& on.fav.cache.artists == d.fav.cache.artists
            &&& on.outbox.len() > d.outbox.len()
            &&& on.outbox[d.outbox.len() as int] == Effect::SaveFavoritesCache
            &&& off.outbox.len() > d.outbox.len()
            &&& off.outbox[d.outbox.len() as int] == Effect::SaveFavoritesCache
            &&& d.fav.category == FavoritesCategory::Albums ==> {
                &&& on.outbox == d.outbox.push(Effect::SaveFavoritesCache).push(
                    Effect::LoadFavorites { category: FavoritesCategory::Albums },
                )
                &&& off.outbox == on.outbox
                &&& on.fav.loading && off.fav.loading
            }
            &&& on.fav.track_ids == d.fav.track_ids && on.fav.artist_ids == d.fav.artist_ids
            &&& command_laws::says(on, NoticeKind::AddedToFavorites)
            &&& command_laws::says(off, NoticeKind::RemovedFromFavorites)
        }),
{
    reveal(DaemonView::result);
    reveal(DaemonView::favorites_result);
    reveal(DaemonView::favorite_albums_changed);
    reveal(DaemonView::start_load_favorites_category);
    an_id_is_added(d.fav.album_ids, id, other);
    command_laws::dropping_an_id_keeps_the_others(d.fav.album_ids, id@, other);
}

/// The ids of the favorites that have come mark the hearts; an empty list of
/// tracks leaves those of the tracks as they are.
pub proof fn favorite_ids_mark_the_hearts(
    d: DaemonView,
    track_ids: Vec<String>,
    artist_ids: Vec<String>,
    album_ids: Vec<String>,
    now: u64,
    seed: u64,
)
    ensures
        ({
            let r = d.result(
                AsyncResult::FavoriteIdsLoaded { track_ids, artist_ids, album_ids },
                now,
                seed,
            );
            &&& r.fav.artist_ids == artist_ids@
            &&& r.fav.album_ids == album_ids@
            &&& track_ids@.len() > 0 ==> r.fav.track_ids == track_ids@
            &&& track_ids@.len() == 0 ==> r.fav.track_ids == d.fav.track_ids
            &&& r.fav.display == d.fav.display
            &&& r.fav.cache == d.fav.cache
            &&& r.outbox == d.outbox
            &&& r.player == d.player
            &&& r.status_msg == d.status_msg
        }),
{
    reveal(DaemonView::result);
    reveal(DaemonView::favorites_result);
    reveal(DaemonView::favorite_ids_loaded);
}

// ── Playlists ───────────────────────────────────────────────────────

/// The playlists that have come are the ones that can be picked.
pub proof fn playlists_can_be_picked(
    d: DaemonView,
    playlists: Vec<PlaylistData>,
    now: u64,
    seed: u64,
)
    ensures
        ({
            let r = d.result(AsyncResult::PlaylistsReady(playlists), now, seed);
            &&& r.playlists == playlists@
            &&& counts(r, NoticeKind::PlaylistsLoaded, playlists@.len())
            &&& r.outbox == d.outbox && r.player == d.player && r.pages == d.pages
        }),
{
    reveal(DaemonView::result);
    reveal(DaemonView::favorites_result);
    reveal(DaemonView::playlists_result);
    reveal(DaemonView::playlists_ready);
}

/// What was kept of a playlist is dropped and the rest is saved.
pub open spec fn forgets(d: DaemonView, r: DaemonView, id: Seq<char>) -> bool {
    &&& r.fav.cache.playlists is None
    &&& forall|i: int|
        0 <= i < r.fav.cache.playlist_details.len() ==> (
        #[trigger] r.fav.cache.playlist_details[i]).playlist_id@ != id
            && d.fav.cache.playlist_details.contains(r.fav.cache.playlist_details[i])
    &&& forall|i: int|
        0 <= i < d.fav.cache.playlist_details.len() && (
        #[trigger] d.fav.cache.playlist_details[i]).playlist_id@ != id
            ==> r.fav.cache.playlist_details.contains(d.fav.cache.playlist_details[i])
    &&& r.outbox == d.outbox.push(Effect::SaveFavoritesCache)
    &&& r.player == d.player
}

/// A changed playlist is forgotten.
proof fn changed_playlists_are_forgotten(d: DaemonView, id: Seq<char>, kind: NoticeKind)
    ensures
        forgets(d, d.playlist_changed(id, kind), id),
        command_laws::says(d.playlist_changed(id, kind), kind),
        d.playlist_changed(id, kind).playlists == d.playlists,
        d.playlist_changed(id, kind).search == d.search,
        d.playlist_changed(id, kind).pages == d.pages,
        d.playlist_changed(id, kind).fav.display == d.fav.display,
{
    reveal(DaemonView::playlist_changed);
    seqs::what_passes_is_left(d.fav.cache.playlist_details, storage::other_playlist(id));
}

/// Adding a track to a playlist, and removing one, counts it up or down by one
/// wherever it is listed, and drops what was kept of it. Other playlists keep
/// their counts.
pub proof fn playlist_counts_go_up_and_down(
    d: DaemonView,
    playlist_id: String,
    track_id: String,
    now: u64,
    seed: u64,
)
    ensures
        ({
            let more = d.result(AsyncResult::AddedToPlaylist(playlist_id), now, seed);
            let less = d.result(
                AsyncResult::RemovedFromPlaylist { playlist_id, track_id },
                now,
                seed,
            );
            &&& forgets(d, more, playlist_id@) && forgets(d, less, playlist_id@)
            &&& command_laws::says(more, NoticeKind::AddedToPlaylist)
            &&& command_laws::says(less, NoticeKind::RemovedFromPlaylist)
            &&& more.playlists.len() == d.playlists.len()
            &&& less.playlists.len() == d.playlists.len()
            &&& forall|i: int|
                0 <= i < d.playlists.len() ==> counted_up(
                    d.playlists[i],
                    #[trigger] more.playlists[i],
                    playlist_id@,
                    1,
                )
            &&& forall|i: int|
                0 <= i < d.playlists.len() ==> counted_up(
                    d.playlists[i],
                    #[trigger] less.playlists[i],
                    playlist_id@,
                    -1,
                )
            &&& rows_recounted(d.search.display, more.search.display, playlist_id@, 1)
            &&& rows_recounted(d.fav.display, more.fav.display, playlist_id@, 1)
            &&& rows_recounted(d.search.display, less.search.display, playlist_id@, -1)
            &&& rows_recounted(d.fav.display, less.fav.display, playlist_id@, -1)
            &&& more.pages == d.pages
            &&& match d.pages.playlist {
                Some(page) => if page.playlist_id@ == playlist_id@ {
                    &&& less.pages.playlist is Some
                    &&& less.pages.playlist->0.title == page.title
                    &&& less.pages.playlist->0.playlist_id == page.playlist_id
                    &&& less.pages.playlist->0.tracks == seqs::others(page.tracks, track_id@)
                } else {
                    less.pages == d.pages
                },
                None => less.pages == d.pages,
            }
        }),
{
    reveal(DaemonView::result);
    reveal(DaemonView::favorites_result);
    reveal(DaemonView::playlists_result);
    reveal(DaemonView::added_to_playlist);
    reveal(DaemonView::removed_from_playlist);
    reveal(DaemonView::drop_from_open_playlist);
    reveal(DaemonView::adjust_playlist_count);
    changed_playlists_are_forgotten(d, playlist_id@, NoticeKind::AddedToPlaylist);
    changed_playlists_are_forgotten(d, playlist_id@, NoticeKind::RemovedFromPlaylist);
    rows_are_recounted(d.search.display, playlist_id@, 1);
    rows_are_recounted(d.fav.display, playlist_id@, 1);
    rows_are_recounted(d.search.display, playlist_id@, -1);
    rows_are_recounted(d.fav.display, playlist_id@, -1);
}

/// Of rows, those of a playlist that show a number of tracks show so many more, and
/// all others are the same.
pub open spec fn rows_recounted(
    before: Seq<DisplayItemView>,
    after: Seq<DisplayItemView>,
    id: Seq<char>,
    by: int,
) -> bool {
    &&& after.len() == before.len()
    &&& forall|i: int|
        0 <= i < before.len() && before[i].playlist_id != Some(id) ==> (#[trigger] after[i])
            == before[i]
    &&& forall|i: int, n: nat|
        #![trigger after[i], text::decimal_of(n)]
        0 <= i < before.len() && before[i].playlist_id == Some(id) && n <= i64::MAX
            && before[i].col3 == text::decimal_of(n) && n + by >= 0 ==> after[i].col3
            == text::decimal_of((n + by) as nat) && after[i].col1 == before[i].col1
}

/// Counting rows up or down recounts them.
proof fn rows_are_recounted(rows: Seq<DisplayItemView>, id: Seq<char>, by: int)
    ensures
        rows_recounted(rows, rows.map_values(crate::rows::row_adjusted(id, by)), id, by),
{
    let after = rows.map_values(crate::rows::row_adjusted(id, by));
    assert forall|i: int, n: nat|
        #![trigger after[i], text::decimal_of(n)]
        0 <= i < rows.len() && rows[i].playlist_id == Some(id) && n <= i64::MAX && rows[i].col3
            == text::decimal_of(n) && n + by >= 0 implies after[i].col3 == text::decimal_of(
        (n + by) as nat,
    ) && after[i].col1 == rows[i].col1 by {
        crate::rows::rows_are_counted_up_and_down(rows[i], id, n, by);
    }
}

/// A playlist of the id has so many tracks more, never fewer than none, and any
/// other is the same.
pub open spec fn counted_up(p: PlaylistData, q: PlaylistData, id: Seq<char>, by: int) -> bool {
    if p.playlist_id@ == id {
        &&& q.playlist_id == p.playlist_id
        &&& q.title == p.title
        &&& 0 <= p.nb_songs + by <= u64::MAX ==> q.nb_songs == p.nb_songs + by
        &&& p.nb_songs + by < 0 ==> q.nb_songs == 0
    } else {
        q == p
    }
}

/// A playlist that was created is found by loading the list again; what was kept
/// of the lists is dropped.
pub proof fn a_new_playlist_empties_the_picker(
    d: DaemonView,
    playlist_id: String,
    now: u64,
    seed: u64,
)
    ensures
        ({
            let r = d.result(AsyncResult::PlaylistCreatedAndAdded { playlist_id }, now, seed);
            &&& r.playlists.len() == 0
            &&& forgets(d, r, playlist_id@)
            &&& command_laws::says(r, NoticeKind::PlaylistCreated)
            &&& r.pages == d.pages
        }),
{
    reveal(DaemonView::result);
    reveal(DaemonView::favorites_result);
    reveal(DaemonView::playlists_result);
    reveal(DaemonView::playlist_created);
    changed_playlists_are_forgotten(d, playlist_id@, NoticeKind::PlaylistCreated);
}

/// A renamed playlist has its new title wherever it is listed or shown, and no
/// other one has.
pub proof fn renamed_playlists_show_their_title(
    d: DaemonView,
    playlist_id: String,
    new_title: String,
    now: u64,
    seed: u64,
)
    ensures
        ({
            let r = d.result(AsyncResult::PlaylistRenamed { playlist_id, new_title }, now, seed);
            &&& forgets(d, r, playlist_id@)
            &&& command_laws::says(r, NoticeKind::PlaylistRenamed)
            &&& r.playlists.len() == d.playlists.len()
            &&& forall|i: int|
                0 <= i < d.playlists.len() ==> {
                    let p = d.playlists[i];
                    let q = #[trigger] r.playlists[i];
                    &&& p.playlist_id@ == playlist_id@ ==> q.title == new_title && q.playlist_id
                        == p.playlist_id && q.nb_songs == p.nb_songs
                    &&& p.playlist_id@ != playlist_id@ ==> q == p
                }
            &&& r.search.display.len() == d.search.display.len()
            &&& forall|i: int|
                0 <= i < d.search.display.len() ==> retitled(
                    d.search.display[i],
                    #[trigger] r.search.display[i],
                    playlist_id@,
                    new_title@,
                )
            &&& r.fav.display.len() == d.fav.display.len()
            &&& forall|i: int|
                0 <= i < d.fav.display.len() ==> retitled(
                    d.fav.display[i],
                    #[trigger] r.fav.display[i],
                    playlist_id@,
                    new_title@,
                )
            &&& match d.pages.playlist {
                Some(page) => if page.playlist_id@ == playlist_id@ {
                    &&& r.pages.playlist is Some
                    &&& r.pages.playlist->0.title == new_title
                    &&& r.pages.playlist->0.tracks == page.tracks
                } else {
                    r.pages == d.pages
                },
                None => r.pages == d.pages,
            }
        }),
{
    reveal(DaemonView::result);
    reveal(DaemonView::favorites_result);
    reveal(DaemonView::playlists_result);
    reveal(DaemonView::playlist_renamed);
    reveal(DaemonView::retitle);
    changed_playlists_are_forgotten(d, playlist_id@, NoticeKind::PlaylistRenamed);
}

/// A playlist's row has its new title, and any other row is the same.
pub open spec fn retitled(
    before: DisplayItemView,
    after: DisplayItemView,
    id: Seq<char>,
    title: Seq<char>,
) -> bool {
    if before.playlist_id == Some(id) {
        after.col1 == title && after.playlist_id == before.playlist_id && after.col2 == before.col2
            && after.col3 == before.col3
    } else {
        after == before
    }
}

/// A playlist that was deleted leaves every list and closes its page; all other
/// rows stay.
pub proof fn deleted_playlists_leave_every_list(
    d: DaemonView,
    playlist_id: String,
    now: u64,
    seed: u64,
)
    ensures
        ({
            let r = d.result(AsyncResult::PlaylistDeleted(playlist_id), now, seed);
            &&& forgets(d, r, playlist_id@)
            &&& command_laws::says(r, NoticeKind::PlaylistDeleted)
            &&& forall|i: int|
                0 <= i < r.playlists.len() ==> (#[trigger] r.playlists[i]).playlist_id@
                    != playlist_id@
            &&& forall|i: int|
                0 <= i < d.playlists.len() && (#[trigger] d.playlists[i]).playlist_id@
                    != playlist_id@ ==> r.playlists.contains(d.playlists[i])
            &&& forall|i: int|
                0 <= i < r.search.display.len() ==> (#[trigger] r.search.display[i]).playlist_id
                    != Some(playlist_id@)
            &&& forall|i: int|
                0 <= i < d.search.display.len() && (#[trigger] d.search.display[i]).playlist_id
                    != Some(playlist_id@) ==> r.search.display.contains(d.search.display[i])
            &&& forall|i: int|
                0 <= i < r.fav.display.len() ==> (#[trigger] r.fav.display[i]).playlist_id != Some(
                    playlist_id@,
                )
            &&& forall|i: int|
                0 <= i < d.fav.display.len() && (#[trigger] d.fav.display[i]).playlist_id != Some(
                    playlist_id@,
                ) ==> r.fav.display.contains(d.fav.display[i])
            &&& d.pages.playlist is Some && d.pages.playlist->0.playlist_id@ == playlist_id@ ==> {
                &&& r.pages.playlist is None
                &&& r.pages.playlist_selected == 0
                &&& !r.pages.playlist_loading
            }
            &&& d.pages.playlist is None || d.pages.playlist->0.playlist_id@ != playlist_id@
                ==> r.pages == d.pages
        }),
{
    reveal(DaemonView::result);
    reveal(DaemonView::favorites_result);
    reveal(DaemonView::playlists_result);
    reveal(DaemonView::playlist_deleted);
    reveal(DaemonView::unlist);
    changed_playlists_are_forgotten(d, playlist_id@, NoticeKind::PlaylistDeleted);
    seqs::what_passes_is_left(d.playlists, seqs::other_than::<PlaylistData>(playlist_id@));
    let another = crate::rows::row_of_another(playlist_id@);
    seqs::what_passes_is_left(d.search.display, another);
    seqs::what_passes_is_left(d.fav.display, another);
}

// ── Pages and lists ─────────────────────────────────────────────────

/// A page that has come is shown from the top; one that could not be loaded is
/// not waited for any more.
pub proof fn pages_that_have_come_are_shown(
    d: DaemonView,
    album: AlbumDetail,
    artist: ArtistDetail,
    genre: GenreDetail,
    show: PlaylistDetail,
    now: u64,
    seed: u64,
)
    ensures
        ({
            let r = d.result(AsyncResult::AlbumDetailReady(album), now, seed);
            &&& r.pages.album == Some(album@)
            &&& r.pages.album_selected == 0
            &&& !r.pages.album_loading
            &&& r.pages.artist == d.pages.artist && r.pages.playlist == d.pages.playlist
            &&& r.pages.top == d.pages.top
            &&& r.status_msg == Some(
                NoticeView {
                    kind: NoticeKind::AlbumTracks,
                    detail: album.title@,
                    count: album.tracks@.len(),
                },
            )
            &&& r.outbox == d.outbox && r.player == d.player
        }),
        ({
            let r = d.result(AsyncResult::ArtistDetailReady(artist), now, seed);
            &&& r.pages.artist == Some(artist@)
            &&& r.pages.artist_selected == 0
            &&& !r.pages.artist_loading
            &&& r.pages.album == d.pages.album && r.pages.playlist == d.pages.playlist
            &&& r.pages.top == d.pages.top
            &&& r.status_msg == Some(
                NoticeView {
                    kind: NoticeKind::ArtistTracks,
                    detail: artist.name@,
                    count: artist.top_tracks@.len(),
                },
            )
            &&& r.outbox == d.outbox && r.player == d.player
        }),
        ({
            let r = d.result(AsyncResult::GenreDetailReady(genre), now, seed);
            &&& r.pages.genre == Some(genre@)
            &&& !r.pages.genre_loading
            &&& reports(r, NoticeKind::GenreDetailLoaded, genre.name@)
            &&& r.outbox == d.outbox && r.player == d.player
        }),
        ({
            let r = d.result(AsyncResult::ShowDetailReady(show), now, seed);
            &&& r.pages.playlist == Some(show@)
            &&& r.pages.playlist_selected == 0
            &&& !r.pages.playlist_loading
            &&& r.fav == d.fav
            &&& r.outbox == d.outbox && r.player == d.player
        }),
{
    reveal(DaemonView::result);
    reveal(DaemonView::favorites_result);
    reveal(DaemonView::playlists_result);
    reveal(DaemonView::pages_result);
    reveal(DaemonView::album_ready);
    reveal(DaemonView::artist_ready);
    reveal(DaemonView::genre_ready);
    reveal(DaemonView::show_playlist);
}

/// A page that could not be loaded is not waited for any more, and why is shown. A
/// refresh in the background that fails changes nothing.
pub proof fn pages_that_failed_are_not_waited_for(d: DaemonView, err: String, now: u64, seed: u64)
    ensures
        ({
            let album = d.result(AsyncResult::AlbumDetailError(err), now, seed);
            let artist = d.result(AsyncResult::ArtistDetailError(err), now, seed);
            let genre = d.result(AsyncResult::GenreDetailError(err), now, seed);
            let show = d.result(AsyncResult::ShowDetailError(err), now, seed);
            let list = d.result(
                AsyncResult::PlaylistDetailError { err, background: false },
                now,
                seed,
            );
            &&& !album.pages.album_loading && album.pages.album == d.pages.album
            &&& reports(album, NoticeKind::AlbumError, err@)
            &&& !artist.pages.artist_loading && artist.pages.artist == d.pages.artist
            &&& reports(artist, NoticeKind::ArtistError, err@)
            &&& !genre.pages.genre_loading && genre.pages.genre == d.pages.genre
            &&& reports(genre, NoticeKind::GenreDetailError, err@)
            &&& !show.pages.playlist_loading && show.pages.playlist == d.pages.playlist
            &&& reports(show, NoticeKind::PlaylistError, err@)
            &&& !list.pages.playlist_loading && list.pages.playlist == d.pages.playlist
            &&& reports(list, NoticeKind::PlaylistError, err@)
            &&& album.outbox == d.outbox && artist.outbox == d.outbox && genre.outbox == d.outbox
            &&& show.outbox == d.outbox && list.outbox == d.outbox
            &&& album.player == d.player && artist.player == d.player && genre.player == d.player
            &&& show.player == d.player && list.player == d.player
        }),
        d.result(AsyncResult::PlaylistDetailError { err, background: true }, now, seed) == d,
{
    reveal(DaemonView::result);
    reveal(DaemonView::favorites_result);
    reveal(DaemonView::playlists_result);
    reveal(DaemonView::pages_result);
    reveal(DaemonView::album_failed);
    reveal(DaemonView::artist_failed);
    reveal(DaemonView::genre_failed);
    reveal(DaemonView::playlist_failed);
}

/// A playlist's page that has come is kept for the next time, in the place of an
/// older copy, and saved. It is shown from the top, unless it came in the
/// background: then it replaces the open page of the same playlist and no other.
#[verifier::rlimit(40)]
pub proof fn playlists_are_kept_and_shown(
    d: DaemonView,
    detail: PlaylistDetail,
    background: bool,
    now: u64,
    seed: u64,
)
    ensures
        ({
            let r = d.result(AsyncResult::PlaylistDetailReady { detail, background }, now, seed);
            let id = detail.playlist_id@;
            &&& storage::find_playlist(r.fav.cache.playlist_details, id) == Some(detail@)
            &&& forall|i: int|
                0 <= i < d.fav.cache.playlist_details.len() && (
                #[trigger] d.fav.cache.playlist_details[i]).playlist_id@ != id
                    ==> r.fav.cache.playlist_details.contains(d.fav.cache.playlist_details[i])
            &&& r.outbox == d.outbox.push(Effect::SaveFavoritesCache)
            &&& r.player == d.player
            &&& !background ==> {
                &&& r.pages.playlist == Some(detail@)
                &&& r.pages.playlist_selected == 0
                &&& !r.pages.playlist_loading
                &&& r.status_msg == Some(
                    NoticeView {
                        kind: NoticeKind::PlaylistTracks,
                        detail: detail.title@,
                        count: detail.tracks@.len(),
                    },
                )
            }
            &&& background ==> {
                &&& r.status_msg == d.status_msg
                &&& d.pages.playlist is Some && d.pages.playlist->0.playlist_id@ == id
                    ==> r.pages.playlist == Some(detail@)
                &&& d.pages.playlist is None || d.pages.playlist->0.playlist_id@ != id ==> r.pages
                    == d.pages
            }
            &&& r.playlists.len() == d.playlists.len()
            &&& forall|i: int|
                0 <= i < d.playlists.len() ==> {
                    let p = d.playlists[i];
                    let q = #[trigger] r.playlists[i];
                    &&& p.playlist_id@ == id ==> q.nb_songs == detail.tracks@.len() as u64
                        && q.title == p.title
                    &&& p.playlist_id@ != id ==> q == p
                }
            &&& rows_count(d.search.display, r.search.display, id, detail.tracks@.len())
            &&& rows_count(d.fav.display, r.fav.display, id, detail.tracks@.len())
        }),
{
    reveal(DaemonView::result);
    reveal(DaemonView::favorites_result);
    reveal(DaemonView::playlists_result);
    reveal(DaemonView::pages_result);
    reveal(DaemonView::playlist_ready);
    reveal(DaemonView::set_playlist_track_count);
    reveal(DaemonView::refresh_playlist);
    reveal(DaemonView::show_playlist);
    let before = d.fav.cache.playlist_details;
    let id = detail.playlist_id@;
    let kept = storage::other_playlists(before, id);
    storage::remembered_playlists_are_found(before, detail@);
    seqs::what_passes_is_left(before, storage::other_playlist(id));
    assert forall|i: int| 0 <= i < before.len() && (#[trigger] before[i]).playlist_id@
        != id implies kept.push(detail@).contains(before[i]) by {
        let k = choose|k: int| 0 <= k < kept.len() && kept[k] == before[i];
        assert(kept.push(detail@)[k] == before[i]);
    }
}

/// Of rows, those of a playlist show this number of tracks, and all others are the
/// same.
pub open spec fn rows_count(
    before: Seq<DisplayItemView>,
    after: Seq<DisplayItemView>,
    id: Seq<char>,
    count: nat,
) -> bool {
    &&& after.len() == before.len()
    &&& forall|i: int|
        0 <= i < before.len() ==> if before[i].playlist_id == Some(id) {
            (#[trigger] after[i]).col3 == text::decimal_of(count) && after[i].col1
                == before[i].col1 && after[i].playlist_id == before[i].playlist_id
        } else {
            after[i] == before[i]
        }
}

/// Lists that have come are shown from the top.
pub proof fn lists_that_have_come_are_shown(
    d: DaemonView,
    radios: Vec<RadioItem>,
    moods: Vec<MoodEntry>,
    genres: Vec<GenreItem>,
    releases: Vec<DisplayItem>,
    now: u64,
    seed: u64,
)
    ensures
        ({
            let r = d.result(AsyncResult::RadiosReady(radios), now, seed);
            &&& r.explore.radios == radios@
            &&& r.explore.radios_selected == 0
            &&& !r.explore.radios_loading
            &&& counts(r, NoticeKind::RadiosLoaded, radios@.len())
            &&& r.explore.genres == d.explore.genres && r.explore.moods == d.explore.moods
            &&& r.outbox == d.outbox && r.player == d.player
        }),
        ({
            let r = d.result(AsyncResult::MoodsReady(moods), now, seed);
            &&& r.explore.moods == moods@
            &&& r.explore.moods_selected == 0
            &&& !r.explore.moods_loading
            &&& r.fav.cache.moods == Some(moods@)
            &&& counts(r, NoticeKind::MoodsLoaded, moods@.len())
            &&& r.explore.genres == d.explore.genres && r.explore.radios == d.explore.radios
            &&& r.outbox == d.outbox.push(Effect::SaveFavoritesCache) && r.player == d.player
        }),
        ({
            let r = d.result(AsyncResult::GenresReady(genres), now, seed);
            &&& r.explore.genres == genres@
            &&& r.explore.genres_selected == 0
            &&& !r.explore.genres_loading
            &&& counts(r, NoticeKind::GenresLoaded, genres@.len())
            &&& r.explore.moods == d.explore.moods && r.explore.radios == d.explore.radios
            &&& r.outbox == d.outbox && r.player == d.player
        }),
        ({
            let r = d.result(AsyncResult::NewReleasesReady(releases), now, seed);
            &&& r.explore.new_releases.len() == releases@.len()
            &&& forall|i: int|
                0 <= i < releases@.len() ==> (#[trigger] r.explore.new_releases[i])
                    == releases@[i]@
            &&& r.explore.new_releases_selected == 0
            &&& !r.explore.new_releases_loading
            &&& counts(r, NoticeKind::Loaded, releases@.len())
            &&& r.outbox == d.outbox && r.player == d.player
        }),
{
    reveal(DaemonView::result);
    reveal(DaemonView::favorites_result);
    reveal(DaemonView::playlists_result);
    reveal(DaemonView::pages_result);
    reveal(DaemonView::radios_ready);
    reveal(DaemonView::moods_ready);
    reveal(DaemonView::genres_ready);
    reveal(DaemonView::new_releases_ready);
}

/// Lists that could not be loaded are not waited for any more.
pub proof fn lists_that_failed_are_not_waited_for(d: DaemonView, err: String, now: u64, seed: u64)
    ensures
        ({
            let radios = d.result(AsyncResult::RadiosError(err), now, seed);
            let moods = d.result(AsyncResult::MoodsError(err), now, seed);
            let genres = d.result(AsyncResult::GenresError(err), now, seed);
            let releases = d.result(AsyncResult::NewReleasesError(err), now, seed);
            &&& !radios.explore.radios_loading && radios.explore.radios == d.explore.radios
            &&& reports(radios, NoticeKind::RadiosError, err@)
            &&& !moods.explore.moods_loading && moods.explore.moods == d.explore.moods
            &&& reports(moods, NoticeKind::MoodsError, err@)
            &&& !genres.explore.genres_loading && genres.explore.genres == d.explore.genres
            &&& reports(genres, NoticeKind::GenresError, err@)
            &&& !releases.explore.new_releases_loading
            &&& releases.explore.new_releases == d.explore.new_releases
            &&& reports(releases, NoticeKind::NewReleasesError, err@)
            &&& radios.outbox == d.outbox && moods.outbox == d.outbox
            &&& genres.outbox == d.outbox && releases.outbox == d.outbox
            &&& radios.player == d.player && moods.player == d.player
            &&& genres.player == d.player && releases.player == d.player
        }),
{
    reveal(DaemonView::result);
    reveal(DaemonView::favorites_result);
    reveal(DaemonView::playlists_result);
    reveal(DaemonView::pages_result);
    reveal(DaemonView::radios_failed);
    reveal(DaemonView::moods_failed);
    reveal(DaemonView::genres_failed);
    reveal(DaemonView::new_releases_failed);
}

// ── Downloads ───────────────────────────────────────────────────────

/// A track that was downloaded is the only one of its id among the downloads, in
/// the quality that it has; every other download stays, and the list is saved.
pub proof fn downloaded_tracks_are_listed(
    d: DaemonView,
    track: TrackData,
    quality: AudioQuality,
    now: u64,
    seed: u64,
)
    ensures
        ({
            let r = d.result(AsyncResult::OfflineTrackSaved { track, quality }, now, seed);
            let before = d.offline.index.tracks;
            let after = r.offline.index.tracks;
            &&& after.contains(OfflineTrack { track, quality })
            &&& forall|i: int|
                0 <= i < after.len() && (#[trigger] after[i]).track.track_id@ == track.track_id@
                    ==> after[i] == (OfflineTrack { track, quality })
            &&& forall|i: int|
                0 <= i < before.len() && (#[trigger] before[i]).track.track_id@ != track.track_id@
                    ==> after.contains(before[i])
            &&& r.offline.index.albums == d.offline.index.albums
            &&& r.offline.index.playlists == d.offline.index.playlists
            &&& !r.offline.loading
            &&& r.outbox == d.outbox.push(Effect::SaveOfflineIndex)
            &&& command_laws::says(r, NoticeKind::TrackSavedOffline)
            &&& r.player == d.player
        }),
{
    reveal(DaemonView::result);
    reveal(DaemonView::track_saved);
    let before = d.offline.index.tracks;
    let new = OfflineTrack { track, quality };
    let kept = seqs::others(before, track.track_id@);
    let test = seqs::other_than::<OfflineTrack>(track.track_id@);
    seqs::what_passes_is_left(before, test);
    let after = kept.push(new);
    assert(after[kept.len() as int] == new);
    assert forall|i: int|
        0 <= i < after.len() && (#[trigger] after[i]).track.track_id@
            == track.track_id@ implies after[i] == new by {
        if i < kept.len() {
            assert(after[i] == kept[i]);
            assert(test(kept[i]));
        }
    }
    assert forall|i: int|
        0 <= i < before.len() && (#[trigger] before[i]).track.track_id@
            != track.track_id@ implies after.contains(before[i]) by {
        assert(test(before[i]));
        let k = choose|k: int| 0 <= k < kept.len() && kept[k] == before[i];
        assert(after[k] == before[i]);
    }
}

/// A download of this id is listed.
pub open spec fn has_download(v: OfflineView, id: Seq<char>) -> bool {
    exists|i: int| 0 <= i < v.tracks.len() && (#[trigger] v.tracks[i]).track.track_id@ == id
}

/// Every track of a list that was missing is listed afterwards, in the quality
/// given; what was listed before stays, and nothing else is added.
proof fn missing_tracks_are_added(v: OfflineView, tracks: Seq<TrackData>, quality: AudioQuality)
    ensures
        ({
            let r = v.with_missing(tracks, quality);
            &&& forall|i: int|
                0 <= i < tracks.len() ==> has_download(r, (#[trigger] tracks[i]).track_id@)
            &&& forall|i: int| 0 <= i < v.tracks.len() ==> r.tracks.contains(#[trigger] v.tracks[i])
            &&& forall|i: int|
                0 <= i < r.tracks.len() ==> v.tracks.contains(#[trigger] r.tracks[i]) || (
                tracks.contains(r.tracks[i].track) && r.tracks[i].quality == quality)
            &&& r.albums == v.albums
            &&& r.playlists == v.playlists
        }),
    decreases tracks.len(),
{
    if tracks.len() > 0 {
        let init = tracks.drop_last();
        let last = tracks.last();
        missing_tracks_are_added(v, init, quality);
        let before = v.with_missing(init, quality);
        let r = v.with_missing(tracks, quality);
        let new = OfflineTrack { track: last, quality };
        let test = seqs::other_than::<OfflineTrack>(last.track_id@);
        seqs::what_passes_is_left(before.tracks, test);
        assert forall|k: int| 0 <= k < init.len() implies #[trigger] init[k] == tracks[k] by {}
        if before.has_track(last.track_id@) {
            let k = choose|k: int|
                0 <= k < before.tracks.len() && (#[trigger] before.tracks[k]).id_of()
                    == last.track_id@;
            assert(before.tracks[k].track.track_id@ == last.track_id@);
            assert forall|i: int| 0 <= i < tracks.len() implies has_download(
                r,
                (#[trigger] tracks[i]).track_id@,
            ) by {
                if i < init.len() {
                    assert(init[i] == tracks[i]);
                }
            }
            assert forall|i: int| 0 <= i < r.tracks.len() implies v.tracks.contains(
                #[trigger] r.tracks[i],
            ) || (tracks.contains(r.tracks[i].track) && r.tracks[i].quality == quality) by {
                if init.contains(r.tracks[i].track) {
                    let j = choose|j: int| 0 <= j < init.len() && init[j] == r.tracks[i].track;
                    assert(tracks[j] == r.tracks[i].track);
                }
            }
        } else {
            let kept = seqs::others(before.tracks, last.track_id@);
            assert(r.tracks == kept.push(new));
            assert(r.tracks[kept.len() as int] == new);
            assert forall|i: int| 0 <= i < before.tracks.len() implies r.tracks.contains(
                #[trigger] before.tracks[i],
            ) by {
                assert(before.tracks[i].id_of() != last.track_id@);
                assert(test(before.tracks[i]));
                let k = choose|k: int| 0 <= k < kept.len() && kept[k] == before.tracks[i];
                assert(r.tracks[k] == before.tracks[i]);
            }
            assert forall|i: int| 0 <= i < tracks.len() implies has_download(
                r,
                (#[trigger] tracks[i]).track_id@,
            ) by {
                if i < init.len() {
                    assert(init[i] == tracks[i]);
                    let k = choose|k: int|
                        0 <= k < before.tracks.len() && (#[trigger] before.tracks[k]).track.track_id@
                            == tracks[i].track_id@;
                    assert(r.tracks.contains(before.tracks[k]));
                    let j = choose|j: int| 0 <= j < r.tracks.len() && r.tracks[j]
                        == before.tracks[k];
                    assert(r.tracks[j].track.track_id@ == tracks[i].track_id@);
                } else {
                    assert(r.tracks[kept.len() as int].track.track_id@ == tracks[i].track_id@);
                }
            }
            assert forall|i: int| 0 <= i < v.tracks.len() implies r.tracks.contains(
                #[trigger] v.tracks[i],
            ) by {
                assert(before.tracks.contains(v.tracks[i]));
                let k = choose|k: int| 0 <= k < before.tracks.len() && before.tracks[k]
                    == v.tracks[i];
                assert(r.tracks.contains(before.tracks[k]));
            }
            assert forall|i: int| 0 <= i < r.tracks.len() implies v.tracks.contains(
                #[trigger] r.tracks[i],
            ) || (tracks.contains(r.tracks[i].track) && r.tracks[i].quality == quality) by {
                if i < kept.len() {
                    assert(r.tracks[i] == kept[i]);
                    assert(before.tracks.contains(kept[i]));
                    let k = choose|k: int| 0 <= k < before.tracks.len() && before.tracks[k]
                        == kept[i];
                    assert(v.tracks.contains(before.tracks[k]) || init.contains(
                        before.tracks[k].track,
                    ));
                    if init.contains(r.tracks[i].track) {
                        let j = choose|j: int| 0 <= j < init.len() && init[j] == r.tracks[i].track;
                        assert(tracks[j] == r.tracks[i].track);
                    }
                } else {
                    assert(tracks[tracks.len() - 1] == last);
                }
            }
        }
    } else {
        assert forall|i: int| 0 <= i < v.tracks.len() implies v.tracks.contains(
            #[trigger] v.tracks[i],
        ) by {}
    }
}

/// Every track of a downloaded album or playlist is among the downloads, missing
/// ones in the preferred quality; the album or playlist is found by its id, as it
/// was downloaded; what was downloaded before stays, and the list is saved.
#[verifier::rlimit(40)]
pub proof fn downloaded_lists_are_listed(
    d: DaemonView,
    album: AlbumDetail,
    playlist: PlaylistDetail,
    now: u64,
    seed: u64,
)
    ensures
        ({
            let r = d.result(AsyncResult::OfflineAlbumSaved { album }, now, seed);
            let after = r.offline.index;
            &&& forall|i: int|
                0 <= i < album.tracks@.len() ==> has_download(
                    after,
                    (#[trigger] album.tracks@[i]).track_id@,
                )
            &&& forall|i: int|
                0 <= i < d.offline.index.tracks.len() ==> after.tracks.contains(
                    #[trigger] d.offline.index.tracks[i],
                )
            &&& forall|i: int|
                0 <= i < after.tracks.len() ==> d.offline.index.tracks.contains(
                    #[trigger] after.tracks[i],
                ) || (album.tracks@.contains(after.tracks[i].track) && after.tracks[i].quality
                    == d.config.quality)
            &&& after.albums.len() > 0 && after.albums.last() == album@
            &&& forall|i: int|
                0 <= i < after.albums.len() - 1 ==> (#[trigger] after.albums[i]).album_id@
                    != album.album_id@
            &&& forall|i: int|
                0 <= i < d.offline.index.albums.len() && (
                #[trigger] d.offline.index.albums[i]).album_id@ != album.album_id@
                    ==> after.albums.contains(d.offline.index.albums[i])
            &&& after.playlists == d.offline.index.playlists
            &&& !r.offline.loading
            &&& r.outbox == d.outbox.push(Effect::SaveOfflineIndex)
            &&& command_laws::says(r, NoticeKind::AlbumSavedOffline)
            &&& r.player == d.player
        }),
        ({
            let r = d.result(AsyncResult::OfflinePlaylistSaved { playlist }, now, seed);
            let after = r.offline.index;
            &&& forall|i: int|
                0 <= i < playlist.tracks@.len() ==> has_download(
                    after,
                    (#[trigger] playlist.tracks@[i]).track_id@,
                )
            &&& forall|i: int|
                0 <= i < d.offline.index.tracks.len() ==> after.tracks.contains(
                    #[trigger] d.offline.index.tracks[i],
                )
            &&& forall|i: int|
                0 <= i < after.tracks.len() ==> d.offline.index.tracks.contains(
                    #[trigger] after.tracks[i],
                ) || (playlist.tracks@.contains(after.tracks[i].track) && after.tracks[i].quality
                    == d.config.quality)
            &&& after.playlists.len() > 0 && after.playlists.last() == playlist@
            &&& forall|i: int|
                0 <= i < after.playlists.len() - 1 ==> (#[trigger] after.playlists[i]).playlist_id@
                    != playlist.playlist_id@
            &&& forall|i: int|
                0 <= i < d.offline.index.playlists.len() && (
                #[trigger] d.offline.index.playlists[i]).playlist_id@ != playlist.playlist_id@
                    ==> after.playlists.contains(d.offline.index.playlists[i])
            &&& after.albums == d.offline.index.albums
            &&& !r.offline.loading
            &&& r.outbox == d.outbox.push(Effect::SaveOfflineIndex)
            &&& command_laws::says(r, NoticeKind::PlaylistSavedOffline)
            &&& r.player == d.player
        }),
{
    reveal(DaemonView::result);
    reveal(DaemonView::album_saved);
    reveal(DaemonView::playlist_saved);
    let index = d.offline.index;
    missing_tracks_are_added(index, album.tracks@, d.config.quality);
    missing_tracks_are_added(index, playlist.tracks@, d.config.quality);
    let albums = storage::other_albums(index.albums, album.album_id@);
    seqs::what_passes_is_left(index.albums, storage::other_album(album.album_id@));
    assert forall|i: int|
        0 <= i < index.albums.len() && (#[trigger] index.albums[i]).album_id@
            != album.album_id@ implies albums.push(album@).contains(index.albums[i]) by {
        let k = choose|k: int| 0 <= k < albums.len() && albums[k] == index.albums[i];
        assert(albums.push(album@)[k] == index.albums[i]);
    }
    let lists = storage::other_playlists(index.playlists, playlist.playlist_id@);
    seqs::what_passes_is_left(index.playlists, storage::other_playlist(playlist.playlist_id@));
    assert forall|i: int|
        0 <= i < index.playlists.len() && (#[trigger] index.playlists[i]).playlist_id@
            != playlist.playlist_id@ implies lists.push(playlist@).contains(
        index.playlists[i],
    ) by {
        let k = choose|k: int| 0 <= k < lists.len() && lists[k] == index.playlists[i];
        assert(lists.push(playlist@)[k] == index.playlists[i]);
    }
}

/// A download that failed is not waited for any more and adds nothing; its
/// progress is shown in percent.
pub proof fn failed_downloads_add_nothing(
    d: DaemonView,
    err: String,
    percent: u8,
    now: u64,
    seed: u64,
)
    ensures
        ({
            let track = d.result(AsyncResult::OfflineTrackSaveError(err), now, seed);
            let album = d.result(AsyncResult::OfflineAlbumSaveError(err), now, seed);
            let list = d.result(AsyncResult::OfflinePlaylistSaveError(err), now, seed);
            &&& !track.offline.loading && track.offline.index == d.offline.index
            &&& reports(track, NoticeKind::OfflineDownloadError, err@)
            &&& track.outbox == d.outbox && track.player == d.player
            &&& album == track && list == track
        }),
        d.result(AsyncResult::OfflineDownloadProgress { percent }, now, seed) == (DaemonView {
            status_msg: Some(
                NoticeView {
                    kind: NoticeKind::DownloadProgress,
                    detail: Seq::empty(),
                    count: percent as nat,
                },
            ),
            ..d
        }),
{
    reveal(DaemonView::result);
    reveal(DaemonView::download_failed);
    reveal(DaemonView::download_progress);
}

// ── Playing ─────────────────────────────────────────────────────────

/// The tracks of a mix or of a station become the queue and the first one is
/// fetched; an empty answer says so and changes nothing else.
#[verifier::rlimit(40)]
pub proof fn mixes_and_stations_play(
    d: DaemonView,
    tracks: Vec<TrackData>,
    now: u64,
    seed: u64,
)
    ensures
        ({
            let mix = d.result(AsyncResult::MixReady(tracks), now, seed);
            let radio = d.result(AsyncResult::RadioTracksReady(tracks), now, seed);
            &&& tracks@.len() == 0 ==> {
                &&& mix == (DaemonView {
                    status_msg: Some(
                        NoticeView {
                            kind: NoticeKind::NoMixTracks,
                            detail: Seq::empty(),
                            count: 0,
                        },
                    ),
                    ..d
                })
                &&& radio == (DaemonView {
                    status_msg: Some(
                        NoticeView {
                            kind: NoticeKind::NoRadioTracks,
                            detail: Seq::empty(),
                            count: 0,
                        },
                    ),
                    ..d
                })
            }
            &&& tracks@.len() > 0 ==> {
                &&& mix.player.queue == tracks@ && radio.player.queue == tracks@
                &&& mix.player.queue_index == 0 && radio.player.queue_index == 0
                &&& !mix.run.flow_active && mix.run.active_mood is None
                &&& !radio.run.flow_active && radio.run.active_mood is None
                &&& playback_laws::can_fetch(d, tracks@[0]) ==> {
                    &&& playback_laws::fetches(d, mix, tracks@[0])
                    &&& playback_laws::fetches(d, radio, tracks@[0])
                }
            }
        }),
{
    reveal(DaemonView::result);
    reveal(DaemonView::favorites_result);
    reveal(DaemonView::playlists_result);
    reveal(DaemonView::pages_result);
    reveal(DaemonView::playing_result);
    reveal(DaemonView::play_batch);
    reveal(DaemonView::play_list);
    reveal(DaemonView::start_play_track);
    reveal(DaemonView::start_play_offline_track);
}

/// Tracks that begin a stream become the queue, tracks that continue one are put
/// behind it; either way the first of them is fetched.
pub open spec fn streams_on(
    d: DaemonView,
    r: DaemonView,
    tracks: Seq<TrackData>,
    continues: bool,
) -> bool {
    &&& continues ==> {
        &&& r.player.queue == d.player.queue + tracks
        &&& r.player.queue_index == d.player.queue.len()
        &&& r.player.queue[r.player.queue_index as int] == tracks[0]
    }
    &&& !continues ==> r.player.queue == tracks && r.player.queue_index == 0
    &&& playback_laws::can_fetch(d, tracks[0]) ==> playback_laws::fetches(d, r, tracks[0])
}

/// Putting tracks behind the queue, or making them the queue, fetches the first.
proof fn batches_stream_on(
    d: DaemonView,
    tracks: Seq<TrackData>,
    kind: NoticeKind,
    flow: bool,
    mood: Option<models::MoodItem>,
)
    requires
        d.fits(),
        tracks.len() > 0,
    ensures
        ({
            let r = d.continue_queue(tracks, kind);
            &&& streams_on(d, r, tracks, true)
            &&& r.run.flow_active == d.run.flow_active
            &&& r.run.active_mood == d.run.active_mood
        }),
        ({
            let run = crate::daemon::RunView { flow_active: flow, active_mood: mood, ..d.run };
            let r = d.begin_queue(tracks, kind, run);
            &&& streams_on(d, r, tracks, false)
            &&& r.run.flow_active == flow
            &&& r.run.active_mood == mood
        }),
{
    reveal(DaemonView::continue_queue);
    reveal(DaemonView::begin_queue);
    reveal(DaemonView::start_play_track);
    reveal(DaemonView::start_play_offline_track);
}

/// Flow begins with the tracks that have come, and goes on with them when it plays
/// already; from then on it is what goes on at the end of the queue.
#[verifier::rlimit(40)]
pub proof fn flow_goes_on(d: DaemonView, tracks: Vec<TrackData>, now: u64, seed: u64)
    requires
        d.fits(),
    ensures
        ({
            let r = d.result(AsyncResult::FlowReady(tracks), now, seed);
            &&& tracks@.len() > 0 ==> {
                &&& streams_on(d, r, tracks@, d.run.flow_active)
                &&& r.run.flow_active
                &&& !d.run.flow_active ==> r.run.active_mood is None
            }
            &&& tracks@.len() == 0 ==> r.player == d.player && r.outbox == d.outbox && r.run
                == d.run && command_laws::says(r, NoticeKind::NoFlowTracks)
        }),
{
    reveal(DaemonView::result);
    reveal(DaemonView::favorites_result);
    reveal(DaemonView::playlists_result);
    reveal(DaemonView::pages_result);
    reveal(DaemonView::playing_result);
    reveal(DaemonView::flow_ready);
    if tracks@.len() > 0 {
        batches_stream_on(d, tracks@, NoticeKind::FlowTracks, true, None);
    }
}

/// A mood begins with the tracks that have come, or goes on with them, as it was
/// asked for; it stays the one that goes on at the end of the queue.
#[verifier::rlimit(40)]
pub proof fn moods_go_on(
    d: DaemonView,
    tracks: Vec<TrackData>,
    continuation: bool,
    now: u64,
    seed: u64,
)
    requires
        d.fits(),
    ensures
        ({
            let r = d.result(AsyncResult::MoodTracksReady { tracks, continuation }, now, seed);
            &&& tracks@.len() > 0 ==> {
                &&& streams_on(d, r, tracks@, continuation)
                &&& r.run.active_mood == d.run.active_mood
                &&& !continuation ==> !r.run.flow_active
            }
            &&& tracks@.len() == 0 ==> r.player == d.player && r.outbox == d.outbox && r.run
                == d.run && command_laws::says(r, NoticeKind::NoRadioTracks)
        }),
{
    reveal(DaemonView::result);
    reveal(DaemonView::favorites_result);
    reveal(DaemonView::playlists_result);
    reveal(DaemonView::pages_result);
    reveal(DaemonView::playing_result);
    reveal(DaemonView::mood_tracks_ready);
    if tracks@.len() > 0 {
        batches_stream_on(d, tracks@, NoticeKind::RadioTracks, false, d.run.active_mood);
    }
}

/// More tracks that could not be had stop playback, which waits for them; a mood
/// that could not begin leaves what plays alone.
#[verifier::rlimit(40)]
pub proof fn streams_that_fail_stop(
    d: DaemonView,
    err: String,
    continuation: bool,
    now: u64,
    seed: u64,
)
    ensures
        ({
            let flow = d.result(AsyncResult::FlowError(err), now, seed);
            let mood = d.result(AsyncResult::MoodTracksError { err, continuation }, now, seed);
            &&& flow.player.status == PlaybackStatus::Stopped
            &&& reports(flow, NoticeKind::FlowError, err@)
            &&& mood.player.status == (if continuation {
                PlaybackStatus::Stopped
            } else {
                d.player.status
            })
            &&& reports(mood, NoticeKind::RadioTracksError, err@)
            &&& playback_laws::same_queue(d, flow) && playback_laws::same_queue(d, mood)
            &&& flow.outbox == d.outbox && mood.outbox == d.outbox
            &&& flow.player.current_track == d.player.current_track
            &&& mood.player.current_track == d.player.current_track
        }),
{
    reveal(DaemonView::result);
    reveal(DaemonView::favorites_result);
    reveal(DaemonView::playlists_result);
    reveal(DaemonView::pages_result);
    reveal(DaemonView::playing_result);
    reveal(DaemonView::fetch_more_failed);
}

/// The audio of the latest request plays, from the beginning of the track and in
/// the quality that it has: the clock starts now. Audio that the output refuses
/// leaves everything but a word of why, and audio of an older request everything.
#[verifier::rlimit(40)]
pub proof fn the_latest_request_plays(
    d: DaemonView,
    track: TrackData,
    quality: AudioQuality,
    generation: u64,
    play_error: Option<String>,
    now: u64,
    later: u64,
    seed: u64,
)
    requires
        now <= later,
    ensures
        ({
            let r = d.result(
                AsyncResult::TrackReady { track, quality, generation, play_error },
                now,
                seed,
            );
            let wanted = generation == d.run.generation && d.run.engine_ready;
            &&& !wanted ==> r == d
            &&& wanted && play_error is Some ==> r == (DaemonView {
                status_msg: Some(
                    NoticeView {
                        kind: NoticeKind::PlaybackError,
                        detail: play_error->0@,
                        count: 0,
                    },
                ),
                ..d
            })
            &&& wanted && play_error is None ==> {
                &&& r.player.status == PlaybackStatus::Playing
                &&& r.player.current_track == Some(track)
                &&& r.player.quality == quality
                &&& r.player.duration_secs == track.duration
                &&& r.player.position_secs == 0
                &&& r.run.started_at == Some(now)
                &&& r.run.offset_secs == 0
                &&& r.run.skips == 0
                &&& r.status_msg is None
                &&& r.outbox == d.outbox
                &&& playback_laws::same_queue(d, r)
                &&& r.on_tick(false, later, seed).player.position_secs == playback_laws::heard(
                    0,
                    now,
                    later,
                    track.duration,
                )
            }
        }),
{
    reveal(DaemonView::result);
    reveal(DaemonView::favorites_result);
    reveal(DaemonView::playlists_result);
    reveal(DaemonView::pages_result);
    reveal(DaemonView::playing_result);
    reveal(DaemonView::track_ready);
    reveal(DaemonView::track_started);
    let r = d.track_started(track, quality, now);
    playback_laws::ticks_follow_the_clock(r, now, later, seed);
}

/// A track that could not be fetched is read from disk if it is downloaded, and
/// otherwise skipped: the queue goes one place on and the failure is counted. A
/// failure of an older request changes nothing.
#[verifier::rlimit(40)]
pub proof fn a_failed_track_is_replaced_or_skipped(
    d: DaemonView,
    err: String,
    generation: u64,
    now: u64,
    seed: u64,
)
    requires
        d.player.current_track is Some,
        !d.is_offline,
        d.run.key_ready,
        !d.player.shuffle,
        d.fits(),
    ensures
        ({
            let r = d.result(AsyncResult::TrackFetchError { err, generation }, now, seed);
            let track = d.player.current_track->0;
            let copy = playback_laws::on_disk(d, track);
            let next = d.player.queue_index + 1;
            &&& generation != d.run.generation ==> r == d
            &&& generation == d.run.generation && copy ==> {
                &&& playback_laws::reads(d, r, track)
                &&& r.run.skips == 0
                &&& playback_laws::same_queue(d, r)
            }
            &&& generation == d.run.generation && !copy && d.run.skips < 5 && next
                < d.player.queue.len() ==> {
                &&& playback_laws::fetches(d, r, d.player.queue[next])
                &&& r.player.queue_index == next
                &&& r.run.skips == d.run.skips + 1
            }
            &&& generation == d.run.generation && !copy && d.run.skips >= 5 ==> {
                &&& r.player.status == PlaybackStatus::Stopped
                &&& r.run.skips == 0
                &&& r.outbox == d.outbox
                &&& reports(r, NoticeKind::TrackError, err@)
                &&& playback_laws::same_queue(d, r)
            }
        }),
{
    reveal(DaemonView::result);
    reveal(DaemonView::favorites_result);
    reveal(DaemonView::playlists_result);
    reveal(DaemonView::pages_result);
    reveal(DaemonView::playing_result);
    reveal(DaemonView::track_failed);
    reveal(DaemonView::play_next);
    reveal(DaemonView::next_in_queue);
    reveal(DaemonView::advance_to);
    reveal(DaemonView::start_play_track);
    reveal(DaemonView::start_play_offline_track);
    playback_laws::on_disk_is_indexed(d, d.player.current_track->0);
}

} // verus!
