//! What the commands promise: which work each of them hands out, what it shows,
//! and what it leaves alone.

use vstd::prelude::*;

use crate::daemon::playback_laws;
use crate::daemon::{Chance, DaemonView, Effect, EngineCommand};
use crate::models;
use crate::models::{ArtistSubTab, DisplayItemView, MoodItem, TrackData};
use crate::notice::{NoticeKind, NoticeView};
use crate::player::{PlaybackStatus, RepeatMode};
use crate::protocol::{
    ActiveTab, Command, ExploreCategory, FavoritesCategory, OfflineCategory, Screen, SearchCategory,
};
use crate::queue;
use crate::seqs;
use crate::seqs::HasId;

verus! {

/// A message without words of its own is shown.
pub open spec fn says(r: DaemonView, kind: NoticeKind) -> bool {
    r.status_msg == Some(NoticeView { kind, detail: Seq::empty(), count: 0 })
}

/// The command hands out this work and changes nothing else.
pub open spec fn only_hands_out(d: DaemonView, cmd: Command, chance: Chance, now: u64, e: Effect) -> bool {
    d.command(cmd, now, chance) == (DaemonView { outbox: d.outbox.push(e), ..d })
}

// ── Search ──────────────────────────────────────────────────────────

/// What a search for `query` in a category asks of the service.
pub open spec fn search_work(query: String, category: SearchCategory, e: Effect) -> bool {
    match e {
        Effect::SearchTracks { query: q } => q == query && category == SearchCategory::Track,
        Effect::SearchIn { query: q, category: c } => q == query && c == category && category
            != SearchCategory::Track,
        _ => false,
    }
}

/// With a connection, a search hands out exactly one piece of work: the words that
/// were typed, in the category that is shown. Without one it hands out nothing.
/// The words are remembered either way.
pub proof fn searches_ask_in_the_category_shown(
    d: DaemonView,
    query: String,
    now: u64,
    chance: Chance,
)
    ensures
        ({
            let r = d.command(Command::Search { query }, now, chance);
            &&& r.search.last_query == query
            &&& r.search.category == d.search.category
            &&& r.search.display == d.search.display
            &&& r.search.results == d.search.results
            &&& r.player == d.player
            &&& !d.is_offline ==> {
                &&& r.outbox.len() == d.outbox.len() + 1
                &&& r.outbox.drop_last() == d.outbox
                &&& search_work(query, d.search.category, r.outbox.last())
                &&& r.search.loading
            }
            &&& d.is_offline ==> r.outbox == d.outbox && says(r, NoticeKind::NoInternet)
        }),
        ({
            let r = d.start_search(query);
            &&& !d.is_offline ==> {
                &&& r.outbox.len() == d.outbox.len() + 1
                &&& r.outbox.drop_last() == d.outbox
                &&& search_work(query, d.search.category, r.outbox.last())
            }
            &&& d.is_offline ==> r.outbox == d.outbox
            &&& r.search.category == d.search.category
        }),
{
    reveal(DaemonView::command);
    reveal(DaemonView::playing_command);
    reveal(DaemonView::browsing_command);
    reveal(DaemonView::loading_command);
    reveal(DaemonView::search_for);
    reveal(DaemonView::start_search);
}

/// Another search category repeats the last search in it, if there was one.
#[verifier::rlimit(40)]
pub proof fn a_new_search_category_repeats_the_search(
    d: DaemonView,
    index: usize,
    now: u64,
    chance: Chance,
)
    requires
        d.active_tab == ActiveTab::Search,
        index < 7,
        index != d.search.category.place(),
    ensures
        ({
            let r = d.command(Command::SetCategory { index }, now, chance);
            let category = seq![
                SearchCategory::Track,
                SearchCategory::Artist,
                SearchCategory::Album,
                SearchCategory::Playlist,
                SearchCategory::Podcast,
                SearchCategory::Episode,
                SearchCategory::Profile,
            ][index as int];
            &&& r.search.category == category
            &&& r.search.selected == 0
            &&& r.search.last_query == d.search.last_query
            &&& r.active_tab == ActiveTab::Search
            &&& d.search.last_query@.len() > 0 && !d.is_offline ==> {
                &&& r.outbox.len() == d.outbox.len() + 1
                &&& r.outbox.drop_last() == d.outbox
                &&& search_work(d.search.last_query, category, r.outbox.last())
                &&& r.search.loading
            }
            &&& d.search.last_query@.len() == 0 || d.is_offline ==> r.outbox == d.outbox
        }),
{
    let shown = DaemonView {
        search: crate::daemon::SearchView {
            category: SearchCategory::nth(index as int),
            selected: 0,
            ..d.search
        },
        ..d
    };
    let r = d.command(Command::SetCategory { index }, now, chance);
    assert(r == if d.search.last_query@.len() == 0 {
        shown
    } else {
        shown.start_search(d.search.last_query)
    }) by {
        reveal(DaemonView::command);
        reveal(DaemonView::playing_command);
        reveal(DaemonView::browsing_command);
        reveal(DaemonView::set_category);
    }
    assert(SearchCategory::nth(index as int) == seq![
        SearchCategory::Track,
        SearchCategory::Artist,
        SearchCategory::Album,
        SearchCategory::Playlist,
        SearchCategory::Podcast,
        SearchCategory::Episode,
        SearchCategory::Profile,
    ][index as int]);
    reveal(DaemonView::start_search);
}

// ── Tabs, categories and cursors ────────────────────────────────────

/// The tabs stand in a ring: Search, Favorites, Explore, Downloads.
pub open spec fn right_of(a: ActiveTab, b: ActiveTab) -> bool {
    match a {
        ActiveTab::Search => b == ActiveTab::Favorites,
        ActiveTab::Favorites => b == ActiveTab::Explore,
        ActiveTab::Explore => b == ActiveTab::Downloads,
        ActiveTab::Downloads => b == ActiveTab::Search,
    }
}

/// The next tab is the one to the right, the previous one the one to the left,
/// and a tab can be named; nothing else changes.
pub proof fn tabs_are_walked_and_named(d: DaemonView, tab: ActiveTab, now: u64, chance: Chance)
    ensures
        ({
            let next = d.command(Command::NextTab, now, chance);
            let back = d.command(Command::PrevTab, now, chance);
            let named = d.command(Command::SetTab { tab }, now, chance);
            &&& right_of(d.active_tab, next.active_tab)
            &&& right_of(back.active_tab, d.active_tab)
            &&& named.active_tab == tab
            &&& next == (DaemonView { active_tab: next.active_tab, ..d })
            &&& back == (DaemonView { active_tab: back.active_tab, ..d })
            &&& named == (DaemonView { active_tab: tab, ..d })
        }),
{
    reveal(DaemonView::command);
    reveal(DaemonView::playing_command);
    reveal(DaemonView::browsing_command);
    reveal(DaemonView::show_tab);
}

/// Another favorites category is shown from what is kept of it, or asked for; the
/// tracks that were played last are always asked for.
pub proof fn a_new_favorites_category_is_shown_or_asked_for(
    d: DaemonView,
    index: usize,
    now: u64,
    chance: Chance,
)
    requires
        d.active_tab == ActiveTab::Favorites,
        index < 6,
        index != d.fav.category.place(),
        !d.is_offline,
    ensures
        ({
            let r = d.command(Command::SetCategory { index }, now, chance);
            let category = seq![
                FavoritesCategory::RecentlyPlayed,
                FavoritesCategory::Tracks,
                FavoritesCategory::Artists,
                FavoritesCategory::Albums,
                FavoritesCategory::Playlists,
                FavoritesCategory::Following,
            ][index as int];
            let kept = match category {
                FavoritesCategory::RecentlyPlayed => None,
                FavoritesCategory::Tracks => match d.fav.cache.tracks {
                    Some(tracks) => Some(tracks.map_values(|t: TrackData| models::row_of_track(t))),
                    None => None,
                },
                FavoritesCategory::Artists => d.fav.cache.artists,
                FavoritesCategory::Albums => d.fav.cache.albums,
                FavoritesCategory::Playlists => d.fav.cache.playlists,
                FavoritesCategory::Following => d.fav.cache.following,
            };
            &&& r.fav.category == category
            &&& r.fav.selected == 0
            &&& r.fav.cache == d.fav.cache
            &&& match kept {
                Some(rows) => r.outbox == d.outbox && r.fav.display == rows && !r.fav.loading,
                None => r.outbox == d.outbox.push(Effect::LoadFavorites { category })
                    && r.fav.loading,
            }
            &&& kept is Some && category == FavoritesCategory::Tracks ==> Some(r.fav.tracks)
                == d.fav.cache.tracks
        }),
{
    reveal(DaemonView::command);
    reveal(DaemonView::playing_command);
    reveal(DaemonView::browsing_command);
    reveal(DaemonView::set_category);
    reveal(DaemonView::start_load_favorites_category);
    let r = d.command(Command::SetCategory { index }, now, chance);
    match d.fav.cache.tracks {
        Some(tracks) => {
            assert(models::rows_of_tracks(tracks) =~= tracks.map_values(
                |t: TrackData| models::row_of_track(t),
            ));
        },
        None => {},
    }
}

/// Another category of the Explore tab is shown from the top; genres and new
/// releases are asked for where there are none yet.
pub proof fn a_new_explore_category_is_loaded_when_empty(
    d: DaemonView,
    index: usize,
    now: u64,
    chance: Chance,
)
    requires
        d.active_tab == ActiveTab::Explore,
        index < 4,
        index != d.explore.category.place(),
    ensures
        ({
            let r = d.command(Command::SetCategory { index }, now, chance);
            let category = seq![
                ExploreCategory::Moods,
                ExploreCategory::NewReleases,
                ExploreCategory::Categories,
                ExploreCategory::Radios,
            ][index as int];
            let genres = category == ExploreCategory::Categories && d.explore.genres.len() == 0
                && !d.explore.genres_loading && !d.is_offline;
            let releases = category == ExploreCategory::NewReleases
                && d.explore.new_releases.len() == 0 && !d.explore.new_releases_loading
                && !d.is_offline;
            &&& r.explore.category == category
            &&& cursor(r) == 0
            &&& r.outbox == (if genres {
                d.outbox.push(Effect::LoadGenres)
            } else if releases {
                d.outbox.push(Effect::LoadNewReleases)
            } else {
                d.outbox
            })
            &&& r.explore.genres_loading == (genres || d.explore.genres_loading)
            &&& r.explore.new_releases_loading == (releases || d.explore.new_releases_loading)
        }),
{
    reveal(DaemonView::command);
    reveal(DaemonView::playing_command);
    reveal(DaemonView::browsing_command);
    reveal(DaemonView::set_category);
    reveal(DaemonView::explores);
    reveal(DaemonView::start_load_genres);
    reveal(DaemonView::start_load_new_releases);
}

/// The next and the previous category lie next to the one that is shown, in a
/// ring: going there and back leads to it again.
pub proof fn categories_are_walked_in_a_ring(d: DaemonView, now: u64, chance: Chance)
    ensures
        ({
            let count: int = match d.active_tab {
                ActiveTab::Search => 7,
                ActiveTab::Favorites => 6,
                ActiveTab::Explore => 4,
                ActiveTab::Downloads => 3,
            };
            let at = d.category_place();
            let next = d.command(Command::NextCategory, now, chance);
            let back = d.command(Command::PrevCategory, now, chance);
            &&& next.active_tab == d.active_tab
            &&& next.category_place() == (if at + 1 == count {
                0
            } else {
                at + 1
            })
            &&& back.active_tab == d.active_tab
            &&& back.category_place() == (if at == 0 {
                count - 1
            } else {
                at - 1
            })
        }),
{
    reveal(DaemonView::command);
    reveal(DaemonView::playing_command);
    reveal(DaemonView::browsing_command);
    crate::daemon::laws::a_new_category_is_shown_from_the_top(
        d,
        (d.category_place() + 1) % d.category_count(),
    );
    crate::daemon::laws::a_new_category_is_shown_from_the_top(
        d,
        (d.category_place() + d.category_count() - 1) % d.category_count(),
    );
}

/// The cursor of the list that is shown.
pub open spec fn cursor(d: DaemonView) -> usize {
    match d.active_tab {
        ActiveTab::Search => d.search.selected,
        ActiveTab::Favorites => d.fav.selected,
        ActiveTab::Explore => match d.explore.category {
            ExploreCategory::Moods => d.explore.moods_selected,
            ExploreCategory::NewReleases => d.explore.new_releases_selected,
            ExploreCategory::Categories => d.explore.genres_selected,
            ExploreCategory::Radios => d.explore.radios_selected,
        },
        ActiveTab::Downloads => d.offline.selected,
    }
}

/// How many rows the list that is shown has.
pub open spec fn shown(d: DaemonView) -> nat {
    match d.active_tab {
        ActiveTab::Search => d.search.display.len(),
        ActiveTab::Favorites => d.fav.display.len(),
        ActiveTab::Explore => match d.explore.category {
            ExploreCategory::Moods => d.explore.moods.len(),
            ExploreCategory::NewReleases => d.explore.new_releases.len(),
            ExploreCategory::Categories => d.explore.genres.len(),
            ExploreCategory::Radios => d.explore.radios.len(),
        },
        ActiveTab::Downloads => match d.offline.category {
            OfflineCategory::Tracks => d.offline.index.standalone().len(),
            OfflineCategory::Albums => d.offline.index.albums.len(),
            OfflineCategory::Playlists => d.offline.index.playlists.len(),
        },
    }
}

/// Nothing but cursors changed.
pub open spec fn only_moves(d: DaemonView, r: DaemonView) -> bool {
    &&& r.player == d.player
    &&& r.outbox == d.outbox
    &&& r.active_tab == d.active_tab
    &&& r.run == d.run
    &&& r.pages == d.pages
    &&& r.status_msg == d.status_msg
    &&& r.search.display == d.search.display
    &&& r.search.category == d.search.category
    &&& r.fav.display == d.fav.display
    &&& r.fav.category == d.fav.category
    &&& r.explore.category == d.explore.category
    &&& r.offline.index == d.offline.index
    &&& r.offline.category == d.offline.category
}

/// Moving the cursor moves nothing else.
proof fn a_cursor_moves(d: DaemonView, at: usize)
    ensures
        only_moves(d, d.with_selection(at)),
        cursor(d.with_selection(at)) == at,
{
    reveal(DaemonView::with_selection);
}

/// The cursor goes one row down or up, or to the row that is named, and stays
/// inside the list that is shown.
pub proof fn the_cursor_stays_in_the_list(d: DaemonView, index: usize, now: u64, chance: Chance)
    requires
        shown(d) <= usize::MAX,
    ensures
        ({
            let down = d.command(Command::SelectDown, now, chance);
            let up = d.command(Command::SelectUp, now, chance);
            let there = d.command(Command::SelectIndex { index }, now, chance);
            &&& only_moves(d, down) && only_moves(d, up) && only_moves(d, there)
            &&& shown(d) > 0 ==> {
                &&& cursor(down) == (if cursor(d) + 1 < shown(d) {
                    cursor(d) + 1
                } else {
                    shown(d) - 1
                })
                &&& cursor(there) == (if index < shown(d) {
                    index as int
                } else {
                    shown(d) - 1
                })
            }
            &&& shown(d) == 0 ==> down == d && there == d
            &&& cursor(up) == (if cursor(d) > 0 {
                cursor(d) - 1
            } else {
                0
            })
        }),
{
    reveal(DaemonView::command);
    reveal(DaemonView::playing_command);
    reveal(DaemonView::browsing_command);
    reveal(DaemonView::select);
    reveal(DaemonView::select_up);
    a_cursor_moves(d, (cursor(d) + 1) as usize);
    a_cursor_moves(d, (shown(d) - 1) as usize);
    a_cursor_moves(d, index);
    a_cursor_moves(d, 0);
    a_cursor_moves(d, (cursor(d) - 1) as usize);
}

// ── Detail pages ────────────────────────────────────────────────────

/// A page that is opened lies on top of the one that was open, closing uncovers
/// that one again, and all of them can be closed at once.
pub proof fn pages_are_stacked(
    d: DaemonView,
    page: crate::protocol::NavOverlay,
    now: u64,
    chance: Chance,
)
    requires
        d.wf(),
    ensures
        ({
            let over = d.command(Command::PushNavOverlay(page), now, chance);
            let back = over.command(Command::PopNavOverlay, now, chance);
            let none = d.command(Command::ClearNavOverlayStack, now, chance);
            &&& over.pages.top == Some(page)
            &&& d.pages.top is Some ==> over.pages.below == d.pages.below.push(d.pages.top->0)
            &&& d.pages.top is None ==> over.pages.below == d.pages.below
            &&& back == d
            &&& none.pages.top is None && none.pages.below.len() == 0
            &&& none.player == d.player && none.outbox == d.outbox
        }),
        d.pages.top is None ==> d.command(Command::PopNavOverlay, now, chance) == d,
{
    reveal(DaemonView::command);
    reveal(DaemonView::playing_command);
    reveal(DaemonView::browsing_command);
    reveal(DaemonView::push_nav);
    reveal(DaemonView::pop_nav);
    reveal(DaemonView::clear_nav);
    let back = d.push_nav(page).pop_nav();
    assert(back.pages.below =~= d.pages.below);
}

/// With a connection, the page that is asked for is loaded: its old content goes,
/// its cursor is at the top, and one request goes out, for the id that was given.
/// Without one, nothing is asked for and the page stays.
#[verifier::rlimit(40)]
pub proof fn pages_are_asked_for_by_id(
    d: DaemonView,
    id: String,
    genre_id: u64,
    name: String,
    now: u64,
    chance: Chance,
)
    ensures
        ({
            let album = d.command(Command::GetAlbumDetail { album_id: id }, now, chance);
            let artist = d.command(Command::GetArtistDetail { artist_id: id }, now, chance);
            let show = d.command(Command::GetShowDetail { show_id: id }, now, chance);
            let genre = d.command(Command::GetGenreDetail { genre_id, name }, now, chance);
            &&& !d.is_offline ==> {
                &&& album.outbox == d.outbox.push(Effect::LoadAlbum { album_id: id })
                &&& album.pages.album is None && album.pages.album_loading
                &&& album.pages.album_selected == 0
                &&& says(album, NoticeKind::LoadingAlbum)
                &&& artist.outbox == d.outbox.push(Effect::LoadArtist { artist_id: id })
                &&& artist.pages.artist is None && artist.pages.artist_loading
                &&& artist.pages.artist_selected == 0
                &&& artist.pages.artist_sub_tab == ArtistSubTab::TopTracks
                &&& says(artist, NoticeKind::LoadingArtist)
                &&& show.outbox == d.outbox.push(Effect::LoadShow { show_id: id })
                &&& show.pages.playlist is None && show.pages.playlist_loading
                &&& show.pages.playlist_selected == 0
                &&& genre.outbox == d.outbox.push(Effect::LoadGenre { genre_id, name })
                &&& genre.pages.genre is None && genre.pages.genre_loading
            }
            &&& d.is_offline ==> {
                &&& album.outbox == d.outbox && album.pages == d.pages
                &&& artist.outbox == d.outbox && artist.pages == d.pages
                &&& show.outbox == d.outbox && show.pages == d.pages
                &&& genre.outbox == d.outbox && genre.pages == d.pages
                &&& says(album, NoticeKind::NoInternet) && says(artist, NoticeKind::NoInternet)
                &&& says(show, NoticeKind::NoInternet) && says(genre, NoticeKind::NoInternet)
            }
            &&& album.player == d.player && artist.player == d.player
            &&& show.player == d.player && genre.player == d.player
        }),
{
    reveal(DaemonView::command);
    reveal(DaemonView::playing_command);
    reveal(DaemonView::browsing_command);
    reveal(DaemonView::loading_command);
    reveal(DaemonView::start_load_album_detail);
    reveal(DaemonView::start_load_artist_detail);
    reveal(DaemonView::start_load_show_detail);
    reveal(DaemonView::start_load_genre_detail);
}

/// A playlist's page that is kept is shown at once and refreshed in the
/// background; one that is not kept is loaded.
pub proof fn kept_playlists_are_shown_at_once(
    d: DaemonView,
    playlist_id: String,
    at: int,
    now: u64,
    chance: Chance,
)
    requires
        !d.is_offline,
    ensures
        ({
            let r = d.command(Command::GetPlaylistDetail { playlist_id }, now, chance);
            let kept = d.fav.cache.playlist_details;
            &&& 0 <= at < kept.len() && kept[at].playlist_id@ == playlist_id@ && (forall|k: int|
                0 <= k < at ==> (#[trigger] kept[k]).playlist_id@ != playlist_id@) ==> {
                &&& r.pages.playlist == Some(kept[at])
                &&& r.pages.playlist_selected == 0
                &&& !r.pages.playlist_loading
                &&& r.outbox == d.outbox.push(
                    Effect::LoadPlaylist { playlist_id, background: true },
                )
            }
            &&& (forall|k: int|
                0 <= k < kept.len() ==> (#[trigger] kept[k]).playlist_id@ != playlist_id@) ==> {
                &&& r.pages.playlist is None
                &&& r.pages.playlist_selected == 0
                &&& r.pages.playlist_loading
                &&& r.outbox == d.outbox.push(
                    Effect::LoadPlaylist { playlist_id, background: false },
                )
            }
            &&& r.player == d.player
        }),
{
    reveal(DaemonView::command);
    reveal(DaemonView::playing_command);
    reveal(DaemonView::browsing_command);
    reveal(DaemonView::loading_command);
    reveal(DaemonView::start_load_playlist_detail);
    let kept = d.fav.cache.playlist_details;
    crate::storage::playlists_are_found_by_id(kept, playlist_id@, at);
}

// ── Lists that are asked for ────────────────────────────────────────

/// With a connection each list is asked for by one request of its own; without
/// one nothing is asked for. Moods that are there already are not asked for again.
#[verifier::rlimit(40)]
pub proof fn lists_are_asked_for(d: DaemonView, now: u64, chance: Chance)
    ensures
        ({
            let favorites = d.command(Command::LoadFavorites, now, chance);
            let playlists = d.command(Command::RequestPlaylists, now, chance);
            let radios = d.command(Command::LoadRadios, now, chance);
            let moods = d.command(Command::LoadMoods, now, chance);
            let genres = d.command(Command::LoadGenres, now, chance);
            &&& !d.is_offline ==> {
                &&& favorites.outbox == d.outbox.push(
                    Effect::LoadFavorites { category: FavoritesCategory::Tracks },
                )
                &&& favorites.fav.loading
                &&& playlists == (DaemonView { outbox: d.outbox.push(Effect::LoadPlaylists), ..d })
                &&& radios.outbox == d.outbox.push(Effect::LoadRadios)
                &&& radios.explore.radios_loading
                &&& genres.outbox == d.outbox.push(Effect::LoadGenres)
                &&& genres.explore.genres_loading
                &&& d.explore.moods.len() == 0 ==> {
                    &&& moods.outbox == d.outbox.push(Effect::LoadMoods)
                    &&& moods.explore.moods_loading
                }
                &&& d.explore.moods.len() > 0 ==> moods == d
            }
            &&& d.is_offline ==> {
                &&& favorites.outbox == d.outbox && favorites.fav == d.fav
                &&& says(favorites, NoticeKind::NoInternet)
                &&& playlists == d && radios == d && moods == d && genres == d
            }
            &&& favorites.player == d.player && radios.player == d.player
            &&& moods.player == d.player && genres.player == d.player
        }),
        d.start_load_favorite_ids() == (if d.is_offline {
            d
        } else {
            DaemonView { outbox: d.outbox.push(Effect::LoadFavoriteIds), ..d }
        }),
{
    reveal(DaemonView::command);
    reveal(DaemonView::playing_command);
    reveal(DaemonView::browsing_command);
    reveal(DaemonView::loading_command);
    reveal(DaemonView::start_load_favorites);
    reveal(DaemonView::start_load_playlists);
    reveal(DaemonView::start_load_radios);
    reveal(DaemonView::start_load_moods);
    reveal(DaemonView::start_load_genres);
    reveal(DaemonView::start_load_favorite_ids);
}

/// A mix is asked for by its track, a station and a mood by the row that was
/// chosen, and Flow afresh; what goes on at the end of the queue follows. A row
/// that is not there does nothing.
#[verifier::rlimit(40)]
pub proof fn streams_are_asked_for(
    d: DaemonView,
    track_id: String,
    index: usize,
    now: u64,
    chance: Chance,
)
    ensures
        ({
            let mix = d.command(Command::StartMix { track_id }, now, chance);
            let flow = d.command(Command::StartFlow, now, chance);
            let radio = d.command(Command::PlayFromRadio { index }, now, chance);
            let mood = d.command(Command::PlayFromMood { index }, now, chance);
            &&& mix.outbox == d.outbox.push(Effect::LoadMix { track_id })
            &&& mix.player == d.player
            &&& says(mix, NoticeKind::LoadingMix)
            &&& flow.outbox == d.outbox.push(Effect::LoadFlow)
            &&& !flow.run.flow_active && flow.run.active_mood is None
            &&& flow.player == d.player
            &&& says(flow, NoticeKind::LoadingFlow)
            &&& index >= d.explore.radios.len() ==> radio == d
            &&& index < d.explore.radios.len() ==> radio.outbox == (if d.is_offline {
                d.outbox
            } else {
                d.outbox.push(
                    Effect::LoadRadioTracks { radio_id: d.explore.radios[index as int].id },
                )
            })
            &&& radio.player == d.player
            &&& index >= d.explore.moods.len() ==> mood == d
            &&& index < d.explore.moods.len() && !d.is_offline ==> {
                let m = d.explore.moods[index as int];
                let chosen = MoodItem {
                    id: m.id,
                    title: m.title,
                    target: m.target,
                    radio_id: m.radio_id,
                };
                &&& mood.outbox == d.outbox.push(
                    Effect::LoadMoodTracks { mood: chosen, continuation: false },
                )
                &&& mood.run.active_mood == Some(chosen)
                &&& !mood.run.flow_active
            }
            &&& index < d.explore.moods.len() && d.is_offline ==> mood.outbox == d.outbox
            &&& mood.player == d.player
        }),
        ({
            let radio = d.command(Command::PlayFromGenreRadio { index }, now, chance);
            match d.pages.genre {
                Some(genre) => if index < genre.radios.len() {
                    radio.outbox == (if d.is_offline {
                        d.outbox
                    } else {
                        d.outbox.push(
                            Effect::LoadRadioTracks { radio_id: genre.radios[index as int].id },
                        )
                    })
                } else {
                    radio == d
                },
                None => radio == d,
            }
        }),
{
    reveal(DaemonView::command);
    reveal(DaemonView::playing_command);
    reveal(DaemonView::browsing_command);
    reveal(DaemonView::loading_command);
    reveal(DaemonView::start_mix);
    reveal(DaemonView::begin_flow);
    reveal(DaemonView::start_flow);
    reveal(DaemonView::play_from_radio);
    reveal(DaemonView::play_genre_radio);
    reveal(DaemonView::start_play_radio);
    reveal(DaemonView::play_from_mood);
    reveal(DaemonView::start_play_mood);
}

/// The album that is opened from an artist's page is one of the artist's, of the
/// kind that the sub-page lists.
pub proof fn an_artist_s_album_is_asked_for(
    d: DaemonView,
    index: usize,
    now: u64,
    chance: Chance,
)
    requires
        !d.is_offline,
        d.pages.artist is Some,
        index < models::albums_in_tab(d.pages.artist->0.albums, d.pages.artist_sub_tab).len(),
    ensures
        ({
            let r = d.command(Command::OpenArtistAlbum { index }, now, chance);
            let listed = models::albums_in_tab(d.pages.artist->0.albums, d.pages.artist_sub_tab);
            &&& r.outbox == d.outbox.push(
                Effect::LoadAlbum { album_id: listed[index as int].album_id },
            )
            &&& d.pages.artist->0.albums.contains(listed[index as int])
            &&& match d.pages.artist_sub_tab {
                ArtistSubTab::Albums => listed[index as int].record_type@ == "album"@,
                ArtistSubTab::Lives => listed[index as int].record_type@ == "live"@,
                _ => listed[index as int].record_type@ != "album"@
                    && listed[index as int].record_type@ != "live"@,
            }
        }),
{
    reveal(DaemonView::command);
    reveal(DaemonView::playing_command);
    reveal(DaemonView::browsing_command);
    reveal(DaemonView::open_artist_album);
    reveal(DaemonView::start_load_album_detail);
    let all = d.pages.artist->0.albums;
    let tab = d.pages.artist_sub_tab;
    let test = |a: models::ArtistAlbumEntry| models::tab_of_record(a.record_type@) == tab;
    assert(models::albums_in_tab(all, tab) == all.filter(test));
    seqs::what_passes_is_left(all, test);
    assert(test(all.filter(test)[index as int]));
    reveal_strlit("album");
    reveal_strlit("live");
    assert("album"@.len() != "live"@.len());
}

// ── Library ─────────────────────────────────────────────────────────

/// What changes something at the service hands out that change, of the thing that
/// was named, and waits for the answer before anything shows.
pub proof fn changes_are_handed_out(
    d: DaemonView,
    id: String,
    other: String,
    now: u64,
    chance: Chance,
)
    ensures
        only_hands_out(
            d,
            Command::AddFavoriteArtist { artist_id: id },
            chance,
            now,
            Effect::AddFavoriteArtist { artist_id: id },
        ),
        only_hands_out(
            d,
            Command::RemoveFavoriteArtist { artist_id: id },
            chance,
            now,
            Effect::RemoveFavoriteArtist { artist_id: id },
        ),
        only_hands_out(
            d,
            Command::AddFavoriteAlbum { album_id: id },
            chance,
            now,
            Effect::AddFavoriteAlbum { album_id: id },
        ),
        only_hands_out(
            d,
            Command::RemoveFavoriteAlbum { album_id: id },
            chance,
            now,
            Effect::RemoveFavoriteAlbum { album_id: id },
        ),
        only_hands_out(
            d,
            Command::AddToPlaylist { playlist_id: id, track_id: other },
            chance,
            now,
            Effect::AddToPlaylist { playlist_id: id, track_id: other },
        ),
        only_hands_out(
            d,
            Command::RemoveFromPlaylist { playlist_id: id, track_id: other },
            chance,
            now,
            Effect::RemoveFromPlaylist { playlist_id: id, track_id: other },
        ),
        only_hands_out(
            d,
            Command::CreatePlaylistAndAdd { title: id, track_id: other },
            chance,
            now,
            Effect::CreatePlaylistAndAdd { title: id, track_id: other },
        ),
        only_hands_out(
            d,
            Command::RenamePlaylist { playlist_id: id, new_title: other },
            chance,
            now,
            Effect::RenamePlaylist { playlist_id: id, new_title: other },
        ),
        only_hands_out(
            d,
            Command::DeletePlaylist { playlist_id: id },
            chance,
            now,
            Effect::DeletePlaylist { playlist_id: id },
        ),
        only_hands_out(
            d,
            Command::DislikeTrack { track_id: id },
            chance,
            now,
            Effect::DislikeTrack { track_id: id },
        ),
{
    reveal(DaemonView::command);
    reveal(DaemonView::playing_command);
    reveal(DaemonView::browsing_command);
    reveal(DaemonView::loading_command);
    reveal(DaemonView::library_command);
    reveal(DaemonView::hand_out);
}

/// A text stands in a list of texts.
pub open spec fn holds(ids: Seq<String>, id: Seq<char>) -> bool {
    exists|i: int| 0 <= i < ids.len() && (#[trigger] ids[i])@ == id
}

/// Texts are listed exactly when one of them reads so.
proof fn held_is_listed(ids: Seq<String>, id: Seq<char>)
    ensures
        holds(ids, id) == seqs::listed(ids, id),
{
    if holds(ids, id) {
        let i = choose|i: int| 0 <= i < ids.len() && (#[trigger] ids[i])@ == id;
        assert(ids[i].id_of() == id);
    }
    if seqs::listed(ids, id) {
        let i = choose|i: int| 0 <= i < ids.len() && (#[trigger] ids[i]).id_of() == id;
        assert(ids[i]@ == id);
    }
}

/// Without an id, a list holds the other ones as before.
pub proof fn dropping_an_id_keeps_the_others(ids: Seq<String>, gone: Seq<char>, id: Seq<char>)
    ensures
        !holds(seqs::others(ids, gone), gone),
        id != gone ==> holds(seqs::others(ids, gone), id) == holds(ids, id),
{
    let kept = seqs::others(ids, gone);
    let test = seqs::other_than::<String>(gone);
    seqs::what_passes_is_left(ids, test);
    if holds(kept, gone) {
        let i = choose|i: int| 0 <= i < kept.len() && (#[trigger] kept[i])@ == gone;
        assert(test(kept[i]));
    }
    if id != gone && holds(ids, id) {
        let i = choose|i: int| 0 <= i < ids.len() && (#[trigger] ids[i])@ == id;
        assert(test(ids[i]));
        assert(kept.contains(ids[i]));
        let k = choose|k: int| 0 <= k < kept.len() && kept[k] == ids[i];
        assert(kept[k]@ == id);
    }
    if id != gone && holds(kept, id) {
        let i = choose|i: int| 0 <= i < kept.len() && (#[trigger] kept[i])@ == id;
        assert(ids.contains(kept[i]));
        let k = choose|k: int| 0 <= k < ids.len() && ids[k] == kept[i];
        assert(ids[k]@ == id);
    }
}

/// The heart of a track goes on and off at once, and the service is told; the
/// other hearts stay as they are.
pub proof fn hearts_change_at_once(
    d: DaemonView,
    track_id: String,
    other: Seq<char>,
    now: u64,
    chance: Chance,
)
    ensures
        ({
            let on = d.command(Command::AddFavorite { track_id }, now, chance);
            let off = d.command(Command::RemoveFavorite { track_id }, now, chance);
            &&& holds(on.fav.track_ids, track_id@)
            &&& !holds(off.fav.track_ids, track_id@)
            &&& other != track_id@ ==> {
                &&& holds(on.fav.track_ids, other) == holds(d.fav.track_ids, other)
                &&& holds(off.fav.track_ids, other) == holds(d.fav.track_ids, other)
            }
            &&& holds(d.fav.track_ids, track_id@) ==> on.fav.track_ids == d.fav.track_ids
            &&& on.outbox == d.outbox.push(Effect::AddFavorite { track_id })
            &&& off.outbox == d.outbox.push(Effect::RemoveFavorite { track_id })
            &&& on.player == d.player && off.player == d.player
            &&& on.fav.artist_ids == d.fav.artist_ids && off.fav.artist_ids == d.fav.artist_ids
            &&& on.fav.album_ids == d.fav.album_ids && off.fav.album_ids == d.fav.album_ids
        }),
{
    reveal(DaemonView::command);
    reveal(DaemonView::playing_command);
    reveal(DaemonView::browsing_command);
    reveal(DaemonView::loading_command);
    reveal(DaemonView::library_command);
    reveal(DaemonView::add_favorite);
    reveal(DaemonView::remove_favorite);
    let ids = d.fav.track_ids;
    held_is_listed(ids, track_id@);
    dropping_an_id_keeps_the_others(ids, track_id@, other);
    let more = ids.push(track_id);
    assert(more[ids.len() as int]@ == track_id@);
    if other != track_id@ {
        if holds(ids, other) {
            let i = choose|i: int| 0 <= i < ids.len() && (#[trigger] ids[i])@ == other;
            assert(more[i]@ == other);
        }
        if holds(more, other) {
            let i = choose|i: int| 0 <= i < more.len() && (#[trigger] more[i])@ == other;
            assert(ids[i]@ == other);
        }
    }
}

// ── Downloads ───────────────────────────────────────────────────────

/// With a connection and the key, a track that is not among the downloads is
/// downloaded in the preferred quality; one that is among them is not downloaded
/// again. Without a connection or without the key nothing is.
pub proof fn missing_tracks_are_downloaded(
    d: DaemonView,
    track: TrackData,
    now: u64,
    chance: Chance,
)
    ensures
        ({
            let r = d.command(Command::DownloadOffline { track }, now, chance);
            let there = exists|i: int|
                0 <= i < d.offline.index.tracks.len()
                    && (#[trigger] d.offline.index.tracks[i]).track.track_id@ == track.track_id@;
            &&& !d.is_offline && d.run.key_ready && !there ==> {
                &&& r.outbox == d.outbox.push(
                    Effect::DownloadTrack { track, quality: d.config.quality },
                )
                &&& r.offline.loading
                &&& says(r, NoticeKind::DownloadingTrack)
            }
            &&& d.is_offline || !d.run.key_ready || there ==> r.outbox == d.outbox
                && r.offline == d.offline
            &&& d.is_offline ==> says(r, NoticeKind::NoInternet)
            &&& !d.is_offline && there ==> says(r, NoticeKind::TrackSavedOffline)
            &&& !d.is_offline && !there && !d.run.key_ready ==> says(
                r,
                NoticeKind::PlayerNotReady,
            )
            &&& r.offline.index == d.offline.index
            &&& r.player == d.player
        }),
{
    reveal(DaemonView::command);
    reveal(DaemonView::playing_command);
    reveal(DaemonView::browsing_command);
    reveal(DaemonView::loading_command);
    reveal(DaemonView::library_command);
    reveal(DaemonView::download_track);
    let all = d.offline.index.tracks;
    if seqs::listed(all, track.track_id@) {
        let i = choose|i: int| 0 <= i < all.len() && (#[trigger] all[i]).id_of() == track.track_id@;
        assert(all[i].track.track_id@ == track.track_id@);
    }
    if exists|i: int| 0 <= i < all.len() && (#[trigger] all[i]).track.track_id@ == track.track_id@ {
        let i = choose|i: int|
            0 <= i < all.len() && (#[trigger] all[i]).track.track_id@ == track.track_id@;
        assert(all[i].id_of() == track.track_id@);
    }
}

/// The same holds of an album; a playlist is downloaded whenever it can be.
pub proof fn missing_albums_and_playlists_are_downloaded(
    d: DaemonView,
    id: String,
    now: u64,
    chance: Chance,
)
    ensures
        ({
            let album = d.command(Command::DownloadAlbumOffline { album_id: id }, now, chance);
            let list = d.command(Command::DownloadPlaylistOffline { playlist_id: id }, now, chance);
            let there = exists|i: int|
                0 <= i < d.offline.index.albums.len()
                    && (#[trigger] d.offline.index.albums[i]).album_id@ == id@;
            let ready = !d.is_offline && d.run.key_ready;
            &&& album.outbox == (if ready && !there {
                d.outbox.push(Effect::DownloadAlbum { album_id: id, quality: d.config.quality })
            } else {
                d.outbox
            })
            &&& ready && !there ==> album.offline.loading
            &&& list.outbox == (if ready {
                d.outbox.push(
                    Effect::DownloadPlaylist { playlist_id: id, quality: d.config.quality },
                )
            } else {
                d.outbox
            })
            &&& ready ==> list.offline.loading
            &&& !d.is_offline && there ==> says(album, NoticeKind::AlbumSavedOffline)
            &&& d.is_offline ==> says(album, NoticeKind::NoInternet) && says(
                list,
                NoticeKind::NoInternet,
            )
            &&& album.offline.index == d.offline.index && list.offline.index == d.offline.index
            &&& album.player == d.player && list.player == d.player
        }),
{
    reveal(DaemonView::command);
    reveal(DaemonView::playing_command);
    reveal(DaemonView::browsing_command);
    reveal(DaemonView::loading_command);
    reveal(DaemonView::library_command);
    reveal(DaemonView::download_album);
    reveal(DaemonView::download_playlist);
}

/// What is dropped from the downloads is not among them any more, what is not
/// named stays, and the list is saved.
#[verifier::rlimit(40)]
pub proof fn dropped_downloads_are_gone(
    d: DaemonView,
    id: String,
    now: u64,
    chance: Chance,
)
    ensures
        ({
            let track = d.command(Command::RemoveOfflineTrack { track_id: id }, now, chance);
            let before = d.offline.index;
            let after = track.offline.index;
            &&& forall|i: int|
                0 <= i < after.tracks.len() ==> (#[trigger] after.tracks[i]).track.track_id@ != id@
                    && before.tracks.contains(after.tracks[i])
            &&& forall|i: int|
                0 <= i < before.tracks.len() && (#[trigger] before.tracks[i]).track.track_id@ != id@
                    ==> after.tracks.contains(before.tracks[i])
            &&& after.albums == before.albums
            &&& after.playlists == before.playlists
            &&& track.outbox == d.outbox.push(Effect::SaveOfflineIndex)
            &&& says(track, NoticeKind::RemovedOffline)
            &&& track.player == d.player
        }),
        ({
            let album = d.command(Command::RemoveOfflineAlbum { album_id: id }, now, chance);
            let before = d.offline.index;
            let after = album.offline.index;
            &&& forall|i: int|
                0 <= i < after.albums.len() ==> (#[trigger] after.albums[i]).album_id@ != id@
                    && before.albums.contains(after.albums[i])
            &&& forall|i: int|
                0 <= i < before.albums.len() && (#[trigger] before.albums[i]).album_id@ != id@
                    ==> after.albums.contains(before.albums[i])
            &&& after.tracks == before.tracks
            &&& after.playlists == before.playlists
            &&& album.outbox == d.outbox.push(Effect::SaveOfflineIndex)
            &&& says(album, NoticeKind::RemovedOffline)
        }),
        ({
            let list = d.command(Command::RemoveOfflinePlaylist { playlist_id: id }, now, chance);
            let before = d.offline.index;
            let after = list.offline.index;
            &&& forall|i: int|
                0 <= i < after.playlists.len() ==> (#[trigger] after.playlists[i]).playlist_id@
                    != id@ && before.playlists.contains(after.playlists[i])
            &&& forall|i: int|
                0 <= i < before.playlists.len() && (#[trigger] before.playlists[i]).playlist_id@
                    != id@ ==> after.playlists.contains(before.playlists[i])
            &&& after.tracks == before.tracks
            &&& after.albums == before.albums
            &&& list.outbox == d.outbox.push(Effect::SaveOfflineIndex)
            &&& says(list, NoticeKind::RemovedOffline)
        }),
{
    reveal(DaemonView::command);
    reveal(DaemonView::playing_command);
    reveal(DaemonView::browsing_command);
    reveal(DaemonView::loading_command);
    reveal(DaemonView::library_command);
    reveal(DaemonView::remove_offline_track);
    reveal(DaemonView::remove_offline_album);
    reveal(DaemonView::remove_offline_playlist);
    let before = d.offline.index;
    seqs::what_passes_is_left(before.tracks, seqs::other_than::<models::OfflineTrack>(id@));
    seqs::what_passes_is_left(before.albums, crate::storage::other_album(id@));
    seqs::what_passes_is_left(before.playlists, crate::storage::other_playlist(id@));
}

// ── Playing from lists ──────────────────────────────────────────────

/// The queue is the playable rows of a list, stands at the row that was chosen,
/// and that row's track is fetched.
pub open spec fn plays_row(
    d: DaemonView,
    r: DaemonView,
    rows: Seq<DisplayItemView>,
    index: usize,
) -> bool {
    let track = rows[index as int].track->0;
    &&& playback_laws::fetches(d, r, track)
    &&& r.outbox.len() == d.outbox.len() + 1
    &&& r.player.queue_index < r.player.queue.len() <= rows.len()
    &&& r.player.queue[r.player.queue_index as int].track_id@ == track.track_id@
    &&& forall|k: int|
        0 <= k < rows.len() && (#[trigger] rows[k]).track is Some ==> r.player.queue.contains(
            rows[k].track->0,
        )
    &&& (forall|k: int| 0 <= k < rows.len() ==> (#[trigger] rows[k]).track is Some) ==> {
        &&& r.player.queue.len() == rows.len()
        &&& forall|k: int|
            0 <= k < rows.len() ==> (#[trigger] r.player.queue[k]) == rows[k].track->0
    }
    &&& !r.run.flow_active
    &&& r.run.active_mood is None
}

/// Rows that all play give a queue of the same length and order.
proof fn rows_that_all_play(rows: Seq<DisplayItemView>)
    requires
        forall|k: int| 0 <= k < rows.len() ==> (#[trigger] rows[k]).track is Some,
    ensures
        models::playable_of(rows).len() == rows.len(),
        forall|k: int|
            0 <= k < rows.len() ==> (#[trigger] models::playable_of(rows)[k]) == rows[k].track->0,
    decreases rows.len(),
{
    if rows.len() > 0 {
        rows_that_all_play(rows.drop_last());
    }
}

/// Playing from a list of rows plays the row.
proof fn rows_play(d: DaemonView, rows: Seq<DisplayItemView>, index: usize)
    requires
        rows.len() <= usize::MAX,
    ensures
        index < rows.len() && rows[index as int].track is Some && playback_laws::can_fetch(
            d,
            rows[index as int].track->0,
        ) ==> plays_row(d, d.play_from_rows(rows, index), rows, index),
        index >= rows.len() || rows[index as int].track is None ==> d.play_from_rows(rows, index)
            == d,
{
    reveal(DaemonView::play_from_rows);
    reveal(DaemonView::start_play_track);
    if index < rows.len() && rows[index as int].track is Some {
        let queue = models::playable_of(rows);
        let id = rows[index as int].track->0.track_id@;
        models::playable_is_no_longer(rows);
        assert forall|k: int|
            0 <= k < rows.len() && (#[trigger] rows[k]).track is Some implies queue.contains(
            rows[k].track->0,
        ) by {
            models::playable_has_row(rows, k);
        }
        let at = choose|i: int| 0 <= i < queue.len() && queue[i] == rows[index as int].track->0;
        assert(queue[at].id_of() == id);
        seqs::listed_has_a_place(queue, id);
        if forall|k: int| 0 <= k < rows.len() ==> (#[trigger] rows[k]).track is Some {
            rows_that_all_play(rows);
        }
    }
}

/// Playing from the search results, the new releases or the favorites plays the
/// row that was chosen, with the list as the queue. A row that does not play does
/// nothing.
#[verifier::rlimit(40)]
pub proof fn the_row_that_was_chosen_plays(d: DaemonView, index: usize, now: u64, chance: Chance)
    requires
        d.search.display.len() <= usize::MAX,
        d.explore.new_releases.len() <= usize::MAX,
        d.fav.display.len() <= usize::MAX,
    ensures
        ({
            let rows = d.search.display;
            let r = d.command(Command::PlayFromSearch { index }, now, chance);
            &&& index < rows.len() && rows[index as int].track is Some && playback_laws::can_fetch(
                d,
                rows[index as int].track->0,
            ) ==> plays_row(d, r, rows, index)
            &&& index >= rows.len() || rows[index as int].track is None ==> r == d
        }),
        ({
            let rows = d.explore.new_releases;
            let r = d.command(Command::PlayFromNewReleases { index }, now, chance);
            &&& index < rows.len() && rows[index as int].track is Some && playback_laws::can_fetch(
                d,
                rows[index as int].track->0,
            ) ==> plays_row(d, r, rows, index)
            &&& index >= rows.len() || rows[index as int].track is None ==> r == d
        }),
        ({
            let rows = d.fav.display;
            let r = d.command(Command::PlayFromFavorites { index }, now, chance);
            &&& index < rows.len() && rows[index as int].track is Some && playback_laws::can_fetch(
                d,
                rows[index as int].track->0,
            ) ==> plays_row(d, r, rows, index)
            &&& index >= rows.len() || rows[index as int].track is None ==> r == d
        }),
{
    reveal(DaemonView::command);
    reveal(DaemonView::playing_command);
    rows_play(d, d.search.display, index);
    rows_play(d, d.explore.new_releases, index);
    rows_play(d, d.fav.display, index);
}

/// The queue is these tracks, stands at the one that was chosen, and that one is
/// fetched; a place outside the list, or no list, does nothing.
pub open spec fn plays_track(
    d: DaemonView,
    r: DaemonView,
    tracks: Option<Seq<TrackData>>,
    index: usize,
) -> bool {
    match tracks {
        Some(tracks) => {
            &&& index < tracks.len() ==> {
                &&& r.player.queue == tracks
                &&& r.player.queue_index == index
                &&& !r.run.flow_active
                &&& r.run.active_mood is None
                &&& playback_laws::can_fetch(d, tracks[index as int]) ==> playback_laws::fetches(
                    d,
                    r,
                    tracks[index as int],
                ) && r.outbox.len() == d.outbox.len() + 1
            }
            &&& index >= tracks.len() ==> r == d
        },
        None => r == d,
    }
}

/// Playing from a list of tracks plays the one that was chosen.
proof fn tracks_play(d: DaemonView, tracks: Option<Seq<TrackData>>, index: usize)
    ensures
        plays_track(d, d.play_from_tracks(tracks, index), tracks, index),
{
    reveal(DaemonView::play_from_tracks);
    reveal(DaemonView::play_list);
    reveal(DaemonView::start_play_track);
    reveal(DaemonView::start_play_offline_track);
}

/// Playing from an open page plays the page's track that was chosen, with the
/// page's tracks as the queue.
pub proof fn the_page_s_track_plays(d: DaemonView, index: usize, now: u64, chance: Chance)
    ensures
        plays_track(
            d,
            d.command(Command::PlayFromAlbum { index }, now, chance),
            match d.pages.album {
                Some(page) => Some(page.tracks),
                None => None,
            },
            index,
        ),
        plays_track(
            d,
            d.command(Command::PlayFromArtist { index }, now, chance),
            match d.pages.artist {
                Some(page) => Some(page.top_tracks),
                None => None,
            },
            index,
        ),
        plays_track(
            d,
            d.command(Command::PlayFromPlaylist { index }, now, chance),
            match d.pages.playlist {
                Some(page) => Some(page.tracks),
                None => None,
            },
            index,
        ),
        plays_track(
            d,
            d.command(Command::PlayFromGenreTrack { index }, now, chance),
            match d.pages.genre {
                Some(page) => Some(page.tracks),
                None => None,
            },
            index,
        ),
{
    reveal(DaemonView::command);
    reveal(DaemonView::playing_command);
    tracks_play(d, d.album_tracks(), index);
    tracks_play(d, d.artist_tracks(), index);
    tracks_play(d, d.playlist_tracks(), index);
    tracks_play(d, d.genre_tracks(), index);
}

/// A downloaded album or playlist plays from disk, connection or not: the track
/// that was chosen is read and the whole of it is the queue.
pub proof fn downloaded_lists_play_from_disk(
    d: DaemonView,
    id: String,
    at: int,
    track_index: usize,
    now: u64,
    chance: Chance,
)
    ensures
        ({
            let lists = d.offline.index.albums;
            let r = d.command(
                Command::PlayOfflineAlbum { album_id: id, track_index },
                now,
                chance,
            );
            &&& 0 <= at < lists.len() && lists[at].album_id@ == id@ && (forall|k: int|
                0 <= k < at ==> (#[trigger] lists[k]).album_id@ != id@) && track_index
                < lists[at].tracks.len() ==> {
                &&& r.player.queue == lists[at].tracks
                &&& r.player.queue_index == track_index
                &&& playback_laws::reads(d, r, lists[at].tracks[track_index as int])
                &&& !r.run.flow_active && r.run.active_mood is None
            }
            &&& (forall|k: int| 0 <= k < lists.len() ==> (#[trigger] lists[k]).album_id@ != id@)
                ==> r == d
        }),
        ({
            let lists = d.offline.index.playlists;
            let r = d.command(
                Command::PlayOfflinePlaylist { playlist_id: id, track_index },
                now,
                chance,
            );
            &&& 0 <= at < lists.len() && lists[at].playlist_id@ == id@ && (forall|k: int|
                0 <= k < at ==> (#[trigger] lists[k]).playlist_id@ != id@) && track_index
                < lists[at].tracks.len() ==> {
                &&& r.player.queue == lists[at].tracks
                &&& r.player.queue_index == track_index
                &&& playback_laws::reads(d, r, lists[at].tracks[track_index as int])
                &&& !r.run.flow_active && r.run.active_mood is None
            }
            &&& (forall|k: int| 0 <= k < lists.len() ==> (#[trigger] lists[k]).playlist_id@ != id@)
                ==> r == d
        }),
{
    reveal(DaemonView::command);
    reveal(DaemonView::playing_command);
    reveal(DaemonView::play_from_downloads);
    reveal(DaemonView::play_offline_list);
    reveal(DaemonView::start_play_offline_track);
    crate::storage::albums_are_found_by_id(d.offline.index.albums, id@, at);
    crate::storage::playlists_are_found_by_id(d.offline.index.playlists, id@, at);
}

/// Shuffled favorites are the queue, played once each from the one that chance
/// picks; any of them can be picked. Without favorites nothing happens.
pub proof fn favorites_are_shuffled(d: DaemonView, now: u64, chance: Chance)
    requires
        d.fav.tracks.len() <= usize::MAX,
    ensures
        ({
            let r = d.command(Command::ShuffleFavorites, now, chance);
            let at = r.player.queue_index;
            &&& d.fav.tracks.len() == 0 ==> r == d
            &&& d.fav.tracks.len() > 0 ==> {
                &&& r.player.queue == d.fav.tracks
                &&& at < d.fav.tracks.len()
                &&& chance.pick < d.fav.tracks.len() ==> at == chance.pick
                &&& r.player.shuffle
                &&& r.player.repeat == RepeatMode::Off
                &&& queue::is_cycle(r.run.shuffle_order, d.fav.tracks.len())
                &&& r.run.shuffle_order[0] == at
                &&& r.run.shuffle_pos == 0
                &&& !r.run.flow_active && r.run.active_mood is None
                &&& playback_laws::can_fetch(d, d.fav.tracks[at as int]) ==> playback_laws::fetches(
                    d,
                    r,
                    d.fav.tracks[at as int],
                )
            }
        }),
{
    reveal(DaemonView::command);
    reveal(DaemonView::playing_command);
    reveal(DaemonView::shuffle_favorites);
    reveal(DaemonView::start_play_track);
    reveal(DaemonView::start_play_offline_track);
    let len = d.fav.tracks.len();
    if len > 0 {
        let n = len as usize;
        let p = chance.pick as usize;
        let index = (p % n) as usize;
        assert(0 <= p % n < n) by (nonlinear_arith)
            requires
                n > 0,
        ;
        if chance.pick < len {
            assert(p == chance.pick);
            assert(p % n == p) by (nonlinear_arith)
                requires
                    0 <= p < n,
            ;
        }
        queue::shuffle_is_a_full_pass(len, index, chance.seed);
    }
}

// ── The queue ───────────────────────────────────────────────────────

/// A track that is put next stands right behind the current one, one that is
/// added stands at the end; everything else keeps its order, and what plays plays
/// on.
pub proof fn queued_tracks_find_their_place(
    d: DaemonView,
    track: TrackData,
    now: u64,
    chance: Chance,
)
    requires
        d.wf(),
    ensures
        ({
            let next = d.command(Command::PlayNext { track }, now, chance);
            let last = d.command(Command::AddToQueue { track }, now, chance);
            let at = d.player.queue_index;
            &&& d.player.queue.len() > 0 ==> next.player.queue == d.player.queue.take(at + 1).push(
                track,
            ) + d.player.queue.skip(at + 1)
            &&& d.player.queue.len() == 0 ==> next.player.queue == seq![track]
            &&& last.player.queue == d.player.queue.push(track)
            &&& next.player.queue_index == at && last.player.queue_index == at
            &&& next.player.status == d.player.status && last.player.status == d.player.status
            &&& next.player.current_track == d.player.current_track
            &&& last.player.current_track == d.player.current_track
            &&& next.outbox == d.outbox && last.outbox == d.outbox
            &&& next.run == d.run && last.run == d.run
            &&& says(next, NoticeKind::PlayNext)
            &&& says(last, NoticeKind::AddedToQueue)
        }),
{
    reveal(DaemonView::command);
    reveal(DaemonView::playing_command);
    reveal(DaemonView::queue_next);
    reveal(DaemonView::queue_last);
    let at = d.player.queue_index + 1;
    let r = d.queue_next(track);
    if d.player.queue.len() > 0 {
        assert(r.player.queue =~= d.player.queue.take(at).push(track) + d.player.queue.skip(at));
    } else {
        assert(r.player.queue =~= seq![track]);
    }
}

/// A track of the queue that is chosen starts, the queue stands at it, and under
/// shuffle the cycle goes on from it.
pub proof fn a_chosen_track_of_the_queue_plays(
    d: DaemonView,
    index: usize,
    now: u64,
    chance: Chance,
)
    requires
        d.wf(),
        d.fits(),
        index < d.player.queue.len(),
    ensures
        ({
            let r = d.command(Command::PlayFromQueue { index }, now, chance);
            &&& r.player.queue == d.player.queue
            &&& r.player.queue_index == index
            &&& r.run.shuffle_order == d.run.shuffle_order
            &&& d.run.shuffle_order.contains(index) ==> {
                &&& r.run.shuffle_pos < r.run.shuffle_order.len()
                &&& r.run.shuffle_order[r.run.shuffle_pos as int] == index
            }
            &&& playback_laws::can_fetch(d, d.player.queue[index as int]) ==> {
                &&& playback_laws::fetches(d, r, d.player.queue[index as int])
                &&& r.outbox.len() == d.outbox.len() + 1
            }
        }),
{
    reveal(DaemonView::command);
    reveal(DaemonView::playing_command);
    reveal(DaemonView::play_from_queue);
    reveal(DaemonView::start_play_track);
    reveal(DaemonView::start_play_offline_track);
    d.run.shuffle_order.index_of_first_ensures(index);
}

/// A track that is taken out of the queue is gone and the rest keeps its order;
/// the current track stays where it is in the music, and cannot be taken out.
pub proof fn removing_takes_one_track_out(d: DaemonView, index: usize, now: u64, chance: Chance)
    requires
        d.wf(),
    ensures
        ({
            let r = d.command(Command::RemoveFromQueue { index }, now, chance);
            &&& index >= d.player.queue.len() || index == d.player.queue_index ==> r == d
            &&& index < d.player.queue.len() && index != d.player.queue_index ==> {
                &&& r.player.queue == d.player.queue.take(index as int) + d.player.queue.skip(
                    index + 1,
                )
                &&& r.player.queue_index == (if index < d.player.queue_index {
                    d.player.queue_index - 1
                } else {
                    d.player.queue_index as int
                })
                &&& r.player.current_track == d.player.current_track
                &&& r.player.status == d.player.status
                &&& r.outbox == d.outbox
            }
        }),
{
    reveal(DaemonView::command);
    reveal(DaemonView::playing_command);
    reveal(DaemonView::remove_from_queue);
    if index < d.player.queue.len() {
        assert(d.player.queue.remove(index as int) =~= d.player.queue.take(index as int)
            + d.player.queue.skip(index + 1));
    }
}

// ── Session ─────────────────────────────────────────────────────────

/// A login is remembered, saved and tried, in this order.
pub proof fn logins_are_remembered_and_tried(d: DaemonView, arl: String, now: u64, chance: Chance)
    ensures
        ({
            let r = d.command(Command::Login { arl }, now, chance);
            &&& r.config.arl == Some(arl)
            &&& r.config.volume == d.config.volume
            &&& r.config.quality == d.config.quality
            &&& r.outbox == d.outbox.push(Effect::SaveConfig).push(Effect::Login { arl })
            &&& r.login.loading
            &&& r.login.error is None
            &&& r.screen == d.screen
        }),
{
    reveal(DaemonView::command);
    reveal(DaemonView::login);
    reveal(DaemonView::start_login);
}

/// After a logout nothing of the session is left: no login, no key, no audio
/// output, nothing that plays or is queued, no lists and no pages. The volume and
/// the quality stay as they were preferred.
pub proof fn a_logout_leaves_nothing(d: DaemonView, now: u64, chance: Chance)
    ensures
        ({
            let r = d.command(Command::Logout, now, chance);
            &&& r.screen == Screen::Login
            &&& r.config.arl is None
            &&& r.config.volume == d.config.volume
            &&& r.config.quality == d.config.quality
            &&& r.status_msg is None
            &&& r.playlists.len() == 0
            &&& r.player.status == PlaybackStatus::Stopped
            &&& r.player.current_track is None
            &&& r.player.queue.len() == 0
            &&& r.player.queue_index == 0
            &&& r.login.error is None && r.login.user_name is None && !r.login.loading
            &&& r.search.results.len() == 0 && r.search.display.len() == 0
            &&& r.fav.tracks.len() == 0 && r.fav.display.len() == 0
            &&& r.explore.radios.len() == 0 && r.explore.genres.len() == 0
            &&& r.pages.genre is None && r.pages.top is None && r.pages.below.len() == 0
            &&& !r.run.engine_ready && !r.run.key_ready
            &&& r.outbox == (if d.run.engine_ready {
                d.outbox.push(Effect::SaveConfig).push(Effect::Engine(EngineCommand::Close))
            } else {
                d.outbox.push(Effect::SaveConfig)
            })
            &&& r.offline == d.offline
        }),
{
    reveal(DaemonView::command);
    reveal(DaemonView::logout);
}

/// To look at the player, or to shut the program down, changes nothing.
pub proof fn looking_changes_nothing(d: DaemonView, now: u64, chance: Chance)
    ensures
        d.command(Command::GetSnapshot, now, chance) == d,
        d.command(Command::Shutdown, now, chance) == d,
{
    reveal(DaemonView::command);
}

} // verus!
