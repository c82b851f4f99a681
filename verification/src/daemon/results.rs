//! What the outcome of a background task does to the player.

use vstd::prelude::*;

use crate::api::DeezerError;
use crate::daemon::playback;
use crate::daemon::{
    Chance, Daemon, DaemonView, Effect, EngineCommand, ExploreView, FavoritesState, FavoritesView,
    LoginView, OfflineTabView, PagesView, RunView, SearchView,
};
use crate::models;
use crate::models::{
    track_ids, track_rows, AlbumDetail, ArtistDetail, AudioQuality, DisplayItem, DisplayItemView,
    GenreDetail, PlaylistData, PlaylistDetail, PlaylistDetailView, TrackData,
};
use crate::notice;
use crate::notice::{Notice, NoticeKind, NoticeView};
use crate::player::{PlaybackStatus, PlayerStateView};
use crate::protocol::{FavoritesCategory, GenreItem, MoodEntry, RadioItem, Screen};
use crate::rows;
use crate::rows::{
    adjust_playlists, adjust_rows, count_playlists, count_rows, drop_rows, rename_playlists,
    rename_rows,
};
use crate::seqs;
use crate::seqs::{contains_id, drop_id, find_id};
use crate::storage;
use crate::storage::FavoritesCacheView;
use crate::text::same_text;

verus! {

/// The outcome of a background task.
#[derive(Debug)]
#[allow(inconsistent_fields)]
pub enum AsyncResult {
    LoginSuccess(String),
    LoginError(String),
    /// The decryption key is there. Opening the audio output may have failed.
    MasterKeyReady { engine_error: Option<String> },
    MasterKeyError(String),
    SearchResults(Vec<TrackData>),
    SearchError(String),
    SearchDisplayResults(Vec<DisplayItem>),
    /// Tracks of a favorites category. It carries the category that was asked
    /// for, so that a late answer cannot be attributed to another one.
    FavoritesLoaded(FavoritesCategory, Vec<TrackData>),
    FavoritesError(FavoritesCategory, String),
    /// Rows of a favorites category.
    FavoritesDisplayLoaded(FavoritesCategory, Vec<DisplayItem>),
    /// A track's audio was handed to the audio output, which may have refused it.
    TrackReady {
        track: TrackData,
        quality: AudioQuality,
        generation: u64,
        play_error: Option<String>,
    },
    TrackFetchError { err: String, generation: u64 },
    FavoriteAdded(String),
    FavoriteRemoved(String),
    FavoriteError(String),
    FavoriteArtistAdded(String),
    FavoriteArtistRemoved(String),
    FavoriteArtistError(String),
    FavoriteAlbumAdded(String),
    FavoriteAlbumRemoved(String),
    FavoriteAlbumError(String),
    FavoriteIdsLoaded {
        track_ids: Vec<String>,
        artist_ids: Vec<String>,
        album_ids: Vec<String>,
    },
    PlaylistsReady(Vec<PlaylistData>),
    PlaylistsError(String),
    AddedToPlaylist(String),
    AddToPlaylistError(String),
    AlreadyInPlaylist,
    RemovedFromPlaylist { playlist_id: String, track_id: String },
    RemoveFromPlaylistError(String),
    PlaylistCreatedAndAdded { playlist_id: String },
    PlaylistCreatedError(String),
    PlaylistRenamed { playlist_id: String, new_title: String },
    PlaylistRenameError(String),
    PlaylistDeleted(String),
    PlaylistDeleteError(String),
    DislikeOk,
    DislikeError(String),
    MixReady(Vec<TrackData>),
    MixError(String),
    FlowReady(Vec<TrackData>),
    FlowError(String),
    AlbumDetailReady(AlbumDetail),
    AlbumDetailError(String),
    ArtistDetailReady(ArtistDetail),
    ArtistDetailError(String),
    PlaylistDetailReady { detail: PlaylistDetail, background: bool },
    PlaylistDetailError { err: String, background: bool },
    /// Episodes of a podcast. They are shown like a playlist but never cached:
    /// the ids of shows and of playlists are unrelated.
    ShowDetailReady(PlaylistDetail),
    ShowDetailError(String),
    RadiosReady(Vec<RadioItem>),
    RadiosError(String),
    RadioTracksReady(Vec<TrackData>),
    RadioTracksError(String),
    MoodsReady(Vec<MoodEntry>),
    MoodsError(String),
    MoodTracksReady { tracks: Vec<TrackData>, continuation: bool },
    MoodTracksError { err: String, continuation: bool },
    GenresReady(Vec<GenreItem>),
    GenresError(String),
    GenreDetailReady(GenreDetail),
    GenreDetailError(String),
    NewReleasesReady(Vec<DisplayItem>),
    NewReleasesError(String),
    OfflineTrackSaved { track: TrackData, quality: AudioQuality },
    OfflineTrackSaveError(String),
    OfflineAlbumSaved { album: AlbumDetail },
    OfflineAlbumSaveError(String),
    OfflinePlaylistSaved { playlist: PlaylistDetail },
    OfflinePlaylistSaveError(String),
    /// How far the download of a playlist has got, in percent.
    OfflineDownloadProgress { percent: u8 },
}

/// A list of ids with another one, unless it is listed already.
pub open spec fn with_id(ids: Seq<String>, id: String) -> Seq<String> {
    if seqs::listed(ids, id@) {
        ids
    } else {
        ids.push(id)
    }
}

/// Puts an id into a list, unless it is listed already.
fn add_id(ids: &mut Vec<String>, id: String)
    ensures
        final(ids)@ == with_id(old(ids)@, id),
{
    if !contains_id(ids, &id) {
        ids.push(id);
    }
}

/// Takes an id out of a list.
fn remove_id(ids: &mut Vec<String>, id: &str)
    ensures
        final(ids)@ == seqs::others(old(ids)@, id@),
{
    let mut list: Vec<String> = Vec::new();
    std::mem::swap(&mut list, ids);
    *ids = drop_id(list, id);
}

impl FavoritesView {
    /// The tracks of the favorites: kept for the next time, and the base of the
    /// heart marks.
    pub open spec fn remember_tracks(self, tracks: Seq<TrackData>) -> FavoritesView {
        FavoritesView {
            cache: FavoritesCacheView { tracks: Some(tracks), ..self.cache },
            tracks,
            track_ids: models::ids_of(tracks),
            ..self
        }
    }

    /// Rows that were loaded are shown from the top.
    pub open spec fn show(self, tracks: Seq<TrackData>, rows: Seq<DisplayItemView>) -> FavoritesView {
        FavoritesView { loading: false, tracks, display: rows, selected: 0, ..self }
    }

    /// Rows that were loaded are kept under the category that was asked for.
    pub open spec fn remember_rows(
        self,
        category: FavoritesCategory,
        rows: Seq<DisplayItemView>,
    ) -> FavoritesView {
        FavoritesView {
            cache: match category {
                FavoritesCategory::Artists => FavoritesCacheView {
                    artists: Some(rows),
                    ..self.cache
                },
                FavoritesCategory::Albums => FavoritesCacheView {
                    albums: Some(rows),
                    ..self.cache
                },
                FavoritesCategory::Playlists => FavoritesCacheView {
                    playlists: Some(rows),
                    ..self.cache
                },
                FavoritesCategory::Following => FavoritesCacheView {
                    following: Some(rows),
                    ..self.cache
                },
                _ => self.cache,
            },
            ..self
        }
    }

    /// The playlists and one playlist's tracks are to be loaded again.
    pub open spec fn forget_playlist(self, id: Seq<char>) -> FavoritesView {
        FavoritesView {
            cache: FavoritesCacheView {
                playlists: None,
                playlist_details: storage::other_playlists(self.cache.playlist_details, id),
                ..self.cache
            },
            ..self
        }
    }
}

impl FavoritesState {
    fn remember_tracks(&mut self, tracks: &Vec<TrackData>)
        ensures
            final(self)@ == old(self)@.remember_tracks(tracks@),
    {
        self.cache.tracks = Some(tracks.clone());
        self.tracks = tracks.clone();
        self.track_ids = track_ids(tracks);
    }

    fn show(&mut self, tracks: Vec<TrackData>, rows: Vec<DisplayItem>)
        ensures
            final(self)@ == old(self)@.show(tracks@, models::rows_of(rows@)),
    {
        self.loading = false;
        self.tracks = tracks;
        self.display = rows;
        self.selected = 0;
    }

    fn remember_rows(&mut self, category: FavoritesCategory, rows: &Vec<DisplayItem>)
        ensures
            final(self)@ == old(self)@.remember_rows(category, models::rows_of(rows@)),
    {
        match category {
            FavoritesCategory::Artists => {
                self.cache.artists = Some(rows.clone());
            },
            FavoritesCategory::Albums => {
                self.cache.albums = Some(rows.clone());
            },
            FavoritesCategory::Playlists => {
                self.cache.playlists = Some(rows.clone());
            },
            FavoritesCategory::Following => {
                self.cache.following = Some(rows.clone());
            },
            _ => {},
        }
    }

    fn forget_playlist(&mut self, id: &str)
        ensures
            final(self)@ == old(self)@.forget_playlist(id@),
    {
        self.cache.invalidate_playlists(id);
    }
}

impl DaemonView {
    // ── Session ─────────────────────────────────────────────────────

    /// The player starts to work. Without a connection the audio output is opened
    /// at once: downloads need no key. With one, a remembered login is used.
    #[verifier::opaque]
    pub open spec fn begin(self) -> DaemonView {
        if self.is_offline {
            self.send(Effect::OpenEngine)
        } else {
            match self.config.arl {
                Some(arl) => self.tell(NoticeKind::Connecting).start_login(arl),
                None => self,
            }
        }
    }

    /// The user is logged in.
    #[verifier::opaque]
    pub open spec fn login_success(self, name: String) -> DaemonView {
        DaemonView {
            login: LoginView { loading: false, user_name: Some(name), ..self.login },
            screen: Screen::Main,
            ..self
        }.notify(notice::about(NoticeKind::ConnectedAs, name@)).start_fetch_master_key()
    }

    /// The login was refused.
    #[verifier::opaque]
    pub open spec fn login_error(self, err: String) -> DaemonView {
        DaemonView {
            login: LoginView { loading: false, error: Some(err), ..self.login },
            screen: Screen::Login,
            ..self
        }
    }

    /// The audio output is open, at the volume of the preferences.
    #[verifier::opaque]
    pub open spec fn engine_opened(self) -> DaemonView {
        DaemonView {
            run: RunView { engine_ready: true, ..self.run },
            player: PlayerStateView { volume: self.config.volume, ..self.player },
            ..self
        }.send(Effect::Engine(EngineCommand::SetVolume(self.config.volume)))
    }

    /// The decryption key is there, and the lists are asked for.
    #[verifier::opaque]
    pub open spec fn master_key_ready(self, engine_error: Option<String>) -> DaemonView {
        let d = DaemonView { run: RunView { key_ready: true, ..self.run }, ..self }.tell(
            NoticeKind::Ready,
        );
        let e = match engine_error {
            None => d.engine_opened(),
            Some(err) => d.notify(notice::about(NoticeKind::AudioInitError, err@)),
        };
        e.start_load_favorites_category().start_load_favorite_ids().start_load_radios()
            .start_load_moods().start_load_genres()
    }

    /// An error is shown and nothing else changes.
    #[verifier::opaque]
    pub open spec fn report(self, kind: NoticeKind, err: Seq<char>) -> DaemonView {
        self.notify(notice::about(kind, err))
    }

    /// A message is shown and nothing else changes.
    #[verifier::opaque]
    pub open spec fn mention(self, kind: NoticeKind) -> DaemonView {
        self.tell(kind)
    }

    /// How far a download has got.
    #[verifier::opaque]
    pub open spec fn download_progress(self, percent: u8) -> DaemonView {
        self.notify(notice::counting(NoticeKind::DownloadProgress, percent as nat))
    }

    // ── Search ──────────────────────────────────────────────────────

    /// What a search found is shown from the top.
    #[verifier::opaque]
    pub open spec fn search_found(
        self,
        tracks: Seq<TrackData>,
        rows: Seq<DisplayItemView>,
    ) -> DaemonView {
        DaemonView {
            search: SearchView {
                loading: false,
                results: tracks,
                display: rows,
                selected: 0,
                ..self.search
            },
            ..self
        }.notify(notice::counting(NoticeKind::Results, rows.len()))
    }

    /// A search failed: what was shown before stays.
    #[verifier::opaque]
    pub open spec fn search_failed(self, err: Seq<char>) -> DaemonView {
        DaemonView { search: SearchView { loading: false, ..self.search }, ..self }.notify(
            notice::about(NoticeKind::SearchError, err),
        )
    }

    // ── Favorites ───────────────────────────────────────────────────

    /// Tracks of a favorites category have come. They are kept under the category
    /// that was asked for, and shown only if it is the one on display.
    #[verifier::opaque]
    pub open spec fn favorites_loaded(
        self,
        category: FavoritesCategory,
        tracks: Seq<TrackData>,
    ) -> DaemonView {
        let kept = if category == FavoritesCategory::Tracks {
            DaemonView { fav: self.fav.remember_tracks(tracks), ..self }.send(
                Effect::SaveFavoritesCache,
            )
        } else {
            self
        };
        if category == self.fav.category {
            DaemonView {
                fav: kept.fav.show(tracks, models::rows_of_tracks(tracks)),
                ..kept
            }.notify(notice::counting(NoticeKind::Loaded, tracks.len()))
        } else {
            kept
        }
    }

    /// Rows of a favorites category have come.
    #[verifier::opaque]
    pub open spec fn favorites_display_loaded(
        self,
        category: FavoritesCategory,
        rows: Seq<DisplayItemView>,
    ) -> DaemonView {
        let kept = DaemonView { fav: self.fav.remember_rows(category, rows), ..self }.send(
            Effect::SaveFavoritesCache,
        );
        if category == self.fav.category {
            DaemonView { fav: kept.fav.show(Seq::empty(), rows), ..kept }.notify(
                notice::counting(NoticeKind::Loaded, rows.len()),
            )
        } else {
            kept
        }
    }

    /// A favorites category could not be loaded; that matters only if it is the
    /// one on display.
    #[verifier::opaque]
    pub open spec fn favorites_failed(self, category: FavoritesCategory, err: Seq<char>) -> DaemonView {
        if category == self.fav.category {
            DaemonView { fav: self.fav.show(Seq::empty(), Seq::empty()), ..self }.notify(
                notice::about(NoticeKind::FavoritesError, err),
            )
        } else {
            self
        }
    }

    /// The favorite tracks changed: they are loaded again.
    #[verifier::opaque]
    pub open spec fn favorite_tracks_changed(self, ids: Seq<String>, kind: NoticeKind) -> DaemonView {
        DaemonView {
            fav: FavoritesView {
                track_ids: ids,
                cache: FavoritesCacheView { tracks: None, ..self.fav.cache },
                ..self.fav
            },
            ..self
        }.tell(kind).send(Effect::SaveFavoritesCache).start_load_favorites()
    }

    /// The favorite artists changed: the category on display is loaded again.
    #[verifier::opaque]
    pub open spec fn favorite_artists_changed(self, ids: Seq<String>, kind: NoticeKind) -> DaemonView {
        DaemonView {
            fav: FavoritesView {
                artist_ids: ids,
                cache: FavoritesCacheView { artists: None, ..self.fav.cache },
                ..self.fav
            },
            ..self
        }.tell(kind).send(Effect::SaveFavoritesCache).start_load_favorites_category()
    }

    /// The favorite albums changed: the category on display is loaded again.
    #[verifier::opaque]
    pub open spec fn favorite_albums_changed(self, ids: Seq<String>, kind: NoticeKind) -> DaemonView {
        DaemonView {
            fav: FavoritesView {
                album_ids: ids,
                cache: FavoritesCacheView { albums: None, ..self.fav.cache },
                ..self.fav
            },
            ..self
        }.tell(kind).send(Effect::SaveFavoritesCache).start_load_favorites_category()
    }

    /// The ids of the favorites have come. An empty list of tracks may mean that
    /// they could not be fetched, and changes nothing.
    #[verifier::opaque]
    pub open spec fn favorite_ids_loaded(
        self,
        track_ids: Seq<String>,
        artist_ids: Seq<String>,
        album_ids: Seq<String>,
    ) -> DaemonView {
        DaemonView {
            fav: FavoritesView {
                track_ids: if track_ids.len() == 0 {
                    self.fav.track_ids
                } else {
                    track_ids
                },
                artist_ids,
                album_ids,
                ..self.fav
            },
            ..self
        }
    }

    // ── Playlists ───────────────────────────────────────────────────

    /// The user's playlists have come.
    #[verifier::opaque]
    pub open spec fn playlists_ready(self, playlists: Seq<PlaylistData>) -> DaemonView {
        DaemonView { playlists, ..self }.notify(
            notice::counting(NoticeKind::PlaylistsLoaded, playlists.len()),
        )
    }

    /// A playlist changed: what was kept of it is dropped.
    #[verifier::opaque]
    pub open spec fn playlist_changed(self, id: Seq<char>, kind: NoticeKind) -> DaemonView {
        DaemonView { fav: self.fav.forget_playlist(id), ..self }.tell(kind).send(
            Effect::SaveFavoritesCache,
        )
    }

    /// The track count of a playlist changes, wherever it is listed or shown.
    #[verifier::opaque]
    pub open spec fn adjust_playlist_count(self, id: Seq<char>, delta: int) -> DaemonView {
        DaemonView {
            playlists: self.playlists.map_values(rows::playlist_adjusted(id, delta)),
            search: SearchView {
                display: self.search.display.map_values(rows::row_adjusted(id, delta)),
                ..self.search
            },
            fav: FavoritesView {
                display: self.fav.display.map_values(rows::row_adjusted(id, delta)),
                ..self.fav
            },
            ..self
        }
    }

    /// The track count of a playlist is known, and set wherever it is listed,
    /// shown or kept.
    #[verifier::opaque]
    pub open spec fn set_playlist_track_count(self, id: Seq<char>, count: nat) -> DaemonView {
        DaemonView {
            playlists: self.playlists.map_values(rows::playlist_counted(id, count as u64)),
            search: SearchView {
                display: self.search.display.map_values(rows::row_counted(id, count)),
                ..self.search
            },
            fav: FavoritesView {
                display: self.fav.display.map_values(rows::row_counted(id, count)),
                cache: FavoritesCacheView {
                    playlists: match self.fav.cache.playlists {
                        Some(r) => Some(r.map_values(rows::row_counted(id, count))),
                        None => None,
                    },
                    ..self.fav.cache
                },
                ..self.fav
            },
            ..self
        }
    }

    /// A track was added to a playlist.
    #[verifier::opaque]
    pub open spec fn added_to_playlist(self, id: Seq<char>) -> DaemonView {
        self.playlist_changed(id, NoticeKind::AddedToPlaylist).adjust_playlist_count(id, 1)
    }

    /// The open playlist page without a track.
    #[verifier::opaque]
    pub open spec fn drop_from_open_playlist(self, id: Seq<char>, track_id: Seq<char>) -> DaemonView {
        match self.pages.playlist {
            Some(page) => if page.playlist_id@ == id {
                DaemonView {
                    pages: PagesView { playlist: Some(page.without_track(track_id)), ..self.pages },
                    ..self
                }
            } else {
                self
            },
            None => self,
        }
    }

    /// A track was removed from a playlist.
    #[verifier::opaque]
    pub open spec fn removed_from_playlist(self, id: Seq<char>, track_id: Seq<char>) -> DaemonView {
        self.playlist_changed(id, NoticeKind::RemovedFromPlaylist).drop_from_open_playlist(
            id,
            track_id,
        ).adjust_playlist_count(id, -1)
    }

    /// A playlist was created: the list of playlists is loaded again when it is
    /// needed.
    #[verifier::opaque]
    pub open spec fn playlist_created(self, id: Seq<char>) -> DaemonView {
        DaemonView {
            playlists: Seq::empty(),
            ..self.playlist_changed(id, NoticeKind::PlaylistCreated)
        }
    }

    /// A playlist has another title, wherever it is listed or shown.
    #[verifier::opaque]
    pub open spec fn retitle(self, id: Seq<char>, title: String) -> DaemonView {
        DaemonView {
            playlists: self.playlists.map_values(rows::playlist_renamed(id, title)),
            search: SearchView {
                display: self.search.display.map_values(rows::row_renamed(id, title@)),
                ..self.search
            },
            fav: FavoritesView {
                display: self.fav.display.map_values(rows::row_renamed(id, title@)),
                ..self.fav
            },
            pages: match self.pages.playlist {
                Some(page) => if page.playlist_id@ == id {
                    PagesView {
                        playlist: Some(PlaylistDetailView { title, ..page }),
                        ..self.pages
                    }
                } else {
                    self.pages
                },
                None => self.pages,
            },
            ..self
        }
    }

    /// A playlist was renamed.
    #[verifier::opaque]
    pub open spec fn playlist_renamed(self, id: Seq<char>, title: String) -> DaemonView {
        self.playlist_changed(id, NoticeKind::PlaylistRenamed).retitle(id, title)
    }

    /// A playlist is listed and shown nowhere any more.
    #[verifier::opaque]
    pub open spec fn unlist(self, id: Seq<char>) -> DaemonView {
        DaemonView {
            playlists: seqs::others(self.playlists, id),
            search: SearchView {
                display: self.search.display.filter(rows::row_of_another(id)),
                ..self.search
            },
            fav: FavoritesView {
                display: self.fav.display.filter(rows::row_of_another(id)),
                ..self.fav
            },
            pages: match self.pages.playlist {
                Some(page) => if page.playlist_id@ == id {
                    PagesView {
                        playlist: None,
                        playlist_selected: 0,
                        playlist_loading: false,
                        ..self.pages
                    }
                } else {
                    self.pages
                },
                None => self.pages,
            },
            ..self
        }
    }

    /// A playlist was deleted.
    #[verifier::opaque]
    pub open spec fn playlist_deleted(self, id: Seq<char>) -> DaemonView {
        self.playlist_changed(id, NoticeKind::PlaylistDeleted).unlist(id)
    }

    // ── Pages and lists ─────────────────────────────────────────────

    /// An album's page has come.
    #[verifier::opaque]
    pub open spec fn album_ready(self, detail: models::AlbumDetailView) -> DaemonView {
        DaemonView {
            pages: PagesView {
                album_loading: false,
                album: Some(detail),
                album_selected: 0,
                ..self.pages
            },
            ..self
        }.notify(
            NoticeView {
                kind: NoticeKind::AlbumTracks,
                detail: detail.title@,
                count: detail.tracks.len(),
            },
        )
    }

    #[verifier::opaque]
    pub open spec fn album_failed(self, err: Seq<char>) -> DaemonView {
        DaemonView { pages: PagesView { album_loading: false, ..self.pages }, ..self }.notify(
            notice::about(NoticeKind::AlbumError, err),
        )
    }

    /// An artist's page has come.
    #[verifier::opaque]
    pub open spec fn artist_ready(self, detail: models::ArtistDetailView) -> DaemonView {
        DaemonView {
            pages: PagesView {
                artist_loading: false,
                artist: Some(detail),
                artist_selected: 0,
                ..self.pages
            },
            ..self
        }.notify(
            NoticeView {
                kind: NoticeKind::ArtistTracks,
                detail: detail.name@,
                count: detail.top_tracks.len(),
            },
        )
    }

    #[verifier::opaque]
    pub open spec fn artist_failed(self, err: Seq<char>) -> DaemonView {
        DaemonView { pages: PagesView { artist_loading: false, ..self.pages }, ..self }.notify(
            notice::about(NoticeKind::ArtistError, err),
        )
    }

    /// A playlist's page, or a podcast's, is shown from the top.
    #[verifier::opaque]
    pub open spec fn show_playlist(self, detail: PlaylistDetailView) -> DaemonView {
        DaemonView {
            pages: PagesView {
                playlist_loading: false,
                playlist: Some(detail),
                playlist_selected: 0,
                ..self.pages
            },
            ..self
        }.notify(
            NoticeView {
                kind: NoticeKind::PlaylistTracks,
                detail: detail.title@,
                count: detail.tracks.len(),
            },
        )
    }

    /// The open playlist page is replaced by a fresh copy of the same playlist.
    /// The cursor stays on its track, even where the track has moved; a cursor on
    /// a track that is gone stays in place, inside the list.
    #[verifier::opaque]
    pub open spec fn refresh_playlist(self, detail: PlaylistDetailView) -> DaemonView {
        match self.pages.playlist {
            Some(page) => if page.playlist_id@ == detail.playlist_id@ {
                DaemonView {
                    pages: PagesView {
                        playlist: Some(detail),
                        playlist_selected: kept_cursor(
                            page.tracks,
                            self.pages.playlist_selected,
                            detail.tracks,
                        ),
                        ..self.pages
                    },
                    ..self
                }
            } else {
                self
            },
            None => self,
        }
    }

    /// A playlist's page has come: it is kept, its track count is set everywhere,
    /// and it is shown, or quietly refreshed if it came in the background.
    #[verifier::opaque]
    pub open spec fn playlist_ready(self, detail: PlaylistDetailView, background: bool) -> DaemonView {
        let kept = DaemonView {
            fav: FavoritesView {
                cache: FavoritesCacheView {
                    playlist_details: storage::other_playlists(
                        self.fav.cache.playlist_details,
                        detail.playlist_id@,
                    ).push(detail),
                    ..self.fav.cache
                },
                ..self.fav
            },
            ..self
        }.set_playlist_track_count(detail.playlist_id@, detail.tracks.len()).send(
            Effect::SaveFavoritesCache,
        );
        if background {
            kept.refresh_playlist(detail)
        } else {
            kept.show_playlist(detail)
        }
    }

    #[verifier::opaque]
    pub open spec fn playlist_failed(self, err: Seq<char>, background: bool) -> DaemonView {
        if background {
            self
        } else {
            DaemonView { pages: PagesView { playlist_loading: false, ..self.pages }, ..self }.notify(
                notice::about(NoticeKind::PlaylistError, err),
            )
        }
    }

    /// The stations have come.
    #[verifier::opaque]
    pub open spec fn radios_ready(self, items: Seq<RadioItem>) -> DaemonView {
        DaemonView {
            explore: ExploreView {
                radios_loading: false,
                radios: items,
                radios_selected: 0,
                ..self.explore
            },
            ..self
        }.notify(notice::counting(NoticeKind::RadiosLoaded, items.len()))
    }

    #[verifier::opaque]
    pub open spec fn radios_failed(self, err: Seq<char>) -> DaemonView {
        DaemonView { explore: ExploreView { radios_loading: false, ..self.explore }, ..self }.notify(
            notice::about(NoticeKind::RadiosError, err),
        )
    }

    /// The moods have come, and are kept for the next start.
    #[verifier::opaque]
    pub open spec fn moods_ready(self, items: Seq<MoodEntry>) -> DaemonView {
        DaemonView {
            explore: ExploreView {
                moods_loading: false,
                moods: items,
                moods_selected: 0,
                ..self.explore
            },
            fav: FavoritesView {
                cache: FavoritesCacheView { moods: Some(items), ..self.fav.cache },
                ..self.fav
            },
            ..self
        }.notify(notice::counting(NoticeKind::MoodsLoaded, items.len())).send(
            Effect::SaveFavoritesCache,
        )
    }

    #[verifier::opaque]
    pub open spec fn moods_failed(self, err: Seq<char>) -> DaemonView {
        DaemonView { explore: ExploreView { moods_loading: false, ..self.explore }, ..self }.notify(
            notice::about(NoticeKind::MoodsError, err),
        )
    }

    /// The genres have come.
    #[verifier::opaque]
    pub open spec fn genres_ready(self, items: Seq<GenreItem>) -> DaemonView {
        DaemonView {
            explore: ExploreView {
                genres_loading: false,
                genres: items,
                genres_selected: 0,
                ..self.explore
            },
            ..self
        }.notify(notice::counting(NoticeKind::GenresLoaded, items.len()))
    }

    #[verifier::opaque]
    pub open spec fn genres_failed(self, err: Seq<char>) -> DaemonView {
        DaemonView { explore: ExploreView { genres_loading: false, ..self.explore }, ..self }.notify(
            notice::about(NoticeKind::GenresError, err),
        )
    }

    /// The new releases have come.
    #[verifier::opaque]
    pub open spec fn new_releases_ready(self, items: Seq<DisplayItemView>) -> DaemonView {
        DaemonView {
            explore: ExploreView {
                new_releases_loading: false,
                new_releases: items,
                new_releases_selected: 0,
                ..self.explore
            },
            ..self
        }.notify(notice::counting(NoticeKind::Loaded, items.len()))
    }

    #[verifier::opaque]
    pub open spec fn new_releases_failed(self, err: Seq<char>) -> DaemonView {
        DaemonView {
            explore: ExploreView { new_releases_loading: false, ..self.explore },
            ..self
        }.notify(notice::about(NoticeKind::NewReleasesError, err))
    }

    /// A genre's page has come.
    #[verifier::opaque]
    pub open spec fn genre_ready(self, detail: models::GenreDetailView) -> DaemonView {
        DaemonView {
            pages: PagesView { genre_loading: false, genre: Some(detail), ..self.pages },
            ..self
        }.notify(notice::about(NoticeKind::GenreDetailLoaded, detail.name@))
    }

    #[verifier::opaque]
    pub open spec fn genre_failed(self, err: Seq<char>) -> DaemonView {
        DaemonView { pages: PagesView { genre_loading: false, ..self.pages }, ..self }.notify(
            notice::about(NoticeKind::GenreDetailError, err),
        )
    }

    // ── Downloads ───────────────────────────────────────────────────

    /// A track was downloaded.
    #[verifier::opaque]
    pub open spec fn track_saved(self, track: TrackData, quality: AudioQuality) -> DaemonView {
        DaemonView {
            offline: OfflineTabView {
                loading: false,
                index: self.offline.index.with_track(track, quality),
                ..self.offline
            },
            ..self
        }.send(Effect::SaveOfflineIndex).tell(NoticeKind::TrackSavedOffline)
    }

    /// An album was downloaded, with its tracks.
    #[verifier::opaque]
    pub open spec fn album_saved(self, album: models::AlbumDetailView) -> DaemonView {
        DaemonView {
            offline: OfflineTabView {
                loading: false,
                index: self.offline.index.with_missing(
                    album.tracks,
                    self.config.quality,
                ).with_album(album),
                ..self.offline
            },
            ..self
        }.send(Effect::SaveOfflineIndex).tell(NoticeKind::AlbumSavedOffline)
    }

    /// A playlist was downloaded, with its tracks.
    #[verifier::opaque]
    pub open spec fn playlist_saved(self, playlist: PlaylistDetailView) -> DaemonView {
        DaemonView {
            offline: OfflineTabView {
                loading: false,
                index: self.offline.index.with_missing(
                    playlist.tracks,
                    self.config.quality,
                ).with_playlist(playlist),
                ..self.offline
            },
            ..self
        }.send(Effect::SaveOfflineIndex).tell(NoticeKind::PlaylistSavedOffline)
    }

    #[verifier::opaque]
    pub open spec fn download_failed(self, err: Seq<char>) -> DaemonView {
        DaemonView { offline: OfflineTabView { loading: false, ..self.offline }, ..self }.notify(
            notice::about(NoticeKind::OfflineDownloadError, err),
        )
    }

    // ── Playing ─────────────────────────────────────────────────────

    /// Tracks that were asked for become the queue and the first one starts.
    #[verifier::opaque]
    pub open spec fn play_batch(
        self,
        tracks: Seq<TrackData>,
        kind: NoticeKind,
        none: NoticeKind,
    ) -> DaemonView {
        if tracks.len() == 0 {
            self.tell(none)
        } else {
            self.notify(notice::counting(kind, tracks.len())).play_list(tracks, 0)
        }
    }

    /// More tracks are put behind the queue, and the first of them starts.
    #[verifier::opaque]
    pub open spec fn continue_queue(self, tracks: Seq<TrackData>, kind: NoticeKind) -> DaemonView {
        DaemonView {
            player: PlayerStateView {
                queue: self.player.queue + tracks,
                queue_index: self.player.queue.len() as usize,
                ..self.player
            },
            ..self
        }.notify(notice::counting(kind, tracks.len())).start_play_track(tracks[0])
    }

    /// Tracks become the queue and the first one starts; what goes on when the
    /// queue ends is set.
    #[verifier::opaque]
    pub open spec fn begin_queue(
        self,
        tracks: Seq<TrackData>,
        kind: NoticeKind,
        run: RunView,
    ) -> DaemonView {
        DaemonView {
            run,
            player: PlayerStateView { queue: tracks, queue_index: 0, ..self.player },
            ..self
        }.notify(notice::counting(kind, tracks.len())).start_play_track(tracks[0])
    }

    /// Flow tracks have come: they continue Flow if it plays, and begin it
    /// otherwise.
    #[verifier::opaque]
    pub open spec fn flow_ready(self, tracks: Seq<TrackData>) -> DaemonView {
        if tracks.len() == 0 {
            self.tell(NoticeKind::NoFlowTracks)
        } else if self.run.flow_active {
            self.continue_queue(tracks, NoticeKind::FlowTracks)
        } else {
            self.begin_queue(
                tracks,
                NoticeKind::FlowTracks,
                RunView { flow_active: true, active_mood: None, ..self.run },
            )
        }
    }

    /// Tracks of a mood have come.
    #[verifier::opaque]
    pub open spec fn mood_tracks_ready(self, tracks: Seq<TrackData>, continuation: bool) -> DaemonView {
        if tracks.len() == 0 {
            self.tell(NoticeKind::NoRadioTracks)
        } else if continuation {
            self.continue_queue(tracks, NoticeKind::RadioTracks)
        } else {
            self.begin_queue(
                tracks,
                NoticeKind::RadioTracks,
                RunView { flow_active: false, ..self.run },
            )
        }
    }

    /// More tracks could not be fetched: playback stops rather than load for ever.
    #[verifier::opaque]
    pub open spec fn fetch_more_failed(self, kind: NoticeKind, err: Seq<char>, stop: bool) -> DaemonView {
        let d = self.notify(notice::about(kind, err));
        if stop {
            d.with_status(PlaybackStatus::Stopped)
        } else {
            d
        }
    }

    /// The audio of a request is still wanted: it is the latest request, and there
    /// is an audio output.
    pub open spec fn wants(self, generation: u64) -> bool {
        generation == self.run.generation && self.run.engine_ready
    }

    /// A track plays, from its start.
    #[verifier::opaque]
    pub open spec fn track_started(self, track: TrackData, quality: AudioQuality, now: u64) -> DaemonView {
        DaemonView {
            player: self.player.loaded(track, quality, 0, false),
            run: RunView { skips: 0, started_at: Some(now), offset_secs: 0, ..self.run },
            status_msg: None,
            ..self
        }
    }

    /// A track's audio has come and was handed to the audio output.
    #[verifier::opaque]
    pub open spec fn track_ready(
        self,
        track: TrackData,
        quality: AudioQuality,
        generation: u64,
        play_error: Option<String>,
        now: u64,
    ) -> DaemonView {
        if !self.wants(generation) {
            self
        } else {
            match play_error {
                None => self.track_started(track, quality, now),
                Some(err) => self.notify(notice::about(NoticeKind::PlaybackError, err@)),
            }
        }
    }

    /// The current track, if it is downloaded.
    pub open spec fn local_copy(self) -> Option<TrackData> {
        match self.player.current_track {
            Some(track) => if self.offline.index.has_track(track.track_id@) {
                Some(track)
            } else {
                None
            },
            None => None,
        }
    }

    /// A count of skipped tracks.
    pub open spec fn with_skips(self, skips: u32) -> DaemonView {
        DaemonView { run: RunView { skips, ..self.run }, ..self }
    }

    /// A track could not be fetched. A downloaded copy is played instead; without
    /// one the next track follows, up to five times in a row.
    #[verifier::opaque]
    pub open spec fn track_failed(
        self,
        err: Seq<char>,
        generation: u64,
        now: u64,
        seed: u64,
    ) -> DaemonView {
        if generation != self.run.generation {
            self
        } else if self.local_copy() is Some {
            self.with_skips(0).start_play_offline_track(self.local_copy()->0)
        } else {
            let told = self.notify(notice::about(NoticeKind::TrackError, err));
            if self.run.skips < 5 {
                told.with_skips((self.run.skips + 1) as u32).play_next(now, seed)
            } else {
                told.with_skips(0).with_status(PlaybackStatus::Stopped)
            }
        }
    }
}

/// Where the cursor goes when a list of tracks is replaced by a fresh copy.
pub open spec fn kept_cursor(before: Seq<TrackData>, at: usize, after: Seq<TrackData>) -> usize {
    if at < before.len() && seqs::listed(after, before[at as int].track_id@) {
        seqs::place_of(after, before[at as int].track_id@) as usize
    } else if after.len() == 0 {
        0
    } else if at < after.len() {
        at
    } else {
        (after.len() - 1) as usize
    }
}

/// Where the cursor goes when a list of tracks is replaced by a fresh copy.
fn keep_cursor(before: &Vec<TrackData>, at: usize, after: &Vec<TrackData>) -> (r: usize)
    ensures
        r == kept_cursor(before@, at, after@),
{
    if at < before.len() {
        match find_id(after, &before[at].track_id) {
            Some(i) => {
                return i;
            },
            None => {},
        }
    }
    if after.len() == 0 {
        0
    } else if at < after.len() {
        at
    } else {
        after.len() - 1
    }
}

impl DaemonView {
    // ── All outcomes ────────────────────────────────────────────────

    /// What an outcome about what plays does.
    #[verifier::opaque]
    pub open spec fn playing_result(self, result: AsyncResult, now: u64, seed: u64) -> DaemonView {
        match result {
            AsyncResult::MixReady(tracks) => self.play_batch(
            tracks@,
            NoticeKind::MixTracks,
            NoticeKind::NoMixTracks,
            ),
            AsyncResult::MixError(err) => self.report(NoticeKind::MixError, err@),
            AsyncResult::RadioTracksReady(tracks) => self.play_batch(
            tracks@,
            NoticeKind::RadioTracks,
            NoticeKind::NoRadioTracks,
            ),
            AsyncResult::RadioTracksError(err) => self.report(NoticeKind::RadioTracksError, err@),
            AsyncResult::FlowReady(tracks) => self.flow_ready(tracks@),
            AsyncResult::FlowError(err) => self.fetch_more_failed(NoticeKind::FlowError, err@, true),
            AsyncResult::MoodTracksReady { tracks, continuation } => self.mood_tracks_ready(
            tracks@,
            continuation,
            ),
            AsyncResult::MoodTracksError { err, continuation } => self.fetch_more_failed(
            NoticeKind::RadioTracksError,
            err@,
            continuation,
            ),
            AsyncResult::TrackReady { track, quality, generation, play_error } => self.track_ready(
            track,
            quality,
            generation,
            play_error,
            now,
            ),
            AsyncResult::TrackFetchError { err, generation } => self.track_failed(
            err@,
            generation,
            now,
            seed,
            ),
            _ => self,
        }
    }

    /// What an outcome about pages and lists does.
    #[verifier::opaque]
    pub open spec fn pages_result(self, result: AsyncResult, now: u64, seed: u64) -> DaemonView {
        match result {
            AsyncResult::AlbumDetailReady(detail) => self.album_ready(detail@),
            AsyncResult::AlbumDetailError(err) => self.album_failed(err@),
            AsyncResult::ArtistDetailReady(detail) => self.artist_ready(detail@),
            AsyncResult::ArtistDetailError(err) => self.artist_failed(err@),
            AsyncResult::PlaylistDetailReady { detail, background } => self.playlist_ready(detail@, background),
            AsyncResult::PlaylistDetailError { err, background } => self.playlist_failed(err@, background),
            AsyncResult::ShowDetailReady(detail) => self.show_playlist(detail@),
            AsyncResult::ShowDetailError(err) => self.playlist_failed(err@, false),
            AsyncResult::RadiosReady(items) => self.radios_ready(items@),
            AsyncResult::RadiosError(err) => self.radios_failed(err@),
            AsyncResult::MoodsReady(items) => self.moods_ready(items@),
            AsyncResult::MoodsError(err) => self.moods_failed(err@),
            AsyncResult::GenresReady(items) => self.genres_ready(items@),
            AsyncResult::GenresError(err) => self.genres_failed(err@),
            AsyncResult::NewReleasesReady(items) => self.new_releases_ready(models::rows_of(items@)),
            AsyncResult::NewReleasesError(err) => self.new_releases_failed(err@),
            AsyncResult::GenreDetailReady(detail) => self.genre_ready(detail@),
            AsyncResult::GenreDetailError(err) => self.genre_failed(err@),
            _ => self.playing_result(result, now, seed),
        }
    }

    /// What an outcome about playlists does.
    #[verifier::opaque]
    pub open spec fn playlists_result(self, result: AsyncResult, now: u64, seed: u64) -> DaemonView {
        match result {
            AsyncResult::PlaylistsReady(playlists) => self.playlists_ready(playlists@),
            AsyncResult::PlaylistsError(err) => self.report(NoticeKind::PlaylistsError, err@),
            AsyncResult::AddedToPlaylist(playlist_id) => self.added_to_playlist(playlist_id@),
            AsyncResult::AddToPlaylistError(err) => self.report(NoticeKind::AddToPlaylistError, err@),
            AsyncResult::AlreadyInPlaylist => self.mention(NoticeKind::AlreadyInPlaylist),
            AsyncResult::RemovedFromPlaylist { playlist_id, track_id } => self.removed_from_playlist(
            playlist_id@,
            track_id@,
            ),
            AsyncResult::RemoveFromPlaylistError(err) => self.report(NoticeKind::RemoveFromPlaylistError, err@),
            AsyncResult::PlaylistCreatedAndAdded { playlist_id } => self.playlist_created(playlist_id@),
            AsyncResult::PlaylistCreatedError(err) => self.report(NoticeKind::PlaylistCreateError, err@),
            AsyncResult::PlaylistRenamed { playlist_id, new_title } => self.playlist_renamed(
            playlist_id@,
            new_title,
            ),
            AsyncResult::PlaylistRenameError(err) => self.report(NoticeKind::PlaylistRenameError, err@),
            AsyncResult::PlaylistDeleted(playlist_id) => self.playlist_deleted(playlist_id@),
            AsyncResult::PlaylistDeleteError(err) => self.report(NoticeKind::PlaylistDeleteError, err@),
            _ => self.pages_result(result, now, seed),
        }
    }

    /// What an outcome about the favorites does.
    #[verifier::opaque]
    pub open spec fn favorites_result(self, result: AsyncResult, now: u64, seed: u64) -> DaemonView {
        match result {
            AsyncResult::FavoritesLoaded(category, tracks) => self.favorites_loaded(category, tracks@),
            AsyncResult::FavoritesDisplayLoaded(category, items) => self.favorites_display_loaded(
            category,
            models::rows_of(items@),
            ),
            AsyncResult::FavoritesError(category, err) => self.favorites_failed(category, err@),
            AsyncResult::FavoriteError(err) => self.report(NoticeKind::FavoriteError, err@),
            AsyncResult::FavoriteArtistError(err) => self.report(NoticeKind::FavoriteError, err@),
            AsyncResult::FavoriteAlbumError(err) => self.report(NoticeKind::FavoriteError, err@),
            AsyncResult::FavoriteAdded(track_id) => self.favorite_tracks_changed(
            with_id(self.fav.track_ids, track_id),
            NoticeKind::AddedToFavorites,
            ),
            AsyncResult::FavoriteRemoved(track_id) => self.favorite_tracks_changed(
            seqs::others(self.fav.track_ids, track_id@),
            NoticeKind::RemovedFromFavorites,
            ),
            AsyncResult::FavoriteArtistAdded(artist_id) => self.favorite_artists_changed(
            with_id(self.fav.artist_ids, artist_id),
            NoticeKind::AddedToFavorites,
            ),
            AsyncResult::FavoriteArtistRemoved(artist_id) => self.favorite_artists_changed(
            seqs::others(self.fav.artist_ids, artist_id@),
            NoticeKind::RemovedFromFavorites,
            ),
            AsyncResult::FavoriteAlbumAdded(album_id) => self.favorite_albums_changed(
            with_id(self.fav.album_ids, album_id),
            NoticeKind::AddedToFavorites,
            ),
            AsyncResult::FavoriteAlbumRemoved(album_id) => self.favorite_albums_changed(
            seqs::others(self.fav.album_ids, album_id@),
            NoticeKind::RemovedFromFavorites,
            ),
            AsyncResult::FavoriteIdsLoaded { track_ids, artist_ids, album_ids } => self.favorite_ids_loaded(
            track_ids@,
            artist_ids@,
            album_ids@,
            ),
            _ => self.playlists_result(result, now, seed),
        }
    }

    /// What the outcome of a background task does.
    #[verifier::opaque]
    pub open spec fn result(self, result: AsyncResult, now: u64, seed: u64) -> DaemonView {
        match result {
            AsyncResult::LoginSuccess(name) => self.login_success(name),
            AsyncResult::LoginError(err) => self.login_error(err),
            AsyncResult::MasterKeyReady { engine_error } => self.master_key_ready(engine_error),
            AsyncResult::MasterKeyError(err) => self.report(NoticeKind::KeyError, err@),
            AsyncResult::SearchResults(tracks) => self.search_found(tracks@, models::rows_of_tracks(tracks@)),
            AsyncResult::SearchDisplayResults(items) => self.search_found(Seq::empty(), models::rows_of(items@)),
            AsyncResult::SearchError(err) => self.search_failed(err@),
            AsyncResult::DislikeOk => self.mention(NoticeKind::TrackDisliked),
            AsyncResult::DislikeError(err) => self.report(NoticeKind::DislikeError, err@),
            AsyncResult::OfflineTrackSaved { track, quality } => self.track_saved(track, quality),
            AsyncResult::OfflineTrackSaveError(err) => self.download_failed(err@),
            AsyncResult::OfflineAlbumSaved { album } => self.album_saved(album@),
            AsyncResult::OfflineAlbumSaveError(err) => self.download_failed(err@),
            AsyncResult::OfflinePlaylistSaved { playlist } => self.playlist_saved(playlist@),
            AsyncResult::OfflinePlaylistSaveError(err) => self.download_failed(err@),
            AsyncResult::OfflineDownloadProgress { percent } => self.download_progress(percent),
            _ => self.favorites_result(result, now, seed),
        }
    }
}

/// Changes the track count of a playlist in rows that are shown.
fn adjust_shown(list: &mut Vec<DisplayItem>, id: &str, delta: i64)
    ensures
        models::rows_of(final(list)@) == models::rows_of(old(list)@).map_values(
            rows::row_adjusted(id@, delta as int),
        ),
{
    let mut old_rows: Vec<DisplayItem> = Vec::new();
    std::mem::swap(&mut old_rows, list);
    *list = adjust_rows(old_rows, id, delta);
}

/// Sets the track count of a playlist in rows that are shown.
fn count_shown(list: &mut Vec<DisplayItem>, id: &str, count: usize)
    ensures
        models::rows_of(final(list)@) == models::rows_of(old(list)@).map_values(
            rows::row_counted(id@, count as nat),
        ),
{
    let mut old_rows: Vec<DisplayItem> = Vec::new();
    std::mem::swap(&mut old_rows, list);
    *list = count_rows(old_rows, id, count);
}

/// Sets the title of a playlist in rows that are shown.
fn rename_shown(list: &mut Vec<DisplayItem>, id: &str, title: &String)
    ensures
        models::rows_of(final(list)@) == models::rows_of(old(list)@).map_values(
            rows::row_renamed(id@, title@),
        ),
{
    let mut old_rows: Vec<DisplayItem> = Vec::new();
    std::mem::swap(&mut old_rows, list);
    *list = rename_rows(old_rows, id, title);
}

/// Drops a playlist from rows that are shown.
fn drop_shown(list: &mut Vec<DisplayItem>, id: &str)
    ensures
        models::rows_of(final(list)@) == models::rows_of(old(list)@).filter(
            rows::row_of_another(id@),
        ),
{
    let mut old_rows: Vec<DisplayItem> = Vec::new();
    std::mem::swap(&mut old_rows, list);
    *list = drop_rows(old_rows, id);
}

/// What adding a track to a playlist came to. `created` tells that the playlist
/// was created for it; `words` are the error's.
pub fn after_adding(
    playlist_id: String,
    created: bool,
    error: Option<&DeezerError>,
    words: String,
) -> (r: AsyncResult)
    ensures
        r == (match error {
            None => if created {
                AsyncResult::PlaylistCreatedAndAdded { playlist_id }
            } else {
                AsyncResult::AddedToPlaylist(playlist_id)
            },
            Some(e) => if *e is TrackAlreadyInPlaylist {
                AsyncResult::AlreadyInPlaylist
            } else {
                AsyncResult::AddToPlaylistError(words)
            },
        }),
{
    match error {
        None => {
            if created {
                AsyncResult::PlaylistCreatedAndAdded { playlist_id }
            } else {
                AsyncResult::AddedToPlaylist(playlist_id)
            }
        },
        Some(e) => match e {
            DeezerError::TrackAlreadyInPlaylist => AsyncResult::AlreadyInPlaylist,
            _ => AsyncResult::AddToPlaylistError(words),
        },
    }
}

impl Daemon {
    /// Starts to work.
    pub fn begin(&mut self)
        ensures
            final(self)@ == old(self)@.begin(),
            old(self)@.wf() ==> final(self)@.wf(),
    {
        proof {
            reveal(DaemonView::begin);
            reveal(DaemonView::start_login);
        }
        if self.is_offline {
            self.send(Effect::OpenEngine);
            return;
        }
        let arl: Option<String> = self.config.arl.clone();
        match arl {
            Some(arl) => {
                self.tell(NoticeKind::Connecting);
                self.start_login(arl);
            },
            None => {},
        }
    }

    fn login_success(&mut self, name: String)
        ensures
            final(self)@ == old(self)@.login_success(name),
    {
        proof {
            reveal(DaemonView::login_success);
        }
        self.login.loading = false;
        self.screen = Screen::Main;
        self.login.user_name = Some(name.clone());
        self.tell_error(NoticeKind::ConnectedAs, name);
        self.start_fetch_master_key();
    }

    fn login_error(&mut self, err: String)
        ensures
            final(self)@ == old(self)@.login_error(err),
    {
        proof {
            reveal(DaemonView::login_error);
        }
        self.login.loading = false;
        self.screen = Screen::Login;
        self.login.error = Some(err);
    }

    /// Takes note that the audio output is open.
    pub fn engine_opened(&mut self)
        ensures
            final(self)@ == old(self)@.engine_opened(),
            old(self)@.wf() ==> final(self)@.wf(),
    {
        proof {
            reveal(DaemonView::engine_opened);
        }
        let volume: u32 = self.config.volume;
        self.run.engine_ready = true;
        self.player.volume = volume;
        self.send(Effect::Engine(EngineCommand::SetVolume(volume)));
    }

    fn master_key_ready(&mut self, engine_error: Option<String>)
        ensures
            final(self)@ == old(self)@.master_key_ready(engine_error),
    {
        proof {
            reveal(DaemonView::master_key_ready);
        }
        self.run.key_ready = true;
        self.tell(NoticeKind::Ready);
        match engine_error {
            None => {
                self.engine_opened();
            },
            Some(err) => {
                self.tell_error(NoticeKind::AudioInitError, err);
            },
        }
        self.start_load_favorites_category();
        self.start_load_favorite_ids();
        self.start_load_radios();
        self.start_load_moods();
        self.start_load_genres();
    }

    fn report(&mut self, kind: NoticeKind, err: String)
        ensures
            final(self)@ == old(self)@.report(kind, err@),
    {
        proof {
            reveal(DaemonView::report);
        }
        self.tell_error(kind, err);
    }

    fn mention(&mut self, kind: NoticeKind)
        ensures
            final(self)@ == old(self)@.mention(kind),
    {
        proof {
            reveal(DaemonView::mention);
        }
        self.tell(kind);
    }

    fn download_progress(&mut self, percent: u8)
        ensures
            final(self)@ == old(self)@.download_progress(percent),
    {
        proof {
            reveal(DaemonView::download_progress);
        }
        self.tell_count(NoticeKind::DownloadProgress, percent as usize);
    }

    fn search_found(&mut self, tracks: Vec<TrackData>, rows: Vec<DisplayItem>)
        ensures
            final(self)@ == old(self)@.search_found(tracks@, models::rows_of(rows@)),
    {
        proof {
            reveal(DaemonView::search_found);
        }
        let n: usize = rows.len();
        self.search.loading = false;
        self.search.results = tracks;
        self.search.display = rows;
        self.search.selected = 0;
        self.tell_count(NoticeKind::Results, n);
    }

    fn search_failed(&mut self, err: String)
        ensures
            final(self)@ == old(self)@.search_failed(err@),
    {
        proof {
            reveal(DaemonView::search_failed);
        }
        self.search.loading = false;
        self.tell_error(NoticeKind::SearchError, err);
    }

    fn favorites_loaded(&mut self, category: FavoritesCategory, tracks: Vec<TrackData>)
        ensures
            final(self)@ == old(self)@.favorites_loaded(category, tracks@),
    {
        proof {
            reveal(DaemonView::favorites_loaded);
        }
        let shown: bool = category == self.fav.category;
        if category == FavoritesCategory::Tracks {
            self.fav.remember_tracks(&tracks);
            self.send(Effect::SaveFavoritesCache);
        }
        if shown {
            let n: usize = tracks.len();
            let rows: Vec<DisplayItem> = track_rows(&tracks);
            self.fav.show(tracks, rows);
            self.tell_count(NoticeKind::Loaded, n);
        }
    }

    fn favorites_display_loaded(&mut self, category: FavoritesCategory, rows: Vec<DisplayItem>)
        ensures
            final(self)@ == old(self)@.favorites_display_loaded(
                category,
                models::rows_of(rows@),
            ),
    {
        proof {
            reveal(DaemonView::favorites_display_loaded);
        }
        let shown: bool = category == self.fav.category;
        self.fav.remember_rows(category, &rows);
        self.send(Effect::SaveFavoritesCache);
        if shown {
            let n: usize = rows.len();
            self.fav.show(Vec::new(), rows);
            self.tell_count(NoticeKind::Loaded, n);
        }
    }

    fn favorites_failed(&mut self, category: FavoritesCategory, err: String)
        ensures
            final(self)@ == old(self)@.favorites_failed(category, err@),
    {
        proof {
            reveal(DaemonView::favorites_failed);
            assert(models::rows_of(Seq::empty()) =~= Seq::<DisplayItemView>::empty());
        }
        if category == self.fav.category {
            self.fav.show(Vec::new(), Vec::new());
            self.tell_error(NoticeKind::FavoritesError, err);
        }
    }

    fn favorite_added(&mut self, track_id: String)
        ensures
            final(self)@ == old(self)@.favorite_tracks_changed(
                with_id(old(self)@.fav.track_ids, track_id),
                NoticeKind::AddedToFavorites,
            ),
    {
        proof {
            reveal(DaemonView::favorite_tracks_changed);
        }
        add_id(&mut self.fav.track_ids, track_id);
        self.fav.cache.tracks = None;
        self.tell(NoticeKind::AddedToFavorites);
        self.send(Effect::SaveFavoritesCache);
        self.start_load_favorites();
    }

    fn favorite_removed(&mut self, track_id: &str)
        ensures
            final(self)@ == old(self)@.favorite_tracks_changed(
                seqs::others(old(self)@.fav.track_ids, track_id@),
                NoticeKind::RemovedFromFavorites,
            ),
    {
        proof {
            reveal(DaemonView::favorite_tracks_changed);
        }
        remove_id(&mut self.fav.track_ids, track_id);
        self.fav.cache.tracks = None;
        self.tell(NoticeKind::RemovedFromFavorites);
        self.send(Effect::SaveFavoritesCache);
        self.start_load_favorites();
    }

    fn favorite_artist_added(&mut self, artist_id: String)
        ensures
            final(self)@ == old(self)@.favorite_artists_changed(
                with_id(old(self)@.fav.artist_ids, artist_id),
                NoticeKind::AddedToFavorites,
            ),
    {
        proof {
            reveal(DaemonView::favorite_artists_changed);
        }
        add_id(&mut self.fav.artist_ids, artist_id);
        self.fav.cache.artists = None;
        self.tell(NoticeKind::AddedToFavorites);
        self.send(Effect::SaveFavoritesCache);
        self.start_load_favorites_category();
    }

    fn favorite_artist_removed(&mut self, artist_id: &str)
        ensures
            final(self)@ == old(self)@.favorite_artists_changed(
                seqs::others(old(self)@.fav.artist_ids, artist_id@),
                NoticeKind::RemovedFromFavorites,
            ),
    {
        proof {
            reveal(DaemonView::favorite_artists_changed);
        }
        remove_id(&mut self.fav.artist_ids, artist_id);
        self.fav.cache.artists = None;
        self.tell(NoticeKind::RemovedFromFavorites);
        self.send(Effect::SaveFavoritesCache);
        self.start_load_favorites_category();
    }

    fn favorite_album_added(&mut self, album_id: String)
        ensures
            final(self)@ == old(self)@.favorite_albums_changed(
                with_id(old(self)@.fav.album_ids, album_id),
                NoticeKind::AddedToFavorites,
            ),
    {
        proof {
            reveal(DaemonView::favorite_albums_changed);
        }
        add_id(&mut self.fav.album_ids, album_id);
        self.fav.cache.albums = None;
        self.tell(NoticeKind::AddedToFavorites);
        self.send(Effect::SaveFavoritesCache);
        self.start_load_favorites_category();
    }

    fn favorite_album_removed(&mut self, album_id: &str)
        ensures
            final(self)@ == old(self)@.favorite_albums_changed(
                seqs::others(old(self)@.fav.album_ids, album_id@),
                NoticeKind::RemovedFromFavorites,
            ),
    {
        proof {
            reveal(DaemonView::favorite_albums_changed);
        }
        remove_id(&mut self.fav.album_ids, album_id);
        self.fav.cache.albums = None;
        self.tell(NoticeKind::RemovedFromFavorites);
        self.send(Effect::SaveFavoritesCache);
        self.start_load_favorites_category();
    }

    fn favorite_ids_loaded(
        &mut self,
        track_ids: Vec<String>,
        artist_ids: Vec<String>,
        album_ids: Vec<String>,
    )
        ensures
            final(self)@ == old(self)@.favorite_ids_loaded(track_ids@, artist_ids@, album_ids@),
    {
        proof {
            reveal(DaemonView::favorite_ids_loaded);
        }
        if track_ids.len() > 0 {
            self.fav.track_ids = track_ids;
        }
        self.fav.artist_ids = artist_ids;
        self.fav.album_ids = album_ids;
    }

    fn playlists_ready(&mut self, playlists: Vec<PlaylistData>)
        ensures
            final(self)@ == old(self)@.playlists_ready(playlists@),
    {
        proof {
            reveal(DaemonView::playlists_ready);
        }
        let n: usize = playlists.len();
        self.playlists = playlists;
        self.tell_count(NoticeKind::PlaylistsLoaded, n);
    }

    fn playlist_changed(&mut self, id: &str, kind: NoticeKind)
        ensures
            final(self)@ == old(self)@.playlist_changed(id@, kind),
    {
        proof {
            reveal(DaemonView::playlist_changed);
        }
        self.fav.forget_playlist(id);
        self.tell(kind);
        self.send(Effect::SaveFavoritesCache);
    }

    /// Changes the track count of a playlist, wherever it is listed or shown.
    pub fn adjust_playlist_count(&mut self, id: &str, delta: i64)
        ensures
            final(self)@ == old(self)@.adjust_playlist_count(id@, delta as int),
    {
        proof {
            reveal(DaemonView::adjust_playlist_count);
        }
        let mut list: Vec<PlaylistData> = Vec::new();
        std::mem::swap(&mut list, &mut self.playlists);
        self.playlists = adjust_playlists(list, id, delta);
        adjust_shown(&mut self.search.display, id, delta);
        adjust_shown(&mut self.fav.display, id, delta);
    }

    /// Sets the track count of a playlist, wherever it is listed, shown or kept, so
    /// that it is right after a track was added or removed on another device.
    pub fn set_playlist_track_count(&mut self, id: &str, count: usize)
        ensures
            final(self)@ == old(self)@.set_playlist_track_count(id@, count as nat),
    {
        proof {
            reveal(DaemonView::set_playlist_track_count);
        }
        let mut list: Vec<PlaylistData> = Vec::new();
        std::mem::swap(&mut list, &mut self.playlists);
        self.playlists = count_playlists(list, id, count);
        count_shown(&mut self.search.display, id, count);
        count_shown(&mut self.fav.display, id, count);
        let mut kept: Option<Vec<DisplayItem>> = None;
        std::mem::swap(&mut kept, &mut self.fav.cache.playlists);
        match kept {
            Some(rows) => {
                self.fav.cache.playlists = Some(count_rows(rows, id, count));
            },
            None => {},
        }
    }

    fn added_to_playlist(&mut self, id: &str)
        ensures
            final(self)@ == old(self)@.added_to_playlist(id@),
    {
        proof {
            reveal(DaemonView::added_to_playlist);
        }
        self.playlist_changed(id, NoticeKind::AddedToPlaylist);
        self.adjust_playlist_count(id, 1);
    }

    /// Whether a playlist's page is open.
    fn shows_playlist(&self, id: &str) -> (r: bool)
        ensures
            r == (self@.pages.playlist is Some && self@.pages.playlist->0.playlist_id@ == id@),
    {
        match &self.pages.playlist {
            Some(page) => same_text(&page.playlist_id, id),
            None => false,
        }
    }

    fn drop_from_open_playlist(&mut self, id: &str, track_id: &str)
        ensures
            final(self)@ == old(self)@.drop_from_open_playlist(id@, track_id@),
    {
        proof {
            reveal(DaemonView::drop_from_open_playlist);
        }
        if self.shows_playlist(id) {
            let mut page: Option<PlaylistDetail> = None;
            std::mem::swap(&mut page, &mut self.pages.playlist);
            match page {
                Some(mut page) => {
                    page.drop_track(track_id);
                    self.pages.playlist = Some(page);
                },
                None => {},
            }
        }
    }

    fn removed_from_playlist(&mut self, id: &str, track_id: &str)
        ensures
            final(self)@ == old(self)@.removed_from_playlist(id@, track_id@),
    {
        proof {
            reveal(DaemonView::removed_from_playlist);
        }
        self.playlist_changed(id, NoticeKind::RemovedFromPlaylist);
        self.drop_from_open_playlist(id, track_id);
        self.adjust_playlist_count(id, -1);
    }

    fn playlist_created(&mut self, id: &str)
        ensures
            final(self)@ == old(self)@.playlist_created(id@),
    {
        proof {
            reveal(DaemonView::playlist_created);
        }
        self.playlist_changed(id, NoticeKind::PlaylistCreated);
        self.playlists = Vec::new();
    }

    fn retitle(&mut self, id: &str, title: String)
        ensures
            final(self)@ == old(self)@.retitle(id@, title),
    {
        proof {
            reveal(DaemonView::retitle);
        }
        let mut list: Vec<PlaylistData> = Vec::new();
        std::mem::swap(&mut list, &mut self.playlists);
        self.playlists = rename_playlists(list, id, &title);
        rename_shown(&mut self.search.display, id, &title);
        rename_shown(&mut self.fav.display, id, &title);
        if self.shows_playlist(id) {
            let mut page: Option<PlaylistDetail> = None;
            std::mem::swap(&mut page, &mut self.pages.playlist);
            match page {
                Some(mut page) => {
                    page.title = title;
                    self.pages.playlist = Some(page);
                },
                None => {},
            }
        }
    }

    fn playlist_renamed(&mut self, id: &str, title: String)
        ensures
            final(self)@ == old(self)@.playlist_renamed(id@, title),
    {
        proof {
            reveal(DaemonView::playlist_renamed);
        }
        self.playlist_changed(id, NoticeKind::PlaylistRenamed);
        self.retitle(id, title);
    }

    fn unlist(&mut self, id: &str)
        ensures
            final(self)@ == old(self)@.unlist(id@),
    {
        proof {
            reveal(DaemonView::unlist);
        }
        let mut list: Vec<PlaylistData> = Vec::new();
        std::mem::swap(&mut list, &mut self.playlists);
        self.playlists = drop_id(list, id);
        drop_shown(&mut self.search.display, id);
        drop_shown(&mut self.fav.display, id);
        if self.shows_playlist(id) {
            self.pages.playlist = None;
            self.pages.playlist_selected = 0;
            self.pages.playlist_loading = false;
        }
    }

    fn playlist_deleted(&mut self, id: &str)
        ensures
            final(self)@ == old(self)@.playlist_deleted(id@),
    {
        proof {
            reveal(DaemonView::playlist_deleted);
        }
        self.playlist_changed(id, NoticeKind::PlaylistDeleted);
        self.unlist(id);
    }

    fn album_ready(&mut self, detail: AlbumDetail)
        ensures
            final(self)@ == old(self)@.album_ready(detail@),
    {
        proof {
            reveal(DaemonView::album_ready);
        }
        let title: String = detail.title.clone();
        let n: usize = detail.tracks.len();
        self.pages.album_loading = false;
        self.pages.album = Some(detail);
        self.pages.album_selected = 0;
        self.notify(Notice::titled(NoticeKind::AlbumTracks, title, n));
    }

    fn album_failed(&mut self, err: String)
        ensures
            final(self)@ == old(self)@.album_failed(err@),
    {
        proof {
            reveal(DaemonView::album_failed);
        }
        self.pages.album_loading = false;
        self.tell_error(NoticeKind::AlbumError, err);
    }

    fn artist_ready(&mut self, detail: ArtistDetail)
        ensures
            final(self)@ == old(self)@.artist_ready(detail@),
    {
        proof {
            reveal(DaemonView::artist_ready);
        }
        let name: String = detail.name.clone();
        let n: usize = detail.top_tracks.len();
        self.pages.artist_loading = false;
        self.pages.artist = Some(detail);
        self.pages.artist_selected = 0;
        self.notify(Notice::titled(NoticeKind::ArtistTracks, name, n));
    }

    fn artist_failed(&mut self, err: String)
        ensures
            final(self)@ == old(self)@.artist_failed(err@),
    {
        proof {
            reveal(DaemonView::artist_failed);
        }
        self.pages.artist_loading = false;
        self.tell_error(NoticeKind::ArtistError, err);
    }

    fn show_playlist(&mut self, detail: PlaylistDetail)
        ensures
            final(self)@ == old(self)@.show_playlist(detail@),
    {
        proof {
            reveal(DaemonView::show_playlist);
        }
        let title: String = detail.title.clone();
        let n: usize = detail.tracks.len();
        self.pages.playlist_loading = false;
        self.pages.playlist = Some(detail);
        self.pages.playlist_selected = 0;
        self.notify(Notice::titled(NoticeKind::PlaylistTracks, title, n));
    }

    fn refresh_playlist(&mut self, detail: PlaylistDetail)
        ensures
            final(self)@ == old(self)@.refresh_playlist(detail@),
    {
        proof {
            reveal(DaemonView::refresh_playlist);
        }
        let at: usize = match &self.pages.playlist {
            Some(page) => {
                if !same_text(&page.playlist_id, &detail.playlist_id) {
                    return;
                }
                keep_cursor(&page.tracks, self.pages.playlist_selected, &detail.tracks)
            },
            None => {
                return;
            },
        };
        self.pages.playlist_selected = at;
        self.pages.playlist = Some(detail);
    }

    fn playlist_ready(&mut self, detail: PlaylistDetail, background: bool)
        ensures
            final(self)@ == old(self)@.playlist_ready(detail@, background),
    {
        proof {
            reveal(DaemonView::playlist_ready);
        }
        let n: usize = detail.tracks.len();
        self.fav.cache.remember_playlist(detail.clone());
        self.set_playlist_track_count(&detail.playlist_id, n);
        self.send(Effect::SaveFavoritesCache);
        if background {
            self.refresh_playlist(detail);
        } else {
            self.show_playlist(detail);
        }
    }

    fn playlist_failed(&mut self, err: String, background: bool)
        ensures
            final(self)@ == old(self)@.playlist_failed(err@, background),
    {
        proof {
            reveal(DaemonView::playlist_failed);
        }
        if !background {
            self.pages.playlist_loading = false;
            self.tell_error(NoticeKind::PlaylistError, err);
        }
    }

    fn radios_ready(&mut self, items: Vec<RadioItem>)
        ensures
            final(self)@ == old(self)@.radios_ready(items@),
    {
        proof {
            reveal(DaemonView::radios_ready);
        }
        let n: usize = items.len();
        self.explore.radios_loading = false;
        self.explore.radios = items;
        self.explore.radios_selected = 0;
        self.tell_count(NoticeKind::RadiosLoaded, n);
    }

    fn radios_failed(&mut self, err: String)
        ensures
            final(self)@ == old(self)@.radios_failed(err@),
    {
        proof {
            reveal(DaemonView::radios_failed);
        }
        self.explore.radios_loading = false;
        self.tell_error(NoticeKind::RadiosError, err);
    }

    fn moods_ready(&mut self, items: Vec<MoodEntry>)
        ensures
            final(self)@ == old(self)@.moods_ready(items@),
    {
        proof {
            reveal(DaemonView::moods_ready);
        }
        let n: usize = items.len();
        self.explore.moods_loading = false;
        self.explore.moods = items.clone();
        self.explore.moods_selected = 0;
        self.fav.cache.moods = Some(items);
        self.tell_count(NoticeKind::MoodsLoaded, n);
        self.send(Effect::SaveFavoritesCache);
    }

    fn moods_failed(&mut self, err: String)
        ensures
            final(self)@ == old(self)@.moods_failed(err@),
    {
        proof {
            reveal(DaemonView::moods_failed);
        }
        self.explore.moods_loading = false;
        self.tell_error(NoticeKind::MoodsError, err);
    }

    fn genres_ready(&mut self, items: Vec<GenreItem>)
        ensures
            final(self)@ == old(self)@.genres_ready(items@),
    {
        proof {
            reveal(DaemonView::genres_ready);
        }
        let n: usize = items.len();
        self.explore.genres_loading = false;
        self.explore.genres = items;
        self.explore.genres_selected = 0;
        self.tell_count(NoticeKind::GenresLoaded, n);
    }

    fn genres_failed(&mut self, err: String)
        ensures
            final(self)@ == old(self)@.genres_failed(err@),
    {
        proof {
            reveal(DaemonView::genres_failed);
        }
        self.explore.genres_loading = false;
        self.tell_error(NoticeKind::GenresError, err);
    }

    fn new_releases_ready(&mut self, items: Vec<DisplayItem>)
        ensures
            final(self)@ == old(self)@.new_releases_ready(models::rows_of(items@)),
    {
        proof {
            reveal(DaemonView::new_releases_ready);
        }
        let n: usize = items.len();
        self.explore.new_releases_loading = false;
        self.explore.new_releases = items;
        self.explore.new_releases_selected = 0;
        self.tell_count(NoticeKind::Loaded, n);
    }

    fn new_releases_failed(&mut self, err: String)
        ensures
            final(self)@ == old(self)@.new_releases_failed(err@),
    {
        proof {
            reveal(DaemonView::new_releases_failed);
        }
        self.explore.new_releases_loading = false;
        self.tell_error(NoticeKind::NewReleasesError, err);
    }

    fn genre_ready(&mut self, detail: GenreDetail)
        ensures
            final(self)@ == old(self)@.genre_ready(detail@),
    {
        proof {
            reveal(DaemonView::genre_ready);
        }
        let name: String = detail.name.clone();
        self.pages.genre_loading = false;
        self.pages.genre = Some(detail);
        self.tell_error(NoticeKind::GenreDetailLoaded, name);
    }

    fn genre_failed(&mut self, err: String)
        ensures
            final(self)@ == old(self)@.genre_failed(err@),
    {
        proof {
            reveal(DaemonView::genre_failed);
        }
        self.pages.genre_loading = false;
        self.tell_error(NoticeKind::GenreDetailError, err);
    }

    fn track_saved(&mut self, track: TrackData, quality: AudioQuality)
        ensures
            final(self)@ == old(self)@.track_saved(track, quality),
    {
        proof {
            reveal(DaemonView::track_saved);
        }
        self.offline.loading = false;
        self.offline.index.add_track(track, quality);
        self.send(Effect::SaveOfflineIndex);
        self.tell(NoticeKind::TrackSavedOffline);
    }

    fn album_saved(&mut self, album: AlbumDetail)
        ensures
            final(self)@ == old(self)@.album_saved(album@),
    {
        proof {
            reveal(DaemonView::album_saved);
        }
        let quality: AudioQuality = self.config.quality;
        self.offline.loading = false;
        self.offline.index.add_missing(&album.tracks, quality);
        self.offline.index.add_album(album);
        self.send(Effect::SaveOfflineIndex);
        self.tell(NoticeKind::AlbumSavedOffline);
    }

    fn playlist_saved(&mut self, playlist: PlaylistDetail)
        ensures
            final(self)@ == old(self)@.playlist_saved(playlist@),
    {
        proof {
            reveal(DaemonView::playlist_saved);
        }
        let quality: AudioQuality = self.config.quality;
        self.offline.loading = false;
        self.offline.index.add_missing(&playlist.tracks, quality);
        self.offline.index.add_playlist(playlist);
        self.send(Effect::SaveOfflineIndex);
        self.tell(NoticeKind::PlaylistSavedOffline);
    }

    fn download_failed(&mut self, err: String)
        ensures
            final(self)@ == old(self)@.download_failed(err@),
    {
        proof {
            reveal(DaemonView::download_failed);
        }
        self.offline.loading = false;
        self.tell_error(NoticeKind::OfflineDownloadError, err);
    }

    fn play_batch(&mut self, tracks: Vec<TrackData>, kind: NoticeKind, none: NoticeKind)
        ensures
            final(self)@ == old(self)@.play_batch(tracks@, kind, none),
    {
        proof {
            reveal(DaemonView::play_batch);
        }
        if tracks.len() == 0 {
            self.tell(none);
        } else {
            self.tell_count(kind, tracks.len());
            self.play_list(tracks, 0);
        }
    }

    fn continue_queue(&mut self, tracks: Vec<TrackData>, kind: NoticeKind)
        requires
            tracks@.len() > 0,
        ensures
            final(self)@ == old(self)@.continue_queue(tracks@, kind),
    {
        proof {
            reveal(DaemonView::continue_queue);
        }
        let n: usize = tracks.len();
        let first: TrackData = tracks[0].clone();
        let at: usize = self.player.queue.len();
        let mut more: Vec<TrackData> = tracks;
        self.player.queue.append(&mut more);
        self.player.queue_index = at;
        self.tell_count(kind, n);
        self.start_play_track(first);
    }

    fn begin_queue(&mut self, tracks: Vec<TrackData>, kind: NoticeKind)
        requires
            tracks@.len() > 0,
        ensures
            final(self)@ == old(self)@.begin_queue(tracks@, kind, old(self)@.run),
    {
        proof {
            reveal(DaemonView::begin_queue);
        }
        let n: usize = tracks.len();
        let first: TrackData = tracks[0].clone();
        self.player.queue = tracks;
        self.player.queue_index = 0;
        self.tell_count(kind, n);
        self.start_play_track(first);
    }

    fn flow_ready(&mut self, tracks: Vec<TrackData>)
        ensures
            final(self)@ == old(self)@.flow_ready(tracks@),
    {
        proof {
            reveal(DaemonView::flow_ready);
        }
        if tracks.len() == 0 {
            self.tell(NoticeKind::NoFlowTracks);
        } else if self.run.flow_active {
            self.continue_queue(tracks, NoticeKind::FlowTracks);
        } else {
            self.run.flow_active = true;
            self.run.active_mood = None;
            proof {
                reveal(DaemonView::begin_queue);
            }
            self.begin_queue(tracks, NoticeKind::FlowTracks);
        }
    }

    fn mood_tracks_ready(&mut self, tracks: Vec<TrackData>, continuation: bool)
        ensures
            final(self)@ == old(self)@.mood_tracks_ready(tracks@, continuation),
    {
        proof {
            reveal(DaemonView::mood_tracks_ready);
        }
        if tracks.len() == 0 {
            self.tell(NoticeKind::NoRadioTracks);
        } else if continuation {
            self.continue_queue(tracks, NoticeKind::RadioTracks);
        } else {
            self.run.flow_active = false;
            proof {
                reveal(DaemonView::begin_queue);
            }
            self.begin_queue(tracks, NoticeKind::RadioTracks);
        }
    }

    fn fetch_more_failed(&mut self, kind: NoticeKind, err: String, stop: bool)
        ensures
            final(self)@ == old(self)@.fetch_more_failed(kind, err@, stop),
    {
        proof {
            reveal(DaemonView::fetch_more_failed);
        }
        self.tell_error(kind, err);
        if stop {
            self.player.status = PlaybackStatus::Stopped;
        }
    }

    /// Whether the audio of a request is still wanted.
    pub fn accepts_track(&self, generation: u64) -> (r: bool)
        ensures
            r == self@.wants(generation),
    {
        generation == self.run.generation && self.run.engine_ready
    }

    fn track_started(&mut self, track: TrackData, quality: AudioQuality, now: u64)
        ensures
            final(self)@ == old(self)@.track_started(track, quality, now),
    {
        proof {
            reveal(DaemonView::track_started);
        }
        self.player.load(track, quality, 0, false);
        self.run.skips = 0;
        self.run.started_at = Some(now);
        self.run.offset_secs = 0;
        self.status_msg = None;
    }

    fn track_ready(
        &mut self,
        track: TrackData,
        quality: AudioQuality,
        generation: u64,
        play_error: Option<String>,
        now: u64,
    )
        ensures
            final(self)@ == old(self)@.track_ready(track, quality, generation, play_error, now),
    {
        proof {
            reveal(DaemonView::track_ready);
        }
        if self.accepts_track(generation) {
            match play_error {
                None => {
                    self.track_started(track, quality, now);
                },
                Some(err) => {
                    self.tell_error(NoticeKind::PlaybackError, err);
                },
            }
        }
    }

    /// The current track, if it is downloaded.
    fn local_copy(&self) -> (r: Option<TrackData>)
        ensures
            r == self@.local_copy(),
    {
        match &self.player.current_track {
            Some(track) => if self.offline.index.has_track(&track.track_id) {
                Some(track.clone())
            } else {
                None
            },
            None => None,
        }
    }

    fn set_skips(&mut self, skips: u32)
        ensures
            final(self)@ == old(self)@.with_skips(skips),
    {
        self.run.skips = skips;
    }

    fn track_failed(&mut self, err: String, generation: u64, now: u64, seed: u64)
        requires
            old(self)@.wf(),
        ensures
            final(self)@ == old(self)@.track_failed(err@, generation, now, seed),
    {
        proof {
            reveal(DaemonView::track_failed);
        }
        if generation != self.run.generation {
            return;
        }
        match self.local_copy() {
            Some(track) => {
                self.set_skips(0);
                self.start_play_offline_track(track);
            },
            None => {
                let skips: u32 = self.run.skips;
                self.tell_error(NoticeKind::TrackError, err);
                if skips < 5 {
                    self.set_skips(skips + 1);
                    self.play_next(now, seed);
                } else {
                    self.set_skips(0);
                    self.player.status = PlaybackStatus::Stopped;
                }
            },
        }
    }
}

// ── What every outcome keeps ────────────────────────────────────────

proof fn login_success_keeps_wf(d: DaemonView, name: String)
    requires
        d.wf(),
    ensures
        d.login_success(name).wf(),
{
    reveal(DaemonView::login_success);
    reveal(DaemonView::start_fetch_master_key);
}

proof fn login_error_keeps_wf(d: DaemonView, err: String)
    requires
        d.wf(),
    ensures
        d.login_error(err).wf(),
{
    reveal(DaemonView::login_error);
}

proof fn master_key_ready_keeps_wf(d: DaemonView, engine_error: Option<String>)
    requires
        d.wf(),
    ensures
        d.master_key_ready(engine_error).wf(),
{
    reveal(DaemonView::master_key_ready);
    reveal(DaemonView::engine_opened);
    reveal(DaemonView::start_load_favorites_category);
    reveal(DaemonView::start_load_favorite_ids);
    reveal(DaemonView::start_load_radios);
    reveal(DaemonView::start_load_moods);
    reveal(DaemonView::start_load_genres);
}

proof fn report_keeps_wf(d: DaemonView, kind: NoticeKind, err: Seq<char>)
    requires
        d.wf(),
    ensures
        d.report(kind, err).wf(),
{
    reveal(DaemonView::report);
}

proof fn mention_keeps_wf(d: DaemonView, kind: NoticeKind)
    requires
        d.wf(),
    ensures
        d.mention(kind).wf(),
{
    reveal(DaemonView::mention);
}

proof fn download_progress_keeps_wf(d: DaemonView, percent: u8)
    requires
        d.wf(),
    ensures
        d.download_progress(percent).wf(),
{
    reveal(DaemonView::download_progress);
}

proof fn search_found_keeps_wf(d: DaemonView, tracks: Seq<TrackData>, rows: Seq<DisplayItemView>)
    requires
        d.wf(),
    ensures
        d.search_found(tracks, rows).wf(),
{
    reveal(DaemonView::search_found);
}

proof fn search_failed_keeps_wf(d: DaemonView, err: Seq<char>)
    requires
        d.wf(),
    ensures
        d.search_failed(err).wf(),
{
    reveal(DaemonView::search_failed);
}

proof fn favorites_loaded_keeps_wf(d: DaemonView, category: FavoritesCategory, tracks: Seq<TrackData>)
    requires
        d.wf(),
    ensures
        d.favorites_loaded(category, tracks).wf(),
{
    reveal(DaemonView::favorites_loaded);
}

proof fn favorites_display_loaded_keeps_wf(d: DaemonView, category: FavoritesCategory, rows: Seq<DisplayItemView>)
    requires
        d.wf(),
    ensures
        d.favorites_display_loaded(category, rows).wf(),
{
    reveal(DaemonView::favorites_display_loaded);
}

proof fn favorites_failed_keeps_wf(d: DaemonView, category: FavoritesCategory, err: Seq<char>)
    requires
        d.wf(),
    ensures
        d.favorites_failed(category, err).wf(),
{
    reveal(DaemonView::favorites_failed);
}

proof fn favorite_tracks_changed_keeps_wf(d: DaemonView, ids: Seq<String>, kind: NoticeKind)
    requires
        d.wf(),
    ensures
        d.favorite_tracks_changed(ids, kind).wf(),
{
    reveal(DaemonView::favorite_tracks_changed);
    reveal(DaemonView::start_load_favorites);
}

proof fn favorite_artists_changed_keeps_wf(d: DaemonView, ids: Seq<String>, kind: NoticeKind)
    requires
        d.wf(),
    ensures
        d.favorite_artists_changed(ids, kind).wf(),
{
    reveal(DaemonView::favorite_artists_changed);
    reveal(DaemonView::start_load_favorites_category);
}

proof fn favorite_albums_changed_keeps_wf(d: DaemonView, ids: Seq<String>, kind: NoticeKind)
    requires
        d.wf(),
    ensures
        d.favorite_albums_changed(ids, kind).wf(),
{
    reveal(DaemonView::favorite_albums_changed);
    reveal(DaemonView::start_load_favorites_category);
}

proof fn favorite_ids_loaded_keeps_wf(d: DaemonView, track_ids: Seq<String>, artist_ids: Seq<String>, album_ids: Seq<String>)
    requires
        d.wf(),
    ensures
        d.favorite_ids_loaded(track_ids, artist_ids, album_ids).wf(),
{
    reveal(DaemonView::favorite_ids_loaded);
}

proof fn playlists_ready_keeps_wf(d: DaemonView, playlists: Seq<PlaylistData>)
    requires
        d.wf(),
    ensures
        d.playlists_ready(playlists).wf(),
{
    reveal(DaemonView::playlists_ready);
}

proof fn added_to_playlist_keeps_wf(d: DaemonView, id: Seq<char>)
    requires
        d.wf(),
    ensures
        d.added_to_playlist(id).wf(),
{
    reveal(DaemonView::added_to_playlist);
    reveal(DaemonView::playlist_changed);
    reveal(DaemonView::adjust_playlist_count);
}

proof fn removed_from_playlist_keeps_wf(d: DaemonView, id: Seq<char>, track_id: Seq<char>)
    requires
        d.wf(),
    ensures
        d.removed_from_playlist(id, track_id).wf(),
{
    reveal(DaemonView::removed_from_playlist);
    reveal(DaemonView::playlist_changed);
    reveal(DaemonView::adjust_playlist_count);
    reveal(DaemonView::drop_from_open_playlist);
}

proof fn playlist_created_keeps_wf(d: DaemonView, id: Seq<char>)
    requires
        d.wf(),
    ensures
        d.playlist_created(id).wf(),
{
    reveal(DaemonView::playlist_created);
    reveal(DaemonView::playlist_changed);
}

proof fn playlist_renamed_keeps_wf(d: DaemonView, id: Seq<char>, title: String)
    requires
        d.wf(),
    ensures
        d.playlist_renamed(id, title).wf(),
{
    reveal(DaemonView::playlist_renamed);
    reveal(DaemonView::playlist_changed);
    reveal(DaemonView::retitle);
}

proof fn playlist_deleted_keeps_wf(d: DaemonView, id: Seq<char>)
    requires
        d.wf(),
    ensures
        d.playlist_deleted(id).wf(),
{
    reveal(DaemonView::playlist_deleted);
    reveal(DaemonView::playlist_changed);
    reveal(DaemonView::unlist);
}

proof fn album_ready_keeps_wf(d: DaemonView, detail: models::AlbumDetailView)
    requires
        d.wf(),
    ensures
        d.album_ready(detail).wf(),
{
    reveal(DaemonView::album_ready);
}

proof fn album_failed_keeps_wf(d: DaemonView, err: Seq<char>)
    requires
        d.wf(),
    ensures
        d.album_failed(err).wf(),
{
    reveal(DaemonView::album_failed);
}

proof fn artist_ready_keeps_wf(d: DaemonView, detail: models::ArtistDetailView)
    requires
        d.wf(),
    ensures
        d.artist_ready(detail).wf(),
{
    reveal(DaemonView::artist_ready);
}

proof fn artist_failed_keeps_wf(d: DaemonView, err: Seq<char>)
    requires
        d.wf(),
    ensures
        d.artist_failed(err).wf(),
{
    reveal(DaemonView::artist_failed);
}

proof fn show_playlist_keeps_wf(d: DaemonView, detail: PlaylistDetailView)
    requires
        d.wf(),
    ensures
        d.show_playlist(detail).wf(),
{
    reveal(DaemonView::show_playlist);
}

proof fn playlist_ready_keeps_wf(d: DaemonView, detail: PlaylistDetailView, background: bool)
    requires
        d.wf(),
    ensures
        d.playlist_ready(detail, background).wf(),
{
    reveal(DaemonView::playlist_ready);
    reveal(DaemonView::set_playlist_track_count);
    reveal(DaemonView::refresh_playlist);
    reveal(DaemonView::show_playlist);
}

proof fn playlist_failed_keeps_wf(d: DaemonView, err: Seq<char>, background: bool)
    requires
        d.wf(),
    ensures
        d.playlist_failed(err, background).wf(),
{
    reveal(DaemonView::playlist_failed);
}

proof fn radios_ready_keeps_wf(d: DaemonView, items: Seq<RadioItem>)
    requires
        d.wf(),
    ensures
        d.radios_ready(items).wf(),
{
    reveal(DaemonView::radios_ready);
}

proof fn radios_failed_keeps_wf(d: DaemonView, err: Seq<char>)
    requires
        d.wf(),
    ensures
        d.radios_failed(err).wf(),
{
    reveal(DaemonView::radios_failed);
}

proof fn moods_ready_keeps_wf(d: DaemonView, items: Seq<MoodEntry>)
    requires
        d.wf(),
    ensures
        d.moods_ready(items).wf(),
{
    reveal(DaemonView::moods_ready);
}

proof fn moods_failed_keeps_wf(d: DaemonView, err: Seq<char>)
    requires
        d.wf(),
    ensures
        d.moods_failed(err).wf(),
{
    reveal(DaemonView::moods_failed);
}

proof fn genres_ready_keeps_wf(d: DaemonView, items: Seq<GenreItem>)
    requires
        d.wf(),
    ensures
        d.genres_ready(items).wf(),
{
    reveal(DaemonView::genres_ready);
}

proof fn genres_failed_keeps_wf(d: DaemonView, err: Seq<char>)
    requires
        d.wf(),
    ensures
        d.genres_failed(err).wf(),
{
    reveal(DaemonView::genres_failed);
}

proof fn new_releases_ready_keeps_wf(d: DaemonView, items: Seq<DisplayItemView>)
    requires
        d.wf(),
    ensures
        d.new_releases_ready(items).wf(),
{
    reveal(DaemonView::new_releases_ready);
}

proof fn new_releases_failed_keeps_wf(d: DaemonView, err: Seq<char>)
    requires
        d.wf(),
    ensures
        d.new_releases_failed(err).wf(),
{
    reveal(DaemonView::new_releases_failed);
}

proof fn genre_ready_keeps_wf(d: DaemonView, detail: models::GenreDetailView)
    requires
        d.wf(),
    ensures
        d.genre_ready(detail).wf(),
{
    reveal(DaemonView::genre_ready);
}

proof fn genre_failed_keeps_wf(d: DaemonView, err: Seq<char>)
    requires
        d.wf(),
    ensures
        d.genre_failed(err).wf(),
{
    reveal(DaemonView::genre_failed);
}

proof fn track_saved_keeps_wf(d: DaemonView, track: TrackData, quality: AudioQuality)
    requires
        d.wf(),
    ensures
        d.track_saved(track, quality).wf(),
{
    reveal(DaemonView::track_saved);
}

proof fn album_saved_keeps_wf(d: DaemonView, album: models::AlbumDetailView)
    requires
        d.wf(),
    ensures
        d.album_saved(album).wf(),
{
    reveal(DaemonView::album_saved);
}

proof fn playlist_saved_keeps_wf(d: DaemonView, playlist: PlaylistDetailView)
    requires
        d.wf(),
    ensures
        d.playlist_saved(playlist).wf(),
{
    reveal(DaemonView::playlist_saved);
}

proof fn download_failed_keeps_wf(d: DaemonView, err: Seq<char>)
    requires
        d.wf(),
    ensures
        d.download_failed(err).wf(),
{
    reveal(DaemonView::download_failed);
}

proof fn fetch_more_failed_keeps_wf(d: DaemonView, kind: NoticeKind, err: Seq<char>, stop: bool)
    requires
        d.wf(),
    ensures
        d.fetch_more_failed(kind, err, stop).wf(),
{
    reveal(DaemonView::fetch_more_failed);
}

proof fn track_ready_keeps_wf(d: DaemonView, track: TrackData, quality: AudioQuality, generation: u64, play_error: Option<String>, now: u64)
    requires
        d.wf(),
    ensures
        d.track_ready(track, quality, generation, play_error, now).wf(),
{
    reveal(DaemonView::track_ready);
    reveal(DaemonView::track_started);
}

proof fn play_batch_keeps_wf(d: DaemonView, tracks: Seq<TrackData>, kind: NoticeKind, none: NoticeKind)
    requires
        d.wf(),
    ensures
        d.play_batch(tracks, kind, none).wf(),
{
    reveal(DaemonView::play_batch);
    reveal(DaemonView::play_list);
    if tracks.len() > 0 {
        let told = d.notify(notice::counting(kind, tracks.len()));
        playback::start_play_track_keeps_wf(told.with_queue(tracks, 0), tracks[0]);
    }
}

proof fn continue_queue_keeps_wf(d: DaemonView, tracks: Seq<TrackData>, kind: NoticeKind)
    requires
        d.wf(),
        d.fits(),
        tracks.len() > 0,
    ensures
        d.continue_queue(tracks, kind).wf(),
{
    reveal(DaemonView::continue_queue);
    let e = DaemonView {
        player: PlayerStateView {
            queue: d.player.queue + tracks,
            queue_index: d.player.queue.len() as usize,
            ..d.player
        },
        ..d
    }.notify(notice::counting(kind, tracks.len()));
    playback::start_play_track_keeps_wf(e, tracks[0]);
}

proof fn begin_queue_keeps_wf(d: DaemonView, tracks: Seq<TrackData>, kind: NoticeKind, run: RunView)
    requires
        d.wf(),
        tracks.len() > 0,
        run.shuffle_order == d.run.shuffle_order,
        run.shuffle_pos == d.run.shuffle_pos,
        run.skips == d.run.skips,
    ensures
        d.begin_queue(tracks, kind, run).wf(),
{
    reveal(DaemonView::begin_queue);
    let e = DaemonView {
        run,
        player: PlayerStateView { queue: tracks, queue_index: 0, ..d.player },
        ..d
    }.notify(notice::counting(kind, tracks.len()));
    playback::start_play_track_keeps_wf(e, tracks[0]);
}

proof fn flow_ready_keeps_wf(d: DaemonView, tracks: Seq<TrackData>)
    requires
        d.wf(),
        d.fits(),
    ensures
        d.flow_ready(tracks).wf(),
{
    reveal(DaemonView::flow_ready);
    if tracks.len() > 0 {
        continue_queue_keeps_wf(d, tracks, NoticeKind::FlowTracks);
        begin_queue_keeps_wf(
            d,
            tracks,
            NoticeKind::FlowTracks,
            RunView { flow_active: true, active_mood: None, ..d.run },
        );
    }
}

proof fn mood_tracks_ready_keeps_wf(d: DaemonView, tracks: Seq<TrackData>, continuation: bool)
    requires
        d.wf(),
        d.fits(),
    ensures
        d.mood_tracks_ready(tracks, continuation).wf(),
{
    reveal(DaemonView::mood_tracks_ready);
    if tracks.len() > 0 {
        continue_queue_keeps_wf(d, tracks, NoticeKind::RadioTracks);
        begin_queue_keeps_wf(
            d,
            tracks,
            NoticeKind::RadioTracks,
            RunView { flow_active: false, ..d.run },
        );
    }
}

proof fn track_failed_keeps_wf(d: DaemonView, err: Seq<char>, generation: u64, now: u64, seed: u64)
    requires
        d.wf(),
        d.fits(),
    ensures
        d.track_failed(err, generation, now, seed).wf(),
{
    reveal(DaemonView::track_failed);
    if d.local_copy() is Some {
        playback::start_play_track_keeps_wf(d.with_skips(0), d.local_copy()->0);
    }
    let told = d.notify(notice::about(NoticeKind::TrackError, err));
    if d.run.skips < 5 {
        playback::play_next_keeps_wf(told.with_skips((d.run.skips + 1) as u32), now, seed);
    }
}

/// An outcome about what plays keeps the player well formed.
proof fn playing_result_keeps_wf(d: DaemonView, result: AsyncResult, now: u64, seed: u64)
    requires
        d.wf(),
        d.fits(),
    ensures
        d.playing_result(result, now, seed).wf(),
{
    reveal(DaemonView::playing_result);
    match result {
        AsyncResult::MixReady(tracks) => {
            play_batch_keeps_wf(d, tracks@, NoticeKind::MixTracks, NoticeKind::NoMixTracks);
        },
        AsyncResult::MixError(err) => {
            report_keeps_wf(d, NoticeKind::MixError, err@);
        },
        AsyncResult::RadioTracksReady(tracks) => {
            play_batch_keeps_wf(d, tracks@, NoticeKind::RadioTracks, NoticeKind::NoRadioTracks);
        },
        AsyncResult::RadioTracksError(err) => {
            report_keeps_wf(d, NoticeKind::RadioTracksError, err@);
        },
        AsyncResult::FlowReady(tracks) => {
            flow_ready_keeps_wf(d, tracks@);
        },
        AsyncResult::FlowError(err) => {
            fetch_more_failed_keeps_wf(d, NoticeKind::FlowError, err@, true);
        },
        AsyncResult::MoodTracksReady { tracks, continuation } => {
            mood_tracks_ready_keeps_wf(d, tracks@, continuation);
        },
        AsyncResult::MoodTracksError { err, continuation } => {
            fetch_more_failed_keeps_wf(d, NoticeKind::RadioTracksError, err@, continuation);
        },
        AsyncResult::TrackReady { track, quality, generation, play_error } => {
            track_ready_keeps_wf(d, track, quality, generation, play_error, now);
        },
        AsyncResult::TrackFetchError { err, generation } => {
            track_failed_keeps_wf(d, err@, generation, now, seed);
        },
        _ => {},
    }
}

/// An outcome about pages and lists keeps the player well formed.
proof fn pages_result_keeps_wf(d: DaemonView, result: AsyncResult, now: u64, seed: u64)
    requires
        d.wf(),
        d.fits(),
    ensures
        d.pages_result(result, now, seed).wf(),
{
    reveal(DaemonView::pages_result);
    match result {
        AsyncResult::AlbumDetailReady(detail) => {
            album_ready_keeps_wf(d, detail@);
        },
        AsyncResult::AlbumDetailError(err) => {
            album_failed_keeps_wf(d, err@);
        },
        AsyncResult::ArtistDetailReady(detail) => {
            artist_ready_keeps_wf(d, detail@);
        },
        AsyncResult::ArtistDetailError(err) => {
            artist_failed_keeps_wf(d, err@);
        },
        AsyncResult::PlaylistDetailReady { detail, background } => {
            playlist_ready_keeps_wf(d, detail@, background);
        },
        AsyncResult::PlaylistDetailError { err, background } => {
            playlist_failed_keeps_wf(d, err@, background);
        },
        AsyncResult::ShowDetailReady(detail) => {
            show_playlist_keeps_wf(d, detail@);
        },
        AsyncResult::ShowDetailError(err) => {
            playlist_failed_keeps_wf(d, err@, false);
        },
        AsyncResult::RadiosReady(items) => {
            radios_ready_keeps_wf(d, items@);
        },
        AsyncResult::RadiosError(err) => {
            radios_failed_keeps_wf(d, err@);
        },
        AsyncResult::MoodsReady(items) => {
            moods_ready_keeps_wf(d, items@);
        },
        AsyncResult::MoodsError(err) => {
            moods_failed_keeps_wf(d, err@);
        },
        AsyncResult::GenresReady(items) => {
            genres_ready_keeps_wf(d, items@);
        },
        AsyncResult::GenresError(err) => {
            genres_failed_keeps_wf(d, err@);
        },
        AsyncResult::NewReleasesReady(items) => {
            new_releases_ready_keeps_wf(d, models::rows_of(items@));
        },
        AsyncResult::NewReleasesError(err) => {
            new_releases_failed_keeps_wf(d, err@);
        },
        AsyncResult::GenreDetailReady(detail) => {
            genre_ready_keeps_wf(d, detail@);
        },
        AsyncResult::GenreDetailError(err) => {
            genre_failed_keeps_wf(d, err@);
        },
        _ => { playing_result_keeps_wf(d, result, now, seed); },
    }
}

/// An outcome about playlists keeps the player well formed.
proof fn playlists_result_keeps_wf(d: DaemonView, result: AsyncResult, now: u64, seed: u64)
    requires
        d.wf(),
        d.fits(),
    ensures
        d.playlists_result(result, now, seed).wf(),
{
    reveal(DaemonView::playlists_result);
    match result {
        AsyncResult::PlaylistsReady(playlists) => {
            playlists_ready_keeps_wf(d, playlists@);
        },
        AsyncResult::PlaylistsError(err) => {
            report_keeps_wf(d, NoticeKind::PlaylistsError, err@);
        },
        AsyncResult::AddedToPlaylist(playlist_id) => {
            added_to_playlist_keeps_wf(d, playlist_id@);
        },
        AsyncResult::AddToPlaylistError(err) => {
            report_keeps_wf(d, NoticeKind::AddToPlaylistError, err@);
        },
        AsyncResult::AlreadyInPlaylist => {
            mention_keeps_wf(d, NoticeKind::AlreadyInPlaylist);
        },
        AsyncResult::RemovedFromPlaylist { playlist_id, track_id } => {
            removed_from_playlist_keeps_wf(d, playlist_id@, track_id@);
        },
        AsyncResult::RemoveFromPlaylistError(err) => {
            report_keeps_wf(d, NoticeKind::RemoveFromPlaylistError, err@);
        },
        AsyncResult::PlaylistCreatedAndAdded { playlist_id } => {
            playlist_created_keeps_wf(d, playlist_id@);
        },
        AsyncResult::PlaylistCreatedError(err) => {
            report_keeps_wf(d, NoticeKind::PlaylistCreateError, err@);
        },
        AsyncResult::PlaylistRenamed { playlist_id, new_title } => {
            playlist_renamed_keeps_wf(d, playlist_id@, new_title);
        },
        AsyncResult::PlaylistRenameError(err) => {
            report_keeps_wf(d, NoticeKind::PlaylistRenameError, err@);
        },
        AsyncResult::PlaylistDeleted(playlist_id) => {
            playlist_deleted_keeps_wf(d, playlist_id@);
        },
        AsyncResult::PlaylistDeleteError(err) => {
            report_keeps_wf(d, NoticeKind::PlaylistDeleteError, err@);
        },
        _ => { pages_result_keeps_wf(d, result, now, seed); },
    }
}

/// An outcome about the favorites keeps the player well formed.
proof fn favorites_result_keeps_wf(d: DaemonView, result: AsyncResult, now: u64, seed: u64)
    requires
        d.wf(),
        d.fits(),
    ensures
        d.favorites_result(result, now, seed).wf(),
{
    reveal(DaemonView::favorites_result);
    match result {
        AsyncResult::FavoritesLoaded(category, tracks) => {
            favorites_loaded_keeps_wf(d, category, tracks@);
        },
        AsyncResult::FavoritesDisplayLoaded(category, items) => {
            favorites_display_loaded_keeps_wf(d, category, models::rows_of(items@));
        },
        AsyncResult::FavoritesError(category, err) => {
            favorites_failed_keeps_wf(d, category, err@);
        },
        AsyncResult::FavoriteError(err) => {
            report_keeps_wf(d, NoticeKind::FavoriteError, err@);
        },
        AsyncResult::FavoriteArtistError(err) => {
            report_keeps_wf(d, NoticeKind::FavoriteError, err@);
        },
        AsyncResult::FavoriteAlbumError(err) => {
            report_keeps_wf(d, NoticeKind::FavoriteError, err@);
        },
        AsyncResult::FavoriteAdded(track_id) => {
            favorite_tracks_changed_keeps_wf(d, with_id(d.fav.track_ids, track_id), NoticeKind::AddedToFavorites);
        },
        AsyncResult::FavoriteRemoved(track_id) => {
            favorite_tracks_changed_keeps_wf(d, seqs::others(d.fav.track_ids, track_id@), NoticeKind::RemovedFromFavorites);
        },
        AsyncResult::FavoriteArtistAdded(artist_id) => {
            favorite_artists_changed_keeps_wf(d, with_id(d.fav.artist_ids, artist_id), NoticeKind::AddedToFavorites);
        },
        AsyncResult::FavoriteArtistRemoved(artist_id) => {
            favorite_artists_changed_keeps_wf(d, seqs::others(d.fav.artist_ids, artist_id@), NoticeKind::RemovedFromFavorites);
        },
        AsyncResult::FavoriteAlbumAdded(album_id) => {
            favorite_albums_changed_keeps_wf(d, with_id(d.fav.album_ids, album_id), NoticeKind::AddedToFavorites);
        },
        AsyncResult::FavoriteAlbumRemoved(album_id) => {
            favorite_albums_changed_keeps_wf(d, seqs::others(d.fav.album_ids, album_id@), NoticeKind::RemovedFromFavorites);
        },
        AsyncResult::FavoriteIdsLoaded { track_ids, artist_ids, album_ids } => {
            favorite_ids_loaded_keeps_wf(d, track_ids@, artist_ids@, album_ids@);
        },
        _ => { playlists_result_keeps_wf(d, result, now, seed); },
    }
}

/// Every outcome keeps the player well formed, whatever the time and the random
/// numbers are.
pub proof fn result_keeps_wf(d: DaemonView, result: AsyncResult, now: u64, seed: u64)
    requires
        d.wf(),
        d.fits(),
    ensures
        d.result(result, now, seed).wf(),
{
    reveal(DaemonView::result);
    match result {
        AsyncResult::LoginSuccess(name) => {
            login_success_keeps_wf(d, name);
        },
        AsyncResult::LoginError(err) => {
            login_error_keeps_wf(d, err);
        },
        AsyncResult::MasterKeyReady { engine_error } => {
            master_key_ready_keeps_wf(d, engine_error);
        },
        AsyncResult::MasterKeyError(err) => {
            report_keeps_wf(d, NoticeKind::KeyError, err@);
        },
        AsyncResult::SearchResults(tracks) => {
            search_found_keeps_wf(d, tracks@, models::rows_of_tracks(tracks@));
        },
        AsyncResult::SearchDisplayResults(items) => {
            search_found_keeps_wf(d, Seq::empty(), models::rows_of(items@));
        },
        AsyncResult::SearchError(err) => {
            search_failed_keeps_wf(d, err@);
        },
        AsyncResult::DislikeOk => {
            mention_keeps_wf(d, NoticeKind::TrackDisliked);
        },
        AsyncResult::DislikeError(err) => {
            report_keeps_wf(d, NoticeKind::DislikeError, err@);
        },
        AsyncResult::OfflineTrackSaved { track, quality } => {
            track_saved_keeps_wf(d, track, quality);
        },
        AsyncResult::OfflineTrackSaveError(err) => {
            download_failed_keeps_wf(d, err@);
        },
        AsyncResult::OfflineAlbumSaved { album } => {
            album_saved_keeps_wf(d, album@);
        },
        AsyncResult::OfflineAlbumSaveError(err) => {
            download_failed_keeps_wf(d, err@);
        },
        AsyncResult::OfflinePlaylistSaved { playlist } => {
            playlist_saved_keeps_wf(d, playlist@);
        },
        AsyncResult::OfflinePlaylistSaveError(err) => {
            download_failed_keeps_wf(d, err@);
        },
        AsyncResult::OfflineDownloadProgress { percent } => {
            download_progress_keeps_wf(d, percent);
        },
        _ => { favorites_result_keeps_wf(d, result, now, seed); },
    }
}

impl Daemon {
    /// Takes note of an outcome about what plays.
    fn handle_playing_result(&mut self, result: AsyncResult, now: u64, seed: u64)
        requires
            old(self)@.wf(),
        ensures
            final(self)@ == old(self)@.playing_result(result, now, seed),
    {
        proof {
            reveal(DaemonView::playing_result);
        }
        match result {
            AsyncResult::MixReady(tracks) => {
                self.play_batch(tracks, NoticeKind::MixTracks, NoticeKind::NoMixTracks);
            },
            AsyncResult::MixError(err) => {
                self.report(NoticeKind::MixError, err);
            },
            AsyncResult::RadioTracksReady(tracks) => {
                self.play_batch(tracks, NoticeKind::RadioTracks, NoticeKind::NoRadioTracks);
            },
            AsyncResult::RadioTracksError(err) => {
                self.report(NoticeKind::RadioTracksError, err);
            },
            AsyncResult::FlowReady(tracks) => {
                self.flow_ready(tracks);
            },
            AsyncResult::FlowError(err) => {
                self.fetch_more_failed(NoticeKind::FlowError, err, true);
            },
            AsyncResult::MoodTracksReady { tracks, continuation } => {
                self.mood_tracks_ready(tracks, continuation);
            },
            AsyncResult::MoodTracksError { err, continuation } => {
                self.fetch_more_failed(NoticeKind::RadioTracksError, err, continuation);
            },
            AsyncResult::TrackReady { track, quality, generation, play_error } => {
                self.track_ready(track, quality, generation, play_error, now);
            },
            AsyncResult::TrackFetchError { err, generation } => {
                self.track_failed(err, generation, now, seed);
            },
            _ => {},
        }
    }

    /// Takes note of an outcome about pages and lists.
    fn handle_pages_result(&mut self, result: AsyncResult, now: u64, seed: u64)
        requires
            old(self)@.wf(),
        ensures
            final(self)@ == old(self)@.pages_result(result, now, seed),
    {
        proof {
            reveal(DaemonView::pages_result);
        }
        match result {
            AsyncResult::AlbumDetailReady(detail) => {
                self.album_ready(detail);
            },
            AsyncResult::AlbumDetailError(err) => {
                self.album_failed(err);
            },
            AsyncResult::ArtistDetailReady(detail) => {
                self.artist_ready(detail);
            },
            AsyncResult::ArtistDetailError(err) => {
                self.artist_failed(err);
            },
            AsyncResult::PlaylistDetailReady { detail, background } => {
                self.playlist_ready(detail, background);
            },
            AsyncResult::PlaylistDetailError { err, background } => {
                self.playlist_failed(err, background);
            },
            AsyncResult::ShowDetailReady(detail) => {
                self.show_playlist(detail);
            },
            AsyncResult::ShowDetailError(err) => {
                self.playlist_failed(err, false);
            },
            AsyncResult::RadiosReady(items) => {
                self.radios_ready(items);
            },
            AsyncResult::RadiosError(err) => {
                self.radios_failed(err);
            },
            AsyncResult::MoodsReady(items) => {
                self.moods_ready(items);
            },
            AsyncResult::MoodsError(err) => {
                self.moods_failed(err);
            },
            AsyncResult::GenresReady(items) => {
                self.genres_ready(items);
            },
            AsyncResult::GenresError(err) => {
                self.genres_failed(err);
            },
            AsyncResult::NewReleasesReady(items) => {
                self.new_releases_ready(items);
            },
            AsyncResult::NewReleasesError(err) => {
                self.new_releases_failed(err);
            },
            AsyncResult::GenreDetailReady(detail) => {
                self.genre_ready(detail);
            },
            AsyncResult::GenreDetailError(err) => {
                self.genre_failed(err);
            },
            other => {
                self.handle_playing_result(other, now, seed);
            },
        }
    }

    /// Takes note of an outcome about playlists.
    fn handle_playlists_result(&mut self, result: AsyncResult, now: u64, seed: u64)
        requires
            old(self)@.wf(),
        ensures
            final(self)@ == old(self)@.playlists_result(result, now, seed),
    {
        proof {
            reveal(DaemonView::playlists_result);
        }
        match result {
            AsyncResult::PlaylistsReady(playlists) => {
                self.playlists_ready(playlists);
            },
            AsyncResult::PlaylistsError(err) => {
                self.report(NoticeKind::PlaylistsError, err);
            },
            AsyncResult::AddedToPlaylist(playlist_id) => {
                self.added_to_playlist(&playlist_id);
            },
            AsyncResult::AddToPlaylistError(err) => {
                self.report(NoticeKind::AddToPlaylistError, err);
            },
            AsyncResult::AlreadyInPlaylist => {
                self.mention(NoticeKind::AlreadyInPlaylist);
            },
            AsyncResult::RemovedFromPlaylist { playlist_id, track_id } => {
                self.removed_from_playlist(&playlist_id, &track_id);
            },
            AsyncResult::RemoveFromPlaylistError(err) => {
                self.report(NoticeKind::RemoveFromPlaylistError, err);
            },
            AsyncResult::PlaylistCreatedAndAdded { playlist_id } => {
                self.playlist_created(&playlist_id);
            },
            AsyncResult::PlaylistCreatedError(err) => {
                self.report(NoticeKind::PlaylistCreateError, err);
            },
            AsyncResult::PlaylistRenamed { playlist_id, new_title } => {
                self.playlist_renamed(&playlist_id, new_title);
            },
            AsyncResult::PlaylistRenameError(err) => {
                self.report(NoticeKind::PlaylistRenameError, err);
            },
            AsyncResult::PlaylistDeleted(playlist_id) => {
                self.playlist_deleted(&playlist_id);
            },
            AsyncResult::PlaylistDeleteError(err) => {
                self.report(NoticeKind::PlaylistDeleteError, err);
            },
            other => {
                self.handle_pages_result(other, now, seed);
            },
        }
    }

    /// Takes note of an outcome about the favorites.
    fn handle_favorites_result(&mut self, result: AsyncResult, now: u64, seed: u64)
        requires
            old(self)@.wf(),
        ensures
            final(self)@ == old(self)@.favorites_result(result, now, seed),
    {
        proof {
            reveal(DaemonView::favorites_result);
        }
        match result {
            AsyncResult::FavoritesLoaded(category, tracks) => {
                self.favorites_loaded(category, tracks);
            },
            AsyncResult::FavoritesDisplayLoaded(category, items) => {
                self.favorites_display_loaded(category, items);
            },
            AsyncResult::FavoritesError(category, err) => {
                self.favorites_failed(category, err);
            },
            AsyncResult::FavoriteError(err) => {
                self.report(NoticeKind::FavoriteError, err);
            },
            AsyncResult::FavoriteArtistError(err) => {
                self.report(NoticeKind::FavoriteError, err);
            },
            AsyncResult::FavoriteAlbumError(err) => {
                self.report(NoticeKind::FavoriteError, err);
            },
            AsyncResult::FavoriteAdded(track_id) => {
                self.favorite_added(track_id);
            },
            AsyncResult::FavoriteRemoved(track_id) => {
                self.favorite_removed(&track_id);
            },
            AsyncResult::FavoriteArtistAdded(artist_id) => {
                self.favorite_artist_added(artist_id);
            },
            AsyncResult::FavoriteArtistRemoved(artist_id) => {
                self.favorite_artist_removed(&artist_id);
            },
            AsyncResult::FavoriteAlbumAdded(album_id) => {
                self.favorite_album_added(album_id);
            },
            AsyncResult::FavoriteAlbumRemoved(album_id) => {
                self.favorite_album_removed(&album_id);
            },
            AsyncResult::FavoriteIdsLoaded { track_ids, artist_ids, album_ids } => {
                self.favorite_ids_loaded(track_ids, artist_ids, album_ids);
            },
            other => {
                self.handle_playlists_result(other, now, seed);
            },
        }
    }

    /// Takes note of the outcome of a background task.
    pub fn handle_result(&mut self, result: AsyncResult, now: u64, chance: Chance)
        requires
            old(self)@.wf(),
        ensures
            final(self)@ == old(self)@.result(result, now, chance.seed),
            final(self)@.wf(),
    {
        proof {
            crate::daemon::player_fits(self);
            result_keeps_wf(self@, result, now, chance.seed);
            reveal(DaemonView::result);
        }
        match result {
            AsyncResult::LoginSuccess(name) => {
                self.login_success(name);
            },
            AsyncResult::LoginError(err) => {
                self.login_error(err);
            },
            AsyncResult::MasterKeyReady { engine_error } => {
                self.master_key_ready(engine_error);
            },
            AsyncResult::MasterKeyError(err) => {
                self.report(NoticeKind::KeyError, err);
            },
            AsyncResult::SearchResults(tracks) => {
                let rows: Vec<DisplayItem> = track_rows(&tracks);
                self.search_found(tracks, rows);
            },
            AsyncResult::SearchDisplayResults(items) => {
                self.search_found(Vec::new(), items);
            },
            AsyncResult::SearchError(err) => {
                self.search_failed(err);
            },
            AsyncResult::DislikeOk => {
                self.mention(NoticeKind::TrackDisliked);
            },
            AsyncResult::DislikeError(err) => {
                self.report(NoticeKind::DislikeError, err);
            },
            AsyncResult::OfflineTrackSaved { track, quality } => {
                self.track_saved(track, quality);
            },
            AsyncResult::OfflineTrackSaveError(err) => {
                self.download_failed(err);
            },
            AsyncResult::OfflineAlbumSaved { album } => {
                self.album_saved(album);
            },
            AsyncResult::OfflineAlbumSaveError(err) => {
                self.download_failed(err);
            },
            AsyncResult::OfflinePlaylistSaved { playlist } => {
                self.playlist_saved(playlist);
            },
            AsyncResult::OfflinePlaylistSaveError(err) => {
                self.download_failed(err);
            },
            AsyncResult::OfflineDownloadProgress { percent } => {
                self.download_progress(percent);
            },
            other => {
                self.handle_favorites_result(other, now, chance.seed);
            },
        }
    }
}

} // verus!
