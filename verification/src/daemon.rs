//! The background player: its state, and the work it hands out.
//!
//! The player is a state machine. A command of a client, the outcome of a
//! background task or the passing of time changes the state and puts work into
//! the outbox; the program takes the work out, does it, and reports back.

pub mod command_laws;
pub mod commands;
pub mod laws;
pub mod loads;
pub mod playback;
pub mod playback_laws;
pub mod result_laws;
pub mod results;
pub mod snapshot;

use vstd::prelude::*;

use crate::models;
use crate::models::{
    AlbumDetail, AlbumDetailView, ArtistDetail, ArtistDetailView, ArtistSubTab, AudioQuality,
    DisplayItem, DisplayItemView, GenreDetail, GenreDetailView, MoodItem, PlaylistData,
    PlaylistDetail, PlaylistDetailView, TrackData,
};
use crate::notice::{Notice, NoticeKind, NoticeView};
use crate::player::{PlaybackStatus, PlayerState, PlayerStateView, RepeatMode};
use crate::protocol::{
    ActiveTab, ExploreCategory, FavoritesCategory, GenreItem, MoodEntry, NavOverlay,
    OfflineCategory, RadioItem, Screen, SearchCategory,
};
use crate::queue;
use crate::seqs;
use crate::storage::{FavoritesCache, FavoritesCacheView, OfflineIndex, OfflineView};

verus! {

/// Preferences that are kept on disk.
#[derive(Debug)]
pub struct Config {
    pub arl: Option<String>,
    /// Volume in thousandths.
    pub volume: u32,
    pub quality: AudioQuality,
}

/// What the audio output is told to do.
#[derive(Debug, Clone, Copy, PartialEq, Eq, Structural)]
pub enum EngineCommand {
    Pause,
    Resume,
    Stop,
    /// Set the volume, in thousandths.
    SetVolume(u32),
    /// Close the output.
    Close,
}

/// Work that the player hands out.
#[derive(Debug)]
#[allow(inconsistent_fields)]
pub enum Effect {
    SaveConfig,
    SaveFavoritesCache,
    SaveOfflineIndex,
    Engine(EngineCommand),
    /// Open the audio output.
    OpenEngine,
    /// Move the audio output to a place of the track, then report whether it
    /// went there.
    Seek { secs: u64 },
    Login { arl: String },
    FetchMasterKey,
    SearchTracks { query: String },
    SearchIn { query: String, category: SearchCategory },
    LoadFavorites { category: FavoritesCategory },
    LoadFavoriteIds,
    AddFavorite { track_id: String },
    RemoveFavorite { track_id: String },
    AddFavoriteArtist { artist_id: String },
    RemoveFavoriteArtist { artist_id: String },
    AddFavoriteAlbum { album_id: String },
    RemoveFavoriteAlbum { album_id: String },
    LoadPlaylists,
    AddToPlaylist { playlist_id: String, track_id: String },
    RemoveFromPlaylist { playlist_id: String, track_id: String },
    CreatePlaylistAndAdd { title: String, track_id: String },
    RenamePlaylist { playlist_id: String, new_title: String },
    DeletePlaylist { playlist_id: String },
    DislikeTrack { track_id: String },
    LoadMix { track_id: String },
    LoadFlow,
    LoadAlbum { album_id: String },
    LoadArtist { artist_id: String },
    LoadPlaylist { playlist_id: String, background: bool },
    LoadShow { show_id: String },
    LoadRadios,
    LoadGenres,
    LoadGenre { genre_id: u64, name: String },
    LoadNewReleases,
    LoadRadioTracks { radio_id: u64 },
    LoadMoods,
    LoadMoodTracks { mood: MoodItem, continuation: bool },
    /// Fetch a track's audio from the service.
    FetchTrack { track: TrackData, quality: AudioQuality, generation: u64 },
    /// Read a downloaded track's audio.
    ReadTrack { track: TrackData, generation: u64 },
    DownloadTrack { track: TrackData, quality: AudioQuality },
    DownloadAlbum { album_id: String, quality: AudioQuality },
    DownloadPlaylist { playlist_id: String, quality: AudioQuality },
    /// Report that a track was played.
    LogListen { track_id: String, quality: AudioQuality },
}

/// Random numbers for one step of the player.
#[derive(Debug, Clone, Copy)]
pub struct Chance {
    /// Picks a track.
    pub pick: u64,
    /// Seeds a shuffle cycle.
    pub seed: u64,
}

/// The login screen.
#[derive(Debug)]
pub struct LoginState {
    pub error: Option<String>,
    pub loading: bool,
    pub user_name: Option<String>,
}

/// What a [`LoginState`] holds.
pub struct LoginView {
    pub error: Option<String>,
    pub loading: bool,
    pub user_name: Option<String>,
}

impl View for LoginState {
    type V = LoginView;

    open spec fn view(&self) -> LoginView {
        LoginView {
            error: self.error,
            loading: self.loading,
            user_name: self.user_name,
        }
    }
}

/// The Search tab.
#[derive(Debug)]
pub struct SearchState {
    pub results: Vec<TrackData>,
    pub selected: usize,
    pub loading: bool,
    pub category: SearchCategory,
    pub display: Vec<DisplayItem>,
    pub last_query: String,
}

/// What a [`SearchState`] holds.
pub struct SearchView {
    pub results: Seq<TrackData>,
    pub selected: usize,
    pub loading: bool,
    pub category: SearchCategory,
    pub display: Seq<DisplayItemView>,
    pub last_query: String,
}

impl View for SearchState {
    type V = SearchView;

    open spec fn view(&self) -> SearchView {
        SearchView {
            results: self.results@,
            selected: self.selected,
            loading: self.loading,
            category: self.category,
            display: models::rows_of(self.display@),
            last_query: self.last_query,
        }
    }
}

/// The Favorites tab.
#[derive(Debug)]
pub struct FavoritesState {
    pub tracks: Vec<TrackData>,
    pub selected: usize,
    pub loading: bool,
    pub category: FavoritesCategory,
    pub display: Vec<DisplayItem>,
    pub track_ids: Vec<String>,
    pub artist_ids: Vec<String>,
    pub album_ids: Vec<String>,
    pub cache: FavoritesCache,
}

/// What a [`FavoritesState`] holds.
pub struct FavoritesView {
    pub tracks: Seq<TrackData>,
    pub selected: usize,
    pub loading: bool,
    pub category: FavoritesCategory,
    pub display: Seq<DisplayItemView>,
    pub track_ids: Seq<String>,
    pub artist_ids: Seq<String>,
    pub album_ids: Seq<String>,
    pub cache: FavoritesCacheView,
}

impl View for FavoritesState {
    type V = FavoritesView;

    open spec fn view(&self) -> FavoritesView {
        FavoritesView {
            tracks: self.tracks@,
            selected: self.selected,
            loading: self.loading,
            category: self.category,
            display: models::rows_of(self.display@),
            track_ids: self.track_ids@,
            artist_ids: self.artist_ids@,
            album_ids: self.album_ids@,
            cache: self.cache@,
        }
    }
}

/// The Explore tab.
#[derive(Debug)]
pub struct ExploreState {
    pub category: ExploreCategory,
    pub new_releases: Vec<DisplayItem>,
    pub new_releases_selected: usize,
    pub new_releases_loading: bool,
    pub radios: Vec<RadioItem>,
    pub radios_selected: usize,
    pub radios_loading: bool,
    pub moods: Vec<MoodEntry>,
    pub moods_selected: usize,
    pub moods_loading: bool,
    pub genres: Vec<GenreItem>,
    pub genres_selected: usize,
    pub genres_loading: bool,
}

/// What a [`ExploreState`] holds.
pub struct ExploreView {
    pub category: ExploreCategory,
    pub new_releases: Seq<DisplayItemView>,
    pub new_releases_selected: usize,
    pub new_releases_loading: bool,
    pub radios: Seq<RadioItem>,
    pub radios_selected: usize,
    pub radios_loading: bool,
    pub moods: Seq<MoodEntry>,
    pub moods_selected: usize,
    pub moods_loading: bool,
    pub genres: Seq<GenreItem>,
    pub genres_selected: usize,
    pub genres_loading: bool,
}

impl View for ExploreState {
    type V = ExploreView;

    open spec fn view(&self) -> ExploreView {
        ExploreView {
            category: self.category,
            new_releases: models::rows_of(self.new_releases@),
            new_releases_selected: self.new_releases_selected,
            new_releases_loading: self.new_releases_loading,
            radios: self.radios@,
            radios_selected: self.radios_selected,
            radios_loading: self.radios_loading,
            moods: self.moods@,
            moods_selected: self.moods_selected,
            moods_loading: self.moods_loading,
            genres: self.genres@,
            genres_selected: self.genres_selected,
            genres_loading: self.genres_loading,
        }
    }
}

/// The Downloads tab.
#[derive(Debug)]
pub struct OfflineState {
    pub index: OfflineIndex,
    pub category: OfflineCategory,
    pub selected: usize,
    pub loading: bool,
}

/// What a [`OfflineState`] holds.
pub struct OfflineTabView {
    pub index: OfflineView,
    pub category: OfflineCategory,
    pub selected: usize,
    pub loading: bool,
}

impl View for OfflineState {
    type V = OfflineTabView;

    open spec fn view(&self) -> OfflineTabView {
        OfflineTabView {
            index: self.index@,
            category: self.category,
            selected: self.selected,
            loading: self.loading,
        }
    }
}

/// The detail pages.
#[derive(Debug)]
pub struct PagesState {
    pub album: Option<AlbumDetail>,
    pub album_selected: usize,
    pub album_loading: bool,
    pub artist: Option<ArtistDetail>,
    pub artist_selected: usize,
    pub artist_loading: bool,
    pub artist_sub_tab: ArtistSubTab,
    pub playlist: Option<PlaylistDetail>,
    pub playlist_selected: usize,
    pub playlist_loading: bool,
    pub genre: Option<GenreDetail>,
    pub genre_loading: bool,
    /// The detail page that is open.
    pub top: Option<NavOverlay>,
    /// The detail pages below it.
    pub below: Vec<NavOverlay>,
}

/// What a [`PagesState`] holds.
pub struct PagesView {
    pub album: Option<AlbumDetailView>,
    pub album_selected: usize,
    pub album_loading: bool,
    pub artist: Option<ArtistDetailView>,
    pub artist_selected: usize,
    pub artist_loading: bool,
    pub artist_sub_tab: ArtistSubTab,
    pub playlist: Option<PlaylistDetailView>,
    pub playlist_selected: usize,
    pub playlist_loading: bool,
    pub genre: Option<GenreDetailView>,
    pub genre_loading: bool,
    pub top: Option<NavOverlay>,
    pub below: Seq<NavOverlay>,
}

impl View for PagesState {
    type V = PagesView;

    open spec fn view(&self) -> PagesView {
        PagesView {
            album: seqs::opt_view(self.album),
            album_selected: self.album_selected,
            album_loading: self.album_loading,
            artist: seqs::opt_view(self.artist),
            artist_selected: self.artist_selected,
            artist_loading: self.artist_loading,
            artist_sub_tab: self.artist_sub_tab,
            playlist: seqs::opt_view(self.playlist),
            playlist_selected: self.playlist_selected,
            playlist_loading: self.playlist_loading,
            genre: seqs::opt_view(self.genre),
            genre_loading: self.genre_loading,
            top: self.top,
            below: self.below@,
        }
    }
}

/// What goes on in the background.
#[derive(Debug)]
pub struct RunState {
    /// The audio output is open.
    pub engine_ready: bool,
    /// The decryption key is there.
    pub key_ready: bool,
    /// Playback order of the current shuffle cycle: every queue index exactly once.
    /// Shuffle is a full pass over the queue, so that repeat-all can repeat the shuffle.
    pub shuffle_order: Vec<usize>,
    /// How far through `shuffle_order` the current cycle is.
    pub shuffle_pos: usize,
    /// When playback last started, in milliseconds.
    pub started_at: Option<u64>,
    /// Where playback last started, in the track.
    pub offset_secs: u64,
    /// Counts track requests, so that the answer to an older one is ignored.
    pub generation: u64,
    /// Tracks in a row that could not be fetched.
    pub skips: u32,
    /// More Flow tracks are fetched when the queue ends.
    pub flow_active: bool,
    /// More tracks of this mood are fetched when the queue ends.
    pub active_mood: Option<MoodItem>,
    /// The track whose play was reported already.
    pub logged_for: Option<String>,
}

/// What a [`RunState`] holds.
pub struct RunView {
    pub engine_ready: bool,
    pub key_ready: bool,
    pub shuffle_order: Seq<usize>,
    pub shuffle_pos: usize,
    pub started_at: Option<u64>,
    pub offset_secs: u64,
    pub generation: u64,
    pub skips: u32,
    pub flow_active: bool,
    pub active_mood: Option<MoodItem>,
    pub logged_for: Option<String>,
}

impl View for RunState {
    type V = RunView;

    open spec fn view(&self) -> RunView {
        RunView {
            engine_ready: self.engine_ready,
            key_ready: self.key_ready,
            shuffle_order: self.shuffle_order@,
            shuffle_pos: self.shuffle_pos,
            started_at: self.started_at,
            offset_secs: self.offset_secs,
            generation: self.generation,
            skips: self.skips,
            flow_active: self.flow_active,
            active_mood: self.active_mood,
            logged_for: self.logged_for,
        }
    }
}

/// The background player.
#[derive(Debug)]
pub struct Daemon {
    /// Preferences that are kept on disk.
    pub config: Config,
    pub screen: Screen,
    pub active_tab: ActiveTab,
    pub status_msg: Option<Notice>,
    /// The user's playlists, for the playlist picker.
    pub playlists: Vec<PlaylistData>,
    pub player: PlayerState,
    /// There was no connection when the player started.
    pub is_offline: bool,
    /// Work handed out and not fetched yet.
    pub outbox: Vec<Effect>,
    pub login: LoginState,
    pub search: SearchState,
    pub fav: FavoritesState,
    pub explore: ExploreState,
    pub offline: OfflineState,
    pub pages: PagesState,
    pub run: RunState,
}

/// What a [`Daemon`] holds.
pub struct DaemonView {
    pub config: Config,
    pub screen: Screen,
    pub active_tab: ActiveTab,
    pub status_msg: Option<NoticeView>,
    pub playlists: Seq<PlaylistData>,
    pub player: PlayerStateView,
    pub is_offline: bool,
    pub outbox: Seq<Effect>,
    pub login: LoginView,
    pub search: SearchView,
    pub fav: FavoritesView,
    pub explore: ExploreView,
    pub offline: OfflineTabView,
    pub pages: PagesView,
    pub run: RunView,
}

impl View for Daemon {
    type V = DaemonView;

    open spec fn view(&self) -> DaemonView {
        DaemonView {
            config: self.config,
            screen: self.screen,
            active_tab: self.active_tab,
            status_msg: seqs::opt_view(self.status_msg),
            playlists: self.playlists@,
            player: self.player@,
            is_offline: self.is_offline,
            outbox: self.outbox@,
            login: self.login@,
            search: self.search@,
            fav: self.fav@,
            explore: self.explore@,
            offline: self.offline@,
            pages: self.pages@,
            run: self.run@,
        }
    }
}

/// The counter after this one.
pub open spec fn counted(n: u64) -> u64 {
    if n == u64::MAX {
        0
    } else {
        (n + 1) as u64
    }
}

/// Whole seconds between two times in milliseconds.
pub open spec fn seconds_between(from: u64, to: u64) -> u64 {
    if from <= to {
        ((to - from) / 1000) as u64
    } else {
        0
    }
}

/// A sum that stays at the largest number rather than pass it.
pub open spec fn capped_sum(a: u64, b: u64) -> u64 {
    if a + b <= u64::MAX {
        (a + b) as u64
    } else {
        u64::MAX
    }
}

impl DaemonView {
    /// What holds of the player at every moment: the queue's place is inside the
    /// queue, the shuffle cycle plays each of its tracks exactly once and its
    /// place is inside it, the volume is at most full, never more than five
    /// tracks in a row were skipped, and no detail page lies below none.
    pub open spec fn wf(self) -> bool {
        &&& self.player.queue.len() == 0 ==> self.player.queue_index == 0
        &&& self.player.queue.len() > 0 ==> self.player.queue_index < self.player.queue.len()
        &&& queue::is_cycle(self.run.shuffle_order, self.run.shuffle_order.len())
        &&& self.run.shuffle_order.len() == 0 ==> self.run.shuffle_pos == 0
        &&& self.run.shuffle_order.len() > 0 ==> self.run.shuffle_pos
            < self.run.shuffle_order.len()
        &&& self.player.volume <= 1000
        &&& self.config.volume <= 1000
        &&& self.run.skips <= 5
        &&& self.pages.top is None ==> self.pages.below.len() == 0
    }

    /// The lists are as long as lists can be at most.
    pub open spec fn fits(self) -> bool {
        &&& self.player.queue.len() <= usize::MAX
        &&& self.run.shuffle_order.len() <= usize::MAX
    }

    /// The player with a notification.
    pub open spec fn notify(self, n: NoticeView) -> DaemonView {
        DaemonView { status_msg: Some(n), ..self }
    }

    /// The player with a notification that has no words of its own.
    pub open spec fn tell(self, kind: NoticeKind) -> DaemonView {
        self.notify(crate::notice::plain(kind))
    }

    /// The player with more work handed out.
    pub open spec fn send(self, e: Effect) -> DaemonView {
        DaemonView { outbox: self.outbox.push(e), ..self }
    }

    /// The player with this playback status.
    pub open spec fn with_status(self, status: PlaybackStatus) -> DaemonView {
        DaemonView { player: PlayerStateView { status, ..self.player }, ..self }
    }

    /// The player with this queue and place in it, and without Flow or a mood.
    pub open spec fn with_queue(self, queue: Seq<TrackData>, index: usize) -> DaemonView {
        DaemonView {
            run: RunView { flow_active: false, active_mood: None, ..self.run },
            player: PlayerStateView { queue, queue_index: index, ..self.player },
            ..self
        }
    }
}

/// The lists of a player are as long as lists can be at most.
pub proof fn player_fits(d: &Daemon)
    ensures
        d@.fits(),
{
    assert(d.player.queue.len() == d.player.queue@.len());
    assert(d.run.shuffle_order.len() == d.run.shuffle_order@.len());
}

/// What a new player starts with.
pub open spec fn initial(
    config: Config,
    cache: FavoritesCacheView,
    offline: OfflineView,
    is_offline: bool,
    last_query: String,
) -> DaemonView {
    DaemonView {
        config,
        screen: if is_offline || config.arl is Some {
            Screen::Main
        } else {
            Screen::Login
        },
        active_tab: if is_offline {
            ActiveTab::Downloads
        } else {
            ActiveTab::Search
        },
        status_msg: None,
        playlists: Seq::empty(),
        player: PlayerStateView {
            status: PlaybackStatus::Stopped,
            current_track: None,
            quality: config.quality,
            position_secs: 0,
            duration_secs: 0,
            volume: config.volume,
            shuffle: false,
            repeat: RepeatMode::Off,
            queue: Seq::empty(),
            queue_index: 0,
        },
        is_offline,
        outbox: Seq::empty(),
        login: LoginView { error: None, loading: false, user_name: None },
        search: SearchView {
            results: Seq::empty(),
            selected: 0,
            loading: false,
            category: SearchCategory::Track,
            display: Seq::empty(),
            last_query,
        },
        fav: FavoritesView {
            tracks: Seq::empty(),
            selected: 0,
            loading: false,
            category: FavoritesCategory::RecentlyPlayed,
            display: Seq::empty(),
            track_ids: match cache.tracks {
                Some(tracks) => models::ids_of(tracks),
                None => Seq::empty(),
            },
            artist_ids: Seq::empty(),
            album_ids: Seq::empty(),
            cache,
        },
        explore: ExploreView {
            category: ExploreCategory::Moods,
            new_releases: Seq::empty(),
            new_releases_selected: 0,
            new_releases_loading: false,
            radios: Seq::empty(),
            radios_selected: 0,
            radios_loading: false,
            moods: match cache.moods {
                Some(moods) => moods,
                None => Seq::empty(),
            },
            moods_selected: 0,
            moods_loading: false,
            genres: Seq::empty(),
            genres_selected: 0,
            genres_loading: false,
        },
        offline: OfflineTabView {
            index: offline,
            category: OfflineCategory::Tracks,
            selected: 0,
            loading: false,
        },
        pages: PagesView {
            album: None,
            album_selected: 0,
            album_loading: false,
            artist: None,
            artist_selected: 0,
            artist_loading: false,
            artist_sub_tab: ArtistSubTab::TopTracks,
            playlist: None,
            playlist_selected: 0,
            playlist_loading: false,
            genre: None,
            genre_loading: false,
            top: None,
            below: Seq::empty(),
        },
        run: RunView {
            engine_ready: false,
            key_ready: false,
            shuffle_order: Seq::empty(),
            shuffle_pos: 0,
            started_at: None,
            offset_secs: 0,
            generation: 0,
            skips: 0,
            flow_active: false,
            active_mood: None,
            logged_for: None,
        },
    }
}

impl Daemon {
    /// A new player. Without a connection only the downloads can be shown; with
    /// one, the login screen comes first unless a login is remembered.
    pub fn new(
        config: Config,
        favorites_cache: FavoritesCache,
        offline_index: OfflineIndex,
        is_offline: bool,
    ) -> (r: Daemon)
        requires
            config.volume <= 1000,
        ensures
            r@ == initial(
                config,
                favorites_cache@,
                offline_index@,
                is_offline,
                r.search.last_query,
            ),
            r.search.last_query@.len() == 0,
            r@.wf(),
    {
        let favorite_track_ids: Vec<String> = match &favorites_cache.tracks {
            Some(tracks) => models::track_ids(tracks),
            None => Vec::new(),
        };
        let moods: Vec<MoodEntry> = match &favorites_cache.moods {
            Some(moods) => moods.clone(),
            None => Vec::new(),
        };
        let screen: Screen = if is_offline || config.arl.is_some() {
            Screen::Main
        } else {
            Screen::Login
        };
        let active_tab: ActiveTab = if is_offline {
            ActiveTab::Downloads
        } else {
            ActiveTab::Search
        };
        let player: PlayerState = PlayerState {
            status: PlaybackStatus::Stopped,
            current_track: None,
            quality: config.quality,
            position_secs: 0,
            duration_secs: 0,
            volume: config.volume,
            shuffle: false,
            repeat: RepeatMode::Off,
            queue: Vec::new(),
            queue_index: 0,
        };
        let d: Daemon = Daemon {
            config,
            screen,
            active_tab,
            status_msg: None,
            playlists: Vec::new(),
            player,
            is_offline,
            outbox: Vec::new(),
            login: LoginState {
                error: None,
                loading: false,
                user_name: None,
            },
            search: SearchState {
                results: Vec::new(),
                selected: 0,
                loading: false,
                category: SearchCategory::Track,
                display: Vec::new(),
                last_query: String::new(),
            },
            fav: FavoritesState {
                tracks: Vec::new(),
                selected: 0,
                loading: false,
                category: FavoritesCategory::RecentlyPlayed,
                display: Vec::new(),
                track_ids: favorite_track_ids,
                artist_ids: Vec::new(),
                album_ids: Vec::new(),
                cache: favorites_cache,
            },
            explore: ExploreState {
                category: ExploreCategory::Moods,
                new_releases: Vec::new(),
                new_releases_selected: 0,
                new_releases_loading: false,
                radios: Vec::new(),
                radios_selected: 0,
                radios_loading: false,
                moods,
                moods_selected: 0,
                moods_loading: false,
                genres: Vec::new(),
                genres_selected: 0,
                genres_loading: false,
            },
            offline: OfflineState {
                index: offline_index,
                category: OfflineCategory::Tracks,
                selected: 0,
                loading: false,
            },
            pages: PagesState {
                album: None,
                album_selected: 0,
                album_loading: false,
                artist: None,
                artist_selected: 0,
                artist_loading: false,
                artist_sub_tab: ArtistSubTab::TopTracks,
                playlist: None,
                playlist_selected: 0,
                playlist_loading: false,
                genre: None,
                genre_loading: false,
                top: None,
                below: Vec::new(),
            },
            run: RunState {
                engine_ready: false,
                key_ready: false,
                shuffle_order: Vec::new(),
                shuffle_pos: 0,
                started_at: None,
                offset_secs: 0,
                generation: 0,
                skips: 0,
                flow_active: false,
                active_mood: None,
                logged_for: None,
            },
        };
        proof {
            let v = d@;
            let w = initial(config, favorites_cache@, offline_index@, is_offline, d.search.last_query);
            assert(v.search.display =~= w.search.display);
            assert(v.fav.display =~= w.fav.display);
            assert(v.explore.new_releases =~= w.explore.new_releases);
            assert(v.explore.moods =~= w.explore.moods);
        }
        d
    }

    /// Takes the work that was handed out.
    pub fn take_effects(&mut self) -> (r: Vec<Effect>)
        ensures
            r@ == old(self)@.outbox,
            final(self)@ == (DaemonView { outbox: Seq::empty(), ..old(self)@ }),
    {
        let mut out: Vec<Effect> = Vec::new();
        std::mem::swap(&mut out, &mut self.outbox);
        out
    }

    /// Shows a notification.
    pub(crate) fn notify(&mut self, n: Notice)
        ensures
            final(self)@ == old(self)@.notify(n@),
    {
        self.status_msg = Some(n);
    }

    /// Shows a notification that has no words of its own.
    pub(crate) fn tell(&mut self, kind: NoticeKind)
        ensures
            final(self)@ == old(self)@.tell(kind),
    {
        self.status_msg = Some(Notice::plain(kind));
    }

    /// Shows an error.
    pub(crate) fn tell_error(&mut self, kind: NoticeKind, err: String)
        ensures
            final(self)@ == old(self)@.notify(crate::notice::about(kind, err@)),
    {
        self.status_msg = Some(Notice::about(kind, err));
    }

    /// Shows how many there are.
    pub(crate) fn tell_count(&mut self, kind: NoticeKind, count: usize)
        ensures
            final(self)@ == old(self)@.notify(crate::notice::counting(kind, count as nat)),
    {
        self.status_msg = Some(Notice::counting(kind, count));
    }

    /// Hands out work.
    pub(crate) fn send(&mut self, e: Effect)
        ensures
            final(self)@ == old(self)@.send(e),
    {
        self.outbox.push(e);
    }
}

} // verus!
