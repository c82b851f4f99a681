//! What a command of a client does to the player.

use vstd::prelude::*;

use crate::daemon::playback;
use crate::daemon::{
    Chance, Config, Daemon, DaemonView, Effect, EngineCommand, ExploreState, ExploreView,
    FavoritesState, FavoritesView, LoginView, OfflineTabView, PagesState, PagesView, RunView,
    SearchState, SearchView,
};
use crate::models;
use crate::models::{playable_tracks, AudioQuality, DisplayItem, DisplayItemView, MoodItem, TrackData};
use crate::notice::NoticeKind;
use crate::player::{PlaybackStatus, PlayerStateView, RepeatMode};
use crate::protocol::{
    ActiveTab, Command, ExploreCategory, FavoritesCategory, MoodEntry, NavOverlay, OfflineCategory,
    Screen, SearchCategory,
};
use crate::queue;
use crate::seqs;
use crate::seqs::{contains_id, drop_id, find_id};
use crate::storage;
use crate::storage::OfflineView;

verus! {

impl ExploreView {
    /// The cursor of the list that is shown.
    pub open spec fn selection(self) -> usize {
        match self.category {
            ExploreCategory::Moods => self.moods_selected,
            ExploreCategory::NewReleases => self.new_releases_selected,
            ExploreCategory::Categories => self.genres_selected,
            ExploreCategory::Radios => self.radios_selected,
        }
    }

    /// Another place of that cursor.
    pub open spec fn with_selection(self, at: usize) -> ExploreView {
        match self.category {
            ExploreCategory::Moods => ExploreView { moods_selected: at, ..self },
            ExploreCategory::NewReleases => ExploreView { new_releases_selected: at, ..self },
            ExploreCategory::Categories => ExploreView { genres_selected: at, ..self },
            ExploreCategory::Radios => ExploreView { radios_selected: at, ..self },
        }
    }

    /// How many items the list that is shown has.
    pub open spec fn list_len(self) -> nat {
        match self.category {
            ExploreCategory::Moods => self.moods.len(),
            ExploreCategory::NewReleases => self.new_releases.len(),
            ExploreCategory::Categories => self.genres.len(),
            ExploreCategory::Radios => self.radios.len(),
        }
    }

    /// Without stations and genres.
    pub open spec fn cleared(self) -> ExploreView {
        ExploreView { radios: Seq::empty(), genres: Seq::empty(), ..self }
    }
}

impl ExploreState {
    /// The cursor of the list that is shown.
    pub fn selection(&self) -> (r: usize)
        ensures
            r == self@.selection(),
    {
        match self.category {
            ExploreCategory::Moods => self.moods_selected,
            ExploreCategory::NewReleases => self.new_releases_selected,
            ExploreCategory::Categories => self.genres_selected,
            ExploreCategory::Radios => self.radios_selected,
        }
    }

    /// Moves the cursor of the list that is shown.
    pub fn set_selection(&mut self, at: usize)
        ensures
            final(self)@ == old(self)@.with_selection(at),
    {
        match self.category {
            ExploreCategory::Moods => {
                self.moods_selected = at;
            },
            ExploreCategory::NewReleases => {
                self.new_releases_selected = at;
            },
            ExploreCategory::Categories => {
                self.genres_selected = at;
            },
            ExploreCategory::Radios => {
                self.radios_selected = at;
            },
        }
    }

    /// How many items the list that is shown has.
    pub fn list_len(&self) -> (r: usize)
        ensures
            r == self@.list_len(),
    {
        match self.category {
            ExploreCategory::Moods => self.moods.len(),
            ExploreCategory::NewReleases => self.new_releases.len(),
            ExploreCategory::Categories => self.genres.len(),
            ExploreCategory::Radios => self.radios.len(),
        }
    }

    /// Drops the stations and genres.
    pub fn clear(&mut self)
        ensures
            final(self)@ == old(self)@.cleared(),
    {
        self.radios = Vec::new();
        self.genres = Vec::new();
    }
}

impl SearchState {
    /// Drops what was found.
    pub fn clear(&mut self)
        ensures
            final(self)@ == (SearchView {
                results: Seq::empty(),
                display: Seq::empty(),
                ..old(self)@
            }),
    {
        self.results = Vec::new();
        self.display = Vec::new();
        proof {
            assert(self@.display =~= Seq::<DisplayItemView>::empty());
        }
    }
}

impl FavoritesState {
    /// Drops the rows that are shown.
    pub fn clear(&mut self)
        ensures
            final(self)@ == (FavoritesView {
                tracks: Seq::empty(),
                display: Seq::empty(),
                ..old(self)@
            }),
    {
        self.tracks = Vec::new();
        self.display = Vec::new();
        proof {
            assert(self@.display =~= Seq::<DisplayItemView>::empty());
        }
    }
}

impl PagesState {
    /// Closes every detail page and drops the genre's.
    pub fn clear(&mut self)
        ensures
            final(self)@ == (PagesView {
                genre: None,
                top: None,
                below: Seq::empty(),
                ..old(self)@
            }),
    {
        self.genre = None;
        self.top = None;
        self.below = Vec::new();
    }
}

impl DaemonView {
    // ── The list that is shown ──────────────────────────────────────

    /// The cursor of the list that the active tab shows.
    pub open spec fn selection(self) -> usize {
        match self.active_tab {
            ActiveTab::Search => self.search.selected,
            ActiveTab::Favorites => self.fav.selected,
            ActiveTab::Explore => self.explore.selection(),
            ActiveTab::Downloads => self.offline.selected,
        }
    }

    /// Another place of that cursor.
    #[verifier::opaque]
    pub open spec fn with_selection(self, at: usize) -> DaemonView {
        match self.active_tab {
            ActiveTab::Search => DaemonView {
                search: SearchView { selected: at, ..self.search },
                ..self
            },
            ActiveTab::Favorites => DaemonView {
                fav: FavoritesView { selected: at, ..self.fav },
                ..self
            },
            ActiveTab::Explore => DaemonView {
                explore: self.explore.with_selection(at),
                ..self
            },
            ActiveTab::Downloads => DaemonView {
                offline: OfflineTabView { selected: at, ..self.offline },
                ..self
            },
        }
    }

    /// How many items the list that the active tab shows has.
    pub open spec fn list_len(self) -> nat {
        match self.active_tab {
            ActiveTab::Search => self.search.display.len(),
            ActiveTab::Favorites => self.fav.display.len(),
            ActiveTab::Explore => self.explore.list_len(),
            ActiveTab::Downloads => match self.offline.category {
                OfflineCategory::Tracks => self.offline.index.standalone().len(),
                OfflineCategory::Albums => self.offline.index.albums.len(),
                OfflineCategory::Playlists => self.offline.index.playlists.len(),
            },
        }
    }

    /// The cursor goes to a place of the list, to its end at most.
    #[verifier::opaque]
    pub open spec fn select(self, at: int) -> DaemonView {
        if self.list_len() == 0 {
            self
        } else if at < self.list_len() {
            self.with_selection(at as usize)
        } else {
            self.with_selection((self.list_len() - 1) as usize)
        }
    }

    // ── Categories ──────────────────────────────────────────────────

    /// The place of the active tab's category in its list.
    pub open spec fn category_place(self) -> int {
        match self.active_tab {
            ActiveTab::Search => self.search.category.place(),
            ActiveTab::Favorites => self.fav.category.place(),
            ActiveTab::Explore => self.explore.category.place(),
            ActiveTab::Downloads => self.offline.category.place(),
        }
    }

    /// How many categories the active tab has.
    pub open spec fn category_count(self) -> int {
        match self.active_tab {
            ActiveTab::Search => 7,
            ActiveTab::Favorites => 6,
            ActiveTab::Explore => 4,
            ActiveTab::Downloads => 3,
        }
    }

    /// The Explore tab shows a category from the top, and loads its list where it
    /// has none yet.
    #[verifier::opaque]
    pub open spec fn explores(self, category: ExploreCategory) -> DaemonView {
        let d = DaemonView {
            explore: ExploreView { category, ..self.explore }.with_selection(0),
            ..self
        };
        if category == ExploreCategory::Categories && d.explore.genres.len() == 0
            && !d.explore.genres_loading {
            d.start_load_genres()
        } else if category == ExploreCategory::NewReleases && d.explore.new_releases.len() == 0
            && !d.explore.new_releases_loading {
            d.start_load_new_releases()
        } else {
            d
        }
    }

    /// The active tab shows the category at a place of its list, from the top,
    /// and loads what it needs. A place outside the list, and the category that
    /// is shown already, change nothing.
    #[verifier::opaque]
    pub open spec fn set_category(self, index: int) -> DaemonView {
        if index < 0 || index >= self.category_count() || index == self.category_place() {
            self
        } else {
            match self.active_tab {
                ActiveTab::Search => {
                    let d = DaemonView {
                        search: SearchView {
                            category: SearchCategory::nth(index),
                            selected: 0,
                            ..self.search
                        },
                        ..self
                    };
                    if self.search.last_query@.len() == 0 {
                        d
                    } else {
                        d.start_search(self.search.last_query)
                    }
                },
                ActiveTab::Favorites => DaemonView {
                    fav: FavoritesView {
                        category: FavoritesCategory::nth(index),
                        selected: 0,
                        ..self.fav
                    },
                    ..self
                }.start_load_favorites_category(),
                ActiveTab::Explore => self.explores(ExploreCategory::nth(index)),
                ActiveTab::Downloads => DaemonView {
                    offline: OfflineTabView {
                        category: OfflineCategory::nth(index),
                        selected: 0,
                        ..self.offline
                    },
                    ..self
                },
            }
        }
    }

    // ── Playing from lists ──────────────────────────────────────────

    /// The playable rows of a list become the queue, and a row's track starts.
    #[verifier::opaque]
    pub open spec fn play_from_rows(self, rows: Seq<DisplayItemView>, index: usize) -> DaemonView {
        if index < rows.len() && rows[index as int].track is Some {
            let track = rows[index as int].track->0;
            let playable = models::playable_of(rows);
            self.with_queue(
                playable,
                seqs::place_of(playable, track.track_id@) as usize,
            ).start_play_track(track)
        } else {
            self
        }
    }

    /// A page's tracks become the queue, and one of them starts.
    #[verifier::opaque]
    pub open spec fn play_from_tracks(self, tracks: Option<Seq<TrackData>>, index: usize) -> DaemonView {
        if tracks is Some && index < tracks->0.len() {
            self.play_list(tracks->0, index)
        } else {
            self
        }
    }

    /// Downloaded tracks become the queue, and one of them starts.
    #[verifier::opaque]
    pub open spec fn play_from_downloads(self, tracks: Option<Seq<TrackData>>, index: usize) -> DaemonView {
        if tracks is Some && index < tracks->0.len() {
            self.play_offline_list(tracks->0, index)
        } else {
            self
        }
    }

    /// The favorites play in random order. Shuffle comes on and repeat goes off.
    #[verifier::opaque]
    pub open spec fn shuffle_favorites(self, chance: Chance) -> DaemonView {
        let len = self.fav.tracks.len();
        if len == 0 {
            self
        } else {
            let index = (chance.pick as usize % len as usize) as usize;
            let d = self.with_queue(self.fav.tracks, index);
            DaemonView {
                player: PlayerStateView { shuffle: true, repeat: RepeatMode::Off, ..d.player },
                ..d
            }.rebuild_shuffle_order(len, index, chance.seed).start_play_track(
                self.fav.tracks[index as int],
            )
        }
    }

    /// Shuffle goes on or off. Coming on clears repeat, which may be set again
    /// on top of shuffle.
    #[verifier::opaque]
    pub open spec fn toggle_shuffle(self, seed: u64) -> DaemonView {
        if self.player.shuffle {
            DaemonView {
                player: PlayerStateView { shuffle: false, ..self.player },
                ..self
            }.without_cycle()
        } else {
            DaemonView {
                player: PlayerStateView {
                    shuffle: true,
                    repeat: RepeatMode::Off,
                    ..self.player
                },
                ..self
            }.rebuild_shuffle_order(self.player.queue.len(), self.player.queue_index, seed)
        }
    }

    // ── The queue ───────────────────────────────────────────────────

    /// A track is put behind the current one.
    #[verifier::opaque]
    pub open spec fn queue_next(self, track: TrackData) -> DaemonView {
        let at = self.player.queue_index + 1;
        DaemonView {
            player: PlayerStateView {
                queue: if at <= self.player.queue.len() {
                    self.player.queue.insert(at, track)
                } else {
                    self.player.queue.push(track)
                },
                ..self.player
            },
            ..self
        }.tell(NoticeKind::PlayNext)
    }

    /// A track is put at the end of the queue.
    #[verifier::opaque]
    pub open spec fn queue_last(self, track: TrackData) -> DaemonView {
        DaemonView {
            player: PlayerStateView { queue: self.player.queue.push(track), ..self.player },
            ..self
        }.tell(NoticeKind::AddedToQueue)
    }

    /// A track of the queue starts. The shuffle cycle moves to it, so that next
    /// and previous go on from there.
    #[verifier::opaque]
    pub open spec fn play_from_queue(self, index: usize) -> DaemonView {
        let moved = if self.run.shuffle_order.contains(index) {
            self.at_cycle_pos(self.run.shuffle_order.index_of_first(index)->0)
        } else {
            self
        };
        if index < self.player.queue.len() {
            moved.at_queue_index(index).start_play_track(self.player.queue[index as int])
        } else {
            moved
        }
    }

    /// A track leaves the queue. The current one stays, and stays current.
    #[verifier::opaque]
    pub open spec fn remove_from_queue(self, index: usize) -> DaemonView {
        if index < self.player.queue.len() && index != self.player.queue_index {
            DaemonView {
                player: PlayerStateView {
                    queue: self.player.queue.remove(index as int),
                    queue_index: if index < self.player.queue_index {
                        (self.player.queue_index - 1) as usize
                    } else {
                        self.player.queue_index
                    },
                    ..self.player
                },
                ..self
            }
        } else {
            self
        }
    }

    // ── Preferences and session ─────────────────────────────────────

    /// The volume, in thousandths, full at most.
    #[verifier::opaque]
    pub open spec fn set_volume(self, volume: u32) -> DaemonView {
        let v: u32 = if volume > 1000 {
            1000
        } else {
            volume
        };
        let d = DaemonView {
            player: PlayerStateView { volume: v, ..self.player },
            config: Config { volume: v, ..self.config },
            ..self
        };
        let e = if self.run.engine_ready {
            d.send(Effect::Engine(EngineCommand::SetVolume(v)))
        } else {
            d
        };
        e.send(Effect::SaveConfig)
    }

    /// The preferred quality, for the tracks to come.
    #[verifier::opaque]
    pub open spec fn set_quality(self, quality: AudioQuality) -> DaemonView {
        DaemonView { config: Config { quality, ..self.config }, ..self }.send(Effect::SaveConfig)
    }

    /// A login is remembered and begins.
    #[verifier::opaque]
    pub open spec fn login(self, arl: String) -> DaemonView {
        DaemonView { config: Config { arl: Some(arl), ..self.config }, ..self }.send(
            Effect::SaveConfig,
        ).start_login(arl)
    }

    /// The login is forgotten, playback ends and the login screen comes back.
    #[verifier::opaque]
    pub open spec fn logout(self) -> DaemonView {
        let d = DaemonView {
            config: Config { arl: None, ..self.config },
            screen: Screen::Login,
            status_msg: None,
            playlists: Seq::empty(),
            player: PlayerStateView {
                status: PlaybackStatus::Stopped,
                current_track: None,
                queue: Seq::empty(),
                queue_index: 0,
                ..self.player
            },
            login: LoginView { error: None, loading: false, user_name: None },
            search: SearchView { results: Seq::empty(), display: Seq::empty(), ..self.search },
            fav: FavoritesView { tracks: Seq::empty(), display: Seq::empty(), ..self.fav },
            explore: self.explore.cleared(),
            pages: PagesView { genre: None, top: None, below: Seq::empty(), ..self.pages },
            run: RunView { engine_ready: false, key_ready: false, ..self.run },
            ..self
        }.send(Effect::SaveConfig);
        if self.run.engine_ready {
            d.send(Effect::Engine(EngineCommand::Close))
        } else {
            d
        }
    }

    // ── Favorites ───────────────────────────────────────────────────

    /// A track is a favorite from now on.
    #[verifier::opaque]
    pub open spec fn add_favorite(self, track_id: String) -> DaemonView {
        DaemonView {
            fav: FavoritesView {
                track_ids: if seqs::listed(self.fav.track_ids, track_id@) {
                    self.fav.track_ids
                } else {
                    self.fav.track_ids.push(track_id)
                },
                ..self.fav
            },
            ..self
        }.send(Effect::AddFavorite { track_id })
    }

    /// A track is no favorite any more.
    #[verifier::opaque]
    pub open spec fn remove_favorite(self, track_id: String) -> DaemonView {
        DaemonView {
            fav: FavoritesView {
                track_ids: seqs::others(self.fav.track_ids, track_id@),
                ..self.fav
            },
            ..self
        }.send(Effect::RemoveFavorite { track_id })
    }

    // ── Downloads ───────────────────────────────────────────────────

    /// A download begins, unless there is no connection or no key.
    pub open spec fn start_download(self, effect: Effect, kind: NoticeKind) -> DaemonView {
        if !self.run.key_ready {
            self.tell(NoticeKind::PlayerNotReady)
        } else {
            DaemonView {
                offline: OfflineTabView { loading: true, ..self.offline },
                ..self
            }.tell(kind).send(effect)
        }
    }

    /// A track is downloaded, unless it is there already.
    #[verifier::opaque]
    pub open spec fn download_track(self, track: TrackData) -> DaemonView {
        if self.is_offline {
            self.tell(NoticeKind::NoInternet)
        } else if self.offline.index.has_track(track.track_id@) {
            self.tell(NoticeKind::TrackSavedOffline)
        } else {
            self.start_download(
                Effect::DownloadTrack { track, quality: self.config.quality },
                NoticeKind::DownloadingTrack,
            )
        }
    }

    /// An album is downloaded, unless it is there already.
    #[verifier::opaque]
    pub open spec fn download_album(self, album_id: String) -> DaemonView {
        if self.is_offline {
            self.tell(NoticeKind::NoInternet)
        } else if storage::album_listed(self.offline.index.albums, album_id@) {
            self.tell(NoticeKind::AlbumSavedOffline)
        } else {
            self.start_download(
                Effect::DownloadAlbum { album_id, quality: self.config.quality },
                NoticeKind::DownloadingTrack,
            )
        }
    }

    /// A playlist is downloaded.
    #[verifier::opaque]
    pub open spec fn download_playlist(self, playlist_id: String) -> DaemonView {
        if self.is_offline {
            self.tell(NoticeKind::NoInternet)
        } else {
            self.start_download(
                Effect::DownloadPlaylist { playlist_id, quality: self.config.quality },
                NoticeKind::DownloadProgress,
            )
        }
    }

    /// The downloads are another set from now on.
    pub open spec fn with_downloads(self, index: OfflineView) -> DaemonView {
        DaemonView { offline: OfflineTabView { index, ..self.offline }, ..self }.send(
            Effect::SaveOfflineIndex,
        )
    }

    // ── Detail pages ────────────────────────────────────────────────

    /// A detail page opens over the one that is open.
    #[verifier::opaque]
    pub open spec fn push_nav(self, page: NavOverlay) -> DaemonView {
        DaemonView {
            pages: PagesView {
                top: Some(page),
                below: match self.pages.top {
                    Some(current) => self.pages.below.push(current),
                    None => self.pages.below,
                },
                ..self.pages
            },
            ..self
        }
    }

    /// The open detail page closes, and the one below it is open again.
    #[verifier::opaque]
    pub open spec fn pop_nav(self) -> DaemonView {
        DaemonView {
            pages: PagesView {
                top: if self.pages.below.len() == 0 {
                    None
                } else {
                    Some(self.pages.below.last())
                },
                below: if self.pages.below.len() == 0 {
                    self.pages.below
                } else {
                    self.pages.below.drop_last()
                },
                ..self.pages
            },
            ..self
        }
    }

    /// Every detail page closes.
    #[verifier::opaque]
    pub open spec fn clear_nav(self) -> DaemonView {
        DaemonView { pages: PagesView { top: None, below: Seq::empty(), ..self.pages }, ..self }
    }

    /// An album of the artist's page opens.
    #[verifier::opaque]
    pub open spec fn open_artist_album(self, index: usize) -> DaemonView {
        match self.pages.artist {
            Some(artist) => {
                let albums = models::albums_in_tab(artist.albums, self.pages.artist_sub_tab);
                if index < albums.len() {
                    self.start_load_album_detail(albums[index as int].album_id)
                } else {
                    self
                }
            },
            None => self,
        }
    }

    /// A station of the genre's page plays.
    #[verifier::opaque]
    pub open spec fn play_genre_radio(self, index: usize) -> DaemonView {
        match self.pages.genre {
            Some(genre) => if index < genre.radios.len() {
                self.start_play_radio(genre.radios[index as int].id)
            } else {
                self
            },
            None => self,
        }
    }

    /// A mood plays.
    #[verifier::opaque]
    pub open spec fn play_from_mood(self, index: usize) -> DaemonView {
        if index < self.explore.moods.len() {
            let m = self.explore.moods[index as int];
            DaemonView { run: RunView { flow_active: false, ..self.run }, ..self }.start_play_mood(
                MoodItem { id: m.id, title: m.title, target: m.target, radio_id: m.radio_id },
                false,
            )
        } else {
            self
        }
    }

    /// Flow begins: what played before does not go on when the queue ends.
    #[verifier::opaque]
    pub open spec fn begin_flow(self) -> DaemonView {
        DaemonView {
            run: RunView { flow_active: false, active_mood: None, ..self.run },
            ..self
        }.start_flow()
    }

    /// The tracks of the open pages.
    pub open spec fn artist_tracks(self) -> Option<Seq<TrackData>> {
        match self.pages.artist {
            Some(a) => Some(a.top_tracks),
            None => None,
        }
    }

    pub open spec fn album_tracks(self) -> Option<Seq<TrackData>> {
        match self.pages.album {
            Some(a) => Some(a.tracks),
            None => None,
        }
    }

    pub open spec fn playlist_tracks(self) -> Option<Seq<TrackData>> {
        match self.pages.playlist {
            Some(p) => Some(p.tracks),
            None => None,
        }
    }

    pub open spec fn genre_tracks(self) -> Option<Seq<TrackData>> {
        match self.pages.genre {
            Some(g) => Some(g.tracks),
            None => None,
        }
    }

    /// The tracks of a downloaded album.
    pub open spec fn offline_album_tracks(self, id: Seq<char>) -> Option<Seq<TrackData>> {
        match storage::find_album(self.offline.index.albums, id) {
            Some(a) => Some(a.tracks),
            None => None,
        }
    }

    /// The tracks of a downloaded playlist.
    pub open spec fn offline_playlist_tracks(self, id: Seq<char>) -> Option<Seq<TrackData>> {
        match storage::find_playlist(self.offline.index.playlists, id) {
            Some(p) => Some(p.tracks),
            None => None,
        }
    }

    // ── Small steps ─────────────────────────────────────────────────

    /// A search begins, and is remembered.
    #[verifier::opaque]
    pub open spec fn search_for(self, query: String) -> DaemonView {
        DaemonView {
            search: SearchView { last_query: query, ..self.search },
            ..self
        }.start_search(query)
    }

    /// The next repeat mode.
    #[verifier::opaque]
    pub open spec fn cycle_repeat(self) -> DaemonView {
        DaemonView {
            player: PlayerStateView { repeat: self.player.repeat.cycled(), ..self.player },
            ..self
        }
    }

    /// Another tab is shown.
    #[verifier::opaque]
    pub open spec fn show_tab(self, tab: ActiveTab) -> DaemonView {
        DaemonView { active_tab: tab, ..self }
    }

    /// The cursor moves one item up.
    #[verifier::opaque]
    pub open spec fn select_up(self) -> DaemonView {
        self.with_selection(
            if self.selection() == 0 {
                0
            } else {
                (self.selection() - 1) as usize
            },
        )
    }

    /// Work is handed out and nothing else changes.
    #[verifier::opaque]
    pub open spec fn hand_out(self, e: Effect) -> DaemonView {
        self.send(e)
    }

    /// A downloaded track is dropped.
    #[verifier::opaque]
    pub open spec fn remove_offline_track(self, track_id: Seq<char>) -> DaemonView {
        self.with_downloads(
            OfflineView {
                tracks: seqs::others(self.offline.index.tracks, track_id),
                ..self.offline.index
            },
        ).tell(NoticeKind::RemovedOffline)
    }

    /// A downloaded album is dropped.
    #[verifier::opaque]
    pub open spec fn remove_offline_album(self, album_id: Seq<char>) -> DaemonView {
        self.with_downloads(
            OfflineView {
                albums: storage::other_albums(self.offline.index.albums, album_id),
                ..self.offline.index
            },
        ).tell(NoticeKind::RemovedOffline)
    }

    /// A downloaded playlist is dropped.
    #[verifier::opaque]
    pub open spec fn remove_offline_playlist(self, playlist_id: Seq<char>) -> DaemonView {
        self.with_downloads(
            OfflineView {
                playlists: storage::other_playlists(self.offline.index.playlists, playlist_id),
                ..self.offline.index
            },
        ).tell(NoticeKind::RemovedOffline)
    }

    /// A station plays.
    #[verifier::opaque]
    pub open spec fn play_from_radio(self, index: usize) -> DaemonView {
        if index < self.explore.radios.len() {
            self.start_play_radio(self.explore.radios[index as int].id)
        } else {
            self
        }
    }

    // ── All commands ────────────────────────────────────────────────

    /// What a command about favorites, playlists and downloads does.
    #[verifier::opaque]
    pub open spec fn library_command(self, cmd: Command, now: u64, chance: Chance) -> DaemonView {
        match cmd {
            Command::AddFavorite { track_id } => self.add_favorite(track_id),
            Command::RemoveFavorite { track_id } => self.remove_favorite(track_id),
            Command::AddFavoriteArtist { artist_id } => self.hand_out(Effect::AddFavoriteArtist { artist_id }),
            Command::RemoveFavoriteArtist { artist_id } => self.hand_out(Effect::RemoveFavoriteArtist { artist_id }),
            Command::AddFavoriteAlbum { album_id } => self.hand_out(Effect::AddFavoriteAlbum { album_id }),
            Command::RemoveFavoriteAlbum { album_id } => self.hand_out(Effect::RemoveFavoriteAlbum { album_id }),
            Command::AddToPlaylist { playlist_id, track_id } => self.hand_out(Effect::AddToPlaylist { playlist_id, track_id }),
            Command::RemoveFromPlaylist { playlist_id, track_id } => self.hand_out(Effect::RemoveFromPlaylist { playlist_id, track_id }),
            Command::CreatePlaylistAndAdd { title, track_id } => self.hand_out(Effect::CreatePlaylistAndAdd { title, track_id }),
            Command::RenamePlaylist { playlist_id, new_title } => self.hand_out(Effect::RenamePlaylist { playlist_id, new_title }),
            Command::DeletePlaylist { playlist_id } => self.hand_out(Effect::DeletePlaylist { playlist_id }),
            Command::DislikeTrack { track_id } => self.hand_out(Effect::DislikeTrack { track_id }),
            Command::DownloadOffline { track } => self.download_track(track),
            Command::DownloadAlbumOffline { album_id } => self.download_album(album_id),
            Command::DownloadPlaylistOffline { playlist_id } => self.download_playlist(playlist_id),
            Command::RemoveOfflineTrack { track_id } => self.remove_offline_track(track_id@),
            Command::RemoveOfflineAlbum { album_id } => self.remove_offline_album(album_id@),
            Command::RemoveOfflinePlaylist { playlist_id } => self.remove_offline_playlist(playlist_id@),
            _ => self,
        }
    }

    /// What a command that asks the service for something does.
    #[verifier::opaque]
    pub open spec fn loading_command(self, cmd: Command, now: u64, chance: Chance) -> DaemonView {
        match cmd {
            Command::Search { query } => self.search_for(query),
            Command::LoadFavorites => self.start_load_favorites(),
            Command::RequestPlaylists => self.start_load_playlists(),
            Command::StartMix { track_id } => self.start_mix(track_id),
            Command::StartFlow => self.begin_flow(),
            Command::GetAlbumDetail { album_id } => self.start_load_album_detail(album_id),
            Command::GetArtistDetail { artist_id } => self.start_load_artist_detail(artist_id),
            Command::GetPlaylistDetail { playlist_id } => self.start_load_playlist_detail(playlist_id),
            Command::GetShowDetail { show_id } => self.start_load_show_detail(show_id),
            Command::GetGenreDetail { genre_id, name } => self.start_load_genre_detail(genre_id, name),
            Command::LoadRadios => self.start_load_radios(),
            Command::LoadMoods => self.start_load_moods(),
            Command::LoadGenres => self.start_load_genres(),
            Command::PlayFromRadio { index } => self.play_from_radio(index),
            Command::PlayFromMood { index } => self.play_from_mood(index),
            Command::PlayFromGenreRadio { index } => self.play_genre_radio(index),
            _ => self.library_command(cmd, now, chance),
        }
    }

    /// What a command about tabs, cursors and pages does.
    #[verifier::opaque]
    pub open spec fn browsing_command(self, cmd: Command, now: u64, chance: Chance) -> DaemonView {
        match cmd {
            Command::SelectUp => self.select_up(),
            Command::SelectDown => self.select(self.selection() + 1),
            Command::SelectIndex { index } => self.select(index as int),
            Command::NextTab => self.show_tab(ActiveTab::nth(self.active_tab.place() + 1)),
            Command::PrevTab => self.show_tab(ActiveTab::nth(self.active_tab.place() + 3)),
            Command::SetTab { tab } => self.show_tab(tab),
            Command::NextCategory => self.set_category(
            (self.category_place() + 1) % self.category_count(),
            ),
            Command::PrevCategory => self.set_category(
            (self.category_place() + self.category_count() - 1) % self.category_count(),
            ),
            Command::SetCategory { index } => self.set_category(index as int),
            Command::OpenArtistAlbum { index } => self.open_artist_album(index),
            Command::PushNavOverlay(page) => self.push_nav(page),
            Command::PopNavOverlay => self.pop_nav(),
            Command::ClearNavOverlayStack => self.clear_nav(),
            _ => self.loading_command(cmd, now, chance),
        }
    }

    /// What a command about lists and the queue does.
    #[verifier::opaque]
    pub open spec fn playing_command(self, cmd: Command, now: u64, chance: Chance) -> DaemonView {
        match cmd {
            Command::PlayFromSearch { index } => self.play_from_rows(self.search.display, index),
            Command::PlayFromNewReleases { index } => self.play_from_rows(self.explore.new_releases, index),
            Command::PlayFromFavorites { index } => self.play_from_rows(self.fav.display, index),
            Command::ShuffleFavorites => self.shuffle_favorites(chance),
            Command::PlayNext { track } => self.queue_next(track),
            Command::AddToQueue { track } => self.queue_last(track),
            Command::PlayFromQueue { index } => self.play_from_queue(index),
            Command::RemoveFromQueue { index } => self.remove_from_queue(index),
            Command::PlayFromAlbum { index } => self.play_from_tracks(self.album_tracks(), index),
            Command::PlayFromArtist { index } => self.play_from_tracks(self.artist_tracks(), index),
            Command::PlayFromPlaylist { index } => self.play_from_tracks(self.playlist_tracks(), index),
            Command::PlayFromGenreTrack { index } => self.play_from_tracks(self.genre_tracks(), index),
            Command::PlayFromOffline { index } => self.play_from_downloads(
            Some(storage::plain_tracks(self.offline.index.standalone())),
            index,
            ),
            Command::PlayOfflineAlbum { album_id, track_index } => self.play_from_downloads(
            self.offline_album_tracks(album_id@),
            track_index,
            ),
            Command::PlayOfflinePlaylist { playlist_id, track_index } => self.play_from_downloads(
            self.offline_playlist_tracks(playlist_id@),
            track_index,
            ),
            _ => self.browsing_command(cmd, now, chance),
        }
    }

    /// What a command does.
    #[verifier::opaque]
    pub open spec fn command(self, cmd: Command, now: u64, chance: Chance) -> DaemonView {
        match cmd {
            Command::GetSnapshot => self,
            Command::Shutdown => self,
            Command::Login { arl } => self.login(arl),
            Command::Logout => self.logout(),
            Command::TogglePause => self.toggle_pause(now),
            Command::NextTrack => self.play_next(now, chance.seed),
            Command::PrevTrack => self.play_prev(now, chance.seed),
            Command::Stop => self.stop(),
            Command::SetVolume { volume } => self.set_volume(volume),
            Command::SetQuality { quality } => self.set_quality(quality),
            Command::SeekForward { secs } => self.seek_to(self.player.position_secs + secs),
            Command::SeekBackward { secs } => self.seek_to(self.player.position_secs - secs),
            Command::SeekAbsolute { secs } => self.seek_to(secs as int),
            Command::ToggleShuffle => self.toggle_shuffle(chance.seed),
            Command::CycleRepeat => self.cycle_repeat(),
            _ => self.playing_command(cmd, now, chance),
        }
    }
}

// ── Steps ───────────────────────────────────────────────────────────

impl Daemon {
    /// The cursor of the list that the active tab shows.
    pub fn selection(&self) -> (r: usize)
        ensures
            r == self@.selection(),
    {
        match self.active_tab {
            ActiveTab::Search => self.search.selected,
            ActiveTab::Favorites => self.fav.selected,
            ActiveTab::Explore => self.explore.selection(),
            ActiveTab::Downloads => self.offline.selected,
        }
    }

    /// Moves the cursor of the list that the active tab shows.
    pub fn set_selection(&mut self, at: usize)
        ensures
            final(self)@ == old(self)@.with_selection(at),
    {
        proof {
            reveal(DaemonView::with_selection);
        }
        match self.active_tab {
            ActiveTab::Search => {
                self.search.selected = at;
            },
            ActiveTab::Favorites => {
                self.fav.selected = at;
            },
            ActiveTab::Explore => {
                self.explore.set_selection(at);
            },
            ActiveTab::Downloads => {
                self.offline.selected = at;
            },
        }
    }

    /// How many items the list that the active tab shows has.
    pub fn current_list_len(&self) -> (r: usize)
        ensures
            r == self@.list_len(),
    {
        match self.active_tab {
            ActiveTab::Search => self.search.display.len(),
            ActiveTab::Favorites => self.fav.display.len(),
            ActiveTab::Explore => self.explore.list_len(),
            ActiveTab::Downloads => match self.offline.category {
                OfflineCategory::Tracks => self.offline.index.standalone_tracks().len(),
                OfflineCategory::Albums => self.offline.index.albums.len(),
                OfflineCategory::Playlists => self.offline.index.playlists.len(),
            },
        }
    }

    /// Moves the cursor to a place of the list, to its end at most.
    pub fn select_index(&mut self, index: usize)
        ensures
            final(self)@ == old(self)@.select(index as int),
    {
        proof {
            reveal(DaemonView::select);
        }
        let len: usize = self.current_list_len();
        if len > 0 {
            let at: usize = if index < len {
                index
            } else {
                len - 1
            };
            self.set_selection(at);
        }
    }

    /// Moves the cursor one item down.
    pub fn select_down(&mut self)
        ensures
            final(self)@ == old(self)@.select(old(self)@.selection() + 1),
    {
        proof {
            reveal(DaemonView::select);
        }
        let len: usize = self.current_list_len();
        let at: usize = self.selection();
        if len > 0 {
            let next: usize = if at < len - 1 {
                at + 1
            } else {
                len - 1
            };
            self.set_selection(next);
        }
    }

    /// The place of the active tab's category in its list, and that list's length.
    pub fn category_position(&self) -> (r: (usize, usize))
        ensures
            r.0 == self@.category_place(),
            r.1 == self@.category_count(),
            r.0 < r.1 <= 7,
    {
        match self.active_tab {
            ActiveTab::Search => (self.search.category.position(), SearchCategory::COUNT),
            ActiveTab::Favorites => (self.fav.category.position(), FavoritesCategory::COUNT),
            ActiveTab::Explore => (self.explore.category.position(), ExploreCategory::COUNT),
            ActiveTab::Downloads => (self.offline.category.position(), OfflineCategory::COUNT),
        }
    }

    fn show_explored(&mut self, category: ExploreCategory)
        ensures
            final(self)@ == old(self)@.explores(category),
    {
        proof {
            reveal(DaemonView::explores);
        }
        self.explore.category = category;
        self.explore.set_selection(0);
        if category == ExploreCategory::Categories && self.explore.genres.len() == 0
            && !self.explore.genres_loading {
            self.start_load_genres();
        } else if category == ExploreCategory::NewReleases && self.explore.new_releases.len() == 0
            && !self.explore.new_releases_loading {
            self.start_load_new_releases();
        }
    }

    /// Shows the category at a place of the active tab's list.
    pub fn set_category_index(&mut self, index: usize)
        ensures
            final(self)@ == old(self)@.set_category(index as int),
    {
        proof {
            reveal(DaemonView::set_category);
        }
        let (place, count) = self.category_position();
        if index >= count || index == place {
            return;
        }
        match self.active_tab {
            ActiveTab::Search => {
                match SearchCategory::at(index) {
                    Some(category) => {
                        self.search.category = category;
                        self.search.selected = 0;
                        let query: String = self.search.last_query.clone();
                        if !query.as_str().is_empty() {
                            self.start_search(query);
                        }
                    },
                    None => {},
                }
            },
            ActiveTab::Favorites => {
                match FavoritesCategory::at(index) {
                    Some(category) => {
                        self.fav.category = category;
                        self.fav.selected = 0;
                        self.start_load_favorites_category();
                    },
                    None => {},
                }
            },
            ActiveTab::Explore => {
                match ExploreCategory::at(index) {
                    Some(category) => self.show_explored(category),
                    None => {},
                }
            },
            ActiveTab::Downloads => {
                match OfflineCategory::at(index) {
                    Some(category) => {
                        self.offline.category = category;
                        self.offline.selected = 0;
                    },
                    None => {},
                }
            },
        }
    }

    /// Makes the playable rows of a list the queue and starts a row's track.
    fn play_from_rows(&mut self, rows: Vec<DisplayItem>, index: usize)
        ensures
            final(self)@ == old(self)@.play_from_rows(models::rows_of(rows@), index),
    {
        proof {
            reveal(DaemonView::play_from_rows);
        }
        if index >= rows.len() {
            return;
        }
        let track: TrackData = match &rows[index].track {
            Some(track) => track.clone(),
            None => {
                return;
            },
        };
        let playable: Vec<TrackData> = playable_tracks(&rows);
        proof {
            models::playable_has_row(models::rows_of(rows@), index as int);
        }
        let at: usize = match find_id(&playable, &track.track_id) {
            Some(i) => i,
            None => 0,
        };
        self.set_queue(playable, at);
        self.start_play_track(track);
    }

    /// Makes a page's tracks the queue and starts one of them.
    fn play_from_tracks(&mut self, tracks: Option<Vec<TrackData>>, index: usize)
        ensures
            final(self)@ == old(self)@.play_from_tracks(seqs::opt_view(tracks), index),
    {
        proof {
            reveal(DaemonView::play_from_tracks);
        }
        match tracks {
            Some(tracks) => {
                if index < tracks.len() {
                    self.play_list(tracks, index);
                }
            },
            None => {},
        }
    }

    /// Makes downloaded tracks the queue and starts one of them.
    fn play_from_downloads(&mut self, tracks: Option<Vec<TrackData>>, index: usize)
        ensures
            final(self)@ == old(self)@.play_from_downloads(seqs::opt_view(tracks), index),
    {
        proof {
            reveal(DaemonView::play_from_downloads);
        }
        match tracks {
            Some(tracks) => {
                if index < tracks.len() {
                    self.play_offline_list(tracks, index);
                }
            },
            None => {},
        }
    }

    /// Plays the favorites in random order.
    pub fn shuffle_favorites(&mut self, chance: Chance)
        ensures
            final(self)@ == old(self)@.shuffle_favorites(chance),
    {
        proof {
            reveal(DaemonView::shuffle_favorites);
        }
        let len: usize = self.fav.tracks.len();
        if len == 0 {
            return;
        }
        let pick: usize = chance.pick as usize;
        let index: usize = pick % len;
        let tracks: Vec<TrackData> = self.fav.tracks.clone();
        let track: TrackData = tracks[index].clone();
        self.set_queue(tracks, index);
        self.player.shuffle = true;
        self.player.repeat = RepeatMode::Off;
        self.rebuild_shuffle_order(len, index, chance.seed);
        self.start_play_track(track);
    }

    /// Turns shuffle on or off.
    pub fn toggle_shuffle(&mut self, seed: u64)
        ensures
            final(self)@ == old(self)@.toggle_shuffle(seed),
    {
        proof {
            reveal(DaemonView::toggle_shuffle);
        }
        if self.player.shuffle {
            self.player.shuffle = false;
            self.drop_cycle();
        } else {
            self.player.shuffle = true;
            self.player.repeat = RepeatMode::Off;
            let len: usize = self.player.queue.len();
            let current: usize = self.player.queue_index;
            self.rebuild_shuffle_order(len, current, seed);
        }
    }

    /// Puts a track behind the current one.
    pub fn queue_next(&mut self, track: TrackData)
        ensures
            final(self)@ == old(self)@.queue_next(track),
    {
        proof {
            reveal(DaemonView::queue_next);
        }
        let current: usize = self.player.queue_index;
        if current < self.player.queue.len() {
            self.player.queue.insert(current + 1, track);
        } else {
            self.player.queue.push(track);
        }
        self.tell(NoticeKind::PlayNext);
    }

    /// Puts a track at the end of the queue.
    pub fn queue_last(&mut self, track: TrackData)
        ensures
            final(self)@ == old(self)@.queue_last(track),
    {
        proof {
            reveal(DaemonView::queue_last);
        }
        self.player.queue.push(track);
        self.tell(NoticeKind::AddedToQueue);
    }

    /// The place of a track in the shuffle cycle.
    fn cycle_position(&self, index: usize) -> (r: Option<usize>)
        ensures
            match r {
                Some(pos) => pos < self@.run.shuffle_order.len()
                    && self@.run.shuffle_order.contains(index) && is_first(
                    self@.run.shuffle_order,
                    index,
                    pos as int,
                ),
                None => !self@.run.shuffle_order.contains(index),
            },
    {
        let n: usize = self.run.shuffle_order.len();
        let mut i: usize = 0;
        while i < n
            invariant
                i <= n,
                n == self.run.shuffle_order@.len(),
                forall|k: int| 0 <= k < i ==> self.run.shuffle_order@[k] != index,
            decreases n - i,
        {
            if self.run.shuffle_order[i] == index {
                return Some(i);
            }
            i = i + 1;
        }
        None
    }

    /// Starts a track of the queue.
    pub fn play_from_queue(&mut self, index: usize)
        ensures
            final(self)@ == old(self)@.play_from_queue(index),
    {
        proof {
            reveal(DaemonView::play_from_queue);
        }
        match self.cycle_position(index) {
            Some(pos) => {
                proof {
                    first_place_is_the_only_one(self@.run.shuffle_order, index, pos as int);
                }
                self.run.shuffle_pos = pos;
            },
            None => {},
        }
        if index < self.player.queue.len() {
            self.player.queue_index = index;
            let track: TrackData = self.player.queue[index].clone();
            self.start_play_track(track);
        }
    }

    /// Takes a track out of the queue, unless it is the current one.
    pub fn remove_from_queue(&mut self, index: usize)
        ensures
            final(self)@ == old(self)@.remove_from_queue(index),
    {
        proof {
            reveal(DaemonView::remove_from_queue);
        }
        if index < self.player.queue.len() && index != self.player.queue_index {
            self.player.queue.remove(index);
            if index < self.player.queue_index {
                self.player.queue_index = self.player.queue_index - 1;
            }
        }
    }

    /// Sets the volume, full at most.
    pub fn set_volume(&mut self, volume: u32)
        ensures
            final(self)@ == old(self)@.set_volume(volume),
    {
        proof {
            reveal(DaemonView::set_volume);
        }
        let v: u32 = if volume > 1000 {
            1000
        } else {
            volume
        };
        self.player.volume = v;
        self.config.volume = v;
        if self.run.engine_ready {
            self.send(Effect::Engine(EngineCommand::SetVolume(v)));
        }
        self.send(Effect::SaveConfig);
    }

    /// Sets the preferred quality.
    pub fn set_quality(&mut self, quality: AudioQuality)
        ensures
            final(self)@ == old(self)@.set_quality(quality),
    {
        proof {
            reveal(DaemonView::set_quality);
        }
        self.config.quality = quality;
        self.send(Effect::SaveConfig);
    }

    /// Remembers a login and begins it.
    pub fn login(&mut self, arl: String)
        ensures
            final(self)@ == old(self)@.login(arl),
    {
        proof {
            reveal(DaemonView::login);
        }
        self.config.arl = Some(arl.clone());
        self.send(Effect::SaveConfig);
        self.start_login(arl);
    }

    /// Forgets the login, ends playback and goes back to the login screen.
    pub fn logout(&mut self)
        ensures
            final(self)@ == old(self)@.logout(),
    {
        proof {
            reveal(DaemonView::logout);
        }
        let had_engine: bool = self.run.engine_ready;
        self.config.arl = None;
        self.screen = Screen::Login;
        self.status_msg = None;
        self.playlists = Vec::new();
        self.player.status = PlaybackStatus::Stopped;
        self.player.current_track = None;
        self.player.queue = Vec::new();
        self.player.queue_index = 0;
        self.login.error = None;
        self.login.loading = false;
        self.login.user_name = None;
        self.search.clear();
        self.fav.clear();
        self.explore.clear();
        self.pages.clear();
        self.run.engine_ready = false;
        self.run.key_ready = false;
        self.send(Effect::SaveConfig);
        if had_engine {
            self.send(Effect::Engine(EngineCommand::Close));
        }
    }

    /// Makes a track a favorite.
    pub fn add_favorite(&mut self, track_id: String)
        ensures
            final(self)@ == old(self)@.add_favorite(track_id),
    {
        proof {
            reveal(DaemonView::add_favorite);
        }
        if !contains_id(&self.fav.track_ids, &track_id) {
            self.fav.track_ids.push(track_id.clone());
        }
        self.send(Effect::AddFavorite { track_id });
    }

    /// Makes a track no favorite any more.
    pub fn remove_favorite(&mut self, track_id: String)
        ensures
            final(self)@ == old(self)@.remove_favorite(track_id),
    {
        proof {
            reveal(DaemonView::remove_favorite);
        }
        let mut list: Vec<String> = Vec::new();
        std::mem::swap(&mut list, &mut self.fav.track_ids);
        self.fav.track_ids = drop_id(list, &track_id);
        self.send(Effect::RemoveFavorite { track_id });
    }

    /// Begins a download.
    fn start_download(&mut self, effect: Effect, kind: NoticeKind)
        ensures
            final(self)@ == old(self)@.start_download(effect, kind),
    {
        if !self.run.key_ready {
            self.tell(NoticeKind::PlayerNotReady);
            return;
        }
        self.offline.loading = true;
        self.tell(kind);
        self.send(effect);
    }

    /// Downloads a track.
    pub fn download_track(&mut self, track: TrackData)
        ensures
            final(self)@ == old(self)@.download_track(track),
    {
        proof {
            reveal(DaemonView::download_track);
        }
        if self.is_offline {
            self.tell(NoticeKind::NoInternet);
        } else if self.offline.index.has_track(&track.track_id) {
            self.tell(NoticeKind::TrackSavedOffline);
        } else {
            let quality: AudioQuality = self.config.quality;
            self.start_download(
                Effect::DownloadTrack { track, quality },
                NoticeKind::DownloadingTrack,
            );
        }
    }

    /// Downloads an album.
    pub fn download_album(&mut self, album_id: String)
        ensures
            final(self)@ == old(self)@.download_album(album_id),
    {
        proof {
            reveal(DaemonView::download_album);
        }
        if self.is_offline {
            self.tell(NoticeKind::NoInternet);
        } else if self.offline.index.has_album(&album_id) {
            self.tell(NoticeKind::AlbumSavedOffline);
        } else {
            let quality: AudioQuality = self.config.quality;
            self.start_download(
                Effect::DownloadAlbum { album_id, quality },
                NoticeKind::DownloadingTrack,
            );
        }
    }

    /// Downloads a playlist.
    pub fn download_playlist(&mut self, playlist_id: String)
        ensures
            final(self)@ == old(self)@.download_playlist(playlist_id),
    {
        proof {
            reveal(DaemonView::download_playlist);
        }
        if self.is_offline {
            self.tell(NoticeKind::NoInternet);
        } else {
            let quality: AudioQuality = self.config.quality;
            self.start_download(
                Effect::DownloadPlaylist { playlist_id, quality },
                NoticeKind::DownloadProgress,
            );
        }
    }

    /// Opens a detail page.
    pub fn push_nav(&mut self, page: NavOverlay)
        ensures
            final(self)@ == old(self)@.push_nav(page),
    {
        proof {
            reveal(DaemonView::push_nav);
        }
        match self.pages.top {
            Some(current) => {
                self.pages.below.push(current);
            },
            None => {},
        }
        self.pages.top = Some(page);
    }

    /// Closes the detail page that is open.
    pub fn pop_nav(&mut self)
        ensures
            final(self)@ == old(self)@.pop_nav(),
    {
        proof {
            reveal(DaemonView::pop_nav);
        }
        self.pages.top = self.pages.below.pop();
    }

    /// Opens an album of the artist's page.
    fn open_artist_album(&mut self, index: usize)
        ensures
            final(self)@ == old(self)@.open_artist_album(index),
    {
        proof {
            reveal(DaemonView::open_artist_album);
        }
        let album_id: String = match &self.pages.artist {
            Some(artist) => {
                let albums = artist.albums_for_tab(self.pages.artist_sub_tab);
                if index < albums.len() {
                    albums[index].album_id.clone()
                } else {
                    return;
                }
            },
            None => {
                return;
            },
        };
        self.start_load_album_detail(album_id);
    }

    /// Plays a station of the genre's page.
    fn play_genre_radio(&mut self, index: usize)
        ensures
            final(self)@ == old(self)@.play_genre_radio(index),
    {
        proof {
            reveal(DaemonView::play_genre_radio);
        }
        let radio_id: u64 = match &self.pages.genre {
            Some(genre) => {
                if index < genre.radios.len() {
                    genre.radios[index].id
                } else {
                    return;
                }
            },
            None => {
                return;
            },
        };
        self.start_play_radio(radio_id);
    }

    /// Plays a mood.
    fn play_from_mood(&mut self, index: usize)
        ensures
            final(self)@ == old(self)@.play_from_mood(index),
    {
        proof {
            reveal(DaemonView::play_from_mood);
        }
        if index < self.explore.moods.len() {
            let m: MoodEntry = self.explore.moods[index].clone();
            self.run.flow_active = false;
            let mood: MoodItem = MoodItem {
                id: m.id,
                title: m.title,
                target: m.target,
                radio_id: m.radio_id,
            };
            self.start_play_mood(mood, false);
        }
    }

    /// Begins Flow.
    fn begin_flow(&mut self)
        ensures
            final(self)@ == old(self)@.begin_flow(),
    {
        proof {
            reveal(DaemonView::begin_flow);
        }
        self.run.flow_active = false;
        self.run.active_mood = None;
        self.start_flow();
    }
}

/// A place of the first item that equals `x`.
pub open spec fn is_first(s: Seq<usize>, x: usize, at: int) -> bool {
    &&& 0 <= at < s.len()
    &&& s[at] == x
    &&& forall|k: int| 0 <= k < at ==> s[k] != x
}

/// There is one first place.
proof fn first_place_is_the_only_one(s: Seq<usize>, x: usize, at: int)
    requires
        is_first(s, x, at),
    ensures
        s.index_of_first(x) == Some(at),
{
    s.index_of_first_ensures(x);
}


// ── What every command keeps ────────────────────────────────────────

/// Playing from a list keeps the player well formed.
pub proof fn playing_from_a_list_keeps_wf(
    d: DaemonView,
    rows: Seq<DisplayItemView>,
    tracks: Option<Seq<TrackData>>,
    index: usize,
)
    requires
        d.wf(),
        rows.len() <= usize::MAX,
    ensures
        d.play_from_rows(rows, index).wf(),
        d.play_from_tracks(tracks, index).wf(),
        d.play_from_downloads(tracks, index).wf(),
{
    reveal(DaemonView::play_from_rows);
    reveal(DaemonView::play_from_tracks);
    reveal(DaemonView::play_from_downloads);
    reveal(DaemonView::play_list);
    reveal(DaemonView::play_offline_list);
    if index < rows.len() && rows[index as int].track is Some {
        let track = rows[index as int].track->0;
        let playable = models::playable_of(rows);
        models::playable_has_row(rows, index as int);
        models::playable_is_no_longer(rows);
        seqs::listed_has_a_place(playable, track.track_id@);
        let at = seqs::place_of(playable, track.track_id@) as usize;
        playback::start_play_track_keeps_wf(d.with_queue(playable, at), track);
    }
    if tracks is Some && index < tracks->0.len() {
        playback::start_play_track_keeps_wf(
            d.with_queue(tracks->0, index),
            tracks->0[index as int],
        );
    }
}

/// Shuffling keeps the player well formed.
pub proof fn shuffling_keeps_wf(d: DaemonView, chance: Chance)
    requires
        d.wf(),
        d.fits(),
        d.fav.tracks.len() <= usize::MAX,
    ensures
        d.shuffle_favorites(chance).wf(),
        d.toggle_shuffle(chance.seed).wf(),
{
    reveal(DaemonView::shuffle_favorites);
    reveal(DaemonView::toggle_shuffle);
    queue::shuffle_is_a_full_pass(d.player.queue.len(), d.player.queue_index, chance.seed);
    let len = d.fav.tracks.len();
    if len > 0 {
        let index = (chance.pick as usize % len as usize) as usize;
        queue::shuffle_is_a_full_pass(len, index, chance.seed);
        let q = d.with_queue(d.fav.tracks, index);
        let e = DaemonView {
            player: PlayerStateView { shuffle: true, repeat: RepeatMode::Off, ..q.player },
            ..q
        }.rebuild_shuffle_order(len, index, chance.seed);
        assert(e.wf());
        playback::start_play_track_keeps_wf(e, d.fav.tracks[index as int]);
    }
}

/// Changing the queue keeps the player well formed.
pub proof fn queueing_keeps_wf(d: DaemonView, track: TrackData, index: usize)
    requires
        d.wf(),
    ensures
        d.queue_next(track).wf(),
        d.queue_last(track).wf(),
        d.remove_from_queue(index).wf(),
        d.play_from_queue(index).wf(),
{
    reveal(DaemonView::queue_next);
    reveal(DaemonView::queue_last);
    reveal(DaemonView::remove_from_queue);
    reveal(DaemonView::play_from_queue);
    d.run.shuffle_order.index_of_first_ensures(index);
    let moved = if d.run.shuffle_order.contains(index) {
        d.at_cycle_pos(d.run.shuffle_order.index_of_first(index)->0)
    } else {
        d
    };
    if index < d.player.queue.len() {
        playback::start_play_track_keeps_wf(
            moved.at_queue_index(index),
            d.player.queue[index as int],
        );
    }
}

/// Asking the service for something keeps the player well formed.
pub proof fn loading_keeps_wf(d: DaemonView, id: String, number: u64)
    requires
        d.wf(),
    ensures
        d.start_login(id).wf(),
        d.start_search(id).wf(),
        d.start_load_favorites().wf(),
        d.start_load_favorites_category().wf(),
        d.start_load_playlists().wf(),
        d.start_mix(id).wf(),
        d.start_load_album_detail(id).wf(),
        d.start_load_artist_detail(id).wf(),
        d.start_load_playlist_detail(id).wf(),
        d.start_load_show_detail(id).wf(),
        d.start_load_radios().wf(),
        d.start_load_genres().wf(),
        d.start_load_new_releases().wf(),
        d.start_load_genre_detail(number, id).wf(),
        d.start_play_radio(number).wf(),
        d.start_load_moods().wf(),
{
    reveal(DaemonView::start_login);
    reveal(DaemonView::start_search);
    reveal(DaemonView::start_load_favorites);
    reveal(DaemonView::start_load_favorites_category);
    reveal(DaemonView::start_load_playlists);
    reveal(DaemonView::start_mix);
    reveal(DaemonView::start_load_album_detail);
    reveal(DaemonView::start_load_artist_detail);
    reveal(DaemonView::start_load_playlist_detail);
    reveal(DaemonView::start_load_show_detail);
    reveal(DaemonView::start_load_radios);
    reveal(DaemonView::start_load_genres);
    reveal(DaemonView::start_load_new_releases);
    reveal(DaemonView::start_load_genre_detail);
    reveal(DaemonView::start_play_radio);
    reveal(DaemonView::start_load_moods);
}

/// Moving around keeps the player well formed.
pub proof fn browsing_keeps_wf(d: DaemonView, at: usize, index: int)
    requires
        d.wf(),
    ensures
        d.with_selection(at).wf(),
        d.select(index).wf(),
        d.set_category(index).wf(),
{
    reveal(DaemonView::with_selection);
    reveal(DaemonView::select);
    reveal(DaemonView::set_category);
    reveal(DaemonView::explores);
    reveal(DaemonView::start_search);
    reveal(DaemonView::start_load_favorites_category);
    reveal(DaemonView::start_load_genres);
    reveal(DaemonView::start_load_new_releases);
}

/// Opening what a page lists keeps the player well formed.
pub proof fn opening_keeps_wf(d: DaemonView, index: usize, page: NavOverlay)
    requires
        d.wf(),
    ensures
        d.push_nav(page).wf(),
        d.pop_nav().wf(),
        d.clear_nav().wf(),
        d.open_artist_album(index).wf(),
        d.play_genre_radio(index).wf(),
        d.play_from_mood(index).wf(),
        d.begin_flow().wf(),
{
    reveal(DaemonView::push_nav);
    reveal(DaemonView::pop_nav);
    reveal(DaemonView::clear_nav);
    reveal(DaemonView::open_artist_album);
    reveal(DaemonView::play_genre_radio);
    reveal(DaemonView::play_from_mood);
    reveal(DaemonView::begin_flow);
    reveal(DaemonView::start_load_album_detail);
    reveal(DaemonView::start_play_radio);
    reveal(DaemonView::start_play_mood);
    reveal(DaemonView::start_flow);
}

/// Preferences, favorites and downloads keep the player well formed.
pub proof fn settings_keep_wf(
    d: DaemonView,
    volume: u32,
    quality: AudioQuality,
    id: String,
    track: TrackData,
)
    requires
        d.wf(),
    ensures
        d.set_volume(volume).wf(),
        d.set_quality(quality).wf(),
        d.login(id).wf(),
        d.logout().wf(),
        d.add_favorite(id).wf(),
        d.remove_favorite(id).wf(),
        d.download_track(track).wf(),
        d.download_album(id).wf(),
        d.download_playlist(id).wf(),
{
    reveal(DaemonView::set_volume);
    reveal(DaemonView::set_quality);
    reveal(DaemonView::login);
    reveal(DaemonView::start_login);
    reveal(DaemonView::logout);
    reveal(DaemonView::add_favorite);
    reveal(DaemonView::remove_favorite);
    reveal(DaemonView::download_track);
    reveal(DaemonView::download_album);
    reveal(DaemonView::download_playlist);
}

/// Pausing, seeking and stopping keep the player well formed.
pub proof fn transport_keeps_wf(d: DaemonView, now: u64, target: int)
    requires
        d.wf(),
    ensures
        d.toggle_pause(now).wf(),
        d.stop().wf(),
        d.seek_to(target).wf(),
{
    reveal(DaemonView::toggle_pause);
    reveal(DaemonView::resume_playback);
    reveal(DaemonView::stop);
    reveal(DaemonView::seek_to);
}


impl DaemonView {
    /// The lists that commands play from are as long as lists can be at most.
    pub open spec fn lists_fit(self) -> bool {
        &&& self.fits()
        &&& self.search.display.len() <= usize::MAX
        &&& self.fav.display.len() <= usize::MAX
        &&& self.fav.tracks.len() <= usize::MAX
        &&& self.explore.new_releases.len() <= usize::MAX
    }
}

/// The lists of a player are as long as lists can be at most.
pub proof fn player_lists_fit(d: &Daemon)
    ensures
        d@.lists_fit(),
{
    crate::daemon::player_fits(d);
    assert(d.search.display.len() == d.search.display@.len());
    assert(d.fav.display.len() == d.fav.display@.len());
    assert(d.fav.tracks.len() == d.fav.tracks@.len());
    assert(d.explore.new_releases.len() == d.explore.new_releases@.len());
}

/// Handing out work keeps the player well formed.
proof fn handing_out_keeps_wf(d: DaemonView, e: Effect)
    requires
        d.wf(),
    ensures
        d.hand_out(e).wf(),
{
    reveal(DaemonView::hand_out);
}

/// The small steps keep the player well formed.
proof fn small_steps_keep_wf(d: DaemonView, id: String, tab: ActiveTab, index: usize)
    requires
        d.wf(),
    ensures
        d.search_for(id).wf(),
        d.cycle_repeat().wf(),
        d.show_tab(tab).wf(),
        d.select_up().wf(),
        d.remove_offline_track(id@).wf(),
        d.remove_offline_album(id@).wf(),
        d.remove_offline_playlist(id@).wf(),
        d.play_from_radio(index).wf(),
{
    reveal(DaemonView::search_for);
    reveal(DaemonView::start_search);
    reveal(DaemonView::cycle_repeat);
    reveal(DaemonView::show_tab);
    reveal(DaemonView::select_up);
    reveal(DaemonView::with_selection);
    reveal(DaemonView::remove_offline_track);
    reveal(DaemonView::remove_offline_album);
    reveal(DaemonView::remove_offline_playlist);
    reveal(DaemonView::play_from_radio);
    reveal(DaemonView::start_play_radio);
}

/// A command about favorites, playlists and downloads keeps the player well formed.
proof fn library_command_keeps_wf(d: DaemonView, cmd: Command, now: u64, chance: Chance)
    requires
        d.wf(),
        d.lists_fit(),
    ensures
        d.library_command(cmd, now, chance).wf(),
{
    reveal(DaemonView::library_command);
    match cmd {
        Command::AddFavorite { track_id } => {
            settings_keep_wf(d, 0, d.config.quality, track_id, arbitrary());
        },
        Command::RemoveFavorite { track_id } => {
            settings_keep_wf(d, 0, d.config.quality, track_id, arbitrary());
        },
        Command::AddFavoriteArtist { artist_id } => {
            handing_out_keeps_wf(d, Effect::AddFavoriteArtist { artist_id });
        },
        Command::RemoveFavoriteArtist { artist_id } => {
            handing_out_keeps_wf(d, Effect::RemoveFavoriteArtist { artist_id });
        },
        Command::AddFavoriteAlbum { album_id } => {
            handing_out_keeps_wf(d, Effect::AddFavoriteAlbum { album_id });
        },
        Command::RemoveFavoriteAlbum { album_id } => {
            handing_out_keeps_wf(d, Effect::RemoveFavoriteAlbum { album_id });
        },
        Command::AddToPlaylist { playlist_id, track_id } => {
            handing_out_keeps_wf(d, Effect::AddToPlaylist { playlist_id, track_id });
        },
        Command::RemoveFromPlaylist { playlist_id, track_id } => {
            handing_out_keeps_wf(d, Effect::RemoveFromPlaylist { playlist_id, track_id });
        },
        Command::CreatePlaylistAndAdd { title, track_id } => {
            handing_out_keeps_wf(d, Effect::CreatePlaylistAndAdd { title, track_id });
        },
        Command::RenamePlaylist { playlist_id, new_title } => {
            handing_out_keeps_wf(d, Effect::RenamePlaylist { playlist_id, new_title });
        },
        Command::DeletePlaylist { playlist_id } => {
            handing_out_keeps_wf(d, Effect::DeletePlaylist { playlist_id });
        },
        Command::DislikeTrack { track_id } => {
            handing_out_keeps_wf(d, Effect::DislikeTrack { track_id });
        },
        Command::DownloadOffline { track } => {
            settings_keep_wf(d, 0, d.config.quality, arbitrary(), track);
        },
        Command::DownloadAlbumOffline { album_id } => {
            settings_keep_wf(d, 0, d.config.quality, album_id, arbitrary());
        },
        Command::DownloadPlaylistOffline { playlist_id } => {
            settings_keep_wf(d, 0, d.config.quality, playlist_id, arbitrary());
        },
        Command::RemoveOfflineTrack { track_id } => {
            small_steps_keep_wf(d, track_id, d.active_tab, 0);
        },
        Command::RemoveOfflineAlbum { album_id } => {
            small_steps_keep_wf(d, album_id, d.active_tab, 0);
        },
        Command::RemoveOfflinePlaylist { playlist_id } => {
            small_steps_keep_wf(d, playlist_id, d.active_tab, 0);
        },
        _ => {},
    }
}

/// A command that asks the service for something keeps the player well formed.
proof fn loading_command_keeps_wf(d: DaemonView, cmd: Command, now: u64, chance: Chance)
    requires
        d.wf(),
        d.lists_fit(),
    ensures
        d.loading_command(cmd, now, chance).wf(),
{
    reveal(DaemonView::loading_command);
    match cmd {
        Command::Search { query } => {
            small_steps_keep_wf(d, query, d.active_tab, 0);
        },
        Command::LoadFavorites => {
            loading_keeps_wf(d, arbitrary(), 0);
        },
        Command::RequestPlaylists => {
            loading_keeps_wf(d, arbitrary(), 0);
        },
        Command::StartMix { track_id } => {
            loading_keeps_wf(d, track_id, 0);
        },
        Command::StartFlow => {
            opening_keeps_wf(d, 0, arbitrary());
        },
        Command::GetAlbumDetail { album_id } => {
            loading_keeps_wf(d, album_id, 0);
        },
        Command::GetArtistDetail { artist_id } => {
            loading_keeps_wf(d, artist_id, 0);
        },
        Command::GetPlaylistDetail { playlist_id } => {
            loading_keeps_wf(d, playlist_id, 0);
        },
        Command::GetShowDetail { show_id } => {
            loading_keeps_wf(d, show_id, 0);
        },
        Command::GetGenreDetail { genre_id, name } => {
            loading_keeps_wf(d, name, genre_id);
        },
        Command::LoadRadios => {
            loading_keeps_wf(d, arbitrary(), 0);
        },
        Command::LoadMoods => {
            loading_keeps_wf(d, arbitrary(), 0);
        },
        Command::LoadGenres => {
            loading_keeps_wf(d, arbitrary(), 0);
        },
        Command::PlayFromRadio { index } => {
            small_steps_keep_wf(d, arbitrary(), d.active_tab, index);
        },
        Command::PlayFromMood { index } => {
            opening_keeps_wf(d, index, arbitrary());
        },
        Command::PlayFromGenreRadio { index } => {
            opening_keeps_wf(d, index, arbitrary());
        },
        _ => { library_command_keeps_wf(d, cmd, now, chance); },
    }
}

/// A command about tabs, cursors and pages keeps the player well formed.
proof fn browsing_command_keeps_wf(d: DaemonView, cmd: Command, now: u64, chance: Chance)
    requires
        d.wf(),
        d.lists_fit(),
    ensures
        d.browsing_command(cmd, now, chance).wf(),
{
    reveal(DaemonView::browsing_command);
    match cmd {
        Command::SelectUp => {
            small_steps_keep_wf(d, arbitrary(), d.active_tab, 0);
        },
        Command::SelectDown => {
            browsing_keeps_wf(d, 0, d.selection() + 1);
        },
        Command::SelectIndex { index } => {
            browsing_keeps_wf(d, 0, index as int);
        },
        Command::NextTab => {
            small_steps_keep_wf(d, arbitrary(), ActiveTab::nth(d.active_tab.place() + 1), 0);
        },
        Command::PrevTab => {
            small_steps_keep_wf(d, arbitrary(), ActiveTab::nth(d.active_tab.place() + 3), 0);
        },
        Command::SetTab { tab } => {
            small_steps_keep_wf(d, arbitrary(), tab, 0);
        },
        Command::NextCategory => {
            browsing_keeps_wf(d, 0, (d.category_place() + 1) % d.category_count());
        },
        Command::PrevCategory => {
            browsing_keeps_wf(d, 0, (d.category_place() + d.category_count() - 1) % d.category_count());
        },
        Command::SetCategory { index } => {
            browsing_keeps_wf(d, 0, index as int);
        },
        Command::OpenArtistAlbum { index } => {
            opening_keeps_wf(d, index, arbitrary());
        },
        Command::PushNavOverlay(page) => {
            opening_keeps_wf(d, 0, page);
        },
        Command::PopNavOverlay => {
            opening_keeps_wf(d, 0, arbitrary());
        },
        Command::ClearNavOverlayStack => {
            opening_keeps_wf(d, 0, arbitrary());
        },
        _ => { loading_command_keeps_wf(d, cmd, now, chance); },
    }
}

/// A command about lists and the queue keeps the player well formed.
proof fn playing_command_keeps_wf(d: DaemonView, cmd: Command, now: u64, chance: Chance)
    requires
        d.wf(),
        d.lists_fit(),
    ensures
        d.playing_command(cmd, now, chance).wf(),
{
    reveal(DaemonView::playing_command);
    match cmd {
        Command::PlayFromSearch { index } => {
            playing_from_a_list_keeps_wf(d, d.search.display, None, index);
        },
        Command::PlayFromNewReleases { index } => {
            playing_from_a_list_keeps_wf(d, d.explore.new_releases, None, index);
        },
        Command::PlayFromFavorites { index } => {
            playing_from_a_list_keeps_wf(d, d.fav.display, None, index);
        },
        Command::ShuffleFavorites => {
            shuffling_keeps_wf(d, chance);
        },
        Command::PlayNext { track } => {
            queueing_keeps_wf(d, track, 0);
        },
        Command::AddToQueue { track } => {
            queueing_keeps_wf(d, track, 0);
        },
        Command::PlayFromQueue { index } => {
            queueing_keeps_wf(d, arbitrary(), index);
        },
        Command::RemoveFromQueue { index } => {
            queueing_keeps_wf(d, arbitrary(), index);
        },
        Command::PlayFromAlbum { index } => {
            playing_from_a_list_keeps_wf(d, Seq::empty(), d.album_tracks(), index);
        },
        Command::PlayFromArtist { index } => {
            playing_from_a_list_keeps_wf(d, Seq::empty(), d.artist_tracks(), index);
        },
        Command::PlayFromPlaylist { index } => {
            playing_from_a_list_keeps_wf(d, Seq::empty(), d.playlist_tracks(), index);
        },
        Command::PlayFromGenreTrack { index } => {
            playing_from_a_list_keeps_wf(d, Seq::empty(), d.genre_tracks(), index);
        },
        Command::PlayFromOffline { index } => {
            playing_from_a_list_keeps_wf(d, Seq::empty(), Some(storage::plain_tracks(d.offline.index.standalone())), index);
        },
        Command::PlayOfflineAlbum { album_id, track_index } => {
            playing_from_a_list_keeps_wf(d, Seq::empty(), d.offline_album_tracks(album_id@), track_index);
        },
        Command::PlayOfflinePlaylist { playlist_id, track_index } => {
            playing_from_a_list_keeps_wf(d, Seq::empty(), d.offline_playlist_tracks(playlist_id@), track_index);
        },
        _ => { browsing_command_keeps_wf(d, cmd, now, chance); },
    }
}

/// Every command keeps the player well formed, whatever the time and the random
/// numbers are.
pub proof fn command_keeps_wf(d: DaemonView, cmd: Command, now: u64, chance: Chance)
    requires
        d.wf(),
        d.lists_fit(),
    ensures
        d.command(cmd, now, chance).wf(),
{
    reveal(DaemonView::command);
    match cmd {
        Command::GetSnapshot => {},
        Command::Shutdown => {},
        Command::Login { arl } => {
            settings_keep_wf(d, 0, d.config.quality, arl, arbitrary());
        },
        Command::Logout => {
            settings_keep_wf(d, 0, d.config.quality, arbitrary(), arbitrary());
        },
        Command::TogglePause => {
            transport_keeps_wf(d, now, 0);
        },
        Command::NextTrack => {
            playback::play_next_keeps_wf(d, now, chance.seed);
        },
        Command::PrevTrack => {
            playback::play_prev_keeps_wf(d, now, chance.seed);
        },
        Command::Stop => {
            transport_keeps_wf(d, now, 0);
        },
        Command::SetVolume { volume } => {
            settings_keep_wf(d, volume, d.config.quality, arbitrary(), arbitrary());
        },
        Command::SetQuality { quality } => {
            settings_keep_wf(d, 0, quality, arbitrary(), arbitrary());
        },
        Command::SeekForward { secs } => {
            transport_keeps_wf(d, now, d.player.position_secs + secs);
        },
        Command::SeekBackward { secs } => {
            transport_keeps_wf(d, now, d.player.position_secs - secs);
        },
        Command::SeekAbsolute { secs } => {
            transport_keeps_wf(d, now, secs as int);
        },
        Command::ToggleShuffle => {
            shuffling_keeps_wf(d, chance);
        },
        Command::CycleRepeat => {
            small_steps_keep_wf(d, arbitrary(), d.active_tab, 0);
        },
        _ => { playing_command_keeps_wf(d, cmd, now, chance); },
    }
}

impl Daemon {
    /// The open artist page's tracks.
    fn artist_tracks(&self) -> (r: Option<Vec<TrackData>>)
        ensures
            seqs::opt_view(r) == self@.artist_tracks(),
    {
        match &self.pages.artist {
            Some(page) => Some(page.top_tracks.clone()),
            None => None,
        }
    }

    /// The open album page's tracks.
    fn album_tracks(&self) -> (r: Option<Vec<TrackData>>)
        ensures
            seqs::opt_view(r) == self@.album_tracks(),
    {
        match &self.pages.album {
            Some(page) => Some(page.tracks.clone()),
            None => None,
        }
    }

    /// The open playlist page's tracks.
    fn playlist_tracks(&self) -> (r: Option<Vec<TrackData>>)
        ensures
            seqs::opt_view(r) == self@.playlist_tracks(),
    {
        match &self.pages.playlist {
            Some(page) => Some(page.tracks.clone()),
            None => None,
        }
    }

    /// The open genre page's tracks.
    fn genre_tracks(&self) -> (r: Option<Vec<TrackData>>)
        ensures
            seqs::opt_view(r) == self@.genre_tracks(),
    {
        match &self.pages.genre {
            Some(page) => Some(page.tracks.clone()),
            None => None,
        }
    }

    /// Begins a search and remembers it.
    fn search_for(&mut self, query: String)
        ensures
            final(self)@ == old(self)@.search_for(query),
    {
        proof {
            reveal(DaemonView::search_for);
        }
        self.search.last_query = query.clone();
        self.start_search(query);
    }

    /// Goes to the next repeat mode.
    fn cycle_repeat(&mut self)
        ensures
            final(self)@ == old(self)@.cycle_repeat(),
    {
        proof {
            reveal(DaemonView::cycle_repeat);
        }
        self.player.repeat = self.player.repeat.next();
    }

    /// Shows another tab.
    fn show_tab(&mut self, tab: ActiveTab)
        ensures
            final(self)@ == old(self)@.show_tab(tab),
    {
        proof {
            reveal(DaemonView::show_tab);
        }
        self.active_tab = tab;
    }

    /// Moves the cursor one item up.
    fn select_up(&mut self)
        ensures
            final(self)@ == old(self)@.select_up(),
    {
        proof {
            reveal(DaemonView::select_up);
        }
        let at: usize = self.selection();
        let up: usize = if at == 0 {
            0
        } else {
            at - 1
        };
        self.set_selection(up);
    }

    /// Hands out work and changes nothing else.
    fn hand_out(&mut self, e: Effect)
        ensures
            final(self)@ == old(self)@.hand_out(e),
    {
        proof {
            reveal(DaemonView::hand_out);
        }
        self.send(e);
    }

    /// Drops a downloaded track.
    fn remove_offline_track(&mut self, track_id: &str)
        ensures
            final(self)@ == old(self)@.remove_offline_track(track_id@),
    {
        proof {
            reveal(DaemonView::remove_offline_track);
        }
        self.offline.index.remove_track(track_id);
        self.send(Effect::SaveOfflineIndex);
        self.tell(NoticeKind::RemovedOffline);
    }

    /// Drops a downloaded album.
    fn remove_offline_album(&mut self, album_id: &str)
        ensures
            final(self)@ == old(self)@.remove_offline_album(album_id@),
    {
        proof {
            reveal(DaemonView::remove_offline_album);
        }
        self.offline.index.remove_album(album_id);
        self.send(Effect::SaveOfflineIndex);
        self.tell(NoticeKind::RemovedOffline);
    }

    /// Drops a downloaded playlist.
    fn remove_offline_playlist(&mut self, playlist_id: &str)
        ensures
            final(self)@ == old(self)@.remove_offline_playlist(playlist_id@),
    {
        proof {
            reveal(DaemonView::remove_offline_playlist);
        }
        self.offline.index.remove_playlist(playlist_id);
        self.send(Effect::SaveOfflineIndex);
        self.tell(NoticeKind::RemovedOffline);
    }

    /// Plays a station.
    fn play_from_radio(&mut self, index: usize)
        ensures
            final(self)@ == old(self)@.play_from_radio(index),
    {
        proof {
            reveal(DaemonView::play_from_radio);
        }
        if index < self.explore.radios.len() {
            let radio_id: u64 = self.explore.radios[index].id;
            self.start_play_radio(radio_id);
        }
    }

    /// Closes every detail page.
    fn clear_nav(&mut self)
        ensures
            final(self)@ == old(self)@.clear_nav(),
    {
        proof {
            reveal(DaemonView::clear_nav);
        }
        self.pages.top = None;
        self.pages.below = Vec::new();
    }

    /// Does what a command about favorites, playlists and downloads asks for.
    fn handle_library_command(&mut self, cmd: Command, now: u64, chance: Chance)
        requires
            old(self)@.wf(),
        ensures
            final(self)@ == old(self)@.library_command(cmd, now, chance),
    {
        proof {
            reveal(DaemonView::library_command);
        }
        match cmd {
            Command::AddFavorite { track_id } => {
                self.add_favorite(track_id);
            },
            Command::RemoveFavorite { track_id } => {
                self.remove_favorite(track_id);
            },
            Command::AddFavoriteArtist { artist_id } => {
                self.hand_out(Effect::AddFavoriteArtist { artist_id });
            },
            Command::RemoveFavoriteArtist { artist_id } => {
                self.hand_out(Effect::RemoveFavoriteArtist { artist_id });
            },
            Command::AddFavoriteAlbum { album_id } => {
                self.hand_out(Effect::AddFavoriteAlbum { album_id });
            },
            Command::RemoveFavoriteAlbum { album_id } => {
                self.hand_out(Effect::RemoveFavoriteAlbum { album_id });
            },
            Command::AddToPlaylist { playlist_id, track_id } => {
                self.hand_out(Effect::AddToPlaylist { playlist_id, track_id });
            },
            Command::RemoveFromPlaylist { playlist_id, track_id } => {
                self.hand_out(Effect::RemoveFromPlaylist { playlist_id, track_id });
            },
            Command::CreatePlaylistAndAdd { title, track_id } => {
                self.hand_out(Effect::CreatePlaylistAndAdd { title, track_id });
            },
            Command::RenamePlaylist { playlist_id, new_title } => {
                self.hand_out(Effect::RenamePlaylist { playlist_id, new_title });
            },
            Command::DeletePlaylist { playlist_id } => {
                self.hand_out(Effect::DeletePlaylist { playlist_id });
            },
            Command::DislikeTrack { track_id } => {
                self.hand_out(Effect::DislikeTrack { track_id });
            },
            Command::DownloadOffline { track } => {
                self.download_track(track);
            },
            Command::DownloadAlbumOffline { album_id } => {
                self.download_album(album_id);
            },
            Command::DownloadPlaylistOffline { playlist_id } => {
                self.download_playlist(playlist_id);
            },
            Command::RemoveOfflineTrack { track_id } => {
                self.remove_offline_track(&track_id);
            },
            Command::RemoveOfflineAlbum { album_id } => {
                self.remove_offline_album(&album_id);
            },
            Command::RemoveOfflinePlaylist { playlist_id } => {
                self.remove_offline_playlist(&playlist_id);
            },
            _ => {},
        }
    }

    /// Does what a command that asks the service for something asks for.
    fn handle_loading_command(&mut self, cmd: Command, now: u64, chance: Chance)
        requires
            old(self)@.wf(),
        ensures
            final(self)@ == old(self)@.loading_command(cmd, now, chance),
    {
        proof {
            reveal(DaemonView::loading_command);
        }
        match cmd {
            Command::Search { query } => {
                self.search_for(query);
            },
            Command::LoadFavorites => {
                self.start_load_favorites();
            },
            Command::RequestPlaylists => {
                self.start_load_playlists();
            },
            Command::StartMix { track_id } => {
                self.start_mix(track_id);
            },
            Command::StartFlow => {
                self.begin_flow();
            },
            Command::GetAlbumDetail { album_id } => {
                self.start_load_album_detail(album_id);
            },
            Command::GetArtistDetail { artist_id } => {
                self.start_load_artist_detail(artist_id);
            },
            Command::GetPlaylistDetail { playlist_id } => {
                self.start_load_playlist_detail(playlist_id);
            },
            Command::GetShowDetail { show_id } => {
                self.start_load_show_detail(show_id);
            },
            Command::GetGenreDetail { genre_id, name } => {
                self.start_load_genre_detail(genre_id, name);
            },
            Command::LoadRadios => {
                self.start_load_radios();
            },
            Command::LoadMoods => {
                self.start_load_moods();
            },
            Command::LoadGenres => {
                self.start_load_genres();
            },
            Command::PlayFromRadio { index } => {
                self.play_from_radio(index);
            },
            Command::PlayFromMood { index } => {
                self.play_from_mood(index);
            },
            Command::PlayFromGenreRadio { index } => {
                self.play_genre_radio(index);
            },
            other => {
                self.handle_library_command(other, now, chance);
            },
        }
    }

    /// Does what a command about tabs, cursors and pages asks for.
    fn handle_browsing_command(&mut self, cmd: Command, now: u64, chance: Chance)
        requires
            old(self)@.wf(),
        ensures
            final(self)@ == old(self)@.browsing_command(cmd, now, chance),
    {
        proof {
            reveal(DaemonView::browsing_command);
        }
        match cmd {
            Command::SelectUp => {
                self.select_up();
            },
            Command::SelectDown => {
                self.select_down();
            },
            Command::SelectIndex { index } => {
                self.select_index(index);
            },
            Command::NextTab => {
                let tab: ActiveTab = self.active_tab.next();
                self.show_tab(tab);
            },
            Command::PrevTab => {
                let tab: ActiveTab = self.active_tab.prev();
                self.show_tab(tab);
            },
            Command::SetTab { tab } => {
                self.show_tab(tab);
            },
            Command::NextCategory => {
                let (place, count) = self.category_position();
                self.set_category_index((place + 1) % count);
            },
            Command::PrevCategory => {
                let (place, count) = self.category_position();
                self.set_category_index((place + count - 1) % count);
            },
            Command::SetCategory { index } => {
                self.set_category_index(index);
            },
            Command::OpenArtistAlbum { index } => {
                self.open_artist_album(index);
            },
            Command::PushNavOverlay(page) => {
                self.push_nav(page);
            },
            Command::PopNavOverlay => {
                self.pop_nav();
            },
            Command::ClearNavOverlayStack => {
                self.clear_nav();
            },
            other => {
                self.handle_loading_command(other, now, chance);
            },
        }
    }

    /// Does what a command about lists and the queue asks for.
    fn handle_playing_command(&mut self, cmd: Command, now: u64, chance: Chance)
        requires
            old(self)@.wf(),
        ensures
            final(self)@ == old(self)@.playing_command(cmd, now, chance),
    {
        proof {
            reveal(DaemonView::playing_command);
        }
        match cmd {
            Command::PlayFromSearch { index } => {
                let rows: Vec<DisplayItem> = self.search.display.clone();
                self.play_from_rows(rows, index);
            },
            Command::PlayFromNewReleases { index } => {
                let rows: Vec<DisplayItem> = self.explore.new_releases.clone();
                self.play_from_rows(rows, index);
            },
            Command::PlayFromFavorites { index } => {
                let rows: Vec<DisplayItem> = self.fav.display.clone();
                self.play_from_rows(rows, index);
            },
            Command::ShuffleFavorites => {
                self.shuffle_favorites(chance);
            },
            Command::PlayNext { track } => {
                self.queue_next(track);
            },
            Command::AddToQueue { track } => {
                self.queue_last(track);
            },
            Command::PlayFromQueue { index } => {
                self.play_from_queue(index);
            },
            Command::RemoveFromQueue { index } => {
                self.remove_from_queue(index);
            },
            Command::PlayFromAlbum { index } => {
                let tracks: Option<Vec<TrackData>> = self.album_tracks();
                self.play_from_tracks(tracks, index);
            },
            Command::PlayFromArtist { index } => {
                let tracks: Option<Vec<TrackData>> = self.artist_tracks();
                self.play_from_tracks(tracks, index);
            },
            Command::PlayFromPlaylist { index } => {
                let tracks: Option<Vec<TrackData>> = self.playlist_tracks();
                self.play_from_tracks(tracks, index);
            },
            Command::PlayFromGenreTrack { index } => {
                let tracks: Option<Vec<TrackData>> = self.genre_tracks();
                self.play_from_tracks(tracks, index);
            },
            Command::PlayFromOffline { index } => {
                let tracks: Vec<TrackData> = self.offline.index.standalone_queue();
                self.play_from_downloads(Some(tracks), index);
            },
            Command::PlayOfflineAlbum { album_id, track_index } => {
                let tracks: Option<Vec<TrackData>> = self.offline.index.album_tracks(&album_id);
                self.play_from_downloads(tracks, track_index);
            },
            Command::PlayOfflinePlaylist { playlist_id, track_index } => {
                let tracks: Option<Vec<TrackData>> = self.offline.index.playlist_tracks(
                &playlist_id,
                );
                self.play_from_downloads(tracks, track_index);
            },
            other => {
                self.handle_browsing_command(other, now, chance);
            },
        }
    }

    /// Does what a command asks for.
    pub fn handle_command(&mut self, cmd: Command, now: u64, chance: Chance)
        requires
            old(self)@.wf(),
        ensures
            final(self)@ == old(self)@.command(cmd, now, chance),
            final(self)@.wf(),
    {
        proof {
            player_lists_fit(self);
            command_keeps_wf(self@, cmd, now, chance);
            reveal(DaemonView::command);
        }
        match cmd {
            Command::GetSnapshot => {},
            Command::Shutdown => {},
            Command::Login { arl } => {
                self.login(arl);
            },
            Command::Logout => {
                self.logout();
            },
            Command::TogglePause => {
                self.toggle_pause(now);
            },
            Command::NextTrack => {
                self.play_next(now, chance.seed);
            },
            Command::PrevTrack => {
                self.play_prev(now, chance.seed);
            },
            Command::Stop => {
                self.stop();
            },
            Command::SetVolume { volume } => {
                self.set_volume(volume);
            },
            Command::SetQuality { quality } => {
                self.set_quality(quality);
            },
            Command::SeekForward { secs } => {
                self.seek_forward(secs);
            },
            Command::SeekBackward { secs } => {
                self.seek_backward(secs);
            },
            Command::SeekAbsolute { secs } => {
                self.seek_absolute(secs);
            },
            Command::ToggleShuffle => {
                self.toggle_shuffle(chance.seed);
            },
            Command::CycleRepeat => {
                self.cycle_repeat();
            },
            other => {
                self.handle_playing_command(other, now, chance);
            },
        }
    }
}

} // verus!
