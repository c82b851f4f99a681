//! Asking the service for lists and pages.

use vstd::prelude::*;

use crate::daemon::{
    Daemon, DaemonView, Effect, ExploreView, FavoritesView, LoginView, PagesView, RunView,
    SearchView,
};
use crate::models;
use crate::models::{track_rows, ArtistSubTab, DisplayItem, MoodItem, TrackData};
use crate::notice::{Notice, NoticeKind, NoticeView};
use crate::protocol::{FavoritesCategory, SearchCategory};
use crate::storage;
use crate::storage::lookup_playlist;

verus! {

impl DaemonView {
    /// A login begins.
    #[verifier::opaque]
    pub open spec fn start_login(self, arl: String) -> DaemonView {
        DaemonView {
            login: LoginView { loading: true, error: None, ..self.login },
            ..self
        }.send(Effect::Login { arl })
    }

    /// The decryption key is asked for.
    #[verifier::opaque]
    pub open spec fn start_fetch_master_key(self) -> DaemonView {
        self.tell(NoticeKind::FetchingKey).send(Effect::FetchMasterKey)
    }

    /// A search begins, in the category that is chosen.
    #[verifier::opaque]
    pub open spec fn start_search(self, query: String) -> DaemonView {
        if self.is_offline {
            self.tell(NoticeKind::NoInternet)
        } else {
            DaemonView { search: SearchView { loading: true, ..self.search }, ..self }.send(
                if self.search.category == SearchCategory::Track {
                    Effect::SearchTracks { query }
                } else {
                    Effect::SearchIn { query, category: self.search.category }
                },
            )
        }
    }

    /// The favorite tracks are asked for.
    #[verifier::opaque]
    pub open spec fn start_load_favorites(self) -> DaemonView {
        if self.is_offline {
            self.tell(NoticeKind::NoInternet)
        } else {
            DaemonView { fav: FavoritesView { loading: true, ..self.fav }, ..self }.send(
                Effect::LoadFavorites { category: FavoritesCategory::Tracks },
            )
        }
    }

    /// The rows that the cache holds for a favorites category. Recently played
    /// tracks are never cached: they change with every play.
    pub open spec fn cached_rows(self, category: FavoritesCategory) -> Option<
        Seq<models::DisplayItemView>,
    > {
        match category {
            FavoritesCategory::Tracks => match self.fav.cache.tracks {
                Some(tracks) => Some(models::rows_of_tracks(tracks)),
                None => None,
            },
            FavoritesCategory::Artists => self.fav.cache.artists,
            FavoritesCategory::Albums => self.fav.cache.albums,
            FavoritesCategory::Playlists => self.fav.cache.playlists,
            FavoritesCategory::Following => self.fav.cache.following,
            FavoritesCategory::RecentlyPlayed => None,
        }
    }

    /// The chosen favorites category is shown from the cache, or asked for.
    #[verifier::opaque]
    pub open spec fn start_load_favorites_category(self) -> DaemonView {
        if self.is_offline {
            self.tell(NoticeKind::NoInternet)
        } else {
            match self.cached_rows(self.fav.category) {
                Some(rows) => DaemonView {
                    fav: FavoritesView {
                        display: rows,
                        tracks: if self.fav.category == FavoritesCategory::Tracks {
                            self.fav.cache.tracks->0
                        } else {
                            Seq::empty()
                        },
                        selected: 0,
                        loading: false,
                        ..self.fav
                    },
                    ..self
                },
                None => DaemonView {
                    fav: FavoritesView { loading: true, ..self.fav },
                    ..self
                }.send(Effect::LoadFavorites { category: self.fav.category }),
            }
        }
    }

    /// The ids of the favorites are asked for.
    #[verifier::opaque]
    pub open spec fn start_load_favorite_ids(self) -> DaemonView {
        if self.is_offline {
            self
        } else {
            self.send(Effect::LoadFavoriteIds)
        }
    }

    /// The user's playlists are asked for.
    #[verifier::opaque]
    pub open spec fn start_load_playlists(self) -> DaemonView {
        if self.is_offline {
            self
        } else {
            self.send(Effect::LoadPlaylists)
        }
    }

    /// A mix is asked for.
    #[verifier::opaque]
    pub open spec fn start_mix(self, track_id: String) -> DaemonView {
        self.tell(NoticeKind::LoadingMix).send(Effect::LoadMix { track_id })
    }

    /// More Flow tracks are asked for.
    #[verifier::opaque]
    pub open spec fn start_flow(self) -> DaemonView {
        self.tell(NoticeKind::LoadingFlow).send(Effect::LoadFlow)
    }

    /// An album's page is asked for.
    #[verifier::opaque]
    pub open spec fn start_load_album_detail(self, album_id: String) -> DaemonView {
        if self.is_offline {
            self.tell(NoticeKind::NoInternet)
        } else {
            DaemonView {
                pages: PagesView {
                    album: None,
                    album_selected: 0,
                    album_loading: true,
                    ..self.pages
                },
                ..self
            }.tell(NoticeKind::LoadingAlbum).send(Effect::LoadAlbum { album_id })
        }
    }

    /// An artist's page is asked for.
    #[verifier::opaque]
    pub open spec fn start_load_artist_detail(self, artist_id: String) -> DaemonView {
        if self.is_offline {
            self.tell(NoticeKind::NoInternet)
        } else {
            DaemonView {
                pages: PagesView {
                    artist: None,
                    artist_selected: 0,
                    artist_loading: true,
                    artist_sub_tab: ArtistSubTab::TopTracks,
                    ..self.pages
                },
                ..self
            }.tell(NoticeKind::LoadingArtist).send(Effect::LoadArtist { artist_id })
        }
    }

    /// A playlist's page is shown from the cache, if it is there, and asked for
    /// in either case: a cached page is refreshed in the background.
    #[verifier::opaque]
    pub open spec fn start_load_playlist_detail(self, playlist_id: String) -> DaemonView {
        if self.is_offline {
            self.tell(NoticeKind::NoInternet)
        } else {
            match storage::find_playlist(self.fav.cache.playlist_details, playlist_id@) {
                Some(cached) => DaemonView {
                    pages: PagesView {
                        playlist: Some(cached),
                        playlist_selected: 0,
                        playlist_loading: false,
                        ..self.pages
                    },
                    ..self
                }.notify(
                    NoticeView {
                        kind: NoticeKind::PlaylistTracks,
                        detail: cached.title@,
                        count: cached.tracks.len(),
                    },
                ).send(Effect::LoadPlaylist { playlist_id, background: true }),
                None => DaemonView {
                    pages: PagesView {
                        playlist: None,
                        playlist_selected: 0,
                        playlist_loading: true,
                        ..self.pages
                    },
                    ..self
                }.tell(NoticeKind::LoadingPlaylist).send(
                    Effect::LoadPlaylist { playlist_id, background: false },
                ),
            }
        }
    }

    /// A podcast show's episodes are asked for, in the place of a playlist's
    /// tracks.
    #[verifier::opaque]
    pub open spec fn start_load_show_detail(self, show_id: String) -> DaemonView {
        if self.is_offline {
            self.tell(NoticeKind::NoInternet)
        } else {
            DaemonView {
                pages: PagesView {
                    playlist: None,
                    playlist_selected: 0,
                    playlist_loading: true,
                    ..self.pages
                },
                ..self
            }.tell(NoticeKind::Loading).send(Effect::LoadShow { show_id })
        }
    }

    /// The stations are asked for.
    #[verifier::opaque]
    pub open spec fn start_load_radios(self) -> DaemonView {
        if self.is_offline {
            self
        } else {
            DaemonView {
                explore: ExploreView { radios_loading: true, ..self.explore },
                ..self
            }.send(Effect::LoadRadios)
        }
    }

    /// The genres are asked for.
    #[verifier::opaque]
    pub open spec fn start_load_genres(self) -> DaemonView {
        if self.is_offline {
            self
        } else {
            DaemonView {
                explore: ExploreView { genres_loading: true, ..self.explore },
                ..self
            }.send(Effect::LoadGenres)
        }
    }

    /// The new releases are asked for.
    #[verifier::opaque]
    pub open spec fn start_load_new_releases(self) -> DaemonView {
        if self.is_offline {
            self
        } else {
            DaemonView {
                explore: ExploreView { new_releases_loading: true, ..self.explore },
                ..self
            }.send(Effect::LoadNewReleases)
        }
    }

    /// A genre's page is asked for.
    #[verifier::opaque]
    pub open spec fn start_load_genre_detail(self, genre_id: u64, name: String) -> DaemonView {
        if self.is_offline {
            self.tell(NoticeKind::NoInternet)
        } else {
            DaemonView {
                pages: PagesView { genre: None, genre_loading: true, ..self.pages },
                ..self
            }.send(Effect::LoadGenre { genre_id, name })
        }
    }

    /// A station's tracks are asked for.
    #[verifier::opaque]
    pub open spec fn start_play_radio(self, radio_id: u64) -> DaemonView {
        if self.is_offline {
            self.tell(NoticeKind::NoInternet)
        } else {
            self.tell(NoticeKind::LoadingRadioTracks).send(Effect::LoadRadioTracks { radio_id })
        }
    }

    /// The moods are asked for, unless they are there already.
    #[verifier::opaque]
    pub open spec fn start_load_moods(self) -> DaemonView {
        if self.is_offline || self.explore.moods.len() > 0 {
            self
        } else {
            DaemonView {
                explore: ExploreView { moods_loading: true, ..self.explore },
                ..self
            }.send(Effect::LoadMoods)
        }
    }

    /// A mood's tracks are asked for. The mood is remembered, so that more of it
    /// is fetched when the queue ends.
    #[verifier::opaque]
    pub open spec fn start_play_mood(self, mood: MoodItem, continuation: bool) -> DaemonView {
        if self.is_offline {
            self.tell(NoticeKind::NoInternet)
        } else {
            DaemonView {
                run: RunView {
                    active_mood: if continuation {
                        self.run.active_mood
                    } else {
                        Some(mood)
                    },
                    ..self.run
                },
                ..self
            }.tell(NoticeKind::LoadingRadioTracks).send(
                Effect::LoadMoodTracks { mood, continuation },
            )
        }
    }
}

impl Daemon {
    /// Begins a login.
    pub fn start_login(&mut self, arl: String)
        ensures
            final(self)@ == old(self)@.start_login(arl),
    {
        proof {
            reveal(DaemonView::start_login);
        }
        self.login.loading = true;
        self.login.error = None;
        self.send(Effect::Login { arl });
    }

    /// Asks for the decryption key.
    pub fn start_fetch_master_key(&mut self)
        ensures
            final(self)@ == old(self)@.start_fetch_master_key(),
    {
        proof {
            reveal(DaemonView::start_fetch_master_key);
        }
        self.tell(NoticeKind::FetchingKey);
        self.send(Effect::FetchMasterKey);
    }

    /// Begins a search.
    pub fn start_search(&mut self, query: String)
        ensures
            final(self)@ == old(self)@.start_search(query),
    {
        proof {
            reveal(DaemonView::start_search);
        }
        if self.is_offline {
            self.tell(NoticeKind::NoInternet);
            return;
        }
        self.search.loading = true;
        if self.search.category == SearchCategory::Track {
            self.send(Effect::SearchTracks { query });
        } else {
            let category: SearchCategory = self.search.category;
            self.send(Effect::SearchIn { query, category });
        }
    }

    /// Asks for the favorite tracks.
    pub fn start_load_favorites(&mut self)
        ensures
            final(self)@ == old(self)@.start_load_favorites(),
    {
        proof {
            reveal(DaemonView::start_load_favorites);
        }
        if self.is_offline {
            self.tell(NoticeKind::NoInternet);
            return;
        }
        self.fav.loading = true;
        self.send(Effect::LoadFavorites { category: FavoritesCategory::Tracks });
    }

    /// The rows of a favorites category that the cache holds, with the tracks of
    /// the track category.
    fn cached_category(&self, category: FavoritesCategory) -> (r: Option<
        (Vec<DisplayItem>, Vec<TrackData>),
    >)
        ensures
            match r {
                Some(c) => self@.cached_rows(category) == Some(models::rows_of(c.0@)) && c.1@ == (
                if category == FavoritesCategory::Tracks {
                    self@.fav.cache.tracks->0
                } else {
                    Seq::empty()
                }),
                None => self@.cached_rows(category) is None,
            },
    {
        let rows: &Option<Vec<DisplayItem>> = match category {
            FavoritesCategory::Tracks => {
                return match &self.fav.cache.tracks {
                    Some(tracks) => Some((track_rows(tracks), tracks.clone())),
                    None => None,
                };
            },
            FavoritesCategory::Artists => &self.fav.cache.artists,
            FavoritesCategory::Albums => &self.fav.cache.albums,
            FavoritesCategory::Playlists => &self.fav.cache.playlists,
            FavoritesCategory::Following => &self.fav.cache.following,
            FavoritesCategory::RecentlyPlayed => {
                return None;
            },
        };
        match rows {
            Some(items) => {
                let copy: Vec<DisplayItem> = items.clone();
                proof {
                    assert(models::rows_of(copy@) =~= models::rows_of(items@));
                }
                Some((copy, Vec::new()))
            },
            None => None,
        }
    }

    /// Shows the chosen favorites category from the cache, or asks for it.
    pub fn start_load_favorites_category(&mut self)
        ensures
            final(self)@ == old(self)@.start_load_favorites_category(),
    {
        proof {
            reveal(DaemonView::start_load_favorites_category);
        }
        if self.is_offline {
            self.tell(NoticeKind::NoInternet);
            return;
        }
        let category: FavoritesCategory = self.fav.category;
        match self.cached_category(category) {
            Some((rows, tracks)) => {
                self.fav.display = rows;
                self.fav.tracks = tracks;
                self.fav.selected = 0;
                self.fav.loading = false;
            },
            None => {
                self.fav.loading = true;
                self.send(Effect::LoadFavorites { category });
            },
        }
    }

    /// Asks for the ids of the favorites.
    pub fn start_load_favorite_ids(&mut self)
        ensures
            final(self)@ == old(self)@.start_load_favorite_ids(),
    {
        proof {
            reveal(DaemonView::start_load_favorite_ids);
        }
        if !self.is_offline {
            self.send(Effect::LoadFavoriteIds);
        }
    }

    /// Asks for the user's playlists.
    pub fn start_load_playlists(&mut self)
        ensures
            final(self)@ == old(self)@.start_load_playlists(),
    {
        proof {
            reveal(DaemonView::start_load_playlists);
        }
        if !self.is_offline {
            self.send(Effect::LoadPlaylists);
        }
    }

    /// Asks for a mix.
    pub fn start_mix(&mut self, track_id: String)
        ensures
            final(self)@ == old(self)@.start_mix(track_id),
    {
        proof {
            reveal(DaemonView::start_mix);
        }
        self.tell(NoticeKind::LoadingMix);
        self.send(Effect::LoadMix { track_id });
    }

    /// Asks for more Flow tracks.
    pub fn start_flow(&mut self)
        ensures
            final(self)@ == old(self)@.start_flow(),
    {
        proof {
            reveal(DaemonView::start_flow);
        }
        self.tell(NoticeKind::LoadingFlow);
        self.send(Effect::LoadFlow);
    }

    /// Asks for an album's page.
    pub fn start_load_album_detail(&mut self, album_id: String)
        ensures
            final(self)@ == old(self)@.start_load_album_detail(album_id),
    {
        proof {
            reveal(DaemonView::start_load_album_detail);
        }
        if self.is_offline {
            self.tell(NoticeKind::NoInternet);
            return;
        }
        self.pages.album_loading = true;
        self.pages.album = None;
        self.pages.album_selected = 0;
        self.tell(NoticeKind::LoadingAlbum);
        self.send(Effect::LoadAlbum { album_id });
    }

    /// Asks for an artist's page.
    pub fn start_load_artist_detail(&mut self, artist_id: String)
        ensures
            final(self)@ == old(self)@.start_load_artist_detail(artist_id),
    {
        proof {
            reveal(DaemonView::start_load_artist_detail);
        }
        if self.is_offline {
            self.tell(NoticeKind::NoInternet);
            return;
        }
        self.pages.artist_loading = true;
        self.pages.artist = None;
        self.pages.artist_selected = 0;
        self.pages.artist_sub_tab = ArtistSubTab::TopTracks;
        self.tell(NoticeKind::LoadingArtist);
        self.send(Effect::LoadArtist { artist_id });
    }

    /// Shows a playlist's page from the cache, if it is there, and asks for it.
    pub fn start_load_playlist_detail(&mut self, playlist_id: String)
        ensures
            final(self)@ == old(self)@.start_load_playlist_detail(playlist_id),
    {
        proof {
            reveal(DaemonView::start_load_playlist_detail);
        }
        if self.is_offline {
            self.tell(NoticeKind::NoInternet);
            return;
        }
        match lookup_playlist(&self.fav.cache.playlist_details, &playlist_id) {
            Some(cached) => {
                let n: usize = cached.tracks.len();
                self.notify(Notice::titled(NoticeKind::PlaylistTracks, cached.title.clone(), n));
                self.pages.playlist = Some(cached);
                self.pages.playlist_selected = 0;
                self.pages.playlist_loading = false;
                self.send(Effect::LoadPlaylist { playlist_id, background: true });
            },
            None => {
                self.pages.playlist_loading = true;
                self.pages.playlist = None;
                self.pages.playlist_selected = 0;
                self.tell(NoticeKind::LoadingPlaylist);
                self.send(Effect::LoadPlaylist { playlist_id, background: false });
            },
        }
    }

    /// Asks for a podcast show's episodes.
    pub fn start_load_show_detail(&mut self, show_id: String)
        ensures
            final(self)@ == old(self)@.start_load_show_detail(show_id),
    {
        proof {
            reveal(DaemonView::start_load_show_detail);
        }
        if self.is_offline {
            self.tell(NoticeKind::NoInternet);
            return;
        }
        self.pages.playlist_loading = true;
        self.pages.playlist = None;
        self.pages.playlist_selected = 0;
        self.tell(NoticeKind::Loading);
        self.send(Effect::LoadShow { show_id });
    }

    /// Asks for the stations.
    pub fn start_load_radios(&mut self)
        ensures
            final(self)@ == old(self)@.start_load_radios(),
    {
        proof {
            reveal(DaemonView::start_load_radios);
        }
        if !self.is_offline {
            self.explore.radios_loading = true;
            self.send(Effect::LoadRadios);
        }
    }

    /// Asks for the genres.
    pub fn start_load_genres(&mut self)
        ensures
            final(self)@ == old(self)@.start_load_genres(),
    {
        proof {
            reveal(DaemonView::start_load_genres);
        }
        if !self.is_offline {
            self.explore.genres_loading = true;
            self.send(Effect::LoadGenres);
        }
    }

    /// Asks for the new releases.
    pub fn start_load_new_releases(&mut self)
        ensures
            final(self)@ == old(self)@.start_load_new_releases(),
    {
        proof {
            reveal(DaemonView::start_load_new_releases);
        }
        if !self.is_offline {
            self.explore.new_releases_loading = true;
            self.send(Effect::LoadNewReleases);
        }
    }

    /// Asks for a genre's page.
    pub fn start_load_genre_detail(&mut self, genre_id: u64, name: String)
        ensures
            final(self)@ == old(self)@.start_load_genre_detail(genre_id, name),
    {
        proof {
            reveal(DaemonView::start_load_genre_detail);
        }
        if self.is_offline {
            self.tell(NoticeKind::NoInternet);
            return;
        }
        self.pages.genre = None;
        self.pages.genre_loading = true;
        self.send(Effect::LoadGenre { genre_id, name });
    }

    /// Asks for a station's tracks.
    pub fn start_play_radio(&mut self, radio_id: u64)
        ensures
            final(self)@ == old(self)@.start_play_radio(radio_id),
    {
        proof {
            reveal(DaemonView::start_play_radio);
        }
        if self.is_offline {
            self.tell(NoticeKind::NoInternet);
            return;
        }
        self.tell(NoticeKind::LoadingRadioTracks);
        self.send(Effect::LoadRadioTracks { radio_id });
    }

    /// Asks for the moods, unless they are there already.
    pub fn start_load_moods(&mut self)
        ensures
            final(self)@ == old(self)@.start_load_moods(),
    {
        proof {
            reveal(DaemonView::start_load_moods);
        }
        if self.is_offline || self.explore.moods.len() > 0 {
            return;
        }
        self.explore.moods_loading = true;
        self.send(Effect::LoadMoods);
    }

    /// Asks for a mood's tracks.
    pub fn start_play_mood(&mut self, mood: MoodItem, continuation: bool)
        ensures
            final(self)@ == old(self)@.start_play_mood(mood, continuation),
    {
        proof {
            reveal(DaemonView::start_play_mood);
        }
        if self.is_offline {
            self.tell(NoticeKind::NoInternet);
            return;
        }
        self.tell(NoticeKind::LoadingRadioTracks);
        if !continuation {
            self.run.active_mood = Some(mood.clone());
        }
        self.send(Effect::LoadMoodTracks { mood, continuation });
    }
}

} // verus!
