//! Questions about what is on screen, text inputs, and taking over what the
//! player sends.

use vstd::prelude::*;

use crate::client;
use crate::client::clicks::{ClickAreas, ClickTarget, Rect, RowsKind};
use crate::client::filters;
use crate::client::filters::{filtered_pairs, filtered_places};
use crate::client::popup::{with_blanks, with_dash};
use crate::client::state::{
    ClientView, FavoritesPaneView, LayersView, OfflinePaneView, PagesView, TabsView, ViewState,
};
use crate::client::{InputMode, KeyCode, Overlay};
use crate::models::{AlbumDetail, DisplayItem, OfflineTrack, PlaylistDetail, TrackData};
use crate::player;
use crate::player::position_of_total;
use crate::protocol::{ActiveTab, DaemonSnapshot, ExploreCategory, OfflineCategory};
use crate::seqs;
use crate::seqs::contains_id;
use crate::text;

verus! {

/// The key goes up: the arrow, or `k` with the vim keys on.
pub open spec fn goes_up(code: KeyCode, vim_keys: bool) -> bool {
    code == KeyCode::Up || (vim_keys && code == KeyCode::Char('k'))
}

/// The key goes down: the arrow, or `j` with the vim keys on.
pub open spec fn goes_down(code: KeyCode, vim_keys: bool) -> bool {
    code == KeyCode::Down || (vim_keys && code == KeyCode::Char('j'))
}

/// The key goes left: the arrow, or `h` with the vim keys on.
pub open spec fn goes_left(code: KeyCode, vim_keys: bool) -> bool {
    code == KeyCode::Left || (vim_keys && code == KeyCode::Char('h'))
}

/// The key goes right: the arrow, or `l` with the vim keys on.
pub open spec fn goes_right(code: KeyCode, vim_keys: bool) -> bool {
    code == KeyCode::Right || (vim_keys && code == KeyCode::Char('l'))
}

/// No key goes two ways.
pub proof fn ways_differ(code: KeyCode, vim_keys: bool)
    ensures
        goes_up(code, vim_keys) ==> !goes_down(code, vim_keys) && !goes_left(code, vim_keys)
            && !goes_right(code, vim_keys),
        goes_down(code, vim_keys) ==> !goes_left(code, vim_keys) && !goes_right(code, vim_keys),
        goes_left(code, vim_keys) ==> !goes_right(code, vim_keys),
{
}

impl ViewState {
    /// Whether the key goes up.
    pub fn is_nav_up(&self, code: KeyCode) -> (r: bool)
        ensures
            r == goes_up(code, self.vim_keys),
    {
        ViewState::nav_up(code, self.vim_keys)
    }

    /// Whether the key goes up.
    pub fn nav_up(code: KeyCode, vim_keys: bool) -> (r: bool)
        ensures
            r == goes_up(code, vim_keys),
    {
        code == KeyCode::Up || (vim_keys && code == KeyCode::Char('k'))
    }

    /// Whether the key goes down.
    pub fn is_nav_down(&self, code: KeyCode) -> (r: bool)
        ensures
            r == goes_down(code, self.vim_keys),
    {
        ViewState::nav_down(code, self.vim_keys)
    }

    /// Whether the key goes down.
    pub fn nav_down(code: KeyCode, vim_keys: bool) -> (r: bool)
        ensures
            r == goes_down(code, vim_keys),
    {
        code == KeyCode::Down || (vim_keys && code == KeyCode::Char('j'))
    }

    /// Whether the key goes left.
    pub fn is_nav_left(&self, code: KeyCode) -> (r: bool)
        ensures
            r == goes_left(code, self.vim_keys),
    {
        ViewState::nav_left(code, self.vim_keys)
    }

    /// Whether the key goes left.
    pub fn nav_left(code: KeyCode, vim_keys: bool) -> (r: bool)
        ensures
            r == goes_left(code, vim_keys),
    {
        code == KeyCode::Left || (vim_keys && code == KeyCode::Char('h'))
    }

    /// Whether the key goes right.
    pub fn is_nav_right(&self, code: KeyCode) -> (r: bool)
        ensures
            r == goes_right(code, self.vim_keys),
    {
        ViewState::nav_right(code, self.vim_keys)
    }

    /// Whether the key goes right.
    pub fn nav_right(code: KeyCode, vim_keys: bool) -> (r: bool)
        ensures
            r == goes_right(code, vim_keys),
    {
        code == KeyCode::Right || (vim_keys && code == KeyCode::Char('l'))
    }
}

/// The items of an offline list that its filter leaves.
pub open spec fn offline_shown(d: DaemonSnapshot, input: Seq<char>) -> Seq<usize> {
    match d.offline_category {
        OfflineCategory::Tracks => filters::left_by(d.offline_tracks@, input),
        OfflineCategory::Albums => filters::left_by(d.offline_albums@, input),
        OfflineCategory::Playlists => filters::left_by(d.offline_playlists@, input),
    }
}

/// How many items the offline list of the active category has.
pub open spec fn offline_count(d: DaemonSnapshot) -> nat {
    match d.offline_category {
        OfflineCategory::Tracks => d.offline_tracks@.len(),
        OfflineCategory::Albums => d.offline_albums@.len(),
        OfflineCategory::Playlists => d.offline_playlists@.len(),
    }
}

/// The tracks of the downloaded album or playlist at this place.
pub open spec fn offline_tracks_at(d: DaemonSnapshot, playlist: bool, index: usize) -> Seq<
    TrackData,
> {
    if playlist {
        if index < d.offline_playlists@.len() {
            d.offline_playlists@[index as int].tracks@
        } else {
            Seq::empty()
        }
    } else if index < d.offline_albums@.len() {
        d.offline_albums@[index as int].tracks@
    } else {
        Seq::empty()
    }
}

/// The tracks of the open playlist.
pub open spec fn playlist_tracks(d: DaemonSnapshot) -> Seq<TrackData> {
    match d.playlist_detail {
        Some(p) => p.tracks@,
        None => Seq::empty(),
    }
}

impl ClientView {
    /// The main lists changed.
    pub open spec fn with_tabs(self, tabs: TabsView) -> ClientView {
        ClientView { tabs, ..self }
    }

    /// The pages changed.
    pub open spec fn with_pages(self, pages: PagesView) -> ClientView {
        ClientView { pages, ..self }
    }

    /// The layers changed.
    pub open spec fn with_layers(self, layers: LayersView) -> ClientView {
        ClientView { layers, ..self }
    }

    /// The favorites' state changed.
    pub open spec fn with_favorites(self, favorites: FavoritesPaneView) -> ClientView {
        ClientView { tabs: TabsView { favorites, ..self.tabs }, ..self }
    }

    /// The downloads' state changed.
    pub open spec fn with_offline(self, offline: OfflinePaneView) -> ClientView {
        ClientView { tabs: TabsView { offline, ..self.tabs }, ..self }
    }

    /// A text input has the focus.
    pub open spec fn text_input(self) -> bool {
        self.input_mode == InputMode::Typing || self.tabs.radios.typing || self.tabs.genres.typing
            || self.tabs.favorites.filter_typing || self.tabs.offline.filter_typing
            || self.tabs.offline.detail_filter_typing || self.pages.playlist_filter_typing
    }

    /// The places of the open playlist's tracks that its filter leaves.
    pub open spec fn playlist_places(self) -> Seq<usize> {
        filters::left_by(playlist_tracks(self.data), self.pages.playlist_filter_input)
    }

    /// The places of a downloaded album's or playlist's tracks that the modal's
    /// filter leaves.
    pub open spec fn offline_detail_places(self, playlist: bool, index: usize) -> Seq<usize> {
        filters::left_by(
            offline_tracks_at(self.data, playlist, index),
            self.tabs.offline.detail_filter_input,
        )
    }

    /// How many rows the Downloads tab shows.
    pub open spec fn offline_len(self) -> nat {
        offline_shown(self.data, self.tabs.offline.filter_input).len()
    }

    /// The place in the player's list of the offline track under the cursor.
    pub open spec fn offline_track_index(self) -> usize {
        let o = self.tabs.offline;
        if o.filtering() {
            let at = filters::left_by(self.data.offline_tracks@, o.filter_input);
            if o.filter_selected < at.len() {
                at[o.filter_selected as int]
            } else {
                0
            }
        } else {
            o.selected
        }
    }

    /// The offline track under the cursor.
    pub open spec fn offline_track(self) -> Option<OfflineTrack> {
        let o = self.tabs.offline;
        let tracks = self.data.offline_tracks@;
        if o.filtering() {
            let at = filters::left_by(tracks, o.filter_input);
            if o.filter_selected < at.len() {
                Some(tracks[at[o.filter_selected as int] as int])
            } else {
                None
            }
        } else if o.selected < tracks.len() {
            Some(tracks[o.selected as int])
        } else {
            None
        }
    }

    /// The place of the downloaded album under the cursor.
    pub open spec fn offline_album_place(self) -> Option<usize> {
        let o = self.tabs.offline;
        let at = filters::left_by(self.data.offline_albums@, o.filter_input);
        if o.cursor() < at.len() {
            Some(at[o.cursor() as int])
        } else {
            None
        }
    }

    /// The place of the downloaded playlist under the cursor.
    pub open spec fn offline_playlist_place(self) -> Option<usize> {
        let o = self.tabs.offline;
        let at = filters::left_by(self.data.offline_playlists@, o.filter_input);
        if o.cursor() < at.len() {
            Some(at[o.cursor() as int])
        } else {
            None
        }
    }

    /// The focus put in the search or filter input that belongs to the screen,
    /// which may be emptied first.
    #[verifier::opaque]
    pub open spec fn filter_focused(self, clear: bool) -> ClientView {
        if self.layers.overlay is Some && self.layers.overlay->0 is PlaylistDetail {
            self.with_layers(
                self.layers.shows(Overlay::PlaylistDetail { selected: 0 }),
            ).with_pages(
                self.pages.with_filter(
                    if clear {
                        Seq::empty()
                    } else {
                        self.pages.playlist_filter_input
                    },
                    true,
                ),
            )
        } else {
            match self.data.active_tab {
                ActiveTab::Search => ClientView {
                    input_mode: InputMode::Typing,
                    search_input: if clear {
                        Seq::empty()
                    } else {
                        self.search_input
                    },
                    ..self
                },
                ActiveTab::Favorites => self.with_favorites(
                    self.tabs.favorites.focused(self.data.favorites_display@, clear),
                ),
                ActiveTab::Explore => match self.data.explore_category {
                    ExploreCategory::Moods | ExploreCategory::NewReleases => self,
                    ExploreCategory::Categories => self.with_tabs(
                        TabsView { genres: self.tabs.genres.focused(clear), ..self.tabs },
                    ),
                    ExploreCategory::Radios => self.with_tabs(
                        TabsView { radios: self.tabs.radios.focused(clear), ..self.tabs },
                    ),
                },
                ActiveTab::Downloads => self.with_offline(
                    if clear {
                        self.tabs.offline.with_filter(Seq::empty(), true)
                    } else {
                        self.tabs.offline.with_focus(true)
                    },
                ),
            }
        }
    }

    /// Every text input of the page left.
    #[verifier::opaque]
    pub open spec fn blurred(self) -> ClientView {
        ClientView {
            input_mode: InputMode::Normal,
            tabs: TabsView {
                favorites: self.tabs.favorites.left(),
                radios: self.tabs.radios.left(),
                genres: self.tabs.genres.left(),
                offline: self.tabs.offline.left(),
                ..self.tabs
            },
            pages: self.pages.with_filter(self.pages.playlist_filter_input, false),
            layers: self.layers.picker_focused(false),
            ..self
        }
    }
}

impl ViewState {
    /// Whether a text input has the focus, so single-letter shortcuts must not
    /// fire.
    pub fn is_text_input_active(&self) -> (r: bool)
        ensures
            r == self@.text_input(),
    {
        self.input_mode == InputMode::Typing || self.tabs.radios.typing || self.tabs.genres.typing
            || self.tabs.favorites.filter_typing || self.tabs.offline.filter_typing
            || self.tabs.offline.detail_filter_typing || self.pages.playlist_filter_typing
    }

    /// Whether the track is one of the user's favorites.
    pub fn is_track_favorite(&self, track_id: &str) -> (r: bool)
        ensures
            r == self@.tabs.favorites.likes(track_id@),
    {
        self.tabs.favorites.is_track_favorite(track_id)
    }

    /// Whether this track is the one loaded in the player.
    pub fn is_playing_track(&self, track_id: &str) -> (r: bool)
        ensures
            r == (match self.data.current_track {
                Some(t) => t.track_id@ == track_id@,
                None => false,
            }),
    {
        match &self.data.current_track {
            Some(t) => text::same_text(&t.track_id, track_id),
            None => false,
        }
    }

    /// Whether the artist is one of the user's favorites.
    pub fn is_artist_favorite(&self, artist_id: &str) -> (r: bool)
        ensures
            r == seqs::listed(self.data.favorite_artist_ids@, artist_id@),
    {
        contains_id(&self.data.favorite_artist_ids, artist_id)
    }

    /// Whether the album is one of the user's favorites.
    pub fn is_album_favorite(&self, album_id: &str) -> (r: bool)
        ensures
            r == seqs::listed(self.data.favorite_album_ids@, album_id@),
    {
        contains_id(&self.data.favorite_album_ids, album_id)
    }

    /// The row under the cursor of the Favorites tab.
    pub fn favorites_selected_item(&self) -> (r: Option<&DisplayItem>)
        ensures
            match r {
                Some(item) => self@.tabs.favorites.row(self.data.favorites_display@) == Some(*item),
                None => self@.tabs.favorites.row(self.data.favorites_display@) is None,
            },
    {
        self.tabs.favorites.selected_item(&self.data.favorites_display)
    }

    /// The place in the player's list of the favorite under the cursor.
    pub fn favorites_selected_original_index(&self) -> (r: usize)
        ensures
            r == self@.tabs.favorites.original(),
    {
        self.tabs.favorites.selected_original_index()
    }

    /// Offline tracks matching the filter, paired with their place.
    pub fn offline_tracks_filtered(&self) -> (r: Vec<(usize, &OfflineTrack)>)
        ensures
            filters::paired_with(
                self.data.offline_tracks@,
                filters::left_by(self.data.offline_tracks@, self.tabs.offline.filter_input@),
                r@,
            ),
    {
        filtered_pairs(&self.data.offline_tracks, &self.tabs.offline.filter_input)
    }

    /// Downloaded albums matching the filter, paired with their place.
    pub fn offline_albums_filtered(&self) -> (r: Vec<(usize, &AlbumDetail)>)
        ensures
            filters::paired_with(
                self.data.offline_albums@,
                filters::left_by(self.data.offline_albums@, self.tabs.offline.filter_input@),
                r@,
            ),
    {
        filtered_pairs(&self.data.offline_albums, &self.tabs.offline.filter_input)
    }

    /// Downloaded playlists matching the filter, paired with their place.
    pub fn offline_playlists_filtered(&self) -> (r: Vec<(usize, &PlaylistDetail)>)
        ensures
            filters::paired_with(
                self.data.offline_playlists@,
                filters::left_by(self.data.offline_playlists@, self.tabs.offline.filter_input@),
                r@,
            ),
    {
        filtered_pairs(&self.data.offline_playlists, &self.tabs.offline.filter_input)
    }

    /// Number of rows shown by the Downloads tab.
    pub fn offline_list_len(&self) -> (r: usize)
        ensures
            r == self@.offline_len(),
    {
        let input: &String = &self.tabs.offline.filter_input;
        match self.data.offline_category {
            OfflineCategory::Tracks => filtered_places(&self.data.offline_tracks, input).len(),
            OfflineCategory::Albums => filtered_places(&self.data.offline_albums, input).len(),
            OfflineCategory::Playlists => filtered_places(&self.data.offline_playlists, input).len(),
        }
    }

    /// The place in the player's list of the selected offline track.
    pub fn offline_selected_track_index(&self) -> (r: usize)
        ensures
            r == self@.offline_track_index(),
    {
        if self.tabs.offline.offline_filter_active() {
            let at: Vec<usize> = filtered_places(
                &self.data.offline_tracks,
                &self.tabs.offline.filter_input,
            );
            if self.tabs.offline.filter_selected < at.len() {
                at[self.tabs.offline.filter_selected]
            } else {
                0
            }
        } else {
            self.tabs.offline.selected
        }
    }

    /// The offline track under the cursor.
    pub fn offline_selected_track(&self) -> (r: Option<&OfflineTrack>)
        ensures
            match r {
                Some(t) => self@.offline_track() == Some(*t),
                None => self@.offline_track() is None,
            },
    {
        if self.tabs.offline.offline_filter_active() {
            let at: Vec<usize> = filtered_places(
                &self.data.offline_tracks,
                &self.tabs.offline.filter_input,
            );
            let len: usize = self.data.offline_tracks.len();
            proof {
                filters::places_lead_back(
                    self.data.offline_tracks@,
                    filters::passes::<OfflineTrack>(self.tabs.offline.filter_input@),
                );
            }
            if self.tabs.offline.filter_selected < at.len() {
                Some(&self.data.offline_tracks[at[self.tabs.offline.filter_selected]])
            } else {
                None
            }
        } else if self.tabs.offline.selected < self.data.offline_tracks.len() {
            Some(&self.data.offline_tracks[self.tabs.offline.selected])
        } else {
            None
        }
    }

    /// The downloaded album under the cursor, with its place.
    pub fn offline_selected_album(&self) -> (r: Option<(usize, &AlbumDetail)>)
        ensures
            match r {
                Some((i, a)) => self@.offline_album_place() == Some(i) && i
                    < self.data.offline_albums@.len() && *a == self.data.offline_albums@[i as int],
                None => self@.offline_album_place() is None,
            },
    {
        let at: Vec<usize> = filtered_places(
            &self.data.offline_albums,
            &self.tabs.offline.filter_input,
        );
        let len: usize = self.data.offline_albums.len();
        proof {
            filters::places_lead_back(
                self.data.offline_albums@,
                filters::passes::<AlbumDetail>(self.tabs.offline.filter_input@),
            );
        }
        let cursor: usize = self.tabs.offline.offline_list_selected();
        if cursor < at.len() {
            let i: usize = at[cursor];
            Some((i, &self.data.offline_albums[i]))
        } else {
            None
        }
    }

    /// The downloaded playlist under the cursor, with its place.
    pub fn offline_selected_playlist(&self) -> (r: Option<(usize, &PlaylistDetail)>)
        ensures
            match r {
                Some((i, p)) => self@.offline_playlist_place() == Some(i) && i
                    < self.data.offline_playlists@.len() && *p
                    == self.data.offline_playlists@[i as int],
                None => self@.offline_playlist_place() is None,
            },
    {
        let at: Vec<usize> = filtered_places(
            &self.data.offline_playlists,
            &self.tabs.offline.filter_input,
        );
        let len: usize = self.data.offline_playlists.len();
        proof {
            filters::places_lead_back(
                self.data.offline_playlists@,
                filters::passes::<PlaylistDetail>(self.tabs.offline.filter_input@),
            );
        }
        let cursor: usize = self.tabs.offline.offline_list_selected();
        if cursor < at.len() {
            let i: usize = at[cursor];
            Some((i, &self.data.offline_playlists[i]))
        } else {
            None
        }
    }

    /// Places of the tracks that the offline detail modal shows.
    pub fn offline_detail_places(&self, playlist: bool, index: usize) -> (r: Vec<usize>)
        ensures
            r@ == self@.offline_detail_places(playlist, index),
    {
        let input: &String = &self.tabs.offline.detail_filter_input;
        if playlist {
            if index < self.data.offline_playlists.len() {
                return filtered_places(&self.data.offline_playlists[index].tracks, input);
            }
        } else if index < self.data.offline_albums.len() {
            return filtered_places(&self.data.offline_albums[index].tracks, input);
        }
        Vec::new()
    }

    /// Tracks of the album/playlist shown in the detail modal that match its own
    /// filter, paired with their place inside that album/playlist.
    pub fn offline_detail_tracks(&self, playlist: bool, index: usize) -> (r: Vec<
        (usize, &TrackData),
    >)
        ensures
            filters::paired_with(
                offline_tracks_at(self.data, playlist, index),
                self@.offline_detail_places(playlist, index),
                r@,
            ),
    {
        let input: &String = &self.tabs.offline.detail_filter_input;
        if playlist {
            if index < self.data.offline_playlists.len() {
                return filtered_pairs(&self.data.offline_playlists[index].tracks, input);
            }
        } else if index < self.data.offline_albums.len() {
            return filtered_pairs(&self.data.offline_albums[index].tracks, input);
        }
        Vec::new()
    }

    /// Places of the open playlist's tracks that match its filter.
    pub fn playlist_detail_places(&self) -> (r: Vec<usize>)
        ensures
            r@ == self@.playlist_places(),
    {
        match &self.data.playlist_detail {
            Some(detail) => filtered_places(&detail.tracks, &self.pages.playlist_filter_input),
            None => Vec::new(),
        }
    }

    /// Tracks of the open playlist that match its filter, each paired with its
    /// place in the playlist. An empty filter leaves all of them.
    pub fn playlist_detail_tracks_filtered(&self) -> (r: Vec<(usize, &TrackData)>)
        ensures
            filters::paired_with(playlist_tracks(self.data), self@.playlist_places(), r@),
    {
        match &self.data.playlist_detail {
            Some(detail) => filtered_pairs(&detail.tracks, &self.pages.playlist_filter_input),
            None => Vec::new(),
        }
    }

    /// Title shown by the offline detail modal.
    pub fn offline_detail_title(&self, playlist: bool, index: usize) -> (r: String)
        ensures
            r@ == (if playlist {
                if index < self.data.offline_playlists@.len() {
                    let p = self.data.offline_playlists@[index as int];
                    client::popup::padded(client::popup::dashed(p.title@, p.creator@))
                } else {
                    Seq::empty()
                }
            } else if index < self.data.offline_albums@.len() {
                let a = self.data.offline_albums@[index as int];
                client::popup::padded(client::popup::dashed(a.title@, a.artist@))
            } else {
                Seq::empty()
            }),
    {
        if playlist {
            if index < self.data.offline_playlists.len() {
                let p = &self.data.offline_playlists[index];
                let shown: String = with_dash(&p.title, &p.creator);
                return with_blanks(&shown);
            }
        } else if index < self.data.offline_albums.len() {
            let a = &self.data.offline_albums[index];
            let shown: String = with_dash(&a.title, &a.artist);
            return with_blanks(&shown);
        }
        String::new()
    }

    /// Position as "m:ss / m:ss".
    pub fn format_position(&self) -> (r: String)
        ensures
            r@ == player::position_text(
                self.data.position_secs as nat,
                self.data.duration_secs as nat,
            ),
    {
        position_of_total(self.data.position_secs, self.data.duration_secs)
    }

    /// Focuses the screen's search or filter input: the `/` and `Ctrl+F`
    /// shortcuts, and clicking the input bar.
    pub fn focus_filter_input(&mut self, clear: bool)
        ensures
            final(self)@ == old(self)@.filter_focused(clear),
    {
        proof {
            reveal(ClientView::filter_focused);
        }
        let on_playlist: bool = matches!(self.layers.overlay, Some(Overlay::PlaylistDetail { .. }));
        if on_playlist {
            self.layers.overlay = Some(Overlay::PlaylistDetail { selected: 0 });
            self.pages.playlist_filter_typing = true;
            if clear {
                self.pages.playlist_filter_input = String::new();
            }
            return;
        }
        match self.data.active_tab {
            ActiveTab::Search => {
                self.input_mode = InputMode::Typing;
                if clear {
                    self.search_input = String::new();
                }
            },
            ActiveTab::Favorites => {
                self.tabs.favorites.focus(&self.data.favorites_display, clear);
            },
            ActiveTab::Explore => match self.data.explore_category {
                ExploreCategory::Moods => {},
                ExploreCategory::NewReleases => {},
                ExploreCategory::Categories => {
                    self.tabs.genres.focus(clear);
                },
                ExploreCategory::Radios => {
                    self.tabs.radios.focus(clear);
                },
            },
            ActiveTab::Downloads => {
                if clear {
                    self.tabs.offline.clear_filter(true);
                } else {
                    self.tabs.offline.filter_typing = true;
                }
            },
        }
    }

    /// Leaves every text input: the mouse moved the focus somewhere else.
    pub fn blur_inputs(&mut self)
        ensures
            final(self)@ == old(self)@.blurred(),
    {
        proof {
            reveal(ClientView::blurred);
        }
        self.input_mode = InputMode::Normal;
        self.tabs.favorites.leave();
        self.tabs.radios.leave();
        self.tabs.genres.leave();
        self.tabs.offline.filter_typing = false;
        self.tabs.offline.detail_filter_typing = false;
        self.pages.playlist_filter_typing = false;
        self.layers.focus_picker(false);
    }

    /// Drops the previous frame's clickable regions.
    pub fn clear_click_areas(&mut self)
        ensures
            final(self).mouse.click@.targets.len() == 0,
            final(self).mouse.click@.rows is None,
            final(self).mouse.click@.modal is None,
            final(self).mouse.scroll == old(self).mouse.scroll,
            final(self).mouse.last_click == old(self).mouse.last_click,
            final(self).mouse.login_button_area == old(self).mouse.login_button_area,
            final(self)@ == (ClientView { mouse: final(self).mouse, ..old(self)@ }),
    {
        self.mouse.click.clear();
    }

    /// Records the outline of a modal being drawn: clicks outside it close it.
    pub fn record_modal(&mut self, area: Rect)
        ensures
            final(self).mouse.click@.targets.len() == 0,
            final(self).mouse.click@.rows is None,
            final(self).mouse.click@.modal == Some(area),
            final(self).mouse.scroll == old(self).mouse.scroll,
            final(self).mouse.last_click == old(self).mouse.last_click,
            final(self).mouse.login_button_area == old(self).mouse.login_button_area,
            final(self)@ == (ClientView { mouse: final(self).mouse, ..old(self)@ }),
    {
        self.mouse.click.record_modal(area);
    }

    /// Records a clickable widget drawn at `rect`.
    pub fn record_click(&mut self, rect: Rect, target: ClickTarget)
        ensures
            final(self).mouse.click@.targets == old(self).mouse.click@.targets.push((rect, target)),
            final(self).mouse.click@.rows == old(self).mouse.click@.rows,
            final(self).mouse.click@.modal == old(self).mouse.click@.modal,
            final(self).mouse.scroll == old(self).mouse.scroll,
            final(self).mouse.last_click == old(self).mouse.last_click,
            final(self).mouse.login_button_area == old(self).mouse.login_button_area,
            final(self)@ == (ClientView { mouse: final(self).mouse, ..old(self)@ }),
    {
        self.mouse.click.record_click(rect, target);
    }

    /// Records the list drawn in `area` as clickable, and keeps its scroll
    /// offset for the next frame.
    pub fn record_rows(&mut self, area: Rect, top: u16, offset: usize, len: usize, kind: RowsKind)
        requires
            area.y + top <= u16::MAX,
        ensures
            final(self).mouse.click@.rows == Some(
                client::clicks::RowsArea {
                    area: ClickAreas::data_rows(area, top),
                    offset,
                    len,
                    kind,
                },
            ),
            final(self).mouse.click@.targets == old(self).mouse.click@.targets,
            final(self).mouse.click@.modal == old(self).mouse.click@.modal,
            forall|k: RowsKind|
                #[trigger] final(self).mouse.scroll.of(k) == (if k == kind {
                    offset
                } else {
                    old(self).mouse.scroll.of(k)
                }),
            final(self).mouse.last_click == old(self).mouse.last_click,
            final(self).mouse.login_button_area == old(self).mouse.login_button_area,
            final(self)@ == (ClientView { mouse: final(self).mouse, ..old(self)@ }),
    {
        self.mouse.click.record_rows(area, top, offset, len, kind);
        self.mouse.scroll.keep(kind, offset);
    }

    /// The scroll offset to resume a list from.
    pub fn resumed_offset(&self, kind: RowsKind) -> (r: usize)
        ensures
            r == self.mouse.scroll.of(kind),
    {
        self.mouse.scroll.get(kind)
    }
}

} // verus!
