//! Keys on the detail pages, the queue screens and the downloads modal.

use vstd::prelude::*;

use crate::client;
use crate::client::likes;
use crate::client::likes::{toggle_artist_command, toggle_favorite_command, Step};
use crate::client::popup;
use crate::client::popup::{PopupMenu, PopupTarget};
use crate::client::state;
use crate::client::state::{scroll_step, ClientView, DetailPane, PagesView, ViewState};
use crate::client::view;
use crate::client::{step_down, step_down_if_any, step_up, KeyAction, KeyCode, KeyEvent, Overlay};
use crate::models;
use crate::models::{ArtistAlbumEntry, ArtistDetail, ArtistSubTab, GenreDetail, TrackData};
use crate::protocol::{Command, GenreDetailSubTab};
use crate::seqs;
use crate::text;
use crate::text::{drop_last_char, push_char};

verus! {

/// The key that likes what is focused: `f` or `L`, and `l` where it does not go
/// right.
pub open spec fn likes_focused(code: KeyCode, vim_keys: bool) -> bool {
    code == KeyCode::Char('f') || code == KeyCode::Char('L') || (code == KeyCode::Char('l')
        && !vim_keys)
}

fn is_like_key(code: KeyCode, vim_keys: bool) -> (r: bool)
    ensures
        r == likes_focused(code, vim_keys),
{
    code == KeyCode::Char('f') || code == KeyCode::Char('L') || (code == KeyCode::Char('l')
        && !vim_keys)
}

/// The artist page has this many rows in its list.
pub open spec fn artist_rows(detail: Option<ArtistDetail>, tab: ArtistSubTab) -> nat {
    match detail {
        Some(d) => match tab {
            ArtistSubTab::TopTracks => d.top_tracks@.len(),
            ArtistSubTab::Similar => d.similar_artists@.len(),
            other => models::albums_in_tab(d.albums@, other).len(),
        },
        None => 0,
    }
}

/// The genre page has this many rows in its list.
pub open spec fn genre_rows(detail: Option<GenreDetail>, tab: GenreDetailSubTab) -> nat {
    match detail {
        Some(d) => match tab {
            GenreDetailSubTab::Tracks => d.tracks@.len(),
            GenreDetailSubTab::Albums => d.albums@.len(),
            GenreDetailSubTab::Artists => d.artists@.len(),
            GenreDetailSubTab::Playlists => d.playlists@.len(),
            GenreDetailSubTab::Radios => d.radios@.len(),
        },
        None => 0,
    }
}

impl ClientView {
    /// The menu of a track opened, where there is one.
    pub open spec fn menu_of(self, track: Option<TrackData>) -> ClientView {
        match track {
            Some(t) => self.with_layers(
                self.layers.with_popup(popup::full_menu(t, self.likes(t.track_id@))),
            ),
            None => self,
        }
    }

    /// The favorite of a track turned around, where there is one.
    pub open spec fn toggled_opt(self, track: Option<TrackData>) -> Step {
        match track {
            Some(t) => self.toggled_favorite(t.track_id),
            None => self.stays(),
        }
    }

    /// An overlay opened on top.
    pub open spec fn pushes(self, overlay: Overlay) -> ClientView {
        self.with_layers(self.layers.pushed(overlay))
    }

    /// The overlay on top closed.
    pub open spec fn pops(self) -> ClientView {
        self.with_layers(self.layers.popped())
    }

    /// The overlay on top replaced.
    pub open spec fn shows(self, overlay: Overlay) -> ClientView {
        self.with_layers(self.layers.shows(overlay))
    }

    /// The album page's state replaced.
    pub open spec fn album_pane(self, pane: DetailPane) -> ClientView {
        self.with_pages(self.pages.with_album(pane))
    }

    /// The artist page's state replaced.
    pub open spec fn artist_pane(self, pane: DetailPane) -> ClientView {
        self.with_pages(self.pages.with_artist(pane))
    }

    /// The artist page at the top of another of its lists.
    pub open spec fn artist_tab(self, tab: ArtistSubTab) -> ClientView {
        self.with_pages(
            PagesView { artist: self.pages.artist.at_top(), artist_sub_tab: tab, ..self.pages },
        )
    }

    /// The artist of the track under the album page's cursor.
    pub open spec fn album_artist(self) -> Option<String> {
        match self.album_track() {
            Some(t) => t.artist_id,
            None => None,
        }
    }

    /// Going up or down on the album page.
    pub open spec fn album_moved(self, down: bool) -> ClientView {
        let p = self.pages.album;
        if p.left_focused {
            self.album_pane(DetailPane { left_scroll: state::scrolled(p.left_scroll, !down), ..p })
        } else if down {
            match self.data.album_detail {
                Some(d) => self.album_pane(
                    DetailPane {
                        selected: client::down_if_any(p.selected, d.tracks@.len()),
                        ..p
                    },
                ),
                None => self,
            }
        } else {
            self.album_pane(DetailPane { selected: client::up(p.selected), ..p })
        }
    }

    /// A key on the album page.
    #[verifier::opaque]
    pub open spec fn album_key(self, code: KeyCode) -> Step {
        let p = self.pages.album;
        if code == KeyCode::Char('x') {
            self.menu_of(self.album_track()).stays()
        } else if likes_focused(code, self.vim_keys) {
            self.toggled_opt(self.album_track())
        } else if code == KeyCode::Esc {
            self.pops().stays()
        } else if view::goes_left(code, self.vim_keys) {
            if p.left_scrollable {
                self.album_pane(DetailPane { left_focused: true, ..p }).stays()
            } else {
                self.stays()
            }
        } else if view::goes_right(code, self.vim_keys) {
            self.album_pane(DetailPane { left_focused: false, ..p }).stays()
        } else if view::goes_up(code, self.vim_keys) {
            self.album_moved(false).stays()
        } else if view::goes_down(code, self.vim_keys) {
            self.album_moved(true).stays()
        } else if code == KeyCode::Enter {
            if p.left_focused {
                self.stays()
            } else {
                self.and_sends(Command::PlayFromAlbum { index: p.selected })
            }
        } else if code == KeyCode::Char('t') {
            match self.album_artist() {
                Some(artist_id) => self.pushes(Overlay::ArtistDetail).artist_pane(
                    self.pages.artist.at_top(),
                ).and_sends(Command::GetArtistDetail { artist_id }),
                None => self.stays(),
            }
        } else if code == KeyCode::Char('d') {
            match self.data.album_detail {
                Some(d) => self.and_sends(Command::DownloadAlbumOffline { album_id: d.album_id }),
                None => self.stays(),
            }
        } else if code == KeyCode::Char('w') {
            self.pushes(Overlay::WaitingList { selected: 0 }).stays()
        } else {
            self.control_or_stay(code)
        }
    }

    /// Liking on the artist page: the track or the similar artist under the
    /// cursor.
    pub open spec fn artist_liked(self) -> Step {
        let tab = self.pages.artist_sub_tab;
        if tab == ArtistSubTab::TopTracks {
            self.toggled_opt(self.artist_track())
        } else if tab == ArtistSubTab::Similar {
            match self.similar_artist() {
                Some(id) => self.and_sends(
                    likes::artist_command(seqs::listed(self.data.favorite_artist_ids@, id@), id),
                ),
                None => self.stays(),
            }
        } else {
            self.stays()
        }
    }

    /// The similar artist at the artist page's cursor.
    pub open spec fn similar_artist(self) -> Option<String> {
        match self.data.artist_detail {
            Some(d) => match client::nth(d.similar_artists@, self.pages.artist.selected as int) {
                Some(a) => Some(a.artist_id),
                None => None,
            },
            None => None,
        }
    }

    /// The album at the artist page's cursor.
    pub open spec fn artist_album(self) -> Option<String> {
        match self.data.artist_detail {
            Some(d) => match client::nth(
                models::albums_in_tab(d.albums@, self.pages.artist_sub_tab),
                self.pages.artist.selected as int,
            ) {
                Some(a) => Some(a.album_id),
                None => None,
            },
            None => None,
        }
    }

    /// Going left or right on the artist page, whose left column counts as a
    /// list before the first.
    pub open spec fn artist_turned(self, right: bool) -> ClientView {
        let p = self.pages.artist;
        let tab = self.pages.artist_sub_tab;
        if right {
            if p.left_focused {
                self.with_pages(
                    PagesView {
                        artist: DetailPane { left_focused: false, selected: 0, ..p },
                        artist_sub_tab: ArtistSubTab::TopTracks,
                        ..self.pages
                    },
                )
            } else {
                self.artist_tab(ArtistSubTab::nth(tab.place() + 1))
            }
        } else if p.left_focused {
            self
        } else if tab == ArtistSubTab::TopTracks && p.left_scrollable {
            self.artist_pane(DetailPane { left_focused: true, ..p })
        } else {
            self.artist_tab(ArtistSubTab::nth(tab.place() + 4))
        }
    }

    /// Going up or down on the artist page.
    pub open spec fn artist_moved(self, down: bool) -> ClientView {
        let p = self.pages.artist;
        if p.left_focused {
            self.artist_pane(DetailPane { left_scroll: state::scrolled(p.left_scroll, !down), ..p })
        } else if down {
            self.artist_pane(
                DetailPane {
                    selected: client::down_if_any(
                        p.selected,
                        artist_rows(self.data.artist_detail, self.pages.artist_sub_tab),
                    ),
                    ..p
                },
            )
        } else {
            self.artist_pane(DetailPane { selected: client::up(p.selected), ..p })
        }
    }

    /// Opening what is under the artist page's cursor.
    pub open spec fn artist_entered(self) -> Step {
        let tab = self.pages.artist_sub_tab;
        if tab == ArtistSubTab::TopTracks {
            self.and_sends(Command::PlayFromArtist { index: self.pages.artist.selected })
        } else if tab == ArtistSubTab::Similar {
            match self.similar_artist() {
                Some(artist_id) => self.with_layers(
                    self.layers.nav_set(Overlay::ArtistDetail),
                ).with_pages(
                    PagesView {
                        artist: self.pages.artist.reset(),
                        artist_sub_tab: ArtistSubTab::TopTracks,
                        ..self.pages
                    },
                ).and_sends(Command::GetArtistDetail { artist_id }),
                None => self.stays(),
            }
        } else {
            match self.artist_album() {
                Some(album_id) => self.pushes(
                    Overlay::AlbumDetail { from_artist: false },
                ).album_pane(self.pages.album.at_top()).and_sends(
                    Command::GetAlbumDetail { album_id },
                ),
                None => self.stays(),
            }
        }
    }

    /// A key on the artist page.
    #[verifier::opaque]
    pub open spec fn artist_key(self, code: KeyCode) -> Step {
        if code == KeyCode::Char('x') {
            self.menu_of(self.artist_track()).stays()
        } else if likes_focused(code, self.vim_keys) {
            self.artist_liked()
        } else if code == KeyCode::Esc {
            self.pops().stays()
        } else if view::goes_left(code, self.vim_keys) {
            self.artist_turned(false).stays()
        } else if view::goes_right(code, self.vim_keys) {
            self.artist_turned(true).stays()
        } else if view::goes_up(code, self.vim_keys) {
            self.artist_moved(false).stays()
        } else if view::goes_down(code, self.vim_keys) {
            self.artist_moved(true).stays()
        } else if code == KeyCode::Enter {
            self.artist_entered()
        } else if code == KeyCode::Char('w') {
            self.pushes(Overlay::WaitingList { selected: 0 }).stays()
        } else {
            self.control_or_stay(code)
        }
    }

    /// The playlist's filter set, its cursor at the top.
    pub open spec fn playlist_filter(self, input: Seq<char>, typing: bool) -> ClientView {
        self.shows(Overlay::PlaylistDetail { selected: 0 }).with_pages(
            self.pages.with_filter(input, typing),
        )
    }

    /// A key typed into the playlist's filter.
    pub open spec fn playlist_typed(self, code: KeyCode) -> ClientView {
        let input = self.pages.playlist_filter_input;
        match code {
            KeyCode::Esc => self.playlist_filter(Seq::empty(), false),
            KeyCode::Enter => self.with_pages(self.pages.with_filter(input, false)),
            KeyCode::Char(c) => self.playlist_filter(
                input.push(c),
                self.pages.playlist_filter_typing,
            ),
            KeyCode::Backspace => self.playlist_filter(
                text::without_last(input),
                self.pages.playlist_filter_typing,
            ),
            _ => self,
        }
    }

    /// The menu of a track of the open playlist.
    pub open spec fn playlist_menu_of(self, selected: usize) -> ClientView {
        match (self.playlist_track(selected), self.data.playlist_detail) {
            (Some(t), Some(d)) => self.with_layers(
                self.layers.with_popup(
                    popup::playlist_track_menu(t, self.likes(t.track_id@), d.playlist_id),
                ),
            ),
            _ => self,
        }
    }

    /// A key on the open playlist, at this row.
    #[verifier::opaque]
    pub open spec fn playlist_key(self, code: KeyCode, selected: usize) -> Step {
        if self.pages.playlist_filter_typing && code != KeyCode::Up && code != KeyCode::Down {
            self.playlist_typed(code).stays()
        } else if code == KeyCode::Char('x') {
            self.playlist_menu_of(selected).stays()
        } else if likes_focused(code, self.vim_keys) {
            self.toggled_opt(self.playlist_track(selected))
        } else if code == KeyCode::Esc {
            self.with_pages(
                self.pages.with_filter(Seq::empty(), self.pages.playlist_filter_typing),
            ).pops().stays()
        } else if code == KeyCode::Char('/') {
            self.playlist_filter(Seq::empty(), true).stays()
        } else if view::goes_up(code, self.vim_keys) {
            self.shows(Overlay::PlaylistDetail { selected: client::up(selected) }).stays()
        } else if view::goes_down(code, self.vim_keys) {
            self.shows(
                Overlay::PlaylistDetail {
                    selected: client::down(selected, self.playlist_places().len()),
                },
            ).stays()
        } else if code == KeyCode::Enter {
            match self.playlist_place(selected) {
                Some(index) => self.and_sends(Command::PlayFromPlaylist { index }),
                None => self.stays(),
            }
        } else if code == KeyCode::Char('d') {
            match self.data.playlist_detail {
                Some(d) => self.and_sends(
                    Command::DownloadPlaylistOffline { playlist_id: d.playlist_id },
                ),
                None => self.stays(),
            }
        } else if code == KeyCode::Char('w') {
            self.pushes(Overlay::WaitingList { selected: 0 }).stays()
        } else {
            self.control_or_stay(code)
        }
    }

    /// A key on a show's episodes, at this row.
    #[verifier::opaque]
    pub open spec fn show_key(self, code: KeyCode, selected: usize) -> Step {
        if code == KeyCode::Esc {
            self.pops().stays()
        } else if view::goes_up(code, self.vim_keys) {
            self.shows(Overlay::ShowDetail { selected: client::up(selected) }).stays()
        } else if view::goes_down(code, self.vim_keys) {
            self.shows(
                Overlay::ShowDetail {
                    selected: client::down(selected, view::playlist_tracks(self.data).len()),
                },
            ).stays()
        } else if code == KeyCode::Enter {
            self.and_sends(Command::PlayFromPlaylist { index: selected })
        } else if code == KeyCode::Char('w') {
            self.pushes(Overlay::WaitingList { selected: 0 }).stays()
        } else {
            self.control_or_stay(code)
        }
    }

    /// Opening what is under the genre page's cursor.
    pub open spec fn genre_entered(self, tab: GenreDetailSubTab, selected: usize) -> Step {
        match self.data.genre_detail {
            Some(d) => match tab {
                GenreDetailSubTab::Tracks => if selected < d.tracks@.len() {
                    self.and_sends(Command::PlayFromGenreTrack { index: selected })
                } else {
                    self.stays()
                },
                GenreDetailSubTab::Albums => match client::nth(d.albums@, selected as int) {
                    Some(a) => self.pushes(Overlay::AlbumDetail { from_artist: false }).album_pane(
                        self.pages.album.reset(),
                    ).and_sends(Command::GetAlbumDetail { album_id: a.album_id }),
                    None => self.stays(),
                },
                GenreDetailSubTab::Artists => match client::nth(d.artists@, selected as int) {
                    Some(a) => self.pushes(Overlay::ArtistDetail).artist_pane(
                        self.pages.artist.reset(),
                    ).and_sends(Command::GetArtistDetail { artist_id: a.artist_id }),
                    None => self.stays(),
                },
                GenreDetailSubTab::Playlists => match client::nth(d.playlists@, selected as int) {
                    Some(p) => self.with_pages(
                        self.pages.with_filter(Seq::empty(), false),
                    ).pushes(Overlay::PlaylistDetail { selected: 0 }).and_sends(
                        Command::GetPlaylistDetail { playlist_id: p.playlist_id },
                    ),
                    None => self.stays(),
                },
                GenreDetailSubTab::Radios => if selected < d.radios@.len() {
                    self.and_sends(Command::PlayFromGenreRadio { index: selected })
                } else {
                    self.stays()
                },
            },
            None => self.stays(),
        }
    }

    /// A key on the genre page, at this row of this list.
    #[verifier::opaque]
    pub open spec fn genre_key(
        self,
        code: KeyCode,
        tab: GenreDetailSubTab,
        selected: usize,
    ) -> Step {
        if likes_focused(code, self.vim_keys) && tab == GenreDetailSubTab::Tracks {
            self.toggled_opt(self.genre_track(tab, selected))
        } else if code == KeyCode::Esc {
            self.pops().stays()
        } else if view::goes_left(code, self.vim_keys) {
            self.shows(
                Overlay::GenreDetail {
                    sub_tab: GenreDetailSubTab::nth(tab.place() + 4),
                    selected: 0,
                },
            ).stays()
        } else if view::goes_right(code, self.vim_keys) {
            self.shows(
                Overlay::GenreDetail {
                    sub_tab: GenreDetailSubTab::nth(tab.place() + 1),
                    selected: 0,
                },
            ).stays()
        } else if view::goes_up(code, self.vim_keys) {
            self.shows(
                Overlay::GenreDetail { sub_tab: tab, selected: client::up(selected) },
            ).stays()
        } else if view::goes_down(code, self.vim_keys) {
            self.shows(
                Overlay::GenreDetail {
                    sub_tab: tab,
                    selected: client::down(selected, genre_rows(self.data.genre_detail, tab)),
                },
            ).stays()
        } else if code == KeyCode::Enter {
            self.genre_entered(tab, selected)
        } else {
            self.control_or_stay(code)
        }
    }

    /// The track at a place of the queue.
    pub open spec fn queued(self, selected: usize) -> Option<TrackData> {
        client::nth(self.data.queue@, selected as int)
    }

    /// The track at this place of the queue can be taken out: it is there, and it
    /// is not playing.
    pub open spec fn removable(self, selected: usize) -> bool {
        selected != self.data.queue_index && selected < self.data.queue@.len()
    }

    /// A key on the waiting list, at this row.
    #[verifier::opaque]
    pub open spec fn waiting_key(self, code: KeyCode, selected: usize) -> Step {
        let len = self.data.queue@.len();
        if code == KeyCode::Char('x') {
            self.menu_of(self.queued(selected)).stays()
        } else if code == KeyCode::Enter {
            if selected < len {
                self.and_sends(Command::PlayFromQueue { index: selected })
            } else {
                self.stays()
            }
        } else if code == KeyCode::Esc || code == KeyCode::Char('w') {
            self.pops().stays()
        } else if view::goes_up(code, self.vim_keys) {
            self.shows(Overlay::WaitingList { selected: client::up(selected) }).stays()
        } else if view::goes_down(code, self.vim_keys) {
            self.shows(Overlay::WaitingList { selected: client::down(selected, len) }).stays()
        } else if code == KeyCode::Delete || code == KeyCode::Char('d') {
            if self.removable(selected) {
                self.shows(
                    Overlay::WaitingList {
                        selected: if selected + 1 >= len {
                            client::up(selected)
                        } else {
                            selected
                        },
                    },
                ).and_sends(Command::RemoveFromQueue { index: selected })
            } else {
                self.stays()
            }
        } else if likes_focused(code, self.vim_keys) {
            self.toggled_opt(self.queued(selected))
        } else {
            self.control_or_stay(code)
        }
    }

    /// A key on the playback page, at this row of its queue.
    #[verifier::opaque]
    pub open spec fn now_playing_key(self, code: KeyCode, selected: usize) -> Step {
        let len = self.data.queue@.len();
        if code == KeyCode::Char('x') {
            self.menu_of(self.queued(selected)).stays()
        } else if code == KeyCode::Esc || code == KeyCode::Char('p') {
            self.pops().stays()
        } else if code == KeyCode::Enter {
            if selected < len {
                self.and_sends(Command::PlayFromQueue { index: selected })
            } else {
                self.stays()
            }
        } else if code == KeyCode::Up || code == KeyCode::Char('k') {
            self.shows(Overlay::NowPlaying { selected: client::up(selected) }).stays()
        } else if code == KeyCode::Down || code == KeyCode::Char('j') {
            self.shows(Overlay::NowPlaying { selected: client::down(selected, len) }).stays()
        } else if code == KeyCode::Delete || code == KeyCode::Char('d') {
            if self.removable(selected) {
                self.shows(
                    Overlay::NowPlaying {
                        selected: client::clamped(
                            selected,
                            if len == 0 {
                                0
                            } else {
                                (len - 1) as nat
                            },
                        ),
                    },
                ).and_sends(Command::RemoveFromQueue { index: selected })
            } else {
                self.stays()
            }
        } else if code == KeyCode::Char('f') {
            match self.queued(selected) {
                Some(t) => self.and_sends(
                    likes::favorite_command(self.likes(t.track_id@), t.track_id),
                ),
                None => self.stays(),
            }
        } else {
            self.control_or_stay(code)
        }
    }

    /// The downloads modal with its cursor moved.
    pub open spec fn offline_at(self, playlist: bool, index: usize, selected: usize) -> ClientView {
        self.shows(Overlay::OfflineDetail { playlist, index, selected })
    }

    /// The downloads modal's filter set, its cursor at the top.
    pub open spec fn offline_filter(
        self,
        playlist: bool,
        index: usize,
        input: Seq<char>,
        typing: bool,
    ) -> ClientView {
        self.offline_at(playlist, index, 0).with_offline(
            self.tabs.offline.with_detail(input, typing),
        )
    }

    /// A key typed into the downloads modal's filter.
    pub open spec fn offline_typed(self, code: KeyCode, playlist: bool, index: usize) -> ClientView {
        let o = self.tabs.offline;
        match code {
            KeyCode::Esc => self.offline_filter(playlist, index, Seq::empty(), false),
            KeyCode::Enter => self.with_offline(o.with_detail(o.detail_filter_input, false)),
            KeyCode::Char(c) => self.offline_filter(
                playlist,
                index,
                o.detail_filter_input.push(c),
                o.detail_filter_typing,
            ),
            KeyCode::Backspace => self.offline_filter(
                playlist,
                index,
                text::without_last(o.detail_filter_input),
                o.detail_filter_typing,
            ),
            _ => self,
        }
    }

    /// The place in the download of the track at this row.
    pub open spec fn offline_place(self, playlist: bool, index: usize, selected: usize) -> Option<
        usize,
    > {
        client::nth(self.offline_detail_places(playlist, index), selected as int)
    }

    /// Playing the track at this row of the download.
    pub open spec fn offline_entered(self, playlist: bool, index: usize, selected: usize) -> Step {
        match self.offline_place(playlist, index, selected) {
            Some(track_index) => if playlist {
                match client::nth(self.data.offline_playlists@, index as int) {
                    Some(p) => self.and_sends(
                        Command::PlayOfflinePlaylist { playlist_id: p.playlist_id, track_index },
                    ),
                    None => self.stays(),
                }
            } else {
                match client::nth(self.data.offline_albums@, index as int) {
                    Some(a) => self.and_sends(
                        Command::PlayOfflineAlbum { album_id: a.album_id, track_index },
                    ),
                    None => self.stays(),
                }
            },
            None => self.stays(),
        }
    }

    /// The menu of the track at this row of the download.
    pub open spec fn offline_menu_of(self, playlist: bool, index: usize, selected: usize) -> ClientView {
        match self.offline_place(playlist, index, selected) {
            Some(i) => self.with_layers(
                self.layers.with_popup(
                    popup::offline_menu(
                        PopupTarget::Track(
                            Box::new(view::offline_tracks_at(self.data, playlist, index)[i as int]),
                        ),
                    ),
                ),
            ),
            None => self,
        }
    }

    /// A key on the downloads modal, at this row.
    #[verifier::opaque]
    pub open spec fn offline_key(
        self,
        code: KeyCode,
        playlist: bool,
        index: usize,
        selected: usize,
    ) -> Step {
        let o = self.tabs.offline;
        if o.detail_filter_typing && code != KeyCode::Up && code != KeyCode::Down {
            self.offline_typed(code, playlist, index).stays()
        } else if code == KeyCode::Esc {
            self.with_offline(o.with_detail(Seq::empty(), o.detail_filter_typing)).pops().stays()
        } else if code == KeyCode::Char('/') {
            self.offline_filter(playlist, index, Seq::empty(), true).stays()
        } else if view::goes_up(code, self.vim_keys) {
            self.offline_at(playlist, index, client::up(selected)).stays()
        } else if view::goes_down(code, self.vim_keys) {
            self.offline_at(
                playlist,
                index,
                client::down(selected, self.offline_detail_places(playlist, index).len()),
            ).stays()
        } else if code == KeyCode::Enter {
            self.offline_entered(playlist, index, selected)
        } else if code == KeyCode::Char('x') {
            self.offline_menu_of(playlist, index, selected).stays()
        } else {
            self.control_or_stay(code)
        }
    }
}

fn copied(track: Option<&TrackData>) -> (r: Option<TrackData>)
    ensures
        match track {
            Some(t) => r == Some(*t),
            None => r is None,
        },
{
    match track {
        Some(t) => Some(t.clone()),
        None => None,
    }
}

impl ViewState {
    /// Opens the menu of a track, where there is one.
    pub fn open_track_menu(&mut self, track: Option<TrackData>)
        ensures
            final(self)@ == old(self)@.menu_of(track),
    {
        match track {
            Some(track) => {
                let liked: bool = self.is_track_favorite(&track.track_id);
                self.layers.popup = Some(PopupMenu::full(track, liked));
            },
            None => {},
        }
    }

    fn toggle_opt(&mut self, track: Option<TrackData>) -> (r: KeyAction)
        ensures
            (final(self)@, r@) == old(self)@.toggled_opt(track),
    {
        match track {
            Some(track) => self.toggle_track_favorite(&track.track_id),
            None => KeyAction::Continue,
        }
    }

    fn move_in_album(&mut self, down: bool)
        ensures
            final(self)@ == old(self)@.album_moved(down),
    {
        if self.pages.album.left_focused {
            self.pages.album.left_scroll = scroll_step(self.pages.album.left_scroll, !down);
        } else if down {
            match &self.data.album_detail {
                Some(d) => {
                    self.pages.album.selected = step_down_if_any(
                        self.pages.album.selected,
                        d.tracks.len(),
                    );
                },
                None => {},
            }
        } else {
            self.pages.album.selected = step_up(self.pages.album.selected);
        }
    }

    /// Handles a key on the album page.
    pub fn handle_album_detail_key(&mut self, key: KeyEvent) -> (r: KeyAction)
        ensures
            (final(self)@, r@) == old(self)@.album_key(key.code),
    {
        proof {
            reveal(ClientView::album_key);
        }
        let code: KeyCode = key.code;
        if code == KeyCode::Char('x') {
            let track: Option<TrackData> = copied(self.focused_album_track());
            self.open_track_menu(track);
            KeyAction::Continue
        } else if is_like_key(code, self.vim_keys) {
            let track: Option<TrackData> = copied(self.focused_album_track());
            self.toggle_opt(track)
        } else if code == KeyCode::Esc {
            self.layers.pop_overlay();
            KeyAction::Continue
        } else if self.is_nav_left(code) {
            if self.pages.album.left_scrollable {
                self.pages.album.left_focused = true;
            }
            KeyAction::Continue
        } else if self.is_nav_right(code) {
            self.pages.album.left_focused = false;
            KeyAction::Continue
        } else if self.is_nav_up(code) {
            self.move_in_album(false);
            KeyAction::Continue
        } else if self.is_nav_down(code) {
            self.move_in_album(true);
            KeyAction::Continue
        } else if code == KeyCode::Enter {
            if self.pages.album.left_focused {
                KeyAction::Continue
            } else {
                KeyAction::SendCommand(
                    Command::PlayFromAlbum { index: self.pages.album.selected },
                )
            }
        } else if code == KeyCode::Char('t') {
            let artist: Option<String> = match self.focused_album_track() {
                Some(t) => t.artist_id.clone(),
                None => None,
            };
            match artist {
                Some(artist_id) => {
                    self.layers.push_overlay(Overlay::ArtistDetail);
                    self.pages.artist.selected = 0;
                    KeyAction::SendCommand(Command::GetArtistDetail { artist_id })
                },
                None => KeyAction::Continue,
            }
        } else if code == KeyCode::Char('d') {
            match &self.data.album_detail {
                Some(d) => KeyAction::SendCommand(
                    Command::DownloadAlbumOffline { album_id: d.album_id.clone() },
                ),
                None => KeyAction::Continue,
            }
        } else if code == KeyCode::Char('w') {
            self.layers.push_overlay(Overlay::WaitingList { selected: 0 });
            KeyAction::Continue
        } else {
            self.player_control_action(code)
        }
    }

    fn focused_similar_artist(&self) -> (r: Option<String>)
        ensures
            r == self@.similar_artist(),
    {
        match &self.data.artist_detail {
            Some(d) => match client::at(&d.similar_artists, self.pages.artist.selected) {
                Some(a) => Some(a.artist_id.clone()),
                None => None,
            },
            None => None,
        }
    }

    fn focused_artist_album(&self) -> (r: Option<String>)
        ensures
            r == self@.artist_album(),
    {
        match &self.data.artist_detail {
            Some(d) => {
                let albums: Vec<ArtistAlbumEntry> = d.albums_for_tab(self.pages.artist_sub_tab);
                match client::at(&albums, self.pages.artist.selected) {
                    Some(a) => Some(a.album_id.clone()),
                    None => None,
                }
            },
            None => None,
        }
    }

    fn like_on_artist_page(&mut self) -> (r: KeyAction)
        ensures
            (final(self)@, r@) == old(self)@.artist_liked(),
    {
        if self.pages.artist_sub_tab == ArtistSubTab::TopTracks {
            let track: Option<TrackData> = copied(self.focused_artist_track());
            self.toggle_opt(track)
        } else if self.pages.artist_sub_tab == ArtistSubTab::Similar {
            match self.focused_similar_artist() {
                Some(id) => {
                    let liked: bool = self.is_artist_favorite(&id);
                    KeyAction::SendCommand(toggle_artist_command(liked, id))
                },
                None => KeyAction::Continue,
            }
        } else {
            KeyAction::Continue
        }
    }

    fn turn_artist_page(&mut self, right: bool)
        ensures
            final(self)@ == old(self)@.artist_turned(right),
    {
        if right {
            if self.pages.artist.left_focused {
                self.pages.artist.left_focused = false;
                self.pages.artist_sub_tab = ArtistSubTab::TopTracks;
            } else {
                self.pages.artist_sub_tab = self.pages.artist_sub_tab.next();
            }
            self.pages.artist.selected = 0;
        } else if self.pages.artist.left_focused {
        } else if self.pages.artist_sub_tab == ArtistSubTab::TopTracks
            && self.pages.artist.left_scrollable {
            self.pages.artist.left_focused = true;
        } else {
            self.pages.artist_sub_tab = self.pages.artist_sub_tab.prev();
            self.pages.artist.selected = 0;
        }
    }

    /// Number of rows in the artist page's list.
    pub fn artist_detail_list_len(&self) -> (r: usize)
        ensures
            r == artist_rows(self.data.artist_detail, self.pages.artist_sub_tab),
    {
        match &self.data.artist_detail {
            Some(d) => match self.pages.artist_sub_tab {
                ArtistSubTab::TopTracks => d.top_tracks.len(),
                ArtistSubTab::Similar => d.similar_artists.len(),
                other => d.albums_for_tab(other).len(),
            },
            None => 0,
        }
    }

    fn move_on_artist_page(&mut self, down: bool)
        ensures
            final(self)@ == old(self)@.artist_moved(down),
    {
        if self.pages.artist.left_focused {
            self.pages.artist.left_scroll = scroll_step(self.pages.artist.left_scroll, !down);
        } else if down {
            let count: usize = self.artist_detail_list_len();
            self.pages.artist.selected = step_down_if_any(self.pages.artist.selected, count);
        } else {
            self.pages.artist.selected = step_up(self.pages.artist.selected);
        }
    }

    fn enter_on_artist_page(&mut self) -> (r: KeyAction)
        ensures
            (final(self)@, r@) == old(self)@.artist_entered(),
    {
        if self.pages.artist_sub_tab == ArtistSubTab::TopTracks {
            KeyAction::SendCommand(Command::PlayFromArtist { index: self.pages.artist.selected })
        } else if self.pages.artist_sub_tab == ArtistSubTab::Similar {
            match self.focused_similar_artist() {
                Some(artist_id) => {
                    self.layers.set_nav_overlay(Overlay::ArtistDetail);
                    self.pages.artist.selected = 0;
                    self.pages.artist_sub_tab = ArtistSubTab::TopTracks;
                    self.pages.artist.left_scroll = 0;
                    self.pages.artist.left_focused = false;
                    KeyAction::SendCommand(Command::GetArtistDetail { artist_id })
                },
                None => KeyAction::Continue,
            }
        } else {
            match self.focused_artist_album() {
                Some(album_id) => {
                    self.layers.push_overlay(Overlay::AlbumDetail { from_artist: false });
                    self.pages.album.selected = 0;
                    KeyAction::SendCommand(Command::GetAlbumDetail { album_id })
                },
                None => KeyAction::Continue,
            }
        }
    }

    /// Handles a key on the artist page.
    pub fn handle_artist_detail_key(&mut self, key: KeyEvent) -> (r: KeyAction)
        ensures
            (final(self)@, r@) == old(self)@.artist_key(key.code),
    {
        proof {
            reveal(ClientView::artist_key);
        }
        let code: KeyCode = key.code;
        if code == KeyCode::Char('x') {
            let track: Option<TrackData> = copied(self.focused_artist_track());
            self.open_track_menu(track);
            KeyAction::Continue
        } else if is_like_key(code, self.vim_keys) {
            self.like_on_artist_page()
        } else if code == KeyCode::Esc {
            self.layers.pop_overlay();
            KeyAction::Continue
        } else if self.is_nav_left(code) {
            self.turn_artist_page(false);
            KeyAction::Continue
        } else if self.is_nav_right(code) {
            self.turn_artist_page(true);
            KeyAction::Continue
        } else if self.is_nav_up(code) {
            self.move_on_artist_page(false);
            KeyAction::Continue
        } else if self.is_nav_down(code) {
            self.move_on_artist_page(true);
            KeyAction::Continue
        } else if code == KeyCode::Enter {
            self.enter_on_artist_page()
        } else if code == KeyCode::Char('w') {
            self.layers.push_overlay(Overlay::WaitingList { selected: 0 });
            KeyAction::Continue
        } else {
            self.player_control_action(code)
        }
    }

    fn type_in_playlist_filter(&mut self, code: KeyCode)
        ensures
            final(self)@ == old(self)@.playlist_typed(code),
    {
        match code {
            KeyCode::Esc => {
                self.pages.playlist_filter_typing = false;
                self.pages.playlist_filter_input = String::new();
                self.layers.overlay = Some(Overlay::PlaylistDetail { selected: 0 });
            },
            KeyCode::Enter => {
                self.pages.playlist_filter_typing = false;
            },
            KeyCode::Char(c) => {
                push_char(&mut self.pages.playlist_filter_input, c);
                self.layers.overlay = Some(Overlay::PlaylistDetail { selected: 0 });
            },
            KeyCode::Backspace => {
                self.pages.playlist_filter_input = drop_last_char(
                    &self.pages.playlist_filter_input,
                );
                self.layers.overlay = Some(Overlay::PlaylistDetail { selected: 0 });
            },
            _ => {},
        }
    }

    fn open_playlist_track_menu(&mut self, selected: usize)
        ensures
            final(self)@ == old(self)@.playlist_menu_of(selected),
    {
        let found: Option<(TrackData, String)> = match self.focused_playlist_track(selected) {
            Some((_, t)) => match &self.data.playlist_detail {
                Some(d) => Some((t.clone(), d.playlist_id.clone())),
                None => None,
            },
            None => None,
        };
        match found {
            Some((track, playlist_id)) => {
                let liked: bool = self.is_track_favorite(&track.track_id);
                self.layers.popup = Some(PopupMenu::full_in_playlist(track, liked, playlist_id));
            },
            None => {},
        }
    }

    /// Handles a key on the open playlist, at this row.
    pub fn handle_playlist_detail_key(&mut self, key: KeyEvent, selected: usize) -> (r: KeyAction)
        ensures
            (final(self)@, r@) == old(self)@.playlist_key(key.code, selected),
    {
        proof {
            reveal(ClientView::playlist_key);
        }
        let code: KeyCode = key.code;
        if self.pages.playlist_filter_typing && code != KeyCode::Up && code != KeyCode::Down {
            self.type_in_playlist_filter(code);
            KeyAction::Continue
        } else if code == KeyCode::Char('x') {
            self.open_playlist_track_menu(selected);
            KeyAction::Continue
        } else if is_like_key(code, self.vim_keys) {
            let track: Option<TrackData> = match self.focused_playlist_track(selected) {
                Some((_, t)) => Some(t.clone()),
                None => None,
            };
            self.toggle_opt(track)
        } else if code == KeyCode::Esc {
            self.pages.playlist_filter_input = String::new();
            self.layers.pop_overlay();
            KeyAction::Continue
        } else if code == KeyCode::Char('/') {
            self.pages.playlist_filter_typing = true;
            self.pages.playlist_filter_input = String::new();
            self.layers.overlay = Some(Overlay::PlaylistDetail { selected: 0 });
            KeyAction::Continue
        } else if self.is_nav_up(code) {
            self.layers.overlay = Some(Overlay::PlaylistDetail { selected: step_up(selected) });
            KeyAction::Continue
        } else if self.is_nav_down(code) {
            let count: usize = self.playlist_detail_places().len();
            self.layers.overlay = Some(
                Overlay::PlaylistDetail { selected: step_down(selected, count) },
            );
            KeyAction::Continue
        } else if code == KeyCode::Enter {
            match self.focused_playlist_track(selected) {
                Some((index, _)) => KeyAction::SendCommand(Command::PlayFromPlaylist { index }),
                None => KeyAction::Continue,
            }
        } else if code == KeyCode::Char('d') {
            match &self.data.playlist_detail {
                Some(d) => KeyAction::SendCommand(
                    Command::DownloadPlaylistOffline { playlist_id: d.playlist_id.clone() },
                ),
                None => KeyAction::Continue,
            }
        } else if code == KeyCode::Char('w') {
            self.layers.push_overlay(Overlay::WaitingList { selected: 0 });
            KeyAction::Continue
        } else {
            self.player_control_action(code)
        }
    }

    /// Handles a key on a show's episodes, at this row.
    pub fn handle_show_detail_key(&mut self, key: KeyEvent, selected: usize) -> (r: KeyAction)
        ensures
            (final(self)@, r@) == old(self)@.show_key(key.code, selected),
    {
        proof {
            reveal(ClientView::show_key);
        }
        let code: KeyCode = key.code;
        if code == KeyCode::Esc {
            self.layers.pop_overlay();
            KeyAction::Continue
        } else if self.is_nav_up(code) {
            self.layers.overlay = Some(Overlay::ShowDetail { selected: step_up(selected) });
            KeyAction::Continue
        } else if self.is_nav_down(code) {
            let count: usize = match &self.data.playlist_detail {
                Some(d) => d.tracks.len(),
                None => 0,
            };
            self.layers.overlay = Some(
                Overlay::ShowDetail { selected: step_down(selected, count) },
            );
            KeyAction::Continue
        } else if code == KeyCode::Enter {
            KeyAction::SendCommand(Command::PlayFromPlaylist { index: selected })
        } else if code == KeyCode::Char('w') {
            self.layers.push_overlay(Overlay::WaitingList { selected: 0 });
            KeyAction::Continue
        } else {
            self.player_control_action(code)
        }
    }

    fn genre_detail_list_len(&self, tab: GenreDetailSubTab) -> (r: usize)
        ensures
            r == genre_rows(self.data.genre_detail, tab),
    {
        match &self.data.genre_detail {
            Some(d) => match tab {
                GenreDetailSubTab::Tracks => d.tracks.len(),
                GenreDetailSubTab::Albums => d.albums.len(),
                GenreDetailSubTab::Artists => d.artists.len(),
                GenreDetailSubTab::Playlists => d.playlists.len(),
                GenreDetailSubTab::Radios => d.radios.len(),
            },
            None => 0,
        }
    }

    fn enter_on_genre_page(&mut self, tab: GenreDetailSubTab, selected: usize) -> (r: KeyAction)
        ensures
            (final(self)@, r@) == old(self)@.genre_entered(tab, selected),
    {
        let detail: &GenreDetail = match &self.data.genre_detail {
            Some(d) => d,
            None => {
                return KeyAction::Continue;
            },
        };
        match tab {
            GenreDetailSubTab::Tracks => if selected < detail.tracks.len() {
                KeyAction::SendCommand(Command::PlayFromGenreTrack { index: selected })
            } else {
                KeyAction::Continue
            },
            GenreDetailSubTab::Albums => match client::at(&detail.albums, selected) {
                Some(a) => {
                    let album_id: String = a.album_id.clone();
                    self.layers.push_overlay(Overlay::AlbumDetail { from_artist: false });
                    self.pages.album.selected = 0;
                    self.pages.album.left_scroll = 0;
                    self.pages.album.left_focused = false;
                    KeyAction::SendCommand(Command::GetAlbumDetail { album_id })
                },
                None => KeyAction::Continue,
            },
            GenreDetailSubTab::Artists => match client::at(&detail.artists, selected) {
                Some(a) => {
                    let artist_id: String = a.artist_id.clone();
                    self.layers.push_overlay(Overlay::ArtistDetail);
                    self.pages.artist.selected = 0;
                    self.pages.artist.left_scroll = 0;
                    self.pages.artist.left_focused = false;
                    KeyAction::SendCommand(Command::GetArtistDetail { artist_id })
                },
                None => KeyAction::Continue,
            },
            GenreDetailSubTab::Playlists => match client::at(&detail.playlists, selected) {
                Some(p) => {
                    let playlist_id: String = p.playlist_id.clone();
                    self.pages.reset_playlist_detail_filter();
                    self.layers.push_overlay(Overlay::PlaylistDetail { selected: 0 });
                    KeyAction::SendCommand(Command::GetPlaylistDetail { playlist_id })
                },
                None => KeyAction::Continue,
            },
            GenreDetailSubTab::Radios => if selected < detail.radios.len() {
                KeyAction::SendCommand(Command::PlayFromGenreRadio { index: selected })
            } else {
                KeyAction::Continue
            },
        }
    }

    /// Handles a key on the genre page, at this row of this list.
    pub fn handle_genre_detail_key(
        &mut self,
        key: KeyEvent,
        tab: GenreDetailSubTab,
        selected: usize,
    ) -> (r: KeyAction)
        ensures
            (final(self)@, r@) == old(self)@.genre_key(key.code, tab, selected),
    {
        proof {
            reveal(ClientView::genre_key);
        }
        let code: KeyCode = key.code;
        if is_like_key(code, self.vim_keys) && tab == GenreDetailSubTab::Tracks {
            let track: Option<TrackData> = copied(self.focused_genre_track(tab, selected));
            self.toggle_opt(track)
        } else if code == KeyCode::Esc {
            self.layers.pop_overlay();
            KeyAction::Continue
        } else if self.is_nav_left(code) {
            self.layers.overlay = Some(
                Overlay::GenreDetail { sub_tab: tab.prev(), selected: 0 },
            );
            KeyAction::Continue
        } else if self.is_nav_right(code) {
            self.layers.overlay = Some(
                Overlay::GenreDetail { sub_tab: tab.next(), selected: 0 },
            );
            KeyAction::Continue
        } else if self.is_nav_up(code) {
            self.layers.overlay = Some(
                Overlay::GenreDetail { sub_tab: tab, selected: step_up(selected) },
            );
            KeyAction::Continue
        } else if self.is_nav_down(code) {
            let count: usize = self.genre_detail_list_len(tab);
            self.layers.overlay = Some(
                Overlay::GenreDetail { sub_tab: tab, selected: step_down(selected, count) },
            );
            KeyAction::Continue
        } else if code == KeyCode::Enter {
            self.enter_on_genre_page(tab, selected)
        } else {
            self.player_control_action(code)
        }
    }

    /// Handles a key on the waiting list, at this row.
    pub fn handle_waiting_list_key(&mut self, key: KeyEvent, selected: usize) -> (r: KeyAction)
        ensures
            (final(self)@, r@) == old(self)@.waiting_key(key.code, selected),
    {
        proof {
            reveal(ClientView::waiting_key);
        }
        let code: KeyCode = key.code;
        let len: usize = self.data.queue.len();
        if code == KeyCode::Char('x') {
            let track: Option<TrackData> = copied(client::at(&self.data.queue, selected));
            self.open_track_menu(track);
            KeyAction::Continue
        } else if code == KeyCode::Enter {
            if selected < len {
                KeyAction::SendCommand(Command::PlayFromQueue { index: selected })
            } else {
                KeyAction::Continue
            }
        } else if code == KeyCode::Esc || code == KeyCode::Char('w') {
            self.layers.pop_overlay();
            KeyAction::Continue
        } else if self.is_nav_up(code) {
            self.layers.overlay = Some(Overlay::WaitingList { selected: step_up(selected) });
            KeyAction::Continue
        } else if self.is_nav_down(code) {
            self.layers.overlay = Some(
                Overlay::WaitingList { selected: step_down(selected, len) },
            );
            KeyAction::Continue
        } else if code == KeyCode::Delete || code == KeyCode::Char('d') {
            if selected != self.data.queue_index && selected < len {
                let new_selected: usize = if selected >= len - 1 {
                    step_up(selected)
                } else {
                    selected
                };
                self.layers.overlay = Some(Overlay::WaitingList { selected: new_selected });
                KeyAction::SendCommand(Command::RemoveFromQueue { index: selected })
            } else {
                KeyAction::Continue
            }
        } else if is_like_key(code, self.vim_keys) {
            let track: Option<TrackData> = copied(client::at(&self.data.queue, selected));
            self.toggle_opt(track)
        } else {
            self.player_control_action(code)
        }
    }

    /// Handles a key on the playback page, at this row of its queue.
    pub fn handle_now_playing_key(&mut self, key: KeyEvent, selected: usize) -> (r: KeyAction)
        ensures
            (final(self)@, r@) == old(self)@.now_playing_key(key.code, selected),
    {
        proof {
            reveal(ClientView::now_playing_key);
        }
        let code: KeyCode = key.code;
        let len: usize = self.data.queue.len();
        if code == KeyCode::Char('x') {
            let track: Option<TrackData> = copied(client::at(&self.data.queue, selected));
            self.open_track_menu(track);
            KeyAction::Continue
        } else if code == KeyCode::Esc || code == KeyCode::Char('p') {
            self.layers.pop_overlay();
            KeyAction::Continue
        } else if code == KeyCode::Enter {
            if selected < len {
                KeyAction::SendCommand(Command::PlayFromQueue { index: selected })
            } else {
                KeyAction::Continue
            }
        } else if code == KeyCode::Up || code == KeyCode::Char('k') {
            self.layers.overlay = Some(Overlay::NowPlaying { selected: step_up(selected) });
            KeyAction::Continue
        } else if code == KeyCode::Down || code == KeyCode::Char('j') {
            self.layers.overlay = Some(
                Overlay::NowPlaying { selected: step_down(selected, len) },
            );
            KeyAction::Continue
        } else if code == KeyCode::Delete || code == KeyCode::Char('d') {
            if selected != self.data.queue_index && selected < len {
                let shorter: usize = if len == 0 {
                    0
                } else {
                    len - 1
                };
                self.layers.overlay = Some(
                    Overlay::NowPlaying { selected: client::clamp(selected, shorter) },
                );
                KeyAction::SendCommand(Command::RemoveFromQueue { index: selected })
            } else {
                KeyAction::Continue
            }
        } else if code == KeyCode::Char('f') {
            match client::at(&self.data.queue, selected) {
                Some(t) => {
                    let liked: bool = self.is_track_favorite(&t.track_id);
                    KeyAction::SendCommand(toggle_favorite_command(liked, t.track_id.clone()))
                },
                None => KeyAction::Continue,
            }
        } else {
            self.player_control_action(code)
        }
    }

    fn type_in_offline_filter(&mut self, code: KeyCode, playlist: bool, index: usize)
        ensures
            final(self)@ == old(self)@.offline_typed(code, playlist, index),
    {
        match code {
            KeyCode::Esc => {
                self.tabs.offline.clear_detail(false);
                self.layers.overlay = Some(
                    Overlay::OfflineDetail { playlist, index, selected: 0 },
                );
            },
            KeyCode::Enter => {
                self.tabs.offline.detail_filter_typing = false;
            },
            KeyCode::Char(c) => {
                push_char(&mut self.tabs.offline.detail_filter_input, c);
                self.layers.overlay = Some(
                    Overlay::OfflineDetail { playlist, index, selected: 0 },
                );
            },
            KeyCode::Backspace => {
                self.tabs.offline.detail_filter_input = drop_last_char(
                    &self.tabs.offline.detail_filter_input,
                );
                self.layers.overlay = Some(
                    Overlay::OfflineDetail { playlist, index, selected: 0 },
                );
            },
            _ => {},
        }
    }

    fn enter_on_download(&self, playlist: bool, index: usize, selected: usize) -> (r: KeyAction)
        ensures
            (self@, r@) == self@.offline_entered(playlist, index, selected),
    {
        let at: Vec<usize> = self.offline_detail_places(playlist, index);
        if selected >= at.len() {
            return KeyAction::Continue;
        }
        let track_index: usize = at[selected];
        if playlist {
            match client::at(&self.data.offline_playlists, index) {
                Some(p) => KeyAction::SendCommand(
                    Command::PlayOfflinePlaylist {
                        playlist_id: p.playlist_id.clone(),
                        track_index,
                    },
                ),
                None => KeyAction::Continue,
            }
        } else {
            match client::at(&self.data.offline_albums, index) {
                Some(a) => KeyAction::SendCommand(
                    Command::PlayOfflineAlbum { album_id: a.album_id.clone(), track_index },
                ),
                None => KeyAction::Continue,
            }
        }
    }

    fn open_download_menu(&mut self, playlist: bool, index: usize, selected: usize)
        ensures
            final(self)@ == old(self)@.offline_menu_of(playlist, index, selected),
    {
        let track: Option<TrackData> = {
            let pairs: Vec<(usize, &TrackData)> = self.offline_detail_tracks(playlist, index);
            if selected < pairs.len() {
                let (_, t) = pairs[selected];
                Some(t.clone())
            } else {
                None
            }
        };
        match track {
            Some(track) => {
                self.layers.popup = Some(
                    PopupMenu::remove_offline_only(PopupTarget::Track(Box::new(track))),
                );
            },
            None => {},
        }
    }

    /// Handles a key on the downloads modal, at this row.
    pub fn handle_offline_detail_key(
        &mut self,
        key: KeyEvent,
        playlist: bool,
        index: usize,
        selected: usize,
    ) -> (r: KeyAction)
        ensures
            (final(self)@, r@) == old(self)@.offline_key(key.code, playlist, index, selected),
    {
        proof {
            reveal(ClientView::offline_key);
        }
        let code: KeyCode = key.code;
        if self.tabs.offline.detail_filter_typing && code != KeyCode::Up && code != KeyCode::Down {
            self.type_in_offline_filter(code, playlist, index);
            KeyAction::Continue
        } else if code == KeyCode::Esc {
            self.tabs.offline.detail_filter_input = String::new();
            self.layers.pop_overlay();
            KeyAction::Continue
        } else if code == KeyCode::Char('/') {
            self.tabs.offline.clear_detail(true);
            self.layers.overlay = Some(Overlay::OfflineDetail { playlist, index, selected: 0 });
            KeyAction::Continue
        } else if self.is_nav_up(code) {
            self.layers.overlay = Some(
                Overlay::OfflineDetail { playlist, index, selected: step_up(selected) },
            );
            KeyAction::Continue
        } else if self.is_nav_down(code) {
            let count: usize = self.offline_detail_places(playlist, index).len();
            self.layers.overlay = Some(
                Overlay::OfflineDetail { playlist, index, selected: step_down(selected, count) },
            );
            KeyAction::Continue
        } else if code == KeyCode::Enter {
            self.enter_on_download(playlist, index, selected)
        } else if code == KeyCode::Char('x') {
            self.open_download_menu(playlist, index, selected);
            KeyAction::Continue
        } else {
            self.player_control_action(code)
        }
    }
}

} // verus!
