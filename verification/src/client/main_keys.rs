//! Keys on the main view and the login screen, and the shortcuts that work
//! everywhere.

use vstd::prelude::*;

use crate::client;
use crate::client::likes::Step;
use crate::client::popup;
use crate::client::popup::{edit_name, PopupMenu, PopupTarget};
use crate::client::state::{ClientView, LoginPaneView, TabsView, ViewState};
use crate::client::view;
use crate::client::{
    step_down_if_any, step_up, ActionView, CommandView, InputMode, KeyAction, KeyCode, KeyContext,
    KeyEvent, LoginMode, Overlay,
};
use crate::models::DisplayItem;
use crate::protocol::{
    ActiveTab, Command, ExploreCategory, GenreDetailSubTab, OfflineCategory, RadioItem, Screen,
};
use crate::seqs;
use crate::text;
use crate::text::{drop_last_char, first_word, parse_unsigned, push_char};

verus! {

/// A key that moves through a narrowed list without leaving its filter.
pub open spec fn vertical(code: KeyCode) -> bool {
    code == KeyCode::Up || code == KeyCode::Down
}

/// The first station with this id stands here.
pub open spec fn is_first_radio(items: Seq<RadioItem>, id: u64, i: int) -> bool {
    0 <= i < items.len() && items[i].id == id && forall|k: int|
        0 <= k < i ==> (#[trigger] items[k]).id != id
}

/// Where the first station with this id stands; at the top where there is none.
pub open spec fn radio_place(items: Seq<RadioItem>, id: u64) -> usize {
    if exists|i: int| is_first_radio(items, id, i) {
        (choose|i: int| is_first_radio(items, id, i)) as usize
    } else {
        0
    }
}

fn find_radio(items: &Vec<RadioItem>, id: u64) -> (r: usize)
    ensures
        r == radio_place(items@, id),
{
    let mut i: usize = 0;
    while i < items.len()
        invariant
            i <= items@.len(),
            forall|k: int| 0 <= k < i ==> (#[trigger] items@[k]).id != id,
        decreases items@.len() - i,
    {
        if items[i].id == id {
            proof {
                assert(is_first_radio(items@, id, i as int));
                let j = choose|j: int| is_first_radio(items@, id, j);
                if j < i {
                    assert(items@[j].id != id);
                } else if i < j {
                    assert(items@[i as int].id != id);
                }
            }
            return i;
        }
        i = i + 1;
    }
    proof {
        assert forall|j: int| !is_first_radio(items@, id, j) by {
            if is_first_radio(items@, id, j) {
                assert(items@[j].id != id);
            }
        }
    }
    0
}

/// A station of the list is found again by its id, also where a filter hides the
/// others.
pub proof fn stations_are_found_again(items: Seq<RadioItem>, radio: RadioItem)
    requires
        items.contains(radio),
        items.len() <= usize::MAX,
    ensures
        radio_place(items, radio.id) < items.len(),
        items[radio_place(items, radio.id) as int].id == radio.id,
{
    let i = choose|i: int| 0 <= i < items.len() && items[i] == radio;
    first_radio_exists(items, radio.id, i);
}

proof fn first_radio_exists(items: Seq<RadioItem>, id: u64, i: int)
    requires
        0 <= i < items.len(),
        items[i].id == id,
    ensures
        exists|j: int| is_first_radio(items, id, j),
    decreases i,
{
    if forall|k: int| 0 <= k < i ==> (#[trigger] items[k]).id != id {
        assert(is_first_radio(items, id, i));
    } else {
        let k = choose|k: int| 0 <= k < i && (#[trigger] items[k]).id == id;
        first_radio_exists(items, id, k);
    }
}

/// How many songs a playlist's row says it has.
pub open spec fn songs_of(col3: Seq<char>) -> u64 {
    match text::first_word_of(col3) {
        Some(word) => match text::unsigned_of(word, u64::MAX as nat) {
            Some(n) => n as u64,
            None => 0,
        },
        None => 0,
    }
}

fn count_songs(col3: &str) -> (r: u64)
    ensures
        r == songs_of(col3@),
{
    match first_word(col3) {
        Some(word) => match parse_unsigned(&word, u64::MAX) {
            Some(n) => n,
            None => 0,
        },
        None => 0,
    }
}

/// The album that a row leads to: its own, or its track's.
pub open spec fn row_album(row: Option<DisplayItem>) -> Option<String> {
    match row {
        Some(row) => match row.album_id {
            Some(id) => Some(id),
            None => match row.track {
                Some(t) => t.album_id,
                None => None,
            },
        },
        None => None,
    }
}

/// The artist that a row leads to: its own, or its track's.
pub open spec fn row_artist(row: Option<DisplayItem>) -> Option<String> {
    match row {
        Some(row) => match row.artist_id {
            Some(id) => Some(id),
            None => match row.track {
                Some(t) => t.artist_id,
                None => None,
            },
        },
        None => None,
    }
}

fn album_of_row(row: Option<&DisplayItem>) -> (r: Option<String>)
    ensures
        r == row_album(
            match row {
                Some(x) => Some(*x),
                None => None,
            },
        ),
{
    match row {
        Some(row) => match &row.album_id {
            Some(id) => Some(id.clone()),
            None => match &row.track {
                Some(t) => t.album_id.clone(),
                None => None,
            },
        },
        None => None,
    }
}

fn artist_of_row(row: Option<&DisplayItem>) -> (r: Option<String>)
    ensures
        r == row_artist(
            match row {
                Some(x) => Some(*x),
                None => None,
            },
        ),
{
    match row {
        Some(row) => match &row.artist_id {
            Some(id) => Some(id.clone()),
            None => match &row.track {
                Some(t) => t.artist_id.clone(),
                None => None,
            },
        },
        None => None,
    }
}

/// What a row without a track leads to.
#[derive(Debug)]
pub enum RowPage {
    Artist(String),
    Album(String),
    Playlist(String),
    Show(String),
    Nothing,
}

/// The page that a row leads to: none for a row with a track.
pub open spec fn page_of(row: Option<DisplayItem>) -> RowPage {
    match row {
        Some(row) => if row.track is Some {
            RowPage::Nothing
        } else if row.artist_id is Some {
            RowPage::Artist(row.artist_id->0)
        } else if row.album_id is Some {
            RowPage::Album(row.album_id->0)
        } else if row.playlist_id is Some {
            RowPage::Playlist(row.playlist_id->0)
        } else if row.show_id is Some {
            RowPage::Show(row.show_id->0)
        } else {
            RowPage::Nothing
        },
        None => RowPage::Nothing,
    }
}

fn row_page(row: Option<&DisplayItem>) -> (r: RowPage)
    ensures
        r == page_of(
            match row {
                Some(x) => Some(*x),
                None => None,
            },
        ),
{
    match row {
        Some(row) => {
            if row.track.is_some() {
                return RowPage::Nothing;
            }
            match &row.artist_id {
                Some(id) => {
                    return RowPage::Artist(id.clone());
                },
                None => {},
            }
            match &row.album_id {
                Some(id) => {
                    return RowPage::Album(id.clone());
                },
                None => {},
            }
            match &row.playlist_id {
                Some(id) => {
                    return RowPage::Playlist(id.clone());
                },
                None => {},
            }
            match &row.show_id {
                Some(id) => RowPage::Show(id.clone()),
                None => RowPage::Nothing,
            }
        },
        None => RowPage::Nothing,
    }
}

impl ClientView {
    /// The row under the cursor of a tab that lists rows.
    pub open spec fn listed_row(self) -> Option<DisplayItem> {
        match self.data.active_tab {
            ActiveTab::Search => self.search_row(),
            ActiveTab::Favorites => self.favorites_row(),
            ActiveTab::Explore => if self.data.explore_category == ExploreCategory::NewReleases {
                client::nth(self.data.new_releases@, self.tabs.new_releases_selected as int)
            } else {
                None
            },
            ActiveTab::Downloads => None,
        }
    }

    /// What the Downloads tab's cursor points at.
    pub open spec fn offline_target(self) -> Option<PopupTarget> {
        match self.data.offline_category {
            OfflineCategory::Tracks => match self.offline_track() {
                Some(t) => Some(PopupTarget::Track(Box::new(t.track))),
                None => None,
            },
            OfflineCategory::Albums => match self.offline_album_place() {
                Some(i) => {
                    let a = self.data.offline_albums@[i as int];
                    Some(
                        PopupTarget::Album {
                            album_id: a.album_id,
                            title: a.title,
                            artist: a.artist,
                        },
                    )
                },
                None => None,
            },
            OfflineCategory::Playlists => match self.offline_playlist_place() {
                Some(i) => {
                    let p = self.data.offline_playlists@[i as int];
                    Some(
                        PopupTarget::Playlist {
                            playlist_id: p.playlist_id,
                            title: p.title,
                            nb_songs: p.nb_tracks,
                        },
                    )
                },
                None => None,
            },
        }
    }

    /// The menu of a row.
    pub open spec fn row_menu(self, row: DisplayItem) -> Option<popup::PopupView> {
        match row.track {
            Some(track) => Some(popup::full_menu(track, self.likes(track.track_id@))),
            None => if row.artist_id is Some {
                let id = row.artist_id->0;
                Some(
                    popup::artist_menu(
                        id,
                        row.col1,
                        seqs::listed(self.data.favorite_artist_ids@, id@),
                    ),
                )
            } else if row.album_id is Some {
                let id = row.album_id->0;
                Some(
                    popup::album_menu(
                        id,
                        row.col1,
                        row.col2,
                        seqs::listed(self.data.favorite_album_ids@, id@),
                    ),
                )
            } else if row.playlist_id is Some {
                Some(popup::playlist_menu(row.playlist_id->0, row.col1, songs_of(row.col3@)))
            } else {
                None
            },
        }
    }

    /// The menu of what is under the cursor, if that has one.
    pub open spec fn item_menu(self) -> Option<popup::PopupView> {
        if self.data.active_tab == ActiveTab::Downloads {
            match self.offline_target() {
                Some(target) => Some(popup::offline_menu(target)),
                None => None,
            }
        } else {
            match self.listed_row() {
                Some(row) => self.row_menu(row),
                None => None,
            }
        }
    }

    /// The menu of what is under the cursor opened.
    #[verifier::opaque]
    pub open spec fn item_popup(self) -> ClientView {
        match self.item_menu() {
            Some(menu) => self.with_layers(self.layers.with_popup(menu)),
            None => self,
        }
    }

    /// The album of what is under the cursor opened.
    #[verifier::opaque]
    pub open spec fn album_opened(self) -> Step {
        match row_album(self.listed_row()) {
            Some(album_id) => self.with_layers(
                self.layers.nav_set(Overlay::AlbumDetail { from_artist: false }),
            ).album_pane(self.pages.album.at_top()).and_sends(Command::GetAlbumDetail { album_id }),
            None => self.stays(),
        }
    }

    /// The artist of what is under the cursor opened.
    #[verifier::opaque]
    pub open spec fn artist_opened(self) -> Step {
        match row_artist(self.listed_row()) {
            Some(artist_id) => self.with_layers(
                self.layers.nav_set(Overlay::ArtistDetail),
            ).artist_pane(self.pages.artist.at_top()).and_sends(
                Command::GetArtistDetail { artist_id },
            ),
            None => self.stays(),
        }
    }

    /// The downloaded album or playlist under the cursor opened.
    #[verifier::opaque]
    pub open spec fn download_opened(self) -> Step {
        let playlist = self.data.offline_category == OfflineCategory::Playlists;
        let place = if playlist {
            self.offline_playlist_place()
        } else {
            self.offline_album_place()
        };
        match place {
            Some(index) => self.with_offline(
                self.tabs.offline.with_detail(Seq::empty(), false),
            ).pushes(Overlay::OfflineDetail { playlist, index, selected: 0 }).stays(),
            None => self.stays(),
        }
    }

    /// Going up or down in a list of the Explore tab.
    #[verifier::opaque]
    pub open spec fn explore_moved(self, down: bool) -> Step {
        let t = self.tabs;
        match self.data.explore_category {
            ExploreCategory::Moods => self.with_tabs(
                TabsView {
                    moods_selected: if down {
                        client::down_if_any(t.moods_selected, t.moods.len())
                    } else {
                        client::up(t.moods_selected)
                    },
                    ..t
                },
            ).stays(),
            ExploreCategory::NewReleases => {
                let index = if down {
                    client::down_if_any(t.new_releases_selected, self.data.new_releases@.len())
                } else {
                    client::up(t.new_releases_selected)
                };
                self.with_tabs(TabsView { new_releases_selected: index, ..t }).and_sends(
                    Command::SelectIndex { index },
                )
            },
            ExploreCategory::Categories => self.with_tabs(
                TabsView {
                    genres: t.genres.at(
                        if down {
                            client::down_if_any(t.genres.selected, t.genres.shown.len())
                        } else {
                            client::up(t.genres.selected)
                        },
                    ),
                    ..t
                },
            ).stays(),
            ExploreCategory::Radios => self.with_tabs(
                TabsView {
                    radios: t.radios.at(
                        if down {
                            client::down_if_any(t.radios.selected, t.radios.shown.len())
                        } else {
                            client::up(t.radios.selected)
                        },
                    ),
                    ..t
                },
            ).stays(),
        }
    }

    /// Going up or down in the main list: here where the client has its own
    /// cursor, at the player otherwise.
    #[verifier::opaque]
    pub open spec fn list_moved(self, down: bool) -> Step {
        let o = self.tabs.offline;
        let f = self.tabs.favorites;
        if self.data.active_tab == ActiveTab::Explore {
            self.explore_moved(down)
        } else if self.data.active_tab == ActiveTab::Downloads && o.filtering() {
            self.with_offline(
                o.filter_at(
                    if down {
                        client::down_if_any(o.filter_selected, self.offline_len())
                    } else {
                        client::up(o.filter_selected)
                    },
                ),
            ).stays()
        } else if self.data.active_tab == ActiveTab::Favorites && f.filtering() {
            self.with_favorites(
                f.filter_at(
                    if down {
                        client::down_if_any(f.filter_selected, f.filtered.len())
                    } else {
                        client::up(f.filter_selected)
                    },
                ),
            ).stays()
        } else {
            self.and_sends(
                if down {
                    Command::SelectDown
                } else {
                    Command::SelectUp
                },
            )
        }
    }

    /// A page opened from a row.
    #[verifier::opaque]
    pub open spec fn page_opened(self, page: RowPage) -> Step {
        match page {
            RowPage::Artist(artist_id) => self.with_layers(
                self.layers.nav_set(Overlay::ArtistDetail),
            ).artist_pane(self.pages.artist.reset()).and_sends(
                Command::GetArtistDetail { artist_id },
            ),
            RowPage::Album(album_id) => self.with_layers(
                self.layers.nav_set(Overlay::AlbumDetail { from_artist: false }),
            ).album_pane(self.pages.album.reset()).and_sends(Command::GetAlbumDetail { album_id }),
            RowPage::Playlist(playlist_id) => self.with_pages(
                self.pages.with_filter(Seq::empty(), false),
            ).with_layers(self.layers.nav_set(Overlay::PlaylistDetail { selected: 0 })).and_sends(
                Command::GetPlaylistDetail { playlist_id },
            ),
            RowPage::Show(show_id) => self.with_layers(
                self.layers.nav_set(Overlay::ShowDetail { selected: 0 }),
            ).and_sends(Command::GetShowDetail { show_id }),
            RowPage::Nothing => self.stays(),
        }
    }

    /// Choosing what is under the Explore tab's cursor.
    #[verifier::opaque]
    pub open spec fn explore_entered(self) -> Step {
        let t = self.tabs;
        match self.data.explore_category {
            ExploreCategory::Moods => if t.moods.len() == 0 {
                self.stays()
            } else {
                self.and_sends(Command::PlayFromMood { index: t.moods_selected })
            },
            ExploreCategory::NewReleases => self.and_sends(
                Command::PlayFromNewReleases { index: t.new_releases_selected },
            ),
            ExploreCategory::Radios => match client::nth(
                t.radios.shown,
                t.radios.selected as int,
            ) {
                Some(radio) => self.and_sends(
                    Command::PlayFromRadio { index: radio_place(t.radios.items, radio.id) },
                ),
                None => self.stays(),
            },
            ExploreCategory::Categories => match client::nth(
                t.genres.shown,
                t.genres.selected as int,
            ) {
                Some(genre) => self.with_layers(
                    self.layers.nav_set(
                        Overlay::GenreDetail { sub_tab: GenreDetailSubTab::Tracks, selected: 0 },
                    ),
                ).and_sends(Command::GetGenreDetail { genre_id: genre.id, name: genre.name }),
                None => self.stays(),
            },
        }
    }

    /// The row that Enter looks at for a page to open.
    pub open spec fn entered_row(self) -> Option<DisplayItem> {
        match self.data.active_tab {
            ActiveTab::Search => self.search_row(),
            ActiveTab::Favorites => self.favorites_row(),
            _ => None,
        }
    }

    /// Choosing what is under the cursor: its page, or playing it.
    #[verifier::opaque]
    pub open spec fn entered(self) -> Step {
        let page = page_of(self.entered_row());
        if page is Nothing {
            match self.data.active_tab {
                ActiveTab::Search => self.and_sends(
                    Command::PlayFromSearch { index: self.tabs.search_selected },
                ),
                ActiveTab::Favorites => self.and_sends(
                    Command::PlayFromFavorites { index: self.tabs.favorites.original() },
                ),
                ActiveTab::Explore => self.explore_entered(),
                ActiveTab::Downloads => if self.data.offline_category == OfflineCategory::Tracks {
                    self.and_sends(Command::PlayFromOffline { index: self.offline_track_index() })
                } else {
                    self.download_opened()
                },
            }
        } else {
            self.page_opened(page)
        }
    }

    /// A key typed into the search input.
    #[verifier::opaque]
    pub open spec fn search_typed(self, code: KeyCode) -> Step {
        match code {
            KeyCode::Esc => ClientView { input_mode: InputMode::Normal, ..self }.stays(),
            KeyCode::Enter => (
                ClientView { input_mode: InputMode::Normal, ..self },
                if self.search_input.len() > 0 {
                    ActionView::Send(CommandView::Search(self.search_input))
                } else {
                    ActionView::Continue
                },
            ),
            KeyCode::Char(c) => ClientView {
                search_input: self.search_input.push(c),
                ..self
            }.stays(),
            KeyCode::Backspace => ClientView {
                search_input: text::without_last(self.search_input),
                ..self
            }.stays(),
            _ => self.stays(),
        }
    }

    /// A key typed into the favorites' filter.
    #[verifier::opaque]
    pub open spec fn favorites_typed(self, code: KeyCode) -> Step {
        let rows = self.data.favorites_display@;
        match code {
            KeyCode::Esc | KeyCode::Enter => self.with_favorites(
                self.tabs.favorites.left(),
            ).stays(),
            KeyCode::Char(c) => self.with_favorites(self.tabs.favorites.typed(rows, c)).stays(),
            KeyCode::Backspace => self.with_favorites(self.tabs.favorites.erased(rows)).stays(),
            _ => self.stays(),
        }
    }

    /// A key typed into the downloads' filter.
    #[verifier::opaque]
    pub open spec fn downloads_typed(self, code: KeyCode) -> Step {
        let o = self.tabs.offline;
        match code {
            KeyCode::Esc => self.with_offline(o.with_filter(Seq::empty(), false)).stays(),
            KeyCode::Enter => self.with_offline(o.with_focus(false)).stays(),
            KeyCode::Char(c) => self.with_offline(
                o.with_filter(o.filter_input.push(c), o.filter_typing),
            ).stays(),
            KeyCode::Backspace => self.with_offline(
                o.with_filter(text::without_last(o.filter_input), o.filter_typing),
            ).stays(),
            _ => self.stays(),
        }
    }

    /// A key typed into the stations' filter.
    #[verifier::opaque]
    pub open spec fn radios_typed(self, code: KeyCode) -> Step {
        let t = self.tabs;
        match code {
            KeyCode::Esc | KeyCode::Enter => self.with_tabs(
                TabsView { radios: t.radios.left(), ..t },
            ).stays(),
            KeyCode::Char(c) => self.with_tabs(
                TabsView { radios: t.radios.typed(c), ..t },
            ).stays(),
            KeyCode::Backspace => self.with_tabs(
                TabsView { radios: t.radios.erased(), ..t },
            ).stays(),
            _ => self.stays(),
        }
    }

    /// A key typed into the genres' filter.
    #[verifier::opaque]
    pub open spec fn genres_typed(self, code: KeyCode) -> Step {
        let t = self.tabs;
        match code {
            KeyCode::Esc | KeyCode::Enter => self.with_tabs(
                TabsView { genres: t.genres.left(), ..t },
            ).stays(),
            KeyCode::Char(c) => self.with_tabs(
                TabsView { genres: t.genres.typed(c), ..t },
            ).stays(),
            KeyCode::Backspace => self.with_tabs(
                TabsView { genres: t.genres.erased(), ..t },
            ).stays(),
            _ => self.stays(),
        }
    }

    /// A key on the main view, no text being typed.
    #[verifier::opaque]
    pub open spec fn normal_key(self, code: KeyCode) -> Step {
        if code == KeyCode::Tab || code == KeyCode::BackTab {
            if self.data.is_offline {
                self.stays()
            } else if code == KeyCode::Tab {
                self.and_sends(Command::NextTab)
            } else {
                self.and_sends(Command::PrevTab)
            }
        } else if code == KeyCode::Char('/') {
            self.filter_focused(true).stays()
        } else if code == KeyCode::Char('x') {
            self.item_popup().stays()
        } else if code == KeyCode::Char('a') {
            self.album_opened()
        } else if code == KeyCode::Char('t') {
            self.artist_opened()
        } else if code == KeyCode::Char('w') {
            self.pushes(Overlay::WaitingList { selected: 0 }).stays()
        } else if view::goes_left(code, self.vim_keys) {
            self.and_sends(Command::PrevCategory)
        } else if view::goes_right(code, self.vim_keys) {
            self.and_sends(Command::NextCategory)
        } else if view::goes_up(code, self.vim_keys) {
            self.list_moved(false)
        } else if view::goes_down(code, self.vim_keys) {
            self.list_moved(true)
        } else if code == KeyCode::Enter {
            self.entered()
        } else {
            self.letter_key(code)
        }
    }

    /// The rest of the keys on the main view.
    #[verifier::opaque]
    pub open spec fn letter_key(self, code: KeyCode) -> Step {
        if code == KeyCode::Char('g') {
            if self.data.active_tab == ActiveTab::Favorites {
                self.and_sends(Command::ShuffleFavorites)
            } else {
                self.stays()
            }
        } else if code == KeyCode::Char('f') {
            self.and_sends(Command::StartFlow)
        } else if code == KeyCode::Char('L') || code == KeyCode::Char('l') {
            self.liked()
        } else if code == KeyCode::Esc {
            self.shows(Overlay::Settings { selected: 0 }).stays()
        } else {
            self.control_or_stay(code)
        }
    }

    /// A key on the main view, no page being open.
    #[verifier::opaque]
    pub open spec fn view_key(self, code: KeyCode) -> Step {
        if self.input_mode == InputMode::Typing {
            self.search_typed(code)
        } else if self.tabs.favorites.filter_typing && !vertical(code) {
            self.favorites_typed(code)
        } else if self.tabs.offline.filter_typing && !vertical(code) {
            self.downloads_typed(code)
        } else if self.tabs.radios.typing && !vertical(code) {
            self.radios_typed(code)
        } else if self.tabs.genres.typing && !vertical(code) {
            self.genres_typed(code)
        } else {
            self.normal_key(code)
        }
    }

    /// The menu of the playing track opened.
    pub open spec fn manage_popup(self) -> ClientView {
        match self.data.current_track {
            Some(track) => self.with_layers(
                self.layers.with_popup(popup::manage_menu(track, self.likes(track.track_id@))),
            ),
            None => self,
        }
    }

    /// A key while logged in.
    #[verifier::opaque]
    pub open spec fn main_key(self, key: KeyEvent, ctx: KeyContext) -> Step {
        if key.control('q') {
            (self, ActionView::Quit)
        } else if self.layers.popup is Some {
            self.popup_key(key.code, ctx)
        } else if key.control(' ') {
            self.manage_popup().stays()
        } else if self.layers.overlay is Some {
            self.overlay_key(key, ctx)
        } else {
            self.view_key(key.code)
        }
    }

    /// A key typed into the login input.
    pub open spec fn login_typed(self, code: KeyCode) -> Step {
        let l = self.login;
        match code {
            KeyCode::Esc => ClientView { login: l.emptied(LoginMode::Button), ..self }.stays(),
            KeyCode::Enter => if l.input.len() > 0 {
                (
                    ClientView { login: LoginPaneView { loading: true, ..l }, ..self },
                    ActionView::Send(CommandView::Login(l.input)),
                )
            } else {
                self.stays()
            },
            _ => {
                let (input, at) = popup::edited(l.input, l.cursor, code);
                ClientView {
                    login: LoginPaneView { input, cursor: at as usize, ..l },
                    ..self
                }.stays()
            },
        }
    }

    /// A key on the login screen.
    #[verifier::opaque]
    pub open spec fn login_key(self, code: KeyCode) -> Step {
        if self.login.loading {
            self.stays()
        } else if self.login.mode == LoginMode::ArlInput {
            self.login_typed(code)
        } else if code == KeyCode::Enter {
            (self, ActionView::WebLogin)
        } else if code == KeyCode::Char('w') {
            ClientView { login: self.login.emptied(LoginMode::ArlInput), ..self }.stays()
        } else if code == KeyCode::Esc {
            (self, ActionView::Quit)
        } else {
            self.stays()
        }
    }

    /// Single-letter shortcuts work: no text is being typed.
    pub open spec fn letters_free(self) -> bool {
        self.data.screen == Screen::Main && !self.text_input() && !self.layers.popup_typing()
    }

    /// Whether an overlay of this kind is on top.
    pub open spec fn toggles(self, on: bool, overlay: Overlay) -> Step {
        if on {
            self.pops().stays()
        } else {
            self.pushes(overlay).stays()
        }
    }

    /// A key with the control key held that works everywhere.
    #[verifier::opaque]
    pub open spec fn control_key(self, key: KeyEvent) -> Option<Step> {
        if key.control('o') {
            Some(
                self.toggles(
                    self.layers.overlay is Some && self.layers.overlay->0 is Settings,
                    Overlay::Settings { selected: 0 },
                ),
            )
        } else if key.control('f') {
            if self.data.screen == Screen::Main {
                Some(self.filter_focused(true).stays())
            } else {
                Some(self.stays())
            }
        } else if key.control('l') {
            if self.data.screen == Screen::Main {
                Some(self.liked())
            } else {
                Some(self.stays())
            }
        } else if key.code == KeyCode::Right && key.ctrl {
            Some(self.and_sends(Command::SeekForward { secs: 10 }))
        } else if key.code == KeyCode::Left && key.ctrl {
            Some(self.and_sends(Command::SeekBackward { secs: 10 }))
        } else if key.control('z') || key.control('Z') {
            Some((self, ActionView::Detach))
        } else {
            None
        }
    }

    /// A letter that opens or closes a screen wherever no text is typed.
    #[verifier::opaque]
    pub open spec fn toggle_key(self, key: KeyEvent) -> Option<Step> {
        let top = self.layers.overlay;
        if key.code == KeyCode::Char('?') && self.letters_free() {
            Some(self.toggles(top is Some && top->0 is Help, Overlay::Help { scroll: 0 }))
        } else if key.code == KeyCode::Char('i') && self.letters_free() {
            Some(self.toggles(top is Some && top->0 is Info, Overlay::Info))
        } else if key.code == KeyCode::Char('p') && self.letters_free() && self.layers.popup is None
            && !self.layers.modal() {
            Some(
                self.toggles(
                    top is Some && top->0 is NowPlaying,
                    Overlay::NowPlaying { selected: self.data.queue_index },
                ),
            )
        } else {
            None
        }
    }

    /// A key.
    #[verifier::opaque]
    pub open spec fn key(self, key: KeyEvent, ctx: KeyContext) -> Step {
        if key.control('c') {
            (self, ActionView::Detach)
        } else {
            match self.toggle_key(key) {
                Some(step) => step,
                None => match self.control_key(key) {
                    Some(step) => step,
                    None => match self.data.screen {
                        Screen::Login => self.login_key(key.code),
                        Screen::Main => self.main_key(key, ctx),
                    },
                },
            }
        }
    }
}

impl ViewState {
    fn selected_listed_row(&self) -> (r: Option<&DisplayItem>)
        ensures
            match r {
                Some(row) => self@.listed_row() == Some(*row),
                None => self@.listed_row() is None,
            },
    {
        match self.data.active_tab {
            ActiveTab::Search => self.selected_search_row(),
            ActiveTab::Favorites => self.favorites_selected_item(),
            ActiveTab::Explore => if self.data.explore_category == ExploreCategory::NewReleases {
                client::at(&self.data.new_releases, self.tabs.new_releases_selected)
            } else {
                None
            },
            ActiveTab::Downloads => None,
        }
    }

    /// What the Downloads tab's cursor points at.
    fn offline_popup_target(&self) -> (r: Option<PopupTarget>)
        ensures
            r == self@.offline_target(),
    {
        match self.data.offline_category {
            OfflineCategory::Tracks => match self.offline_selected_track() {
                Some(t) => Some(PopupTarget::Track(Box::new(t.track.clone()))),
                None => None,
            },
            OfflineCategory::Albums => match self.offline_selected_album() {
                Some((_, a)) => Some(
                    PopupTarget::Album {
                        album_id: a.album_id.clone(),
                        title: a.title.clone(),
                        artist: a.artist.clone(),
                    },
                ),
                None => None,
            },
            OfflineCategory::Playlists => match self.offline_selected_playlist() {
                Some((_, p)) => Some(
                    PopupTarget::Playlist {
                        playlist_id: p.playlist_id.clone(),
                        title: p.title.clone(),
                        nb_songs: p.nb_tracks,
                    },
                ),
                None => None,
            },
        }
    }

    fn menu_of_row(&self, row: &DisplayItem) -> (r: Option<PopupMenu>)
        ensures
            popup::opt_popup(r) == self@.row_menu(*row),
    {
        match &row.track {
            Some(track) => {
                let liked: bool = self.is_track_favorite(&track.track_id);
                return Some(PopupMenu::full(track.clone(), liked));
            },
            None => {},
        }
        match &row.artist_id {
            Some(id) => {
                let liked: bool = self.is_artist_favorite(id);
                return Some(PopupMenu::for_artist(id.clone(), row.col1.clone(), liked));
            },
            None => {},
        }
        match &row.album_id {
            Some(id) => {
                let liked: bool = self.is_album_favorite(id);
                return Some(
                    PopupMenu::for_album(id.clone(), row.col1.clone(), row.col2.clone(), liked),
                );
            },
            None => {},
        }
        match &row.playlist_id {
            Some(id) => Some(
                PopupMenu::for_playlist(id.clone(), row.col1.clone(), count_songs(&row.col3)),
            ),
            None => None,
        }
    }

    fn menu_of_item(&self) -> (r: Option<PopupMenu>)
        ensures
            popup::opt_popup(r) == self@.item_menu(),
    {
        if self.data.active_tab == ActiveTab::Downloads {
            match self.offline_popup_target() {
                Some(target) => Some(PopupMenu::remove_offline_only(target)),
                None => None,
            }
        } else {
            match self.selected_listed_row() {
                Some(row) => self.menu_of_row(row),
                None => None,
            }
        }
    }

    /// Opens the menu of what is under the cursor.
    pub fn open_item_popup(&mut self)
        ensures
            final(self)@ == old(self)@.item_popup(),
    {
        proof {
            reveal(ClientView::item_popup);
        }
        let menu: Option<PopupMenu> = self.menu_of_item();
        if menu.is_some() {
            self.layers.popup = menu;
        }
    }

    /// Opens the album of what is under the cursor.
    pub fn open_album_detail(&mut self) -> (r: KeyAction)
        ensures
            (final(self)@, r@) == old(self)@.album_opened(),
    {
        proof {
            reveal(ClientView::album_opened);
        }
        match album_of_row(self.selected_listed_row()) {
            Some(album_id) => {
                self.layers.set_nav_overlay(Overlay::AlbumDetail { from_artist: false });
                self.pages.album.selected = 0;
                KeyAction::SendCommand(Command::GetAlbumDetail { album_id })
            },
            None => KeyAction::Continue,
        }
    }

    /// Opens the artist of what is under the cursor.
    pub fn open_artist_detail(&mut self) -> (r: KeyAction)
        ensures
            (final(self)@, r@) == old(self)@.artist_opened(),
    {
        proof {
            reveal(ClientView::artist_opened);
        }
        match artist_of_row(self.selected_listed_row()) {
            Some(artist_id) => {
                self.layers.set_nav_overlay(Overlay::ArtistDetail);
                self.pages.artist.selected = 0;
                KeyAction::SendCommand(Command::GetArtistDetail { artist_id })
            },
            None => KeyAction::Continue,
        }
    }

    /// Opens the track list of the selected downloaded album or playlist.
    pub fn open_offline_detail(&mut self) -> (r: KeyAction)
        ensures
            (final(self)@, r@) == old(self)@.download_opened(),
    {
        proof {
            reveal(ClientView::download_opened);
        }
        let playlist: bool = self.data.offline_category == OfflineCategory::Playlists;
        let place: Option<usize> = if playlist {
            match self.offline_selected_playlist() {
                Some((i, _)) => Some(i),
                None => None,
            }
        } else {
            match self.offline_selected_album() {
                Some((i, _)) => Some(i),
                None => None,
            }
        };
        match place {
            Some(index) => {
                self.tabs.offline.clear_detail(false);
                self.layers.push_overlay(Overlay::OfflineDetail { playlist, index, selected: 0 });
                KeyAction::Continue
            },
            None => KeyAction::Continue,
        }
    }

    fn move_in_explore(&mut self, down: bool) -> (r: KeyAction)
        ensures
            (final(self)@, r@) == old(self)@.explore_moved(down),
    {
        proof {
            reveal(ClientView::explore_moved);
        }
        match self.data.explore_category {
            ExploreCategory::Moods => {
                self.tabs.moods_selected = if down {
                    step_down_if_any(self.tabs.moods_selected, self.tabs.moods.len())
                } else {
                    step_up(self.tabs.moods_selected)
                };
                KeyAction::Continue
            },
            ExploreCategory::NewReleases => {
                let index: usize = if down {
                    step_down_if_any(self.tabs.new_releases_selected, self.data.new_releases.len())
                } else {
                    step_up(self.tabs.new_releases_selected)
                };
                self.tabs.new_releases_selected = index;
                KeyAction::SendCommand(Command::SelectIndex { index })
            },
            ExploreCategory::Categories => {
                let place: usize = if down {
                    step_down_if_any(self.tabs.genres.selected, self.tabs.genres.shown.len())
                } else {
                    step_up(self.tabs.genres.selected)
                };
                self.tabs.genres.select(place);
                KeyAction::Continue
            },
            ExploreCategory::Radios => {
                let place: usize = if down {
                    step_down_if_any(self.tabs.radios.selected, self.tabs.radios.shown.len())
                } else {
                    step_up(self.tabs.radios.selected)
                };
                self.tabs.radios.select(place);
                KeyAction::Continue
            },
        }
    }

    fn move_in_list(&mut self, down: bool) -> (r: KeyAction)
        ensures
            (final(self)@, r@) == old(self)@.list_moved(down),
    {
        proof {
            reveal(ClientView::list_moved);
        }
        if self.data.active_tab == ActiveTab::Explore {
            return self.move_in_explore(down);
        }
        if self.data.active_tab == ActiveTab::Downloads
            && self.tabs.offline.offline_filter_active() {
            let place: usize = if down {
                let len: usize = self.offline_list_len();
                step_down_if_any(self.tabs.offline.filter_selected, len)
            } else {
                step_up(self.tabs.offline.filter_selected)
            };
            self.tabs.offline.filter_selected = place;
            return KeyAction::Continue;
        }
        if self.data.active_tab == ActiveTab::Favorites
            && self.tabs.favorites.favorites_filter_active() {
            let place: usize = if down {
                step_down_if_any(
                    self.tabs.favorites.filter_selected,
                    self.tabs.favorites.filtered.len(),
                )
            } else {
                step_up(self.tabs.favorites.filter_selected)
            };
            self.tabs.favorites.filter_selected = place;
            return KeyAction::Continue;
        }
        if down {
            KeyAction::SendCommand(Command::SelectDown)
        } else {
            KeyAction::SendCommand(Command::SelectUp)
        }
    }

    fn open_page(&mut self, page: RowPage) -> (r: KeyAction)
        ensures
            (final(self)@, r@) == old(self)@.page_opened(page),
    {
        proof {
            reveal(ClientView::page_opened);
        }
        match page {
            RowPage::Artist(artist_id) => {
                self.layers.set_nav_overlay(Overlay::ArtistDetail);
                self.pages.artist.selected = 0;
                self.pages.artist.left_scroll = 0;
                self.pages.artist.left_focused = false;
                KeyAction::SendCommand(Command::GetArtistDetail { artist_id })
            },
            RowPage::Album(album_id) => {
                self.layers.set_nav_overlay(Overlay::AlbumDetail { from_artist: false });
                self.pages.album.selected = 0;
                self.pages.album.left_scroll = 0;
                self.pages.album.left_focused = false;
                KeyAction::SendCommand(Command::GetAlbumDetail { album_id })
            },
            RowPage::Playlist(playlist_id) => {
                self.pages.reset_playlist_detail_filter();
                self.layers.set_nav_overlay(Overlay::PlaylistDetail { selected: 0 });
                KeyAction::SendCommand(Command::GetPlaylistDetail { playlist_id })
            },
            RowPage::Show(show_id) => {
                self.layers.set_nav_overlay(Overlay::ShowDetail { selected: 0 });
                KeyAction::SendCommand(Command::GetShowDetail { show_id })
            },
            RowPage::Nothing => KeyAction::Continue,
        }
    }

    fn enter_in_explore(&mut self) -> (r: KeyAction)
        ensures
            (final(self)@, r@) == old(self)@.explore_entered(),
    {
        proof {
            reveal(ClientView::explore_entered);
        }
        match self.data.explore_category {
            ExploreCategory::Moods => if self.tabs.moods.len() == 0 {
                KeyAction::Continue
            } else {
                KeyAction::SendCommand(Command::PlayFromMood { index: self.tabs.moods_selected })
            },
            ExploreCategory::NewReleases => KeyAction::SendCommand(
                Command::PlayFromNewReleases { index: self.tabs.new_releases_selected },
            ),
            ExploreCategory::Radios => {
                match client::at(&self.tabs.radios.shown, self.tabs.radios.selected) {
                    Some(radio) => {
                        let index: usize = find_radio(&self.tabs.radios.items, radio.id);
                        KeyAction::SendCommand(Command::PlayFromRadio { index })
                    },
                    None => KeyAction::Continue,
                }
            },
            ExploreCategory::Categories => {
                match client::at(&self.tabs.genres.shown, self.tabs.genres.selected) {
                    Some(genre) => {
                        let genre_id: u64 = genre.id;
                        let name: String = genre.name.clone();
                        self.layers.set_nav_overlay(
                            Overlay::GenreDetail {
                                sub_tab: GenreDetailSubTab::default(),
                                selected: 0,
                            },
                        );
                        KeyAction::SendCommand(Command::GetGenreDetail { genre_id, name })
                    },
                    None => KeyAction::Continue,
                }
            },
        }
    }

    fn enter_in_list(&mut self) -> (r: KeyAction)
        ensures
            (final(self)@, r@) == old(self)@.entered(),
    {
        proof {
            reveal(ClientView::entered);
        }
        let page: RowPage = match self.data.active_tab {
            ActiveTab::Search => row_page(self.selected_search_row()),
            ActiveTab::Favorites => row_page(self.favorites_selected_item()),
            _ => RowPage::Nothing,
        };
        match page {
            RowPage::Nothing => {},
            page => {
                return self.open_page(page);
            },
        }
        match self.data.active_tab {
            ActiveTab::Search => KeyAction::SendCommand(
                Command::PlayFromSearch { index: self.tabs.search_selected },
            ),
            ActiveTab::Favorites => KeyAction::SendCommand(
                Command::PlayFromFavorites { index: self.favorites_selected_original_index() },
            ),
            ActiveTab::Explore => self.enter_in_explore(),
            ActiveTab::Downloads => {
                if self.data.offline_category == OfflineCategory::Tracks {
                    KeyAction::SendCommand(
                        Command::PlayFromOffline { index: self.offline_selected_track_index() },
                    )
                } else {
                    self.open_offline_detail()
                }
            },
        }
    }

    fn type_in_search(&mut self, code: KeyCode) -> (r: KeyAction)
        ensures
            (final(self)@, r@) == old(self)@.search_typed(code),
    {
        proof {
            reveal(ClientView::search_typed);
        }
        match code {
            KeyCode::Esc => {
                self.input_mode = InputMode::Normal;
                KeyAction::Continue
            },
            KeyCode::Enter => {
                self.input_mode = InputMode::Normal;
                if self.search_input.as_str().unicode_len() > 0 {
                    let query: String = self.search_input.clone();
                    KeyAction::SendCommand(Command::Search { query })
                } else {
                    KeyAction::Continue
                }
            },
            KeyCode::Char(c) => {
                push_char(&mut self.search_input, c);
                KeyAction::Continue
            },
            KeyCode::Backspace => {
                self.search_input = drop_last_char(&self.search_input);
                KeyAction::Continue
            },
            _ => KeyAction::Continue,
        }
    }

    fn type_in_favorites(&mut self, code: KeyCode) -> (r: KeyAction)
        ensures
            (final(self)@, r@) == old(self)@.favorites_typed(code),
    {
        proof {
            reveal(ClientView::favorites_typed);
        }
        match code {
            KeyCode::Esc | KeyCode::Enter => self.tabs.favorites.leave(),
            KeyCode::Char(c) => self.tabs.favorites.type_char(&self.data.favorites_display, c),
            KeyCode::Backspace => self.tabs.favorites.erase(&self.data.favorites_display),
            _ => {},
        }
        KeyAction::Continue
    }

    fn type_in_downloads(&mut self, code: KeyCode) -> (r: KeyAction)
        ensures
            (final(self)@, r@) == old(self)@.downloads_typed(code),
    {
        proof {
            reveal(ClientView::downloads_typed);
        }
        match code {
            KeyCode::Esc => self.tabs.offline.clear_filter(false),
            KeyCode::Enter => {
                self.tabs.offline.filter_typing = false;
            },
            KeyCode::Char(c) => self.tabs.offline.type_char(c),
            KeyCode::Backspace => self.tabs.offline.erase(),
            _ => {},
        }
        KeyAction::Continue
    }

    fn type_in_radios(&mut self, code: KeyCode) -> (r: KeyAction)
        ensures
            (final(self)@, r@) == old(self)@.radios_typed(code),
    {
        proof {
            reveal(ClientView::radios_typed);
        }
        match code {
            KeyCode::Esc | KeyCode::Enter => self.tabs.radios.leave(),
            KeyCode::Char(c) => self.tabs.radios.type_char(c),
            KeyCode::Backspace => self.tabs.radios.erase(),
            _ => {},
        }
        KeyAction::Continue
    }

    fn type_in_genres(&mut self, code: KeyCode) -> (r: KeyAction)
        ensures
            (final(self)@, r@) == old(self)@.genres_typed(code),
    {
        proof {
            reveal(ClientView::genres_typed);
        }
        match code {
            KeyCode::Esc | KeyCode::Enter => self.tabs.genres.leave(),
            KeyCode::Char(c) => self.tabs.genres.type_char(c),
            KeyCode::Backspace => self.tabs.genres.erase(),
            _ => {},
        }
        KeyAction::Continue
    }

    fn handle_letter_key(&mut self, code: KeyCode) -> (r: KeyAction)
        ensures
            (final(self)@, r@) == old(self)@.letter_key(code),
    {
        proof {
            reveal(ClientView::letter_key);
        }
        if code == KeyCode::Char('g') {
            if self.data.active_tab == ActiveTab::Favorites {
                KeyAction::SendCommand(Command::ShuffleFavorites)
            } else {
                KeyAction::Continue
            }
        } else if code == KeyCode::Char('f') {
            KeyAction::SendCommand(Command::StartFlow)
        } else if code == KeyCode::Char('L') || code == KeyCode::Char('l') {
            self.toggle_like_focused_or_playing()
        } else if code == KeyCode::Esc {
            self.layers.overlay = Some(Overlay::Settings { selected: 0 });
            KeyAction::Continue
        } else {
            self.player_control_action(code)
        }
    }

    fn handle_normal_key(&mut self, code: KeyCode) -> (r: KeyAction)
        ensures
            (final(self)@, r@) == old(self)@.normal_key(code),
    {
        proof {
            reveal(ClientView::normal_key);
        }
        if code == KeyCode::Tab || code == KeyCode::BackTab {
            if self.data.is_offline {
                KeyAction::Continue
            } else if code == KeyCode::Tab {
                KeyAction::SendCommand(Command::NextTab)
            } else {
                KeyAction::SendCommand(Command::PrevTab)
            }
        } else if code == KeyCode::Char('/') {
            self.focus_filter_input(true);
            KeyAction::Continue
        } else if code == KeyCode::Char('x') {
            self.open_item_popup();
            KeyAction::Continue
        } else if code == KeyCode::Char('a') {
            self.open_album_detail()
        } else if code == KeyCode::Char('t') {
            self.open_artist_detail()
        } else if code == KeyCode::Char('w') {
            self.layers.push_overlay(Overlay::WaitingList { selected: 0 });
            KeyAction::Continue
        } else if self.is_nav_left(code) {
            KeyAction::SendCommand(Command::PrevCategory)
        } else if self.is_nav_right(code) {
            KeyAction::SendCommand(Command::NextCategory)
        } else if self.is_nav_up(code) {
            self.move_in_list(false)
        } else if self.is_nav_down(code) {
            self.move_in_list(true)
        } else if code == KeyCode::Enter {
            self.enter_in_list()
        } else {
            self.handle_letter_key(code)
        }
    }

    fn handle_view_key(&mut self, code: KeyCode) -> (r: KeyAction)
        ensures
            (final(self)@, r@) == old(self)@.view_key(code),
    {
        proof {
            reveal(ClientView::view_key);
        }
        let arrow: bool = code == KeyCode::Up || code == KeyCode::Down;
        if self.input_mode == InputMode::Typing {
            self.type_in_search(code)
        } else if self.tabs.favorites.filter_typing && !arrow {
            self.type_in_favorites(code)
        } else if self.tabs.offline.filter_typing && !arrow {
            self.type_in_downloads(code)
        } else if self.tabs.radios.typing && !arrow {
            self.type_in_radios(code)
        } else if self.tabs.genres.typing && !arrow {
            self.type_in_genres(code)
        } else {
            self.handle_normal_key(code)
        }
    }

    fn open_manage_popup(&mut self)
        ensures
            final(self)@ == old(self)@.manage_popup(),
    {
        match &self.data.current_track {
            Some(track) => {
                let liked: bool = self.is_track_favorite(&track.track_id);
                self.layers.popup = Some(PopupMenu::manage_only(track.clone(), liked));
            },
            None => {},
        }
    }

    /// Handles a key while logged in.
    pub fn handle_main_key(&mut self, key: KeyEvent, ctx: KeyContext) -> (r: KeyAction)
        ensures
            (final(self)@, r@) == old(self)@.main_key(key, ctx),
    {
        proof {
            reveal(ClientView::main_key);
        }
        if key.is_control('q') {
            KeyAction::Quit
        } else if self.layers.popup.is_some() {
            self.handle_popup_key(key.code, ctx)
        } else if key.is_control(' ') {
            self.open_manage_popup();
            KeyAction::Continue
        } else if self.layers.overlay.is_some() {
            self.handle_overlay_key(key, ctx)
        } else {
            self.handle_view_key(key.code)
        }
    }

    fn type_in_login(&mut self, code: KeyCode) -> (r: KeyAction)
        ensures
            (final(self)@, r@) == old(self)@.login_typed(code),
    {
        match code {
            KeyCode::Esc => {
                self.login.empty(LoginMode::Button);
                KeyAction::Continue
            },
            KeyCode::Enter => {
                if self.login.input.as_str().unicode_len() > 0 {
                    let arl: String = self.login.input.clone();
                    self.login.loading = true;
                    KeyAction::SendCommand(Command::Login { arl })
                } else {
                    KeyAction::Continue
                }
            },
            _ => {
                let (input, cursor) = edit_name(&self.login.input, self.login.cursor, code);
                self.login.input = input;
                self.login.cursor = cursor;
                KeyAction::Continue
            },
        }
    }

    /// Handles a key on the login screen.
    pub fn handle_login_key(&mut self, key: KeyEvent) -> (r: KeyAction)
        ensures
            (final(self)@, r@) == old(self)@.login_key(key.code),
    {
        proof {
            reveal(ClientView::login_key);
        }
        if self.login.loading {
            KeyAction::Continue
        } else if self.login.mode == LoginMode::ArlInput {
            self.type_in_login(key.code)
        } else if key.code == KeyCode::Enter {
            KeyAction::WebLogin
        } else if key.code == KeyCode::Char('w') {
            self.login.empty(LoginMode::ArlInput);
            KeyAction::Continue
        } else if key.code == KeyCode::Esc {
            KeyAction::Quit
        } else {
            KeyAction::Continue
        }
    }

    fn toggle_overlay(&mut self, on: bool, overlay: Overlay) -> (r: KeyAction)
        ensures
            (final(self)@, r@) == old(self)@.toggles(on, overlay),
    {
        if on {
            self.layers.pop_overlay();
        } else {
            self.layers.push_overlay(overlay);
        }
        KeyAction::Continue
    }

    fn handle_toggle_key(&mut self, key: KeyEvent) -> (r: Option<KeyAction>)
        ensures
            match r {
                Some(a) => old(self)@.toggle_key(key) == Some((final(self)@, a@)),
                None => old(self)@.toggle_key(key) is None && final(self)@ == old(self)@,
            },
    {
        proof {
            reveal(ClientView::toggle_key);
        }
        let free: bool = self.data.screen == Screen::Main && !self.is_text_input_active()
            && !self.layers.is_popup_typing();
        if !free {
            return None;
        }
        if key.is_char('?') {
            let on: bool = matches!(self.layers.overlay, Some(Overlay::Help { .. }));
            Some(self.toggle_overlay(on, Overlay::Help { scroll: 0 }))
        } else if key.is_char('i') {
            let on: bool = matches!(self.layers.overlay, Some(Overlay::Info));
            Some(self.toggle_overlay(on, Overlay::Info))
        } else if key.is_char('p') && self.layers.popup.is_none()
            && !self.layers.has_modal_overlay() {
            let on: bool = matches!(self.layers.overlay, Some(Overlay::NowPlaying { .. }));
            let selected: usize = self.data.queue_index;
            Some(self.toggle_overlay(on, Overlay::NowPlaying { selected }))
        } else {
            None
        }
    }

    fn handle_control_key(&mut self, key: KeyEvent) -> (r: Option<KeyAction>)
        ensures
            match r {
                Some(a) => old(self)@.control_key(key) == Some((final(self)@, a@)),
                None => old(self)@.control_key(key) is None && final(self)@ == old(self)@,
            },
    {
        proof {
            reveal(ClientView::control_key);
        }
        if key.is_control('o') {
            let on: bool = matches!(self.layers.overlay, Some(Overlay::Settings { .. }));
            Some(self.toggle_overlay(on, Overlay::Settings { selected: 0 }))
        } else if key.is_control('f') {
            if self.data.screen == Screen::Main {
                self.focus_filter_input(true);
            }
            Some(KeyAction::Continue)
        } else if key.is_control('l') {
            if self.data.screen == Screen::Main {
                Some(self.toggle_like_focused_or_playing())
            } else {
                Some(KeyAction::Continue)
            }
        } else if key.code == KeyCode::Right && key.ctrl {
            Some(KeyAction::SendCommand(Command::SeekForward { secs: 10 }))
        } else if key.code == KeyCode::Left && key.ctrl {
            Some(KeyAction::SendCommand(Command::SeekBackward { secs: 10 }))
        } else if key.is_control('z') || key.is_control('Z') {
            Some(KeyAction::Detach)
        } else {
            None
        }
    }

    /// Handles a key.
    pub fn handle_key(&mut self, key: KeyEvent, ctx: KeyContext) -> (r: KeyAction)
        ensures
            (final(self)@, r@) == old(self)@.key(key, ctx),
    {
        proof {
            reveal(ClientView::key);
        }
        if key.is_control('c') {
            return KeyAction::Detach;
        }
        match self.handle_toggle_key(key) {
            Some(action) => {
                return action;
            },
            None => {},
        }
        match self.handle_control_key(key) {
            Some(action) => {
                return action;
            },
            None => {},
        }
        match self.data.screen {
            Screen::Login => self.handle_login_key(key),
            Screen::Main => self.handle_main_key(key, ctx),
        }
    }
}

} // verus!
