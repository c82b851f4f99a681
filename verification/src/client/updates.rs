//! Taking over the player's snapshots, with what is the client's own kept.

use vstd::prelude::*;

use crate::client;
use crate::client::clicks::{ClickAreas, RowsKind, ScrollOffsets};
use crate::client::filters;
use crate::client::filters::{FilterList, FilterListView};
use crate::client::state::{
    ClientView, DetailPane, FavoritesPane, FavoritesPaneView, Layers, LayersView, LoginPane,
    LoginPaneView, Messages, MessagesView, MouseState, OfflinePane, OfflinePaneView, Pages,
    PagesView, Tabs, TabsView, ViewState,
};
use crate::client::view;
use crate::client::{InputMode, LoginMode, Overlay};
use crate::models::PlaylistData;
use crate::notice;
use crate::notice::Notice;
use crate::protocol::{DaemonSnapshot, NavOverlay, OfflineCategory, Screen};
use crate::theme::Theme;

verus! {

/// A page that the player remembers, with the cursor that the client has on the
/// same page.
pub open spec fn merged(new: Overlay, old: Option<Overlay>) -> Overlay {
    match (new, old) {
        (Overlay::PlaylistDetail { .. }, Some(Overlay::PlaylistDetail { selected })) => {
            Overlay::PlaylistDetail { selected }
        },
        (Overlay::GenreDetail { .. }, Some(Overlay::GenreDetail { sub_tab, selected })) => {
            Overlay::GenreDetail { sub_tab, selected }
        },
        _ => new,
    }
}

/// The history that the player remembers, with the client's cursors.
pub open spec fn merged_stack(new: Seq<NavOverlay>, old: Seq<Overlay>) -> Seq<Overlay> {
    Seq::new(new.len(), |i: int| merged(new[i].opened(), client::nth(old, i)))
}

/// The pages that the player remembers, as the client opens them.
pub open spec fn opened_all(s: Seq<NavOverlay>) -> Seq<Overlay> {
    s.map_values(|n: NavOverlay| n.opened())
}

/// The page that the player remembers, as the client opens it.
pub open spec fn opened_opt(n: Option<NavOverlay>) -> Option<Overlay> {
    match n {
        Some(n) => Some(n.opened()),
        None => None,
    }
}

fn merge(new: Overlay, old: Option<&Overlay>) -> (r: Overlay)
    ensures
        r == merged(
            new,
            match old {
                Some(o) => Some(*o),
                None => None,
            },
        ),
{
    match (&new, old) {
        (Overlay::PlaylistDetail { .. }, Some(Overlay::PlaylistDetail { selected })) => {
            Overlay::PlaylistDetail { selected: *selected }
        },
        (Overlay::GenreDetail { .. }, Some(Overlay::GenreDetail { sub_tab, selected })) => {
            Overlay::GenreDetail { sub_tab: *sub_tab, selected: *selected }
        },
        _ => new,
    }
}

impl LayersView {
    /// The open pages taken over from the player, once, unless something else is
    /// open.
    pub open spec fn synced(self, nav: Option<NavOverlay>, stack: Seq<NavOverlay>) -> LayersView {
        if !self.nav_synced_from_daemon && self.nav_or_none() {
            LayersView {
                overlay: match nav {
                    Some(n) => Some(merged(n.opened(), self.overlay)),
                    None => None,
                },
                overlay_stack: merged_stack(stack, self.overlay_stack),
                nav_synced_from_daemon: true,
                ..self
            }
        } else {
            self
        }
    }

    /// The downloads modal's cursor kept inside what its filter leaves.
    pub open spec fn offline_clamped(self, d: DaemonSnapshot, input: Seq<char>) -> LayersView {
        match self.overlay {
            Some(Overlay::OfflineDetail { playlist, index, selected }) => self.shows(
                Overlay::OfflineDetail {
                    playlist,
                    index,
                    selected: client::clamped(
                        selected,
                        filters::left_by(view::offline_tracks_at(d, playlist, index), input).len(),
                    ),
                },
            ),
            _ => self,
        }
    }

    /// Everything closed.
    pub open spec fn closed(self) -> LayersView {
        LayersView { overlay: None, overlay_stack: Seq::empty(), popup: None, ..self }
    }
}

impl Layers {
    /// Takes over the open pages from the player.
    pub fn sync(&mut self, nav: Option<NavOverlay>, stack: &Vec<NavOverlay>)
        ensures
            final(self)@ == old(self)@.synced(nav, stack@),
    {
        if self.nav_synced_from_daemon || !self.is_nav_or_none_overlay() {
            return;
        }
        let overlay: Option<Overlay> = match nav {
            Some(n) => {
                let new: Overlay = n.to_overlay();
                match &self.overlay {
                    Some(o) => Some(merge(new, Some(o))),
                    None => Some(merge(new, None)),
                }
            },
            None => None,
        };
        let mut fresh: Vec<Overlay> = Vec::new();
        let mut i: usize = 0;
        while i < stack.len()
            invariant
                i <= stack@.len(),
                fresh@ == merged_stack(stack@, self.overlay_stack@).take(i as int),
            decreases stack@.len() - i,
        {
            let new: Overlay = stack[i].to_overlay();
            let page: Overlay = if i < self.overlay_stack.len() {
                merge(new, Some(&self.overlay_stack[i]))
            } else {
                merge(new, None)
            };
            fresh.push(page);
            proof {
                assert(fresh@ =~= merged_stack(stack@, self.overlay_stack@).take(i + 1));
            }
            i = i + 1;
        }
        proof {
            assert(merged_stack(stack@, self.overlay_stack@).take(stack@.len() as int)
                =~= merged_stack(stack@, self.overlay_stack@));
        }
        self.overlay = overlay;
        self.overlay_stack = fresh;
        self.nav_synced_from_daemon = true;
    }

    /// Closes everything.
    pub fn close_all(&mut self)
        ensures
            final(self)@ == old(self)@.closed(),
    {
        self.overlay = None;
        self.overlay_stack = Vec::new();
        self.popup = None;
    }
}

impl TabsView {
    /// The main lists once a snapshot came.
    pub open spec fn received(self, prev: DaemonSnapshot, snap: DaemonSnapshot) -> TabsView {
        let new_moods = self.moods.len() != snap.moods@.len() || self.moods_loading
            != snap.moods_loading;
        TabsView {
            search_selected: snap.search_selected,
            new_releases_selected: snap.new_releases_selected,
            moods: if new_moods {
                snap.moods@
            } else {
                self.moods
            },
            moods_loading: snap.moods_loading,
            moods_selected: self.moods_selected,
            radios: self.radios.received(snap.radios@, snap.radios_loading),
            genres: self.genres.received(snap.genres@, snap.genres_loading),
            favorites: self.favorites.received(
                snap.favorites@,
                snap.favorite_track_ids@,
                snap.favorites_selected,
                snap.favorites_display@,
                prev.favorites_category != snap.favorites_category,
            ),
            offline: OfflinePaneView {
                filter_selected: client::clamped(
                    self.offline.filter_selected,
                    view::offline_shown(snap, self.offline.filter_input).len(),
                ),
                selected: client::clamped(snap.offline_selected, view::offline_count(snap)),
                ..self.offline
            },
        }
    }

    /// The main lists after logging out: their filters emptied.
    pub open spec fn logged_out(self) -> TabsView {
        TabsView {
            radios: self.radios.unfiltered(),
            genres: self.genres.unfiltered(),
            favorites: self.favorites.unfiltered(),
            ..self
        }
    }
}

impl ClientView {
    /// The player's lists taken over.
    #[verifier::opaque]
    pub open spec fn took_lists(self, snap: DaemonSnapshot) -> ClientView {
        ClientView { tabs: self.tabs.received(self.data, snap), data: snap, ..self }
    }

    /// The open pages, the notification and the playlists taken over.
    #[verifier::opaque]
    pub open spec fn took_rest(self, snap: DaemonSnapshot, now: u64) -> ClientView {
        let layers = self.layers.offline_clamped(
            snap,
            self.tabs.offline.detail_filter_input,
        ).synced(snap.nav_overlay, snap.nav_overlay_stack@);
        ClientView {
            layers: if snap.playlists@.len() > 0 {
                layers.picker_filled(snap.playlists@)
            } else {
                layers
            },
            messages: self.messages.received(notice::opt_notice(snap.status_msg), now),
            login: LoginPaneView { loading: snap.login_loading, ..self.login },
            playlists: if snap.playlists@.len() > 0 {
                snap.playlists@
            } else {
                self.playlists
            },
            ..self
        }
    }

    /// What logging in or out does to the client's own state.
    #[verifier::opaque]
    pub open spec fn switched(self, before: Screen) -> ClientView {
        if before == Screen::Login && self.data.screen == Screen::Main {
            ClientView { input_mode: InputMode::Normal, ..self }
        } else if before == Screen::Main && self.data.screen == Screen::Login {
            ClientView {
                input_mode: InputMode::Normal,
                login: self.login.emptied(LoginMode::Button),
                layers: self.layers.closed(),
                tabs: self.tabs.logged_out(),
                ..self
            }
        } else {
            self
        }
    }

    /// The client's state once a snapshot came.
    #[verifier::opaque]
    pub open spec fn received(self, snap: DaemonSnapshot, now: u64) -> ClientView {
        self.took_lists(snap).took_rest(snap, now).switched(self.data.screen)
    }
}

/// The main lists at the first snapshot.
pub open spec fn tabs_of(snap: DaemonSnapshot) -> TabsView {
    TabsView {
        search_selected: snap.search_selected,
        new_releases_selected: snap.new_releases_selected,
        moods: snap.moods@,
        moods_loading: snap.moods_loading,
        moods_selected: snap.moods_selected,
        radios: FilterListView::first(snap.radios@, snap.radios_loading, snap.radios_selected),
        genres: FilterListView::first(snap.genres@, snap.genres_loading, snap.genres_selected),
        favorites: FavoritesPaneView {
            tracks: snap.favorites@,
            track_ids: snap.favorite_track_ids@,
            selected: snap.favorites_selected,
            filter_input: Seq::empty(),
            filter_typing: false,
            filtered: Seq::empty(),
            filter_selected: 0,
        }.applied(snap.favorites_display@),
        offline: OfflinePaneView {
            selected: snap.offline_selected,
            filter_input: Seq::empty(),
            filter_typing: false,
            filter_selected: 0,
            detail_filter_input: Seq::empty(),
            detail_filter_typing: false,
        },
    }
}

/// The client's state at its first snapshot.
pub open spec fn first_view(
    snap: DaemonSnapshot,
    vim_keys: bool,
    theme: Theme,
    now: u64,
    mouse: MouseState,
) -> ClientView {
    ClientView {
        data: snap,
        tabs: tabs_of(snap),
        pages: PagesView {
            album: DetailPane::opened(snap.album_detail_selected),
            artist: DetailPane::opened(snap.artist_detail_selected),
            artist_sub_tab: snap.artist_detail_sub_tab,
            playlist_filter_input: Seq::empty(),
            playlist_filter_typing: false,
        },
        login: LoginPaneView {
            mode: LoginMode::Button,
            input: Seq::empty(),
            cursor: 0,
            loading: snap.login_loading,
        },
        layers: LayersView {
            popup: None,
            overlay: opened_opt(snap.nav_overlay),
            overlay_stack: opened_all(snap.nav_overlay_stack@),
            nav_commands: Seq::empty(),
            nav_synced_from_daemon: true,
        },
        messages: MessagesView { status_msg: None, status_msg_at: None, toast: None }.with_status(
            notice::opt_notice(snap.status_msg),
            now,
        ),
        input_mode: InputMode::Normal,
        search_input: Seq::empty(),
        vim_keys,
        playlists: snap.playlists@,
        theme,
        effects: Seq::empty(),
        mouse,
    }
}

fn copy_notice(n: &Option<Notice>) -> (r: Option<Notice>)
    ensures
        r == *n,
{
    match n {
        Some(n) => Some(n.clone()),
        None => None,
    }
}

fn open_all(s: &Vec<NavOverlay>) -> (r: Vec<Overlay>)
    ensures
        r@ == opened_all(s@),
{
    let mut out: Vec<Overlay> = Vec::new();
    let mut i: usize = 0;
    while i < s.len()
        invariant
            i <= s@.len(),
            out@ == opened_all(s@).take(i as int),
        decreases s@.len() - i,
    {
        out.push(s[i].to_overlay());
        proof {
            assert(out@ =~= opened_all(s@).take(i + 1));
        }
        i = i + 1;
    }
    proof {
        assert(opened_all(s@).take(s@.len() as int) =~= opened_all(s@));
    }
    out
}

fn first_tabs(snap: &DaemonSnapshot) -> (r: Tabs)
    ensures
        r@ == tabs_of(*snap),
{
    let mut favorites = FavoritesPane {
        tracks: snap.favorites.clone(),
        track_ids: snap.favorite_track_ids.clone(),
        selected: snap.favorites_selected,
        filter_input: String::new(),
        filter_typing: false,
        filtered: Vec::new(),
        filter_selected: 0,
    };
    favorites.apply(&snap.favorites_display);
    Tabs {
        search_selected: snap.search_selected,
        new_releases_selected: snap.new_releases_selected,
        moods: snap.moods.clone(),
        moods_loading: snap.moods_loading,
        moods_selected: snap.moods_selected,
        radios: FilterList::new(&snap.radios, snap.radios_loading, snap.radios_selected),
        genres: FilterList::new(&snap.genres, snap.genres_loading, snap.genres_selected),
        favorites,
        offline: OfflinePane {
            selected: snap.offline_selected,
            filter_input: String::new(),
            filter_typing: false,
            filter_selected: 0,
            detail_filter_input: String::new(),
            detail_filter_typing: false,
        },
    }
}

fn new_pane(selected: usize) -> (r: DetailPane)
    ensures
        r == DetailPane::opened(selected),
{
    DetailPane { selected, left_scroll: 0, left_focused: false, left_scrollable: false }
}

impl ViewState {
    /// The client's state at its first snapshot.
    pub fn from_snapshot(snap: DaemonSnapshot, vim_keys: bool, theme: Theme, now: u64) -> (r:
        ViewState)
        ensures
            r@ == first_view(snap, vim_keys, theme, now, r.mouse),
            r.mouse.click@.targets.len() == 0,
            r.mouse.click@.rows is None,
            r.mouse.click@.modal is None,
            r.mouse.login_button_area is None,
            r.mouse.last_click is None,
            forall|k: RowsKind| #[trigger] r.mouse.scroll.of(k) == 0,
    {
        let tabs: Tabs = first_tabs(&snap);
        let overlay: Option<Overlay> = match snap.nav_overlay {
            Some(n) => Some(n.to_overlay()),
            None => None,
        };
        let overlay_stack: Vec<Overlay> = open_all(&snap.nav_overlay_stack);
        let mut messages = Messages { status_msg: None, status_msg_at: None, toast: None };
        messages.set_status_msg(copy_notice(&snap.status_msg), now);
        let playlists: Vec<PlaylistData> = snap.playlists.clone();
        let view = ViewState {
            tabs,
            pages: Pages {
                album: new_pane(snap.album_detail_selected),
                artist: new_pane(snap.artist_detail_selected),
                artist_sub_tab: snap.artist_detail_sub_tab,
                playlist_filter_input: String::new(),
                playlist_filter_typing: false,
            },
            login: LoginPane {
                mode: LoginMode::Button,
                input: String::new(),
                cursor: 0,
                loading: snap.login_loading,
            },
            layers: Layers {
                popup: None,
                overlay,
                overlay_stack,
                nav_commands: Vec::new(),
                nav_synced_from_daemon: true,
            },
            messages,
            input_mode: InputMode::Normal,
            search_input: String::new(),
            vim_keys,
            playlists,
            theme,
            effects: Vec::new(),
            mouse: MouseState {
                click: ClickAreas::new(),
                login_button_area: None,
                scroll: ScrollOffsets::new(),
                last_click: None,
            },
            data: snap,
        };
        proof {
            assert(view@.effects =~= Seq::empty());
        }
        view
    }

    fn take_lists(&mut self, snap: DaemonSnapshot)
        ensures
            final(self)@ == old(self)@.took_lists(snap),
    {
        proof {
            reveal(ClientView::took_lists);
        }
        let other_category: bool = self.data.favorites_category != snap.favorites_category;
        self.data = snap;
        self.tabs.search_selected = self.data.search_selected;
        self.tabs.new_releases_selected = self.data.new_releases_selected;
        if self.tabs.moods.len() != self.data.moods.len() || self.tabs.moods_loading
            != self.data.moods_loading {
            self.tabs.moods = self.data.moods.clone();
            self.tabs.moods_loading = self.data.moods_loading;
        }
        self.tabs.radios.receive(&self.data.radios, self.data.radios_loading);
        self.tabs.genres.receive(&self.data.genres, self.data.genres_loading);
        self.tabs.favorites.receive(
            &self.data.favorites,
            &self.data.favorite_track_ids,
            self.data.favorites_selected,
            &self.data.favorites_display,
            other_category,
        );
        let shown: usize = self.offline_list_len();
        self.tabs.offline.filter_selected = client::clamp(self.tabs.offline.filter_selected, shown);
        let count: usize = match self.data.offline_category {
            OfflineCategory::Tracks => self.data.offline_tracks.len(),
            OfflineCategory::Albums => self.data.offline_albums.len(),
            OfflineCategory::Playlists => self.data.offline_playlists.len(),
        };
        self.tabs.offline.selected = client::clamp(self.data.offline_selected, count);
    }

    /// Keeps the downloads modal's cursor inside what its filter leaves.
    fn clamp_offline_selection(&mut self)
        ensures
            final(self)@ == old(self)@.with_layers(
                old(self)@.layers.offline_clamped(
                    old(self).data,
                    old(self)@.tabs.offline.detail_filter_input,
                ),
            ),
    {
        let open: Option<(bool, usize, usize)> = match &self.layers.overlay {
            Some(Overlay::OfflineDetail { playlist, index, selected }) => Some(
                (*playlist, *index, *selected),
            ),
            _ => None,
        };
        match open {
            Some((playlist, index, selected)) => {
                let count: usize = self.offline_detail_places(playlist, index).len();
                self.layers.overlay = Some(
                    Overlay::OfflineDetail {
                        playlist,
                        index,
                        selected: client::clamp(selected, count),
                    },
                );
            },
            None => {},
        }
    }

    fn take_rest(&mut self, now: u64)
        ensures
            final(self)@ == old(self)@.took_rest(old(self).data, now),
    {
        proof {
            reveal(ClientView::took_rest);
        }
        self.clamp_offline_selection();
        self.layers.sync(self.data.nav_overlay, &self.data.nav_overlay_stack);
        self.messages.receive(&self.data.status_msg, now);
        self.login.loading = self.data.login_loading;
        if self.data.playlists.len() > 0 {
            self.playlists = self.data.playlists.clone();
            self.layers.fill_picker(&self.data.playlists);
        }
    }

    fn switch_screen(&mut self, before: Screen)
        ensures
            final(self)@ == old(self)@.switched(before),
    {
        proof {
            reveal(ClientView::switched);
        }
        if before == Screen::Login && self.data.screen == Screen::Main {
            self.input_mode = InputMode::Normal;
        }
        if before == Screen::Main && self.data.screen == Screen::Login {
            self.input_mode = InputMode::Normal;
            self.login.empty(LoginMode::Button);
            self.layers.close_all();
            self.tabs.radios.reset();
            self.tabs.genres.reset();
            self.tabs.favorites.reset();
        }
    }

    /// Takes over a snapshot of the player, with what is the client's own kept.
    pub fn update_from_snapshot(&mut self, snap: DaemonSnapshot, now: u64)
        ensures
            final(self)@ == old(self)@.received(snap, now),
    {
        proof {
            reveal(ClientView::received);
            reveal(ClientView::took_lists);
        }
        let before: Screen = self.data.screen;
        self.take_lists(snap);
        self.take_rest(now);
        self.switch_screen(before);
    }
}

/// Pages that are the client's own survive a snapshot: once the pages were taken
/// over, no snapshot opens or closes one, short of a logout.
pub proof fn snapshots_do_not_move_pages(view: ClientView, snap: DaemonSnapshot, now: u64)
    requires
        view.layers.nav_synced_from_daemon,
        !(view.data.screen == Screen::Main && snap.screen == Screen::Login),
        !(view.layers.overlay is Some && view.layers.overlay->0 is OfflineDetail),
    ensures
        view.received(snap, now).layers.overlay == view.layers.overlay,
        view.received(snap, now).layers.overlay_stack == view.layers.overlay_stack,
        view.received(snap, now).pages == view.pages,
{
    reveal(ClientView::received);
    reveal(ClientView::took_lists);
    reveal(ClientView::took_rest);
    reveal(ClientView::switched);
}

/// After logging out nothing of the session is left open: no page, no menu, no
/// typed text.
pub proof fn logging_out_closes_everything(view: ClientView, snap: DaemonSnapshot, now: u64)
    requires
        view.data.screen == Screen::Main,
        snap.screen == Screen::Login,
    ensures
        ({
            let after = view.received(snap, now);
            &&& after.layers.overlay is None
            &&& after.layers.overlay_stack.len() == 0
            &&& after.layers.popup is None
            &&& after.login.input.len() == 0
            &&& after.login.mode == LoginMode::Button
            &&& after.input_mode == InputMode::Normal
            &&& after.tabs.favorites.filter_input.len() == 0
            &&& after.tabs.radios.input.len() == 0
            &&& after.tabs.genres.input.len() == 0
        }),
{
    reveal(ClientView::received);
    reveal(ClientView::took_lists);
    reveal(ClientView::took_rest);
    reveal(ClientView::switched);
}

/// The cursors of the downloads, in the whole list and in the filtered one, are
/// inside their lists after every snapshot, and the cursor of the open download is inside what its own filter
/// leaves.
pub proof fn snapshots_keep_offline_cursors_inside(
    view: ClientView,
    snap: DaemonSnapshot,
    now: u64,
    playlist: bool,
    index: usize,
    selected: usize,
)
    requires
        !(view.data.screen == Screen::Main && snap.screen == Screen::Login),
        view.received(snap, now).layers.overlay == Some(
            Overlay::OfflineDetail { playlist, index, selected },
        ),
    ensures
        ({
            let after = view.received(snap, now);
            selected < after.offline_detail_places(playlist, index).len() || selected == 0
        }),
        ({
            let after = view.received(snap, now);
            after.tabs.offline.filter_selected < after.offline_len()
                || after.tabs.offline.filter_selected == 0
        }),
        ({
            let after = view.received(snap, now);
            after.tabs.offline.selected < view::offline_count(snap)
                || after.tabs.offline.selected == 0
        }),
{
    reveal(ClientView::received);
    reveal(ClientView::took_lists);
    reveal(ClientView::took_rest);
    reveal(ClientView::switched);
}

} // verus!
