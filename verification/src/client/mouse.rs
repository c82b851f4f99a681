//! What clicks and the wheel do: they reuse the keys wherever there is one.

use vstd::prelude::*;

use crate::client;
use crate::client::clicks;
use crate::client::clicks::{contains, ClickTarget, RowsKind};
use crate::client::likes::Step;
use crate::client::popup::{SubMenu, SubMenuView};
use crate::client::state;
use crate::client::state::{
    scroll_step, ClientView, DetailPane, MouseState, PagesView, TabsView, ViewState,
};
use crate::client::{ActionView, KeyAction, KeyCode, KeyContext, KeyEvent, LoginMode, Overlay};
use crate::models::ArtistSubTab;
use crate::protocol::{ActiveTab, Command, ExploreCategory, GenreDetailSubTab, Screen};

verus! {

/// Two left clicks on the same row within this many milliseconds count as a
/// double click.
pub const DOUBLE_CLICK: u64 = 400;

/// Upper bound on the steps taken to walk a modal's cursor to a clicked option.
pub const MAX_MODAL_OPTIONS: usize = 64;

/// What the mouse did.
#[derive(Debug, Clone, Copy, PartialEq, Eq, Structural)]
pub enum MouseKind {
    LeftDown,
    RightDown,
    ScrollUp,
    ScrollDown,
    /// Anything else.
    Other,
}

/// Something that the mouse did, and where.
#[derive(Debug, Clone, Copy, PartialEq, Eq, Structural)]
pub struct MouseEvent {
    pub kind: MouseKind,
    pub column: u16,
    pub row: u16,
}

/// The distance between two columns.
pub open spec fn apart(a: u16, b: u16) -> int {
    if a >= b {
        a - b
    } else {
        b - a
    }
}

/// A click here and now is the second of a double click.
pub open spec fn is_double(last: Option<(u16, u16, u64)>, col: u16, row: u16, now: u64) -> bool {
    match last {
        Some((c, r, at)) => r == row && apart(c, col) <= 2 && state::elapsed(at, now) < DOUBLE_CLICK,
        None => false,
    }
}

fn double_click(last: Option<(u16, u16, u64)>, col: u16, row: u16, now: u64) -> (r: bool)
    ensures
        r == is_double(last, col, row, now),
{
    match last {
        Some((c, r, at)) => {
            let distance: u16 = if c >= col {
                c - col
            } else {
                col - c
            };
            let passed: u64 = if now >= at {
                now - at
            } else {
                0
            };
            r == row && distance <= 2 && passed < DOUBLE_CLICK
        },
        None => false,
    }
}

/// A selection's command put before what a key asks for, so that both reach the
/// player in order.
pub open spec fn combined(select: Option<Command>, action: ActionView) -> ActionView {
    match select {
        Some(cmd) => match action {
            ActionView::Send(next) => ActionView::Multi(seq![cmd@, next]),
            ActionView::Multi(cmds) => ActionView::Multi(seq![cmd@] + cmds),
            ActionView::Continue => ActionView::Send(cmd@),
            other => other,
        },
        None => action,
    }
}

/// Puts a selection's command before what a key asks for.
pub fn with_selection(select: Option<Command>, action: KeyAction) -> (r: KeyAction)
    ensures
        r@ == combined(select, action@),
{
    match select {
        Some(cmd) => match action {
            KeyAction::SendCommand(next) => {
                let mut cmds: Vec<Command> = Vec::new();
                let ghost first = cmd;
                let ghost second = next;
                cmds.push(cmd);
                cmds.push(next);
                proof {
                    assert(client::commands_of(cmds@) =~= seq![first@, second@]);
                }
                KeyAction::MultiCommand(cmds)
            },
            KeyAction::MultiCommand(cmds) => {
                let mut cmds: Vec<Command> = cmds;
                let ghost first = cmd;
                let ghost rest = cmds@;
                cmds.insert(0, cmd);
                proof {
                    assert(client::commands_of(cmds@) =~= seq![first@] + client::commands_of(rest));
                }
                KeyAction::MultiCommand(cmds)
            },
            KeyAction::Continue => KeyAction::SendCommand(cmd),
            other => other,
        },
        None => action,
    }
}

/// A command that synchronizes the selection comes before everything else that
/// is sent.
pub proof fn selections_go_first(cmd: Command, action: ActionView)
    ensures
        combined(Some(cmd), action) matches ActionView::Multi(cmds) ==> cmds.len() > 0 && cmds[0]
            == cmd@,
        action is Continue ==> combined(Some(cmd), action) == ActionView::Send(cmd@),
        combined(None, action) == action,
{
}

impl ClientView {
    /// The widget under a cell.
    pub open spec fn hit(self, col: u16, row: u16) -> Option<ClickTarget> {
        clicks::topmost(self.mouse.click@.targets, col, row)
    }

    /// The list row under a cell, and whose list it is.
    pub open spec fn row_at(self, col: u16, row: u16) -> Option<(RowsKind, usize)> {
        match self.mouse.click@.rows {
            Some(rows) => match rows.item_at(col, row) {
                Some(index) => Some((rows.kind, index)),
                None => None,
            },
            None => None,
        }
    }

    /// The left column under the cursor scrolled, where there is one.
    pub open spec fn panel_scrolled(self, col: u16, row: u16, up: bool) -> Option<ClientView> {
        if self.hit(col, row) == Some(ClickTarget::DetailLeftPanel) {
            let a = self.pages.album;
            let b = self.pages.artist;
            match self.layers.overlay {
                Some(Overlay::AlbumDetail { .. }) => Some(
                    self.album_pane(
                        DetailPane { left_scroll: state::scrolled(a.left_scroll, up), ..a },
                    ),
                ),
                Some(Overlay::ArtistDetail) => Some(
                    self.artist_pane(
                        DetailPane { left_scroll: state::scrolled(b.left_scroll, up), ..b },
                    ),
                ),
                _ => None,
            }
        } else {
            None
        }
    }

    /// A click remembered, for the next one.
    pub open spec fn clicked(self, col: u16, row: u16, now: u64) -> ClientView {
        ClientView {
            mouse: MouseState { last_click: Some((col, row, now)), ..self.mouse },
            ..self
        }
    }

    /// The cursor of the open modal.
    pub open spec fn modal_cursor(self) -> Option<usize> {
        match self.layers.popup {
            Some(p) => match p.sub_menu {
                Some(SubMenuView::PlaylistPicker { selected, .. }) => Some(selected),
                Some(_) => None,
                None => Some(p.selected),
            },
            None => match self.layers.overlay {
                Some(Overlay::Settings { selected })
                | Some(Overlay::ThemePicker { selected })
                | Some(Overlay::LanguagePicker { selected })
                | Some(Overlay::QualityPicker { selected })
                | Some(Overlay::UpdateAvailable { selected, .. }) => Some(selected),
                _ => None,
            },
        }
    }

    /// The modal's cursor walked toward an option with the arrow keys, in at most
    /// `left` steps.
    pub open spec fn walked(self, index: usize, left: nat, ctx: KeyContext) -> ClientView
        decreases left,
    {
        match self.modal_cursor() {
            Some(current) => if current == index || left == 0 {
                self
            } else {
                let next = self.key(
                    client::press(
                        if current < index {
                            KeyCode::Down
                        } else {
                            KeyCode::Up
                        },
                    ),
                    ctx,
                ).0;
                if next.modal_cursor() == Some(current) {
                    next
                } else {
                    next.walked(index, (left - 1) as nat, ctx)
                }
            },
            None => self,
        }
    }

    /// A click on a section title of a context menu.
    pub open spec fn on_title(self, index: usize) -> bool {
        match self.layers.popup {
            Some(p) => p.sub_menu is None && index < p.items.len() && p.items[index as int].is_header,
            None => false,
        }
    }

    /// A click on an option of the open modal.
    #[verifier::opaque]
    pub open spec fn modal_clicked(self, index: usize, ctx: KeyContext) -> Step {
        if self.on_title(index) {
            self.stays()
        } else {
            self.walked(index, MAX_MODAL_OPTIONS as nat, ctx).key(client::press(KeyCode::Enter), ctx)
        }
    }

    /// The cursor of the main list moved to a clicked row, and the command that
    /// moves the player's own cursor there.
    pub open spec fn tab_row_selected(self, index: usize) -> (ClientView, Option<Command>) {
        let t = self.tabs;
        let told = Some(Command::SelectIndex { index });
        match self.data.active_tab {
            ActiveTab::Search => (
                self.with_tabs(TabsView { search_selected: index, ..t }),
                told,
            ),
            ActiveTab::Favorites => if t.favorites.filtering() {
                (self.with_favorites(t.favorites.filter_at(index)), None)
            } else {
                (self.with_favorites(t.favorites.at(index)), told)
            },
            ActiveTab::Explore => match self.data.explore_category {
                ExploreCategory::Moods => (
                    self.with_tabs(TabsView { moods_selected: index, ..t }),
                    None,
                ),
                ExploreCategory::NewReleases => (
                    self.with_tabs(TabsView { new_releases_selected: index, ..t }),
                    told,
                ),
                ExploreCategory::Categories => (
                    self.with_tabs(TabsView { genres: t.genres.at(index), ..t }),
                    None,
                ),
                ExploreCategory::Radios => (
                    self.with_tabs(TabsView { radios: t.radios.at(index), ..t }),
                    None,
                ),
            },
            ActiveTab::Downloads => if t.offline.filtering() {
                (self.with_offline(t.offline.filter_at(index)), None)
            } else {
                (self.with_offline(t.offline.at(index)), told)
            },
        }
    }

    /// The cursor of a list moved to a clicked row.
    #[verifier::opaque]
    pub open spec fn row_selected(self, kind: RowsKind, index: usize) -> (
        ClientView,
        Option<Command>,
    ) {
        let top = self.layers.overlay;
        match kind {
            RowsKind::Tab => self.tab_row_selected(index),
            RowsKind::AlbumDetail => (
                self.album_pane(
                    DetailPane { left_focused: false, selected: index, ..self.pages.album },
                ),
                None,
            ),
            RowsKind::ArtistDetail => (
                self.artist_pane(
                    DetailPane { left_focused: false, selected: index, ..self.pages.artist },
                ),
                None,
            ),
            RowsKind::GenreDetail => (
                match top {
                    Some(Overlay::GenreDetail { sub_tab, .. }) => self.shows(
                        Overlay::GenreDetail { sub_tab, selected: index },
                    ),
                    _ => self,
                },
                None,
            ),
            RowsKind::PlaylistDetail => (
                match top {
                    Some(Overlay::PlaylistDetail { .. }) => self.shows(
                        Overlay::PlaylistDetail { selected: index },
                    ),
                    Some(Overlay::ShowDetail { .. }) => self.shows(
                        Overlay::ShowDetail { selected: index },
                    ),
                    _ => self,
                },
                None,
            ),
            RowsKind::WaitingList => (
                match top {
                    Some(Overlay::WaitingList { .. }) => self.shows(
                        Overlay::WaitingList { selected: index },
                    ),
                    _ => self,
                },
                None,
            ),
            RowsKind::NowPlayingQueue => (
                match top {
                    Some(Overlay::NowPlaying { .. }) => self.shows(
                        Overlay::NowPlaying { selected: index },
                    ),
                    _ => self,
                },
                None,
            ),
            RowsKind::OfflineDetail => (
                match top {
                    Some(Overlay::OfflineDetail { playlist, index: i, .. }) => self.shows(
                        Overlay::OfflineDetail { playlist, index: i, selected: index },
                    ),
                    _ => self,
                },
                None,
            ),
            RowsKind::Modal => (self, None),
        }
    }

    /// The left column focused, where it can be scrolled.
    pub open spec fn panel_focused(self) -> ClientView {
        let a = self.pages.album;
        let b = self.pages.artist;
        match self.layers.overlay {
            Some(Overlay::AlbumDetail { .. }) => self.album_pane(
                DetailPane { left_focused: a.left_scrollable, ..a },
            ),
            Some(Overlay::ArtistDetail) => self.artist_pane(
                DetailPane { left_focused: b.left_scrollable, ..b },
            ),
            _ => self,
        }
    }

    /// A click on a widget.
    #[verifier::opaque]
    pub open spec fn activated(self, target: ClickTarget, ctx: KeyContext) -> Step {
        match target {
            ClickTarget::Tab(tab) => if self.data.is_offline {
                self.stays()
            } else {
                self.and_sends(Command::SetTab { tab })
            },
            ClickTarget::Category(index) => self.and_sends(Command::SetCategory { index }),
            ClickTarget::ArtistSubTab(index) => if index < 5 {
                self.with_pages(
                    PagesView {
                        artist: DetailPane {
                            selected: 0,
                            left_focused: false,
                            ..self.pages.artist
                        },
                        artist_sub_tab: ArtistSubTab::nth(index as int),
                        ..self.pages
                    },
                ).stays()
            } else {
                self.stays()
            },
            ClickTarget::GenreSubTab(index) => if index < 5 && self.layers.overlay is Some
                && self.layers.overlay->0 is GenreDetail {
                self.shows(
                    Overlay::GenreDetail {
                        sub_tab: GenreDetailSubTab::nth(index as int),
                        selected: 0,
                    },
                ).stays()
            } else {
                self.stays()
            },
            ClickTarget::FilterInput => self.filter_focused(false).stays(),
            ClickTarget::FlowChip => self.and_sends(Command::StartFlow),
            ClickTarget::ToggleLikeCurrentTrack => self.liked_playing(),
            ClickTarget::ShuffleFavorites => self.and_sends(Command::ShuffleFavorites),
            ClickTarget::CurrentTrack => self.key(client::press(KeyCode::Char('p')), ctx),
            ClickTarget::Back => self.key(client::press(KeyCode::Esc), ctx),
            ClickTarget::DetailLeftPanel => self.panel_focused().stays(),
            ClickTarget::PlaylistFilterInput => self.with_layers(
                self.layers.picker_focused(true),
            ).stays(),
            ClickTarget::TransparencyToggle => self.key(
                client::press(
                    if self.theme.transparency >= 50 {
                        KeyCode::Left
                    } else {
                        KeyCode::Right
                    },
                ),
                ctx,
            ),
            ClickTarget::ConfirmChoice(yes) => self.key(
                client::press(
                    KeyCode::Char(
                        if yes {
                            'y'
                        } else {
                            'n'
                        },
                    ),
                ),
                ctx,
            ),
        }
    }

    /// A click on a row of a list: it selects, and the second of a double click
    /// acts as Enter.
    #[verifier::opaque]
    pub open spec fn row_clicked(
        self,
        kind: RowsKind,
        index: usize,
        double: bool,
        ctx: KeyContext,
    ) -> Step {
        if kind == RowsKind::Modal {
            self.modal_clicked(index, ctx)
        } else {
            let (selected, cmd) = self.row_selected(kind, index);
            if double {
                let (after, action) = selected.key(client::press(KeyCode::Enter), ctx);
                (after, combined(cmd, action))
            } else {
                (selected, combined(cmd, ActionView::Continue))
            }
        }
    }

    /// A click where no modal is in the way.
    #[verifier::opaque]
    pub open spec fn page_clicked(
        self,
        col: u16,
        row: u16,
        double: bool,
        ctx: KeyContext,
    ) -> Step {
        let target = self.hit(col, row);
        let focused = if target == Some(ClickTarget::FilterInput) || target == Some(
            ClickTarget::PlaylistFilterInput,
        ) {
            self
        } else {
            self.blurred()
        };
        match target {
            Some(target) => focused.activated(target, ctx),
            None => match self.row_at(col, row) {
                Some((kind, index)) => focused.row_clicked(kind, index, double, ctx),
                None => focused.stays(),
            },
        }
    }

    /// A left click.
    #[verifier::opaque]
    pub open spec fn left_click(self, col: u16, row: u16, ctx: KeyContext) -> Step {
        if self.data.screen == Screen::Login {
            if self.mouse.login_button_area is Some && self.mouse.login_button_area->0.covers(
                col,
                row,
            ) && self.login.mode == LoginMode::Button && !self.login.loading {
                (self, ActionView::WebLogin)
            } else {
                self.stays()
            }
        } else {
            let double = is_double(self.mouse.last_click, col, row, ctx.now);
            let after = self.clicked(col, row, ctx.now);
            match self.mouse.click@.modal {
                Some(modal) => if modal.covers(col, row) {
                    after.page_clicked(col, row, double, ctx)
                } else {
                    after.key(client::press(KeyCode::Esc), ctx)
                },
                None => if self.layers.popup is Some || self.layers.modal() {
                    after.stays()
                } else {
                    after.page_clicked(col, row, double, ctx)
                },
            }
        }
    }

    /// A right click: the menu of what is under the cursor.
    #[verifier::opaque]
    pub open spec fn right_click(self, col: u16, row: u16, ctx: KeyContext) -> Step {
        if self.data.screen != Screen::Main || self.layers.popup is Some || self.layers.modal() {
            self.stays()
        } else {
            match self.hit(col, row) {
                Some(target) => if target == ClickTarget::CurrentTrack {
                    self.blurred().key(KeyEvent { code: KeyCode::Char(' '), ctrl: true }, ctx)
                } else {
                    self.stays()
                },
                None => match self.row_at(col, row) {
                    Some((kind, index)) => {
                        let (selected, cmd) = self.blurred().row_selected(kind, index);
                        let (after, action) = selected.key(
                            client::press(KeyCode::Char('x')),
                            ctx,
                        );
                        (after, combined(cmd, action))
                    },
                    None => self.stays(),
                },
            }
        }
    }

    /// A turn of the wheel.
    #[verifier::opaque]
    pub open spec fn wheel(self, col: u16, row: u16, up: bool, ctx: KeyContext) -> Step {
        match self.panel_scrolled(col, row, up) {
            Some(after) => after.stays(),
            None => self.blurred().key(
                client::press(
                    if up {
                        KeyCode::Up
                    } else {
                        KeyCode::Down
                    },
                ),
                ctx,
            ),
        }
    }

    /// Something that the mouse did.
    #[verifier::opaque]
    pub open spec fn moused(self, event: MouseEvent, ctx: KeyContext) -> Step {
        match event.kind {
            MouseKind::LeftDown => self.left_click(event.column, event.row, ctx),
            MouseKind::RightDown => self.right_click(event.column, event.row, ctx),
            MouseKind::ScrollUp => self.wheel(event.column, event.row, true, ctx),
            MouseKind::ScrollDown => self.wheel(event.column, event.row, false, ctx),
            MouseKind::Other => self.stays(),
        }
    }
}

impl ViewState {
    fn row_under(&self, col: u16, row: u16) -> (r: Option<(RowsKind, usize)>)
        ensures
            r == self@.row_at(col, row),
    {
        match self.mouse.click.rows {
            Some(rows) => match rows.index_at(col, row) {
                Some(index) => Some((rows.kind, index)),
                None => None,
            },
            None => None,
        }
    }

    /// Scrolls the album / artist page's left column when the wheel turns over
    /// it. False when the cursor is elsewhere.
    fn scroll_detail_left_panel(&mut self, col: u16, row: u16, up: bool) -> (r: bool)
        ensures
            match old(self)@.panel_scrolled(col, row, up) {
                Some(after) => r && final(self)@ == after,
                None => !r && final(self)@ == old(self)@,
            },
    {
        let over_panel: bool = match self.mouse.click.hit(col, row) {
            Some(target) => target == ClickTarget::DetailLeftPanel,
            None => false,
        };
        if !over_panel {
            return false;
        }
        if matches!(self.layers.overlay, Some(Overlay::AlbumDetail { .. })) {
            self.pages.album.left_scroll = scroll_step(self.pages.album.left_scroll, up);
            true
        } else if matches!(self.layers.overlay, Some(Overlay::ArtistDetail)) {
            self.pages.artist.left_scroll = scroll_step(self.pages.artist.left_scroll, up);
            true
        } else {
            false
        }
    }

    /// Cursor within the open modal's option list.
    fn modal_selection(&self) -> (r: Option<usize>)
        ensures
            r == self@.modal_cursor(),
    {
        match &self.layers.popup {
            Some(p) => match &p.sub_menu {
                Some(SubMenu::PlaylistPicker { selected, .. }) => Some(*selected),
                Some(_) => None,
                None => Some(p.selected),
            },
            None => match &self.layers.overlay {
                Some(Overlay::Settings { selected })
                | Some(Overlay::ThemePicker { selected })
                | Some(Overlay::LanguagePicker { selected })
                | Some(Overlay::QualityPicker { selected })
                | Some(Overlay::UpdateAvailable { selected, .. }) => Some(*selected),
                _ => None,
            },
        }
    }

    fn walk_modal(&mut self, index: usize, ctx: KeyContext)
        ensures
            final(self)@ == old(self)@.walked(index, MAX_MODAL_OPTIONS as nat, ctx),
    {
        let mut left: usize = MAX_MODAL_OPTIONS;
        loop
            invariant
                left <= MAX_MODAL_OPTIONS,
                self@.walked(index, left as nat, ctx) == old(self)@.walked(
                    index,
                    MAX_MODAL_OPTIONS as nat,
                    ctx,
                ),
            decreases left,
        {
            let current: usize = match self.modal_selection() {
                Some(current) => current,
                None => {
                    return;
                },
            };
            if current == index || left == 0 {
                return;
            }
            let code: KeyCode = if current < index {
                KeyCode::Down
            } else {
                KeyCode::Up
            };
            let _ = self.handle_key(KeyEvent::from(code), ctx);
            let stuck: bool = match self.modal_selection() {
                Some(now) => now == current,
                None => false,
            };
            if stuck {
                return;
            }
            left = left - 1;
        }
    }

    /// Acts on the clicked option of the open modal. The cursor is walked there
    /// with the keys of the keyboard, so that what they do on the way still
    /// happens.
    fn click_modal_row(&mut self, index: usize, ctx: KeyContext) -> (r: KeyAction)
        ensures
            (final(self)@, r@) == old(self)@.modal_clicked(index, ctx),
    {
        proof {
            reveal(ClientView::modal_clicked);
        }
        let on_title: bool = match &self.layers.popup {
            Some(p) => p.sub_menu.is_none() && index < p.items.len() && p.items[index].is_header,
            None => false,
        };
        if on_title {
            return KeyAction::Continue;
        }
        self.walk_modal(index, ctx);
        self.handle_key(KeyEvent::from(KeyCode::Enter), ctx)
    }

    fn select_tab_row(&mut self, index: usize) -> (r: Option<Command>)
        ensures
            (final(self)@, r) == old(self)@.tab_row_selected(index),
    {
        match self.data.active_tab {
            ActiveTab::Search => {
                self.tabs.search_selected = index;
                Some(Command::SelectIndex { index })
            },
            ActiveTab::Favorites => {
                if self.tabs.favorites.favorites_filter_active() {
                    self.tabs.favorites.filter_selected = index;
                    None
                } else {
                    self.tabs.favorites.selected = index;
                    Some(Command::SelectIndex { index })
                }
            },
            ActiveTab::Explore => match self.data.explore_category {
                ExploreCategory::Moods => {
                    self.tabs.moods_selected = index;
                    None
                },
                ExploreCategory::NewReleases => {
                    self.tabs.new_releases_selected = index;
                    Some(Command::SelectIndex { index })
                },
                ExploreCategory::Categories => {
                    self.tabs.genres.select(index);
                    None
                },
                ExploreCategory::Radios => {
                    self.tabs.radios.select(index);
                    None
                },
            },
            ActiveTab::Downloads => {
                if self.tabs.offline.offline_filter_active() {
                    self.tabs.offline.filter_selected = index;
                    None
                } else {
                    self.tabs.offline.selected = index;
                    Some(Command::SelectIndex { index })
                }
            },
        }
    }

    /// Moves a list's cursor to a clicked row. Returns the command that moves the
    /// player's cursor, for the lists whose cursor the player has.
    fn select_row(&mut self, kind: RowsKind, index: usize) -> (r: Option<Command>)
        ensures
            (final(self)@, r) == old(self)@.row_selected(kind, index),
    {
        proof {
            reveal(ClientView::row_selected);
        }
        match kind {
            RowsKind::Tab => self.select_tab_row(index),
            RowsKind::AlbumDetail => {
                self.pages.album.left_focused = false;
                self.pages.album.selected = index;
                None
            },
            RowsKind::ArtistDetail => {
                self.pages.artist.left_focused = false;
                self.pages.artist.selected = index;
                None
            },
            RowsKind::GenreDetail => {
                let tab: Option<GenreDetailSubTab> = match &self.layers.overlay {
                    Some(Overlay::GenreDetail { sub_tab, .. }) => Some(*sub_tab),
                    _ => None,
                };
                match tab {
                    Some(sub_tab) => {
                        self.layers.overlay = Some(
                            Overlay::GenreDetail { sub_tab, selected: index },
                        );
                    },
                    None => {},
                }
                None
            },
            RowsKind::PlaylistDetail => {
                if matches!(self.layers.overlay, Some(Overlay::PlaylistDetail { .. })) {
                    self.layers.overlay = Some(Overlay::PlaylistDetail { selected: index });
                } else if matches!(self.layers.overlay, Some(Overlay::ShowDetail { .. })) {
                    self.layers.overlay = Some(Overlay::ShowDetail { selected: index });
                }
                None
            },
            RowsKind::WaitingList => {
                if matches!(self.layers.overlay, Some(Overlay::WaitingList { .. })) {
                    self.layers.overlay = Some(Overlay::WaitingList { selected: index });
                }
                None
            },
            RowsKind::NowPlayingQueue => {
                if matches!(self.layers.overlay, Some(Overlay::NowPlaying { .. })) {
                    self.layers.overlay = Some(Overlay::NowPlaying { selected: index });
                }
                None
            },
            RowsKind::OfflineDetail => {
                let open: Option<(bool, usize)> = match &self.layers.overlay {
                    Some(Overlay::OfflineDetail { playlist, index, .. }) => Some(
                        (*playlist, *index),
                    ),
                    _ => None,
                };
                match open {
                    Some((playlist, place)) => {
                        self.layers.overlay = Some(
                            Overlay::OfflineDetail { playlist, index: place, selected: index },
                        );
                    },
                    None => {},
                }
                None
            },
            RowsKind::Modal => None,
        }
    }

    fn focus_left_panel(&mut self)
        ensures
            final(self)@ == old(self)@.panel_focused(),
    {
        if matches!(self.layers.overlay, Some(Overlay::AlbumDetail { .. })) {
            self.pages.album.left_focused = self.pages.album.left_scrollable;
        } else if matches!(self.layers.overlay, Some(Overlay::ArtistDetail)) {
            self.pages.artist.left_focused = self.pages.artist.left_scrollable;
        }
    }

    /// Does what a clicked widget says.
    fn activate_click_target(&mut self, target: ClickTarget, ctx: KeyContext) -> (r: KeyAction)
        ensures
            (final(self)@, r@) == old(self)@.activated(target, ctx),
    {
        proof {
            reveal(ClientView::activated);
        }
        match target {
            ClickTarget::Tab(tab) => if self.data.is_offline {
                KeyAction::Continue
            } else {
                KeyAction::SendCommand(Command::SetTab { tab })
            },
            ClickTarget::Category(index) => KeyAction::SendCommand(Command::SetCategory { index }),
            ClickTarget::ArtistSubTab(index) => {
                match ArtistSubTab::at(index) {
                    Some(tab) => {
                        self.pages.artist_sub_tab = tab;
                        self.pages.artist.selected = 0;
                        self.pages.artist.left_focused = false;
                    },
                    None => {},
                }
                KeyAction::Continue
            },
            ClickTarget::GenreSubTab(index) => {
                let on_genre: bool = matches!(
                    self.layers.overlay,
                    Some(Overlay::GenreDetail { .. })
                );
                match GenreDetailSubTab::at(index) {
                    Some(sub_tab) => {
                        if on_genre {
                            self.layers.overlay = Some(
                                Overlay::GenreDetail { sub_tab, selected: 0 },
                            );
                        }
                    },
                    None => {},
                }
                KeyAction::Continue
            },
            ClickTarget::FilterInput => {
                self.focus_filter_input(false);
                KeyAction::Continue
            },
            ClickTarget::FlowChip => KeyAction::SendCommand(Command::StartFlow),
            ClickTarget::ToggleLikeCurrentTrack => self.toggle_like_playing(),
            ClickTarget::ShuffleFavorites => KeyAction::SendCommand(Command::ShuffleFavorites),
            ClickTarget::CurrentTrack => self.handle_key(KeyEvent::from(KeyCode::Char('p')), ctx),
            ClickTarget::Back => self.handle_key(KeyEvent::from(KeyCode::Esc), ctx),
            ClickTarget::DetailLeftPanel => {
                self.focus_left_panel();
                KeyAction::Continue
            },
            ClickTarget::PlaylistFilterInput => {
                self.layers.focus_picker(true);
                KeyAction::Continue
            },
            ClickTarget::TransparencyToggle => {
                let code: KeyCode = if self.theme.is_transparent() {
                    KeyCode::Left
                } else {
                    KeyCode::Right
                };
                self.handle_key(KeyEvent::from(code), ctx)
            },
            ClickTarget::ConfirmChoice(yes) => {
                let answer: char = if yes {
                    'y'
                } else {
                    'n'
                };
                self.handle_key(KeyEvent::from(KeyCode::Char(answer)), ctx)
            },
        }
    }

    fn click_row(&mut self, kind: RowsKind, index: usize, double: bool, ctx: KeyContext) -> (r:
        KeyAction)
        ensures
            (final(self)@, r@) == old(self)@.row_clicked(kind, index, double, ctx),
    {
        proof {
            reveal(ClientView::row_clicked);
        }
        if kind == RowsKind::Modal {
            return self.click_modal_row(index, ctx);
        }
        let select: Option<Command> = self.select_row(kind, index);
        if double {
            let action: KeyAction = self.handle_key(KeyEvent::from(KeyCode::Enter), ctx);
            with_selection(select, action)
        } else {
            with_selection(select, KeyAction::Continue)
        }
    }

    fn click_page(&mut self, col: u16, row: u16, double: bool, ctx: KeyContext) -> (r: KeyAction)
        ensures
            (final(self)@, r@) == old(self)@.page_clicked(col, row, double, ctx),
    {
        proof {
            reveal(ClientView::page_clicked);
        }
        let target: Option<ClickTarget> = self.mouse.click.hit(col, row);
        let under: Option<(RowsKind, usize)> = self.row_under(col, row);
        let on_input: bool = match target {
            Some(t) => t == ClickTarget::FilterInput || t == ClickTarget::PlaylistFilterInput,
            None => false,
        };
        if !on_input {
            self.blur_inputs();
        }
        match target {
            Some(target) => self.activate_click_target(target, ctx),
            None => match under {
                Some((kind, index)) => self.click_row(kind, index, double, ctx),
                None => KeyAction::Continue,
            },
        }
    }

    /// Routes a left click to what the last draw pass recorded there. A second
    /// click on the same row soon after acts as Enter.
    fn handle_left_click(&mut self, col: u16, row: u16, ctx: KeyContext) -> (r: KeyAction)
        ensures
            (final(self)@, r@) == old(self)@.left_click(col, row, ctx),
    {
        proof {
            reveal(ClientView::left_click);
        }
        if self.data.screen == Screen::Login {
            let on_button: bool = match self.mouse.login_button_area {
                Some(rect) => contains(rect, col, row),
                None => false,
            };
            if on_button && self.login.mode == LoginMode::Button && !self.login.loading {
                return KeyAction::WebLogin;
            }
            return KeyAction::Continue;
        }
        let double: bool = double_click(self.mouse.last_click, col, row, ctx.now);
        self.mouse.last_click = Some((col, row, ctx.now));
        match self.mouse.click.modal {
            Some(modal) => {
                if contains(modal, col, row) {
                    self.click_page(col, row, double, ctx)
                } else {
                    self.handle_key(KeyEvent::from(KeyCode::Esc), ctx)
                }
            },
            None => {
                if self.layers.popup.is_some() || self.layers.has_modal_overlay() {
                    KeyAction::Continue
                } else {
                    self.click_page(col, row, double, ctx)
                }
            },
        }
    }

    /// Opens the menu of what is under a right click: the playing track's in the
    /// player bar, the clicked row's otherwise.
    fn handle_right_click(&mut self, col: u16, row: u16, ctx: KeyContext) -> (r: KeyAction)
        ensures
            (final(self)@, r@) == old(self)@.right_click(col, row, ctx),
    {
        proof {
            reveal(ClientView::right_click);
        }
        if self.data.screen != Screen::Main || self.layers.popup.is_some()
            || self.layers.has_modal_overlay() {
            return KeyAction::Continue;
        }
        match self.mouse.click.hit(col, row) {
            Some(target) => {
                if target == ClickTarget::CurrentTrack {
                    self.blur_inputs();
                    return self.handle_key(
                        KeyEvent { code: KeyCode::Char(' '), ctrl: true },
                        ctx,
                    );
                }
                return KeyAction::Continue;
            },
            None => {},
        }
        match self.row_under(col, row) {
            Some((kind, index)) => {
                self.blur_inputs();
                let select: Option<Command> = self.select_row(kind, index);
                let action: KeyAction = self.handle_key(KeyEvent::from(KeyCode::Char('x')), ctx);
                with_selection(select, action)
            },
            None => KeyAction::Continue,
        }
    }

    fn turn_wheel(&mut self, col: u16, row: u16, up: bool, ctx: KeyContext) -> (r: KeyAction)
        ensures
            (final(self)@, r@) == old(self)@.wheel(col, row, up, ctx),
    {
        proof {
            reveal(ClientView::wheel);
        }
        if self.scroll_detail_left_panel(col, row, up) {
            return KeyAction::Continue;
        }
        self.blur_inputs();
        let code: KeyCode = if up {
            KeyCode::Up
        } else {
            KeyCode::Down
        };
        self.handle_key(KeyEvent::from(code), ctx)
    }

    /// Handles what the mouse did. The wheel reuses the arrow keys, so it scrolls
    /// whatever has the focus, except over a page's left column.
    pub fn handle_mouse(&mut self, event: MouseEvent, ctx: KeyContext) -> (r: KeyAction)
        ensures
            (final(self)@, r@) == old(self)@.moused(event, ctx),
    {
        proof {
            reveal(ClientView::moused);
        }
        match event.kind {
            MouseKind::LeftDown => self.handle_left_click(event.column, event.row, ctx),
            MouseKind::RightDown => self.handle_right_click(event.column, event.row, ctx),
            MouseKind::ScrollUp => self.turn_wheel(event.column, event.row, true, ctx),
            MouseKind::ScrollDown => self.turn_wheel(event.column, event.row, false, ctx),
            MouseKind::Other => KeyAction::Continue,
        }
    }
}

} // verus!
