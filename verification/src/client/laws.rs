//! What holds of the terminal client as a whole.

use vstd::prelude::*;

use crate::client;
use crate::client::clicks::{ClickTarget, RowsKind};
use crate::client::mouse;
use crate::client::mouse::MouseEvent;
use crate::client::popup;
use crate::client::popup::{PopupAction, PopupTarget, PopupView, SubMenuView};
use crate::client::filters::FilterListView;
use crate::client::state::{
    ClientView, FavoritesPaneView, LayersView, OfflinePaneView, PagesView, TabsView,
};
use crate::client::view;
use crate::client::{ActionView, InputMode, KeyCode, KeyContext, KeyEvent, Overlay};
use crate::models::{DisplayItem, TrackData};
use crate::protocol::{
    ActiveTab, Command, FavoritesCategory, GenreDetailSubTab, Screen,
};

verus! {

impl LayersView {
    /// The open menu can be used, and the history holds nothing while no overlay
    /// is open.
    pub open spec fn sound(self) -> bool {
        &&& match self.popup {
            Some(menu) => menu.wf() && menu.items.len() <= usize::MAX,
            None => true,
        }
        &&& self.overlay is None ==> self.overlay_stack.len() == 0
    }
}

/// An input left the player's state alone, and the layers in order.
pub open spec fn well_behaved(before: ClientView, after: ClientView) -> bool {
    after.data == before.data && (before.layers.sound() ==> after.layers.sound())
}

proof fn like_behaves(v: ClientView)
    ensures
        well_behaved(v, v.liked().0),
{
    reveal(ClientView::liked);
    reveal(ClientView::liked_in_tab);
}

proof fn album_behaves(v: ClientView, code: KeyCode)
    ensures
        v.layers.overlay is Some ==> well_behaved(v, v.album_key(code).0),
{
    reveal(ClientView::album_key);
}

proof fn artist_behaves(v: ClientView, code: KeyCode)
    ensures
        v.layers.overlay is Some ==> well_behaved(v, v.artist_key(code).0),
{
    reveal(ClientView::artist_key);
}

proof fn playlist_behaves(v: ClientView, code: KeyCode, selected: usize)
    ensures
        v.layers.overlay is Some ==> well_behaved(v, v.playlist_key(code, selected).0),
{
    reveal(ClientView::playlist_key);
}

proof fn show_behaves(v: ClientView, code: KeyCode, selected: usize)
    ensures
        v.layers.overlay is Some ==> well_behaved(v, v.show_key(code, selected).0),
{
    reveal(ClientView::show_key);
}

proof fn genre_behaves(v: ClientView, code: KeyCode, tab: GenreDetailSubTab, selected: usize)
    ensures
        v.layers.overlay is Some ==> well_behaved(v, v.genre_key(code, tab, selected).0),
{
    reveal(ClientView::genre_key);
}

proof fn waiting_behaves(v: ClientView, code: KeyCode, selected: usize)
    ensures
        v.layers.overlay is Some ==> well_behaved(v, v.waiting_key(code, selected).0),
{
    reveal(ClientView::waiting_key);
}

proof fn now_playing_behaves(v: ClientView, code: KeyCode, selected: usize)
    ensures
        v.layers.overlay is Some ==> well_behaved(v, v.now_playing_key(code, selected).0),
{
    reveal(ClientView::now_playing_key);
}

proof fn offline_behaves(
    v: ClientView,
    code: KeyCode,
    playlist: bool,
    index: usize,
    selected: usize,
)
    ensures
        v.layers.overlay is Some ==> well_behaved(
            v,
            v.offline_key(code, playlist, index, selected).0,
        ),
{
    reveal(ClientView::offline_key);
}

proof fn settings_behave(v: ClientView, key: KeyEvent, selected: usize, ctx: KeyContext)
    ensures
        v.layers.overlay is Some ==> well_behaved(v, v.settings_key(key, selected, ctx).0),
{
    reveal(ClientView::settings_key);
}

proof fn pickers_behave(v: ClientView, code: KeyCode, selected: usize, ctx: KeyContext)
    ensures
        v.layers.overlay is Some ==> {
            &&& well_behaved(v, v.help_key(code, selected).0)
            &&& well_behaved(v, v.info_key(code).0)
            &&& well_behaved(v, v.language_key(code, selected, ctx).0)
            &&& well_behaved(v, v.quality_key(code, selected).0)
            &&& well_behaved(v, v.theme_key(code, selected).0)
        },
{
    reveal(ClientView::help_key);
    reveal(ClientView::info_key);
    reveal(ClientView::language_key);
    reveal(ClientView::quality_key);
    reveal(ClientView::theme_key);
}

proof fn updates_behave(
    v: ClientView,
    code: KeyCode,
    version: String,
    download_url: String,
    selected: usize,
)
    ensures
        v.layers.overlay is Some ==> well_behaved(
            v,
            v.update_key(code, version, download_url, selected).0,
        ),
{
    reveal(ClientView::update_key);
}

proof fn overlays_behave(v: ClientView, key: KeyEvent, ctx: KeyContext)
    ensures
        well_behaved(v, v.overlay_key(key, ctx).0),
{
    reveal(ClientView::overlay_key);
    let code = key.code;
    match v.layers.overlay {
        Some(overlay) => match overlay {
            Overlay::Help { scroll } => pickers_behave(v, code, scroll, ctx),
            Overlay::Info => pickers_behave(v, code, 0, ctx),
            Overlay::Settings { selected } => settings_behave(v, key, selected, ctx),
            Overlay::LanguagePicker { selected } => pickers_behave(v, code, selected, ctx),
            Overlay::QualityPicker { selected } => pickers_behave(v, code, selected, ctx),
            Overlay::ThemePicker { selected } => pickers_behave(v, code, selected, ctx),
            Overlay::AlbumDetail { .. } => album_behaves(v, code),
            Overlay::ArtistDetail => artist_behaves(v, code),
            Overlay::PlaylistDetail { selected } => playlist_behaves(v, code, selected),
            Overlay::ShowDetail { selected } => show_behaves(v, code, selected),
            Overlay::GenreDetail { sub_tab, selected } => genre_behaves(
                v,
                code,
                sub_tab,
                selected,
            ),
            Overlay::WaitingList { selected } => waiting_behaves(v, code, selected),
            Overlay::NowPlaying { selected } => now_playing_behaves(v, code, selected),
            Overlay::OfflineDetail { playlist, index, selected } => offline_behaves(
                v,
                code,
                playlist,
                index,
                selected,
            ),
            Overlay::UpdateAvailable { version, download_url, selected } => updates_behave(
                v,
                code,
                version,
                download_url,
                selected,
            ),
            Overlay::Updating { .. } => {},
        },
        None => {},
    }
}

/// A menu looked at by itself can be used once a dialog inside it is closed.
spec fn usable(menu: PopupView) -> bool {
    menu.sub_menu is None && menu.items.len() <= usize::MAX && menu.selected < menu.items.len()
        && !menu.items[menu.selected as int].is_header
}

proof fn actions_behave(v: ClientView, menu: PopupView, action: PopupAction, ctx: KeyContext)
    requires
        v.layers.popup is None,
    ensures
        v.popup_action(menu, action, ctx).0.data == v.data,
        v.layers.sound() && usable(menu) ==> v.popup_action(menu, action, ctx).0.layers.sound(),
{
    reveal(ClientView::popup_action);
}

proof fn menus_behave(v: ClientView, menu: PopupView, code: KeyCode, ctx: KeyContext)
    requires
        v.layers.popup is None,
    ensures
        v.menu_key(menu, code, ctx).0.data == v.data,
        v.layers.sound() && usable(menu) ==> v.menu_key(menu, code, ctx).0.layers.sound(),
{
    reveal(ClientView::menu_key);
    match menu.chosen() {
        Some(action) => actions_behave(v, menu, action, ctx),
        None => {},
    }
    if usable(menu) {
        popup::titles_are_never_selected(menu);
    }
}

proof fn name_inputs_behave(
    v: ClientView,
    menu: PopupView,
    name: Seq<char>,
    cursor: usize,
    yes: bool,
    code: KeyCode,
)
    requires
        v.layers.popup is None,
    ensures
        v.create_key(menu, name, cursor, code).0.data == v.data,
        v.rename_key(menu, name, cursor, code).0.data == v.data,
        v.delete_key(menu, yes, code).0.data == v.data,
        v.layers.sound() && usable(menu) ==> {
            &&& v.create_key(menu, name, cursor, code).0.layers.sound()
            &&& v.rename_key(menu, name, cursor, code).0.layers.sound()
            &&& v.delete_key(menu, yes, code).0.layers.sound()
        },
{
    reveal(ClientView::create_key);
    reveal(ClientView::rename_key);
    reveal(ClientView::delete_key);
}

proof fn unliking_behaves(v: ClientView, menu: PopupView, yes: bool, code: KeyCode)
    requires
        v.layers.popup is None,
    ensures
        v.unlike_key(menu, yes, code).0.data == v.data,
        v.layers.sound() && menu.items.len() <= usize::MAX ==> v.unlike_key(
            menu,
            yes,
            code,
        ).0.layers.sound(),
{
    reveal(ClientView::unlike_key);
}

proof fn picking_behaves(
    v: ClientView,
    menu: PopupView,
    playlists: Seq<crate::models::PlaylistData>,
    selected: usize,
    input: Seq<char>,
    typing: bool,
    code: KeyCode,
)
    requires
        v.layers.popup is None,
    ensures
        v.picker_key(menu, playlists, selected, input, typing, code).0.data == v.data,
        v.layers.sound() && usable(menu) ==> v.picker_key(
            menu,
            playlists,
            selected,
            input,
            typing,
            code,
        ).0.layers.sound(),
{
    reveal(ClientView::picker_key);
}

proof fn dialogs_behave(v: ClientView, menu: PopupView, sub: SubMenuView, code: KeyCode)
    requires
        v.layers.popup is None,
    ensures
        v.dialog_key(menu, sub, code).0.data == v.data,
        v.layers.sound() && menu.items.len() <= usize::MAX && (usable(menu)
            || sub is ConfirmRemoveFavorite) ==> v.dialog_key(menu, sub, code).0.layers.sound(),
{
    reveal(ClientView::dialog_key);
    match sub {
        SubMenuView::PlaylistPicker { playlists, selected, filter_input, filter_typing, .. } => {
            picking_behaves(v, menu, playlists, selected, filter_input, filter_typing, code);
        },
        SubMenuView::CreatePlaylistInput { name, cursor } => {
            name_inputs_behave(v, menu, name, cursor, false, code);
        },
        SubMenuView::RenamePlaylistInput { name, cursor } => {
            name_inputs_behave(v, menu, name, cursor, false, code);
        },
        SubMenuView::ConfirmDeletePlaylist { confirm_yes } => {
            name_inputs_behave(v, menu, Seq::empty(), 0, confirm_yes, code);
        },
        SubMenuView::ConfirmRemoveFavorite { confirm_yes } => {
            unliking_behaves(v, menu, confirm_yes, code);
        },
        SubMenuView::TrackInfo => {},
    }
}

proof fn popups_behave(v: ClientView, code: KeyCode, ctx: KeyContext)
    ensures
        well_behaved(v, v.popup_key(code, ctx).0),
{
    reveal(ClientView::popup_key);
    match v.layers.popup {
        Some(menu) => match menu.sub_menu {
            None => menus_behave(v.closes(), menu.with_sub(None), code, ctx),
            Some(sub) => dialogs_behave(v.closes(), menu.with_sub(None), sub, code),
        },
        None => {},
    }
}

proof fn lists_behave(v: ClientView, down: bool)
    ensures
        well_behaved(v, v.list_moved(down).0),
        well_behaved(v, v.explore_entered().0),
        well_behaved(v, v.download_opened().0),
{
    reveal(ClientView::list_moved);
    reveal(ClientView::explore_moved);
    reveal(ClientView::explore_entered);
    reveal(ClientView::download_opened);
}

proof fn entering_behaves(v: ClientView)
    ensures
        well_behaved(v, v.entered().0),
{
    reveal(ClientView::entered);
    reveal(ClientView::page_opened);
    lists_behave(v, false);
}

proof fn opening_behaves(v: ClientView, clear: bool)
    ensures
        well_behaved(v, v.item_popup()),
        well_behaved(v, v.album_opened().0),
        well_behaved(v, v.artist_opened().0),
        well_behaved(v, v.filter_focused(clear)),
{
    reveal(ClientView::item_popup);
    reveal(ClientView::album_opened);
    reveal(ClientView::artist_opened);
    reveal(ClientView::filter_focused);
}

proof fn normal_keys_behave(v: ClientView, code: KeyCode)
    ensures
        well_behaved(v, v.normal_key(code).0),
{
    reveal(ClientView::normal_key);
    reveal(ClientView::letter_key);
    lists_behave(v, true);
    lists_behave(v, false);
    entering_behaves(v);
    opening_behaves(v, true);
    like_behaves(v);
}

proof fn view_keys_behave(v: ClientView, code: KeyCode)
    ensures
        well_behaved(v, v.view_key(code).0),
{
    reveal(ClientView::view_key);
    reveal(ClientView::search_typed);
    reveal(ClientView::favorites_typed);
    reveal(ClientView::downloads_typed);
    reveal(ClientView::radios_typed);
    reveal(ClientView::genres_typed);
    normal_keys_behave(v, code);
}

/// No key changes what the player sent: playback, queue and lists belong to the
/// player, and the client only asks. And no key leaves a menu with a section
/// title selected, or a history behind a closed page.
pub proof fn keys_leave_the_player_alone(v: ClientView, key: KeyEvent, ctx: KeyContext)
    ensures
        v.key(key, ctx).0.data == v.data,
        v.layers.sound() ==> v.key(key, ctx).0.layers.sound(),
{
    reveal(ClientView::key);
    reveal(ClientView::toggle_key);
    reveal(ClientView::control_key);
    reveal(ClientView::login_key);
    reveal(ClientView::main_key);
    overlays_behave(v, key, ctx);
    popups_behave(v, key.code, ctx);
    view_keys_behave(v, key.code);
    opening_behaves(v, true);
    like_behaves(v);
}

proof fn blurring_behaves(v: ClientView)
    ensures
        well_behaved(v, v.blurred()),
        v.blurred().layers.overlay == v.layers.overlay,
        v.blurred().mouse == v.mouse,
{
    reveal(ClientView::blurred);
}

proof fn walking_behaves(v: ClientView, index: usize, left: nat, ctx: KeyContext)
    ensures
        well_behaved(v, v.walked(index, left, ctx)),
    decreases left,
{
    match v.modal_cursor() {
        Some(current) => if current != index && left > 0 {
            let key = client::press(
                if current < index {
                    KeyCode::Down
                } else {
                    KeyCode::Up
                },
            );
            keys_leave_the_player_alone(v, key, ctx);
            walking_behaves(v.key(key, ctx).0, index, (left - 1) as nat, ctx);
        },
        None => {},
    }
}

proof fn selecting_behaves(v: ClientView, kind: RowsKind, index: usize)
    ensures
        well_behaved(v, v.row_selected(kind, index).0),
{
    reveal(ClientView::row_selected);
}

proof fn row_clicks_behave(
    v: ClientView,
    kind: RowsKind,
    index: usize,
    double: bool,
    ctx: KeyContext,
)
    ensures
        well_behaved(v, v.row_clicked(kind, index, double, ctx).0),
{
    reveal(ClientView::row_clicked);
    reveal(ClientView::modal_clicked);
    let enter = client::press(KeyCode::Enter);
    walking_behaves(v, index, mouse::MAX_MODAL_OPTIONS as nat, ctx);
    keys_leave_the_player_alone(
        v.walked(index, mouse::MAX_MODAL_OPTIONS as nat, ctx),
        enter,
        ctx,
    );
    selecting_behaves(v, kind, index);
    keys_leave_the_player_alone(v.row_selected(kind, index).0, enter, ctx);
}

proof fn widgets_behave(v: ClientView, target: ClickTarget, ctx: KeyContext)
    ensures
        well_behaved(v, v.activated(target, ctx).0),
{
    reveal(ClientView::activated);
    keys_leave_the_player_alone(v, client::press(KeyCode::Char('p')), ctx);
    keys_leave_the_player_alone(v, client::press(KeyCode::Esc), ctx);
    keys_leave_the_player_alone(v, client::press(KeyCode::Left), ctx);
    keys_leave_the_player_alone(v, client::press(KeyCode::Right), ctx);
    keys_leave_the_player_alone(v, client::press(KeyCode::Char('y')), ctx);
    keys_leave_the_player_alone(v, client::press(KeyCode::Char('n')), ctx);
    opening_behaves(v, false);
}

proof fn page_clicks_behave(v: ClientView, col: u16, row: u16, double: bool, ctx: KeyContext)
    ensures
        well_behaved(v, v.page_clicked(col, row, double, ctx).0),
{
    reveal(ClientView::page_clicked);
    blurring_behaves(v);
    match v.hit(col, row) {
        Some(target) => {
            widgets_behave(v, target, ctx);
            widgets_behave(v.blurred(), target, ctx);
        },
        None => match v.row_at(col, row) {
            Some((kind, index)) => {
                row_clicks_behave(v.blurred(), kind, index, double, ctx);
            },
            None => {},
        },
    }
}

/// The mouse keeps to the same rule as the keys.
pub proof fn the_mouse_leaves_the_player_alone(v: ClientView, event: MouseEvent, ctx: KeyContext)
    ensures
        v.moused(event, ctx).0.data == v.data,
        v.layers.sound() ==> v.moused(event, ctx).0.layers.sound(),
{
    reveal(ClientView::moused);
    reveal(ClientView::left_click);
    reveal(ClientView::right_click);
    reveal(ClientView::wheel);
    let (col, row) = (event.column, event.row);
    let after = v.clicked(col, row, ctx.now);
    page_clicks_behave(after, col, row, true, ctx);
    page_clicks_behave(after, col, row, false, ctx);
    keys_leave_the_player_alone(after, client::press(KeyCode::Esc), ctx);
    blurring_behaves(v);
    let b = v.blurred();
    keys_leave_the_player_alone(b, KeyEvent { code: KeyCode::Char(' '), ctrl: true }, ctx);
    keys_leave_the_player_alone(b, client::press(KeyCode::Up), ctx);
    keys_leave_the_player_alone(b, client::press(KeyCode::Down), ctx);
    match v.row_at(col, row) {
        Some((kind, index)) => {
            selecting_behaves(b, kind, index);
            keys_leave_the_player_alone(
                b.row_selected(kind, index).0,
                client::press(KeyCode::Char('x')),
                ctx,
            );
        },
        None => {},
    }
}

impl ClientView {
    /// What stands in the text inputs of the tabs and pages.
    pub open spec fn input_texts(self) -> Seq<Seq<char>> {
        seq![
            self.search_input,
            self.tabs.favorites.filter_input,
            self.tabs.radios.input,
            self.tabs.genres.input,
            self.tabs.offline.filter_input,
            self.tabs.offline.detail_filter_input,
            self.pages.playlist_filter_input,
        ]
    }
}

/// Leaving the text inputs leaves every one of them, the playlist picker's too.
/// Their texts, the cursors, the lists and the open pages stay as they are: but
/// for the focus, the view is the same.
pub proof fn leaving_the_inputs_leaves_them_all(v: ClientView)
    ensures
        !v.blurred().text_input(),
        v.blurred().layers.popup matches Some(menu) ==> (menu.sub_menu matches Some(
            SubMenuView::PlaylistPicker { filter_typing, .. },
        ) ==> !filter_typing),
        v.blurred().input_texts() == v.input_texts(),
        ({
            let b = v.blurred();
            &&& b.layers.overlay == v.layers.overlay
            &&& b.layers.overlay_stack == v.layers.overlay_stack
            &&& v == (ClientView {
                input_mode: v.input_mode,
                tabs: TabsView {
                    favorites: FavoritesPaneView {
                        filter_typing: v.tabs.favorites.filter_typing,
                        ..b.tabs.favorites
                    },
                    radios: FilterListView { typing: v.tabs.radios.typing, ..b.tabs.radios },
                    genres: FilterListView { typing: v.tabs.genres.typing, ..b.tabs.genres },
                    offline: OfflinePaneView {
                        filter_typing: v.tabs.offline.filter_typing,
                        detail_filter_typing: v.tabs.offline.detail_filter_typing,
                        ..b.tabs.offline
                    },
                    ..b.tabs
                },
                pages: PagesView {
                    playlist_filter_typing: v.pages.playlist_filter_typing,
                    ..b.pages
                },
                layers: LayersView { popup: v.layers.popup, ..b.layers },
                ..b
            })
            &&& match v.layers.popup {
                Some(menu) => b.layers.popup == Some(
                    PopupView {
                        sub_menu: match menu.sub_menu {
                            Some(sub) => Some(sub.focused(false)),
                            None => None,
                        },
                        ..menu
                    },
                ),
                None => b.layers.popup is None,
            }
        }),
{
    reveal(ClientView::blurred);
    assert(v.blurred().input_texts() =~= v.input_texts());
}

/// A right click on a row of a tab selects the row and opens its menu, also while
/// a filter has the focus.
pub proof fn right_clicks_open_the_menu_of_the_row(
    v: ClientView,
    col: u16,
    row: u16,
    index: usize,
    ctx: KeyContext,
)
    requires
        v.data.screen == Screen::Main,
        v.layers.popup is None,
        v.layers.overlay is None,
        v.hit(col, row) is None,
        v.row_at(col, row) == Some((RowsKind::Tab, index)),
    ensures
        v.right_click(col, row, ctx).0 == v.blurred().row_selected(
            RowsKind::Tab,
            index,
        ).0.item_popup(),
{
    reveal(ClientView::right_click);
    reveal(ClientView::blurred);
    reveal(ClientView::row_selected);
    reveal(ClientView::key);
    reveal(ClientView::toggle_key);
    reveal(ClientView::control_key);
    reveal(ClientView::main_key);
    reveal(ClientView::view_key);
    reveal(ClientView::normal_key);
    reveal(ClientView::letter_key);
}

/// `x` on a page opens a menu or does nothing, while no input has the focus.
proof fn page_menus_type_nothing(v: ClientView, ctx: KeyContext)
    requires
        !v.text_input(),
        !v.layers.modal(),
    ensures
        v.overlay_key(client::press(KeyCode::Char('x')), ctx).0.input_texts() == v.input_texts(),
{
    reveal(ClientView::overlay_key);
    reveal(ClientView::album_key);
    reveal(ClientView::artist_key);
    reveal(ClientView::playlist_key);
    reveal(ClientView::show_key);
    reveal(ClientView::genre_key);
    reveal(ClientView::waiting_key);
    reveal(ClientView::now_playing_key);
    reveal(ClientView::offline_key);
}

/// So it does on the main view.
proof fn tab_menus_type_nothing(v: ClientView)
    requires
        !v.text_input(),
    ensures
        v.view_key(KeyCode::Char('x')).0.input_texts() == v.input_texts(),
{
    reveal(ClientView::view_key);
    reveal(ClientView::normal_key);
    reveal(ClientView::letter_key);
    reveal(ClientView::item_popup);
}

/// A right click types nothing, whatever has the focus.
pub proof fn right_clicks_type_nothing(v: ClientView, col: u16, row: u16, ctx: KeyContext)
    ensures
        v.right_click(col, row, ctx).0.input_texts() == v.input_texts(),
{
    reveal(ClientView::right_click);
    reveal(ClientView::row_selected);
    reveal(ClientView::key);
    reveal(ClientView::toggle_key);
    reveal(ClientView::control_key);
    reveal(ClientView::main_key);
    leaving_the_inputs_leaves_them_all(v);
    let b = v.blurred();
    match v.row_at(col, row) {
        Some((kind, index)) => {
            let selected = b.row_selected(kind, index).0;
            assert(selected.input_texts() =~= v.input_texts());
            assert(!selected.text_input());
            if !v.layers.modal() {
                page_menus_type_nothing(selected, ctx);
            }
            tab_menus_type_nothing(selected);
        },
        None => {},
    }
}

/// While a text input has the focus, no single letter opens or closes a screen:
/// every filter counts.
pub proof fn typing_suppresses_shortcuts(v: ClientView, c: char, ctrl: bool)
    requires
        v.text_input() || v.layers.popup_typing(),
    ensures
        v.toggle_key(KeyEvent { code: KeyCode::Char(c), ctrl }) is None,
{
    reveal(ClientView::toggle_key);
}

/// A letter typed into a filter or the search input of the main view ends up at
/// its end, and nothing else happens.
pub proof fn typed_letters_reach_the_input(v: ClientView, c: char, ctx: KeyContext)
    requires
        v.data.screen == Screen::Main,
        v.layers.popup is None,
        v.layers.overlay is None,
        v.input_mode == InputMode::Typing || v.tabs.favorites.filter_typing
            || v.tabs.offline.filter_typing || v.tabs.radios.typing || v.tabs.genres.typing,
    ensures
        ({
            let (after, action) = v.key(client::press(KeyCode::Char(c)), ctx);
            &&& action == ActionView::Continue
            &&& if v.input_mode == InputMode::Typing {
                after.search_input == v.search_input.push(c)
            } else if v.tabs.favorites.filter_typing {
                after.tabs.favorites.filter_input == v.tabs.favorites.filter_input.push(c)
            } else if v.tabs.offline.filter_typing {
                after.tabs.offline.filter_input == v.tabs.offline.filter_input.push(c)
            } else if v.tabs.radios.typing {
                after.tabs.radios.input == v.tabs.radios.input.push(c)
            } else {
                after.tabs.genres.input == v.tabs.genres.input.push(c)
            }
        }),
{
    reveal(ClientView::key);
    reveal(ClientView::control_key);
    reveal(ClientView::main_key);
    reveal(ClientView::view_key);
    reveal(ClientView::search_typed);
    reveal(ClientView::favorites_typed);
    reveal(ClientView::downloads_typed);
    reveal(ClientView::radios_typed);
    reveal(ClientView::genres_typed);
    typing_suppresses_shortcuts(v, c, false);
}

/// With the vim keys on, `h`, `j`, `k` and `l` do what the arrow keys do on the
/// main view.
pub proof fn vim_keys_are_arrow_keys(v: ClientView)
    requires
        v.vim_keys,
    ensures
        v.normal_key(KeyCode::Char('h')) == v.normal_key(KeyCode::Left),
        v.normal_key(KeyCode::Char('j')) == v.normal_key(KeyCode::Down),
        v.normal_key(KeyCode::Char('k')) == v.normal_key(KeyCode::Up),
        v.normal_key(KeyCode::Char('l')) == v.normal_key(KeyCode::Right),
{
    reveal(ClientView::normal_key);
}

/// Ctrl+C leaves the client and keeps the player running, whatever is open.
pub proof fn control_c_always_detaches(v: ClientView, ctx: KeyContext)
    ensures
        v.key(KeyEvent { code: KeyCode::Char('c'), ctrl: true }, ctx) == (v, ActionView::Detach),
{
    reveal(ClientView::key);
}

/// In offline mode no key and no click asks for another tab.
pub proof fn offline_keeps_its_tab(v: ClientView, tab: ActiveTab, ctx: KeyContext)
    requires
        v.data.is_offline,
    ensures
        v.normal_key(KeyCode::Tab) == v.stays(),
        v.normal_key(KeyCode::BackTab) == v.stays(),
        v.activated(ClickTarget::Tab(tab), ctx) == v.stays(),
{
    reveal(ClientView::normal_key);
    reveal(ClientView::activated);
}

/// Opening the help screen and closing it again with the same key brings back
/// what was there.
pub proof fn help_comes_and_goes(v: ClientView, ctx: KeyContext)
    requires
        v.letters_free(),
        v.layers.sound(),
        !(v.layers.overlay is Some && v.layers.overlay->0 is Help),
    ensures
        ({
            let key = client::press(KeyCode::Char('?'));
            let after = v.key(key, ctx).0.key(key, ctx).0;
            &&& after.layers.overlay == v.layers.overlay
            &&& after.layers.overlay_stack == v.layers.overlay_stack
            &&& after.layers.nav_commands == v.layers.nav_commands
        }),
{
    reveal(ClientView::key);
    reveal(ClientView::toggle_key);
    client::state::closing_undoes_opening(v.layers, Overlay::Help { scroll: 0 });
}

/// A track of the favorites list is not removed before the user has confirmed:
/// liking it opens the question and sends nothing.
pub proof fn favorites_are_removed_on_confirmation(v: ClientView, row: DisplayItem, track: TrackData)
    requires
        v.data.screen == Screen::Main,
        v.layers.overlay is None,
        v.layers.popup is None,
        v.data.active_tab == ActiveTab::Favorites,
        v.data.favorites_category == FavoritesCategory::Tracks,
        v.favorites_row() == Some(row),
        row.track == Some(track),
    ensures
        v.liked() == (
            v.with_layers(v.layers.with_popup(popup::remove_favorite_dialog(track))),
            ActionView::Continue,
        ),
{
    reveal(ClientView::liked);
    reveal(ClientView::liked_in_tab);
    reveal(ClientView::page_track);
}

/// A playlist with songs is not deleted before the user has confirmed: choosing
/// the entry opens the question, with "no" selected.
pub proof fn playlists_are_deleted_on_confirmation(
    v: ClientView,
    menu: PopupView,
    playlist_id: String,
    title: String,
    nb_songs: u64,
    ctx: KeyContext,
)
    requires
        menu.target == (PopupTarget::Playlist { playlist_id, title, nb_songs }),
        nb_songs > 0,
    ensures
        v.popup_action(menu, PopupAction::DeletePlaylist, ctx) == v.holds(
            menu,
            Some(SubMenuView::ConfirmDeletePlaylist { confirm_yes: false }),
        ),
        v.popup_action(menu, PopupAction::DeletePlaylist, ctx).1 == ActionView::Continue,
{
    reveal(ClientView::popup_action);
}

/// Choosing a row of the queue plays that place of the queue, on the waiting list
/// and on the playback page alike.
pub proof fn queue_rows_play_what_they_show(v: ClientView, selected: usize)
    requires
        selected < v.data.queue@.len(),
    ensures
        v.waiting_key(KeyCode::Enter, selected) == v.and_sends(
            Command::PlayFromQueue { index: selected },
        ),
        v.now_playing_key(KeyCode::Enter, selected) == v.and_sends(
            Command::PlayFromQueue { index: selected },
        ),
{
    reveal(ClientView::waiting_key);
    reveal(ClientView::now_playing_key);
}

/// The playing track is never taken out of the queue from the client.
pub proof fn the_playing_track_is_not_removed(v: ClientView, code: KeyCode, selected: usize)
    requires
        selected == v.data.queue_index,
        code == KeyCode::Delete || code == KeyCode::Char('d'),
    ensures
        v.waiting_key(code, selected) == v.stays(),
        v.now_playing_key(code, selected) == v.stays(),
{
    reveal(ClientView::waiting_key);
    reveal(ClientView::now_playing_key);
}

/// Playing a row of a filtered playlist plays the track that the row shows.
pub proof fn filtered_rows_play_their_track(v: ClientView, selected: usize)
    requires
        !v.pages.playlist_filter_typing,
        selected < v.playlist_places().len(),
        view::playlist_tracks(v.data).len() <= usize::MAX,
    ensures
        v.playlist_key(KeyCode::Enter, selected) == v.and_sends(
            Command::PlayFromPlaylist { index: v.playlist_places()[selected as int] },
        ),
        v.playlist_track(selected) == Some(
            view::playlist_tracks(v.data)[v.playlist_places()[selected as int] as int],
        ),
        v.playlist_places()[selected as int] < view::playlist_tracks(v.data).len(),
{
    reveal(ClientView::playlist_key);
    client::filters::places_lead_back(
        view::playlist_tracks(v.data),
        client::filters::passes::<TrackData>(v.pages.playlist_filter_input),
    );
}

} // verus!
