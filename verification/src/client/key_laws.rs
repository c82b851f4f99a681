//! What the keys promise: which command each of them sends, which page it opens,
//! and where its cursor goes.

use vstd::prelude::*;

use crate::client;
use crate::client::popup::{PopupAction, PopupTarget, PopupView, SubMenuView};
use crate::client::state::ClientView;
use crate::client::{
    ActionView, CommandView, EffectView, InputMode, KeyCode, KeyContext, KeyEvent, LoginMode,
    Overlay,
};
use crate::models::{AudioQuality, DisplayItem, TrackData};
use crate::protocol::{
    ActiveTab, Command, ExploreCategory, GenreDetailSubTab, OfflineCategory, Screen, SearchCategory,
};
use crate::seqs;
use crate::text;

verus! {

/// The user is logged in, no menu is open and nothing is typed.
pub open spec fn quiet(v: ClientView) -> bool {
    &&& v.data.screen == Screen::Main
    &&& v.layers.popup is None
    &&& v.input_mode == InputMode::Normal
    &&& !v.tabs.radios.typing
    &&& !v.tabs.genres.typing
    &&& !v.tabs.favorites.filter_typing
    &&& !v.tabs.offline.filter_typing
    &&& !v.tabs.offline.detail_filter_typing
    &&& !v.pages.playlist_filter_typing
}

/// The main view is shown, and nothing over it.
pub open spec fn at_rest(v: ClientView) -> bool {
    quiet(v) && v.layers.overlay is None
}

/// This page is shown, and nothing over it.
pub open spec fn on_page(v: ClientView, page: Overlay) -> bool {
    quiet(v) && v.layers.overlay == Some(page)
}

/// A key pressed by itself.
pub open spec fn pressed(v: ClientView, code: KeyCode, ctx: KeyContext) -> (ClientView, ActionView) {
    v.key(KeyEvent { code, ctrl: false }, ctx)
}

/// A letter pressed by itself.
pub open spec fn letter(v: ClientView, c: char, ctx: KeyContext) -> (ClientView, ActionView) {
    pressed(v, KeyCode::Char(c), ctx)
}

/// One command is sent, as it stands.
pub open spec fn sent(cmd: Command) -> ActionView {
    ActionView::Send(CommandView::Plain(cmd))
}

/// What a quiet client does with a key that opens no screen of its own.
proof fn keys_reach_the_view(v: ClientView, code: KeyCode, ctx: KeyContext)
    requires
        quiet(v),
        code != KeyCode::Char('?'),
        code != KeyCode::Char('i'),
        code != KeyCode::Char('p'),
    ensures
        v.layers.overlay is None ==> pressed(v, code, ctx) == v.normal_key(code),
        v.layers.overlay is Some ==> pressed(v, code, ctx) == v.overlay_key(
            KeyEvent { code, ctrl: false },
            ctx,
        ),
{
    reveal(ClientView::key);
    reveal(ClientView::toggle_key);
    reveal(ClientView::control_key);
    reveal(ClientView::main_key);
    reveal(ClientView::view_key);
}

// ── The player's controls ───────────────────────────────────────────

/// The command that a player key stands for.
pub open spec fn control_of(c: char, volume: u32) -> Option<Command> {
    if c == ' ' {
        Some(Command::TogglePause)
    } else if c == 'n' {
        Some(Command::NextTrack)
    } else if c == 'b' {
        Some(Command::PrevTrack)
    } else if c == 's' {
        Some(Command::ToggleShuffle)
    } else if c == 'r' {
        Some(Command::CycleRepeat)
    } else if c == '+' || c == '=' {
        Some(
            Command::SetVolume {
                volume: if volume + 50 <= 1000 {
                    (volume + 50) as u32
                } else {
                    1000
                },
            },
        )
    } else if c == '-' {
        Some(
            Command::SetVolume {
                volume: if volume >= 50 {
                    (volume - 50) as u32
                } else {
                    0
                },
            },
        )
    } else {
        None
    }
}

/// On the main view the player's keys control playback: pause, next, previous,
/// shuffle, repeat, and the volume by a twentieth at a time, never below silent or
/// above full.
pub proof fn player_keys_control_playback(v: ClientView, c: char, ctx: KeyContext)
    requires
        at_rest(v),
        control_of(c, v.data.volume) is Some,
    ensures
        letter(v, c, ctx) == (v, sent(control_of(c, v.data.volume)->0)),
{
    keys_reach_the_view(v, KeyCode::Char(c), ctx);
    reveal(ClientView::normal_key);
    reveal(ClientView::letter_key);
    reveal(ClientView::player_control);
    reveal(ClientView::control_or_stay);
}

/// The player's keys work on every detail page too.
pub proof fn player_keys_work_on_pages(v: ClientView, c: char, ctx: KeyContext)
    requires
        quiet(v),
        control_of(c, v.data.volume) is Some,
        match v.layers.overlay {
            Some(Overlay::AlbumDetail { .. })
            | Some(Overlay::ArtistDetail)
            | Some(Overlay::PlaylistDetail { .. })
            | Some(Overlay::ShowDetail { .. })
            | Some(Overlay::GenreDetail { .. })
            | Some(Overlay::WaitingList { .. })
            | Some(Overlay::NowPlaying { .. })
            | Some(Overlay::OfflineDetail { .. }) => true,
            _ => false,
        },
    ensures
        letter(v, c, ctx) == (v, sent(control_of(c, v.data.volume)->0)),
{
    keys_reach_the_view(v, KeyCode::Char(c), ctx);
    reveal(ClientView::overlay_key);
    reveal(ClientView::album_key);
    reveal(ClientView::artist_key);
    reveal(ClientView::playlist_key);
    reveal(ClientView::show_key);
    reveal(ClientView::genre_key);
    reveal(ClientView::waiting_key);
    reveal(ClientView::now_playing_key);
    reveal(ClientView::offline_key);
    reveal(ClientView::player_control);
    reveal(ClientView::control_or_stay);
}

/// With the control key held, the arrows seek ten seconds, whatever is open; `z`
/// leaves the client, and `q` ends the program as well.
pub proof fn control_keys_seek_and_leave(v: ClientView, ctx: KeyContext)
    ensures
        v.key(KeyEvent { code: KeyCode::Right, ctrl: true }, ctx) == (
            v,
            sent(Command::SeekForward { secs: 10 }),
        ),
        v.key(KeyEvent { code: KeyCode::Left, ctrl: true }, ctx) == (
            v,
            sent(Command::SeekBackward { secs: 10 }),
        ),
        v.key(KeyEvent { code: KeyCode::Char('z'), ctrl: true }, ctx) == (v, ActionView::Detach),
        v.data.screen == Screen::Main ==> v.key(
            KeyEvent { code: KeyCode::Char('q'), ctrl: true },
            ctx,
        ) == (v, ActionView::Quit),
{
    reveal(ClientView::key);
    reveal(ClientView::toggle_key);
    reveal(ClientView::control_key);
    reveal(ClientView::main_key);
}

// ── The main view ───────────────────────────────────────────────────

/// Tab walks the tabs and the arrows walk the categories; Flow and the shuffled
/// favorites start with one key; the queue and the settings open with one.
pub proof fn main_keys_walk_and_open(v: ClientView, ctx: KeyContext)
    requires
        at_rest(v),
    ensures
        !v.data.is_offline ==> pressed(v, KeyCode::Tab, ctx) == (v, sent(Command::NextTab)),
        !v.data.is_offline ==> pressed(v, KeyCode::BackTab, ctx) == (v, sent(Command::PrevTab)),
        v.data.is_offline ==> pressed(v, KeyCode::Tab, ctx) == (v, ActionView::Continue),
        pressed(v, KeyCode::Left, ctx) == (v, sent(Command::PrevCategory)),
        pressed(v, KeyCode::Right, ctx) == (v, sent(Command::NextCategory)),
        letter(v, 'f', ctx) == (v, sent(Command::StartFlow)),
        letter(v, 'g', ctx) == (
            v,
            if v.data.active_tab == ActiveTab::Favorites {
                sent(Command::ShuffleFavorites)
            } else {
                ActionView::Continue
            },
        ),
        letter(v, 'w', ctx).1 == ActionView::Continue,
        letter(v, 'w', ctx).0.layers.overlay == Some(Overlay::WaitingList { selected: 0 }),
        pressed(v, KeyCode::Esc, ctx).1 == ActionView::Continue,
        pressed(v, KeyCode::Esc, ctx).0.layers.overlay == Some(Overlay::Settings { selected: 0 }),
{
    keys_reach_the_view(v, KeyCode::Tab, ctx);
    keys_reach_the_view(v, KeyCode::BackTab, ctx);
    keys_reach_the_view(v, KeyCode::Left, ctx);
    keys_reach_the_view(v, KeyCode::Right, ctx);
    keys_reach_the_view(v, KeyCode::Char('f'), ctx);
    keys_reach_the_view(v, KeyCode::Char('g'), ctx);
    keys_reach_the_view(v, KeyCode::Char('w'), ctx);
    keys_reach_the_view(v, KeyCode::Esc, ctx);
    reveal(ClientView::normal_key);
    reveal(ClientView::letter_key);
}

/// Help, information and playback open with their letter over whatever page is
/// shown, playback at the place of the queue that plays.
pub proof fn letters_open_screens(v: ClientView, ctx: KeyContext)
    requires
        at_rest(v),
    ensures
        letter(v, '?', ctx).0.layers.overlay == Some(Overlay::Help { scroll: 0 }),
        letter(v, 'i', ctx).0.layers.overlay == Some(Overlay::Info),
        letter(v, 'p', ctx).0.layers.overlay == Some(
            Overlay::NowPlaying { selected: v.data.queue_index },
        ),
        letter(v, '?', ctx).1 == ActionView::Continue,
        letter(v, 'i', ctx).1 == ActionView::Continue,
        letter(v, 'p', ctx).1 == ActionView::Continue,
{
    reveal(ClientView::key);
    reveal(ClientView::toggle_key);
}

/// Up and down move the cursor one row, inside the list; lists whose cursor is the
/// player's ask the player.
pub proof fn arrows_move_the_cursor(v: ClientView, ctx: KeyContext)
    requires
        at_rest(v),
    ensures
        ({
            let down = pressed(v, KeyCode::Down, ctx);
            let up = pressed(v, KeyCode::Up, ctx);
            let filtered = v.data.active_tab == ActiveTab::Favorites
                && v.tabs.favorites.filter_input.len() > 0 || v.data.active_tab
                == ActiveTab::Downloads && v.tabs.offline.filter_input.len() > 0;
            &&& v.data.active_tab != ActiveTab::Explore && !filtered ==> {
                &&& down == (v, sent(Command::SelectDown))
                &&& up == (v, sent(Command::SelectUp))
            }
            &&& v.data.active_tab == ActiveTab::Favorites && filtered ==> {
                &&& down.1 == ActionView::Continue && up.1 == ActionView::Continue
                &&& one_down(
                    v.tabs.favorites.filter_selected,
                    down.0.tabs.favorites.filter_selected,
                    v.tabs.favorites.filtered.len(),
                )
                &&& one_up(
                    v.tabs.favorites.filter_selected,
                    up.0.tabs.favorites.filter_selected,
                )
            }
            &&& v.data.active_tab == ActiveTab::Explore && v.data.explore_category
                == ExploreCategory::Moods ==> {
                &&& one_down(
                    v.tabs.moods_selected,
                    down.0.tabs.moods_selected,
                    v.tabs.moods.len(),
                )
                &&& one_up(v.tabs.moods_selected, up.0.tabs.moods_selected)
            }
            &&& v.data.active_tab == ActiveTab::Explore && v.data.explore_category
                == ExploreCategory::Radios ==> {
                &&& one_down(
                    v.tabs.radios.selected,
                    down.0.tabs.radios.selected,
                    v.tabs.radios.shown.len(),
                )
                &&& one_up(v.tabs.radios.selected, up.0.tabs.radios.selected)
            }
            &&& v.data.active_tab == ActiveTab::Explore && v.data.explore_category
                == ExploreCategory::Categories ==> {
                &&& one_down(
                    v.tabs.genres.selected,
                    down.0.tabs.genres.selected,
                    v.tabs.genres.shown.len(),
                )
                &&& one_up(v.tabs.genres.selected, up.0.tabs.genres.selected)
            }
            &&& v.data.active_tab == ActiveTab::Explore && v.data.explore_category
                == ExploreCategory::NewReleases ==> {
                &&& one_down(
                    v.tabs.new_releases_selected,
                    down.0.tabs.new_releases_selected,
                    v.data.new_releases@.len(),
                )
                &&& one_up(v.tabs.new_releases_selected, up.0.tabs.new_releases_selected)
                &&& down.1 == sent(
                    Command::SelectIndex { index: down.0.tabs.new_releases_selected },
                )
                &&& up.1 == sent(Command::SelectIndex { index: up.0.tabs.new_releases_selected })
            }
        }),
{
    keys_reach_the_view(v, KeyCode::Up, ctx);
    keys_reach_the_view(v, KeyCode::Down, ctx);
    reveal(ClientView::normal_key);
    reveal(ClientView::list_moved);
    reveal(ClientView::explore_moved);
}

/// The cursor went one row down, unless it stood at the end.
pub open spec fn one_down(before: usize, after: usize, rows: nat) -> bool {
    &&& before + 1 < rows <= usize::MAX ==> after == before + 1
    &&& before + 1 == rows ==> after == before
}

/// The cursor went one row up, unless it stood at the top.
pub open spec fn one_up(before: usize, after: usize) -> bool {
    &&& before > 0 ==> after == before - 1
    &&& before == 0 ==> after == 0
}

/// Enter plays the row under the cursor if it is a track, and opens its page
/// otherwise.
pub proof fn enter_plays_or_opens_the_row(v: ClientView, row: DisplayItem, ctx: KeyContext)
    requires
        at_rest(v),
        v.data.active_tab == ActiveTab::Search,
        v.tabs.search_selected < v.data.search_display@.len(),
        v.data.search_display@[v.tabs.search_selected as int] == row,
    ensures
        ({
            let (after, action) = pressed(v, KeyCode::Enter, ctx);
            opens_row(
                v,
                row,
                after,
                action,
                Command::PlayFromSearch { index: v.tabs.search_selected },
            )
        }),
{
    keys_reach_the_view(v, KeyCode::Enter, ctx);
    reveal(ClientView::normal_key);
    reveal(ClientView::entered);
    reveal(ClientView::page_opened);
}

/// A track plays by this command; an artist, an album, a playlist or a show opens
/// its page, at the top, and is asked for by its id.
pub open spec fn opens_row(
    v: ClientView,
    row: DisplayItem,
    after: ClientView,
    action: ActionView,
    play: Command,
) -> bool {
    let page = after.layers.overlay;
    if row.track is Some {
        after == v && action == sent(play)
    } else if row.artist_id is Some {
        page == Some(Overlay::ArtistDetail) && action == sent(
            Command::GetArtistDetail { artist_id: row.artist_id->0 },
        ) && after.pages.artist.selected == 0
    } else if row.album_id is Some {
        page == Some(Overlay::AlbumDetail { from_artist: false }) && action == sent(
            Command::GetAlbumDetail { album_id: row.album_id->0 },
        ) && after.pages.album.selected == 0
    } else if row.playlist_id is Some {
        page == Some(Overlay::PlaylistDetail { selected: 0 }) && action == sent(
            Command::GetPlaylistDetail { playlist_id: row.playlist_id->0 },
        ) && after.pages.playlist_filter_input.len() == 0
    } else if row.show_id is Some {
        page == Some(Overlay::ShowDetail { selected: 0 }) && action == sent(
            Command::GetShowDetail { show_id: row.show_id->0 },
        )
    } else {
        after == v && action == sent(play)
    }
}

/// The same holds of the favorites, whose place in the whole list is played also
/// where a filter hides some of it.
pub proof fn enter_plays_or_opens_the_favorite(
    v: ClientView,
    row: DisplayItem,
    index: usize,
    ctx: KeyContext,
)
    requires
        at_rest(v),
        v.data.active_tab == ActiveTab::Favorites,
        if v.tabs.favorites.filter_input.len() > 0 {
            v.tabs.favorites.filter_selected < v.tabs.favorites.filtered.len()
                && v.tabs.favorites.filtered[v.tabs.favorites.filter_selected as int] == (
                index,
                row,
            )
        } else {
            v.tabs.favorites.selected == index && index < v.data.favorites_display@.len()
                && v.data.favorites_display@[index as int] == row
        },
    ensures
        ({
            let (after, action) = pressed(v, KeyCode::Enter, ctx);
            opens_row(v, row, after, action, Command::PlayFromFavorites { index })
        }),
{
    keys_reach_the_view(v, KeyCode::Enter, ctx);
    reveal(ClientView::normal_key);
    reveal(ClientView::entered);
    reveal(ClientView::page_opened);
}

/// Enter plays the mood, the new release or the station under the cursor, and
/// opens the genre under it.
pub proof fn enter_explores(v: ClientView, ctx: KeyContext)
    requires
        at_rest(v),
        v.data.active_tab == ActiveTab::Explore,
    ensures
        ({
            let (after, action) = pressed(v, KeyCode::Enter, ctx);
            let t = v.tabs;
            &&& v.data.explore_category == ExploreCategory::Moods ==> after == v && action == (
            if t.moods.len() > 0 {
                sent(Command::PlayFromMood { index: t.moods_selected })
            } else {
                ActionView::Continue
            })
            &&& v.data.explore_category == ExploreCategory::NewReleases ==> after == v && action
                == sent(Command::PlayFromNewReleases { index: t.new_releases_selected })
            &&& v.data.explore_category == ExploreCategory::Categories && t.genres.selected
                < t.genres.shown.len() ==> {
                let genre = t.genres.shown[t.genres.selected as int];
                &&& action == sent(
                    Command::GetGenreDetail { genre_id: genre.id, name: genre.name },
                )
                &&& after.layers.overlay == Some(
                    Overlay::GenreDetail { sub_tab: GenreDetailSubTab::Tracks, selected: 0 },
                )
            }
        }),
{
    keys_reach_the_view(v, KeyCode::Enter, ctx);
    reveal(ClientView::normal_key);
    reveal(ClientView::entered);
    reveal(ClientView::explore_entered);
}

/// Enter plays the station under the cursor: the command names the place of that
/// station in the whole list, also where a filter hides some of it.
pub proof fn enter_plays_the_station(v: ClientView, at: int, ctx: KeyContext)
    requires
        at_rest(v),
        v.data.active_tab == ActiveTab::Explore,
        v.data.explore_category == ExploreCategory::Radios,
        v.tabs.radios.selected < v.tabs.radios.shown.len(),
        0 <= at < v.tabs.radios.items.len() <= usize::MAX,
        v.tabs.radios.items[at].id == v.tabs.radios.shown[v.tabs.radios.selected as int].id,
        forall|k: int|
            0 <= k < at ==> (#[trigger] v.tabs.radios.items[k]).id
                != v.tabs.radios.shown[v.tabs.radios.selected as int].id,
    ensures
        pressed(v, KeyCode::Enter, ctx) == (v, sent(Command::PlayFromRadio { index: at as usize })),
{
    keys_reach_the_view(v, KeyCode::Enter, ctx);
    reveal(ClientView::normal_key);
    reveal(ClientView::entered);
    reveal(ClientView::explore_entered);
    let items = v.tabs.radios.items;
    let id = v.tabs.radios.shown[v.tabs.radios.selected as int].id;
    assert(client::main_keys::is_first_radio(items, id, at));
    let j = choose|i: int| client::main_keys::is_first_radio(items, id, i);
    assert(client::main_keys::is_first_radio(items, id, j));
    if j < at {
        assert(items[j].id == id);
    } else if at < j {
        assert(items[at].id == id);
    }
}

/// Enter plays the downloaded track under the cursor, and opens the downloaded
/// album or playlist under it.
pub proof fn enter_plays_downloads(v: ClientView, ctx: KeyContext)
    requires
        at_rest(v),
        v.data.active_tab == ActiveTab::Downloads,
        v.tabs.offline.filter_input.len() == 0,
    ensures
        v.data.offline_category == OfflineCategory::Tracks ==> pressed(v, KeyCode::Enter, ctx) == (
            v,
            sent(Command::PlayFromOffline { index: v.tabs.offline.selected }),
        ),
        v.data.offline_category != OfflineCategory::Tracks ==> pressed(v, KeyCode::Enter, ctx).1
            == ActionView::Continue,
{
    keys_reach_the_view(v, KeyCode::Enter, ctx);
    reveal(ClientView::normal_key);
    reveal(ClientView::entered);
    reveal(ClientView::download_opened);
}

/// `a` and `t` open the album and the artist of the row under the cursor: its own,
/// or its track's.
pub proof fn rows_lead_to_album_and_artist(
    v: ClientView,
    row: DisplayItem,
    track: TrackData,
    ctx: KeyContext,
)
    requires
        at_rest(v),
        v.data.active_tab == ActiveTab::Search,
        v.tabs.search_selected < v.data.search_display@.len(),
        v.data.search_display@[v.tabs.search_selected as int] == row,
        row.album_id is None,
        row.artist_id is None,
        row.track == Some(track),
    ensures
        track.album_id is Some ==> {
            let (after, action) = letter(v, 'a', ctx);
            &&& action == sent(Command::GetAlbumDetail { album_id: track.album_id->0 })
            &&& after.layers.overlay == Some(Overlay::AlbumDetail { from_artist: false })
            &&& after.pages.album.selected == 0
        },
        track.artist_id is Some ==> {
            let (after, action) = letter(v, 't', ctx);
            &&& action == sent(Command::GetArtistDetail { artist_id: track.artist_id->0 })
            &&& after.layers.overlay == Some(Overlay::ArtistDetail)
            &&& after.pages.artist.selected == 0
        },
        track.album_id is None ==> letter(v, 'a', ctx) == (v, ActionView::Continue),
        track.artist_id is None ==> letter(v, 't', ctx) == (v, ActionView::Continue),
{
    keys_reach_the_view(v, KeyCode::Char('a'), ctx);
    keys_reach_the_view(v, KeyCode::Char('t'), ctx);
    reveal(ClientView::normal_key);
    reveal(ClientView::album_opened);
    reveal(ClientView::artist_opened);
}

/// Enter sends the words typed into the search input and leaves it; without words
/// nothing is sent. Escape leaves it and keeps the words, and backspace takes the
/// last letter back.
pub proof fn typed_words_are_searched(v: ClientView, ctx: KeyContext)
    requires
        v.data.screen == Screen::Main,
        v.layers.popup is None,
        v.layers.overlay is None,
        v.input_mode == InputMode::Typing,
    ensures
        ({
            let (after, action) = pressed(v, KeyCode::Enter, ctx);
            &&& after == (ClientView { input_mode: InputMode::Normal, ..v })
            &&& action == (if v.search_input.len() > 0 {
                ActionView::Send(CommandView::Search(v.search_input))
            } else {
                ActionView::Continue
            })
        }),
        pressed(v, KeyCode::Esc, ctx) == (
            ClientView { input_mode: InputMode::Normal, ..v },
            ActionView::Continue,
        ),
        ({
            let (after, action) = pressed(v, KeyCode::Backspace, ctx);
            &&& action == ActionView::Continue
            &&& after.input_mode == InputMode::Typing
            &&& v.search_input.len() > 0 ==> after.search_input == v.search_input.drop_last()
            &&& v.search_input.len() == 0 ==> after.search_input == v.search_input
        }),
{
    reveal(ClientView::key);
    reveal(ClientView::toggle_key);
    reveal(ClientView::control_key);
    reveal(ClientView::main_key);
    reveal(ClientView::view_key);
    reveal(ClientView::search_typed);
}

// ── The login screen ────────────────────────────────────────────────

/// On the login screen Enter opens the browser and `w` the input; there Enter
/// sends what was typed, and Escape goes back. While a login is tried no key does
/// anything.
pub proof fn logins_are_typed_and_sent(v: ClientView, ctx: KeyContext)
    requires
        v.data.screen == Screen::Login,
    ensures
        v.login.loading ==> pressed(v, KeyCode::Enter, ctx) == (v, ActionView::Continue),
        !v.login.loading && v.login.mode == LoginMode::Button ==> {
            &&& pressed(v, KeyCode::Enter, ctx) == (v, ActionView::WebLogin)
            &&& pressed(v, KeyCode::Esc, ctx) == (v, ActionView::Quit)
            &&& letter(v, 'w', ctx).0.login.mode == LoginMode::ArlInput
            &&& letter(v, 'w', ctx).0.login.input.len() == 0
            &&& letter(v, 'w', ctx).1 == ActionView::Continue
        },
        !v.login.loading && v.login.mode == LoginMode::ArlInput ==> {
            let (after, action) = pressed(v, KeyCode::Enter, ctx);
            let (back, none) = pressed(v, KeyCode::Esc, ctx);
            &&& v.login.input.len() > 0 ==> action == ActionView::Send(
                CommandView::Login(v.login.input),
            ) && after.login.loading
            &&& v.login.input.len() == 0 ==> action == ActionView::Continue && after == v
            &&& back.login.mode == LoginMode::Button && back.login.input.len() == 0
            &&& none == ActionView::Continue
        },
{
    reveal(ClientView::key);
    reveal(ClientView::toggle_key);
    reveal(ClientView::control_key);
    reveal(ClientView::login_key);
}

// ── Settings and pickers ────────────────────────────────────────────

/// Each entry of the settings leads where it says: help, themes, qualities at the
/// one in use, languages at the one in use, the vim keys, the login, leaving and
/// quitting.
pub proof fn settings_lead_where_they_say(v: ClientView, selected: usize, ctx: KeyContext)
    requires
        on_page(v, Overlay::Settings { selected }),
    ensures
        ({
            let (after, action) = pressed(v, KeyCode::Enter, ctx);
            &&& selected == 0 ==> after.layers.overlay == Some(Overlay::Help { scroll: 0 })
            &&& selected == 1 ==> after.layers.overlay is Some
                && after.layers.overlay->0 is ThemePicker
            &&& selected == 2 ==> after.layers.overlay == Some(
                Overlay::QualityPicker {
                    selected: match v.data.quality {
                        AudioQuality::Mp3_128 => 0,
                        AudioQuality::Mp3_320 => 1,
                        AudioQuality::Flac => 2,
                    },
                },
            )
            &&& selected == 3 ==> after.layers.overlay == Some(
                Overlay::LanguagePicker { selected: ctx.locale },
            )
            &&& selected == 4 ==> {
                &&& after.vim_keys != v.vim_keys
                &&& after.effects == v.effects.push(EffectView::SaveVimKeys(after.vim_keys))
                &&& after.layers == v.layers
            }
            &&& selected <= 4 ==> action == ActionView::Continue
            &&& selected == 5 ==> action == sent(Command::Logout)
            &&& selected == 6 ==> (after, action) == (v, ActionView::Detach)
            &&& selected == 7 ==> (after, action) == (v, ActionView::Quit)
        }),
{
    keys_reach_the_view(v, KeyCode::Enter, ctx);
    reveal(ClientView::overlay_key);
    reveal(ClientView::settings_key);
    reveal(ClientView::setting_chosen);
}

/// The quality picker sends the quality of the row under the cursor and closes.
pub proof fn the_quality_under_the_cursor_is_sent(v: ClientView, selected: usize, ctx: KeyContext)
    requires
        on_page(v, Overlay::QualityPicker { selected }),
        selected < 3,
    ensures
        ({
            let (after, action) = pressed(v, KeyCode::Enter, ctx);
            let quality = if selected == 0 {
                AudioQuality::Mp3_128
            } else if selected == 1 {
                AudioQuality::Mp3_320
            } else {
                AudioQuality::Flac
            };
            &&& action == sent(Command::SetQuality { quality })
            &&& after.layers.overlay == (if v.layers.overlay_stack.len() > 0 {
                Some(v.layers.overlay_stack.last())
            } else {
                None
            })
        }),
{
    keys_reach_the_view(v, KeyCode::Enter, ctx);
    reveal(ClientView::overlay_key);
    reveal(ClientView::quality_key);
}

/// The language picker saves the language under the cursor and closes.
pub proof fn the_language_under_the_cursor_is_saved(
    v: ClientView,
    selected: usize,
    ctx: KeyContext,
)
    requires
        on_page(v, Overlay::LanguagePicker { selected }),
        selected < ctx.locales,
    ensures
        ({
            let (after, action) = pressed(v, KeyCode::Enter, ctx);
            &&& action == ActionView::Continue
            &&& after.effects == v.effects.push(EffectView::SaveLanguage(selected))
            &&& after.layers.overlay == (if v.layers.overlay_stack.len() > 0 {
                Some(v.layers.overlay_stack.last())
            } else {
                None
            })
        }),
{
    keys_reach_the_view(v, KeyCode::Enter, ctx);
    reveal(ClientView::overlay_key);
    reveal(ClientView::language_key);
}

/// The theme under the picker's cursor is shown at once, and saved on Enter with
/// the transparency that is set; the side arrows set the transparency.
pub proof fn themes_are_shown_and_saved(v: ClientView, selected: usize, ctx: KeyContext)
    requires
        on_page(v, Overlay::ThemePicker { selected }),
    ensures
        ({
            let themes = crate::theme::offered(v.theme.omarchy_available);
            let (after, action) = pressed(v, KeyCode::Enter, ctx);
            let down = pressed(v, KeyCode::Down, ctx).0;
            let clear = pressed(v, KeyCode::Right, ctx).0;
            let solid = pressed(v, KeyCode::Left, ctx).0;
            &&& selected < themes.len() ==> {
                &&& action == ActionView::Continue
                &&& after.effects == v.effects.push(
                    EffectView::SaveTheme {
                        theme: themes[selected as int],
                        transparency: v.theme.transparency,
                    },
                )
            }
            &&& selected + 1 < themes.len() ==> {
                &&& down.theme.current == themes[selected + 1]
                &&& down.layers.overlay == Some(
                    Overlay::ThemePicker { selected: (selected + 1) as usize },
                )
            }
            &&& clear.theme.transparency == 100 && clear.theme.current == v.theme.current
            &&& solid.theme.transparency == 0 && solid.theme.current == v.theme.current
        }),
{
    keys_reach_the_view(v, KeyCode::Enter, ctx);
    keys_reach_the_view(v, KeyCode::Down, ctx);
    keys_reach_the_view(v, KeyCode::Right, ctx);
    keys_reach_the_view(v, KeyCode::Left, ctx);
    reveal(ClientView::overlay_key);
    reveal(ClientView::theme_key);
    reveal(ClientView::previews);
}

/// The update dialog installs the version that it names, puts it off, or never
/// asks again.
pub proof fn updates_are_installed_or_put_off(
    v: ClientView,
    version: String,
    download_url: String,
    selected: usize,
    ctx: KeyContext,
)
    requires
        on_page(v, Overlay::UpdateAvailable { version, download_url, selected }),
    ensures
        ({
            let (after, action) = pressed(v, KeyCode::Enter, ctx);
            &&& selected == 0 ==> action == ActionView::PerformUpdate { version, download_url }
            &&& selected == 1 ==> action == ActionView::Continue && after.effects == v.effects
            &&& selected == 2 ==> action == ActionView::Continue && after.effects
                == v.effects.push(EffectView::SkipUpdates)
        }),
{
    keys_reach_the_view(v, KeyCode::Enter, ctx);
    reveal(ClientView::overlay_key);
    reveal(ClientView::update_key);
}

// ── Detail pages ────────────────────────────────────────────────────

/// Enter plays what is under the cursor of a page, by its place there; `d`
/// downloads the whole of it.
pub proof fn pages_play_and_download(v: ClientView, from_artist: bool, ctx: KeyContext)
    requires
        on_page(v, Overlay::AlbumDetail { from_artist }),
    ensures
        !v.pages.album.left_focused ==> pressed(v, KeyCode::Enter, ctx) == (
            v,
            sent(Command::PlayFromAlbum { index: v.pages.album.selected }),
        ),
        v.data.album_detail is Some ==> letter(v, 'd', ctx) == (
            v,
            sent(
                Command::DownloadAlbumOffline { album_id: v.data.album_detail->0.album_id },
            ),
        ),
        v.data.album_detail is None ==> letter(v, 'd', ctx) == (v, ActionView::Continue),
{
    keys_reach_the_view(v, KeyCode::Enter, ctx);
    keys_reach_the_view(v, KeyCode::Char('d'), ctx);
    reveal(ClientView::overlay_key);
    reveal(ClientView::album_key);
}

/// On a playlist's page `d` downloads the playlist; on a show's, Enter plays the
/// episode under the cursor.
pub proof fn playlists_download_and_shows_play(v: ClientView, selected: usize, ctx: KeyContext)
    ensures
        on_page(v, Overlay::PlaylistDetail { selected }) && v.data.playlist_detail is Some
            ==> letter(v, 'd', ctx) == (
            v,
            sent(
                Command::DownloadPlaylistOffline {
                    playlist_id: v.data.playlist_detail->0.playlist_id,
                },
            ),
        ),
        on_page(v, Overlay::ShowDetail { selected }) ==> pressed(v, KeyCode::Enter, ctx) == (
            v,
            sent(Command::PlayFromPlaylist { index: selected }),
        ),
{
    if quiet(v) {
        keys_reach_the_view(v, KeyCode::Enter, ctx);
        keys_reach_the_view(v, KeyCode::Char('d'), ctx);
    }
    reveal(ClientView::overlay_key);
    reveal(ClientView::playlist_key);
    reveal(ClientView::show_key);
}

/// On an artist's page Enter plays the top track under the cursor, or opens the
/// similar artist under it.
pub proof fn artists_play_and_lead_on(v: ClientView, ctx: KeyContext)
    requires
        on_page(v, Overlay::ArtistDetail),
    ensures
        ({
            let (after, action) = pressed(v, KeyCode::Enter, ctx);
            let at = v.pages.artist.selected;
            &&& v.pages.artist_sub_tab == crate::models::ArtistSubTab::TopTracks ==> after == v
                && action == sent(Command::PlayFromArtist { index: at })
            &&& v.pages.artist_sub_tab == crate::models::ArtistSubTab::Similar
                && v.data.artist_detail is Some && at
                < v.data.artist_detail->0.similar_artists@.len() ==> {
                &&& action == sent(
                    Command::GetArtistDetail {
                        artist_id: v.data.artist_detail->0.similar_artists@[at as int].artist_id,
                    },
                )
                &&& after.layers.overlay == Some(Overlay::ArtistDetail)
                &&& after.pages.artist_sub_tab == crate::models::ArtistSubTab::TopTracks
                &&& after.pages.artist.selected == 0
            }
        }),
{
    keys_reach_the_view(v, KeyCode::Enter, ctx);
    reveal(ClientView::overlay_key);
    reveal(ClientView::artist_key);
    reveal(ClientView::artist_entered);
}

/// On a genre's page Enter plays the track or the station under the cursor, and
/// opens the album, the artist or the playlist under it.
pub proof fn genres_play_and_lead_on(
    v: ClientView,
    sub_tab: GenreDetailSubTab,
    selected: usize,
    ctx: KeyContext,
)
    requires
        on_page(v, Overlay::GenreDetail { sub_tab, selected }),
        v.data.genre_detail is Some,
    ensures
        ({
            let (after, action) = pressed(v, KeyCode::Enter, ctx);
            let page = v.data.genre_detail->0;
            let at = selected as int;
            match sub_tab {
                GenreDetailSubTab::Tracks => at < page.tracks@.len() ==> after == v && action
                    == sent(Command::PlayFromGenreTrack { index: selected }),
                GenreDetailSubTab::Albums => at < page.albums@.len() ==> action == sent(
                    Command::GetAlbumDetail { album_id: page.albums@[at].album_id },
                ) && after.layers.overlay == Some(Overlay::AlbumDetail { from_artist: false }),
                GenreDetailSubTab::Artists => at < page.artists@.len() ==> action == sent(
                    Command::GetArtistDetail { artist_id: page.artists@[at].artist_id },
                ) && after.layers.overlay == Some(Overlay::ArtistDetail),
                GenreDetailSubTab::Playlists => at < page.playlists@.len() ==> action == sent(
                    Command::GetPlaylistDetail { playlist_id: page.playlists@[at].playlist_id },
                ) && after.layers.overlay == Some(Overlay::PlaylistDetail { selected: 0 }),
                GenreDetailSubTab::Radios => at < page.radios@.len() ==> after == v && action
                    == sent(Command::PlayFromGenreRadio { index: selected }),
            }
        }),
{
    keys_reach_the_view(v, KeyCode::Enter, ctx);
    reveal(ClientView::overlay_key);
    reveal(ClientView::genre_key);
    reveal(ClientView::genre_entered);
}

/// On the waiting list and on the playback page, Enter plays the place of the
/// queue under the cursor, and `d` takes it out unless it is the one that plays.
pub proof fn queue_pages_play_and_remove(v: ClientView, selected: usize, ctx: KeyContext)
    requires
        on_page(v, Overlay::WaitingList { selected }) || on_page(
            v,
            Overlay::NowPlaying { selected },
        ),
    ensures
        selected < v.data.queue@.len() ==> pressed(v, KeyCode::Enter, ctx) == (
            v,
            sent(Command::PlayFromQueue { index: selected }),
        ),
        selected >= v.data.queue@.len() ==> pressed(v, KeyCode::Enter, ctx) == (
            v,
            ActionView::Continue,
        ),
        letter(v, 'd', ctx).1 == (if selected < v.data.queue@.len() && selected
            != v.data.queue_index {
            sent(Command::RemoveFromQueue { index: selected })
        } else {
            ActionView::Continue
        }),
        pressed(v, KeyCode::Esc, ctx).1 == ActionView::Continue,
        pressed(v, KeyCode::Esc, ctx).0.layers.overlay == (if v.layers.overlay_stack.len() > 0 {
            Some(v.layers.overlay_stack.last())
        } else {
            None
        }),
{
    keys_reach_the_view(v, KeyCode::Enter, ctx);
    keys_reach_the_view(v, KeyCode::Char('d'), ctx);
    keys_reach_the_view(v, KeyCode::Esc, ctx);
    reveal(ClientView::overlay_key);
    reveal(ClientView::waiting_key);
    reveal(ClientView::now_playing_key);
}

/// Escape closes a detail page and sends nothing; the page below is shown again.
pub proof fn escape_closes_the_page(v: ClientView, ctx: KeyContext)
    requires
        quiet(v),
        match v.layers.overlay {
            Some(Overlay::AlbumDetail { .. })
            | Some(Overlay::ArtistDetail)
            | Some(Overlay::PlaylistDetail { .. })
            | Some(Overlay::ShowDetail { .. })
            | Some(Overlay::GenreDetail { .. })
            | Some(Overlay::OfflineDetail { .. })
            | Some(Overlay::Help { .. })
            | Some(Overlay::Info)
            | Some(Overlay::Settings { .. })
            | Some(Overlay::QualityPicker { .. })
            | Some(Overlay::LanguagePicker { .. })
            | Some(Overlay::ThemePicker { .. })
            | Some(Overlay::UpdateAvailable { .. }) => true,
            _ => false,
        },
    ensures
        pressed(v, KeyCode::Esc, ctx).1 == ActionView::Continue,
        pressed(v, KeyCode::Esc, ctx).0.layers.overlay == (if v.layers.overlay_stack.len() > 0 {
            Some(v.layers.overlay_stack.last())
        } else {
            None
        }),
{
    keys_reach_the_view(v, KeyCode::Esc, ctx);
    reveal(ClientView::overlay_key);
    reveal(ClientView::help_key);
    reveal(ClientView::info_key);
    reveal(ClientView::settings_key);
    reveal(ClientView::language_key);
    reveal(ClientView::quality_key);
    reveal(ClientView::theme_key);
    reveal(ClientView::update_key);
    reveal(ClientView::album_key);
    reveal(ClientView::artist_key);
    reveal(ClientView::playlist_key);
    reveal(ClientView::show_key);
    reveal(ClientView::genre_key);
    reveal(ClientView::offline_key);
}

/// In a downloaded album or playlist, Enter plays the track under the cursor of
/// the one that is open.
pub proof fn downloads_play_what_they_show(
    v: ClientView,
    playlist: bool,
    index: usize,
    selected: usize,
    ctx: KeyContext,
)
    requires
        on_page(v, Overlay::OfflineDetail { playlist, index, selected }),
        v.tabs.offline.detail_filter_input.len() == 0,
        playlist ==> index < v.data.offline_playlists@.len() && selected
            < v.data.offline_playlists@[index as int].tracks@.len(),
        !playlist ==> index < v.data.offline_albums@.len() && selected
            < v.data.offline_albums@[index as int].tracks@.len(),
        client::view::offline_tracks_at(v.data, playlist, index).len() <= usize::MAX,
    ensures
        pressed(v, KeyCode::Enter, ctx) == (
            v,
            sent(
                if playlist {
                    Command::PlayOfflinePlaylist {
                        playlist_id: v.data.offline_playlists@[index as int].playlist_id,
                        track_index: selected,
                    }
                } else {
                    Command::PlayOfflineAlbum {
                        album_id: v.data.offline_albums@[index as int].album_id,
                        track_index: selected,
                    }
                },
            ),
        ),
{
    keys_reach_the_view(v, KeyCode::Enter, ctx);
    reveal(ClientView::overlay_key);
    reveal(ClientView::offline_key);
    reveal(ClientView::offline_entered);
    let tracks = client::view::offline_tracks_at(v.data, playlist, index);
    client::filters::all_places(
        tracks,
        client::filters::passes::<TrackData>(v.tabs.offline.detail_filter_input),
    );
}

// ── Likes ───────────────────────────────────────────────────────────

/// The track is one of the favorites that the client knows.
pub open spec fn hearted(v: ClientView, id: Seq<char>) -> bool {
    ||| exists|i: int|
        0 <= i < v.tabs.favorites.track_ids.len()
            && (#[trigger] v.tabs.favorites.track_ids[i])@ == id
    ||| exists|i: int|
        0 <= i < v.tabs.favorites.tracks.len()
            && (#[trigger] v.tabs.favorites.tracks[i]).track_id@ == id
}

/// The two ways to say that a track is a favorite agree.
proof fn hearted_is_liked(v: ClientView, id: Seq<char>)
    ensures
        hearted(v, id) == v.likes(id),
{
    let ids = v.tabs.favorites.track_ids;
    let tracks = v.tabs.favorites.tracks;
    if seqs::listed(ids, id) {
        let i = choose|i: int| 0 <= i < ids.len() && seqs::HasId::id_of(&#[trigger] ids[i]) == id;
        assert(ids[i]@ == id);
    }
    if seqs::listed(tracks, id) {
        let i = choose|i: int|
            0 <= i < tracks.len() && seqs::HasId::id_of(&#[trigger] tracks[i]) == id;
        assert(tracks[i].track_id@ == id);
    }
    if exists|i: int| 0 <= i < ids.len() && (#[trigger] ids[i])@ == id {
        let i = choose|i: int| 0 <= i < ids.len() && (#[trigger] ids[i])@ == id;
        assert(seqs::HasId::id_of(&ids[i]) == id);
    }
    if exists|i: int| 0 <= i < tracks.len() && (#[trigger] tracks[i]).track_id@ == id {
        let i = choose|i: int| 0 <= i < tracks.len() && (#[trigger] tracks[i]).track_id@ == id;
        assert(seqs::HasId::id_of(&tracks[i]) == id);
    }
}

/// Where no row of its own can be liked, `l` turns the heart of the playing track
/// around: a favorite is removed and any other track added.
pub proof fn liking_turns_the_heart_around(v: ClientView, track: TrackData, ctx: KeyContext)
    requires
        at_rest(v),
        !v.vim_keys,
        v.data.active_tab == ActiveTab::Explore || v.data.active_tab == ActiveTab::Downloads,
        v.data.current_track == Some(track),
    ensures
        letter(v, 'l', ctx).1 == sent(
            if hearted(v, track.track_id@) {
                Command::RemoveFavorite { track_id: track.track_id }
            } else {
                Command::AddFavorite { track_id: track.track_id }
            },
        ),
{
    keys_reach_the_view(v, KeyCode::Char('l'), ctx);
    hearted_is_liked(v, track.track_id@);
    reveal(ClientView::normal_key);
    reveal(ClientView::letter_key);
    reveal(ClientView::liked);
    reveal(ClientView::liked_in_tab);
    reveal(ClientView::page_track);
}

/// A track that was found is liked by its own row, not the one that plays.
pub proof fn found_tracks_are_liked_by_their_row(
    v: ClientView,
    row: DisplayItem,
    track: TrackData,
    ctx: KeyContext,
)
    requires
        at_rest(v),
        !v.vim_keys,
        v.data.active_tab == ActiveTab::Search,
        v.data.search_category == SearchCategory::Track,
        v.tabs.search_selected < v.data.search_display@.len(),
        v.data.search_display@[v.tabs.search_selected as int] == row,
        row.track == Some(track),
    ensures
        letter(v, 'l', ctx).1 == sent(
            if hearted(v, track.track_id@) {
                Command::RemoveFavorite { track_id: track.track_id }
            } else {
                Command::AddFavorite { track_id: track.track_id }
            },
        ),
{
    keys_reach_the_view(v, KeyCode::Char('l'), ctx);
    hearted_is_liked(v, track.track_id@);
    reveal(ClientView::normal_key);
    reveal(ClientView::letter_key);
    reveal(ClientView::liked);
    reveal(ClientView::liked_in_tab);
    reveal(ClientView::page_track);
}

// ── Context menus ───────────────────────────────────────────────────

/// A menu is open on an entry, without a dialog.
pub open spec fn on_entry(v: ClientView, menu: PopupView, action: PopupAction) -> bool {
    &&& v.data.screen == Screen::Main
    &&& v.layers.popup == Some(menu)
    &&& menu.sub_menu is None
    &&& menu.selected < menu.items.len()
    &&& menu.items[menu.selected as int].action == action
}

/// What an open menu does on Enter.
proof fn enter_chooses_the_entry(
    v: ClientView,
    menu: PopupView,
    action: PopupAction,
    ctx: KeyContext,
)
    requires
        on_entry(v, menu, action),
    ensures
        pressed(v, KeyCode::Enter, ctx) == v.closes().popup_action(
            menu.with_sub(None),
            action,
            ctx,
        ),
{
    reveal(ClientView::key);
    reveal(ClientView::toggle_key);
    reveal(ClientView::control_key);
    reveal(ClientView::main_key);
    reveal(ClientView::popup_key);
    reveal(ClientView::menu_key);
}

/// The entries of a track's menu send what they say, about that track, and close
/// the menu.
pub proof fn track_entries_send_what_they_say(
    v: ClientView,
    menu: PopupView,
    action: PopupAction,
    track: TrackData,
    ctx: KeyContext,
)
    requires
        on_entry(v, menu, action),
        menu.target == PopupTarget::Track(Box::new(track)),
    ensures
        ({
            let (after, done) = pressed(v, KeyCode::Enter, ctx);
            let id = track.track_id;
            &&& action == PopupAction::ToggleFavorite ==> done == sent(
                if menu.is_favorite {
                    Command::RemoveFavorite { track_id: id }
                } else {
                    Command::AddFavorite { track_id: id }
                },
            )
            &&& action == PopupAction::DownloadOffline ==> done == sent(
                Command::DownloadOffline { track },
            )
            &&& action == PopupAction::RemoveOffline ==> done == sent(
                Command::RemoveOfflineTrack { track_id: id },
            )
            &&& action == PopupAction::DislikeTrack ==> done == sent(
                Command::DislikeTrack { track_id: id },
            )
            &&& action == PopupAction::PlayNext ==> done == sent(Command::PlayNext { track })
            &&& action == PopupAction::AddToQueue ==> done == sent(Command::AddToQueue { track })
            &&& action == PopupAction::MixFromTrack ==> done == sent(
                Command::StartMix { track_id: id },
            )
            &&& action == PopupAction::RemoveFromPlaylist && menu.playlist_context is Some
                ==> done == sent(
                Command::RemoveFromPlaylist {
                    playlist_id: menu.playlist_context->0,
                    track_id: id,
                },
            )
            &&& action == PopupAction::ViewAlbum && track.album_id is Some ==> done == sent(
                Command::GetAlbumDetail { album_id: track.album_id->0 },
            ) && after.layers.overlay == Some(Overlay::AlbumDetail { from_artist: false })
            &&& action == PopupAction::ViewArtist && track.artist_id is Some ==> done == sent(
                Command::GetArtistDetail { artist_id: track.artist_id->0 },
            ) && after.layers.overlay == Some(Overlay::ArtistDetail)
            &&& action == PopupAction::Share ==> done == ActionView::Continue && after.effects
                == v.effects.push(
                EffectView::CopyLink("https://www.deezer.com/track/"@ + id@),
            )
            &&& action != PopupAction::AddToPlaylist && done != ActionView::Continue
                ==> after.layers.popup is None
            &&& action == PopupAction::AddToPlaylist ==> done == (if v.playlists.len() == 0 {
                sent(Command::RequestPlaylists)
            } else {
                ActionView::Continue
            })
        }),
{
    enter_chooses_the_entry(v, menu, action, ctx);
    reveal(ClientView::popup_action);
    reveal(ClientView::commands);
    reveal(ClientView::views_album);
    reveal(ClientView::views_artist);
    reveal(ClientView::opens_picker);
}

/// The entries of an artist's, an album's or a playlist's menu send what they say,
/// about that one, and close the menu.
pub proof fn other_entries_send_what_they_say(
    v: ClientView,
    menu: PopupView,
    action: PopupAction,
    id: String,
    title: String,
    artist: String,
    nb_songs: u64,
    ctx: KeyContext,
)
    requires
        on_entry(v, menu, action),
    ensures
        ({
            let (after, done) = pressed(v, KeyCode::Enter, ctx);
            &&& menu.target == (PopupTarget::Artist { artist_id: id, name: title }) ==> {
                &&& action == PopupAction::ToggleFavoriteArtist ==> done == sent(
                    if menu.is_favorite {
                        Command::RemoveFavoriteArtist { artist_id: id }
                    } else {
                        Command::AddFavoriteArtist { artist_id: id }
                    },
                )
                &&& action == PopupAction::ViewArtist ==> done == sent(
                    Command::GetArtistDetail { artist_id: id },
                ) && after.layers.overlay == Some(Overlay::ArtistDetail)
                &&& action == PopupAction::Share ==> after.effects == v.effects.push(
                    EffectView::CopyLink("https://www.deezer.com/artist/"@ + id@),
                )
            }
            &&& menu.target == (PopupTarget::Album { album_id: id, title, artist }) ==> {
                &&& action == PopupAction::ToggleFavoriteAlbum ==> done == sent(
                    if menu.is_favorite {
                        Command::RemoveFavoriteAlbum { album_id: id }
                    } else {
                        Command::AddFavoriteAlbum { album_id: id }
                    },
                )
                &&& action == PopupAction::DownloadContainerOffline ==> done == sent(
                    Command::DownloadAlbumOffline { album_id: id },
                )
                &&& action == PopupAction::RemoveOffline ==> done == sent(
                    Command::RemoveOfflineAlbum { album_id: id },
                )
                &&& action == PopupAction::ViewAlbum ==> done == sent(
                    Command::GetAlbumDetail { album_id: id },
                ) && after.layers.overlay == Some(Overlay::AlbumDetail { from_artist: false })
                &&& action == PopupAction::Share ==> after.effects == v.effects.push(
                    EffectView::CopyLink("https://www.deezer.com/album/"@ + id@),
                )
            }
            &&& menu.target == (PopupTarget::Playlist { playlist_id: id, title, nb_songs }) ==> {
                &&& action == PopupAction::DownloadContainerOffline ==> done == sent(
                    Command::DownloadPlaylistOffline { playlist_id: id },
                )
                &&& action == PopupAction::RemoveOffline ==> done == sent(
                    Command::RemoveOfflinePlaylist { playlist_id: id },
                )
                &&& action == PopupAction::DeletePlaylist && nb_songs == 0 ==> done == sent(
                    Command::DeletePlaylist { playlist_id: id },
                )
                &&& action == PopupAction::DeletePlaylist && nb_songs > 0 ==> done
                    == ActionView::Continue
                &&& action == PopupAction::Share ==> after.effects == v.effects.push(
                    EffectView::CopyLink("https://www.deezer.com/playlist/"@ + id@),
                )
            }
        }),
{
    enter_chooses_the_entry(v, menu, action, ctx);
    reveal(ClientView::popup_action);
    reveal(ClientView::commands);
    reveal(ClientView::views_album);
    reveal(ClientView::views_artist);
    reveal(ClientView::opens_picker);
}

/// A menu with this dialog in it is open.
pub open spec fn in_dialog(v: ClientView, menu: PopupView, sub: SubMenuView) -> bool {
    &&& v.data.screen == Screen::Main
    &&& v.layers.popup == Some(menu)
    &&& menu.sub_menu == Some(sub)
}

/// What an open dialog does with a key.
proof fn dialogs_get_the_key(
    v: ClientView,
    menu: PopupView,
    sub: SubMenuView,
    code: KeyCode,
    ctx: KeyContext,
)
    requires
        in_dialog(v, menu, sub),
        code != KeyCode::Char('?'),
        code != KeyCode::Char('i'),
        code != KeyCode::Char('p'),
    ensures
        pressed(v, code, ctx) == v.closes().dialog_key(menu.with_sub(None), sub, code),
{
    reveal(ClientView::key);
    reveal(ClientView::toggle_key);
    reveal(ClientView::control_key);
    reveal(ClientView::main_key);
    reveal(ClientView::popup_key);
}

/// A playlist is deleted when the user says yes, and only then.
pub proof fn deleting_takes_a_yes(
    v: ClientView,
    menu: PopupView,
    yes: bool,
    playlist_id: String,
    title: String,
    nb_songs: u64,
    ctx: KeyContext,
)
    requires
        in_dialog(v, menu, SubMenuView::ConfirmDeletePlaylist { confirm_yes: yes }),
        menu.target == (PopupTarget::Playlist { playlist_id, title, nb_songs }),
    ensures
        letter(v, 'y', ctx).1 == sent(Command::DeletePlaylist { playlist_id }),
        letter(v, 'n', ctx).1 == ActionView::Continue,
        pressed(v, KeyCode::Esc, ctx).1 == ActionView::Continue,
        pressed(v, KeyCode::Enter, ctx).1 == (if yes {
            sent(Command::DeletePlaylist { playlist_id })
        } else {
            ActionView::Continue
        }),
{
    let sub = SubMenuView::ConfirmDeletePlaylist { confirm_yes: yes };
    dialogs_get_the_key(v, menu, sub, KeyCode::Char('y'), ctx);
    dialogs_get_the_key(v, menu, sub, KeyCode::Char('n'), ctx);
    dialogs_get_the_key(v, menu, sub, KeyCode::Esc, ctx);
    dialogs_get_the_key(v, menu, sub, KeyCode::Enter, ctx);
    reveal(ClientView::dialog_key);
    reveal(ClientView::delete_key);
}

/// A favorite is removed when the user says yes, and only then.
pub proof fn unliking_takes_a_yes(
    v: ClientView,
    menu: PopupView,
    yes: bool,
    track: TrackData,
    ctx: KeyContext,
)
    requires
        in_dialog(v, menu, SubMenuView::ConfirmRemoveFavorite { confirm_yes: yes }),
        menu.target == PopupTarget::Track(Box::new(track)),
    ensures
        letter(v, 'y', ctx).1 == sent(Command::RemoveFavorite { track_id: track.track_id }),
        letter(v, 'n', ctx).1 == ActionView::Continue,
        letter(v, 'n', ctx).0.layers.popup is None,
        pressed(v, KeyCode::Esc, ctx).1 == ActionView::Continue,
        pressed(v, KeyCode::Enter, ctx).1 == (if yes {
            sent(Command::RemoveFavorite { track_id: track.track_id })
        } else {
            ActionView::Continue
        }),
{
    let sub = SubMenuView::ConfirmRemoveFavorite { confirm_yes: yes };
    dialogs_get_the_key(v, menu, sub, KeyCode::Char('y'), ctx);
    dialogs_get_the_key(v, menu, sub, KeyCode::Char('n'), ctx);
    dialogs_get_the_key(v, menu, sub, KeyCode::Esc, ctx);
    dialogs_get_the_key(v, menu, sub, KeyCode::Enter, ctx);
    reveal(ClientView::dialog_key);
    reveal(ClientView::unlike_key);
}

/// The picker adds the track of the menu to the playlist under the cursor; its
/// first row makes a new playlist.
pub proof fn the_picker_adds_to_the_playlist(
    v: ClientView,
    menu: PopupView,
    playlists: Seq<crate::models::PlaylistData>,
    selected: usize,
    track: TrackData,
    ctx: KeyContext,
)
    requires
        in_dialog(
            v,
            menu,
            SubMenuView::PlaylistPicker {
                playlists,
                selected,
                loading: false,
                filter_input: Seq::empty(),
                filter_typing: false,
            },
        ),
        menu.target == PopupTarget::Track(Box::new(track)),
        playlists.len() <= usize::MAX,
    ensures
        0 < selected <= playlists.len() ==> {
            let (after, action) = pressed(v, KeyCode::Enter, ctx);
            &&& action == sent(
                Command::AddToPlaylist {
                    playlist_id: playlists[selected - 1].playlist_id,
                    track_id: track.track_id,
                },
            )
            &&& after.layers.popup is None
        },
        selected == 0 ==> pressed(v, KeyCode::Enter, ctx).1 == ActionView::Continue,
{
    let sub = SubMenuView::PlaylistPicker {
        playlists,
        selected,
        loading: false,
        filter_input: Seq::empty(),
        filter_typing: false,
    };
    dialogs_get_the_key(v, menu, sub, KeyCode::Enter, ctx);
    reveal(ClientView::dialog_key);
    reveal(ClientView::picker_key);
    reveal(ClientView::picked);
    client::filters::all_places(
        playlists,
        client::filters::passes::<crate::models::PlaylistData>(Seq::empty()),
    );
}

/// A new playlist gets the name that was typed, without the blanks around it, and
/// the track of the menu; a playlist is renamed likewise. A name of blanks is not
/// sent.
pub proof fn typed_names_are_sent(
    v: ClientView,
    menu: PopupView,
    name: Seq<char>,
    cursor: usize,
    track: TrackData,
    playlist_id: String,
    title: String,
    nb_songs: u64,
    ctx: KeyContext,
)
    ensures
        in_dialog(v, menu, SubMenuView::CreatePlaylistInput { name, cursor }) && menu.target
            == PopupTarget::Track(Box::new(track)) ==> pressed(v, KeyCode::Enter, ctx).1 == (
        if text::trimmed(name).len() > 0 {
            ActionView::Send(
                CommandView::CreatePlaylistAndAdd {
                    title: text::trimmed(name),
                    track_id: track.track_id,
                },
            )
        } else {
            ActionView::Continue
        }),
        in_dialog(v, menu, SubMenuView::RenamePlaylistInput { name, cursor }) && menu.target == (
        PopupTarget::Playlist { playlist_id, title, nb_songs }) ==> pressed(v, KeyCode::Enter, ctx).1
            == (if text::trimmed(name).len() > 0 {
            ActionView::Send(
                CommandView::RenamePlaylist { playlist_id, new_title: text::trimmed(name) },
            )
        } else {
            ActionView::Continue
        }),
{
    let create = SubMenuView::CreatePlaylistInput { name, cursor };
    let rename = SubMenuView::RenamePlaylistInput { name, cursor };
    if in_dialog(v, menu, create) {
        dialogs_get_the_key(v, menu, create, KeyCode::Enter, ctx);
    }
    if in_dialog(v, menu, rename) {
        dialogs_get_the_key(v, menu, rename, KeyCode::Enter, ctx);
    }
    reveal(ClientView::dialog_key);
    reveal(ClientView::create_key);
    reveal(ClientView::rename_key);
}

// ── Opening menus ───────────────────────────────────────────────────

/// `x` opens the menu of the track under the cursor, with its heart as it is.
pub proof fn the_menu_of_the_row_opens(
    v: ClientView,
    row: DisplayItem,
    track: TrackData,
    ctx: KeyContext,
)
    requires
        at_rest(v),
        v.data.active_tab == ActiveTab::Search,
        v.tabs.search_selected < v.data.search_display@.len(),
        v.data.search_display@[v.tabs.search_selected as int] == row,
        row.track == Some(track),
    ensures
        ({
            let (after, action) = letter(v, 'x', ctx);
            &&& action == ActionView::Continue
            &&& after.layers.popup is Some
            &&& after.layers.popup->0.target == PopupTarget::Track(Box::new(track))
            &&& after.layers.popup->0.is_favorite == hearted(v, track.track_id@)
            &&& after.layers.popup->0.sub_menu is None
            &&& after.layers.overlay == v.layers.overlay
        }),
{
    keys_reach_the_view(v, KeyCode::Char('x'), ctx);
    hearted_is_liked(v, track.track_id@);
    reveal(ClientView::normal_key);
    reveal(ClientView::item_popup);
}

/// Control and space open the menu of the track that plays.
pub proof fn the_menu_of_the_playing_track_opens(v: ClientView, track: TrackData, ctx: KeyContext)
    requires
        at_rest(v),
        v.data.current_track == Some(track),
    ensures
        ({
            let (after, action) = v.key(KeyEvent { code: KeyCode::Char(' '), ctrl: true }, ctx);
            &&& action == ActionView::Continue
            &&& after.layers.popup is Some
            &&& after.layers.popup->0.target == PopupTarget::Track(Box::new(track))
            &&& after.layers.popup->0.is_favorite == hearted(v, track.track_id@)
        }),
{
    hearted_is_liked(v, track.track_id@);
    reveal(ClientView::key);
    reveal(ClientView::toggle_key);
    reveal(ClientView::control_key);
    reveal(ClientView::main_key);
}

/// Escape closes a menu and sends nothing; up and down stay in it.
pub proof fn menus_close_on_escape(v: ClientView, menu: PopupView, ctx: KeyContext)
    requires
        v.data.screen == Screen::Main,
        v.layers.popup == Some(menu),
        menu.sub_menu is None,
    ensures
        pressed(v, KeyCode::Esc, ctx).1 == ActionView::Continue,
        pressed(v, KeyCode::Esc, ctx).0.layers.popup is None,
        pressed(v, KeyCode::Esc, ctx).0.layers.overlay == v.layers.overlay,
        pressed(v, KeyCode::Down, ctx).1 == ActionView::Continue,
        pressed(v, KeyCode::Down, ctx).0.layers.popup is Some,
        pressed(v, KeyCode::Down, ctx).0.layers.popup->0.target == menu.target,
        pressed(v, KeyCode::Down, ctx).0.layers.popup->0.items == menu.items,
{
    reveal(ClientView::key);
    reveal(ClientView::toggle_key);
    reveal(ClientView::control_key);
    reveal(ClientView::main_key);
    reveal(ClientView::popup_key);
    reveal(ClientView::menu_key);
}

// ── Cursors of pages, and inputs ────────────────────────────────────

/// On a page up and down move the cursor one row, inside its list, and send
/// nothing.
pub proof fn arrows_move_the_page_s_cursor(v: ClientView, at: usize, ctx: KeyContext)
    ensures
        ({
            let down = pressed(v, KeyCode::Down, ctx);
            let up = pressed(v, KeyCode::Up, ctx);
            let len = v.data.queue@.len();
            &&& on_page(v, Overlay::WaitingList { selected: at }) ==> {
                &&& down.1 == ActionView::Continue && up.1 == ActionView::Continue
                &&& at + 1 < len <= usize::MAX ==> down.0.layers.overlay == Some(
                    Overlay::WaitingList { selected: (at + 1) as usize },
                )
                &&& at + 1 == len ==> down.0.layers.overlay == v.layers.overlay
                &&& at > 0 ==> up.0.layers.overlay == Some(
                    Overlay::WaitingList { selected: (at - 1) as usize },
                )
            }
            &&& on_page(v, Overlay::NowPlaying { selected: at }) ==> {
                &&& down.1 == ActionView::Continue && up.1 == ActionView::Continue
                &&& at + 1 < len <= usize::MAX ==> down.0.layers.overlay == Some(
                    Overlay::NowPlaying { selected: (at + 1) as usize },
                )
                &&& at + 1 == len ==> down.0.layers.overlay == v.layers.overlay
                &&& at > 0 ==> up.0.layers.overlay == Some(
                    Overlay::NowPlaying { selected: (at - 1) as usize },
                )
            }
            &&& on_page(v, Overlay::Settings { selected: at }) ==> {
                &&& at + 1 < 8 ==> down.0.layers.overlay == Some(
                    Overlay::Settings { selected: (at + 1) as usize },
                )
                &&& at == 7 ==> down.0.layers.overlay == v.layers.overlay
                &&& at > 0 ==> up.0.layers.overlay == Some(
                    Overlay::Settings { selected: (at - 1) as usize },
                )
            }
            &&& on_page(v, Overlay::QualityPicker { selected: at }) ==> {
                &&& at + 1 < 3 ==> down.0.layers.overlay == Some(
                    Overlay::QualityPicker { selected: (at + 1) as usize },
                )
                &&& at == 2 ==> down.0.layers.overlay == v.layers.overlay
                &&& at > 0 ==> up.0.layers.overlay == Some(
                    Overlay::QualityPicker { selected: (at - 1) as usize },
                )
            }
        }),
{
    if quiet(v) {
        keys_reach_the_view(v, KeyCode::Up, ctx);
        keys_reach_the_view(v, KeyCode::Down, ctx);
    }
    reveal(ClientView::overlay_key);
    reveal(ClientView::waiting_key);
    reveal(ClientView::now_playing_key);
    reveal(ClientView::settings_key);
    reveal(ClientView::quality_key);
}

/// The cursors of the album's and of the artist's list of tracks move likewise.
pub proof fn arrows_move_the_detail_cursor(v: ClientView, from_artist: bool, ctx: KeyContext)
    ensures
        on_page(v, Overlay::AlbumDetail { from_artist }) && !v.pages.album.left_focused
            && v.data.album_detail is Some ==> {
            let down = pressed(v, KeyCode::Down, ctx);
            let up = pressed(v, KeyCode::Up, ctx);
            &&& down.1 == ActionView::Continue && up.1 == ActionView::Continue
            &&& one_down(
                v.pages.album.selected,
                down.0.pages.album.selected,
                v.data.album_detail->0.tracks@.len(),
            )
            &&& one_up(v.pages.album.selected, up.0.pages.album.selected)
        },
        on_page(v, Overlay::ArtistDetail) && !v.pages.artist.left_focused && v.data.artist_detail
            is Some && v.pages.artist_sub_tab == crate::models::ArtistSubTab::TopTracks ==> {
            let down = pressed(v, KeyCode::Down, ctx);
            let up = pressed(v, KeyCode::Up, ctx);
            &&& down.1 == ActionView::Continue && up.1 == ActionView::Continue
            &&& one_down(
                v.pages.artist.selected,
                down.0.pages.artist.selected,
                v.data.artist_detail->0.top_tracks@.len(),
            )
            &&& one_up(v.pages.artist.selected, up.0.pages.artist.selected)
        },
{
    if quiet(v) {
        keys_reach_the_view(v, KeyCode::Up, ctx);
        keys_reach_the_view(v, KeyCode::Down, ctx);
    }
    reveal(ClientView::overlay_key);
    reveal(ClientView::album_key);
    reveal(ClientView::album_moved);
    reveal(ClientView::artist_key);
    reveal(ClientView::artist_moved);
}

/// The slash puts the focus into the input of the tab that is shown, emptied; where
/// a tab has no input nothing happens.
pub proof fn the_slash_focuses_the_input(v: ClientView, ctx: KeyContext)
    requires
        at_rest(v),
    ensures
        ({
            let (after, action) = letter(v, '/', ctx);
            &&& action == ActionView::Continue
            &&& v.data.active_tab == ActiveTab::Search ==> after.input_mode == InputMode::Typing
                && after.search_input.len() == 0
            &&& v.data.active_tab == ActiveTab::Favorites ==> after.tabs.favorites.filter_typing
                && after.tabs.favorites.filter_input.len() == 0
            &&& v.data.active_tab == ActiveTab::Downloads ==> after.tabs.offline.filter_typing
                && after.tabs.offline.filter_input.len() == 0
            &&& v.data.active_tab == ActiveTab::Explore && v.data.explore_category
                == ExploreCategory::Radios ==> after.tabs.radios.typing
                && after.tabs.radios.input.len() == 0 && !after.tabs.genres.typing
            &&& v.data.active_tab == ActiveTab::Explore && v.data.explore_category
                == ExploreCategory::Categories ==> after.tabs.genres.typing
                && after.tabs.genres.input.len() == 0 && !after.tabs.radios.typing
            &&& v.data.active_tab == ActiveTab::Explore && (v.data.explore_category
                == ExploreCategory::Moods || v.data.explore_category
                == ExploreCategory::NewReleases) ==> after == v
        }),
{
    keys_reach_the_view(v, KeyCode::Char('/'), ctx);
    reveal(ClientView::normal_key);
    reveal(ClientView::filter_focused);
}

/// Enter on a downloaded album or playlist opens the one under the cursor.
pub proof fn enter_opens_the_download(v: ClientView, ctx: KeyContext)
    requires
        at_rest(v),
        v.data.active_tab == ActiveTab::Downloads,
        v.tabs.offline.filter_input.len() == 0,
        v.data.offline_albums@.len() <= usize::MAX,
        v.data.offline_playlists@.len() <= usize::MAX,
    ensures
        ({
            let after = pressed(v, KeyCode::Enter, ctx).0;
            let at = v.tabs.offline.selected;
            &&& v.data.offline_category == OfflineCategory::Albums && at
                < v.data.offline_albums@.len() ==> after.layers.overlay == Some(
                Overlay::OfflineDetail { playlist: false, index: at, selected: 0 },
            )
            &&& v.data.offline_category == OfflineCategory::Playlists && at
                < v.data.offline_playlists@.len() ==> after.layers.overlay == Some(
                Overlay::OfflineDetail { playlist: true, index: at, selected: 0 },
            )
        }),
{
    keys_reach_the_view(v, KeyCode::Enter, ctx);
    reveal(ClientView::normal_key);
    reveal(ClientView::entered);
    reveal(ClientView::download_opened);
    client::filters::all_places(
        v.data.offline_albums@,
        client::filters::passes::<crate::models::AlbumDetail>(v.tabs.offline.filter_input),
    );
    client::filters::all_places(
        v.data.offline_playlists@,
        client::filters::passes::<crate::models::PlaylistDetail>(v.tabs.offline.filter_input),
    );
}

} // verus!
