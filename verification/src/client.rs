//! The terminal client: what is on screen, and what keys and clicks do to it.

pub mod clicks;
pub mod filters;
pub mod key_laws;
pub mod laws;
pub mod likes;
pub mod main_keys;
pub mod mouse;
pub mod overlay_keys;
pub mod page_keys;
pub mod popup;
pub mod popup_keys;
pub mod session;
pub mod session_laws;
pub mod state;
pub mod updates;
pub mod view;

use vstd::prelude::*;

use crate::protocol::{Command, GenreDetailSubTab, NavOverlay};
use crate::theme::ThemeId;

verus! {

/// A key, as far as the client tells keys apart.
#[derive(Debug, Clone, Copy, PartialEq, Eq, Structural)]
pub enum KeyCode {
    Char(char),
    Enter,
    Esc,
    Tab,
    BackTab,
    Backspace,
    Delete,
    Up,
    Down,
    Left,
    Right,
    /// Any other key.
    Other,
}

/// A key press.
#[derive(Debug, Clone, Copy, PartialEq, Eq, Structural)]
pub struct KeyEvent {
    pub code: KeyCode,
    /// Whether the control key was held.
    pub ctrl: bool,
}

/// A press of this key alone.
pub open spec fn press(code: KeyCode) -> KeyEvent {
    KeyEvent { code, ctrl: false }
}

impl KeyEvent {
    /// A press of this key alone.
    pub fn from(code: KeyCode) -> (r: KeyEvent)
        ensures
            r == press(code),
    {
        KeyEvent { code, ctrl: false }
    }

    /// A press of this character with the control key held.
    pub open spec fn control(self, c: char) -> bool {
        self.code == KeyCode::Char(c) && self.ctrl
    }

    /// Whether this is `c` with the control key held.
    pub fn is_control(&self, c: char) -> (r: bool)
        ensures
            r == self.control(c),
    {
        match self.code {
            KeyCode::Char(k) => k == c && self.ctrl,
            _ => false,
        }
    }

    /// Whether this is the character `c`, whatever else was held.
    pub fn is_char(&self, c: char) -> (r: bool)
        ensures
            r == (self.code == KeyCode::Char(c)),
    {
        match self.code {
            KeyCode::Char(k) => k == c,
            _ => false,
        }
    }
}

/// Input mode for the client (typing in search/login vs normal navigation).
#[derive(Debug, Clone, Copy, PartialEq, Eq, Structural)]
pub enum InputMode {
    Normal,
    Typing,
}

/// Sub-mode for the login screen.
#[derive(Debug, Clone, Copy, PartialEq, Eq, Structural)]
pub enum LoginMode {
    /// Default: shows a "Login" button (Enter = browser login, w = ARL input).
    Button,
    /// ARL text input (Enter = submit ARL, Esc = back to Button).
    ArlInput,
}

/// Overlay menus independent from track popups.
#[derive(Debug, PartialEq, Eq)]
pub enum Overlay {
    /// Keyboard shortcuts help screen.
    Help { scroll: usize },
    /// Settings menu with selectable entries.
    Settings { selected: usize },
    /// Theme picker.
    ThemePicker { selected: usize },
    /// Audio quality picker.
    QualityPicker { selected: usize },
    /// Language picker.
    LanguagePicker { selected: usize },
    /// Album detail view. `from_artist` is true when opened from the artist
    /// detail page.
    AlbumDetail { from_artist: bool },
    /// Artist detail view.
    ArtistDetail,
    /// Playlist detail modal.
    PlaylistDetail { selected: usize },
    /// Podcast show episodes modal. Shows the same playlist as
    /// `PlaylistDetail`, minus the playlist-only actions.
    ShowDetail { selected: usize },
    /// Genre/category detail page.
    GenreDetail {
        sub_tab: GenreDetailSubTab,
        selected: usize,
    },
    /// Waiting list (upcoming tracks in queue).
    WaitingList { selected: usize },
    /// Full-page playback view with artwork, visualizer, and queue.
    NowPlaying { selected: usize },
    /// Track list of a downloaded album or playlist, as a modal.
    OfflineDetail {
        /// True when the target is a playlist, false for an album.
        playlist: bool,
        /// Place among the downloaded playlists or albums.
        index: usize,
        /// Cursor within the modal's (filtered) track list.
        selected: usize,
    },
    /// Application info modal.
    Info,
    /// Update available dialog with 3 options.
    UpdateAvailable {
        version: String,
        download_url: String,
        selected: usize,
    },
    /// Update in progress (downloading/installing).
    Updating { version: String },
}

impl Clone for Overlay {
    fn clone(&self) -> (r: Self)
        ensures
            r == *self,
    {
        match self {
            Overlay::Help { scroll } => Overlay::Help { scroll: *scroll },
            Overlay::Settings { selected } => Overlay::Settings { selected: *selected },
            Overlay::ThemePicker { selected } => Overlay::ThemePicker { selected: *selected },
            Overlay::QualityPicker { selected } => Overlay::QualityPicker { selected: *selected },
            Overlay::LanguagePicker { selected } => Overlay::LanguagePicker { selected: *selected },
            Overlay::AlbumDetail { from_artist } => Overlay::AlbumDetail {
                from_artist: *from_artist,
            },
            Overlay::ArtistDetail => Overlay::ArtistDetail,
            Overlay::PlaylistDetail { selected } => Overlay::PlaylistDetail { selected: *selected },
            Overlay::ShowDetail { selected } => Overlay::ShowDetail { selected: *selected },
            Overlay::GenreDetail { sub_tab, selected } => Overlay::GenreDetail {
                sub_tab: *sub_tab,
                selected: *selected,
            },
            Overlay::WaitingList { selected } => Overlay::WaitingList { selected: *selected },
            Overlay::NowPlaying { selected } => Overlay::NowPlaying { selected: *selected },
            Overlay::OfflineDetail { playlist, index, selected } => Overlay::OfflineDetail {
                playlist: *playlist,
                index: *index,
                selected: *selected,
            },
            Overlay::Info => Overlay::Info,
            Overlay::UpdateAvailable { version, download_url, selected } => {
                Overlay::UpdateAvailable {
                    version: version.clone(),
                    download_url: download_url.clone(),
                    selected: *selected,
                }
            },
            Overlay::Updating { version } => Overlay::Updating { version: version.clone() },
        }
    }
}

impl NavOverlay {
    /// The page that the client opens for a page that the player remembers.
    pub open spec fn opened(self) -> Overlay {
        match self {
            NavOverlay::ArtistDetail => Overlay::ArtistDetail,
            NavOverlay::AlbumDetail { from_artist } => Overlay::AlbumDetail { from_artist },
            NavOverlay::PlaylistDetail => Overlay::PlaylistDetail { selected: 0 },
            NavOverlay::GenreDetail => Overlay::GenreDetail {
                sub_tab: GenreDetailSubTab::Tracks,
                selected: 0,
            },
        }
    }

    /// The page that the client opens for a page that the player remembers.
    pub fn to_overlay(self) -> (r: Overlay)
        ensures
            r == self.opened(),
    {
        match self {
            NavOverlay::ArtistDetail => Overlay::ArtistDetail,
            NavOverlay::AlbumDetail { from_artist } => Overlay::AlbumDetail { from_artist },
            NavOverlay::PlaylistDetail => Overlay::PlaylistDetail { selected: 0 },
            NavOverlay::GenreDetail => Overlay::GenreDetail {
                sub_tab: GenreDetailSubTab::default(),
                selected: 0,
            },
        }
    }
}

impl Overlay {
    /// The page that the player remembers for an overlay, if it is one.
    pub open spec fn remembered(self) -> Option<NavOverlay> {
        match self {
            Overlay::ArtistDetail => Some(NavOverlay::ArtistDetail),
            Overlay::AlbumDetail { from_artist } => Some(NavOverlay::AlbumDetail { from_artist }),
            Overlay::PlaylistDetail { .. } => Some(NavOverlay::PlaylistDetail),
            Overlay::GenreDetail { .. } => Some(NavOverlay::GenreDetail),
            _ => None,
        }
    }

    /// The page that the player remembers for an overlay, if it is one.
    pub fn to_nav(&self) -> (r: Option<NavOverlay>)
        ensures
            r == self.remembered(),
    {
        match self {
            Overlay::ArtistDetail => Some(NavOverlay::ArtistDetail),
            Overlay::AlbumDetail { from_artist } => Some(
                NavOverlay::AlbumDetail { from_artist: *from_artist },
            ),
            Overlay::PlaylistDetail { .. } => Some(NavOverlay::PlaylistDetail),
            Overlay::GenreDetail { .. } => Some(NavOverlay::GenreDetail),
            _ => None,
        }
    }

    /// A returning modal: help, settings, pickers, dialogs. Detail pages and the
    /// waiting list are page content.
    pub open spec fn modal(self) -> bool {
        match self {
            Overlay::Help { .. }
            | Overlay::Settings { .. }
            | Overlay::ThemePicker { .. }
            | Overlay::QualityPicker { .. }
            | Overlay::LanguagePicker { .. }
            | Overlay::Info
            | Overlay::UpdateAvailable { .. }
            | Overlay::Updating { .. } => true,
            _ => false,
        }
    }

    /// Whether this is a returning modal.
    pub fn is_modal(&self) -> (r: bool)
        ensures
            r == self.modal(),
    {
        match self {
            Overlay::Help { .. }
            | Overlay::Settings { .. }
            | Overlay::ThemePicker { .. }
            | Overlay::QualityPicker { .. }
            | Overlay::LanguagePicker { .. }
            | Overlay::Info
            | Overlay::UpdateAvailable { .. }
            | Overlay::Updating { .. } => true,
            _ => false,
        }
    }
}

/// A page that the player remembers comes back as the same page.
pub proof fn remembered_pages_come_back(nav: NavOverlay)
    ensures
        nav.opened().remembered() == Some(nav),
{
}

/// What a command says, with the texts that the client composes taken as the
/// characters they hold.
pub enum CommandView {
    Search(Seq<char>),
    Login(Seq<char>),
    CreatePlaylistAndAdd { title: Seq<char>, track_id: String },
    RenamePlaylist { playlist_id: String, new_title: Seq<char> },
    /// Every other command, as it stands.
    Plain(Command),
}

impl View for Command {
    type V = CommandView;

    open spec fn view(&self) -> CommandView {
        match *self {
            Command::Search { query } => CommandView::Search(query@),
            Command::Login { arl } => CommandView::Login(arl@),
            Command::CreatePlaylistAndAdd { title, track_id } => CommandView::CreatePlaylistAndAdd {
                title: title@,
                track_id,
            },
            Command::RenamePlaylist { playlist_id, new_title } => CommandView::RenamePlaylist {
                playlist_id,
                new_title: new_title@,
            },
            other => CommandView::Plain(other),
        }
    }
}

/// Result of handling a key press.
#[derive(Debug)]
pub enum KeyAction {
    /// Do nothing special.
    Continue,
    /// Send a command to the player.
    SendCommand(Command),
    /// Send multiple commands to the player.
    MultiCommand(Vec<Command>),
    /// Quit: send shutdown to the player and exit.
    Quit,
    /// Detach: exit the client but keep the player running (Ctrl+Z / Ctrl+C).
    Detach,
    /// Open the browser for the web login.
    WebLogin,
    /// Download and install an update, then restart.
    PerformUpdate {
        version: String,
        download_url: String,
    },
}

/// What the result of handling a key press says.
pub enum ActionView {
    Continue,
    Send(CommandView),
    Multi(Seq<CommandView>),
    Quit,
    Detach,
    WebLogin,
    PerformUpdate { version: String, download_url: String },
}

/// What a list of commands says.
pub open spec fn commands_of(s: Seq<Command>) -> Seq<CommandView> {
    s.map_values(|c: Command| c@)
}

impl View for KeyAction {
    type V = ActionView;

    open spec fn view(&self) -> ActionView {
        match *self {
            KeyAction::Continue => ActionView::Continue,
            KeyAction::SendCommand(cmd) => ActionView::Send(cmd@),
            KeyAction::MultiCommand(cmds) => ActionView::Multi(commands_of(cmds@)),
            KeyAction::Quit => ActionView::Quit,
            KeyAction::Detach => ActionView::Detach,
            KeyAction::WebLogin => ActionView::WebLogin,
            KeyAction::PerformUpdate { version, download_url } => ActionView::PerformUpdate {
                version,
                download_url,
            },
        }
    }
}

/// Sends this command as it stands.
pub open spec fn sends(cmd: Command) -> ActionView {
    ActionView::Send(CommandView::Plain(cmd))
}

/// Something that a key asks of the program around the client.
#[derive(Debug)]
pub enum ClientEffect {
    /// Save whether the vim keys are on.
    SaveVimKeys(bool),
    /// Save the background's transparency.
    SaveTransparency(u8),
    /// Save the theme and the background's transparency.
    SaveTheme { theme: ThemeId, transparency: u8 },
    /// Switch to the language at this place of the list, and save it.
    SaveLanguage(usize),
    /// Never look for updates again.
    SkipUpdates,
    /// Put a link on the clipboard, and report how that went.
    CopyLink(String),
}

/// What an effect asks for.
pub enum EffectView {
    SaveVimKeys(bool),
    SaveTransparency(u8),
    SaveTheme { theme: ThemeId, transparency: u8 },
    SaveLanguage(usize),
    SkipUpdates,
    CopyLink(Seq<char>),
}

impl View for ClientEffect {
    type V = EffectView;

    open spec fn view(&self) -> EffectView {
        match *self {
            ClientEffect::SaveVimKeys(on) => EffectView::SaveVimKeys(on),
            ClientEffect::SaveTransparency(t) => EffectView::SaveTransparency(t),
            ClientEffect::SaveTheme { theme, transparency } => EffectView::SaveTheme {
                theme,
                transparency,
            },
            ClientEffect::SaveLanguage(i) => EffectView::SaveLanguage(i),
            ClientEffect::SkipUpdates => EffectView::SkipUpdates,
            ClientEffect::CopyLink(url) => EffectView::CopyLink(url@),
        }
    }
}

/// What a list of effects asks for.
pub open spec fn effects_of(s: Seq<ClientEffect>) -> Seq<EffectView> {
    s.map_values(|e: ClientEffect| e@)
}

/// What a key press may depend on besides the client's own state.
#[derive(Debug, Clone, Copy, PartialEq, Eq, Structural)]
pub struct KeyContext {
    /// The time, in milliseconds.
    pub now: u64,
    /// Whether a usable palette of the desktop is there.
    pub omarchy: bool,
    /// Place of the language in use among the languages offered.
    pub locale: usize,
    /// How many languages are offered.
    pub locales: usize,
}

/// What stands at a place of a list, if it is that long.
pub open spec fn nth<T>(s: Seq<T>, i: int) -> Option<T> {
    if 0 <= i < s.len() {
        Some(s[i])
    } else {
        None
    }
}

/// What stands at a place of a list, if it is that long.
pub fn at<T>(v: &Vec<T>, i: usize) -> (r: Option<&T>)
    ensures
        match r {
            Some(t) => nth(v@, i as int) == Some(*t),
            None => nth(v@, i as int) is None,
        },
{
    if i < v.len() {
        Some(&v[i])
    } else {
        None
    }
}

/// The cursor one step up.
pub open spec fn up(selected: usize) -> usize {
    if selected == 0 {
        0
    } else {
        (selected - 1) as usize
    }
}

/// The cursor one step down in a list of this length; an empty list is left at
/// its start.
pub open spec fn down(selected: usize, len: nat) -> usize {
    if len == 0 {
        0
    } else if selected + 1 < len {
        (selected + 1) as usize
    } else {
        (len - 1) as usize
    }
}

/// The cursor one step down in a list of this length; in an empty list it stays.
pub open spec fn down_if_any(selected: usize, len: nat) -> usize {
    if len == 0 {
        selected
    } else {
        down(selected, len)
    }
}

/// The cursor moved up into a list of this length.
pub open spec fn clamped(selected: usize, len: nat) -> usize {
    if len == 0 {
        0
    } else if selected < len {
        selected
    } else {
        (len - 1) as usize
    }
}

/// Moves a cursor one step up.
pub fn step_up(selected: usize) -> (r: usize)
    ensures
        r == up(selected),
{
    if selected == 0 {
        0
    } else {
        selected - 1
    }
}

/// Moves a cursor one step down.
pub fn step_down(selected: usize, len: usize) -> (r: usize)
    ensures
        r == down(selected, len as nat),
{
    if len == 0 {
        0
    } else if selected < len - 1 {
        selected + 1
    } else {
        len - 1
    }
}

/// Moves a cursor one step down, unless the list is empty.
pub fn step_down_if_any(selected: usize, len: usize) -> (r: usize)
    ensures
        r == down_if_any(selected, len as nat),
{
    if len == 0 {
        selected
    } else {
        step_down(selected, len)
    }
}

/// Moves a cursor into a list.
pub fn clamp(selected: usize, len: usize) -> (r: usize)
    ensures
        r == clamped(selected, len as nat),
{
    if len == 0 {
        0
    } else if selected < len {
        selected
    } else {
        len - 1
    }
}

/// A cursor inside a list stays inside it whichever way it steps, and one that
/// is not at an end comes back where it was.
pub proof fn cursors_stay_inside(selected: usize, len: nat)
    requires
        selected < len <= usize::MAX,
    ensures
        up(selected) < len,
        down(selected, len) < len,
        selected + 1 < len ==> up(down(selected, len)) == selected,
        selected > 0 ==> down(up(selected), len) == selected,
        clamped(selected, len) == selected,
{
}

} // verus!
