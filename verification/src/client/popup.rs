//! Context menus, and the small dialogs that open inside them.

use vstd::prelude::*;

use crate::client;
use crate::client::KeyCode;
use crate::models::{PlaylistData, TrackData};
use crate::text::{insert_char, joined, push_text, remove_char};

verus! {

/// What an entry of a context menu does.
#[derive(Debug, Clone, Copy, PartialEq, Eq, Structural)]
pub enum PopupAction {
    Header,
    ToggleFavorite,
    ToggleFavoriteArtist,
    ToggleFavoriteAlbum,
    AddToPlaylist,
    RemoveFromPlaylist,
    DownloadOffline,
    /// Download a whole album/playlist for offline mode.
    DownloadContainerOffline,
    /// Drop the targeted track/album/playlist from offline storage.
    RemoveOffline,
    DislikeTrack,
    PlayNext,
    AddToQueue,
    MixFromTrack,
    Share,
    TrackInfo,
    ViewAlbum,
    ViewArtist,
    RenamePlaylist,
    DeletePlaylist,
}

/// Words shown for an entry of a context menu. Putting them in the user's
/// language is left to the program.
#[derive(Debug, Clone, Copy, PartialEq, Eq, Structural)]
pub enum MenuLabel {
    Manage,
    Playback,
    Media,
    AddToFavorites,
    RemoveFromFavorites,
    AddToPlaylist,
    RemoveFromPlaylist,
    DownloadForOffline,
    RemoveFromOffline,
    DontRecommend,
    PlayNext,
    AddToQueue,
    MixInspired,
    TrackAlbum,
    TrackArtist,
    AlbumPage,
    Share,
    TrackInfo,
    RenamePlaylist,
    DeletePlaylist,
}

/// What the popup menu is operating on.
#[derive(Debug)]
pub enum PopupTarget {
    Track(Box<TrackData>),
    Artist {
        artist_id: String,
        name: String,
    },
    Album {
        album_id: String,
        title: String,
        artist: String,
    },
    Playlist {
        playlist_id: String,
        title: String,
        nb_songs: u64,
    },
}

impl Clone for PopupTarget {
    fn clone(&self) -> (r: Self)
        ensures
            r == *self,
    {
        match self {
            PopupTarget::Track(track) => {
                let copy: TrackData = (**track).clone();
                PopupTarget::Track(Box::new(copy))
            },
            PopupTarget::Artist { artist_id, name } => PopupTarget::Artist {
                artist_id: artist_id.clone(),
                name: name.clone(),
            },
            PopupTarget::Album { album_id, title, artist } => PopupTarget::Album {
                album_id: album_id.clone(),
                title: title.clone(),
                artist: artist.clone(),
            },
            PopupTarget::Playlist { playlist_id, title, nb_songs } => PopupTarget::Playlist {
                playlist_id: playlist_id.clone(),
                title: title.clone(),
                nb_songs: *nb_songs,
            },
        }
    }
}

/// One line of a context menu.
#[derive(Debug, Clone, Copy, PartialEq, Eq, Structural)]
pub struct PopupMenuItem {
    pub label: MenuLabel,
    pub action: PopupAction,
    pub is_header: bool,
}

/// A section title.
pub open spec fn heading(label: MenuLabel) -> PopupMenuItem {
    PopupMenuItem { label, action: PopupAction::Header, is_header: true }
}

/// An entry that can be chosen.
pub open spec fn entry(label: MenuLabel, action: PopupAction) -> PopupMenuItem {
    PopupMenuItem { label, action, is_header: false }
}

fn header(label: MenuLabel) -> (r: PopupMenuItem)
    ensures
        r == heading(label),
{
    PopupMenuItem { label, action: PopupAction::Header, is_header: true }
}

fn item(label: MenuLabel, action: PopupAction) -> (r: PopupMenuItem)
    ensures
        r == entry(label, action),
{
    PopupMenuItem { label, action, is_header: false }
}

/// A dialog inside a context menu.
#[derive(Debug)]
pub enum SubMenu {
    PlaylistPicker {
        playlists: Vec<PlaylistData>,
        selected: usize,
        loading: bool,
        /// Fuzzy filter text typed with `/`; empty means unfiltered.
        filter_input: String,
        /// Whether the filter input box is currently capturing keystrokes.
        filter_typing: bool,
    },
    TrackInfo,
    /// Inline text input shown inside the playlist picker for creating a new
    /// playlist and adding the current track to it.
    CreatePlaylistInput {
        name: String,
        cursor: usize,
    },
    /// Modal text input shown for renaming a playlist.
    RenamePlaylistInput {
        name: String,
        cursor: usize,
    },
    /// Yes/no confirmation for deleting a non-empty playlist. `confirm_yes`
    /// tracks which button is highlighted (true = Yes, false = No).
    ConfirmDeletePlaylist {
        confirm_yes: bool,
    },
    /// Yes/no confirmation for removing a track from favorites.
    ConfirmRemoveFavorite {
        confirm_yes: bool,
    },
}

/// What a [`SubMenu`] holds.
pub enum SubMenuView {
    PlaylistPicker {
        playlists: Seq<PlaylistData>,
        selected: usize,
        loading: bool,
        filter_input: Seq<char>,
        filter_typing: bool,
    },
    TrackInfo,
    CreatePlaylistInput { name: Seq<char>, cursor: usize },
    RenamePlaylistInput { name: Seq<char>, cursor: usize },
    ConfirmDeletePlaylist { confirm_yes: bool },
    ConfirmRemoveFavorite { confirm_yes: bool },
}

impl View for SubMenu {
    type V = SubMenuView;

    open spec fn view(&self) -> SubMenuView {
        match *self {
            SubMenu::PlaylistPicker { playlists, selected, loading, filter_input, filter_typing } => {
                SubMenuView::PlaylistPicker {
                    playlists: playlists@,
                    selected,
                    loading,
                    filter_input: filter_input@,
                    filter_typing,
                }
            },
            SubMenu::TrackInfo => SubMenuView::TrackInfo,
            SubMenu::CreatePlaylistInput { name, cursor } => SubMenuView::CreatePlaylistInput {
                name: name@,
                cursor,
            },
            SubMenu::RenamePlaylistInput { name, cursor } => SubMenuView::RenamePlaylistInput {
                name: name@,
                cursor,
            },
            SubMenu::ConfirmDeletePlaylist { confirm_yes } => SubMenuView::ConfirmDeletePlaylist {
                confirm_yes,
            },
            SubMenu::ConfirmRemoveFavorite { confirm_yes } => SubMenuView::ConfirmRemoveFavorite {
                confirm_yes,
            },
        }
    }
}

/// What an optional dialog holds.
pub open spec fn opt_sub(s: Option<SubMenu>) -> Option<SubMenuView> {
    match s {
        Some(s) => Some(s@),
        None => None,
    }
}

impl SubMenuView {
    /// The dialog takes letters as text.
    pub open spec fn typing(self) -> bool {
        match self {
            SubMenuView::CreatePlaylistInput { .. } | SubMenuView::RenamePlaylistInput { .. } => true,
            SubMenuView::PlaylistPicker { filter_typing, .. } => filter_typing,
            _ => false,
        }
    }

    /// The dialog with its filter's focus set.
    pub open spec fn focused(self, on: bool) -> SubMenuView {
        match self {
            SubMenuView::PlaylistPicker { playlists, selected, loading, filter_input, .. } => {
                SubMenuView::PlaylistPicker {
                    playlists,
                    selected,
                    loading,
                    filter_input,
                    filter_typing: on,
                }
            },
            other => other,
        }
    }

    /// The dialog once the playlists are there: a picker that waits for them
    /// gets them.
    pub open spec fn filled(self, list: Seq<PlaylistData>) -> SubMenuView {
        match self {
            SubMenuView::PlaylistPicker {
                playlists,
                selected,
                loading,
                filter_input,
                filter_typing,
            } => if loading {
                SubMenuView::PlaylistPicker {
                    playlists: list,
                    selected,
                    loading: false,
                    filter_input,
                    filter_typing,
                }
            } else {
                self
            },
            other => other,
        }
    }
}

impl SubMenu {
    /// Whether the dialog takes letters as text.
    pub fn is_typing(&self) -> (r: bool)
        ensures
            r == self@.typing(),
    {
        match self {
            SubMenu::CreatePlaylistInput { .. } | SubMenu::RenamePlaylistInput { .. } => true,
            SubMenu::PlaylistPicker { filter_typing, .. } => *filter_typing,
            _ => false,
        }
    }

    /// Sets the focus of the picker's filter.
    pub fn focus_filter(self, on: bool) -> (r: SubMenu)
        ensures
            r@ == self@.focused(on),
    {
        match self {
            SubMenu::PlaylistPicker { playlists, selected, loading, filter_input, .. } => {
                SubMenu::PlaylistPicker {
                    playlists,
                    selected,
                    loading,
                    filter_input,
                    filter_typing: on,
                }
            },
            other => other,
        }
    }

    /// Hands the playlists to a picker that waits for them.
    pub fn fill(self, list: &Vec<PlaylistData>) -> (r: SubMenu)
        ensures
            r@ == self@.filled(list@),
    {
        match self {
            SubMenu::PlaylistPicker { playlists, selected, loading, filter_input, filter_typing } => {
                if loading {
                    SubMenu::PlaylistPicker {
                        playlists: list.clone(),
                        selected,
                        loading: false,
                        filter_input,
                        filter_typing,
                    }
                } else {
                    SubMenu::PlaylistPicker {
                        playlists,
                        selected,
                        loading,
                        filter_input,
                        filter_typing,
                    }
                }
            },
            other => other,
        }
    }
}

/// A name being typed, after a key: where the cursor is, and what it does.
pub open spec fn edited(name: Seq<char>, cursor: usize, code: KeyCode) -> (Seq<char>, int) {
    let at: int = if cursor <= name.len() {
        cursor as int
    } else {
        name.len() as int
    };
    match code {
        KeyCode::Backspace => if at > 0 {
            (name.remove(at - 1), at - 1)
        } else {
            (name, cursor as int)
        },
        KeyCode::Left => (name, client::up(cursor) as int),
        KeyCode::Right => (
            name,
            if cursor < name.len() {
                cursor + 1
            } else {
                name.len() as int
            },
        ),
        KeyCode::Char(c) => (name.insert(at, c), at + 1),
        _ => (name, cursor as int),
    }
}

/// Applies a key to a name being typed.
pub fn edit_name(name: &str, cursor: usize, code: KeyCode) -> (r: (String, usize))
    ensures
        (r.0@, r.1 as int) == edited(name@, cursor, code),
{
    let len: usize = name.unicode_len();
    let at: usize = if cursor <= len {
        cursor
    } else {
        len
    };
    match code {
        KeyCode::Backspace => if at > 0 {
            (remove_char(name, at - 1), at - 1)
        } else {
            (crate::text::owned(name), cursor)
        },
        KeyCode::Left => (crate::text::owned(name), client::step_up(cursor)),
        KeyCode::Right => (
            crate::text::owned(name),
            if cursor < len {
                cursor + 1
            } else {
                len
            },
        ),
        KeyCode::Char(c) => {
            let longer: String = insert_char(name, at, c);
            let longer_len: usize = longer.as_str().unicode_len();
            assert(longer_len == len + 1);
            (longer, at + 1)
        },
        _ => (crate::text::owned(name), cursor),
    }
}

/// A letter typed into a name and taken back leaves the name and the cursor as
/// they were.
pub proof fn backspace_undoes_typing(name: Seq<char>, cursor: usize, c: char)
    requires
        cursor <= name.len() < usize::MAX,
    ensures
        ({
            let (longer, at) = edited(name, cursor, KeyCode::Char(c));
            edited(longer, at as usize, KeyCode::Backspace) == (name, cursor as int)
        }),
{
    let (longer, at) = edited(name, cursor, KeyCode::Char(c));
    assert(longer.remove(at - 1) =~= name);
}

/// A context menu.
#[derive(Debug)]
pub struct PopupMenu {
    pub title: Option<String>,
    pub items: Vec<PopupMenuItem>,
    pub selected: usize,
    pub target: PopupTarget,
    pub is_favorite: bool,
    pub sub_menu: Option<SubMenu>,
    /// The playlist that the menu was opened in, if any.
    pub playlist_context: Option<String>,
}

/// What a [`PopupMenu`] holds.
pub struct PopupView {
    pub title: Option<Seq<char>>,
    pub items: Seq<PopupMenuItem>,
    pub selected: usize,
    pub target: PopupTarget,
    pub is_favorite: bool,
    pub sub_menu: Option<SubMenuView>,
    pub playlist_context: Option<String>,
}

impl View for PopupMenu {
    type V = PopupView;

    open spec fn view(&self) -> PopupView {
        PopupView {
            title: crate::models::opt_text(self.title),
            items: self.items@,
            selected: self.selected,
            target: self.target,
            is_favorite: self.is_favorite,
            sub_menu: opt_sub(self.sub_menu),
            playlist_context: self.playlist_context,
        }
    }
}

/// What an optional menu holds.
pub open spec fn opt_popup(p: Option<PopupMenu>) -> Option<PopupView> {
    match p {
        Some(p) => Some(p@),
        None => None,
    }
}

/// The entry that adds to the favorites, or takes away from them.
pub open spec fn favorite_label(is_favorite: bool) -> MenuLabel {
    if is_favorite {
        MenuLabel::RemoveFromFavorites
    } else {
        MenuLabel::AddToFavorites
    }
}

fn fav_label(is_favorite: bool) -> (r: MenuLabel)
    ensures
        r == favorite_label(is_favorite),
{
    if is_favorite {
        MenuLabel::RemoveFromFavorites
    } else {
        MenuLabel::AddToFavorites
    }
}

/// Lines of a track's full menu; inside a playlist, "Add to playlist" becomes
/// "Remove from this playlist".
pub open spec fn full_items(is_favorite: bool, in_playlist: bool) -> Seq<PopupMenuItem> {
    seq![
        heading(MenuLabel::Manage),
        entry(favorite_label(is_favorite), PopupAction::ToggleFavorite),
        if in_playlist {
            entry(MenuLabel::RemoveFromPlaylist, PopupAction::RemoveFromPlaylist)
        } else {
            entry(MenuLabel::AddToPlaylist, PopupAction::AddToPlaylist)
        },
        entry(MenuLabel::DownloadForOffline, PopupAction::DownloadOffline),
        entry(MenuLabel::DontRecommend, PopupAction::DislikeTrack),
        heading(MenuLabel::Playback),
        entry(MenuLabel::PlayNext, PopupAction::PlayNext),
        entry(MenuLabel::AddToQueue, PopupAction::AddToQueue),
        entry(MenuLabel::MixInspired, PopupAction::MixFromTrack),
        heading(MenuLabel::Media),
        entry(MenuLabel::TrackAlbum, PopupAction::ViewAlbum),
        entry(MenuLabel::TrackArtist, PopupAction::ViewArtist),
        entry(MenuLabel::Share, PopupAction::Share),
        entry(MenuLabel::TrackInfo, PopupAction::TrackInfo),
    ]
}

/// Lines of the playing track's menu.
pub open spec fn manage_items(is_favorite: bool) -> Seq<PopupMenuItem> {
    seq![
        heading(MenuLabel::Manage),
        entry(favorite_label(is_favorite), PopupAction::ToggleFavorite),
        entry(MenuLabel::AddToPlaylist, PopupAction::AddToPlaylist),
        entry(MenuLabel::DownloadForOffline, PopupAction::DownloadOffline),
        entry(MenuLabel::DontRecommend, PopupAction::DislikeTrack),
        entry(MenuLabel::TrackInfo, PopupAction::TrackInfo),
    ]
}

/// `a` and `b` with a dash between them.
pub open spec fn dashed(a: Seq<char>, b: Seq<char>) -> Seq<char> {
    a + " — "@ + b
}

/// A name with a blank on either side.
pub open spec fn padded(name: Seq<char>) -> Seq<char> {
    " "@ + name + " "@
}

/// Two texts with a dash between them.
pub fn with_dash(a: &str, b: &str) -> (r: String)
    ensures
        r@ == dashed(a@, b@),
{
    let mut r: String = joined(a, " — ");
    push_text(&mut r, b);
    r
}

/// A text with a blank on either side.
pub fn with_blanks(name: &str) -> (r: String)
    ensures
        r@ == padded(name@),
{
    let mut r: String = joined(" ", name);
    push_text(&mut r, " ");
    r
}

/// A menu whose first entry is selected.
pub open spec fn fresh(
    title: Option<Seq<char>>,
    items: Seq<PopupMenuItem>,
    target: PopupTarget,
    is_favorite: bool,
) -> PopupView {
    PopupView {
        title,
        items,
        selected: 1,
        target,
        is_favorite,
        sub_menu: None,
        playlist_context: None,
    }
}

/// A track's full menu.
pub open spec fn full_menu(track: TrackData, is_favorite: bool) -> PopupView {
    fresh(
        None,
        full_items(is_favorite, false),
        PopupTarget::Track(Box::new(track)),
        is_favorite,
    )
}

/// A track's full menu inside a playlist.
pub open spec fn playlist_track_menu(
    track: TrackData,
    is_favorite: bool,
    playlist_id: String,
) -> PopupView {
    PopupView {
        playlist_context: Some(playlist_id),
        ..fresh(
            None,
            full_items(is_favorite, true),
            PopupTarget::Track(Box::new(track)),
            is_favorite,
        )
    }
}

/// The playing track's menu.
pub open spec fn manage_menu(track: TrackData, is_favorite: bool) -> PopupView {
    fresh(
        Some(dashed(track.title@, track.artist@)),
        manage_items(is_favorite),
        PopupTarget::Track(Box::new(track)),
        is_favorite,
    )
}

/// The confirmation of taking a track out of the favorites.
pub open spec fn remove_favorite_dialog(track: TrackData) -> PopupView {
    PopupView {
        title: None,
        items: Seq::empty(),
        selected: 0,
        target: PopupTarget::Track(Box::new(track)),
        is_favorite: true,
        sub_menu: Some(SubMenuView::ConfirmRemoveFavorite { confirm_yes: false }),
        playlist_context: None,
    }
}

/// An artist's menu.
pub open spec fn artist_menu(artist_id: String, name: String, is_favorite: bool) -> PopupView {
    fresh(
        Some(padded(name@)),
        seq![
            heading(MenuLabel::Manage),
            entry(favorite_label(is_favorite), PopupAction::ToggleFavoriteArtist),
            entry(MenuLabel::TrackArtist, PopupAction::ViewArtist),
        ],
        PopupTarget::Artist { artist_id, name },
        is_favorite,
    )
}

/// An album's menu.
pub open spec fn album_menu(
    album_id: String,
    title: String,
    artist: String,
    is_favorite: bool,
) -> PopupView {
    fresh(
        Some(padded(dashed(title@, artist@))),
        seq![
            heading(MenuLabel::Manage),
            entry(favorite_label(is_favorite), PopupAction::ToggleFavoriteAlbum),
            entry(MenuLabel::AlbumPage, PopupAction::ViewAlbum),
        ],
        PopupTarget::Album { album_id, title, artist },
        is_favorite,
    )
}

/// A playlist's menu.
pub open spec fn playlist_menu(playlist_id: String, title: String, nb_songs: u64) -> PopupView {
    fresh(
        Some(padded(title@)),
        seq![
            heading(MenuLabel::Manage),
            entry(MenuLabel::RenamePlaylist, PopupAction::RenamePlaylist),
            entry(MenuLabel::DeletePlaylist, PopupAction::DeletePlaylist),
            entry(MenuLabel::DownloadForOffline, PopupAction::DownloadContainerOffline),
        ],
        PopupTarget::Playlist { playlist_id, title, nb_songs },
        false,
    )
}

/// Title of the menu of something downloaded.
pub open spec fn target_title(target: PopupTarget) -> Seq<char> {
    match target {
        PopupTarget::Track(track) => padded(dashed(track.title@, track.artist@)),
        PopupTarget::Album { title, artist, .. } => padded(dashed(title@, artist@)),
        PopupTarget::Playlist { title, .. } => padded(title@),
        PopupTarget::Artist { name, .. } => padded(name@),
    }
}

/// The menu of something downloaded, which can only be dropped.
pub open spec fn offline_menu(target: PopupTarget) -> PopupView {
    fresh(
        Some(target_title(target)),
        seq![
            heading(MenuLabel::Manage),
            entry(MenuLabel::RemoveFromOffline, PopupAction::RemoveOffline),
        ],
        target,
        false,
    )
}

/// Going down from `at`, wrapping around: the first of the next `left` lines
/// that can be chosen.
pub open spec fn seek_down(items: Seq<PopupMenuItem>, at: int, left: nat) -> Option<int>
    decreases left,
{
    if left == 0 {
        None
    } else {
        let place = if at >= items.len() {
            0
        } else {
            at
        };
        if !items[place].is_header {
            Some(place)
        } else {
            seek_down(items, place + 1, (left - 1) as nat)
        }
    }
}

/// Going up from `at`, wrapping around: the first of the next `left` lines that
/// can be chosen.
pub open spec fn seek_up(items: Seq<PopupMenuItem>, at: int, left: nat) -> Option<int>
    decreases left,
{
    if left == 0 {
        None
    } else {
        let place = if at < 0 {
            items.len() - 1
        } else {
            at
        };
        if !items[place].is_header {
            Some(place)
        } else {
            seek_up(items, place - 1, (left - 1) as nat)
        }
    }
}

impl PopupView {
    /// The menu with the next line that can be chosen selected.
    pub open spec fn next(self) -> PopupView {
        match seek_down(self.items, self.selected + 1, self.items.len()) {
            Some(i) => PopupView { selected: i as usize, ..self },
            None => self,
        }
    }

    /// The menu with the previous line that can be chosen selected.
    pub open spec fn prev(self) -> PopupView {
        if self.selected > self.items.len() {
            self
        } else {
            match seek_up(self.items, self.selected - 1, self.items.len()) {
                Some(i) => PopupView { selected: i as usize, ..self },
                None => self,
            }
        }
    }

    /// The menu with another dialog inside.
    pub open spec fn with_sub(self, sub: Option<SubMenuView>) -> PopupView {
        PopupView { sub_menu: sub, ..self }
    }

    /// What stands under the cursor.
    pub open spec fn chosen(self) -> Option<PopupAction> {
        if self.selected < self.items.len() {
            Some(self.items[self.selected as int].action)
        } else {
            None
        }
    }

    /// The selected line can be chosen. Only the favorites dialog has no lines.
    pub open spec fn wf(self) -> bool {
        self.sub_menu is Some && self.sub_menu->0 is ConfirmRemoveFavorite || (self.selected
            < self.items.len() && !self.items[self.selected as int].is_header)
    }
}

/// What a search downward finds can be chosen.
proof fn found_below(items: Seq<PopupMenuItem>, at: int, left: nat)
    requires
        0 <= at,
    ensures
        seek_down(items, at, left) matches Some(i) ==> 0 <= i < items.len() || items.len() == 0,
        seek_down(items, at, left) matches Some(i) ==> !items[i].is_header,
    decreases left,
{
    if left > 0 {
        let place = if at >= items.len() {
            0
        } else {
            at
        };
        found_below(items, place + 1, (left - 1) as nat);
    }
}

/// What a search upward finds can be chosen.
proof fn found_above(items: Seq<PopupMenuItem>, at: int, left: nat)
    requires
        at < items.len(),
    ensures
        seek_up(items, at, left) matches Some(i) ==> 0 <= i < items.len() || items.len() == 0,
        seek_up(items, at, left) matches Some(i) ==> !items[i].is_header,
    decreases left,
{
    if left > 0 {
        let place = if at < 0 {
            items.len() - 1
        } else {
            at
        };
        if items.len() > 0 {
            found_above(items, place - 1, (left - 1) as nat);
        } else {
            found_above(items, place - 1, (left - 1) as nat);
        }
    }
}

/// Every menu opens on a line that can be chosen, and moving the cursor keeps it
/// on one: a section title is never selected.
pub proof fn titles_are_never_selected(menu: PopupView)
    requires
        menu.wf(),
        menu.items.len() <= usize::MAX,
    ensures
        menu.next().wf(),
        menu.prev().wf(),
{
    found_below(menu.items, menu.selected + 1, menu.items.len());
    if menu.selected <= menu.items.len() {
        found_above(menu.items, menu.selected - 1, menu.items.len());
    }
}

/// Every menu opens on a line that can be chosen.
pub proof fn menus_open_on_an_entry(
    track: TrackData,
    fav: bool,
    id: String,
    title: String,
    artist: String,
    count: u64,
    target: PopupTarget,
)
    ensures
        full_menu(track, fav).wf(),
        playlist_track_menu(track, fav, id).wf(),
        manage_menu(track, fav).wf(),
        remove_favorite_dialog(track).wf(),
        artist_menu(id, title, fav).wf(),
        album_menu(id, title, artist, fav).wf(),
        playlist_menu(id, title, count).wf(),
        offline_menu(target).wf(),
{
}

impl PopupMenu {
    /// The track, if the menu is about one.
    pub fn track(&self) -> (r: Option<&TrackData>)
        ensures
            match r {
                Some(t) => self.target == PopupTarget::Track(Box::new(*t)),
                None => !(self.target is Track),
            },
    {
        match &self.target {
            PopupTarget::Track(t) => Some(t),
            _ => None,
        }
    }

    fn fresh(
        title: Option<String>,
        items: Vec<PopupMenuItem>,
        target: PopupTarget,
        is_favorite: bool,
    ) -> (r: PopupMenu)
        ensures
            r@ == fresh(crate::models::opt_text(title), items@, target, is_favorite),
    {
        PopupMenu {
            title,
            items,
            selected: 1,
            target,
            is_favorite,
            sub_menu: None,
            playlist_context: None,
        }
    }

    fn track_items(is_favorite: bool, in_playlist: bool) -> (r: Vec<PopupMenuItem>)
        ensures
            r@ == full_items(is_favorite, in_playlist),
    {
        let mut items: Vec<PopupMenuItem> = Vec::new();
        items.push(header(MenuLabel::Manage));
        items.push(item(fav_label(is_favorite), PopupAction::ToggleFavorite));
        if in_playlist {
            items.push(item(MenuLabel::RemoveFromPlaylist, PopupAction::RemoveFromPlaylist));
        } else {
            items.push(item(MenuLabel::AddToPlaylist, PopupAction::AddToPlaylist));
        }
        items.push(item(MenuLabel::DownloadForOffline, PopupAction::DownloadOffline));
        items.push(item(MenuLabel::DontRecommend, PopupAction::DislikeTrack));
        items.push(header(MenuLabel::Playback));
        items.push(item(MenuLabel::PlayNext, PopupAction::PlayNext));
        items.push(item(MenuLabel::AddToQueue, PopupAction::AddToQueue));
        items.push(item(MenuLabel::MixInspired, PopupAction::MixFromTrack));
        items.push(header(MenuLabel::Media));
        items.push(item(MenuLabel::TrackAlbum, PopupAction::ViewAlbum));
        items.push(item(MenuLabel::TrackArtist, PopupAction::ViewArtist));
        items.push(item(MenuLabel::Share, PopupAction::Share));
        items.push(item(MenuLabel::TrackInfo, PopupAction::TrackInfo));
        proof {
            assert(items@ =~= full_items(is_favorite, in_playlist));
        }
        items
    }

    /// The full menu of a track in a list.
    pub fn full(track: TrackData, is_favorite: bool) -> (r: PopupMenu)
        ensures
            r@ == full_menu(track, is_favorite),
    {
        PopupMenu::fresh(
            None,
            PopupMenu::track_items(is_favorite, false),
            PopupTarget::Track(Box::new(track)),
            is_favorite,
        )
    }

    /// The full menu of a track inside a playlist.
    pub fn full_in_playlist(track: TrackData, is_favorite: bool, playlist_id: String) -> (r:
        PopupMenu)
        ensures
            r@ == playlist_track_menu(track, is_favorite, playlist_id),
    {
        let mut menu = PopupMenu::fresh(
            None,
            PopupMenu::track_items(is_favorite, true),
            PopupTarget::Track(Box::new(track)),
            is_favorite,
        );
        menu.playlist_context = Some(playlist_id);
        menu
    }

    /// The menu of the playing track.
    pub fn manage_only(track: TrackData, is_favorite: bool) -> (r: PopupMenu)
        ensures
            r@ == manage_menu(track, is_favorite),
    {
        let title: String = with_dash(&track.title, &track.artist);
        let mut items: Vec<PopupMenuItem> = Vec::new();
        items.push(header(MenuLabel::Manage));
        items.push(item(fav_label(is_favorite), PopupAction::ToggleFavorite));
        items.push(item(MenuLabel::AddToPlaylist, PopupAction::AddToPlaylist));
        items.push(item(MenuLabel::DownloadForOffline, PopupAction::DownloadOffline));
        items.push(item(MenuLabel::DontRecommend, PopupAction::DislikeTrack));
        items.push(item(MenuLabel::TrackInfo, PopupAction::TrackInfo));
        proof {
            assert(items@ =~= manage_items(is_favorite));
        }
        PopupMenu::fresh(Some(title), items, PopupTarget::Track(Box::new(track)), is_favorite)
    }

    /// The confirmation of taking a track out of the favorites.
    pub fn confirm_remove_favorite(track: TrackData) -> (r: PopupMenu)
        ensures
            r@ == remove_favorite_dialog(track),
    {
        PopupMenu {
            title: None,
            items: Vec::new(),
            selected: 0,
            target: PopupTarget::Track(Box::new(track)),
            is_favorite: true,
            sub_menu: Some(SubMenu::ConfirmRemoveFavorite { confirm_yes: false }),
            playlist_context: None,
        }
    }

    /// The menu of an artist.
    pub fn for_artist(artist_id: String, name: String, is_favorite: bool) -> (r: PopupMenu)
        ensures
            r@ == artist_menu(artist_id, name, is_favorite),
    {
        let title: String = with_blanks(&name);
        let mut items: Vec<PopupMenuItem> = Vec::new();
        items.push(header(MenuLabel::Manage));
        items.push(item(fav_label(is_favorite), PopupAction::ToggleFavoriteArtist));
        items.push(item(MenuLabel::TrackArtist, PopupAction::ViewArtist));
        proof {
            assert(items@ =~= artist_menu(artist_id, name, is_favorite).items);
        }
        PopupMenu::fresh(
            Some(title),
            items,
            PopupTarget::Artist { artist_id, name },
            is_favorite,
        )
    }

    /// The menu of an album.
    pub fn for_album(album_id: String, title: String, artist: String, is_favorite: bool) -> (r:
        PopupMenu)
        ensures
            r@ == album_menu(album_id, title, artist, is_favorite),
    {
        let shown: String = with_dash(&title, &artist);
        let shown: String = with_blanks(&shown);
        let mut items: Vec<PopupMenuItem> = Vec::new();
        items.push(header(MenuLabel::Manage));
        items.push(item(fav_label(is_favorite), PopupAction::ToggleFavoriteAlbum));
        items.push(item(MenuLabel::AlbumPage, PopupAction::ViewAlbum));
        proof {
            assert(items@ =~= album_menu(album_id, title, artist, is_favorite).items);
        }
        PopupMenu::fresh(
            Some(shown),
            items,
            PopupTarget::Album { album_id, title, artist },
            is_favorite,
        )
    }

    /// The menu of a playlist.
    pub fn for_playlist(playlist_id: String, title: String, nb_songs: u64) -> (r: PopupMenu)
        ensures
            r@ == playlist_menu(playlist_id, title, nb_songs),
    {
        let shown: String = with_blanks(&title);
        let mut items: Vec<PopupMenuItem> = Vec::new();
        items.push(header(MenuLabel::Manage));
        items.push(item(MenuLabel::RenamePlaylist, PopupAction::RenamePlaylist));
        items.push(item(MenuLabel::DeletePlaylist, PopupAction::DeletePlaylist));
        items.push(item(MenuLabel::DownloadForOffline, PopupAction::DownloadContainerOffline));
        proof {
            assert(items@ =~= playlist_menu(playlist_id, title, nb_songs).items);
        }
        PopupMenu::fresh(
            Some(shown),
            items,
            PopupTarget::Playlist { playlist_id, title, nb_songs },
            false,
        )
    }

    /// The menu of something downloaded: all that can be done is dropping it.
    pub fn remove_offline_only(target: PopupTarget) -> (r: PopupMenu)
        ensures
            r@ == offline_menu(target),
    {
        let title: String = match &target {
            PopupTarget::Track(track) => {
                let shown: String = with_dash(&track.title, &track.artist);
                with_blanks(&shown)
            },
            PopupTarget::Album { title, artist, .. } => {
                let shown: String = with_dash(title, artist);
                with_blanks(&shown)
            },
            PopupTarget::Playlist { title, .. } => with_blanks(title),
            PopupTarget::Artist { name, .. } => with_blanks(name),
        };
        let mut items: Vec<PopupMenuItem> = Vec::new();
        items.push(header(MenuLabel::Manage));
        items.push(item(MenuLabel::RemoveFromOffline, PopupAction::RemoveOffline));
        proof {
            assert(items@ =~= offline_menu(target).items);
        }
        PopupMenu::fresh(Some(title), items, target, false)
    }

    /// Moves the selection to the next line that can be chosen.
    pub fn select_next(&mut self)
        ensures
            final(self)@ == old(self)@.next(),
    {
        let len: usize = self.items.len();
        let mut next: usize = if self.selected >= len {
            len
        } else {
            self.selected + 1
        };
        let mut left: usize = len;
        proof {
            if self.selected >= len && len > 0 {
                assert(seek_down(self.items@, self.selected + 1, len as nat) == seek_down(
                    self.items@,
                    len as int,
                    len as nat,
                ));
            }
        }
        while left > 0
            invariant
                len == self.items@.len(),
                left <= len,
                next <= len,
                *self == *old(self),
                seek_down(self.items@, next as int, left as nat) == seek_down(
                    self.items@,
                    old(self).selected + 1,
                    len as nat,
                ),
            decreases left,
        {
            if next >= len {
                next = 0;
            }
            if !self.items[next].is_header {
                self.selected = next;
                return;
            }
            next = next + 1;
            left = left - 1;
        }
    }

    /// Moves the selection to the previous line that can be chosen.
    pub fn select_prev(&mut self)
        ensures
            final(self)@ == old(self)@.prev(),
    {
        let len: usize = self.items.len();
        if self.selected > len || len == 0 {
            return;
        }
        let mut prev: usize = if self.selected == 0 {
            len - 1
        } else {
            self.selected - 1
        };
        let mut left: usize = len;
        while left > 0
            invariant
                0 < len == self.items@.len(),
                left <= len,
                prev < len,
                *self == *old(self),
                old(self).selected <= len,
                seek_up(self.items@, prev as int, left as nat) == seek_up(
                    self.items@,
                    old(self).selected - 1,
                    len as nat,
                ),
            decreases left,
        {
            if !self.items[prev].is_header {
                self.selected = prev;
                return;
            }
            proof {
                if prev == 0 && left > 1 {
                    assert(seek_up(self.items@, -1, (left - 1) as nat) == seek_up(
                        self.items@,
                        len - 1,
                        (left - 1) as nat,
                    ));
                }
            }
            prev = if prev == 0 {
                len - 1
            } else {
                prev - 1
            };
            left = left - 1;
        }
    }
}

/// What an entry does is what its label says.
pub open spec fn does_what_it_says(item: PopupMenuItem) -> bool {
    match item.label {
        MenuLabel::Manage | MenuLabel::Playback | MenuLabel::Media => item.is_header,
        MenuLabel::AddToFavorites | MenuLabel::RemoveFromFavorites => item.action
            == PopupAction::ToggleFavorite || item.action == PopupAction::ToggleFavoriteArtist
            || item.action == PopupAction::ToggleFavoriteAlbum,
        MenuLabel::AddToPlaylist => item.action == PopupAction::AddToPlaylist,
        MenuLabel::RemoveFromPlaylist => item.action == PopupAction::RemoveFromPlaylist,
        MenuLabel::DownloadForOffline => item.action == PopupAction::DownloadOffline || item.action
            == PopupAction::DownloadContainerOffline,
        MenuLabel::RemoveFromOffline => item.action == PopupAction::RemoveOffline,
        MenuLabel::DontRecommend => item.action == PopupAction::DislikeTrack,
        MenuLabel::PlayNext => item.action == PopupAction::PlayNext,
        MenuLabel::AddToQueue => item.action == PopupAction::AddToQueue,
        MenuLabel::MixInspired => item.action == PopupAction::MixFromTrack,
        MenuLabel::TrackAlbum | MenuLabel::AlbumPage => item.action == PopupAction::ViewAlbum,
        MenuLabel::TrackArtist => item.action == PopupAction::ViewArtist,
        MenuLabel::Share => item.action == PopupAction::Share,
        MenuLabel::TrackInfo => item.action == PopupAction::TrackInfo,
        MenuLabel::RenamePlaylist => item.action == PopupAction::RenamePlaylist,
        MenuLabel::DeletePlaylist => item.action == PopupAction::DeletePlaylist,
    }
}

/// Every line of a menu does what its label says.
pub open spec fn honest(menu: PopupView) -> bool {
    forall|i: int| 0 <= i < menu.items.len() ==> does_what_it_says(#[trigger] menu.items[i])
}

/// The entries of every menu do what their labels say, and the menu is about the
/// thing that it was opened for.
pub proof fn menus_are_honest(
    track: TrackData,
    is_favorite: bool,
    id: String,
    title: String,
    artist: String,
    nb_songs: u64,
    target: PopupTarget,
)
    ensures
        honest(full_menu(track, is_favorite)),
        honest(playlist_track_menu(track, is_favorite, id)),
        honest(manage_menu(track, is_favorite)),
        honest(artist_menu(id, title, is_favorite)),
        honest(album_menu(id, title, artist, is_favorite)),
        honest(playlist_menu(id, title, nb_songs)),
        honest(offline_menu(target)),
        full_menu(track, is_favorite).target == PopupTarget::Track(Box::new(track)),
        playlist_track_menu(track, is_favorite, id).target == PopupTarget::Track(Box::new(track)),
        playlist_track_menu(track, is_favorite, id).playlist_context == Some(id),
        manage_menu(track, is_favorite).target == PopupTarget::Track(Box::new(track)),
        artist_menu(id, title, is_favorite).target == (PopupTarget::Artist {
            artist_id: id,
            name: title,
        }),
        album_menu(id, title, artist, is_favorite).target == (PopupTarget::Album {
            album_id: id,
            title,
            artist,
        }),
        playlist_menu(id, title, nb_songs).target == (PopupTarget::Playlist {
            playlist_id: id,
            title,
            nb_songs,
        }),
        offline_menu(target).target == target,
{
}

/// A favorite's menu offers to remove it, and any other's to add it.
pub proof fn menus_offer_to_change_the_favorite(
    track: TrackData,
    id: String,
    title: String,
    artist: String,
    is_favorite: bool,
)
    ensures
        ({
            let label = if is_favorite {
                MenuLabel::RemoveFromFavorites
            } else {
                MenuLabel::AddToFavorites
            };
            &&& full_menu(track, is_favorite).items[1].label == label
            &&& manage_menu(track, is_favorite).items[1].label == label
            &&& artist_menu(id, title, is_favorite).items[1].label == label
            &&& album_menu(id, title, artist, is_favorite).items[1].label == label
            &&& full_menu(track, is_favorite).is_favorite == is_favorite
            &&& manage_menu(track, is_favorite).is_favorite == is_favorite
            &&& artist_menu(id, title, is_favorite).is_favorite == is_favorite
            &&& album_menu(id, title, artist, is_favorite).is_favorite == is_favorite
        }),
{
}

/// A letter goes in at the cursor, which moves behind it; backspace takes out the
/// one before the cursor; the arrows move it inside the name.
pub proof fn names_are_edited_at_the_cursor(name: Seq<char>, cursor: usize, c: char)
    requires
        cursor <= name.len(),
    ensures
        edited(name, cursor, KeyCode::Char(c)) == (
            name.take(cursor as int).push(c) + name.skip(cursor as int),
            cursor + 1,
        ),
        cursor > 0 ==> edited(name, cursor, KeyCode::Backspace) == (
            name.take(cursor - 1) + name.skip(cursor as int),
            cursor - 1,
        ),
        cursor == 0 ==> edited(name, cursor, KeyCode::Backspace).0 == name,
        cursor > 0 ==> edited(name, cursor, KeyCode::Left) == (name, cursor - 1),
        cursor < name.len() ==> edited(name, cursor, KeyCode::Right) == (name, cursor + 1),
{
    assert(name.insert(cursor as int, c) =~= name.take(cursor as int).push(c) + name.skip(
        cursor as int,
    ));
    if cursor > 0 {
        assert(name.remove(cursor - 1) =~= name.take(cursor - 1) + name.skip(cursor as int));
    }
}

} // verus!
