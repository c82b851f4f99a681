//! Keys on the context menus and the dialogs inside them.

use vstd::prelude::*;

use crate::client;
use crate::client::filters;
use crate::client::filters::filtered_places;
use crate::client::likes;
use crate::client::likes::{
    toggle_album_command, toggle_artist_command, toggle_favorite_command, Step,
};
use crate::client::popup;
use crate::client::popup::{
    edit_name, PopupAction, PopupMenu, PopupTarget, PopupView, SubMenu, SubMenuView,
};
use crate::client::state::{ClientView, Toast, ToastView, ViewState};
use crate::client::view;
use crate::client::{
    step_up, ActionView, ClientEffect, CommandView, EffectView, KeyAction, KeyCode, KeyContext,
    Overlay,
};
use crate::models::{PlaylistData, TrackData};
use crate::notice;
use crate::notice::{Notice, NoticeKind};
use crate::protocol::Command;
use crate::text;
use crate::text::{drop_last_char, joined, push_char, trim};

verus! {

/// The track that a menu is about, by its id.
pub open spec fn track_of(target: PopupTarget) -> Option<String> {
    match target {
        PopupTarget::Track(t) => Some(t.track_id),
        _ => None,
    }
}

/// The playlist that a menu is about, by its id.
pub open spec fn playlist_of(target: PopupTarget) -> Option<String> {
    match target {
        PopupTarget::Playlist { playlist_id, .. } => Some(playlist_id),
        _ => None,
    }
}

/// The album that a menu leads to.
pub open spec fn album_of(target: PopupTarget) -> Option<String> {
    match target {
        PopupTarget::Track(t) => t.album_id,
        PopupTarget::Album { album_id, .. } => Some(album_id),
        _ => None,
    }
}

/// The artist that a menu leads to.
pub open spec fn artist_of(target: PopupTarget) -> Option<String> {
    match target {
        PopupTarget::Track(t) => t.artist_id,
        PopupTarget::Artist { artist_id, .. } => Some(artist_id),
        _ => None,
    }
}

/// The address under which something is shared.
pub open spec fn share_link(target: PopupTarget) -> Seq<char> {
    match target {
        PopupTarget::Track(t) => "https://www.deezer.com/track/"@ + t.track_id@,
        PopupTarget::Artist { artist_id, .. } => "https://www.deezer.com/artist/"@ + artist_id@,
        PopupTarget::Album { album_id, .. } => "https://www.deezer.com/album/"@ + album_id@,
        PopupTarget::Playlist { playlist_id, .. } => "https://www.deezer.com/playlist/"@
            + playlist_id@,
    }
}

impl PopupTarget {
    fn track_id(&self) -> (r: Option<String>)
        ensures
            r == track_of(*self),
    {
        match self {
            PopupTarget::Track(t) => Some(t.track_id.clone()),
            _ => None,
        }
    }

    fn playlist_id(&self) -> (r: Option<String>)
        ensures
            r == playlist_of(*self),
    {
        match self {
            PopupTarget::Playlist { playlist_id, .. } => Some(playlist_id.clone()),
            _ => None,
        }
    }

    fn album_id(&self) -> (r: Option<String>)
        ensures
            r == album_of(*self),
    {
        match self {
            PopupTarget::Track(t) => t.album_id.clone(),
            PopupTarget::Album { album_id, .. } => Some(album_id.clone()),
            _ => None,
        }
    }

    fn artist_id(&self) -> (r: Option<String>)
        ensures
            r == artist_of(*self),
    {
        match self {
            PopupTarget::Track(t) => t.artist_id.clone(),
            PopupTarget::Artist { artist_id, .. } => Some(artist_id.clone()),
            _ => None,
        }
    }

    /// The address under which this is shared.
    pub fn link(&self) -> (r: String)
        ensures
            r@ == share_link(*self),
    {
        match self {
            PopupTarget::Track(t) => joined("https://www.deezer.com/track/", &t.track_id),
            PopupTarget::Artist { artist_id, .. } => joined(
                "https://www.deezer.com/artist/",
                artist_id,
            ),
            PopupTarget::Album { album_id, .. } => joined("https://www.deezer.com/album/", album_id),
            PopupTarget::Playlist { playlist_id, .. } => joined(
                "https://www.deezer.com/playlist/",
                playlist_id,
            ),
        }
    }
}

/// The command that an entry about a track sends.
pub open spec fn track_command(action: PopupAction, track: TrackData, liked: bool) -> Option<
    Command,
> {
    match action {
        PopupAction::ToggleFavorite => Some(likes::favorite_command(liked, track.track_id)),
        PopupAction::DownloadOffline => Some(Command::DownloadOffline { track }),
        PopupAction::RemoveOffline => Some(
            Command::RemoveOfflineTrack { track_id: track.track_id },
        ),
        PopupAction::DislikeTrack => Some(Command::DislikeTrack { track_id: track.track_id }),
        PopupAction::PlayNext => Some(Command::PlayNext { track }),
        PopupAction::AddToQueue => Some(Command::AddToQueue { track }),
        PopupAction::MixFromTrack => Some(Command::StartMix { track_id: track.track_id }),
        _ => None,
    }
}

fn command_of_track(action: PopupAction, track: TrackData, liked: bool) -> (r: Option<Command>)
    ensures
        r == track_command(action, track, liked),
{
    match action {
        PopupAction::ToggleFavorite => Some(toggle_favorite_command(liked, track.track_id)),
        PopupAction::DownloadOffline => Some(Command::DownloadOffline { track }),
        PopupAction::RemoveOffline => Some(
            Command::RemoveOfflineTrack { track_id: track.track_id },
        ),
        PopupAction::DislikeTrack => Some(Command::DislikeTrack { track_id: track.track_id }),
        PopupAction::PlayNext => Some(Command::PlayNext { track }),
        PopupAction::AddToQueue => Some(Command::AddToQueue { track }),
        PopupAction::MixFromTrack => Some(Command::StartMix { track_id: track.track_id }),
        _ => None,
    }
}

/// The command that an entry sends at once, if it sends one. Taking a track out
/// of a playlist takes the playlist that the menu was opened in, and only an
/// empty playlist is deleted without asking.
pub open spec fn target_command(
    action: PopupAction,
    target: PopupTarget,
    liked: bool,
    playlist: Option<String>,
) -> Option<Command> {
    match target {
        PopupTarget::Track(track) => if action == PopupAction::RemoveFromPlaylist {
            match playlist {
                Some(playlist_id) => Some(
                    Command::RemoveFromPlaylist { playlist_id, track_id: track.track_id },
                ),
                None => None,
            }
        } else {
            track_command(action, *track, liked)
        },
        PopupTarget::Artist { artist_id, .. } => match action {
            PopupAction::ToggleFavoriteArtist => Some(likes::artist_command(liked, artist_id)),
            _ => None,
        },
        PopupTarget::Album { album_id, .. } => match action {
            PopupAction::ToggleFavoriteAlbum => Some(likes::album_command(liked, album_id)),
            PopupAction::DownloadContainerOffline => Some(
                Command::DownloadAlbumOffline { album_id },
            ),
            PopupAction::RemoveOffline => Some(Command::RemoveOfflineAlbum { album_id }),
            _ => None,
        },
        PopupTarget::Playlist { playlist_id, nb_songs, .. } => match action {
            PopupAction::DownloadContainerOffline => Some(
                Command::DownloadPlaylistOffline { playlist_id },
            ),
            PopupAction::RemoveOffline => Some(Command::RemoveOfflinePlaylist { playlist_id }),
            PopupAction::DeletePlaylist => if nb_songs == 0 {
                Some(Command::DeletePlaylist { playlist_id })
            } else {
                None
            },
            _ => None,
        },
    }
}

fn command_of_target(
    action: PopupAction,
    target: PopupTarget,
    liked: bool,
    playlist: Option<String>,
) -> (r: Option<Command>)
    ensures
        r == target_command(action, target, liked, playlist),
{
    match target {
        PopupTarget::Track(track) => if action == PopupAction::RemoveFromPlaylist {
            match playlist {
                Some(playlist_id) => Some(
                    Command::RemoveFromPlaylist { playlist_id, track_id: track.track_id },
                ),
                None => None,
            }
        } else {
            command_of_track(action, *track, liked)
        },
        PopupTarget::Artist { artist_id, .. } => match action {
            PopupAction::ToggleFavoriteArtist => Some(toggle_artist_command(liked, artist_id)),
            _ => None,
        },
        PopupTarget::Album { album_id, .. } => match action {
            PopupAction::ToggleFavoriteAlbum => Some(toggle_album_command(liked, album_id)),
            PopupAction::DownloadContainerOffline => Some(
                Command::DownloadAlbumOffline { album_id },
            ),
            PopupAction::RemoveOffline => Some(Command::RemoveOfflineAlbum { album_id }),
            _ => None,
        },
        PopupTarget::Playlist { playlist_id, nb_songs, .. } => match action {
            PopupAction::DownloadContainerOffline => Some(
                Command::DownloadPlaylistOffline { playlist_id },
            ),
            PopupAction::RemoveOffline => Some(Command::RemoveOfflinePlaylist { playlist_id }),
            PopupAction::DeletePlaylist => if nb_songs == 0 {
                Some(Command::DeletePlaylist { playlist_id })
            } else {
                None
            },
            _ => None,
        },
    }
}

/// A playlist picker whose playlists are there.
pub open spec fn picker(
    playlists: Seq<PlaylistData>,
    selected: usize,
    filter_input: Seq<char>,
    filter_typing: bool,
) -> SubMenuView {
    SubMenuView::PlaylistPicker { playlists, selected, loading: false, filter_input, filter_typing }
}

fn new_picker(
    playlists: Vec<PlaylistData>,
    selected: usize,
    filter_input: String,
    filter_typing: bool,
) -> (r: SubMenu)
    ensures
        r@ == picker(playlists@, selected, filter_input@, filter_typing),
{
    SubMenu::PlaylistPicker { playlists, selected, loading: false, filter_input, filter_typing }
}

/// A key that moves between the two buttons of a confirmation.
pub open spec fn switches_button(code: KeyCode, vim_keys: bool) -> bool {
    code == KeyCode::Tab || code == KeyCode::Left || code == KeyCode::Right || (vim_keys && (code
        == KeyCode::Char('h') || code == KeyCode::Char('l')))
}

fn is_button_key(code: KeyCode, vim_keys: bool) -> (r: bool)
    ensures
        r == switches_button(code, vim_keys),
{
    code == KeyCode::Tab || code == KeyCode::Left || code == KeyCode::Right || (vim_keys && (code
        == KeyCode::Char('h') || code == KeyCode::Char('l')))
}

/// A key that says yes.
pub open spec fn says_yes(code: KeyCode) -> bool {
    code == KeyCode::Char('y') || code == KeyCode::Char('Y')
}

/// A key that says no.
pub open spec fn says_no(code: KeyCode) -> bool {
    code == KeyCode::Esc || code == KeyCode::Char('n') || code == KeyCode::Char('N')
}

impl ClientView {
    /// The context menu closed.
    pub open spec fn closes(self) -> ClientView {
        self.with_layers(self.layers.no_popup())
    }

    /// The context menu open, with this dialog inside.
    pub open spec fn holds(self, menu: PopupView, sub: Option<SubMenuView>) -> Step {
        self.with_layers(self.layers.with_popup(menu.with_sub(sub))).stays()
    }

    /// Choosing the picker's entry under the cursor: the first creates a
    /// playlist, the others are the playlists that the filter leaves.
    pub open spec fn picked(
        self,
        menu: PopupView,
        playlists: Seq<PlaylistData>,
        selected: usize,
        input: Seq<char>,
        typing: bool,
    ) -> Step {
        let places = filters::left_by(playlists, input);
        if selected == 0 {
            self.holds(
                menu,
                Some(SubMenuView::CreatePlaylistInput { name: Seq::empty(), cursor: 0 }),
            )
        } else {
            match (client::nth(places, selected - 1), track_of(menu.target)) {
                (Some(i), Some(track_id)) => self.closes().and_sends(
                    Command::AddToPlaylist {
                        playlist_id: playlists[i as int].playlist_id,
                        track_id,
                    },
                ),
                _ => self.holds(menu, Some(picker(playlists, selected, input, typing))),
            }
        }
    }

    /// A key typed into the picker's filter.
    pub open spec fn picker_typed(
        self,
        menu: PopupView,
        playlists: Seq<PlaylistData>,
        selected: usize,
        input: Seq<char>,
        code: KeyCode,
    ) -> Step {
        let inside = client::clamped(selected, filters::left_by(playlists, input).len() + 1);
        match code {
            KeyCode::Esc | KeyCode::Enter => self.holds(
                menu,
                Some(picker(playlists, selected, input, false)),
            ),
            KeyCode::Char(c) => self.holds(
                menu,
                Some(picker(playlists, inside, input.push(c), true)),
            ),
            KeyCode::Backspace => self.holds(
                menu,
                Some(picker(playlists, inside, text::without_last(input), true)),
            ),
            _ => self.holds(menu, Some(picker(playlists, selected, input, true))),
        }
    }

    /// A key on the playlist picker.
    #[verifier::opaque]
    pub open spec fn picker_key(
        self,
        menu: PopupView,
        playlists: Seq<PlaylistData>,
        selected: usize,
        input: Seq<char>,
        typing: bool,
        code: KeyCode,
    ) -> Step {
        let total: nat = filters::left_by(playlists, input).len() + 1;
        if typing && code != KeyCode::Up && code != KeyCode::Down {
            self.picker_typed(menu, playlists, selected, input, code)
        } else if code == KeyCode::Esc {
            self.holds(menu, None)
        } else if code == KeyCode::Char('/') {
            self.holds(menu, Some(picker(playlists, selected, input, true)))
        } else if view::goes_up(code, self.vim_keys) {
            self.holds(menu, Some(picker(playlists, client::up(selected), input, typing)))
        } else if view::goes_down(code, self.vim_keys) {
            self.holds(menu, Some(picker(playlists, client::down(selected, total), input, typing)))
        } else if code == KeyCode::Enter {
            self.picked(menu, playlists, selected, input, typing)
        } else {
            self.holds(menu, Some(picker(playlists, selected, input, typing)))
        }
    }

    /// A key on the input for a new playlist's name.
    #[verifier::opaque]
    pub open spec fn create_key(
        self,
        menu: PopupView,
        name: Seq<char>,
        cursor: usize,
        code: KeyCode,
    ) -> Step {
        let same = Some(SubMenuView::CreatePlaylistInput { name, cursor });
        if code == KeyCode::Esc {
            self.holds(menu, Some(picker(self.playlists, 0, Seq::empty(), false)))
        } else if code == KeyCode::Enter {
            match track_of(menu.target) {
                Some(track_id) => if text::trimmed(name).len() == 0 {
                    self.holds(menu, same)
                } else {
                    (
                        self.closes(),
                        ActionView::Send(
                            CommandView::CreatePlaylistAndAdd {
                                title: text::trimmed(name),
                                track_id,
                            },
                        ),
                    )
                },
                None => self.holds(menu, same),
            }
        } else {
            let (name, at) = popup::edited(name, cursor, code);
            self.holds(
                menu,
                Some(SubMenuView::CreatePlaylistInput { name, cursor: at as usize }),
            )
        }
    }

    /// A key on the input for a playlist's other name.
    #[verifier::opaque]
    pub open spec fn rename_key(
        self,
        menu: PopupView,
        name: Seq<char>,
        cursor: usize,
        code: KeyCode,
    ) -> Step {
        let same = Some(SubMenuView::RenamePlaylistInput { name, cursor });
        if code == KeyCode::Esc {
            self.holds(menu, None)
        } else if code == KeyCode::Enter {
            match playlist_of(menu.target) {
                Some(playlist_id) => if text::trimmed(name).len() == 0 {
                    self.holds(menu, same)
                } else {
                    (
                        self.closes(),
                        ActionView::Send(
                            CommandView::RenamePlaylist {
                                playlist_id,
                                new_title: text::trimmed(name),
                            },
                        ),
                    )
                },
                None => self.holds(menu, same),
            }
        } else {
            let (name, at) = popup::edited(name, cursor, code);
            self.holds(
                menu,
                Some(SubMenuView::RenamePlaylistInput { name, cursor: at as usize }),
            )
        }
    }

    /// The playlist of the menu deleted.
    pub open spec fn deletes(self, menu: PopupView, yes: bool) -> Step {
        match playlist_of(menu.target) {
            Some(playlist_id) => self.closes().and_sends(Command::DeletePlaylist { playlist_id }),
            None => self.holds(
                menu,
                Some(SubMenuView::ConfirmDeletePlaylist { confirm_yes: yes }),
            ),
        }
    }

    /// A key on the confirmation of deleting a playlist.
    #[verifier::opaque]
    pub open spec fn delete_key(self, menu: PopupView, yes: bool, code: KeyCode) -> Step {
        if says_no(code) {
            self.holds(menu, None)
        } else if says_yes(code) {
            self.deletes(menu, yes)
        } else if switches_button(code, self.vim_keys) {
            self.holds(menu, Some(SubMenuView::ConfirmDeletePlaylist { confirm_yes: !yes }))
        } else if code == KeyCode::Enter {
            if yes {
                self.deletes(menu, yes)
            } else {
                self.holds(menu, None)
            }
        } else {
            self.holds(menu, Some(SubMenuView::ConfirmDeletePlaylist { confirm_yes: yes }))
        }
    }

    /// The track of the menu taken out of the favorites.
    pub open spec fn unlikes(self, menu: PopupView, yes: bool) -> Step {
        match track_of(menu.target) {
            Some(track_id) => self.closes().and_sends(Command::RemoveFavorite { track_id }),
            None => self.holds(
                menu,
                Some(SubMenuView::ConfirmRemoveFavorite { confirm_yes: yes }),
            ),
        }
    }

    /// A key on the confirmation of taking a track out of the favorites.
    #[verifier::opaque]
    pub open spec fn unlike_key(self, menu: PopupView, yes: bool, code: KeyCode) -> Step {
        if says_no(code) {
            self.closes().stays()
        } else if says_yes(code) {
            self.unlikes(menu, yes)
        } else if switches_button(code, self.vim_keys) {
            self.holds(menu, Some(SubMenuView::ConfirmRemoveFavorite { confirm_yes: !yes }))
        } else if code == KeyCode::Enter {
            if yes {
                self.unlikes(menu, yes)
            } else {
                self.closes().stays()
            }
        } else {
            self.holds(menu, Some(SubMenuView::ConfirmRemoveFavorite { confirm_yes: yes }))
        }
    }

    /// Going to the album of the menu.
    pub open spec fn views_album(self, target: PopupTarget, ctx: KeyContext) -> Step {
        match album_of(target) {
            Some(album_id) => self.closes().pushes(
                Overlay::AlbumDetail { from_artist: false },
            ).album_pane(self.pages.album.at_top()).and_sends(Command::GetAlbumDetail { album_id }),
            None => ClientView {
                messages: self.messages.with_toast(
                    ToastView {
                        message: notice::plain(NoticeKind::NoAlbumInfo),
                        created_at: ctx.now,
                        duration: 2000,
                        is_error: false,
                    },
                ),
                ..self
            }.closes().stays(),
        }
    }

    /// Going to the artist of the menu.
    pub open spec fn views_artist(self, target: PopupTarget) -> Step {
        match artist_of(target) {
            Some(artist_id) => self.closes().pushes(Overlay::ArtistDetail).artist_pane(
                self.pages.artist.at_top(),
            ).and_sends(Command::GetArtistDetail { artist_id }),
            None => self.closes().stays(),
        }
    }

    /// An entry of the menu that sends a command, or does nothing. The downloads'
    /// entries close the menu in any case.
    pub open spec fn commands(self, menu: PopupView, action: PopupAction) -> Step {
        match target_command(action, menu.target, menu.is_favorite, menu.playlist_context) {
            Some(cmd) => self.closes().and_sends(cmd),
            None => if action == PopupAction::DownloadContainerOffline || action
                == PopupAction::RemoveOffline {
                self.closes().stays()
            } else {
                self.holds(menu, None)
            },
        }
    }

    /// Choosing "Add to playlist": the picker opens, and waits where no playlist
    /// is known yet.
    pub open spec fn opens_picker(self, menu: PopupView) -> Step {
        if self.playlists.len() == 0 {
            (
                self.holds(
                    menu,
                    Some(
                        SubMenuView::PlaylistPicker {
                            playlists: Seq::empty(),
                            selected: 0,
                            loading: true,
                            filter_input: Seq::empty(),
                            filter_typing: false,
                        },
                    ),
                ).0,
                client::sends(Command::RequestPlaylists),
            )
        } else {
            self.holds(menu, Some(picker(self.playlists, 0, Seq::empty(), false)))
        }
    }

    /// Choosing an entry of the menu.
    #[verifier::opaque]
    pub open spec fn popup_action(
        self,
        menu: PopupView,
        action: PopupAction,
        ctx: KeyContext,
    ) -> Step {
        match action {
            PopupAction::AddToPlaylist => self.opens_picker(menu),
            PopupAction::Share => self.asks(
                EffectView::CopyLink(share_link(menu.target)),
            ).closes().stays(),
            PopupAction::TrackInfo => self.holds(menu, Some(SubMenuView::TrackInfo)),
            PopupAction::ViewAlbum => self.views_album(menu.target, ctx),
            PopupAction::ViewArtist => self.views_artist(menu.target),
            PopupAction::RenamePlaylist => match menu.target {
                PopupTarget::Playlist { title, .. } => self.holds(
                    menu,
                    Some(
                        SubMenuView::RenamePlaylistInput {
                            name: title@,
                            cursor: title@.len() as usize,
                        },
                    ),
                ),
                _ => self.holds(menu, None),
            },
            PopupAction::DeletePlaylist => match menu.target {
                PopupTarget::Playlist { nb_songs, .. } => if nb_songs == 0 {
                    self.commands(menu, action)
                } else {
                    self.holds(
                        menu,
                        Some(SubMenuView::ConfirmDeletePlaylist { confirm_yes: false }),
                    )
                },
                _ => self.holds(menu, None),
            },
            _ => self.commands(menu, action),
        }
    }

    /// A key on the menu itself.
    #[verifier::opaque]
    pub open spec fn menu_key(self, menu: PopupView, code: KeyCode, ctx: KeyContext) -> Step {
        if code == KeyCode::Esc || code == KeyCode::Char('q') {
            self.closes().stays()
        } else if view::goes_up(code, self.vim_keys) {
            self.holds(menu.prev(), None)
        } else if view::goes_down(code, self.vim_keys) {
            self.holds(menu.next(), None)
        } else if code == KeyCode::Enter {
            match menu.chosen() {
                Some(action) => self.popup_action(menu, action, ctx),
                None => self.holds(menu, None),
            }
        } else {
            self.holds(menu, None)
        }
    }

    /// A key on a dialog of the menu, which is looked at by itself.
    #[verifier::opaque]
    pub open spec fn dialog_key(self, menu: PopupView, sub: SubMenuView, code: KeyCode) -> Step {
        match sub {
            SubMenuView::PlaylistPicker {
                playlists,
                selected,
                loading,
                filter_input,
                filter_typing,
            } => if loading {
                self.holds(
                    menu,
                    if code == KeyCode::Esc {
                        None
                    } else {
                        Some(sub)
                    },
                )
            } else {
                self.picker_key(menu, playlists, selected, filter_input, filter_typing, code)
            },
            SubMenuView::TrackInfo => if code == KeyCode::Esc || code == KeyCode::Enter || code
                == KeyCode::Char('q') {
                self.closes().stays()
            } else {
                self.holds(menu, Some(sub))
            },
            SubMenuView::CreatePlaylistInput { name, cursor } => self.create_key(
                menu,
                name,
                cursor,
                code,
            ),
            SubMenuView::RenamePlaylistInput { name, cursor } => self.rename_key(
                menu,
                name,
                cursor,
                code,
            ),
            SubMenuView::ConfirmDeletePlaylist { confirm_yes } => self.delete_key(
                menu,
                confirm_yes,
                code,
            ),
            SubMenuView::ConfirmRemoveFavorite { confirm_yes } => self.unlike_key(
                menu,
                confirm_yes,
                code,
            ),
        }
    }

    /// A key while a context menu is open.
    #[verifier::opaque]
    pub open spec fn popup_key(self, code: KeyCode, ctx: KeyContext) -> Step {
        match self.layers.popup {
            None => self.stays(),
            Some(menu) => match menu.sub_menu {
                None => self.closes().menu_key(menu.with_sub(None), code, ctx),
                Some(sub) => self.closes().dialog_key(menu.with_sub(None), sub, code),
            },
        }
    }
}

impl ViewState {
    fn hold(&mut self, menu: PopupMenu, sub: Option<SubMenu>) -> (r: KeyAction)
        ensures
            (final(self)@, r@) == old(self)@.holds(menu@, popup::opt_sub(sub)),
    {
        let mut menu: PopupMenu = menu;
        menu.sub_menu = sub;
        self.layers.popup = Some(menu);
        KeyAction::Continue
    }

    fn pick_playlist(
        &mut self,
        menu: PopupMenu,
        playlists: Vec<PlaylistData>,
        selected: usize,
        input: String,
        typing: bool,
    ) -> (r: KeyAction)
        ensures
            (final(self)@, r@) == old(self)@.picked(menu@, playlists@, selected, input@, typing),
    {
        if selected == 0 {
            return self.hold(
                menu,
                Some(SubMenu::CreatePlaylistInput { name: String::new(), cursor: 0 }),
            );
        }
        let places: Vec<usize> = filtered_places(&playlists, &input);
        let len: usize = playlists.len();
        proof {
            filters::places_lead_back(playlists@, filters::passes::<PlaylistData>(input@));
        }
        if selected - 1 < places.len() {
            match menu.target.track_id() {
                Some(track_id) => {
                    let playlist_id: String = playlists[places[selected - 1]].playlist_id.clone();
                    self.layers.popup = None;
                    return KeyAction::SendCommand(
                        Command::AddToPlaylist { playlist_id, track_id },
                    );
                },
                None => {},
            }
        }
        self.hold(menu, Some(new_picker(playlists, selected, input, typing)))
    }

    fn type_in_picker(
        &mut self,
        menu: PopupMenu,
        playlists: Vec<PlaylistData>,
        selected: usize,
        input: String,
        code: KeyCode,
    ) -> (r: KeyAction)
        ensures
            (final(self)@, r@) == old(self)@.picker_typed(
                menu@,
                playlists@,
                selected,
                input@,
                code,
            ),
    {
        let count: usize = filtered_places(&playlists, &input).len();
        let inside: usize = if selected <= count {
            selected
        } else {
            count
        };
        match code {
            KeyCode::Esc | KeyCode::Enter => self.hold(
                menu,
                Some(new_picker(playlists, selected, input, false)),
            ),
            KeyCode::Char(c) => {
                let mut longer: String = input;
                push_char(&mut longer, c);
                self.hold(menu, Some(new_picker(playlists, inside, longer, true)))
            },
            KeyCode::Backspace => {
                let shorter: String = drop_last_char(&input);
                self.hold(menu, Some(new_picker(playlists, inside, shorter, true)))
            },
            _ => self.hold(menu, Some(new_picker(playlists, selected, input, true))),
        }
    }

    fn handle_picker_key(
        &mut self,
        menu: PopupMenu,
        playlists: Vec<PlaylistData>,
        selected: usize,
        input: String,
        typing: bool,
        code: KeyCode,
    ) -> (r: KeyAction)
        ensures
            (final(self)@, r@) == old(self)@.picker_key(
                menu@,
                playlists@,
                selected,
                input@,
                typing,
                code,
            ),
    {
        proof {
            reveal(ClientView::picker_key);
        }
        if typing && code != KeyCode::Up && code != KeyCode::Down {
            self.type_in_picker(menu, playlists, selected, input, code)
        } else if code == KeyCode::Esc {
            self.hold(menu, None)
        } else if code == KeyCode::Char('/') {
            self.hold(menu, Some(new_picker(playlists, selected, input, true)))
        } else if self.is_nav_up(code) {
            self.hold(menu, Some(new_picker(playlists, step_up(selected), input, typing)))
        } else if self.is_nav_down(code) {
            let count: usize = filtered_places(&playlists, &input).len();
            let lower: usize = if selected < count {
                selected + 1
            } else {
                count
            };
            self.hold(menu, Some(new_picker(playlists, lower, input, typing)))
        } else if code == KeyCode::Enter {
            self.pick_playlist(menu, playlists, selected, input, typing)
        } else {
            self.hold(menu, Some(new_picker(playlists, selected, input, typing)))
        }
    }

    fn handle_create_key(&mut self, menu: PopupMenu, name: String, cursor: usize, code: KeyCode) -> (r:
        KeyAction)
        ensures
            (final(self)@, r@) == old(self)@.create_key(menu@, name@, cursor, code),
    {
        proof {
            reveal(ClientView::create_key);
        }
        if code == KeyCode::Esc {
            let playlists: Vec<PlaylistData> = self.playlists.clone();
            self.hold(menu, Some(new_picker(playlists, 0, String::new(), false)))
        } else if code == KeyCode::Enter {
            let title: String = trim(&name);
            if title.as_str().unicode_len() == 0 {
                return self.hold(menu, Some(SubMenu::CreatePlaylistInput { name, cursor }));
            }
            match menu.target.track_id() {
                Some(track_id) => {
                    self.layers.popup = None;
                    KeyAction::SendCommand(Command::CreatePlaylistAndAdd { title, track_id })
                },
                None => self.hold(menu, Some(SubMenu::CreatePlaylistInput { name, cursor })),
            }
        } else {
            let (name, cursor) = edit_name(&name, cursor, code);
            self.hold(menu, Some(SubMenu::CreatePlaylistInput { name, cursor }))
        }
    }

    fn handle_rename_key(&mut self, menu: PopupMenu, name: String, cursor: usize, code: KeyCode) -> (r:
        KeyAction)
        ensures
            (final(self)@, r@) == old(self)@.rename_key(menu@, name@, cursor, code),
    {
        proof {
            reveal(ClientView::rename_key);
        }
        if code == KeyCode::Esc {
            self.hold(menu, None)
        } else if code == KeyCode::Enter {
            let new_title: String = trim(&name);
            if new_title.as_str().unicode_len() == 0 {
                return self.hold(menu, Some(SubMenu::RenamePlaylistInput { name, cursor }));
            }
            match menu.target.playlist_id() {
                Some(playlist_id) => {
                    self.layers.popup = None;
                    KeyAction::SendCommand(Command::RenamePlaylist { playlist_id, new_title })
                },
                None => self.hold(menu, Some(SubMenu::RenamePlaylistInput { name, cursor })),
            }
        } else {
            let (name, cursor) = edit_name(&name, cursor, code);
            self.hold(menu, Some(SubMenu::RenamePlaylistInput { name, cursor }))
        }
    }

    fn delete_playlist(&mut self, menu: PopupMenu, yes: bool) -> (r: KeyAction)
        ensures
            (final(self)@, r@) == old(self)@.deletes(menu@, yes),
    {
        match menu.target.playlist_id() {
            Some(playlist_id) => {
                self.layers.popup = None;
                KeyAction::SendCommand(Command::DeletePlaylist { playlist_id })
            },
            None => self.hold(menu, Some(SubMenu::ConfirmDeletePlaylist { confirm_yes: yes })),
        }
    }

    fn handle_delete_key(&mut self, menu: PopupMenu, yes: bool, code: KeyCode) -> (r: KeyAction)
        ensures
            (final(self)@, r@) == old(self)@.delete_key(menu@, yes, code),
    {
        proof {
            reveal(ClientView::delete_key);
        }
        if code == KeyCode::Esc || code == KeyCode::Char('n') || code == KeyCode::Char('N') {
            self.hold(menu, None)
        } else if code == KeyCode::Char('y') || code == KeyCode::Char('Y') {
            self.delete_playlist(menu, yes)
        } else if is_button_key(code, self.vim_keys) {
            self.hold(menu, Some(SubMenu::ConfirmDeletePlaylist { confirm_yes: !yes }))
        } else if code == KeyCode::Enter {
            if yes {
                self.delete_playlist(menu, yes)
            } else {
                self.hold(menu, None)
            }
        } else {
            self.hold(menu, Some(SubMenu::ConfirmDeletePlaylist { confirm_yes: yes }))
        }
    }

    fn unlike_track(&mut self, menu: PopupMenu, yes: bool) -> (r: KeyAction)
        ensures
            (final(self)@, r@) == old(self)@.unlikes(menu@, yes),
    {
        match menu.target.track_id() {
            Some(track_id) => {
                self.layers.popup = None;
                KeyAction::SendCommand(Command::RemoveFavorite { track_id })
            },
            None => self.hold(menu, Some(SubMenu::ConfirmRemoveFavorite { confirm_yes: yes })),
        }
    }

    fn handle_unlike_key(&mut self, menu: PopupMenu, yes: bool, code: KeyCode) -> (r: KeyAction)
        ensures
            (final(self)@, r@) == old(self)@.unlike_key(menu@, yes, code),
    {
        proof {
            reveal(ClientView::unlike_key);
        }
        if code == KeyCode::Esc || code == KeyCode::Char('n') || code == KeyCode::Char('N') {
            self.layers.popup = None;
            KeyAction::Continue
        } else if code == KeyCode::Char('y') || code == KeyCode::Char('Y') {
            self.unlike_track(menu, yes)
        } else if is_button_key(code, self.vim_keys) {
            self.hold(menu, Some(SubMenu::ConfirmRemoveFavorite { confirm_yes: !yes }))
        } else if code == KeyCode::Enter {
            if yes {
                self.unlike_track(menu, yes)
            } else {
                self.layers.popup = None;
                KeyAction::Continue
            }
        } else {
            self.hold(menu, Some(SubMenu::ConfirmRemoveFavorite { confirm_yes: yes }))
        }
    }

    fn view_album(&mut self, target: &PopupTarget, ctx: KeyContext) -> (r: KeyAction)
        ensures
            (final(self)@, r@) == old(self)@.views_album(*target, ctx),
    {
        self.layers.popup = None;
        match target.album_id() {
            Some(album_id) => {
                self.layers.push_overlay(Overlay::AlbumDetail { from_artist: false });
                self.pages.album.selected = 0;
                KeyAction::SendCommand(Command::GetAlbumDetail { album_id })
            },
            None => {
                self.messages.show_toast(
                    Toast::new(Notice::plain(NoticeKind::NoAlbumInfo), 2000, ctx.now),
                );
                KeyAction::Continue
            },
        }
    }

    fn view_artist(&mut self, target: &PopupTarget) -> (r: KeyAction)
        ensures
            (final(self)@, r@) == old(self)@.views_artist(*target),
    {
        self.layers.popup = None;
        match target.artist_id() {
            Some(artist_id) => {
                self.layers.push_overlay(Overlay::ArtistDetail);
                self.pages.artist.selected = 0;
                KeyAction::SendCommand(Command::GetArtistDetail { artist_id })
            },
            None => KeyAction::Continue,
        }
    }

    fn command_from_menu(&mut self, menu: PopupMenu, action: PopupAction) -> (r: KeyAction)
        ensures
            (final(self)@, r@) == old(self)@.commands(menu@, action),
    {
        let context: Option<String> = match &menu.playlist_context {
            Some(id) => Some(id.clone()),
            None => None,
        };
        match command_of_target(action, menu.target.clone(), menu.is_favorite, context) {
            Some(cmd) => {
                self.layers.popup = None;
                KeyAction::SendCommand(cmd)
            },
            None => if action == PopupAction::DownloadContainerOffline || action
                == PopupAction::RemoveOffline {
                self.layers.popup = None;
                KeyAction::Continue
            } else {
                self.hold(menu, None)
            },
        }
    }

    fn open_picker(&mut self, menu: PopupMenu) -> (r: KeyAction)
        ensures
            (final(self)@, r@) == old(self)@.opens_picker(menu@),
    {
        if self.playlists.len() == 0 {
            let _ = self.hold(
                menu,
                Some(
                    SubMenu::PlaylistPicker {
                        playlists: Vec::new(),
                        selected: 0,
                        loading: true,
                        filter_input: String::new(),
                        filter_typing: false,
                    },
                ),
            );
            KeyAction::SendCommand(Command::RequestPlaylists)
        } else {
            let playlists: Vec<PlaylistData> = self.playlists.clone();
            self.hold(menu, Some(new_picker(playlists, 0, String::new(), false)))
        }
    }

    /// Does what an entry of a context menu says.
    fn execute_popup_action(&mut self, menu: PopupMenu, action: PopupAction, ctx: KeyContext) -> (r:
        KeyAction)
        ensures
            (final(self)@, r@) == old(self)@.popup_action(menu@, action, ctx),
    {
        proof {
            reveal(ClientView::popup_action);
        }
        match action {
            PopupAction::AddToPlaylist => self.open_picker(menu),
            PopupAction::Share => {
                self.ask(ClientEffect::CopyLink(menu.target.link()));
                self.layers.popup = None;
                KeyAction::Continue
            },
            PopupAction::TrackInfo => self.hold(menu, Some(SubMenu::TrackInfo)),
            PopupAction::ViewAlbum => self.view_album(&menu.target, ctx),
            PopupAction::ViewArtist => self.view_artist(&menu.target),
            PopupAction::RenamePlaylist => {
                let prefill: Option<(String, usize)> = match &menu.target {
                    PopupTarget::Playlist { title, .. } => Some(
                        (title.clone(), title.as_str().unicode_len()),
                    ),
                    _ => None,
                };
                match prefill {
                    Some((name, cursor)) => self.hold(
                        menu,
                        Some(SubMenu::RenamePlaylistInput { name, cursor }),
                    ),
                    None => self.hold(menu, None),
                }
            },
            PopupAction::DeletePlaylist => {
                let songs: Option<u64> = match &menu.target {
                    PopupTarget::Playlist { nb_songs, .. } => Some(*nb_songs),
                    _ => None,
                };
                match songs {
                    Some(nb_songs) => if nb_songs == 0 {
                        self.command_from_menu(menu, action)
                    } else {
                        self.hold(
                            menu,
                            Some(SubMenu::ConfirmDeletePlaylist { confirm_yes: false }),
                        )
                    },
                    None => self.hold(menu, None),
                }
            },
            _ => self.command_from_menu(menu, action),
        }
    }

    fn handle_menu_key(&mut self, menu: PopupMenu, code: KeyCode, ctx: KeyContext) -> (r: KeyAction)
        ensures
            (final(self)@, r@) == old(self)@.menu_key(menu@, code, ctx),
    {
        proof {
            reveal(ClientView::menu_key);
        }
        let mut menu: PopupMenu = menu;
        if code == KeyCode::Esc || code == KeyCode::Char('q') {
            self.layers.popup = None;
            KeyAction::Continue
        } else if self.is_nav_up(code) {
            menu.select_prev();
            self.hold(menu, None)
        } else if self.is_nav_down(code) {
            menu.select_next();
            self.hold(menu, None)
        } else if code == KeyCode::Enter {
            if menu.selected < menu.items.len() {
                let action: PopupAction = menu.items[menu.selected].action;
                self.execute_popup_action(menu, action, ctx)
            } else {
                self.hold(menu, None)
            }
        } else {
            self.hold(menu, None)
        }
    }

    fn handle_dialog_key(&mut self, menu: PopupMenu, sub: SubMenu, code: KeyCode) -> (r: KeyAction)
        ensures
            (final(self)@, r@) == old(self)@.dialog_key(menu@, sub@, code),
    {
        proof {
            reveal(ClientView::dialog_key);
        }
        match sub {
            SubMenu::PlaylistPicker { playlists, selected, loading, filter_input, filter_typing } => {
                if loading {
                    if code == KeyCode::Esc {
                        self.hold(menu, None)
                    } else {
                        self.hold(
                            menu,
                            Some(
                                SubMenu::PlaylistPicker {
                                    playlists,
                                    selected,
                                    loading,
                                    filter_input,
                                    filter_typing,
                                },
                            ),
                        )
                    }
                } else {
                    self.handle_picker_key(
                        menu,
                        playlists,
                        selected,
                        filter_input,
                        filter_typing,
                        code,
                    )
                }
            },
            SubMenu::TrackInfo => {
                if code == KeyCode::Esc || code == KeyCode::Enter || code == KeyCode::Char('q') {
                    self.layers.popup = None;
                    KeyAction::Continue
                } else {
                    self.hold(menu, Some(SubMenu::TrackInfo))
                }
            },
            SubMenu::CreatePlaylistInput { name, cursor } => self.handle_create_key(
                menu,
                name,
                cursor,
                code,
            ),
            SubMenu::RenamePlaylistInput { name, cursor } => self.handle_rename_key(
                menu,
                name,
                cursor,
                code,
            ),
            SubMenu::ConfirmDeletePlaylist { confirm_yes } => self.handle_delete_key(
                menu,
                confirm_yes,
                code,
            ),
            SubMenu::ConfirmRemoveFavorite { confirm_yes } => self.handle_unlike_key(
                menu,
                confirm_yes,
                code,
            ),
        }
    }

    /// Handles a key while a context menu is open.
    pub fn handle_popup_key(&mut self, code: KeyCode, ctx: KeyContext) -> (r: KeyAction)
        ensures
            (final(self)@, r@) == old(self)@.popup_key(code, ctx),
    {
        proof {
            reveal(ClientView::popup_key);
        }
        let mut open: Option<PopupMenu> = None;
        std::mem::swap(&mut open, &mut self.layers.popup);
        match open {
            None => KeyAction::Continue,
            Some(mut menu) => {
                let mut sub: Option<SubMenu> = None;
                std::mem::swap(&mut sub, &mut menu.sub_menu);
                match sub {
                    None => self.handle_menu_key(menu, code, ctx),
                    Some(sub) => self.handle_dialog_key(menu, sub, code),
                }
            },
        }
    }
}

} // verus!
