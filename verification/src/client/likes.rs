//! Favorites, and the player's controls, from wherever the user is.

use vstd::prelude::*;

use crate::client;
use crate::client::popup;
use crate::client::popup::PopupMenu;
use crate::client::state::{ClientView, ViewState};
use crate::client::view;
use crate::client::{ActionView, KeyAction, KeyCode, Overlay};
use crate::models::{ArtistSubTab, DisplayItem, TrackData};
use crate::protocol::{
    ActiveTab, Command, FavoritesCategory, GenreDetailSubTab, Screen, SearchCategory,
};
use crate::seqs;

verus! {

/// The client's state after an input, and what it asks for.
pub type Step = (ClientView, ActionView);

/// A volume one step up, in thousandths.
pub open spec fn louder(volume: u32) -> u32 {
    if volume >= 950 {
        1000
    } else {
        (volume + 50) as u32
    }
}

/// A volume one step down, in thousandths.
pub open spec fn quieter(volume: u32) -> u32 {
    if volume <= 50 {
        0
    } else {
        (volume - 50) as u32
    }
}

fn volume_up(volume: u32) -> (r: u32)
    ensures
        r == louder(volume),
{
    if volume >= 950 {
        1000
    } else {
        volume + 50
    }
}

fn volume_down(volume: u32) -> (r: u32)
    ensures
        r == quieter(volume),
{
    if volume <= 50 {
        0
    } else {
        volume - 50
    }
}

/// Volume steps stay between silent and full, and short of an end a step up and
/// a step down cancel out.
pub proof fn volume_steps_cancel_out(volume: u32)
    requires
        volume <= 1000,
    ensures
        louder(volume) <= 1000,
        quieter(volume) <= 1000,
        volume <= 950 ==> quieter(louder(volume)) == volume,
        volume >= 50 ==> louder(quieter(volume)) == volume,
{
}

/// The command that turns a track's favorite around.
pub open spec fn favorite_command(liked: bool, track_id: String) -> Command {
    if liked {
        Command::RemoveFavorite { track_id }
    } else {
        Command::AddFavorite { track_id }
    }
}

/// The command that turns an artist's favorite around.
pub open spec fn artist_command(liked: bool, artist_id: String) -> Command {
    if liked {
        Command::RemoveFavoriteArtist { artist_id }
    } else {
        Command::AddFavoriteArtist { artist_id }
    }
}

/// The command that turns an album's favorite around.
pub open spec fn album_command(liked: bool, album_id: String) -> Command {
    if liked {
        Command::RemoveFavoriteAlbum { album_id }
    } else {
        Command::AddFavoriteAlbum { album_id }
    }
}

/// Asks to turn a track's favorite around.
pub fn toggle_favorite_command(liked: bool, track_id: String) -> (r: Command)
    ensures
        r == favorite_command(liked, track_id),
{
    if liked {
        Command::RemoveFavorite { track_id }
    } else {
        Command::AddFavorite { track_id }
    }
}

/// Asks to turn an artist's favorite around.
pub fn toggle_artist_command(liked: bool, artist_id: String) -> (r: Command)
    ensures
        r == artist_command(liked, artist_id),
{
    if liked {
        Command::RemoveFavoriteArtist { artist_id }
    } else {
        Command::AddFavoriteArtist { artist_id }
    }
}

/// Asks to turn an album's favorite around.
pub fn toggle_album_command(liked: bool, album_id: String) -> (r: Command)
    ensures
        r == album_command(liked, album_id),
{
    if liked {
        Command::RemoveFavoriteAlbum { album_id }
    } else {
        Command::AddFavoriteAlbum { album_id }
    }
}

impl ClientView {
    /// Nothing happens.
    pub open spec fn stays(self) -> Step {
        (self, ActionView::Continue)
    }

    /// This command is sent.
    pub open spec fn and_sends(self, cmd: Command) -> Step {
        (self, client::sends(cmd))
    }

    /// The track is a favorite, as far as the client knows.
    pub open spec fn likes(self, track_id: Seq<char>) -> bool {
        self.tabs.favorites.likes(track_id)
    }

    /// The track's favorite turned around, here and at the player.
    pub open spec fn toggled_favorite(self, track_id: String) -> Step {
        self.with_favorites(self.tabs.favorites.toggled(track_id)).and_sends(
            favorite_command(self.likes(track_id@), track_id),
        )
    }

    /// The track under the album page's cursor.
    pub open spec fn album_track(self) -> Option<TrackData> {
        match self.data.album_detail {
            Some(d) => client::nth(d.tracks@, self.pages.album.selected as int),
            None => None,
        }
    }

    /// The track under the artist page's cursor, on the page's list of tracks.
    pub open spec fn artist_track(self) -> Option<TrackData> {
        if self.pages.artist_sub_tab == ArtistSubTab::TopTracks {
            match self.data.artist_detail {
                Some(d) => client::nth(d.top_tracks@, self.pages.artist.selected as int),
                None => None,
            }
        } else {
            None
        }
    }

    /// The place in the open playlist of the track at this row.
    pub open spec fn playlist_place(self, selected: usize) -> Option<usize> {
        client::nth(self.playlist_places(), selected as int)
    }

    /// The track at this row of the open playlist.
    pub open spec fn playlist_track(self, selected: usize) -> Option<TrackData> {
        match self.playlist_place(selected) {
            Some(i) => Some(view::playlist_tracks(self.data)[i as int]),
            None => None,
        }
    }

    /// The track at this row of a genre page, on its list of tracks.
    pub open spec fn genre_track(self, sub_tab: GenreDetailSubTab, selected: usize) -> Option<
        TrackData,
    > {
        if sub_tab == GenreDetailSubTab::Tracks {
            match self.data.genre_detail {
                Some(d) => client::nth(d.tracks@, selected as int),
                None => None,
            }
        } else {
            None
        }
    }

    /// The track under the cursor of the page that is open.
    #[verifier::opaque]
    pub open spec fn page_track(self) -> Option<TrackData> {
        match self.layers.overlay {
            Some(Overlay::AlbumDetail { .. }) => self.album_track(),
            Some(Overlay::ArtistDetail) => self.artist_track(),
            Some(Overlay::PlaylistDetail { selected }) => self.playlist_track(selected),
            Some(Overlay::GenreDetail { sub_tab, selected }) => self.genre_track(sub_tab, selected),
            Some(Overlay::WaitingList { selected }) => client::nth(
                self.data.queue@,
                selected as int,
            ),
            _ => None,
        }
    }

    /// The search row under the cursor.
    pub open spec fn search_row(self) -> Option<DisplayItem> {
        client::nth(self.data.search_display@, self.tabs.search_selected as int)
    }

    /// The favorites row under the cursor, whichever list is shown.
    pub open spec fn favorites_row(self) -> Option<DisplayItem> {
        self.tabs.favorites.row(self.data.favorites_display@)
    }

    /// What liking does to the favorite under the cursor, where that is one. A
    /// track of the favorites list is only removed after a confirmation.
    pub open spec fn liked_in_favorites(self) -> Option<Step> {
        let whole = client::nth(
            self.data.favorites_display@,
            self.tabs.favorites.selected as int,
        );
        match self.data.favorites_category {
            FavoritesCategory::Tracks | FavoritesCategory::RecentlyPlayed => {
                match self.favorites_row() {
                    Some(row) => match row.track {
                        Some(track) => if self.data.favorites_category == FavoritesCategory::Tracks {
                            Some(
                                self.with_layers(
                                    self.layers.with_popup(popup::remove_favorite_dialog(track)),
                                ).stays(),
                            )
                        } else {
                            Some(self.toggled_favorite(track.track_id))
                        },
                        None => None,
                    },
                    None => None,
                }
            },
            FavoritesCategory::Artists => match whole {
                Some(row) => match row.artist_id {
                    Some(id) => Some(
                        self.and_sends(
                            artist_command(
                                seqs::listed(self.data.favorite_artist_ids@, id@),
                                id,
                            ),
                        ),
                    ),
                    None => None,
                },
                None => None,
            },
            FavoritesCategory::Albums => match whole {
                Some(row) => match row.album_id {
                    Some(id) => Some(
                        self.and_sends(
                            album_command(seqs::listed(self.data.favorite_album_ids@, id@), id),
                        ),
                    ),
                    None => None,
                },
                None => None,
            },
            _ => None,
        }
    }

    /// What liking does to the row under the cursor of the main list.
    #[verifier::opaque]
    pub open spec fn liked_in_tab(self) -> Option<Step> {
        if self.data.screen == Screen::Main && self.layers.overlay is None && self.layers.popup
            is None {
            match self.data.active_tab {
                ActiveTab::Search => if self.data.search_category == SearchCategory::Track {
                    match self.search_row() {
                        Some(row) => match row.track {
                            Some(track) => Some(self.toggled_favorite(track.track_id)),
                            None => None,
                        },
                        None => None,
                    }
                } else {
                    None
                },
                ActiveTab::Favorites => self.liked_in_favorites(),
                _ => None,
            }
        } else {
            None
        }
    }

    /// The playing track's favorite turned around.
    pub open spec fn liked_playing(self) -> Step {
        match self.data.current_track {
            Some(track) => self.toggled_favorite(track.track_id),
            None => self.stays(),
        }
    }

    /// Liking what is focused, or else what is playing.
    #[verifier::opaque]
    pub open spec fn liked(self) -> Step {
        match self.page_track() {
            Some(track) => self.toggled_favorite(track.track_id),
            None => match self.liked_in_tab() {
                Some(step) => step,
                None => self.liked_playing(),
            },
        }
    }

    /// The player's control on this key, if it is one.
    #[verifier::opaque]
    pub open spec fn player_control(self, code: KeyCode) -> Option<Command> {
        match code {
            KeyCode::Char(c) => if c == ' ' {
                Some(Command::TogglePause)
            } else if c == 'n' {
                Some(Command::NextTrack)
            } else if c == 'b' {
                Some(Command::PrevTrack)
            } else if c == 's' {
                Some(Command::ToggleShuffle)
            } else if c == 'r' {
                Some(Command::CycleRepeat)
            } else if c == 'L' {
                match self.data.current_track {
                    Some(track) => Some(
                        favorite_command(self.likes(track.track_id@), track.track_id),
                    ),
                    None => None,
                }
            } else if c == '+' || c == '=' {
                Some(Command::SetVolume { volume: louder(self.data.volume) })
            } else if c == '-' {
                Some(Command::SetVolume { volume: quieter(self.data.volume) })
            } else {
                None
            },
            _ => None,
        }
    }

    /// A page's answer to a key of its own it does not have: the player's
    /// controls stay available.
    pub open spec fn control_or_stay(self, code: KeyCode) -> Step {
        match self.player_control(code) {
            Some(cmd) => self.and_sends(cmd),
            None => self.stays(),
        }
    }
}

impl ViewState {
    /// Turns a track's favorite around at once, and tells the player.
    pub fn toggle_track_favorite(&mut self, track_id: &String) -> (r: KeyAction)
        ensures
            (final(self)@, r@) == old(self)@.toggled_favorite(*track_id),
    {
        let liked: bool = self.is_track_favorite(track_id);
        self.tabs.favorites.toggle(track_id);
        KeyAction::SendCommand(toggle_favorite_command(liked, track_id.clone()))
    }

    /// The track under the album page's cursor.
    pub fn focused_album_track(&self) -> (r: Option<&TrackData>)
        ensures
            match r {
                Some(t) => self@.album_track() == Some(*t),
                None => self@.album_track() is None,
            },
    {
        match &self.data.album_detail {
            Some(d) => client::at(&d.tracks, self.pages.album.selected),
            None => None,
        }
    }

    /// The track under the artist page's cursor.
    pub fn focused_artist_track(&self) -> (r: Option<&TrackData>)
        ensures
            match r {
                Some(t) => self@.artist_track() == Some(*t),
                None => self@.artist_track() is None,
            },
    {
        if self.pages.artist_sub_tab != ArtistSubTab::TopTracks {
            return None;
        }
        match &self.data.artist_detail {
            Some(d) => client::at(&d.top_tracks, self.pages.artist.selected),
            None => None,
        }
    }

    /// The track at a row of the open playlist, with its place there.
    pub fn focused_playlist_track(&self, selected: usize) -> (r: Option<(usize, &TrackData)>)
        ensures
            match r {
                Some((i, t)) => self@.playlist_place(selected) == Some(i)
                    && self@.playlist_track(selected) == Some(*t),
                None => self@.playlist_place(selected) is None,
            },
    {
        let at: Vec<usize> = self.playlist_detail_places();
        if selected < at.len() {
            match &self.data.playlist_detail {
                Some(d) => {
                    let len: usize = d.tracks.len();
                    proof {
                        client::filters::places_lead_back(
                            d.tracks@,
                            client::filters::passes::<TrackData>(self.pages.playlist_filter_input@),
                        );
                    }
                    let i: usize = at[selected];
                    Some((i, &d.tracks[i]))
                },
                None => None,
            }
        } else {
            None
        }
    }

    /// The track at a row of a genre page.
    pub fn focused_genre_track(&self, sub_tab: GenreDetailSubTab, selected: usize) -> (r: Option<
        &TrackData,
    >)
        ensures
            match r {
                Some(t) => self@.genre_track(sub_tab, selected) == Some(*t),
                None => self@.genre_track(sub_tab, selected) is None,
            },
    {
        if sub_tab != GenreDetailSubTab::Tracks {
            return None;
        }
        match &self.data.genre_detail {
            Some(d) => client::at(&d.tracks, selected),
            None => None,
        }
    }

    fn focused_page_track(&self) -> (r: Option<&TrackData>)
        ensures
            match r {
                Some(t) => self@.page_track() == Some(*t),
                None => self@.page_track() is None,
            },
    {
        proof {
            reveal(ClientView::page_track);
        }
        match &self.layers.overlay {
            Some(Overlay::AlbumDetail { .. }) => self.focused_album_track(),
            Some(Overlay::ArtistDetail) => self.focused_artist_track(),
            Some(Overlay::PlaylistDetail { selected }) => {
                match self.focused_playlist_track(*selected) {
                    Some((_, t)) => Some(t),
                    None => None,
                }
            },
            Some(Overlay::GenreDetail { sub_tab, selected }) => self.focused_genre_track(
                *sub_tab,
                *selected,
            ),
            Some(Overlay::WaitingList { selected }) => client::at(&self.data.queue, *selected),
            _ => None,
        }
    }

    /// The search row under the cursor.
    pub fn selected_search_row(&self) -> (r: Option<&DisplayItem>)
        ensures
            match r {
                Some(row) => self@.search_row() == Some(*row),
                None => self@.search_row() is None,
            },
    {
        client::at(&self.data.search_display, self.tabs.search_selected)
    }

    fn like_in_favorites(&mut self) -> (r: Option<KeyAction>)
        ensures
            match r {
                Some(a) => old(self)@.liked_in_favorites() == Some((final(self)@, a@)),
                None => old(self)@.liked_in_favorites() is None && final(self)@ == old(self)@,
            },
    {
        match self.data.favorites_category {
            FavoritesCategory::Tracks | FavoritesCategory::RecentlyPlayed => {
                let track: Option<TrackData> = match self.favorites_selected_item() {
                    Some(row) => row.track.clone(),
                    None => None,
                };
                match track {
                    Some(track) => {
                        if self.data.favorites_category == FavoritesCategory::Tracks {
                            self.layers.popup = Some(PopupMenu::confirm_remove_favorite(track));
                            Some(KeyAction::Continue)
                        } else {
                            Some(self.toggle_track_favorite(&track.track_id))
                        }
                    },
                    None => None,
                }
            },
            FavoritesCategory::Artists => {
                match client::at(&self.data.favorites_display, self.tabs.favorites.selected) {
                    Some(row) => match &row.artist_id {
                        Some(id) => {
                            let liked: bool = self.is_artist_favorite(id);
                            Some(KeyAction::SendCommand(toggle_artist_command(liked, id.clone())))
                        },
                        None => None,
                    },
                    None => None,
                }
            },
            FavoritesCategory::Albums => {
                match client::at(&self.data.favorites_display, self.tabs.favorites.selected) {
                    Some(row) => match &row.album_id {
                        Some(id) => {
                            let liked: bool = self.is_album_favorite(id);
                            Some(KeyAction::SendCommand(toggle_album_command(liked, id.clone())))
                        },
                        None => None,
                    },
                    None => None,
                }
            },
            _ => None,
        }
    }

    fn like_in_tab(&mut self) -> (r: Option<KeyAction>)
        ensures
            match r {
                Some(a) => old(self)@.liked_in_tab() == Some((final(self)@, a@)),
                None => old(self)@.liked_in_tab() is None && final(self)@ == old(self)@,
            },
    {
        proof {
            reveal(ClientView::liked_in_tab);
        }
        if self.data.screen != Screen::Main || self.layers.overlay.is_some()
            || self.layers.popup.is_some() {
            return None;
        }
        match self.data.active_tab {
            ActiveTab::Search => {
                if self.data.search_category != SearchCategory::Track {
                    return None;
                }
                let track_id: Option<String> = match self.selected_search_row() {
                    Some(row) => match &row.track {
                        Some(t) => Some(t.track_id.clone()),
                        None => None,
                    },
                    None => None,
                };
                match track_id {
                    Some(id) => Some(self.toggle_track_favorite(&id)),
                    None => None,
                }
            },
            ActiveTab::Favorites => self.like_in_favorites(),
            _ => None,
        }
    }

    /// Turns the playing track's favorite around.
    pub fn toggle_like_playing(&mut self) -> (r: KeyAction)
        ensures
            (final(self)@, r@) == old(self)@.liked_playing(),
    {
        let playing: Option<String> = match &self.data.current_track {
            Some(t) => Some(t.track_id.clone()),
            None => None,
        };
        match playing {
            Some(id) => self.toggle_track_favorite(&id),
            None => KeyAction::Continue,
        }
    }

    /// Turns the favorite around of the track that is focused in any list or
    /// page, or else of the playing track.
    pub fn toggle_like_focused_or_playing(&mut self) -> (r: KeyAction)
        ensures
            (final(self)@, r@) == old(self)@.liked(),
    {
        proof {
            reveal(ClientView::liked);
        }
        let focused: Option<String> = match self.focused_page_track() {
            Some(t) => Some(t.track_id.clone()),
            None => None,
        };
        match focused {
            Some(id) => {
                return self.toggle_track_favorite(&id);
            },
            None => {},
        }
        match self.like_in_tab() {
            Some(action) => action,
            None => self.toggle_like_playing(),
        }
    }

    fn control_command(&self, code: KeyCode) -> (r: Option<Command>)
        ensures
            r == self@.player_control(code),
    {
        proof {
            reveal(ClientView::player_control);
        }
        match code {
            KeyCode::Char(c) => if c == ' ' {
                Some(Command::TogglePause)
            } else if c == 'n' {
                Some(Command::NextTrack)
            } else if c == 'b' {
                Some(Command::PrevTrack)
            } else if c == 's' {
                Some(Command::ToggleShuffle)
            } else if c == 'r' {
                Some(Command::CycleRepeat)
            } else if c == 'L' {
                match &self.data.current_track {
                    Some(track) => {
                        let liked: bool = self.is_track_favorite(&track.track_id);
                        Some(toggle_favorite_command(liked, track.track_id.clone()))
                    },
                    None => None,
                }
            } else if c == '+' || c == '=' {
                Some(Command::SetVolume { volume: volume_up(self.data.volume) })
            } else if c == '-' {
                Some(Command::SetVolume { volume: volume_down(self.data.volume) })
            } else {
                None
            },
            _ => None,
        }
    }

    /// The player's controls, which stay available while a page is open.
    pub fn player_control_action(&self, code: KeyCode) -> (r: KeyAction)
        ensures
            (self@, r@) == self@.control_or_stay(code),
    {
        proof {
            reveal(ClientView::player_control);
        }
        match self.control_command(code) {
            Some(cmd) => KeyAction::SendCommand(cmd),
            None => KeyAction::Continue,
        }
    }
}

} // verus!
