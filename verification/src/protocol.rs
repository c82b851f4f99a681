//! What the terminal client and the background player say to each other.

use vstd::prelude::*;

use crate::models::{
    AlbumDetail, ArtistDetail, ArtistSubTab, AudioQuality, DisplayItem, GenreDetail, OfflineTrack,
    PlaylistData, PlaylistDetail, TrackData,
};
use crate::notice::Notice;
use crate::player::{PlaybackStatus, RepeatMode};
use crate::text::joined;

verus! {

/// Sub-categories within the genre page.
#[derive(Debug, Clone, Copy, PartialEq, Eq, Structural)]
pub enum GenreDetailSubTab {
    Tracks,
    Albums,
    Artists,
    Playlists,
    Radios,
}

impl Default for GenreDetailSubTab {
    fn default() -> (r: Self)
        ensures
            r == GenreDetailSubTab::Tracks,
    {
        GenreDetailSubTab::Tracks
    }
}

impl GenreDetailSubTab {
    /// How many there are.
    pub const COUNT: usize = 5;

    /// The one at place `i` of the list, which wraps around.
    pub open spec fn nth(i: int) -> GenreDetailSubTab {
        if i % 5 == 0 {
            GenreDetailSubTab::Tracks
        } else if i % 5 == 1 {
            GenreDetailSubTab::Albums
        } else if i % 5 == 2 {
            GenreDetailSubTab::Artists
        } else if i % 5 == 3 {
            GenreDetailSubTab::Playlists
        } else {
            GenreDetailSubTab::Radios
        }
    }

    /// Its place in the list.
    pub open spec fn place(self) -> int {
        match self {
            GenreDetailSubTab::Tracks => 0,
            GenreDetailSubTab::Albums => 1,
            GenreDetailSubTab::Artists => 2,
            GenreDetailSubTab::Playlists => 3,
            GenreDetailSubTab::Radios => 4,
        }
    }

    /// The one at place `i` of the list.
    pub fn at(i: usize) -> (r: Option<GenreDetailSubTab>)
        ensures
            r == (if i < 5 {
                Some(GenreDetailSubTab::nth(i as int))
            } else {
                None
            }),
    {
        if i == 0 {
            Some(GenreDetailSubTab::Tracks)
        } else if i == 1 {
            Some(GenreDetailSubTab::Albums)
        } else if i == 2 {
            Some(GenreDetailSubTab::Artists)
        } else if i == 3 {
            Some(GenreDetailSubTab::Playlists)
        } else if i == 4 {
            Some(GenreDetailSubTab::Radios)
        } else {
            None
        }
    }

    /// Its place in the list.
    pub fn position(&self) -> (r: usize)
        ensures
            r == self.place(),
            r < 5,
    {
        match self {
            GenreDetailSubTab::Tracks => 0,
            GenreDetailSubTab::Albums => 1,
            GenreDetailSubTab::Artists => 2,
            GenreDetailSubTab::Playlists => 3,
            GenreDetailSubTab::Radios => 4,
        }
    }

    /// The one after this, wrapping around.
    pub fn next(&self) -> (r: GenreDetailSubTab)
        ensures
            r == GenreDetailSubTab::nth(self.place() + 1),
    {
        match self {
            GenreDetailSubTab::Tracks => GenreDetailSubTab::Albums,
            GenreDetailSubTab::Albums => GenreDetailSubTab::Artists,
            GenreDetailSubTab::Artists => GenreDetailSubTab::Playlists,
            GenreDetailSubTab::Playlists => GenreDetailSubTab::Radios,
            GenreDetailSubTab::Radios => GenreDetailSubTab::Tracks,
        }
    }

    /// The one before this, wrapping around.
    pub fn prev(&self) -> (r: GenreDetailSubTab)
        ensures
            r == GenreDetailSubTab::nth(self.place() + 4),
    {
        match self {
            GenreDetailSubTab::Tracks => GenreDetailSubTab::Radios,
            GenreDetailSubTab::Albums => GenreDetailSubTab::Tracks,
            GenreDetailSubTab::Artists => GenreDetailSubTab::Albums,
            GenreDetailSubTab::Playlists => GenreDetailSubTab::Artists,
            GenreDetailSubTab::Radios => GenreDetailSubTab::Playlists,
        }
    }
}

/// Going to the next sub-category and back leads to the same one, and so does
/// going back first.
pub proof fn genre_sub_tabs_go_round(tab: GenreDetailSubTab)
    ensures
        GenreDetailSubTab::nth(GenreDetailSubTab::nth(tab.place() + 1).place() + 4) == tab,
        GenreDetailSubTab::nth(GenreDetailSubTab::nth(tab.place() + 4).place() + 1) == tab,
{
}

/// Screen the player is on.
#[derive(Debug, Clone, Copy, PartialEq, Eq, Structural)]
pub enum Screen {
    Login,
    Main,
}

impl Default for Screen {
    fn default() -> (r: Self)
        ensures
            r == Screen::Login,
    {
        Screen::Login
    }
}

/// Active tab in the main view.
#[derive(Debug, Clone, Copy, PartialEq, Eq, Structural)]
pub enum ActiveTab {
    Search,
    Favorites,
    Explore,
    Downloads,
}

impl Default for ActiveTab {
    fn default() -> (r: Self)
        ensures
            r == ActiveTab::Search,
    {
        ActiveTab::Search
    }
}

impl ActiveTab {
    /// How many there are.
    pub const COUNT: usize = 4;

    /// The one at place `i` of the list, which wraps around.
    pub open spec fn nth(i: int) -> ActiveTab {
        if i % 4 == 0 {
            ActiveTab::Search
        } else if i % 4 == 1 {
            ActiveTab::Favorites
        } else if i % 4 == 2 {
            ActiveTab::Explore
        } else {
            ActiveTab::Downloads
        }
    }

    /// Its place in the list.
    pub open spec fn place(self) -> int {
        match self {
            ActiveTab::Search => 0,
            ActiveTab::Favorites => 1,
            ActiveTab::Explore => 2,
            ActiveTab::Downloads => 3,
        }
    }

    /// The one at place `i` of the list.
    pub fn at(i: usize) -> (r: Option<ActiveTab>)
        ensures
            r == (if i < 4 {
                Some(ActiveTab::nth(i as int))
            } else {
                None
            }),
    {
        if i == 0 {
            Some(ActiveTab::Search)
        } else if i == 1 {
            Some(ActiveTab::Favorites)
        } else if i == 2 {
            Some(ActiveTab::Explore)
        } else if i == 3 {
            Some(ActiveTab::Downloads)
        } else {
            None
        }
    }

    /// Its place in the list.
    pub fn position(&self) -> (r: usize)
        ensures
            r == self.place(),
            r < 4,
    {
        match self {
            ActiveTab::Search => 0,
            ActiveTab::Favorites => 1,
            ActiveTab::Explore => 2,
            ActiveTab::Downloads => 3,
        }
    }

    /// The one after this, wrapping around.
    pub fn next(&self) -> (r: ActiveTab)
        ensures
            r == ActiveTab::nth(self.place() + 1),
    {
        match self {
            ActiveTab::Search => ActiveTab::Favorites,
            ActiveTab::Favorites => ActiveTab::Explore,
            ActiveTab::Explore => ActiveTab::Downloads,
            ActiveTab::Downloads => ActiveTab::Search,
        }
    }

    /// The one before this, wrapping around.
    pub fn prev(&self) -> (r: ActiveTab)
        ensures
            r == ActiveTab::nth(self.place() + 3),
    {
        match self {
            ActiveTab::Search => ActiveTab::Downloads,
            ActiveTab::Favorites => ActiveTab::Search,
            ActiveTab::Explore => ActiveTab::Favorites,
            ActiveTab::Downloads => ActiveTab::Explore,
        }
    }
}

/// Going to the next tab and back leads to the same tab, and so does going back
/// first.
pub proof fn tabs_go_round(tab: ActiveTab)
    ensures
        ActiveTab::nth(ActiveTab::nth(tab.place() + 1).place() + 3) == tab,
        ActiveTab::nth(ActiveTab::nth(tab.place() + 3).place() + 1) == tab,
{
}

/// Sub-categories within the Explore tab.
#[derive(Debug, Clone, Copy, PartialEq, Eq, Structural)]
pub enum ExploreCategory {
    Moods,
    NewReleases,
    Categories,
    Radios,
}

impl Default for ExploreCategory {
    fn default() -> (r: Self)
        ensures
            r == ExploreCategory::Moods,
    {
        ExploreCategory::Moods
    }
}

impl ExploreCategory {
    /// How many there are.
    pub const COUNT: usize = 4;

    /// The one at place `i` of the list, which wraps around.
    pub open spec fn nth(i: int) -> ExploreCategory {
        if i % 4 == 0 {
            ExploreCategory::Moods
        } else if i % 4 == 1 {
            ExploreCategory::NewReleases
        } else if i % 4 == 2 {
            ExploreCategory::Categories
        } else {
            ExploreCategory::Radios
        }
    }

    /// Its place in the list.
    pub open spec fn place(self) -> int {
        match self {
            ExploreCategory::Moods => 0,
            ExploreCategory::NewReleases => 1,
            ExploreCategory::Categories => 2,
            ExploreCategory::Radios => 3,
        }
    }

    /// The one at place `i` of the list.
    pub fn at(i: usize) -> (r: Option<ExploreCategory>)
        ensures
            r == (if i < 4 {
                Some(ExploreCategory::nth(i as int))
            } else {
                None
            }),
    {
        if i == 0 {
            Some(ExploreCategory::Moods)
        } else if i == 1 {
            Some(ExploreCategory::NewReleases)
        } else if i == 2 {
            Some(ExploreCategory::Categories)
        } else if i == 3 {
            Some(ExploreCategory::Radios)
        } else {
            None
        }
    }

    /// Its place in the list.
    pub fn position(&self) -> (r: usize)
        ensures
            r == self.place(),
            r < 4,
    {
        match self {
            ExploreCategory::Moods => 0,
            ExploreCategory::NewReleases => 1,
            ExploreCategory::Categories => 2,
            ExploreCategory::Radios => 3,
        }
    }
}

/// Search category filter.
#[derive(Debug, Clone, Copy, PartialEq, Eq, Structural)]
pub enum SearchCategory {
    Track,
    Artist,
    Album,
    Playlist,
    Podcast,
    Episode,
    Profile,
}

impl Default for SearchCategory {
    fn default() -> (r: Self)
        ensures
            r == SearchCategory::Track,
    {
        SearchCategory::Track
    }
}

impl SearchCategory {
    /// How many there are.
    pub const COUNT: usize = 7;

    /// The one at place `i` of the list, which wraps around.
    pub open spec fn nth(i: int) -> SearchCategory {
        if i % 7 == 0 {
            SearchCategory::Track
        } else if i % 7 == 1 {
            SearchCategory::Artist
        } else if i % 7 == 2 {
            SearchCategory::Album
        } else if i % 7 == 3 {
            SearchCategory::Playlist
        } else if i % 7 == 4 {
            SearchCategory::Podcast
        } else if i % 7 == 5 {
            SearchCategory::Episode
        } else {
            SearchCategory::Profile
        }
    }

    /// Its place in the list.
    pub open spec fn place(self) -> int {
        match self {
            SearchCategory::Track => 0,
            SearchCategory::Artist => 1,
            SearchCategory::Album => 2,
            SearchCategory::Playlist => 3,
            SearchCategory::Podcast => 4,
            SearchCategory::Episode => 5,
            SearchCategory::Profile => 6,
        }
    }

    /// The one at place `i` of the list.
    pub fn at(i: usize) -> (r: Option<SearchCategory>)
        ensures
            r == (if i < 7 {
                Some(SearchCategory::nth(i as int))
            } else {
                None
            }),
    {
        if i == 0 {
            Some(SearchCategory::Track)
        } else if i == 1 {
            Some(SearchCategory::Artist)
        } else if i == 2 {
            Some(SearchCategory::Album)
        } else if i == 3 {
            Some(SearchCategory::Playlist)
        } else if i == 4 {
            Some(SearchCategory::Podcast)
        } else if i == 5 {
            Some(SearchCategory::Episode)
        } else if i == 6 {
            Some(SearchCategory::Profile)
        } else {
            None
        }
    }

    /// Its place in the list.
    pub fn position(&self) -> (r: usize)
        ensures
            r == self.place(),
            r < 7,
    {
        match self {
            SearchCategory::Track => 0,
            SearchCategory::Artist => 1,
            SearchCategory::Album => 2,
            SearchCategory::Playlist => 3,
            SearchCategory::Podcast => 4,
            SearchCategory::Episode => 5,
            SearchCategory::Profile => 6,
        }
    }
}

impl SearchCategory {
    /// Section key of the category in the search response.
    pub open spec fn key(self) -> Seq<char> {
        match self {
            SearchCategory::Track => "TRACK"@,
            SearchCategory::Artist => "ARTIST"@,
            SearchCategory::Album => "ALBUM"@,
            SearchCategory::Playlist => "PLAYLIST"@,
            SearchCategory::Podcast => "SHOW"@,
            SearchCategory::Episode => "EPISODE"@,
            SearchCategory::Profile => "USER"@,
        }
    }

    /// Section key of the category in the search response.
    pub fn api_key(&self) -> (r: &'static str)
        ensures
            r@ == self.key(),
    {
        match self {
            SearchCategory::Track => "TRACK",
            SearchCategory::Artist => "ARTIST",
            SearchCategory::Album => "ALBUM",
            SearchCategory::Playlist => "PLAYLIST",
            SearchCategory::Podcast => "SHOW",
            SearchCategory::Episode => "EPISODE",
            SearchCategory::Profile => "USER",
        }
    }
}

/// No two search categories share a section key.
pub proof fn search_keys_differ(a: SearchCategory, b: SearchCategory)
    requires
        a.key() == b.key(),
    ensures
        a == b,
{
    reveal_strlit("TRACK");
    reveal_strlit("ARTIST");
    reveal_strlit("ALBUM");
    reveal_strlit("PLAYLIST");
    reveal_strlit("SHOW");
    reveal_strlit("EPISODE");
    reveal_strlit("USER");
    assert("TRACK"@[0] == 'T' && "ALBUM"@[0] == 'A' && "SHOW"@[0] == 'S' && "USER"@[0] == 'U');
    assert("TRACK"@.len() == 5 && "ARTIST"@.len() == 6 && "ALBUM"@.len() == 5 && "PLAYLIST"@.len()
        == 8 && "SHOW"@.len() == 4 && "EPISODE"@.len() == 7 && "USER"@.len() == 4);
}

/// Favorites category filter.
#[derive(Debug, Clone, Copy, PartialEq, Eq, Structural)]
pub enum FavoritesCategory {
    RecentlyPlayed,
    Tracks,
    Artists,
    Albums,
    Playlists,
    Following,
}

impl Default for FavoritesCategory {
    fn default() -> (r: Self)
        ensures
            r == FavoritesCategory::RecentlyPlayed,
    {
        FavoritesCategory::RecentlyPlayed
    }
}

impl FavoritesCategory {
    /// How many there are.
    pub const COUNT: usize = 6;

    /// The one at place `i` of the list, which wraps around.
    pub open spec fn nth(i: int) -> FavoritesCategory {
        if i % 6 == 0 {
            FavoritesCategory::RecentlyPlayed
        } else if i % 6 == 1 {
            FavoritesCategory::Tracks
        } else if i % 6 == 2 {
            FavoritesCategory::Artists
        } else if i % 6 == 3 {
            FavoritesCategory::Albums
        } else if i % 6 == 4 {
            FavoritesCategory::Playlists
        } else {
            FavoritesCategory::Following
        }
    }

    /// Its place in the list.
    pub open spec fn place(self) -> int {
        match self {
            FavoritesCategory::RecentlyPlayed => 0,
            FavoritesCategory::Tracks => 1,
            FavoritesCategory::Artists => 2,
            FavoritesCategory::Albums => 3,
            FavoritesCategory::Playlists => 4,
            FavoritesCategory::Following => 5,
        }
    }

    /// The one at place `i` of the list.
    pub fn at(i: usize) -> (r: Option<FavoritesCategory>)
        ensures
            r == (if i < 6 {
                Some(FavoritesCategory::nth(i as int))
            } else {
                None
            }),
    {
        if i == 0 {
            Some(FavoritesCategory::RecentlyPlayed)
        } else if i == 1 {
            Some(FavoritesCategory::Tracks)
        } else if i == 2 {
            Some(FavoritesCategory::Artists)
        } else if i == 3 {
            Some(FavoritesCategory::Albums)
        } else if i == 4 {
            Some(FavoritesCategory::Playlists)
        } else if i == 5 {
            Some(FavoritesCategory::Following)
        } else {
            None
        }
    }

    /// Its place in the list.
    pub fn position(&self) -> (r: usize)
        ensures
            r == self.place(),
            r < 6,
    {
        match self {
            FavoritesCategory::RecentlyPlayed => 0,
            FavoritesCategory::Tracks => 1,
            FavoritesCategory::Artists => 2,
            FavoritesCategory::Albums => 3,
            FavoritesCategory::Playlists => 4,
            FavoritesCategory::Following => 5,
        }
    }
}

/// Offline content category filter.
#[derive(Debug, Clone, Copy, PartialEq, Eq, Structural)]
pub enum OfflineCategory {
    Tracks,
    Albums,
    Playlists,
}

impl Default for OfflineCategory {
    fn default() -> (r: Self)
        ensures
            r == OfflineCategory::Tracks,
    {
        OfflineCategory::Tracks
    }
}

impl OfflineCategory {
    /// How many there are.
    pub const COUNT: usize = 3;

    /// The one at place `i` of the list, which wraps around.
    pub open spec fn nth(i: int) -> OfflineCategory {
        if i % 3 == 0 {
            OfflineCategory::Tracks
        } else if i % 3 == 1 {
            OfflineCategory::Albums
        } else {
            OfflineCategory::Playlists
        }
    }

    /// Its place in the list.
    pub open spec fn place(self) -> int {
        match self {
            OfflineCategory::Tracks => 0,
            OfflineCategory::Albums => 1,
            OfflineCategory::Playlists => 2,
        }
    }

    /// The one at place `i` of the list.
    pub fn at(i: usize) -> (r: Option<OfflineCategory>)
        ensures
            r == (if i < 3 {
                Some(OfflineCategory::nth(i as int))
            } else {
                None
            }),
    {
        if i == 0 {
            Some(OfflineCategory::Tracks)
        } else if i == 1 {
            Some(OfflineCategory::Albums)
        } else if i == 2 {
            Some(OfflineCategory::Playlists)
        } else {
            None
        }
    }

    /// Its place in the list.
    pub fn position(&self) -> (r: usize)
        ensures
            r == self.place(),
            r < 3,
    {
        match self {
            OfflineCategory::Tracks => 0,
            OfflineCategory::Albums => 1,
            OfflineCategory::Playlists => 2,
        }
    }
}

/// A music genre for display.
#[derive(Debug)]
pub struct GenreItem {
    pub id: u64,
    pub name: String,
}

impl Clone for GenreItem {
    fn clone(&self) -> (r: Self)
        ensures
            r == *self,
    {
        GenreItem {
            id: self.id,
            name: self.name.clone(),
        }
    }
}

/// A radio station for display.
#[derive(Debug)]
pub struct RadioItem {
    pub id: u64,
    pub title: String,
}

impl Clone for RadioItem {
    fn clone(&self) -> (r: Self)
        ensures
            r == *self,
    {
        RadioItem {
            id: self.id,
            title: self.title.clone(),
        }
    }
}

/// A mood channel for display.
#[derive(Debug)]
pub struct MoodEntry {
    pub id: String,
    pub title: String,
    pub target: String,
    pub radio_id: Option<u64>,
}

impl Clone for MoodEntry {
    fn clone(&self) -> (r: Self)
        ensures
            r == *self,
    {
        MoodEntry {
            id: self.id.clone(),
            title: self.title.clone(),
            target: self.target.clone(),
            radio_id: self.radio_id,
        }
    }
}

/// Detail pages that the player remembers across client reconnections. Only
/// pages that show data loaded by the player belong here.
#[derive(Debug, Clone, Copy, PartialEq, Eq, Structural)]
pub enum NavOverlay {
    ArtistDetail,
    AlbumDetail { from_artist: bool },
    PlaylistDetail,
    GenreDetail,
}

/// Commands sent from the terminal client to the player.
#[derive(Debug)]
pub enum Command {
    /// Request a full state snapshot.
    GetSnapshot,
    /// Login with ARL token.
    Login { arl: String },
    /// Search for tracks.
    Search { query: String },
    /// Play track at index from search results.
    PlayFromSearch { index: usize },
    /// Play track at index of the new releases.
    PlayFromNewReleases { index: usize },
    /// Play track at index from favorites.
    PlayFromFavorites { index: usize },
    /// Toggle play/pause.
    TogglePause,
    /// Next track in queue.
    NextTrack,
    /// Previous track in queue.
    PrevTrack,
    /// Set the volume, in thousandths (0 - 1000).
    SetVolume { volume: u32 },
    /// Seek forward by a number of seconds in the current track.
    SeekForward { secs: u64 },
    /// Seek backward by a number of seconds in the current track.
    SeekBackward { secs: u64 },
    /// Seek to an absolute position (seconds) in the current track.
    SeekAbsolute { secs: u64 },
    /// Stop playback entirely (clears current track, resets position).
    Stop,
    /// Toggle shuffle mode.
    ToggleShuffle,
    /// Cycle repeat mode (Off -> Queue -> Track -> Off).
    CycleRepeat,
    /// Load favorites from Deezer.
    LoadFavorites,
    /// Navigate list selection up.
    SelectUp,
    /// Navigate list selection down.
    SelectDown,
    /// Switch to next tab.
    NextTab,
    /// Switch to previous tab.
    PrevTab,
    /// Switch to next category within current tab.
    NextCategory,
    /// Switch to previous category within current tab.
    PrevCategory,
    /// Switch directly to a tab (mouse click on the tab bar).
    SetTab { tab: ActiveTab },
    /// Switch directly to a category of the current tab, by index into its
    /// `ALL` list (mouse click on the category menu).
    SetCategory { index: usize },
    /// Set the current tab's list selection directly (mouse click on a row).
    SelectIndex { index: usize },
    /// Play favorites in shuffle mode.
    ShuffleFavorites,
    /// Add a track to favorites.
    AddFavorite { track_id: String },
    /// Remove a track from favorites.
    RemoveFavorite { track_id: String },
    /// Add an artist to favorites.
    AddFavoriteArtist { artist_id: String },
    /// Remove an artist from favorites.
    RemoveFavoriteArtist { artist_id: String },
    /// Add an album to favorites.
    AddFavoriteAlbum { album_id: String },
    /// Remove an album from favorites.
    RemoveFavoriteAlbum { album_id: String },
    /// Request the user's playlists (for playlist picker).
    RequestPlaylists,
    /// Add a track to a playlist.
    AddToPlaylist {
        playlist_id: String,
        track_id: String,
    },
    /// Remove a track from a playlist (requires user to own the playlist).
    RemoveFromPlaylist {
        playlist_id: String,
        track_id: String,
    },
    /// Create a new playlist and add a track to it.
    CreatePlaylistAndAdd { title: String, track_id: String },
    /// Rename an existing playlist.
    RenamePlaylist {
        playlist_id: String,
        new_title: String,
    },
    /// Delete a playlist (owner only).
    DeletePlaylist { playlist_id: String },
    /// Mark a track as disliked (don't recommend).
    DislikeTrack { track_id: String },
    /// Insert a track to play next in the queue.
    PlayNext { track: TrackData },
    /// Append a track to the end of the queue.
    AddToQueue { track: TrackData },
    /// Start a mix inspired by a track.
    StartMix { track_id: String },
    /// Start Deezer Flow (personalized radio).
    StartFlow,
    /// Jump to and play a specific track in the queue by index.
    PlayFromQueue { index: usize },
    /// Remove a track from the queue by index.
    RemoveFromQueue { index: usize },
    /// Load album detail (tracks, metadata).
    GetAlbumDetail { album_id: String },
    /// Play a track from the album detail view.
    PlayFromAlbum { index: usize },
    /// Load artist detail (top tracks, albums).
    GetArtistDetail { artist_id: String },
    /// Play a track from the artist detail top tracks.
    PlayFromArtist { index: usize },
    /// Open an album from the artist detail albums list.
    OpenArtistAlbum { index: usize },
    /// Load playlist detail (tracks, metadata).
    GetPlaylistDetail { playlist_id: String },
    /// Play a track from the playlist detail view.
    PlayFromPlaylist { index: usize },
    /// Load a podcast show's episode list.
    GetShowDetail { show_id: String },
    /// Logout — clear ARL, return to login screen.
    Logout,
    /// Load radio stations from Deezer.
    LoadRadios,
    /// Play the selected radio station's tracks.
    PlayFromRadio { index: usize },
    /// Load the mood channels list from Deezer.
    LoadMoods,
    /// Play the selected mood (resolves tracks via the API).
    PlayFromMood { index: usize },
    /// Load music genres/categories from Deezer.
    LoadGenres,
    /// Load the detail (chart + radios) of a specific genre.
    GetGenreDetail { genre_id: u64, name: String },
    /// Play a track from the genre detail Tracks sub-tab.
    PlayFromGenreTrack { index: usize },
    /// Play a radio from the genre detail Radios sub-tab.
    PlayFromGenreRadio { index: usize },
    /// Download a track for offline mode.
    DownloadOffline { track: TrackData },
    /// Download an entire album for offline mode.
    DownloadAlbumOffline { album_id: String },
    /// Download an entire playlist for offline mode.
    DownloadPlaylistOffline { playlist_id: String },
    /// Remove a track from offline storage.
    RemoveOfflineTrack { track_id: String },
    /// Remove an album from offline storage.
    RemoveOfflineAlbum { album_id: String },
    /// Remove a playlist from offline storage.
    RemoveOfflinePlaylist { playlist_id: String },
    /// Play a track from offline storage.
    PlayFromOffline { index: usize },
    /// Play a track from an offline album (queue = album tracks).
    PlayOfflineAlbum {
        album_id: String,
        track_index: usize,
    },
    /// Play a track from an offline playlist (queue = playlist tracks).
    PlayOfflinePlaylist {
        playlist_id: String,
        track_index: usize,
    },
    /// Push a navigation overlay onto the daemon-side stack.
    PushNavOverlay(NavOverlay),
    /// Pop the top navigation overlay from the daemon-side stack.
    PopNavOverlay,
    /// Clear the entire navigation overlay stack (e.g. when entering a new top-level detail).
    ClearNavOverlayStack,
    /// Change the preferred audio quality (persisted to config). Takes effect on next track.
    SetQuality { quality: AudioQuality },
    /// Graceful shutdown — daemon exits.
    Shutdown,
}

/// Complete state of the player, as the terminal client gets it.
#[derive(Debug)]
pub struct DaemonSnapshot {
    pub screen: Screen,
    pub active_tab: ActiveTab,
    pub status: PlaybackStatus,
    pub current_track: Option<TrackData>,
    pub quality: AudioQuality,
    pub position_secs: u64,
    pub duration_secs: u64,
    pub volume: u32,
    pub shuffle: bool,
    pub repeat: RepeatMode,
    pub queue: Vec<TrackData>,
    pub queue_index: usize,
    pub search_results: Vec<TrackData>,
    pub search_selected: usize,
    pub search_loading: bool,
    pub search_category: SearchCategory,
    pub search_display: Vec<DisplayItem>,
    pub new_releases: Vec<DisplayItem>,
    pub new_releases_selected: usize,
    pub new_releases_loading: bool,
    pub favorites: Vec<TrackData>,
    pub favorites_selected: usize,
    pub favorites_loading: bool,
    pub favorites_category: FavoritesCategory,
    pub favorites_display: Vec<DisplayItem>,
    pub favorite_track_ids: Vec<String>,
    pub favorite_artist_ids: Vec<String>,
    pub favorite_album_ids: Vec<String>,
    pub offline_category: OfflineCategory,
    pub offline_tracks: Vec<OfflineTrack>,
    pub offline_albums: Vec<AlbumDetail>,
    pub offline_playlists: Vec<PlaylistDetail>,
    pub offline_selected: usize,
    pub offline_loading: bool,
    pub offline_track_ids: Vec<String>,
    pub explore_category: ExploreCategory,
    pub radios: Vec<RadioItem>,
    pub radios_selected: usize,
    pub radios_loading: bool,
    pub moods: Vec<MoodEntry>,
    pub moods_selected: usize,
    pub moods_loading: bool,
    pub genres: Vec<GenreItem>,
    pub genres_selected: usize,
    pub genres_loading: bool,
    pub playlists: Vec<PlaylistData>,
    pub album_detail: Option<AlbumDetail>,
    pub album_detail_selected: usize,
    pub album_detail_loading: bool,
    pub artist_detail: Option<ArtistDetail>,
    pub artist_detail_selected: usize,
    pub artist_detail_loading: bool,
    pub artist_detail_sub_tab: ArtistSubTab,
    pub playlist_detail: Option<PlaylistDetail>,
    pub playlist_detail_selected: usize,
    pub playlist_detail_loading: bool,
    pub genre_detail: Option<GenreDetail>,
    pub genre_detail_loading: bool,
    pub nav_overlay: Option<NavOverlay>,
    pub nav_overlay_stack: Vec<NavOverlay>,
    pub status_msg: Option<Notice>,
    pub login_error: Option<String>,
    pub login_loading: bool,
    pub user_name: Option<String>,
    pub is_offline: bool,
}

impl Default for DaemonSnapshot {
    fn default() -> (r: Self)
        ensures
            r.screen == Screen::Login,
            r.active_tab == ActiveTab::Search,
            r.status == PlaybackStatus::Stopped,
            r.current_track is None,
            r.quality == AudioQuality::Mp3_128,
            r.position_secs == 0,
            r.duration_secs == 0,
            r.volume == 800,
            !r.shuffle,
            r.repeat == RepeatMode::Off,
            r.queue@.len() == 0,
            r.queue_index == 0,
            r.search_results@.len() == 0,
            r.search_selected == 0,
            !r.search_loading,
            r.search_category == SearchCategory::Track,
            r.search_display@.len() == 0,
            r.new_releases@.len() == 0,
            r.new_releases_selected == 0,
            !r.new_releases_loading,
            r.favorites@.len() == 0,
            r.favorites_selected == 0,
            !r.favorites_loading,
            r.favorites_category == FavoritesCategory::RecentlyPlayed,
            r.favorites_display@.len() == 0,
            r.favorite_track_ids@.len() == 0,
            r.favorite_artist_ids@.len() == 0,
            r.favorite_album_ids@.len() == 0,
            r.offline_category == OfflineCategory::Tracks,
            r.offline_tracks@.len() == 0,
            r.offline_albums@.len() == 0,
            r.offline_playlists@.len() == 0,
            r.offline_selected == 0,
            !r.offline_loading,
            r.offline_track_ids@.len() == 0,
            r.explore_category == ExploreCategory::Moods,
            r.radios@.len() == 0,
            r.radios_selected == 0,
            !r.radios_loading,
            r.moods@.len() == 0,
            r.moods_selected == 0,
            !r.moods_loading,
            r.genres@.len() == 0,
            r.genres_selected == 0,
            !r.genres_loading,
            r.playlists@.len() == 0,
            r.album_detail is None,
            r.album_detail_selected == 0,
            !r.album_detail_loading,
            r.artist_detail is None,
            r.artist_detail_selected == 0,
            !r.artist_detail_loading,
            r.artist_detail_sub_tab == ArtistSubTab::TopTracks,
            r.playlist_detail is None,
            r.playlist_detail_selected == 0,
            !r.playlist_detail_loading,
            r.genre_detail is None,
            !r.genre_detail_loading,
            r.nav_overlay is None,
            r.nav_overlay_stack@.len() == 0,
            r.status_msg is None,
            r.login_error is None,
            !r.login_loading,
            r.user_name is None,
            !r.is_offline,
    {
        DaemonSnapshot {
            screen: Screen::Login,
            active_tab: ActiveTab::Search,
            status: PlaybackStatus::Stopped,
            current_track: None,
            quality: AudioQuality::Mp3_128,
            position_secs: 0,
            duration_secs: 0,
            volume: 800,
            shuffle: false,
            repeat: RepeatMode::Off,
            queue: Vec::new(),
            queue_index: 0,
            search_results: Vec::new(),
            search_selected: 0,
            search_loading: false,
            search_category: SearchCategory::Track,
            search_display: Vec::new(),
            new_releases: Vec::new(),
            new_releases_selected: 0,
            new_releases_loading: false,
            favorites: Vec::new(),
            favorites_selected: 0,
            favorites_loading: false,
            favorites_category: FavoritesCategory::RecentlyPlayed,
            favorites_display: Vec::new(),
            favorite_track_ids: Vec::new(),
            favorite_artist_ids: Vec::new(),
            favorite_album_ids: Vec::new(),
            offline_category: OfflineCategory::Tracks,
            offline_tracks: Vec::new(),
            offline_albums: Vec::new(),
            offline_playlists: Vec::new(),
            offline_selected: 0,
            offline_loading: false,
            offline_track_ids: Vec::new(),
            explore_category: ExploreCategory::Moods,
            radios: Vec::new(),
            radios_selected: 0,
            radios_loading: false,
            moods: Vec::new(),
            moods_selected: 0,
            moods_loading: false,
            genres: Vec::new(),
            genres_selected: 0,
            genres_loading: false,
            playlists: Vec::new(),
            album_detail: None,
            album_detail_selected: 0,
            album_detail_loading: false,
            artist_detail: None,
            artist_detail_selected: 0,
            artist_detail_loading: false,
            artist_detail_sub_tab: ArtistSubTab::TopTracks,
            playlist_detail: None,
            playlist_detail_selected: 0,
            playlist_detail_loading: false,
            genre_detail: None,
            genre_detail_loading: false,
            nav_overlay: None,
            nav_overlay_stack: Vec::new(),
            status_msg: None,
            login_error: None,
            login_loading: false,
            user_name: None,
            is_offline: false,
        }
    }
}

/// Messages sent from the player to the terminal client.
#[derive(Debug)]
pub enum ServerMessage {
    /// Full state snapshot.
    Snapshot(Box<DaemonSnapshot>),
    /// Error message.
    Error(String),
}

/// The directory that holds the player's files: the configuration directory,
/// or the temporary one where there is none.
pub open spec fn runtime_dir(config_dir: Option<Seq<char>>) -> Seq<char> {
    match config_dir {
        Some(d) => d,
        None => "/tmp"@,
    }
}

/// A file's path under a directory.
pub open spec fn under(dir: Seq<char>, file: Seq<char>) -> Seq<char> {
    if dir.len() == 0 || dir.last() == '/' {
        dir + file
    } else {
        dir + seq!['/'] + file
    }
}

/// The path of `file` under `dir`.
fn path_under(dir: &str, file: &str) -> (r: String)
    ensures
        r@ == under(dir@, file@),
{
    let n: usize = dir.unicode_len();
    if n == 0 || dir.get_char(n - 1) == '/' {
        joined(dir, file)
    } else {
        let mut out: String = String::new();
        out.append(dir);
        out.append("/");
        out.append(file);
        proof {
            reveal_strlit("/");
            assert("/"@ =~= seq!['/']);
            assert(Seq::<char>::empty() + dir@ =~= dir@);
        }
        out
    }
}

/// Path of the player's socket, given the configuration directory.
pub fn socket_path(config_dir: Option<&str>) -> (r: String)
    ensures
        r@ == under(
            runtime_dir(
                match config_dir {
                    Some(d) => Some(d@),
                    None => None,
                },
            ),
            "daemon.sock"@,
        ),
{
    match config_dir {
        Some(d) => path_under(d, "daemon.sock"),
        None => path_under("/tmp", "daemon.sock"),
    }
}

/// Path of the player's process id file, given the configuration directory.
pub fn pid_path(config_dir: Option<&str>) -> (r: String)
    ensures
        r@ == under(
            runtime_dir(
                match config_dir {
                    Some(d) => Some(d@),
                    None => None,
                },
            ),
            "daemon.pid"@,
        ),
{
    match config_dir {
        Some(d) => path_under(d, "daemon.pid"),
        None => path_under("/tmp", "daemon.pid"),
    }
}

} // verus!
