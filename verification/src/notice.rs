//! Notifications: which message is shown, with the words and numbers it holds.
//! Turning one into a sentence of the user's language is left to the program.

use vstd::prelude::*;

use crate::text::same_text;

verus! {

/// Which message a notification is.
#[derive(Debug, Clone, Copy, PartialEq, Eq, Structural)]
pub enum NoticeKind {
    /// Logging in.
    Connecting,
    /// Logged in; the detail is the user's name.
    ConnectedAs,
    /// Fetching the decryption key.
    FetchingKey,
    /// The player is ready.
    Ready,
    /// There is no connection.
    NoInternet,
    /// The decryption key is not there yet.
    PlayerNotReady,
    /// Something is loading.
    Loading,
    /// A mix is loading.
    LoadingMix,
    /// Flow is loading.
    LoadingFlow,
    /// An album is loading.
    LoadingAlbum,
    /// An artist is loading.
    LoadingArtist,
    /// A playlist is loading.
    LoadingPlaylist,
    /// A station's tracks are loading.
    LoadingRadioTracks,
    /// A download has started.
    DownloadingTrack,
    /// A download goes on; the count is the percentage.
    DownloadProgress,
    /// A track was put next in the queue.
    PlayNext,
    /// A track was put at the end of the queue.
    AddedToQueue,
    /// A search ended; the count is the number of results.
    Results,
    /// A list was loaded; the count is its length.
    Loaded,
    /// The playlists were loaded; the count is their number.
    PlaylistsLoaded,
    /// The stations were loaded; the count is their number.
    RadiosLoaded,
    /// The moods were loaded; the count is their number.
    MoodsLoaded,
    /// The genres were loaded; the count is their number.
    GenresLoaded,
    /// A genre was loaded; the detail is its name.
    GenreDetailLoaded,
    /// A mix starts; the count is the number of tracks.
    MixTracks,
    /// Flow goes on; the count is the number of tracks.
    FlowTracks,
    /// A station starts; the count is the number of tracks.
    RadioTracks,
    /// An album was loaded: its title, and how many tracks it has.
    AlbumTracks,
    /// An artist was loaded: the name, and how many top tracks there are.
    ArtistTracks,
    /// A playlist was loaded: its title, and how many tracks it has.
    PlaylistTracks,
    /// A mix came back empty.
    NoMixTracks,
    /// Flow came back empty.
    NoFlowTracks,
    /// A station came back empty.
    NoRadioTracks,
    /// No downloaded track is left in the queue.
    NoOfflineTrack,
    /// Something was added to the favorites.
    AddedToFavorites,
    /// Something was removed from the favorites.
    RemovedFromFavorites,
    /// A track was added to a playlist.
    AddedToPlaylist,
    /// The track is in the playlist already.
    AlreadyInPlaylist,
    /// A track was removed from a playlist.
    RemovedFromPlaylist,
    /// A playlist was created.
    PlaylistCreated,
    /// A playlist was renamed.
    PlaylistRenamed,
    /// A playlist was deleted.
    PlaylistDeleted,
    /// A track will not be recommended again.
    TrackDisliked,
    /// A track is stored for offline use.
    TrackSavedOffline,
    /// An album is stored for offline use.
    AlbumSavedOffline,
    /// A playlist is stored for offline use.
    PlaylistSavedOffline,
    /// Something was dropped from offline storage.
    RemovedOffline,
    /// The audio output could not be opened.
    AudioInitError,
    /// The decryption key could not be fetched.
    KeyError,
    /// A search failed.
    SearchError,
    /// The favorites could not be loaded.
    FavoritesError,
    /// A favorite could not be changed.
    FavoriteError,
    /// The playlists could not be loaded.
    PlaylistsError,
    /// A track could not be added to a playlist.
    AddToPlaylistError,
    /// A track could not be removed from a playlist.
    RemoveFromPlaylistError,
    /// A playlist could not be created.
    PlaylistCreateError,
    /// A playlist could not be renamed.
    PlaylistRenameError,
    /// A playlist could not be deleted.
    PlaylistDeleteError,
    /// A track could not be disliked.
    DislikeError,
    /// A mix could not be loaded.
    MixError,
    /// Flow could not be loaded.
    FlowError,
    /// An album could not be loaded.
    AlbumError,
    /// An artist could not be loaded.
    ArtistError,
    /// A playlist could not be loaded.
    PlaylistError,
    /// The stations could not be loaded.
    RadiosError,
    /// A station's tracks could not be loaded.
    RadioTracksError,
    /// The moods could not be loaded.
    MoodsError,
    /// The genres could not be loaded.
    GenresError,
    /// A genre could not be loaded.
    GenreDetailError,
    /// The new releases could not be loaded.
    NewReleasesError,
    /// A download failed.
    OfflineDownloadError,
    /// A track could not be decoded.
    PlaybackError,
    /// A track could not be fetched.
    TrackError,
    /// The connection to the player is gone.
    DaemonDisconnected,
    /// The player reports an error.
    ServerError,
    /// A message of the player could not be read.
    CommunicationError,
    /// A link was copied.
    LinkCopied,
    /// A link could not be copied.
    ClipboardError,
    /// The album of a track is not known.
    NoAlbumInfo,
    /// An update is being downloaded.
    UpdateDownloading,
    /// An update could not be installed.
    UpdateFailed,
}

/// A notification.
#[derive(Debug)]
pub struct Notice {
    pub kind: NoticeKind,
    /// A name, a title or an error's text; empty where the message has none.
    pub detail: String,
    /// A number of things; zero where the message has none.
    pub count: u64,
}

/// What a [`Notice`] says.
pub struct NoticeView {
    pub kind: NoticeKind,
    pub detail: Seq<char>,
    pub count: nat,
}

impl View for Notice {
    type V = NoticeView;

    open spec fn view(&self) -> NoticeView {
        NoticeView { kind: self.kind, detail: self.detail@, count: self.count as nat }
    }
}

impl Clone for Notice {
    fn clone(&self) -> (r: Self)
        ensures
            r == *self,
    {
        Notice { kind: self.kind, detail: self.detail.clone(), count: self.count }
    }
}

/// A message without words or numbers of its own.
pub open spec fn plain(kind: NoticeKind) -> NoticeView {
    NoticeView { kind, detail: Seq::empty(), count: 0 }
}

/// A message about a name, a title or an error.
pub open spec fn about(kind: NoticeKind, detail: Seq<char>) -> NoticeView {
    NoticeView { kind, detail, count: 0 }
}

/// A message that counts things.
pub open spec fn counting(kind: NoticeKind, count: nat) -> NoticeView {
    NoticeView { kind, detail: Seq::empty(), count }
}

/// What an optional notification says.
pub open spec fn opt_notice(n: Option<Notice>) -> Option<NoticeView> {
    match n {
        Some(n) => Some(n@),
        None => None,
    }
}

impl Notice {
    /// A message without words or numbers of its own.
    pub fn plain(kind: NoticeKind) -> (r: Notice)
        ensures
            r@ == plain(kind),
    {
        Notice { kind, detail: String::new(), count: 0 }
    }

    /// A message about a name, a title or an error.
    pub fn about(kind: NoticeKind, detail: String) -> (r: Notice)
        ensures
            r@ == about(kind, detail@),
    {
        Notice { kind, detail, count: 0 }
    }

    /// A message that counts things.
    pub fn counting(kind: NoticeKind, count: usize) -> (r: Notice)
        ensures
            r@ == counting(kind, count as nat),
    {
        Notice { kind, detail: String::new(), count: count as u64 }
    }

    /// A message with a title and a count.
    pub fn titled(kind: NoticeKind, detail: String, count: usize) -> (r: Notice)
        ensures
            r@ == (NoticeView { kind, detail: detail@, count: count as nat }),
    {
        Notice { kind, detail, count: count as u64 }
    }
}

/// Whether two optional notifications say the same.
pub fn same_notice(a: &Option<Notice>, b: &Option<Notice>) -> (r: bool)
    ensures
        r == (opt_notice(*a) == opt_notice(*b)),
{
    match (a, b) {
        (Some(x), Some(y)) => x.kind == y.kind && same_text(&x.detail, &y.detail) && x.count == y.count,
        (None, None) => true,
        _ => false,
    }
}

} // verus!
