//! Tracks, playlists, albums, artists: the service's data as plain values.

use vstd::prelude::*;

use crate::seqs;
use crate::seqs::HasId;
use crate::text;
use crate::text::{format_time, same_text};

verus! {

/// Audio quality of a stream.
#[derive(Debug, Clone, Copy, PartialEq, Eq, Structural)]
pub enum AudioQuality {
    Mp3_128,
    Mp3_320,
    Flac,
}

impl Default for AudioQuality {
    fn default() -> (r: Self)
        ensures
            r == AudioQuality::Mp3_128,
    {
        AudioQuality::Mp3_128
    }
}

/// Sub-pages of an artist's page.
#[derive(Debug, Clone, Copy, PartialEq, Eq, Structural)]
pub enum ArtistSubTab {
    TopTracks,
    Albums,
    Lives,
    Other,
    Similar,
}

impl Default for ArtistSubTab {
    fn default() -> (r: Self)
        ensures
            r == ArtistSubTab::TopTracks,
    {
        ArtistSubTab::TopTracks
    }
}

/// A track, with what is needed to play it.
#[derive(Debug)]
pub struct TrackData {
    /// Service id; negative for the user's own uploads.
    pub track_id: String,
    pub title: String,
    pub artist: String,
    pub album: String,
    /// Length in seconds.
    pub duration: u64,
    /// Hash naming the album's cover.
    pub album_picture: String,
    pub artist_id: Option<String>,
    pub album_id: Option<String>,
    /// Token that the media service asks for.
    pub track_token: Option<String>,
    pub md5_origin: String,
    /// Address of an unencrypted stream (podcast episodes).
    pub stream_url: Option<String>,
    /// Id of the track that stands in when this one cannot be streamed.
    pub fallback_id: Option<String>,
}

impl Clone for TrackData {
    fn clone(&self) -> (r: Self)
        ensures
            r == *self,
    {
        TrackData {
            track_id: self.track_id.clone(),
            title: self.title.clone(),
            artist: self.artist.clone(),
            album: self.album.clone(),
            duration: self.duration,
            album_picture: self.album_picture.clone(),
            artist_id: self.artist_id.clone(),
            album_id: self.album_id.clone(),
            track_token: self.track_token.clone(),
            md5_origin: self.md5_origin.clone(),
            stream_url: self.stream_url.clone(),
            fallback_id: self.fallback_id.clone(),
        }
    }
}

/// A row of a result list.
#[derive(Debug)]
pub struct DisplayItem {
    pub col1: String,
    pub col2: String,
    pub col3: String,
    pub col4: String,
    /// The track of a playable row.
    pub track: Option<TrackData>,
    pub album_id: Option<String>,
    pub playlist_id: Option<String>,
    pub artist_id: Option<String>,
    pub show_id: Option<String>,
}

impl Clone for DisplayItem {
    fn clone(&self) -> (r: Self)
        ensures
            r == *self,
    {
        DisplayItem {
            col1: self.col1.clone(),
            col2: self.col2.clone(),
            col3: self.col3.clone(),
            col4: self.col4.clone(),
            track: self.track.clone(),
            album_id: self.album_id.clone(),
            playlist_id: self.playlist_id.clone(),
            artist_id: self.artist_id.clone(),
            show_id: self.show_id.clone(),
        }
    }
}

/// A playlist, without its tracks.
#[derive(Debug)]
pub struct PlaylistData {
    pub playlist_id: String,
    pub title: String,
    pub nb_songs: u64,
    pub author: String,
    pub collaborative: bool,
}

impl Clone for PlaylistData {
    fn clone(&self) -> (r: Self)
        ensures
            r == *self,
    {
        PlaylistData {
            playlist_id: self.playlist_id.clone(),
            title: self.title.clone(),
            nb_songs: self.nb_songs,
            author: self.author.clone(),
            collaborative: self.collaborative,
        }
    }
}

/// An album, without its tracks.
#[derive(Debug)]
pub struct AlbumData {
    pub album_id: String,
    pub title: String,
    pub artist: String,
    pub nb_tracks: u64,
    pub release_date: String,
    pub nb_fan: u64,
}

impl Clone for AlbumData {
    fn clone(&self) -> (r: Self)
        ensures
            r == *self,
    {
        AlbumData {
            album_id: self.album_id.clone(),
            title: self.title.clone(),
            artist: self.artist.clone(),
            nb_tracks: self.nb_tracks,
            release_date: self.release_date.clone(),
            nb_fan: self.nb_fan,
        }
    }
}

/// An artist.
#[derive(Debug)]
pub struct ArtistData {
    pub artist_id: String,
    pub name: String,
    pub nb_fan: u64,
}

impl Clone for ArtistData {
    fn clone(&self) -> (r: Self)
        ensures
            r == *self,
    {
        ArtistData {
            artist_id: self.artist_id.clone(),
            name: self.name.clone(),
            nb_fan: self.nb_fan,
        }
    }
}

/// A radio station.
#[derive(Debug)]
pub struct RadioData {
    pub id: u64,
    pub title: String,
}

impl Clone for RadioData {
    fn clone(&self) -> (r: Self)
        ensures
            r == *self,
    {
        RadioData {
            id: self.id,
            title: self.title.clone(),
        }
    }
}

/// A music genre.
#[derive(Debug)]
pub struct GenreData {
    pub id: u64,
    pub name: String,
}

impl Clone for GenreData {
    fn clone(&self) -> (r: Self)
        ensures
            r == *self,
    {
        GenreData {
            id: self.id,
            name: self.name.clone(),
        }
    }
}

/// A mood channel.
#[derive(Debug)]
pub struct MoodItem {
    pub id: String,
    pub title: String,
    pub target: String,
    /// Station that plays the mood, when the mood is a radio.
    pub radio_id: Option<u64>,
}

impl Clone for MoodItem {
    fn clone(&self) -> (r: Self)
        ensures
            r == *self,
    {
        MoodItem {
            id: self.id.clone(),
            title: self.title.clone(),
            target: self.target.clone(),
            radio_id: self.radio_id,
        }
    }
}

/// An album on an artist's page.
#[derive(Debug)]
pub struct ArtistAlbumEntry {
    pub album_id: String,
    pub title: String,
    pub release_date: String,
    pub fans: u64,
    pub record_type: String,
    pub cover_url: String,
}

impl Clone for ArtistAlbumEntry {
    fn clone(&self) -> (r: Self)
        ensures
            r == *self,
    {
        ArtistAlbumEntry {
            album_id: self.album_id.clone(),
            title: self.title.clone(),
            release_date: self.release_date.clone(),
            fans: self.fans,
            record_type: self.record_type.clone(),
            cover_url: self.cover_url.clone(),
        }
    }
}

/// A similar artist on an artist's page.
#[derive(Debug)]
pub struct SimilarArtistEntry {
    pub artist_id: String,
    pub name: String,
    pub nb_fan: u64,
}

impl Clone for SimilarArtistEntry {
    fn clone(&self) -> (r: Self)
        ensures
            r == *self,
    {
        SimilarArtistEntry {
            artist_id: self.artist_id.clone(),
            name: self.name.clone(),
            nb_fan: self.nb_fan,
        }
    }
}

/// A downloaded track.
#[derive(Debug)]
pub struct OfflineTrack {
    pub track: TrackData,
    pub quality: AudioQuality,
}

impl Clone for OfflineTrack {
    fn clone(&self) -> (r: Self)
        ensures
            r == *self,
    {
        OfflineTrack {
            track: self.track.clone(),
            quality: self.quality,
        }
    }
}

/// An album with its tracks.
#[derive(Debug)]
pub struct AlbumDetail {
    pub album_id: String,
    pub title: String,
    pub artist: String,
    pub nb_tracks: u64,
    pub release_date: String,
    pub cover_url: String,
    pub label: String,
    pub tracks: Vec<TrackData>,
}

/// What a [`AlbumDetail`] holds.
pub struct AlbumDetailView {
    pub album_id: String,
    pub title: String,
    pub artist: String,
    pub nb_tracks: u64,
    pub release_date: String,
    pub cover_url: String,
    pub label: String,
    pub tracks: Seq<TrackData>,
}

impl View for AlbumDetail {
    type V = AlbumDetailView;

    open spec fn view(&self) -> AlbumDetailView {
        AlbumDetailView {
            album_id: self.album_id,
            title: self.title,
            artist: self.artist,
            nb_tracks: self.nb_tracks,
            release_date: self.release_date,
            cover_url: self.cover_url,
            label: self.label,
            tracks: self.tracks@,
        }
    }
}

impl Clone for AlbumDetail {
    fn clone(&self) -> (r: Self)
        ensures
            r@ == self@,
    {
        AlbumDetail {
            album_id: self.album_id.clone(),
            title: self.title.clone(),
            artist: self.artist.clone(),
            nb_tracks: self.nb_tracks,
            release_date: self.release_date.clone(),
            cover_url: self.cover_url.clone(),
            label: self.label.clone(),
            tracks: self.tracks.clone(),
        }
    }
}

/// An artist's page.
#[derive(Debug)]
pub struct ArtistDetail {
    pub artist_id: String,
    pub name: String,
    pub nb_fan: u64,
    pub picture_url: String,
    pub top_tracks: Vec<TrackData>,
    pub albums: Vec<ArtistAlbumEntry>,
    pub similar_artists: Vec<SimilarArtistEntry>,
}

/// What a [`ArtistDetail`] holds.
pub struct ArtistDetailView {
    pub artist_id: String,
    pub name: String,
    pub nb_fan: u64,
    pub picture_url: String,
    pub top_tracks: Seq<TrackData>,
    pub albums: Seq<ArtistAlbumEntry>,
    pub similar_artists: Seq<SimilarArtistEntry>,
}

impl View for ArtistDetail {
    type V = ArtistDetailView;

    open spec fn view(&self) -> ArtistDetailView {
        ArtistDetailView {
            artist_id: self.artist_id,
            name: self.name,
            nb_fan: self.nb_fan,
            picture_url: self.picture_url,
            top_tracks: self.top_tracks@,
            albums: self.albums@,
            similar_artists: self.similar_artists@,
        }
    }
}

impl Clone for ArtistDetail {
    fn clone(&self) -> (r: Self)
        ensures
            r@ == self@,
    {
        ArtistDetail {
            artist_id: self.artist_id.clone(),
            name: self.name.clone(),
            nb_fan: self.nb_fan,
            picture_url: self.picture_url.clone(),
            top_tracks: self.top_tracks.clone(),
            albums: self.albums.clone(),
            similar_artists: self.similar_artists.clone(),
        }
    }
}

/// A playlist with its tracks.
#[derive(Debug)]
pub struct PlaylistDetail {
    pub playlist_id: String,
    pub title: String,
    pub creator: String,
    pub nb_tracks: u64,
    pub tracks: Vec<TrackData>,
}

/// What a [`PlaylistDetail`] holds.
pub struct PlaylistDetailView {
    pub playlist_id: String,
    pub title: String,
    pub creator: String,
    pub nb_tracks: u64,
    pub tracks: Seq<TrackData>,
}

impl View for PlaylistDetail {
    type V = PlaylistDetailView;

    open spec fn view(&self) -> PlaylistDetailView {
        PlaylistDetailView {
            playlist_id: self.playlist_id,
            title: self.title,
            creator: self.creator,
            nb_tracks: self.nb_tracks,
            tracks: self.tracks@,
        }
    }
}

impl Clone for PlaylistDetail {
    fn clone(&self) -> (r: Self)
        ensures
            r@ == self@,
    {
        PlaylistDetail {
            playlist_id: self.playlist_id.clone(),
            title: self.title.clone(),
            creator: self.creator.clone(),
            nb_tracks: self.nb_tracks,
            tracks: self.tracks.clone(),
        }
    }
}

/// The content of a genre.
#[derive(Debug)]
pub struct GenreDetail {
    pub genre_id: u64,
    pub name: String,
    pub tracks: Vec<TrackData>,
    pub albums: Vec<AlbumData>,
    pub artists: Vec<ArtistData>,
    pub playlists: Vec<PlaylistData>,
    pub radios: Vec<RadioData>,
}

/// What a [`GenreDetail`] holds.
pub struct GenreDetailView {
    pub genre_id: u64,
    pub name: String,
    pub tracks: Seq<TrackData>,
    pub albums: Seq<AlbumData>,
    pub artists: Seq<ArtistData>,
    pub playlists: Seq<PlaylistData>,
    pub radios: Seq<RadioData>,
}

impl View for GenreDetail {
    type V = GenreDetailView;

    open spec fn view(&self) -> GenreDetailView {
        GenreDetailView {
            genre_id: self.genre_id,
            name: self.name,
            tracks: self.tracks@,
            albums: self.albums@,
            artists: self.artists@,
            playlists: self.playlists@,
            radios: self.radios@,
        }
    }
}

impl Clone for GenreDetail {
    fn clone(&self) -> (r: Self)
        ensures
            r@ == self@,
    {
        GenreDetail {
            genre_id: self.genre_id,
            name: self.name.clone(),
            tracks: self.tracks.clone(),
            albums: self.albums.clone(),
            artists: self.artists.clone(),
            playlists: self.playlists.clone(),
            radios: self.radios.clone(),
        }
    }
}

// ── Text views ──────────────────────────────────────────────────────

/// The characters of an optional text.
pub open spec fn opt_text(o: Option<String>) -> Option<Seq<char>> {
    match o {
        Some(s) => Some(s@),
        None => None,
    }
}

/// Whether an optional text is there and reads `want`.
pub fn opt_is(o: &Option<String>, want: &str) -> (r: bool)
    ensures
        r == (opt_text(*o) == Some(want@)),
{
    match o {
        Some(s) => same_text(s, want),
        None => false,
    }
}

/// What a [`DisplayItem`] shows and points at.
pub struct DisplayItemView {
    pub col1: Seq<char>,
    pub col2: Seq<char>,
    pub col3: Seq<char>,
    pub col4: Seq<char>,
    pub track: Option<TrackData>,
    pub album_id: Option<Seq<char>>,
    pub playlist_id: Option<Seq<char>>,
    pub artist_id: Option<Seq<char>>,
    pub show_id: Option<Seq<char>>,
}

impl View for DisplayItem {
    type V = DisplayItemView;

    open spec fn view(&self) -> DisplayItemView {
        DisplayItemView {
            col1: self.col1@,
            col2: self.col2@,
            col3: self.col3@,
            col4: self.col4@,
            track: self.track,
            album_id: opt_text(self.album_id),
            playlist_id: opt_text(self.playlist_id),
            artist_id: opt_text(self.artist_id),
            show_id: opt_text(self.show_id),
        }
    }
}

/// What a list of rows shows.
pub open spec fn rows_of(s: Seq<DisplayItem>) -> Seq<DisplayItemView> {
    s.map_values(|d: DisplayItem| d@)
}

// ── Qualities and sub-pages ─────────────────────────────────────────

impl AudioQuality {
    /// How many qualities there are to pick from.
    pub const COUNT: usize = 3;

    /// The quality at a place of the quality list.
    pub open spec fn nth(i: int) -> AudioQuality {
        if i == 0 {
            AudioQuality::Mp3_128
        } else if i == 1 {
            AudioQuality::Mp3_320
        } else {
            AudioQuality::Flac
        }
    }

    /// The quality at place `i` of the quality list.
    pub fn at(i: usize) -> (r: Option<AudioQuality>)
        ensures
            r == (if i < 3 {
                Some(AudioQuality::nth(i as int))
            } else {
                None
            }),
    {
        if i == 0 {
            Some(AudioQuality::Mp3_128)
        } else if i == 1 {
            Some(AudioQuality::Mp3_320)
        } else if i == 2 {
            Some(AudioQuality::Flac)
        } else {
            None
        }
    }

    /// Where this quality stands in the quality list.
    pub open spec fn place(self) -> int {
        match self {
            AudioQuality::Mp3_128 => 0,
            AudioQuality::Mp3_320 => 1,
            AudioQuality::Flac => 2,
        }
    }

    /// Where this quality stands in the quality list.
    pub fn position(&self) -> (r: usize)
        ensures
            r == self.place(),
            r < 3,
            AudioQuality::nth(r as int) == *self,
    {
        match self {
            AudioQuality::Mp3_128 => 0,
            AudioQuality::Mp3_320 => 1,
            AudioQuality::Flac => 2,
        }
    }

    /// Name of the quality in the media service.
    pub open spec fn api_format(self) -> Seq<char> {
        match self {
            AudioQuality::Mp3_128 => "MP3_128"@,
            AudioQuality::Mp3_320 => "MP3_320"@,
            AudioQuality::Flac => "FLAC"@,
        }
    }

    /// Name of the quality in the media service.
    pub fn as_api_format(&self) -> (r: &'static str)
        ensures
            r@ == self.api_format(),
    {
        match self {
            AudioQuality::Mp3_128 => "MP3_128",
            AudioQuality::Mp3_320 => "MP3_320",
            AudioQuality::Flac => "FLAC",
        }
    }
}

impl ArtistSubTab {
    /// The sub-page at a place of the sub-page list, which wraps around.
    pub open spec fn nth(i: int) -> ArtistSubTab {
        if i % 5 == 0 {
            ArtistSubTab::TopTracks
        } else if i % 5 == 1 {
            ArtistSubTab::Albums
        } else if i % 5 == 2 {
            ArtistSubTab::Lives
        } else if i % 5 == 3 {
            ArtistSubTab::Other
        } else {
            ArtistSubTab::Similar
        }
    }

    /// Where this sub-page stands in the sub-page list.
    pub open spec fn place(self) -> int {
        match self {
            ArtistSubTab::TopTracks => 0,
            ArtistSubTab::Albums => 1,
            ArtistSubTab::Lives => 2,
            ArtistSubTab::Other => 3,
            ArtistSubTab::Similar => 4,
        }
    }

    /// The sub-page at place `i` of the sub-page list.
    pub fn at(i: usize) -> (r: Option<ArtistSubTab>)
        ensures
            r == (if i < 5 {
                Some(ArtistSubTab::nth(i as int))
            } else {
                None
            }),
    {
        if i == 0 {
            Some(ArtistSubTab::TopTracks)
        } else if i == 1 {
            Some(ArtistSubTab::Albums)
        } else if i == 2 {
            Some(ArtistSubTab::Lives)
        } else if i == 3 {
            Some(ArtistSubTab::Other)
        } else if i == 4 {
            Some(ArtistSubTab::Similar)
        } else {
            None
        }
    }

    /// The sub-page after this one, wrapping around.
    pub fn next(&self) -> (r: ArtistSubTab)
        ensures
            r == ArtistSubTab::nth(self.place() + 1),
    {
        match self {
            ArtistSubTab::TopTracks => ArtistSubTab::Albums,
            ArtistSubTab::Albums => ArtistSubTab::Lives,
            ArtistSubTab::Lives => ArtistSubTab::Other,
            ArtistSubTab::Other => ArtistSubTab::Similar,
            ArtistSubTab::Similar => ArtistSubTab::TopTracks,
        }
    }

    /// The sub-page before this one, wrapping around.
    pub fn prev(&self) -> (r: ArtistSubTab)
        ensures
            r == ArtistSubTab::nth(self.place() + 4),
    {
        match self {
            ArtistSubTab::TopTracks => ArtistSubTab::Similar,
            ArtistSubTab::Albums => ArtistSubTab::TopTracks,
            ArtistSubTab::Lives => ArtistSubTab::Albums,
            ArtistSubTab::Other => ArtistSubTab::Lives,
            ArtistSubTab::Similar => ArtistSubTab::Other,
        }
    }
}

/// Going to the next sub-page and back leads to the same sub-page.
pub proof fn artist_sub_tabs_go_round(tab: ArtistSubTab)
    ensures
        ArtistSubTab::nth(ArtistSubTab::nth(tab.place() + 1).place() + 4) == tab,
        ArtistSubTab::nth(ArtistSubTab::nth(tab.place() + 4).place() + 1) == tab,
{
}

// ── Tracks ──────────────────────────────────────────────────────────

impl TrackData {
    /// The track carries a token for the media service.
    pub open spec fn token_present(self) -> bool {
        self.track_token matches Some(t) && t@.len() > 0
    }

    /// Whether the track carries a token for the media service.
    pub fn has_track_token(&self) -> (r: bool)
        ensures
            r == self.token_present(),
    {
        match &self.track_token {
            Some(t) => !t.as_str().is_empty(),
            None => false,
        }
    }

    /// Length of the track in seconds.
    pub fn duration_secs(&self) -> (r: u64)
        ensures
            r == self.duration,
    {
        self.duration
    }

    /// An upload of the user's own: its id is negative.
    pub open spec fn uploaded(self) -> bool {
        self.track_id@.len() > 0 && self.track_id@[0] == '-'
    }

    /// Whether the track is an upload of the user's own.
    pub fn is_user_uploaded(&self) -> (r: bool)
        ensures
            r == self.uploaded(),
    {
        let id: &str = self.track_id.as_str();
        !id.is_empty() && id.get_char(0) == '-'
    }

    /// Address of the unencrypted stream of a podcast episode.
    pub fn direct_stream_url(&self) -> (r: Option<&String>)
        ensures
            r == (match self.stream_url {
                Some(u) => Some(&u),
                None => None,
            }),
    {
        match &self.stream_url {
            Some(u) => Some(u),
            None => None,
        }
    }

    /// This track's stream under the id and credits of `other`.
    pub open spec fn identified_as(self, other: TrackData) -> TrackData {
        TrackData {
            track_id: other.track_id,
            title: other.title,
            artist: other.artist,
            album: other.album,
            album_picture: other.album_picture,
            artist_id: other.artist_id,
            album_id: other.album_id,
            ..self
        }
    }

    /// This track's stream under the id and credits of `other`, so that a
    /// stand-in stays invisible to the listener.
    pub fn with_identity_of(self, other: &TrackData) -> (r: TrackData)
        ensures
            r == self.identified_as(*other),
    {
        let shown: TrackData = other.clone();
        TrackData {
            track_id: shown.track_id,
            title: shown.title,
            artist: shown.artist,
            album: shown.album,
            album_picture: shown.album_picture,
            artist_id: shown.artist_id,
            album_id: shown.album_id,
            ..self
        }
    }
}

/// The ids of the tracks of a list.
pub open spec fn ids_of(s: Seq<TrackData>) -> Seq<String> {
    s.map_values(|t: TrackData| t.track_id)
}

/// The ids of the tracks of a list, in order.
pub fn track_ids(s: &Vec<TrackData>) -> (r: Vec<String>)
    ensures
        r@ == ids_of(s@),
{
    let n: usize = s.len();
    let mut out: Vec<String> = Vec::new();
    let mut i: usize = 0;
    while i < n
        invariant
            i <= n,
            n == s@.len(),
            out@ == ids_of(s@.take(i as int)),
        decreases n - i,
    {
        out.push(s[i].track_id.clone());
        proof {
            assert(ids_of(s@.take(i + 1)) =~= ids_of(s@.take(i as int)).push(s@[i as int].track_id));
        }
        i = i + 1;
    }
    proof {
        assert(s@.take(n as int) =~= s@);
    }
    out
}

// ── Rows ────────────────────────────────────────────────────────────

/// The row of a track: title, artist, album, length.
pub open spec fn row_of_track(t: TrackData) -> DisplayItemView {
    DisplayItemView {
        col1: t.title@,
        col2: t.artist@,
        col3: t.album@,
        col4: text::clock_text(t.duration as nat),
        track: Some(t),
        album_id: None,
        playlist_id: None,
        artist_id: None,
        show_id: None,
    }
}

/// The rows of a list of tracks.
pub open spec fn rows_of_tracks(s: Seq<TrackData>) -> Seq<DisplayItemView> {
    s.map_values(|t: TrackData| row_of_track(t))
}

impl DisplayItem {
    /// The row of a track.
    pub fn from_track(track: &TrackData) -> (r: DisplayItem)
        ensures
            r@ == row_of_track(*track),
    {
        DisplayItem {
            col1: track.title.clone(),
            col2: track.artist.clone(),
            col3: track.album.clone(),
            col4: format_time(track.duration),
            track: Some(track.clone()),
            album_id: None,
            playlist_id: None,
            artist_id: None,
            show_id: None,
        }
    }
}

/// The rows of a list of tracks, in order.
pub fn track_rows(s: &Vec<TrackData>) -> (r: Vec<DisplayItem>)
    ensures
        rows_of(r@) == rows_of_tracks(s@),
        r@.len() == s@.len(),
{
    let n: usize = s.len();
    let mut out: Vec<DisplayItem> = Vec::new();
    let mut i: usize = 0;
    while i < n
        invariant
            i <= n,
            n == s@.len(),
            out@.len() == i,
            forall|k: int| 0 <= k < i ==> (#[trigger] out@[k])@ == row_of_track(s@[k]),
        decreases n - i,
    {
        out.push(DisplayItem::from_track(&s[i]));
        i = i + 1;
    }
    proof {
        assert(rows_of(out@) =~= rows_of_tracks(s@));
    }
    out
}

/// The tracks of the playable rows, in order.
pub open spec fn playable_of(s: Seq<DisplayItemView>) -> Seq<TrackData>
    decreases s.len(),
{
    if s.len() == 0 {
        Seq::empty()
    } else {
        let init = playable_of(s.drop_last());
        match s.last().track {
            Some(t) => init.push(t),
            None => init,
        }
    }
}

/// The tracks of the playable rows of a list.
pub fn playable_tracks(s: &Vec<DisplayItem>) -> (r: Vec<TrackData>)
    ensures
        r@ == playable_of(rows_of(s@)),
{
    let n: usize = s.len();
    let mut out: Vec<TrackData> = Vec::new();
    let mut i: usize = 0;
    let ghost rows = rows_of(s@);
    while i < n
        invariant
            i <= n,
            n == s@.len(),
            rows == rows_of(s@),
            out@ == playable_of(rows.take(i as int)),
        decreases n - i,
    {
        proof {
            assert(rows.take(i + 1).drop_last() =~= rows.take(i as int));
            assert(rows.take(i + 1).last() == s@[i as int]@);
        }
        match &s[i].track {
            Some(t) => {
                out.push(t.clone());
            },
            None => {},
        }
        i = i + 1;
    }
    proof {
        assert(rows.take(n as int) =~= rows);
    }
    out
}

/// A playable row's track is among the playable tracks.
pub proof fn playable_has_row(s: Seq<DisplayItemView>, i: int)
    requires
        0 <= i < s.len(),
        s[i].track is Some,
    ensures
        playable_of(s).contains(s[i].track->0),
        seqs::listed(playable_of(s), s[i].track->0.track_id@),
        playable_of(s).len() > 0,
    decreases s.len(),
{
    let rest = playable_of(s.drop_last());
    let all = playable_of(s);
    if i == s.len() - 1 {
        assert(all[all.len() - 1] == s[i].track->0);
        assert(all[all.len() - 1].id_of() == s[i].track->0.track_id@);
    } else {
        playable_has_row(s.drop_last(), i);
        let k = choose|k: int| 0 <= k < rest.len() && rest[k] == s[i].track->0;
        assert(all[k] == rest[k]);
        assert(all[k].id_of() == s[i].track->0.track_id@);
    }
}

impl PlaylistDetailView {
    /// The playlist without a track.
    pub open spec fn without_track(self, track_id: Seq<char>) -> PlaylistDetailView {
        let tracks = seqs::others(self.tracks, track_id);
        PlaylistDetailView { tracks, nb_tracks: tracks.len() as u64, ..self }
    }
}

impl PlaylistDetail {
    /// Takes a track out of the playlist.
    pub fn drop_track(&mut self, track_id: &str)
        ensures
            final(self)@ == old(self)@.without_track(track_id@),
    {
        let mut list: Vec<TrackData> = Vec::new();
        std::mem::swap(&mut list, &mut self.tracks);
        self.tracks = seqs::drop_id(list, track_id);
        self.nb_tracks = self.tracks.len() as u64;
    }
}

/// There are no more playable tracks than rows.
pub proof fn playable_is_no_longer(s: Seq<DisplayItemView>)
    ensures
        playable_of(s).len() <= s.len(),
    decreases s.len(),
{
    if s.len() > 0 {
        playable_is_no_longer(s.drop_last());
    }
}

// ── Artist pages ────────────────────────────────────────────────────

/// Which sub-page of the artist's page lists a record of this type.
pub open spec fn tab_of_record(record_type: Seq<char>) -> ArtistSubTab {
    if record_type == "album"@ {
        ArtistSubTab::Albums
    } else if record_type == "live"@ {
        ArtistSubTab::Lives
    } else {
        ArtistSubTab::Other
    }
}

/// The albums that a sub-page lists.
pub open spec fn albums_in_tab(s: Seq<ArtistAlbumEntry>, tab: ArtistSubTab) -> Seq<
    ArtistAlbumEntry,
> {
    s.filter(|a: ArtistAlbumEntry| tab_of_record(a.record_type@) == tab)
}

/// Which sub-page lists a record of this type.
fn record_tab(record_type: &str) -> (r: ArtistSubTab)
    ensures
        r == tab_of_record(record_type@),
{
    if same_text(record_type, "album") {
        ArtistSubTab::Albums
    } else if same_text(record_type, "live") {
        ArtistSubTab::Lives
    } else {
        ArtistSubTab::Other
    }
}

impl ArtistDetail {
    /// The albums that a sub-page of the artist's page lists.
    pub fn albums_for_tab(&self, tab: ArtistSubTab) -> (r: Vec<ArtistAlbumEntry>)
        ensures
            r@ == albums_in_tab(self.albums@, tab),
    {
        let n: usize = self.albums.len();
        let mut out: Vec<ArtistAlbumEntry> = Vec::new();
        let mut i: usize = 0;
        proof {
            reveal(Seq::filter);
        }
        while i < n
            invariant
                i <= n,
                n == self.albums@.len(),
                out@ == albums_in_tab(self.albums@.take(i as int), tab),
            decreases n - i,
        {
            proof {
                reveal(Seq::filter);
                assert(self.albums@.take(i + 1).drop_last() =~= self.albums@.take(i as int));
            }
            if record_tab(&self.albums[i].record_type) == tab {
                out.push(self.albums[i].clone());
            }
            i = i + 1;
        }
        proof {
            assert(self.albums@.take(n as int) =~= self.albums@);
        }
        out
    }
}

/// The row of a track shows its title, artist, album and length, and plays it.
pub proof fn rows_show_their_track(t: TrackData)
    ensures
        ({
            let row = row_of_track(t);
            &&& row.col1 == t.title@
            &&& row.col2 == t.artist@
            &&& row.col3 == t.album@
            &&& row.col4 == text::clock_text(t.duration as nat)
            &&& row.track == Some(t)
            &&& row.album_id is None && row.playlist_id is None && row.artist_id is None
                && row.show_id is None
        }),
{
}

/// Uploads of the user's own are told by the minus before their id.
pub proof fn uploads_have_a_minus(t: TrackData)
    ensures
        t.uploaded() <==> (t.track_id@.len() > 0 && t.track_id@[0] == '-'),
        t.token_present() <==> (t.track_token is Some && t.track_token->0@.len() > 0),
{
}

/// Qualities stand in the list from the plainest to the best, each at its own
/// place and under its own name.
pub proof fn qualities_have_their_places_and_names(a: AudioQuality, b: AudioQuality)
    ensures
        AudioQuality::Mp3_128.place() < AudioQuality::Mp3_320.place()
            < AudioQuality::Flac.place(),
        AudioQuality::nth(a.place()) == a,
        a.api_format() == b.api_format() ==> a == b,
        AudioQuality::Flac.api_format() == "FLAC"@,
        AudioQuality::Mp3_320.api_format() == "MP3_320"@,
        AudioQuality::Mp3_128.api_format() == "MP3_128"@,
{
    reveal_strlit("MP3_128");
    reveal_strlit("MP3_320");
    reveal_strlit("FLAC");
    assert("MP3_128"@[4] != "MP3_320"@[4]);
    assert("FLAC"@.len() != "MP3_320"@.len());
    assert("FLAC"@.len() != "MP3_128"@.len());
}

/// An artist's records are listed by kind: albums, live records, and the others.
pub proof fn records_are_listed_by_kind(s: Seq<ArtistAlbumEntry>, i: int)
    requires
        0 <= i < s.len(),
    ensures
        s[i].record_type@ == "album"@ ==> albums_in_tab(s, ArtistSubTab::Albums).contains(s[i]),
        s[i].record_type@ == "live"@ ==> albums_in_tab(s, ArtistSubTab::Lives).contains(s[i]),
        s[i].record_type@ != "album"@ && s[i].record_type@ != "live"@ ==> albums_in_tab(
            s,
            ArtistSubTab::Other,
        ).contains(s[i]),
{
    reveal_strlit("album");
    reveal_strlit("live");
    assert("album"@.len() != "live"@.len());
    let tab = tab_of_record(s[i].record_type@);
    let test = |a: ArtistAlbumEntry| tab_of_record(a.record_type@) == tab;
    seqs::what_passes_is_left(s, test);
    assert(test(s[i]));
    assert(albums_in_tab(s, tab) == s.filter(test));
}

} // verus!
