//! What is kept on disk: downloads for offline use, and the favorites cache.

use vstd::prelude::*;

use crate::models;
use crate::models::{
    AlbumDetail, AlbumDetailView, AudioQuality, DisplayItem, DisplayItemView, OfflineTrack,
    PlaylistDetail, PlaylistDetailView, TrackData,
};
use crate::protocol::MoodEntry;
use crate::seqs;
use crate::seqs::{contains_id, drop_id, HasId};

verus! {

// ── Downloads ───────────────────────────────────────────────────────

/// The downloaded tracks, albums and playlists.
#[derive(Debug)]
pub struct OfflineIndex {
    pub tracks: Vec<OfflineTrack>,
    pub albums: Vec<AlbumDetail>,
    pub playlists: Vec<PlaylistDetail>,
}

/// What an [`OfflineIndex`] lists.
pub struct OfflineView {
    pub tracks: Seq<OfflineTrack>,
    pub albums: Seq<AlbumDetailView>,
    pub playlists: Seq<PlaylistDetailView>,
}

impl View for OfflineIndex {
    type V = OfflineView;

    open spec fn view(&self) -> OfflineView {
        OfflineView {
            tracks: self.tracks@,
            albums: seqs::views(self.albums@),
            playlists: seqs::views(self.playlists@),
        }
    }
}

/// The test for another album.
pub open spec fn other_album(id: Seq<char>) -> spec_fn(AlbumDetailView) -> bool {
    |a: AlbumDetailView| a.album_id@ != id
}

/// The test for another playlist.
pub open spec fn other_playlist(id: Seq<char>) -> spec_fn(PlaylistDetailView) -> bool {
    |p: PlaylistDetailView| p.playlist_id@ != id
}

/// The album list without the album of this id.
pub open spec fn other_albums(s: Seq<AlbumDetailView>, id: Seq<char>) -> Seq<AlbumDetailView> {
    s.filter(other_album(id))
}

/// The playlist list without the playlist of this id.
pub open spec fn other_playlists(s: Seq<PlaylistDetailView>, id: Seq<char>) -> Seq<
    PlaylistDetailView,
> {
    s.filter(other_playlist(id))
}

/// An album of this id is listed.
pub open spec fn album_listed(s: Seq<AlbumDetailView>, id: Seq<char>) -> bool {
    exists|i: int| 0 <= i < s.len() && (#[trigger] s[i]).album_id@ == id
}

/// A track of this id is among the tracks of one of the albums or playlists.
pub open spec fn grouped(v: OfflineView, id: Seq<char>) -> bool {
    ||| exists|i: int| 0 <= i < v.albums.len() && seqs::listed((#[trigger] v.albums[i]).tracks, id)
    ||| exists|i: int|
        0 <= i < v.playlists.len() && seqs::listed((#[trigger] v.playlists[i]).tracks, id)
}

impl OfflineView {
    /// A track of this id is downloaded.
    pub open spec fn has_track(self, id: Seq<char>) -> bool {
        seqs::listed(self.tracks, id)
    }

    /// The downloads with this track among them.
    pub open spec fn with_track(self, track: TrackData, quality: AudioQuality) -> OfflineView {
        OfflineView {
            tracks: seqs::others(self.tracks, track.track_id@).push(
                OfflineTrack { track, quality },
            ),
            ..self
        }
    }

    /// The downloads with every track of the list that was missing.
    pub open spec fn with_missing(self, tracks: Seq<TrackData>, quality: AudioQuality) -> OfflineView
        decreases tracks.len(),
    {
        if tracks.len() == 0 {
            self
        } else {
            let before = self.with_missing(tracks.drop_last(), quality);
            if before.has_track(tracks.last().track_id@) {
                before
            } else {
                before.with_track(tracks.last(), quality)
            }
        }
    }

    /// The downloads with this album among them.
    pub open spec fn with_album(self, album: AlbumDetailView) -> OfflineView {
        OfflineView { albums: other_albums(self.albums, album.album_id@).push(album), ..self }
    }

    /// The downloads with this playlist among them.
    pub open spec fn with_playlist(self, playlist: PlaylistDetailView) -> OfflineView {
        OfflineView {
            playlists: other_playlists(self.playlists, playlist.playlist_id@).push(playlist),
            ..self
        }
    }

    /// The tracks that are listed on their own: those that no downloaded album
    /// or playlist covers.
    pub open spec fn standalone(self) -> Seq<OfflineTrack> {
        self.tracks.filter(|t: OfflineTrack| !grouped(self, t.track.track_id@))
    }
}

/// The tracks of downloaded tracks, in order.
pub open spec fn plain_tracks(s: Seq<OfflineTrack>) -> Seq<TrackData> {
    s.map_values(|t: OfflineTrack| t.track)
}

fn tracks_in(s: &Vec<OfflineTrack>) -> (r: Vec<TrackData>)
    ensures
        r@ == plain_tracks(s@),
{
    let n: usize = s.len();
    let mut out: Vec<TrackData> = Vec::new();
    let mut i: usize = 0;
    while i < n
        invariant
            i <= n,
            n == s@.len(),
            out@.len() == i,
            forall|k: int| 0 <= k < i ==> #[trigger] out@[k] == s@[k].track,
        decreases n - i,
    {
        out.push(s[i].track.clone());
        i = i + 1;
    }
    proof {
        assert(out@ =~= plain_tracks(s@));
    }
    out
}

impl OfflineIndex {
    /// An index that lists nothing.
    pub fn new() -> (r: OfflineIndex)
        ensures
            r@ == (OfflineView {
                tracks: Seq::empty(),
                albums: Seq::empty(),
                playlists: Seq::empty(),
            }),
    {
        let r: OfflineIndex = OfflineIndex {
            tracks: Vec::new(),
            albums: Vec::new(),
            playlists: Vec::new(),
        };
        proof {
            assert(r@.albums =~= Seq::empty());
            assert(r@.playlists =~= Seq::empty());
        }
        r
    }

    /// Whether a track of this id is downloaded.
    pub fn has_track(&self, id: &str) -> (r: bool)
        ensures
            r == self@.has_track(id@),
    {
        contains_id(&self.tracks, id)
    }

    /// Whether an album of this id is downloaded.
    pub fn has_album(&self, id: &str) -> (r: bool)
        ensures
            r == album_listed(self@.albums, id@),
    {
        let r: bool = contains_id(&self.albums, id);
        proof {
            let s = self.albums@;
            if seqs::listed(s, id@) {
                let i = choose|i: int| 0 <= i < s.len() && (#[trigger] s[i]).id_of() == id@;
                assert(self@.albums[i].album_id@ == id@);
            }
            if album_listed(self@.albums, id@) {
                let i = choose|i: int|
                    0 <= i < self@.albums.len() && (#[trigger] self@.albums[i]).album_id@ == id@;
                assert(s[i].id_of() == id@);
            }
        }
        r
    }

    /// Adds a track; an older entry of the same id is replaced.
    pub fn add_track(&mut self, track: TrackData, quality: AudioQuality)
        ensures
            final(self)@ == old(self)@.with_track(track, quality),
    {
        let mut list: Vec<OfflineTrack> = Vec::new();
        std::mem::swap(&mut list, &mut self.tracks);
        let mut list: Vec<OfflineTrack> = drop_id(list, &track.track_id);
        list.push(OfflineTrack { track, quality });
        self.tracks = list;
    }

    /// Adds every track of the list that is not there yet.
    pub fn add_missing(&mut self, tracks: &Vec<TrackData>, quality: AudioQuality)
        ensures
            final(self)@ == old(self)@.with_missing(tracks@, quality),
    {
        let ghost before = self@;
        let n: usize = tracks.len();
        let mut i: usize = 0;
        while i < n
            invariant
                i <= n,
                n == tracks@.len(),
                self@ == before.with_missing(tracks@.take(i as int), quality),
            decreases n - i,
        {
            proof {
                assert(tracks@.take(i + 1).drop_last() =~= tracks@.take(i as int));
            }
            if !self.has_track(&tracks[i].track_id) {
                self.add_track(tracks[i].clone(), quality);
            }
            i = i + 1;
        }
        proof {
            assert(tracks@.take(n as int) =~= tracks@);
        }
    }

    /// Adds an album; an older entry of the same id is replaced.
    pub fn add_album(&mut self, album: AlbumDetail)
        ensures
            final(self)@ == old(self)@.with_album(album@),
    {
        let ghost was = self.albums@;
        let mut list: Vec<AlbumDetail> = Vec::new();
        std::mem::swap(&mut list, &mut self.albums);
        let mut list: Vec<AlbumDetail> = drop_id(list, &album.album_id);
        proof {
            other_albums_of(was, album.album_id@);
        }
        let ghost kept = list@;
        let ghost new = album;
        list.push(album);
        proof {
            assert(seqs::views(list@) =~= seqs::views(kept).push(new@));
        }
        self.albums = list;
    }

    /// Adds a playlist; an older entry of the same id is replaced.
    pub fn add_playlist(&mut self, playlist: PlaylistDetail)
        ensures
            final(self)@ == old(self)@.with_playlist(playlist@),
    {
        let ghost was = self.playlists@;
        let mut list: Vec<PlaylistDetail> = Vec::new();
        std::mem::swap(&mut list, &mut self.playlists);
        let mut list: Vec<PlaylistDetail> = drop_id(list, &playlist.playlist_id);
        proof {
            other_playlists_of(was, playlist.playlist_id@);
        }
        let ghost kept = list@;
        let ghost new = playlist;
        list.push(playlist);
        proof {
            assert(seqs::views(list@) =~= seqs::views(kept).push(new@));
        }
        self.playlists = list;
    }

    /// Drops the track of this id.
    pub fn remove_track(&mut self, id: &str)
        ensures
            final(self)@ == (OfflineView {
                tracks: seqs::others(old(self)@.tracks, id@),
                ..old(self)@
            }),
    {
        let mut list: Vec<OfflineTrack> = Vec::new();
        std::mem::swap(&mut list, &mut self.tracks);
        self.tracks = drop_id(list, id);
    }

    /// Drops the album of this id.
    pub fn remove_album(&mut self, id: &str)
        ensures
            final(self)@ == (OfflineView {
                albums: other_albums(old(self)@.albums, id@),
                ..old(self)@
            }),
    {
        proof {
            other_albums_of(self.albums@, id@);
        }
        let mut list: Vec<AlbumDetail> = Vec::new();
        std::mem::swap(&mut list, &mut self.albums);
        self.albums = drop_id(list, id);
    }

    /// Drops the playlist of this id.
    pub fn remove_playlist(&mut self, id: &str)
        ensures
            final(self)@ == (OfflineView {
                playlists: other_playlists(old(self)@.playlists, id@),
                ..old(self)@
            }),
    {
        proof {
            other_playlists_of(self.playlists@, id@);
        }
        let mut list: Vec<PlaylistDetail> = Vec::new();
        std::mem::swap(&mut list, &mut self.playlists);
        self.playlists = drop_id(list, id);
    }

    /// The tracks that are listed on their own, ready to be queued.
    pub fn standalone_queue(&self) -> (r: Vec<TrackData>)
        ensures
            r@ == plain_tracks(self@.standalone()),
    {
        let listed: Vec<OfflineTrack> = self.standalone_tracks();
        tracks_in(&listed)
    }

    /// The ids of the downloaded tracks, in order.
    pub fn track_ids(&self) -> (r: Vec<String>)
        ensures
            r@ == models::ids_of(plain_tracks(self@.tracks)),
    {
        let tracks: Vec<TrackData> = tracks_in(&self.tracks);
        models::track_ids(&tracks)
    }

    /// Whether one of the downloaded albums or playlists covers the track.
    pub fn is_grouped(&self, id: &str) -> (r: bool)
        ensures
            r == grouped(self@, id@),
    {
        let n: usize = self.albums.len();
        let mut i: usize = 0;
        while i < n
            invariant
                i <= n,
                n == self.albums@.len(),
                forall|k: int| 0 <= k < i ==> !seqs::listed((#[trigger] self@.albums[k]).tracks, id@),
            decreases n - i,
        {
            if contains_id(&self.albums[i].tracks, id) {
                proof {
                    assert(seqs::listed(self@.albums[i as int].tracks, id@));
                }
                return true;
            }
            i = i + 1;
        }
        let m: usize = self.playlists.len();
        let mut j: usize = 0;
        while j < m
            invariant
                j <= m,
                m == self.playlists@.len(),
                forall|k: int|
                    0 <= k < j ==> !seqs::listed((#[trigger] self@.playlists[k]).tracks, id@),
            decreases m - j,
        {
            if contains_id(&self.playlists[j].tracks, id) {
                proof {
                    assert(seqs::listed(self@.playlists[j as int].tracks, id@));
                }
                return true;
            }
            j = j + 1;
        }
        false
    }

    /// The tracks that are listed on their own.
    pub fn standalone_tracks(&self) -> (r: Vec<OfflineTrack>)
        ensures
            r@ == self@.standalone(),
    {
        let ghost test = |t: OfflineTrack| !grouped(self@, t.track.track_id@);
        let n: usize = self.tracks.len();
        let mut out: Vec<OfflineTrack> = Vec::new();
        let mut i: usize = 0;
        proof {
            reveal(Seq::filter);
        }
        while i < n
            invariant
                i <= n,
                n == self.tracks@.len(),
                test == (|t: OfflineTrack| !grouped(self@, t.track.track_id@)),
                out@ == self.tracks@.take(i as int).filter(test),
            decreases n - i,
        {
            proof {
                reveal(Seq::filter);
                assert(self.tracks@.take(i + 1).drop_last() =~= self.tracks@.take(i as int));
            }
            if !self.is_grouped(&self.tracks[i].track.track_id) {
                out.push(self.tracks[i].clone());
            }
            i = i + 1;
        }
        proof {
            assert(self.tracks@.take(n as int) =~= self.tracks@);
        }
        out
    }

    /// The tracks of the downloaded album of this id.
    pub fn album_tracks(&self, id: &str) -> (r: Option<Vec<TrackData>>)
        ensures
            match r {
                Some(t) => find_album(self@.albums, id@) matches Some(a) && t@ == a.tracks,
                None => find_album(self@.albums, id@) is None,
            },
    {
        let n: usize = self.albums.len();
        let ghost all = self@.albums;
        let mut i: usize = 0;
        proof {
            assert(all.skip(0) =~= all);
        }
        while i < n
            invariant
                i <= n,
                n == self.albums@.len(),
                all == self@.albums,
                find_album(all, id@) == find_album(all.skip(i as int), id@),
            decreases n - i,
        {
            proof {
                assert(all.skip(i as int)[0] == self.albums@[i as int]@);
                assert(all.skip(i as int).skip(1) =~= all.skip(i + 1));
            }
            if self.albums[i].has_the_id(id) {
                return Some(self.albums[i].tracks.clone());
            }
            i = i + 1;
        }
        None
    }

    /// The tracks of the downloaded playlist of this id.
    pub fn playlist_tracks(&self, id: &str) -> (r: Option<Vec<TrackData>>)
        ensures
            match r {
                Some(t) => find_playlist(self@.playlists, id@) matches Some(p) && t@ == p.tracks,
                None => find_playlist(self@.playlists, id@) is None,
            },
    {
        match lookup_playlist(&self.playlists, id) {
            Some(p) => Some(p.tracks),
            None => None,
        }
    }
}

/// The first album of this id.
pub open spec fn find_album(s: Seq<AlbumDetailView>, id: Seq<char>) -> Option<AlbumDetailView>
    decreases s.len(),
{
    if s.len() == 0 {
        None
    } else if s[0].album_id@ == id {
        Some(s[0])
    } else {
        find_album(s.skip(1), id)
    }
}

/// The first playlist of this id.
pub open spec fn find_playlist(s: Seq<PlaylistDetailView>, id: Seq<char>) -> Option<
    PlaylistDetailView,
>
    decreases s.len(),
{
    if s.len() == 0 {
        None
    } else if s[0].playlist_id@ == id {
        Some(s[0])
    } else {
        find_playlist(s.skip(1), id)
    }
}

/// A copy of the first playlist of this id.
pub fn lookup_playlist(s: &Vec<PlaylistDetail>, id: &str) -> (r: Option<PlaylistDetail>)
    ensures
        seqs::opt_view(r) == find_playlist(seqs::views(s@), id@),
{
    let n: usize = s.len();
    let ghost all = seqs::views(s@);
    let mut i: usize = 0;
    proof {
        assert(all.skip(0) =~= all);
    }
    while i < n
        invariant
            i <= n,
            n == s@.len(),
            all == seqs::views(s@),
            find_playlist(all, id@) == find_playlist(all.skip(i as int), id@),
        decreases n - i,
    {
        proof {
            assert(all.skip(i as int)[0] == s@[i as int]@);
            assert(all.skip(i as int).skip(1) =~= all.skip(i + 1));
        }
        if s[i].has_the_id(id) {
            return Some(s[i].clone());
        }
        i = i + 1;
    }
    None
}

/// Dropping an album from the list drops it from what the list shows.
proof fn other_albums_of(s: Seq<AlbumDetail>, id: Seq<char>)
    ensures
        seqs::views(seqs::others(s, id)) == other_albums(seqs::views(s), id),
{
    seqs::views_of_others(s, id, other_album(id));
}

/// Dropping a playlist from the list drops it from what the list shows.
proof fn other_playlists_of(s: Seq<PlaylistDetail>, id: Seq<char>)
    ensures
        seqs::views(seqs::others(s, id)) == other_playlists(seqs::views(s), id),
{
    seqs::views_of_others(s, id, other_playlist(id));
}

/// What is added is there afterwards, and what is removed is not.
pub proof fn downloads_are_found_again(v: OfflineView, track: TrackData, quality: AudioQuality)
    ensures
        v.with_track(track, quality).has_track(track.track_id@),
        !seqs::listed(seqs::others(v.tracks, track.track_id@), track.track_id@),
{
    let s = v.with_track(track, quality).tracks;
    assert(s[s.len() - 1].id_of() == track.track_id@);
    seqs::others_has_no_such_id(v.tracks, track.track_id@);
}

// ── Favorites cache ─────────────────────────────────────────────────

/// Favorites that were loaded before, kept so that they show at once.
#[derive(Debug)]
pub struct FavoritesCache {
    pub tracks: Option<Vec<TrackData>>,
    pub artists: Option<Vec<DisplayItem>>,
    pub albums: Option<Vec<DisplayItem>>,
    pub playlists: Option<Vec<DisplayItem>>,
    pub following: Option<Vec<DisplayItem>>,
    pub moods: Option<Vec<MoodEntry>>,
    pub playlist_details: Vec<PlaylistDetail>,
}

/// What a [`FavoritesCache`] holds.
pub struct FavoritesCacheView {
    pub tracks: Option<Seq<TrackData>>,
    pub artists: Option<Seq<DisplayItemView>>,
    pub albums: Option<Seq<DisplayItemView>>,
    pub playlists: Option<Seq<DisplayItemView>>,
    pub following: Option<Seq<DisplayItemView>>,
    pub moods: Option<Seq<MoodEntry>>,
    pub playlist_details: Seq<PlaylistDetailView>,
}

/// What an optional list of rows shows.
pub open spec fn opt_rows(o: Option<Vec<DisplayItem>>) -> Option<Seq<DisplayItemView>> {
    match o {
        Some(v) => Some(models::rows_of(v@)),
        None => None,
    }
}

impl View for FavoritesCache {
    type V = FavoritesCacheView;

    open spec fn view(&self) -> FavoritesCacheView {
        FavoritesCacheView {
            tracks: seqs::opt_view(self.tracks),
            artists: opt_rows(self.artists),
            albums: opt_rows(self.albums),
            playlists: opt_rows(self.playlists),
            following: opt_rows(self.following),
            moods: seqs::opt_view(self.moods),
            playlist_details: seqs::views(self.playlist_details@),
        }
    }
}

impl FavoritesCache {
    /// A cache that holds nothing.
    pub fn new() -> (r: FavoritesCache)
        ensures
            r@ == (FavoritesCacheView {
                tracks: None,
                artists: None,
                albums: None,
                playlists: None,
                following: None,
                moods: None,
                playlist_details: Seq::empty(),
            }),
    {
        let r: FavoritesCache = FavoritesCache {
            tracks: None,
            artists: None,
            albums: None,
            playlists: None,
            following: None,
            moods: None,
            playlist_details: Vec::new(),
        };
        proof {
            assert(r@.playlist_details =~= Seq::empty());
        }
        r
    }

    /// Forgets the playlist list, and the tracks of one playlist.
    pub fn invalidate_playlists(&mut self, id: &str)
        ensures
            final(self)@ == (FavoritesCacheView {
                playlists: None,
                playlist_details: other_playlists(old(self)@.playlist_details, id@),
                ..old(self)@
            }),
    {
        proof {
            other_playlists_of(self.playlist_details@, id@);
        }
        let mut list: Vec<PlaylistDetail> = Vec::new();
        std::mem::swap(&mut list, &mut self.playlist_details);
        self.playlist_details = drop_id(list, id);
        self.playlists = None;
    }

    /// Keeps a playlist's tracks; an older copy of them is replaced.
    pub fn remember_playlist(&mut self, detail: PlaylistDetail)
        ensures
            final(self)@ == (FavoritesCacheView {
                playlist_details: other_playlists(
                    old(self)@.playlist_details,
                    detail.playlist_id@,
                ).push(detail@),
                ..old(self)@
            }),
    {
        let ghost was = self.playlist_details@;
        let mut list: Vec<PlaylistDetail> = Vec::new();
        std::mem::swap(&mut list, &mut self.playlist_details);
        let mut list: Vec<PlaylistDetail> = drop_id(list, &detail.playlist_id);
        proof {
            other_playlists_of(was, detail.playlist_id@);
        }
        let ghost kept = list@;
        let ghost new = detail;
        list.push(detail);
        proof {
            assert(seqs::views(list@) =~= seqs::views(kept).push(new@));
        }
        self.playlist_details = list;
    }
}

/// A playlist that was remembered is found again, and one that was forgotten is
/// not.
pub proof fn remembered_playlists_are_found(s: Seq<PlaylistDetailView>, detail: PlaylistDetailView)
    ensures
        find_playlist(other_playlists(s, detail.playlist_id@).push(detail), detail.playlist_id@)
            == Some(detail),
        find_playlist(other_playlists(s, detail.playlist_id@), detail.playlist_id@) is None,
{
    broadcast use vstd::seq_lib::group_filter_ensures;

    let kept = other_playlists(s, detail.playlist_id@);
    absent_then(kept, detail);
}

/// A playlist put behind others of different ids is the one that is found.
proof fn absent_then(kept: Seq<PlaylistDetailView>, detail: PlaylistDetailView)
    requires
        forall|i: int|
            0 <= i < kept.len() ==> (#[trigger] kept[i]).playlist_id@ != detail.playlist_id@,
    ensures
        find_playlist(kept.push(detail), detail.playlist_id@) == Some(detail),
        find_playlist(kept, detail.playlist_id@) is None,
    decreases kept.len(),
{
    if kept.len() > 0 {
        let rest = kept.skip(1);
        assert forall|i: int| 0 <= i < rest.len() implies (#[trigger] rest[i]).playlist_id@
            != detail.playlist_id@ by {
            assert(rest[i] == kept[i + 1]);
        }
        absent_then(rest, detail);
        assert(kept.push(detail).skip(1) =~= rest.push(detail));
    } else {
        assert(kept.push(detail)[0] == detail);
    }
}

/// Where no album has the id none is found, and otherwise the first one that has
/// it is.
pub proof fn albums_are_found_by_id(s: Seq<AlbumDetailView>, id: Seq<char>, at: int)
    ensures
        0 <= at < s.len() && s[at].album_id@ == id && (forall|k: int|
            0 <= k < at ==> (#[trigger] s[k]).album_id@ != id) ==> find_album(s, id) == Some(s[at]),
        (forall|k: int| 0 <= k < s.len() ==> (#[trigger] s[k]).album_id@ != id) ==> find_album(
            s,
            id,
        ) is None,
    decreases s.len(),
{
    if s.len() > 0 && s[0].album_id@ != id {
        let rest = s.skip(1);
        albums_are_found_by_id(rest, id, at - 1);
        assert forall|k: int| 0 <= k < rest.len() implies #[trigger] rest[k] == s[k + 1] by {}
        if 0 < at < s.len() {
            assert(rest[at - 1] == s[at]);
        }
    }
}

/// Where no playlist has the id none is found, and otherwise the first one that
/// has it is.
pub proof fn playlists_are_found_by_id(s: Seq<PlaylistDetailView>, id: Seq<char>, at: int)
    ensures
        0 <= at < s.len() && s[at].playlist_id@ == id && (forall|k: int|
            0 <= k < at ==> (#[trigger] s[k]).playlist_id@ != id) ==> find_playlist(s, id) == Some(
            s[at],
        ),
        (forall|k: int| 0 <= k < s.len() ==> (#[trigger] s[k]).playlist_id@ != id)
            ==> find_playlist(s, id) is None,
    decreases s.len(),
{
    if s.len() > 0 && s[0].playlist_id@ != id {
        let rest = s.skip(1);
        playlists_are_found_by_id(rest, id, at - 1);
        assert forall|k: int| 0 <= k < rest.len() implies #[trigger] rest[k] == s[k + 1] by {}
        if 0 < at < s.len() {
            assert(rest[at - 1] == s[at]);
        }
    }
}

} // verus!
