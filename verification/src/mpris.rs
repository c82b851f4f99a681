//! The desktop's media controls: what they show of the player, and which
//! commands they give.

use vstd::prelude::*;

use crate::models;
use crate::models::TrackData;
use crate::player::{PlaybackStatus, PlayerState, RepeatMode};
use crate::protocol::Command;
use crate::text::{joined, push_text, same_text};

verus! {

/// Playback state, as the desktop knows it.
#[derive(Debug, Clone, Copy, PartialEq, Eq, Structural)]
pub enum DesktopStatus {
    Playing,
    Paused,
    Stopped,
}

/// Repeat mode, as the desktop knows it.
#[derive(Debug, Clone, Copy, PartialEq, Eq, Structural)]
pub enum LoopMode {
    Off,
    Track,
    Playlist,
}

/// Playback state, as the desktop knows it: a track that loads counts as playing.
pub open spec fn desktop_status(status: PlaybackStatus) -> DesktopStatus {
    match status {
        PlaybackStatus::Playing | PlaybackStatus::Loading => DesktopStatus::Playing,
        PlaybackStatus::Paused => DesktopStatus::Paused,
        PlaybackStatus::Stopped => DesktopStatus::Stopped,
    }
}

/// Playback state, as the desktop knows it.
pub fn to_mpris_status(status: PlaybackStatus) -> (r: DesktopStatus)
    ensures
        r == desktop_status(status),
{
    match status {
        PlaybackStatus::Playing | PlaybackStatus::Loading => DesktopStatus::Playing,
        PlaybackStatus::Paused => DesktopStatus::Paused,
        PlaybackStatus::Stopped => DesktopStatus::Stopped,
    }
}

/// Repeat mode, as the desktop knows it.
pub open spec fn loop_of(repeat: RepeatMode) -> LoopMode {
    match repeat {
        RepeatMode::Off => LoopMode::Off,
        RepeatMode::Track => LoopMode::Track,
        RepeatMode::Queue => LoopMode::Playlist,
    }
}

/// Repeat mode, as the desktop knows it.
pub fn loop_status(repeat: RepeatMode) -> (r: LoopMode)
    ensures
        r == loop_of(repeat),
{
    match repeat {
        RepeatMode::Off => LoopMode::Off,
        RepeatMode::Track => LoopMode::Track,
        RepeatMode::Queue => LoopMode::Playlist,
    }
}

/// Address of an album's cover.
pub open spec fn cover_address(picture: Seq<char>) -> Seq<char> {
    "https://e-cdns-images.dzcdn.net/images/cover/"@ + picture + "/264x264-000000-80-0-0.jpg"@
}

/// Address of an album's cover, from its picture's hash. `pictured` says whether the
/// hash names a picture.
pub fn cover_url(album_picture: &str, pictured: bool) -> (r: Option<String>)
    ensures
        models::opt_text(r) == (if pictured {
            Some(cover_address(album_picture@))
        } else {
            None
        }),
{
    if !pictured {
        return None;
    }
    let mut url: String = joined("https://e-cdns-images.dzcdn.net/images/cover/", album_picture);
    push_text(&mut url, "/264x264-000000-80-0-0.jpg");
    Some(url)
}

/// A path that can name an object on the desktop's message bus: elements of
/// letters, digits and `_`, each behind a `/`.
pub open spec fn object_path(s: Seq<char>) -> bool {
    &&& s.len() > 0 && s[0] == '/'
    &&& s.len() > 1 ==> s.last() != '/'
    &&& forall|i: int| 0 <= i < s.len() ==> path_char(#[trigger] s[i])
    &&& forall|i: int|
        0 <= i < s.len() - 1 && s[i] == '/' ==> #[trigger] s[i + 1] != '/'
}

/// A character of such a path.
pub open spec fn path_char(c: char) -> bool {
    'a' <= c <= 'z' || 'A' <= c <= 'Z' || '0' <= c <= '9' || c == '_' || c == '/'
}

/// Whether `mpris_server::TrackId::try_from` takes a path. Claimed is that it
/// takes those that begin with `/`, do not end with one unless they are nothing
/// else, have no two in a row, and hold nothing but ASCII letters, digits, `_`
/// and `/`.
#[verifier::external_body]
fn names_object(path: &str) -> (r: bool)
    ensures
        r == object_path(path@),
{
    mpris_server::TrackId::try_from(path).is_ok()
}

/// Path of a track with this id.
pub open spec fn track_path_of(track_id: Seq<char>) -> Option<Seq<char>> {
    let path = "/org/deezer_tui/track/"@ + track_id;
    if object_path(path) {
        Some(path)
    } else {
        None
    }
}

/// Path under which the desktop knows a track, where its id makes one.
pub fn track_path(track_id: &str) -> (r: Option<String>)
    ensures
        models::opt_text(r) == track_path_of(track_id@),
{
    let path: String = joined("/org/deezer_tui/track/", track_id);
    if names_object(&path) {
        Some(path)
    } else {
        None
    }
}

/// The desktop knows the service's own tracks, whose ids are numbers; it does not
/// know the user's uploads, whose ids have a minus sign.
pub proof fn uploads_have_no_path(track_id: Seq<char>)
    ensures
        track_id.len() > 0 && (forall|i: int|
            0 <= i < track_id.len() ==> '0' <= #[trigger] track_id[i] <= '9') ==> track_path_of(
            track_id,
        ) is Some,
        track_id.len() > 0 && track_id[0] == '-' ==> track_path_of(track_id) is None,
{
    reveal_strlit("/org/deezer_tui/track/");
    let base = "/org/deezer_tui/track/"@;
    let path = base + track_id;
    assert(base.len() == 22);
    assert(forall|i: int| 0 <= i < base.len() ==> path_char(#[trigger] base[i]));
    assert forall|i: int| 0 <= i < path.len() implies #[trigger] path[i] == (if i < 22 {
        base[i]
    } else {
        track_id[i - 22]
    }) by {}
    if track_id.len() > 0 && track_id[0] == '-' {
        assert(path[22] == '-');
        assert(!path_char(path[22]));
    }
    if track_id.len() > 0 && (forall|i: int|
        0 <= i < track_id.len() ==> '0' <= #[trigger] track_id[i] <= '9') {
        assert(path[0] == '/');
        assert(path.last() == track_id.last());
        assert forall|i: int| 0 <= i < path.len() implies path_char(#[trigger] path[i]) by {
            if i >= 22 {
                assert('0' <= track_id[i - 22] <= '9');
            }
        }
        assert forall|i: int| 0 <= i < path.len() - 1 && path[i] == '/' implies #[trigger] path[i
            + 1] != '/' by {
            if i + 1 >= 22 {
                assert('0' <= track_id[i + 1 - 22] <= '9');
            } else {
                assert(base[i] == '/');
            }
        }
    }
}

/// What the desktop shows of a track.
#[derive(Debug)]
pub struct TrackMetadata {
    /// Path under which the desktop knows the track, where there is one.
    pub path: Option<String>,
    pub title: Option<String>,
    pub artist: Option<String>,
    pub album: Option<String>,
    pub art_url: Option<String>,
    /// Length in seconds, where it is known.
    pub length: Option<u64>,
}

/// What a [`TrackMetadata`] says.
pub struct MetadataView {
    pub path: Option<Seq<char>>,
    pub title: Option<Seq<char>>,
    pub artist: Option<Seq<char>>,
    pub album: Option<Seq<char>>,
    pub art_url: Option<Seq<char>>,
    pub length: Option<u64>,
}

impl View for TrackMetadata {
    type V = MetadataView;

    open spec fn view(&self) -> MetadataView {
        MetadataView {
            path: models::opt_text(self.path),
            title: models::opt_text(self.title),
            artist: models::opt_text(self.artist),
            album: models::opt_text(self.album),
            art_url: models::opt_text(self.art_url),
            length: self.length,
        }
    }
}

/// What the desktop is to show; an album without a name is left out.
pub open spec fn metadata_of(track: Option<TrackData>, duration: u64, pictured: bool) -> MetadataView {
    let length = if duration > 0 {
        Some(duration)
    } else {
        None
    };
    match track {
        Some(t) => MetadataView {
            path: track_path_of(t.track_id@),
            title: Some(t.title@),
            artist: Some(t.artist@),
            album: if t.album@.len() > 0 {
                Some(t.album@)
            } else {
                None
            },
            art_url: if pictured {
                Some(cover_address(t.album_picture@))
            } else {
                None
            },
            length,
        },
        None => MetadataView {
            path: None,
            title: None,
            artist: None,
            album: None,
            art_url: None,
            length,
        },
    }
}

/// What the desktop is to show of the player's state.
pub fn build_metadata(state: &PlayerState, pictured: bool) -> (r: TrackMetadata)
    ensures
        r@ == metadata_of(state.current_track, state.duration_secs, pictured),
{
    let length: Option<u64> = if state.duration_secs > 0 {
        Some(state.duration_secs)
    } else {
        None
    };
    match &state.current_track {
        Some(t) => TrackMetadata {
            path: track_path(&t.track_id),
            title: Some(t.title.clone()),
            artist: Some(t.artist.clone()),
            album: if t.album.as_str().unicode_len() > 0 {
                Some(t.album.clone())
            } else {
                None
            },
            art_url: cover_url(&t.album_picture, pictured),
            length,
        },
        None => TrackMetadata {
            path: None,
            title: None,
            artist: None,
            album: None,
            art_url: None,
            length,
        },
    }
}

/// What was shown last, to tell what changed.
#[derive(Debug)]
pub struct MprisSnapshot {
    pub track_id: Option<String>,
    pub status: PlaybackStatus,
    /// Volume in thousandths.
    pub volume_milli: u32,
    pub has_track: bool,
}

/// Something that the desktop is told about.
#[derive(Debug)]
pub enum MprisProperty {
    Metadata(TrackMetadata),
    PlaybackStatus(DesktopStatus),
    /// In thousandths.
    Volume(u32),
    CanGoNext(bool),
    CanGoPrevious(bool),
    CanPause(bool),
    CanPlay(bool),
    CanSeek(bool),
}

/// What a [`MprisProperty`] says.
pub enum PropertyView {
    Metadata(MetadataView),
    PlaybackStatus(DesktopStatus),
    Volume(u32),
    CanGoNext(bool),
    CanGoPrevious(bool),
    CanPause(bool),
    CanPlay(bool),
    CanSeek(bool),
}

impl View for MprisProperty {
    type V = PropertyView;

    open spec fn view(&self) -> PropertyView {
        match *self {
            MprisProperty::Metadata(m) => PropertyView::Metadata(m@),
            MprisProperty::PlaybackStatus(s) => PropertyView::PlaybackStatus(s),
            MprisProperty::Volume(v) => PropertyView::Volume(v),
            MprisProperty::CanGoNext(b) => PropertyView::CanGoNext(b),
            MprisProperty::CanGoPrevious(b) => PropertyView::CanGoPrevious(b),
            MprisProperty::CanPause(b) => PropertyView::CanPause(b),
            MprisProperty::CanPlay(b) => PropertyView::CanPlay(b),
            MprisProperty::CanSeek(b) => PropertyView::CanSeek(b),
        }
    }
}

/// What a list of properties says.
pub open spec fn properties_of(s: Seq<MprisProperty>) -> Seq<PropertyView> {
    s.map_values(|p: MprisProperty| p@)
}

/// The id of an optional track.
pub open spec fn id_in(track: Option<TrackData>) -> Option<Seq<char>> {
    match track {
        Some(t) => Some(t.track_id@),
        None => None,
    }
}

/// One property where something changed.
pub open spec fn if_changed(changed: bool, p: PropertyView) -> Seq<PropertyView> {
    if changed {
        seq![p]
    } else {
        Seq::empty()
    }
}

/// What the desktop is told: only what changed since it was told last.
pub open spec fn changes(
    new: MprisSnapshot,
    prev: MprisSnapshot,
    metadata: MetadataView,
    volume: u32,
) -> Seq<PropertyView> {
    let has = new.has_track;
    if_changed(
        models::opt_text(new.track_id) != models::opt_text(prev.track_id),
        PropertyView::Metadata(metadata),
    ) + if_changed(
        new.status != prev.status,
        PropertyView::PlaybackStatus(desktop_status(new.status)),
    ) + if_changed(new.volume_milli != prev.volume_milli, PropertyView::Volume(volume)) + (
    if has != prev.has_track {
        seq![
            PropertyView::CanGoNext(has),
            PropertyView::CanGoPrevious(has),
            PropertyView::CanPause(has),
            PropertyView::CanPlay(has),
            PropertyView::CanSeek(has),
        ]
    } else {
        Seq::empty()
    })
}

fn same_opt_text(a: &Option<String>, b: &Option<String>) -> (r: bool)
    ensures
        r == (models::opt_text(*a) == models::opt_text(*b)),
{
    match (a, b) {
        (Some(a), Some(b)) => same_text(a, b),
        (None, None) => true,
        _ => false,
    }
}

impl MprisSnapshot {
    /// What there is to show of the player's state.
    pub fn capture(state: &PlayerState) -> (r: MprisSnapshot)
        ensures
            models::opt_text(r.track_id) == id_in(state.current_track),
            r.status == state.status,
            r.volume_milli == state.volume,
            r.has_track == state.current_track is Some,
    {
        MprisSnapshot {
            track_id: match &state.current_track {
                Some(t) => Some(t.track_id.clone()),
                None => None,
            },
            status: state.status,
            volume_milli: state.volume,
            has_track: state.current_track.is_some(),
        }
    }

    /// What the desktop is to be told, given what it was told last.
    pub fn changed_properties(&self, prev: &MprisSnapshot, state: &PlayerState, pictured: bool) -> (r:
        Vec<MprisProperty>)
        ensures
            properties_of(r@) == changes(
                *self,
                *prev,
                metadata_of(state.current_track, state.duration_secs, pictured),
                state.volume,
            ),
    {
        let mut props: Vec<MprisProperty> = Vec::new();
        if !same_opt_text(&self.track_id, &prev.track_id) {
            props.push(MprisProperty::Metadata(build_metadata(state, pictured)));
        }
        if self.status != prev.status {
            props.push(MprisProperty::PlaybackStatus(to_mpris_status(self.status)));
        }
        if self.volume_milli != prev.volume_milli {
            props.push(MprisProperty::Volume(state.volume));
        }
        if self.has_track != prev.has_track {
            props.push(MprisProperty::CanGoNext(self.has_track));
            props.push(MprisProperty::CanGoPrevious(self.has_track));
            props.push(MprisProperty::CanPause(self.has_track));
            props.push(MprisProperty::CanPlay(self.has_track));
            props.push(MprisProperty::CanSeek(self.has_track));
        }
        proof {
            assert(properties_of(props@) =~= changes(
                *self,
                *prev,
                metadata_of(state.current_track, state.duration_secs, pictured),
                state.volume,
            ));
        }
        props
    }
}

/// Nothing is told where nothing changed.
pub proof fn the_desktop_is_not_told_twice(
    s: MprisSnapshot,
    metadata: MetadataView,
    volume: u32,
)
    ensures
        changes(s, s, metadata, volume) == Seq::<PropertyView>::empty(),
{
    assert(changes(s, s, metadata, volume) =~= Seq::<PropertyView>::empty());
}

/// What the desktop's pause sends.
pub fn pause(status: PlaybackStatus) -> (r: Option<Command>)
    ensures
        r == (if status == PlaybackStatus::Playing {
            Some(Command::TogglePause)
        } else {
            None
        }),
{
    if status == PlaybackStatus::Playing {
        Some(Command::TogglePause)
    } else {
        None
    }
}

/// What the desktop's play sends.
pub fn play(status: PlaybackStatus) -> (r: Option<Command>)
    ensures
        r == (if status == PlaybackStatus::Paused {
            Some(Command::TogglePause)
        } else {
            None
        }),
{
    if status == PlaybackStatus::Paused {
        Some(Command::TogglePause)
    } else {
        None
    }
}

/// What a seek by this many seconds sends.
pub fn seek(secs: i64) -> (r: Command)
    ensures
        r == (if secs >= 0 {
            Command::SeekForward { secs: secs as u64 }
        } else {
            Command::SeekBackward { secs: (-secs) as u64 }
        }),
{
    if secs >= 0 {
        Command::SeekForward { secs: secs as u64 }
    } else {
        let back: i128 = -(secs as i128);
        Command::SeekBackward { secs: back as u64 }
    }
}

/// What setting the position to this many seconds sends.
pub fn set_position(secs: i64) -> (r: Command)
    ensures
        r == (Command::SeekAbsolute {
            secs: if secs < 0 {
                0
            } else {
                secs as u64
            },
        }),
{
    let secs: u64 = if secs < 0 {
        0
    } else {
        secs as u64
    };
    Command::SeekAbsolute { secs }
}

/// What setting shuffle sends.
pub fn set_shuffle(current: bool, wanted: bool) -> (r: Option<Command>)
    ensures
        r == (if current != wanted {
            Some(Command::ToggleShuffle)
        } else {
            None
        }),
{
    if current != wanted {
        Some(Command::ToggleShuffle)
    } else {
        None
    }
}

/// A repeat mode after some steps of the cycle.
pub open spec fn cycled_by(mode: RepeatMode, steps: nat) -> RepeatMode
    decreases steps,
{
    if steps == 0 {
        mode
    } else {
        cycled_by(mode, (steps - 1) as nat).cycled()
    }
}

/// How often the repeat mode has to be cycled for the desktop's mode: as often
/// as needed, and not more.
pub fn loop_steps(current: RepeatMode, wanted: LoopMode) -> (r: usize)
    ensures
        loop_of(cycled_by(current, r as nat)) == wanted,
        r < 3,
        forall|n: nat| n < r ==> loop_of(#[trigger] cycled_by(current, n)) != wanted,
{
    let mut mode: RepeatMode = current;
    let mut steps: usize = 0;
    proof {
        reveal_with_fuel(cycled_by, 4);
    }
    while loop_status(mode) != wanted
        invariant
            steps <= 2,
            mode == cycled_by(current, steps as nat),
            forall|n: nat| n < steps ==> loop_of(#[trigger] cycled_by(current, n)) != wanted,
        decreases 3 - steps,
    {
        proof {
            reveal_with_fuel(cycled_by, 4);
            if steps == 2 {
                assert(loop_of(cycled_by(current, 0)) != wanted);
                assert(loop_of(cycled_by(current, 1)) != wanted);
                assert(loop_of(cycled_by(current, 2)) != wanted);
                assert(false);
            }
        }
        mode = mode.next();
        steps = steps + 1;
    }
    steps
}

/// The desktop is shown the track that plays: its title, artist and album, its
/// length where that is known, and its cover where there is a picture. Without a
/// track it is shown none of these.
pub proof fn the_desktop_shows_the_track(track: TrackData, duration: u64, pictured: bool)
    ensures
        ({
            let m = metadata_of(Some(track), duration, pictured);
            &&& m.title == Some(track.title@)
            &&& m.artist == Some(track.artist@)
            &&& track.album@.len() > 0 ==> m.album == Some(track.album@)
            &&& track.album@.len() == 0 ==> m.album is None
            &&& duration > 0 ==> m.length == Some(duration)
            &&& duration == 0 ==> m.length is None
            &&& pictured ==> m.art_url == Some(
                "https://e-cdns-images.dzcdn.net/images/cover/"@ + track.album_picture@
                    + "/264x264-000000-80-0-0.jpg"@,
            )
            &&& !pictured ==> m.art_url is None
            &&& m.path is Some ==> m.path->0 == "/org/deezer_tui/track/"@ + track.track_id@
        }),
        ({
            let m = metadata_of(None, duration, pictured);
            m.title is None && m.artist is None && m.album is None && m.art_url is None && m.path
                is None
        }),
{
}

/// The desktop is told of a change exactly where there is one: the track, the
/// playback state, where loading counts as playing, the volume, and whether there
/// is anything to control.
pub proof fn the_desktop_is_told_what_changed(
    new: MprisSnapshot,
    prev: MprisSnapshot,
    metadata: MetadataView,
    volume: u32,
)
    ensures
        ({
            let told = changes(new, prev, metadata, volume);
            let status = match new.status {
                PlaybackStatus::Playing => DesktopStatus::Playing,
                PlaybackStatus::Loading => DesktopStatus::Playing,
                PlaybackStatus::Paused => DesktopStatus::Paused,
                PlaybackStatus::Stopped => DesktopStatus::Stopped,
            };
            let track = if models::opt_text(new.track_id) != models::opt_text(prev.track_id) {
                seq![PropertyView::Metadata(metadata)]
            } else {
                Seq::empty()
            };
            let state = if new.status != prev.status {
                seq![PropertyView::PlaybackStatus(status)]
            } else {
                Seq::empty()
            };
            let loud = if new.volume_milli != prev.volume_milli {
                seq![PropertyView::Volume(volume)]
            } else {
                Seq::empty()
            };
            let rest = told.skip((track.len() + state.len() + loud.len()) as int);
            &&& told.take((track.len() + state.len() + loud.len()) as int) == track + state + loud
            &&& new.has_track == prev.has_track ==> rest.len() == 0
            &&& new.has_track != prev.has_track ==> {
                &&& rest.len() == 5
                &&& rest.contains(PropertyView::CanGoNext(new.has_track))
                &&& rest.contains(PropertyView::CanGoPrevious(new.has_track))
                &&& rest.contains(PropertyView::CanPause(new.has_track))
                &&& rest.contains(PropertyView::CanPlay(new.has_track))
                &&& rest.contains(PropertyView::CanSeek(new.has_track))
            }
        }),
{
    let told = changes(new, prev, metadata, volume);
    let n = told.len() - (if new.has_track != prev.has_track {
        5int
    } else {
        0int
    });
    let rest = told.skip(n);
    if new.has_track != prev.has_track {
        assert(rest[0] == PropertyView::CanGoNext(new.has_track));
        assert(rest[1] == PropertyView::CanGoPrevious(new.has_track));
        assert(rest[2] == PropertyView::CanPause(new.has_track));
        assert(rest[3] == PropertyView::CanPlay(new.has_track));
        assert(rest[4] == PropertyView::CanSeek(new.has_track));
    }
}

/// The desktop's repeat modes are the player's: none, the track, and the queue as
/// its playlist.
pub proof fn repeat_modes_agree(mode: RepeatMode)
    ensures
        loop_of(mode) == LoopMode::Off <==> mode == RepeatMode::Off,
        loop_of(mode) == LoopMode::Track <==> mode == RepeatMode::Track,
        loop_of(mode) == LoopMode::Playlist <==> mode == RepeatMode::Queue,
        cycled_by(mode, 0) == mode,
        cycled_by(mode, 1) != mode,
        cycled_by(mode, 3) == mode,
{
    reveal_with_fuel(cycled_by, 4);
}

} // verus!
