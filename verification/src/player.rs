//! Playback state: what plays, where it is, and what comes next.

use vstd::prelude::*;

use crate::models::{AudioQuality, TrackData};
use crate::text;
use crate::text::{decimal, push_char, push_text, two_digits};

verus! {

/// What the player is doing.
#[derive(Debug, Clone, Copy, PartialEq, Eq, Structural)]
pub enum PlaybackStatus {
    Stopped,
    Playing,
    Paused,
    Loading,
}

impl Default for PlaybackStatus {
    fn default() -> (r: Self)
        ensures
            r == PlaybackStatus::Stopped,
    {
        PlaybackStatus::Stopped
    }
}

/// What is played again.
#[derive(Debug, Clone, Copy, PartialEq, Eq, Structural)]
pub enum RepeatMode {
    Off,
    Track,
    Queue,
}

impl Default for RepeatMode {
    fn default() -> (r: Self)
        ensures
            r == RepeatMode::Off,
    {
        RepeatMode::Off
    }
}

impl RepeatMode {
    /// The mode after this one: off, queue, track, and off again.
    pub open spec fn cycled(self) -> RepeatMode {
        match self {
            RepeatMode::Off => RepeatMode::Queue,
            RepeatMode::Queue => RepeatMode::Track,
            RepeatMode::Track => RepeatMode::Off,
        }
    }

    /// The mode after this one.
    pub fn next(&self) -> (r: RepeatMode)
        ensures
            r == self.cycled(),
    {
        match self {
            RepeatMode::Off => RepeatMode::Queue,
            RepeatMode::Queue => RepeatMode::Track,
            RepeatMode::Track => RepeatMode::Off,
        }
    }
}

/// Three steps of the cycle lead back, and two or fewer reach every mode.
pub proof fn repeat_modes_go_round(a: RepeatMode, b: RepeatMode)
    ensures
        a.cycled().cycled().cycled() == a,
        a == b || a.cycled() == b || a.cycled().cycled() == b,
{
}

/// The state of playback.
#[derive(Debug)]
pub struct PlayerState {
    pub status: PlaybackStatus,
    pub current_track: Option<TrackData>,
    pub quality: AudioQuality,
    pub position_secs: u64,
    pub duration_secs: u64,
    /// Volume in thousandths, at most 1000.
    pub volume: u32,
    pub shuffle: bool,
    pub repeat: RepeatMode,
    pub queue: Vec<TrackData>,
    pub queue_index: usize,
}

/// What a [`PlayerState`] holds.
pub struct PlayerStateView {
    pub status: PlaybackStatus,
    pub current_track: Option<TrackData>,
    pub quality: AudioQuality,
    pub position_secs: u64,
    pub duration_secs: u64,
    pub volume: u32,
    pub shuffle: bool,
    pub repeat: RepeatMode,
    pub queue: Seq<TrackData>,
    pub queue_index: usize,
}

impl View for PlayerState {
    type V = PlayerStateView;

    open spec fn view(&self) -> PlayerStateView {
        PlayerStateView {
            status: self.status,
            current_track: self.current_track,
            quality: self.quality,
            position_secs: self.position_secs,
            duration_secs: self.duration_secs,
            volume: self.volume,
            shuffle: self.shuffle,
            repeat: self.repeat,
            queue: self.queue@,
            queue_index: self.queue_index,
        }
    }
}

impl Default for PlayerState {
    fn default() -> (r: Self)
        ensures
            r@ == (PlayerStateView {
                status: PlaybackStatus::Stopped,
                current_track: None,
                quality: AudioQuality::Mp3_128,
                position_secs: 0,
                duration_secs: 0,
                volume: 800,
                shuffle: false,
                repeat: RepeatMode::Off,
                queue: Seq::empty(),
                queue_index: 0,
            }),
    {
        PlayerState {
            status: PlaybackStatus::Stopped,
            current_track: None,
            quality: AudioQuality::Mp3_128,
            position_secs: 0,
            duration_secs: 0,
            volume: 800,
            shuffle: false,
            repeat: RepeatMode::Off,
            queue: Vec::new(),
            queue_index: 0,
        }
    }
}

/// A position and a length as "m:ss / m:ss".
pub open spec fn position_text(position: nat, duration: nat) -> Seq<char> {
    minutes_text(position) + " / "@ + minutes_text(duration)
}

/// Minutes and seconds as "m:ss".
pub open spec fn minutes_text(secs: nat) -> Seq<char> {
    text::decimal_of(secs / 60) + seq![':'] + text::two_digits_of(secs % 60)
}

/// Writes seconds as "m:ss".
fn minutes(secs: u64) -> (r: String)
    ensures
        r@ == minutes_text(secs as nat),
{
    let mut out: String = decimal(secs / 60);
    push_char(&mut out, ':');
    let tail: String = two_digits(secs % 60);
    push_text(&mut out, &tail);
    proof {
        let a = text::decimal_of((secs / 60) as nat);
        assert(a.push(':') =~= a + seq![':']);
    }
    out
}

/// Writes a position and a length as "m:ss / m:ss".
pub fn position_of_total(position: u64, duration: u64) -> (r: String)
    ensures
        r@ == position_text(position as nat, duration as nat),
{
    let mut out: String = minutes(position);
    out.append(" / ");
    let tail: String = minutes(duration);
    push_text(&mut out, &tail);
    out
}

impl PlayerStateView {
    /// The player once a track was loaded at a position, at its end at most.
    pub open spec fn loaded(
        self,
        track: TrackData,
        quality: AudioQuality,
        position: u64,
        paused: bool,
    ) -> PlayerStateView {
        PlayerStateView {
            status: if paused {
                PlaybackStatus::Paused
            } else {
                PlaybackStatus::Playing
            },
            current_track: Some(track),
            duration_secs: track.duration,
            position_secs: if position > track.duration {
                track.duration
            } else {
                position
            },
            quality,
            ..self
        }
    }
}

impl PlayerState {
    /// Takes note that a track was loaded at a position, at its end at most.
    pub fn load(&mut self, track: TrackData, quality: AudioQuality, position: u64, paused: bool)
        ensures
            final(self)@ == old(self)@.loaded(track, quality, position, paused),
    {
        let duration: u64 = track.duration_secs();
        self.status = if paused {
            PlaybackStatus::Paused
        } else {
            PlaybackStatus::Playing
        };
        self.duration_secs = duration;
        self.position_secs = if position > duration {
            duration
        } else {
            position
        };
        self.quality = quality;
        self.current_track = Some(track);
    }

    /// Format the position as "m:ss / m:ss".
    pub fn format_position(&self) -> (r: String)
        ensures
            r@ == position_text(self.position_secs as nat, self.duration_secs as nat),
    {
        position_of_total(self.position_secs, self.duration_secs)
    }
}

/// What is kept of playback when the program goes to the background.
#[derive(Debug)]
pub struct SavedState {
    pub current_track: Option<TrackData>,
    pub quality: AudioQuality,
    pub volume: u32,
    pub shuffle: bool,
    pub repeat: RepeatMode,
    pub queue: Vec<TrackData>,
    pub queue_index: usize,
    pub position_secs: u64,
    pub was_playing: bool,
}

/// What a file holds of playback. Older files lack the last two fields.
#[derive(Debug)]
pub struct SavedFile {
    pub current_track: Option<TrackData>,
    pub quality: AudioQuality,
    pub volume: u32,
    pub shuffle: bool,
    pub repeat: RepeatMode,
    pub queue: Vec<TrackData>,
    pub queue_index: usize,
    pub position_secs: Option<u64>,
    pub was_playing: Option<bool>,
}

impl SavedState {
    /// Reads a file. Without a position playback starts at the beginning, and it
    /// is not resumed where nothing says that it was going on.
    pub fn from_file(file: SavedFile) -> (r: SavedState)
        ensures
            r.current_track == file.current_track,
            r.quality == file.quality,
            r.volume == file.volume,
            r.shuffle == file.shuffle,
            r.repeat == file.repeat,
            r.queue == file.queue,
            r.queue_index == file.queue_index,
            r.position_secs == (match file.position_secs {
                Some(secs) => secs,
                None => 0,
            }),
            r.was_playing == (file.was_playing == Some(true)),
    {
        SavedState {
            current_track: file.current_track,
            quality: file.quality,
            volume: file.volume,
            shuffle: file.shuffle,
            repeat: file.repeat,
            queue: file.queue,
            queue_index: file.queue_index,
            position_secs: match file.position_secs {
                Some(secs) => secs,
                None => 0,
            },
            was_playing: match file.was_playing {
                Some(going) => going,
                None => false,
            },
        }
    }

    /// Keeps what is needed to go on later. A paused track counts as playing.
    pub fn from_player_state(state: &PlayerState) -> (r: SavedState)
        ensures
            r.current_track == state.current_track,
            r.quality == state.quality,
            r.volume == state.volume,
            r.shuffle == state.shuffle,
            r.repeat == state.repeat,
            r.queue@ == state.queue@,
            r.queue_index == state.queue_index,
            r.position_secs == state.position_secs,
            r.was_playing == (state.status == PlaybackStatus::Playing || state.status
                == PlaybackStatus::Paused),
    {
        SavedState {
            current_track: state.current_track.clone(),
            quality: state.quality,
            volume: state.volume,
            shuffle: state.shuffle,
            repeat: state.repeat,
            queue: state.queue.clone(),
            queue_index: state.queue_index,
            position_secs: state.position_secs,
            was_playing: state.status == PlaybackStatus::Playing || state.status
                == PlaybackStatus::Paused,
        }
    }
}

/// A track is loaded where it is asked to be, at its end at most, playing or
/// paused, in its quality; the queue, the volume and the modes stay.
pub proof fn tracks_are_loaded_in_place(
    p: PlayerStateView,
    track: TrackData,
    quality: AudioQuality,
    position: u64,
    paused: bool,
)
    ensures
        ({
            let r = p.loaded(track, quality, position, paused);
            &&& r.current_track == Some(track)
            &&& r.quality == quality
            &&& r.duration_secs == track.duration
            &&& position <= track.duration ==> r.position_secs == position
            &&& position > track.duration ==> r.position_secs == track.duration
            &&& paused ==> r.status == PlaybackStatus::Paused
            &&& !paused ==> r.status == PlaybackStatus::Playing
            &&& r.queue == p.queue && r.queue_index == p.queue_index
            &&& r.volume == p.volume && r.shuffle == p.shuffle && r.repeat == p.repeat
        }),
{
}

/// The repeat modes follow one another: off, the queue, the track, and off again.
pub proof fn repeat_modes_follow_one_another()
    ensures
        RepeatMode::Off.cycled() == RepeatMode::Queue,
        RepeatMode::Queue.cycled() == RepeatMode::Track,
        RepeatMode::Track.cycled() == RepeatMode::Off,
{
}

} // verus!
