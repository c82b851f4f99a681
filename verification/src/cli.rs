//! The program's command line: what the flags ask for, and the one-line status.

use vstd::prelude::*;

use crate::client;
use crate::models::TrackData;
use crate::player::{PlaybackStatus, RepeatMode};
use crate::protocol::{Command, DaemonSnapshot};
use crate::seqs;
use crate::seqs::{contains_id, find_id};
use crate::text;
use crate::text::{format_time, joined, parse_unsigned, push_text, sanitize};

verus! {

/// What the command line asks for.
#[derive(Debug)]
pub enum CliAction {
    /// Show the help.
    Help,
    /// Show the version.
    Version,
    /// Print the completions of a shell.
    Completions(String),
    /// No shell was named.
    CompletionsMissing,
    /// Stop the player.
    Quit,
    /// Show what is playing.
    Status { json: bool },
    /// Set the volume to the percentage in this text.
    Volume(String),
    /// No percentage was given.
    VolumeMissing,
    /// Turn the volume up or down by the percentage in this text, or by the
    /// usual step.
    VolumeStep { up: bool, step: Option<String> },
    /// The place to seek to is no number of seconds.
    SeekInvalid,
    /// Send a command to the player.
    Send(Command),
    /// Go on playing, where playback is paused.
    Play,
    /// Pause, where something is playing.
    Pause,
    /// Add what is playing to the favorites.
    Like,
    /// Dislike what is playing.
    Dislike,
    /// Open the terminal client.
    Client { updated: bool },
}

/// The flag is there.
pub open spec fn has(args: Seq<String>, flag: Seq<char>) -> bool {
    seqs::listed(args, flag)
}

/// What follows the first occurrence of a flag; nothing where the flag is not
/// there.
pub open spec fn after(args: Seq<String>, flag: Seq<char>) -> Option<Option<String>> {
    if has(args, flag) {
        Some(client::nth(args, seqs::place_of(args, flag) + 1))
    } else {
        None
    }
}

fn value_after(args: &Vec<String>, flag: &str) -> (r: Option<Option<String>>)
    ensures
        r == after(args@, flag@),
{
    match find_id(args, flag) {
        Some(i) => {
            proof {
                seqs::first_place_is_unique(args@, flag@, i as int);
            }
            if i < args.len() - 1 {
                Some(Some(args[i + 1].clone()))
            } else {
                Some(None)
            }
        },
        None => None,
    }
}

/// The number of seconds that an optional text writes.
pub open spec fn secs_in(value: Option<String>) -> Option<u64> {
    match value {
        Some(s) => match text::unsigned_of(s@, u64::MAX as nat) {
            Some(n) => Some(n as u64),
            None => None,
        },
        None => None,
    }
}

fn read_secs(value: &Option<String>) -> (r: Option<u64>)
    ensures
        r == secs_in(*value),
{
    match value {
        Some(s) => parse_unsigned(s, u64::MAX),
        None => None,
    }
}

/// A number of seconds, or the usual five.
pub open spec fn secs_or_five(value: Option<String>) -> u64 {
    match secs_in(value) {
        Some(n) => n,
        None => 5,
    }
}

fn secs_or_usual(value: &Option<String>) -> (r: u64)
    ensures
        r == secs_or_five(*value),
{
    match read_secs(value) {
        Some(n) => n,
        None => 5,
    }
}

/// Flags that show something or stop the player.
#[verifier::opaque]
pub open spec fn asked_first(args: Seq<String>) -> CliAction {
    if has(args, "-h"@) || has(args, "--help"@) {
        CliAction::Help
    } else if has(args, "-v"@) || has(args, "--version"@) {
        CliAction::Version
    } else {
        match after(args, "--completions"@) {
            Some(Some(shell)) => CliAction::Completions(shell),
            Some(None) => CliAction::CompletionsMissing,
            None => if has(args, "-q"@) || has(args, "--quit"@) {
                CliAction::Quit
            } else if has(args, "-s"@) || has(args, "--status"@) || has(args, "--current"@) {
                CliAction::Status { json: has(args, "--json"@) || has(args, "-j"@) }
            } else {
                asked_of_volume(args)
            },
        }
    }
}

/// Flags about the volume.
#[verifier::opaque]
pub open spec fn asked_of_volume(args: Seq<String>) -> CliAction {
    match after(args, "--volume"@) {
        Some(Some(percent)) => CliAction::Volume(percent),
        Some(None) => CliAction::VolumeMissing,
        None => match after(args, "--volume-up"@) {
            Some(step) => CliAction::VolumeStep { up: true, step },
            None => match after(args, "--volume-down"@) {
                Some(step) => CliAction::VolumeStep { up: false, step },
                None => asked_to_seek(args),
            },
        },
    }
}

/// Flags about the position.
#[verifier::opaque]
pub open spec fn asked_to_seek(args: Seq<String>) -> CliAction {
    match after(args, "--seek"@) {
        Some(value) => match secs_in(value) {
            Some(secs) => CliAction::Send(Command::SeekAbsolute { secs }),
            None => CliAction::SeekInvalid,
        },
        None => match after(args, "--seek-forward"@) {
            Some(value) => CliAction::Send(Command::SeekForward { secs: secs_or_five(value) }),
            None => match after(args, "--seek-backward"@) {
                Some(value) => CliAction::Send(Command::SeekBackward { secs: secs_or_five(value) }),
                None => asked_to_play(args),
            },
        },
    }
}

/// Flags about playback, and opening the client where there is none.
#[verifier::opaque]
pub open spec fn asked_to_play(args: Seq<String>) -> CliAction {
    if has(args, "--play"@) {
        CliAction::Play
    } else if has(args, "--pause"@) {
        CliAction::Pause
    } else if has(args, "--stop"@) {
        CliAction::Send(Command::Stop)
    } else if has(args, "-n"@) || has(args, "--next"@) {
        CliAction::Send(Command::NextTrack)
    } else if has(args, "-b"@) || has(args, "--prev"@) {
        CliAction::Send(Command::PrevTrack)
    } else if has(args, "-p"@) || has(args, "--toggle"@) {
        CliAction::Send(Command::TogglePause)
    } else if has(args, "--shuffle"@) || has(args, "--toggle-shuffle"@) {
        CliAction::Send(Command::ToggleShuffle)
    } else if has(args, "--repeat"@) || has(args, "--cycle-repeat"@) {
        CliAction::Send(Command::CycleRepeat)
    } else if has(args, "--like"@) {
        CliAction::Like
    } else if has(args, "--dislike"@) {
        CliAction::Dislike
    } else {
        CliAction::Client { updated: has(args, "--updated"@) }
    }
}

fn ask_to_play(args: &Vec<String>) -> (r: CliAction)
    ensures
        r == asked_to_play(args@),
{
    proof {
        reveal(asked_to_play);
    }
    if contains_id(args, "--play") {
        CliAction::Play
    } else if contains_id(args, "--pause") {
        CliAction::Pause
    } else if contains_id(args, "--stop") {
        CliAction::Send(Command::Stop)
    } else if contains_id(args, "-n") || contains_id(args, "--next") {
        CliAction::Send(Command::NextTrack)
    } else if contains_id(args, "-b") || contains_id(args, "--prev") {
        CliAction::Send(Command::PrevTrack)
    } else if contains_id(args, "-p") || contains_id(args, "--toggle") {
        CliAction::Send(Command::TogglePause)
    } else if contains_id(args, "--shuffle") || contains_id(args, "--toggle-shuffle") {
        CliAction::Send(Command::ToggleShuffle)
    } else if contains_id(args, "--repeat") || contains_id(args, "--cycle-repeat") {
        CliAction::Send(Command::CycleRepeat)
    } else if contains_id(args, "--like") {
        CliAction::Like
    } else if contains_id(args, "--dislike") {
        CliAction::Dislike
    } else {
        CliAction::Client { updated: contains_id(args, "--updated") }
    }
}

fn ask_to_seek(args: &Vec<String>) -> (r: CliAction)
    ensures
        r == asked_to_seek(args@),
{
    proof {
        reveal(asked_to_seek);
    }
    match value_after(args, "--seek") {
        Some(value) => {
            return match read_secs(&value) {
                Some(secs) => CliAction::Send(Command::SeekAbsolute { secs }),
                None => CliAction::SeekInvalid,
            };
        },
        None => {},
    }
    match value_after(args, "--seek-forward") {
        Some(value) => {
            return CliAction::Send(Command::SeekForward { secs: secs_or_usual(&value) });
        },
        None => {},
    }
    match value_after(args, "--seek-backward") {
        Some(value) => CliAction::Send(Command::SeekBackward { secs: secs_or_usual(&value) }),
        None => ask_to_play(args),
    }
}

fn ask_of_volume(args: &Vec<String>) -> (r: CliAction)
    ensures
        r == asked_of_volume(args@),
{
    proof {
        reveal(asked_of_volume);
    }
    match value_after(args, "--volume") {
        Some(Some(percent)) => {
            return CliAction::Volume(percent);
        },
        Some(None) => {
            return CliAction::VolumeMissing;
        },
        None => {},
    }
    match value_after(args, "--volume-up") {
        Some(step) => {
            return CliAction::VolumeStep { up: true, step };
        },
        None => {},
    }
    match value_after(args, "--volume-down") {
        Some(step) => CliAction::VolumeStep { up: false, step },
        None => ask_to_seek(args),
    }
}

/// Reads the command line. Where several flags are given, the first of these that
/// is among them decides: help, version, completions, quit, status, volume,
/// seeking, and then the other controls of playback.
pub fn parse_args(args: &Vec<String>) -> (r: CliAction)
    ensures
        r == asked_first(args@),
{
    proof {
        reveal(asked_first);
    }
    if contains_id(args, "-h") || contains_id(args, "--help") {
        return CliAction::Help;
    }
    if contains_id(args, "-v") || contains_id(args, "--version") {
        return CliAction::Version;
    }
    match value_after(args, "--completions") {
        Some(Some(shell)) => {
            return CliAction::Completions(shell);
        },
        Some(None) => {
            return CliAction::CompletionsMissing;
        },
        None => {},
    }
    if contains_id(args, "-q") || contains_id(args, "--quit") {
        return CliAction::Quit;
    }
    if contains_id(args, "-s") || contains_id(args, "--status") || contains_id(args, "--current") {
        let json: bool = contains_id(args, "--json") || contains_id(args, "-j");
        return CliAction::Status { json };
    }
    ask_of_volume(args)
}

/// Asking for help shows it, whatever else is asked.
pub proof fn help_comes_first(args: Seq<String>)
    requires
        has(args, "--help"@),
    ensures
        asked_first(args) == CliAction::Help,
{
    reveal(asked_first);
}

/// What `--play` sends: only paused playback goes on, as toggling while a track
/// loads would pause it.
pub fn play_command(status: PlaybackStatus) -> (r: Option<Command>)
    ensures
        r == (if status == PlaybackStatus::Paused {
            Some(Command::TogglePause)
        } else {
            None
        }),
{
    if status == PlaybackStatus::Paused {
        Some(Command::TogglePause)
    } else {
        None
    }
}

/// What `--pause` sends: only something that plays is paused.
pub fn pause_command(status: PlaybackStatus) -> (r: Option<Command>)
    ensures
        r == (if status == PlaybackStatus::Playing {
            Some(Command::TogglePause)
        } else {
            None
        }),
{
    if status == PlaybackStatus::Playing {
        Some(Command::TogglePause)
    } else {
        None
    }
}

/// What `--like` sends, where something is playing.
pub fn like_command(track: Option<TrackData>) -> (r: Option<Command>)
    ensures
        r == (match track {
            Some(t) => Some(Command::AddFavorite { track_id: t.track_id }),
            None => None,
        }),
{
    match track {
        Some(t) => Some(Command::AddFavorite { track_id: t.track_id }),
        None => None,
    }
}

/// What `--dislike` sends, where something is playing.
pub fn dislike_command(track: Option<TrackData>) -> (r: Option<Command>)
    ensures
        r == (match track {
            Some(t) => Some(Command::DislikeTrack { track_id: t.track_id }),
            None => None,
        }),
{
    match track {
        Some(t) => Some(Command::DislikeTrack { track_id: t.track_id }),
        None => None,
    }
}

/// A volume moved by a step, both in thousandths, kept between silent and full.
pub open spec fn stepped(volume: u32, step: i64) -> u32 {
    if volume + step < 0 {
        0
    } else if volume + step > 1000 {
        1000
    } else {
        (volume + step) as u32
    }
}

/// What a volume step sends.
pub fn step_command(volume: u32, step: i64) -> (r: Command)
    ensures
        r == (Command::SetVolume { volume: stepped(volume, step) }),
{
    let sum: i128 = volume as i128 + step as i128;
    let volume: u32 = if sum < 0 {
        0
    } else if sum > 1000 {
        1000
    } else {
        sum as u32
    };
    Command::SetVolume { volume }
}

/// Word for a playback state.
pub open spec fn status_name(status: PlaybackStatus) -> Seq<char> {
    match status {
        PlaybackStatus::Playing => "playing"@,
        PlaybackStatus::Paused => "paused"@,
        PlaybackStatus::Stopped => "stopped"@,
        PlaybackStatus::Loading => "loading"@,
    }
}

/// Word for a playback state.
pub fn status_word(status: PlaybackStatus) -> (r: &'static str)
    ensures
        r@ == status_name(status),
{
    match status {
        PlaybackStatus::Playing => "playing",
        PlaybackStatus::Paused => "paused",
        PlaybackStatus::Stopped => "stopped",
        PlaybackStatus::Loading => "loading",
    }
}

/// Word for a repeat mode.
pub open spec fn repeat_name(repeat: RepeatMode) -> Seq<char> {
    match repeat {
        RepeatMode::Off => "off"@,
        RepeatMode::Queue => "queue"@,
        RepeatMode::Track => "track"@,
    }
}

/// Word for a repeat mode.
pub fn repeat_word(repeat: RepeatMode) -> (r: &'static str)
    ensures
        r@ == repeat_name(repeat),
{
    match repeat {
        RepeatMode::Off => "off",
        RepeatMode::Queue => "queue",
        RepeatMode::Track => "track",
    }
}

/// The volume as a percentage, rounded, from thousandths.
pub fn volume_percent(volume: u32) -> (r: u32)
    requires
        volume <= 1000,
    ensures
        r == (volume + 5) / 10,
{
    (volume + 5) / 10
}

/// A track's name and artist after a sign, control codes taken out.
pub open spec fn named(sign: Seq<char>, track: TrackData) -> Seq<char> {
    sign + text::sanitized(track.title@) + " — "@ + text::sanitized(track.artist@)
}

/// The same with the position behind it.
pub open spec fn timed(sign: Seq<char>, track: TrackData, position: u64, duration: u64) -> Seq<char> {
    named(sign, track) + " ["@ + text::clock_text(position as nat) + "/"@ + text::clock_text(
        duration as nat,
    ) + "]"@
}

/// The line that shows what is playing.
pub open spec fn status_text(s: DaemonSnapshot) -> Seq<char> {
    match s.current_track {
        Some(track) => match s.status {
            PlaybackStatus::Playing => timed("▶ "@, track, s.position_secs, s.duration_secs),
            PlaybackStatus::Paused => timed("⏸ "@, track, s.position_secs, s.duration_secs),
            PlaybackStatus::Loading => named("⏳ "@, track),
            PlaybackStatus::Stopped => "⏹ Stopped"@,
        },
        None => "⏹ Stopped"@,
    }
}

fn name_line(sign: &str, track: &TrackData) -> (r: String)
    ensures
        r@ == named(sign@, *track),
{
    let title: String = sanitize(&track.title);
    let artist: String = sanitize(&track.artist);
    let mut r: String = joined(sign, &title);
    push_text(&mut r, " — ");
    push_text(&mut r, &artist);
    r
}

fn time_line(sign: &str, track: &TrackData, position: u64, duration: u64) -> (r: String)
    ensures
        r@ == timed(sign@, *track, position, duration),
{
    let mut r: String = name_line(sign, track);
    push_text(&mut r, " [");
    let position: String = format_time(position);
    push_text(&mut r, &position);
    push_text(&mut r, "/");
    let duration: String = format_time(duration);
    push_text(&mut r, &duration);
    push_text(&mut r, "]");
    r
}

/// The line that shows what is playing.
pub fn status_line(s: &DaemonSnapshot) -> (r: String)
    ensures
        r@ == status_text(*s),
{
    match &s.current_track {
        Some(track) => match s.status {
            PlaybackStatus::Playing => time_line("▶ ", track, s.position_secs, s.duration_secs),
            PlaybackStatus::Paused => time_line("⏸ ", track, s.position_secs, s.duration_secs),
            PlaybackStatus::Loading => name_line("⏳ ", track),
            PlaybackStatus::Stopped => text::owned("⏹ Stopped"),
        },
        None => text::owned("⏹ Stopped"),
    }
}

/// A step moves the volume by what it says, up or down, and stops at silent and at
/// full.
pub proof fn volume_steps_stay_in_range(volume: u32, step: i64)
    requires
        volume <= 1000,
    ensures
        stepped(volume, step) <= 1000,
        0 <= volume + step <= 1000 ==> stepped(volume, step) == volume + step,
        volume + step < 0 ==> stepped(volume, step) == 0,
        volume + step > 1000 ==> stepped(volume, step) == 1000,
{
}

/// The status line tells what plays: its title and artist, and how far it is of
/// how long; a track that loads has no position yet, and without a track playback
/// counts as stopped.
pub proof fn the_status_line_tells_what_plays(s: DaemonSnapshot, track: TrackData)
    ensures
        s.current_track == Some(track) ==> {
            let name = text::sanitized(track.title@) + " — "@ + text::sanitized(track.artist@);
            let at = text::clock_text(s.position_secs as nat) + "/"@ + text::clock_text(
                s.duration_secs as nat,
            );
            &&& s.status == PlaybackStatus::Playing ==> status_text(s) == "▶ "@ + name + " ["@ + at
                + "]"@
            &&& s.status == PlaybackStatus::Paused ==> status_text(s) == "⏸ "@ + name + " ["@ + at
                + "]"@
            &&& s.status == PlaybackStatus::Loading ==> status_text(s) == "⏳ "@ + name
        },
        s.current_track is None || s.status == PlaybackStatus::Stopped ==> status_text(s)
            == "⏹ Stopped"@,
{
    match s.current_track {
        Some(t) => {
            let name = text::sanitized(t.title@) + " — "@ + text::sanitized(t.artist@);
            let at = text::clock_text(s.position_secs as nat) + "/"@ + text::clock_text(
                s.duration_secs as nat,
            );
            assert(named("▶ "@, t) =~= "▶ "@ + name);
            assert(named("⏸ "@, t) =~= "⏸ "@ + name);
            assert(named("⏳ "@, t) =~= "⏳ "@ + name);
            assert(timed("▶ "@, t, s.position_secs, s.duration_secs) =~= "▶ "@ + name + " ["@
                + at + "]"@);
            assert(timed("⏸ "@, t, s.position_secs, s.duration_secs) =~= "⏸ "@ + name + " ["@
                + at + "]"@);
        },
        None => {},
    }
}

} // verus!
