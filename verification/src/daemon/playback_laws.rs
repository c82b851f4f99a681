//! What playback promises: which track follows which, where it is in the track,
//! and what is asked of the audio output and of the service.

use vstd::prelude::*;

use crate::daemon::playback;
use crate::daemon::{Chance, DaemonView, Effect, EngineCommand};
use crate::models::{AudioQuality, TrackData};
use crate::notice::{NoticeKind, NoticeView};
use crate::player::{PlaybackStatus, RepeatMode};
use crate::protocol::Command;
use crate::queue;

verus! {

/// A track of this id is among the downloads.
pub open spec fn on_disk(d: DaemonView, track: TrackData) -> bool {
    exists|i: int|
        0 <= i < d.offline.index.tracks.len()
            && (#[trigger] d.offline.index.tracks[i]).track.track_id@ == track.track_id@
}

/// The player shows a track as loading, from its beginning.
pub open spec fn shows_loading(r: DaemonView, track: TrackData) -> bool {
    &&& r.player.status == PlaybackStatus::Loading
    &&& r.player.current_track == Some(track)
    &&& r.player.duration_secs == track.duration
    &&& r.player.position_secs == 0
    &&& r.run.logged_for is None
    &&& r.status_msg == Some(
        NoticeView { kind: NoticeKind::Loading, detail: Seq::empty(), count: 0 },
    )
}

/// Of `d`, `r` differs by a request that went out last: this track, in the
/// preferred quality, under a number of its own.
pub open spec fn fetches(d: DaemonView, r: DaemonView, track: TrackData) -> bool {
    &&& r.outbox.len() > d.outbox.len()
    &&& r.outbox.last() == Effect::FetchTrack {
        track,
        quality: d.config.quality,
        generation: r.run.generation,
    }
    &&& r.run.generation != d.run.generation
    &&& shows_loading(r, track)
}

/// Of `d`, `r` differs by a downloaded track that is to be read.
pub open spec fn reads(d: DaemonView, r: DaemonView, track: TrackData) -> bool {
    &&& r.outbox.len() > d.outbox.len()
    &&& r.outbox.last() == Effect::ReadTrack { track, generation: r.run.generation }
    &&& r.run.generation != d.run.generation
    &&& shows_loading(r, track)
}

/// The queue, the place in it and the way through it are the same.
pub open spec fn same_queue(d: DaemonView, r: DaemonView) -> bool {
    &&& r.player.queue == d.player.queue
    &&& r.player.queue_index == d.player.queue_index
    &&& r.player.shuffle == d.player.shuffle
    &&& r.player.repeat == d.player.repeat
    &&& r.run.shuffle_order == d.run.shuffle_order
    &&& r.run.shuffle_pos == d.run.shuffle_pos
    &&& r.run.flow_active == d.run.flow_active
    &&& r.run.active_mood == d.run.active_mood
}

/// Nothing of playback changed but the position and what was reported.
pub open spec fn plays_on(d: DaemonView, r: DaemonView) -> bool {
    &&& same_queue(d, r)
    &&& r.player.status == d.player.status
    &&& r.player.current_track == d.player.current_track
    &&& r.player.duration_secs == d.player.duration_secs
    &&& r.player.quality == d.player.quality
    &&& r.player.volume == d.player.volume
    &&& r.run.started_at == d.run.started_at
    &&& r.run.offset_secs == d.run.offset_secs
    &&& r.run.generation == d.run.generation
    &&& r.status_msg == d.status_msg
}

/// A track can be fetched: there is a connection, and the decryption key unless
/// the track has a stream of its own.
pub open spec fn can_fetch(d: DaemonView, track: TrackData) -> bool {
    !d.is_offline && (d.run.key_ready || track.stream_url is Some)
}

// ── Starting a track ────────────────────────────────────────────────

/// With a connection a track that starts is fetched in the preferred quality;
/// without one it is read from disk. A track that can be had in neither way
/// leaves the player as it is, with a word of why.
pub proof fn a_track_starts_from_where_it_can_be_had(d: DaemonView, track: TrackData)
    ensures
        ({
            let r = d.start_play_track(track);
            &&& same_queue(d, r)
            &&& can_fetch(d, track) ==> fetches(d, r, track) && r.outbox.len() == d.outbox.len()
                + 1
            &&& d.is_offline && on_disk(d, track) ==> reads(d, r, track) && r.outbox.len()
                == d.outbox.len() + 1
            &&& d.is_offline && !on_disk(d, track) ==> r == (DaemonView {
                status_msg: Some(
                    NoticeView { kind: NoticeKind::NoInternet, detail: Seq::empty(), count: 0 },
                ),
                ..d
            })
            &&& !d.is_offline && !can_fetch(d, track) ==> r == (DaemonView {
                status_msg: Some(
                    NoticeView { kind: NoticeKind::PlayerNotReady, detail: Seq::empty(), count: 0 },
                ),
                ..d
            })
        }),
        ({
            let r = d.start_play_offline_track(track);
            same_queue(d, r) && reads(d, r, track) && r.outbox.len() == d.outbox.len() + 1
        }),
{
    reveal(DaemonView::start_play_track);
    reveal(DaemonView::start_play_offline_track);
    on_disk_is_indexed(d, track);
}

/// The downloads list a track exactly when one of them has its id.
pub proof fn on_disk_is_indexed(d: DaemonView, track: TrackData)
    ensures
        on_disk(d, track) == d.offline.index.has_track(track.track_id@),
{
    if on_disk(d, track) {
        let i = choose|i: int|
            0 <= i < d.offline.index.tracks.len()
                && (#[trigger] d.offline.index.tracks[i]).track.track_id@ == track.track_id@;
        assert(crate::seqs::HasId::id_of(&d.offline.index.tracks[i]) == track.track_id@);
    }
    if d.offline.index.has_track(track.track_id@) {
        let i = choose|i: int|
            0 <= i < d.offline.index.tracks.len() && crate::seqs::HasId::id_of(
                &#[trigger] d.offline.index.tracks[i],
            ) == track.track_id@;
        assert(d.offline.index.tracks[i].track.track_id@ == track.track_id@);
    }
}

// ── The end of a track ──────────────────────────────────────────────

/// When the playing track has finished: under repeat-track it starts again, at
/// the same place of the queue; otherwise the queue goes one place on, and the
/// track at that place is fetched. At the end of the queue repeat-all begins
/// again at the first place, Flow or a mood is asked for more, and without any
/// of these nothing more is asked for.
#[verifier::rlimit(40)]
pub proof fn a_finished_track_is_followed(d: DaemonView, now: u64, seed: u64)
    requires
        d.run.engine_ready,
        d.player.status == PlaybackStatus::Playing,
        !d.is_offline,
        d.run.key_ready,
        !d.player.shuffle || d.player.repeat == RepeatMode::Track,
        d.player.queue.len() > 0,
        d.player.queue_index < d.player.queue.len(),
        d.fits(),
    ensures
        ({
            let r = d.on_tick(true, now, seed);
            let next = d.player.queue_index + 1;
            let last = next == d.player.queue.len();
            &&& r.player.queue == d.player.queue
            &&& r.player.repeat == d.player.repeat
            &&& r.player.shuffle == d.player.shuffle
            &&& d.player.repeat == RepeatMode::Track && d.player.current_track is Some ==> {
                &&& fetches(d, r, d.player.current_track->0)
                &&& r.player.queue_index == d.player.queue_index
                &&& r.run.shuffle_pos == d.run.shuffle_pos
            }
            &&& d.player.repeat != RepeatMode::Track && !last ==> {
                &&& r.player.queue_index == next
                &&& fetches(d, r, d.player.queue[next])
            }
            &&& d.player.repeat != RepeatMode::Track && last && d.run.flow_active ==> {
                &&& r.outbox.last() == Effect::LoadFlow
                &&& r.player.status == PlaybackStatus::Loading
                &&& r.player.queue_index == d.player.queue_index
            }
            &&& d.player.repeat != RepeatMode::Track && last && !d.run.flow_active
                && d.run.active_mood is Some ==> {
                &&& r.outbox.last() == Effect::LoadMoodTracks {
                    mood: d.run.active_mood->0,
                    continuation: true,
                }
                &&& r.run.active_mood == d.run.active_mood
                &&& r.player.status == PlaybackStatus::Loading
                &&& r.player.queue_index == d.player.queue_index
            }
            &&& d.player.repeat == RepeatMode::Queue && last && !d.run.flow_active
                && d.run.active_mood is None ==> {
                &&& r.player.queue_index == 0
                &&& fetches(d, r, d.player.queue[0])
            }
            &&& d.player.repeat == RepeatMode::Off && last && !d.run.flow_active
                && d.run.active_mood is None ==> plays_on(d, r)
        }),
{
    reveal(DaemonView::on_tick);
    reveal(DaemonView::clocked);
    reveal(DaemonView::log_listen);
    reveal(DaemonView::follow_up);
    reveal(DaemonView::play_next);
    reveal(DaemonView::next_in_queue);
    reveal(DaemonView::advance_to);
    reveal(DaemonView::start_play_track);
    reveal(DaemonView::start_flow);
    reveal(DaemonView::start_play_mood);
}

/// Under shuffle, a finished track is followed by the next one of the cycle.
pub proof fn a_finished_track_is_followed_in_the_cycle(d: DaemonView, now: u64, seed: u64)
    requires
        d.wf(),
        d.fits(),
        d.run.engine_ready,
        d.player.status == PlaybackStatus::Playing,
        !d.is_offline,
        d.run.key_ready,
        d.player.shuffle,
        d.player.repeat != RepeatMode::Track,
        d.run.shuffle_order.len() == d.player.queue.len(),
        d.run.shuffle_pos + 1 < d.run.shuffle_order.len(),
    ensures
        ({
            let r = d.on_tick(true, now, seed);
            let next = d.run.shuffle_order[d.run.shuffle_pos + 1];
            &&& r.player.queue == d.player.queue
            &&& r.player.queue_index == next
            &&& r.run.shuffle_order == d.run.shuffle_order
            &&& r.run.shuffle_pos == d.run.shuffle_pos + 1
            &&& fetches(d, r, d.player.queue[next as int])
        }),
{
    reveal(DaemonView::on_tick);
    reveal(DaemonView::clocked);
    reveal(DaemonView::log_listen);
    reveal(DaemonView::follow_up);
    reveal(DaemonView::play_next);
    reveal(DaemonView::sync_shuffle_order);
    reveal(DaemonView::next_in_cycle);
    reveal(DaemonView::advance_to);
    reveal(DaemonView::start_play_track);
}

/// While the track has not finished, or nothing plays, or there is no audio
/// output, time leaves the track, the queue and the place in it alone.
pub proof fn unfinished_tracks_play_on(d: DaemonView, finished: bool, now: u64, seed: u64)
    requires
        !finished || !d.run.engine_ready || d.player.status != PlaybackStatus::Playing,
    ensures
        plays_on(d, d.on_tick(finished, now, seed)),
        d.player.status != PlaybackStatus::Playing ==> d.on_tick(finished, now, seed) == d,
{
    reveal(DaemonView::on_tick);
    reveal(DaemonView::clocked);
    reveal(DaemonView::log_listen);
    reveal(DaemonView::follow_up);
}

// ── The clock ───────────────────────────────────────────────────────

/// A track that went on at `from`, then `offset` seconds in, is `offset` plus the
/// whole seconds since then in, and at its end at most.
pub open spec fn heard(offset: u64, from: u64, now: u64, duration: u64) -> int {
    let at = offset + (now - from) / 1000;
    if duration > 0 && at > duration {
        duration as int
    } else {
        at
    }
}

/// While a track plays, every tick shows how far it is by the clock.
pub proof fn ticks_follow_the_clock(d: DaemonView, from: u64, now: u64, seed: u64)
    requires
        d.player.status == PlaybackStatus::Playing,
        d.run.started_at == Some(from),
        from <= now,
        d.run.offset_secs + (now - from) / 1000 <= u64::MAX,
    ensures
        d.on_tick(false, now, seed).player.position_secs == heard(
            d.run.offset_secs,
            from,
            now,
            d.player.duration_secs,
        ),
{
    reveal(DaemonView::on_tick);
    reveal(DaemonView::clocked);
    reveal(DaemonView::log_listen);
    reveal(DaemonView::follow_up);
}

/// No playing time is lost by a pause: a track that went on at `from` with
/// `offset` seconds behind it, was paused at `paused` and went on at `resumed`,
/// shows at `now` the seconds before the pause and those after it. While it is
/// paused its position stands still.
#[verifier::rlimit(40)]
pub proof fn pausing_loses_no_time(
    d: DaemonView,
    from: u64,
    paused: u64,
    resumed: u64,
    now: u64,
    chance: Chance,
)
    requires
        d.run.engine_ready,
        d.player.status == PlaybackStatus::Playing,
        d.run.started_at == Some(from),
        from <= paused <= resumed <= now,
        d.run.offset_secs + (paused - from) / 1000 + (now - resumed) / 1000 <= u64::MAX,
    ensures
        ({
            let held = d.command(Command::TogglePause, paused, chance);
            let waiting = held.on_tick(false, resumed, chance.seed);
            let on = held.command(Command::TogglePause, resumed, chance);
            let later = on.on_tick(false, now, chance.seed);
            let before = d.run.offset_secs + (paused - from) / 1000;
            let total = before + (now - resumed) / 1000;
            &&& held.player.status == PlaybackStatus::Paused
            &&& held.run.started_at is None
            &&& held.run.offset_secs == before
            &&& held.outbox == d.outbox.push(Effect::Engine(EngineCommand::Pause))
            &&& waiting == held
            &&& on.player.status == PlaybackStatus::Playing
            &&& on.run.started_at == Some(resumed)
            &&& on.run.offset_secs == before
            &&& on.outbox == held.outbox.push(Effect::Engine(EngineCommand::Resume))
            &&& on.player.current_track == d.player.current_track
            &&& same_queue(d, on)
            &&& later.player.position_secs == (if d.player.duration_secs > 0 && total
                > d.player.duration_secs {
                d.player.duration_secs as int
            } else {
                total
            })
        }),
{
    reveal(DaemonView::command);
    reveal(DaemonView::toggle_pause);
    reveal(DaemonView::resume_playback);
    reveal(DaemonView::on_tick);
    reveal(DaemonView::clocked);
    reveal(DaemonView::log_listen);
    reveal(DaemonView::follow_up);
}

/// There is nothing to pause and nothing to go on with while a track loads,
/// after playback has ended, or without an audio output.
pub proof fn only_a_track_can_be_paused(d: DaemonView, now: u64, chance: Chance)
    requires
        !d.run.engine_ready || d.player.status == PlaybackStatus::Stopped || d.player.status
            == PlaybackStatus::Loading,
    ensures
        d.command(Command::TogglePause, now, chance) == d,
{
    reveal(DaemonView::command);
    reveal(DaemonView::toggle_pause);
}

/// Once the audio output has gone to a place of the track, the clock goes on from
/// there.
pub proof fn the_clock_goes_on_from_a_seek(
    d: DaemonView,
    secs: u64,
    sought: u64,
    now: u64,
    seed: u64,
)
    requires
        d.player.status == PlaybackStatus::Playing,
        d.run.started_at is Some,
        sought <= now,
        secs + (now - sought) / 1000 <= u64::MAX,
    ensures
        ({
            let r = d.seek_done(secs, sought);
            &&& r.player.position_secs == secs
            &&& r.on_tick(false, now, seed).player.position_secs == heard(
                secs,
                sought,
                now,
                d.player.duration_secs,
            )
        }),
{
    reveal(DaemonView::seek_done);
    ticks_follow_the_clock(d.seek_done(secs, sought), sought, now, seed);
}

/// A seek in a paused track moves it, and it goes on from there.
pub proof fn a_paused_track_goes_on_from_a_seek(d: DaemonView, secs: u64, sought: u64)
    requires
        d.run.started_at is None,
    ensures
        ({
            let r = d.seek_done(secs, sought);
            &&& r.player.position_secs == secs
            &&& r.run.offset_secs == secs
            &&& r.run.started_at is None
            &&& r.player.status == d.player.status
            &&& r.player.current_track == d.player.current_track
            &&& same_queue(d, r)
            &&& r.outbox == d.outbox
        }),
{
    reveal(DaemonView::seek_done);
}

// ── Reporting what was heard ────────────────────────────────────────

/// A play is reported by the tick at which half a minute of it has been heard,
/// for the track that plays and in the preferred quality: with a connection, for
/// a track that the service knows, and once. No other tick reports anything.
pub proof fn half_a_minute_counts_as_heard(d: DaemonView, now: u64, seed: u64)
    requires
        d.player.current_track is Some,
    ensures
        ({
            let r = d.on_tick(false, now, seed);
            let track = d.player.current_track->0;
            let own = track.track_id@.len() > 0 && track.track_id@[0] == '-';
            let known = d.run.logged_for is Some && d.run.logged_for->0@ == track.track_id@;
            if d.player.status == PlaybackStatus::Playing && !d.is_offline
                && r.player.position_secs >= 30 && !own && track.stream_url is None && !known {
                &&& r.outbox == d.outbox.push(
                    Effect::LogListen { track_id: track.track_id, quality: d.config.quality },
                )
                &&& r.run.logged_for == Some(track.track_id)
            } else {
                &&& r.outbox == d.outbox
                &&& r.run.logged_for == d.run.logged_for
            }
        }),
{
    reveal(DaemonView::on_tick);
    reveal(DaemonView::clocked);
    reveal(DaemonView::log_listen);
    reveal(DaemonView::follow_up);
}

// ── Next and previous ───────────────────────────────────────────────

/// Next goes one place on and fetches the track there; at the end it goes to the
/// first place under repeat-all, asks Flow or the mood for more, lets a paused
/// track go on, or does nothing.
#[verifier::rlimit(40)]
pub proof fn next_goes_one_place_on(d: DaemonView, now: u64, chance: Chance)
    requires
        !d.is_offline,
        d.run.key_ready,
        !d.player.shuffle,
        d.player.queue_index < d.player.queue.len(),
        d.fits(),
    ensures
        ({
            let r = d.command(Command::NextTrack, now, chance);
            let next = d.player.queue_index + 1;
            let last = next == d.player.queue.len();
            let more = d.run.flow_active || d.run.active_mood is Some;
            &&& r.player.queue == d.player.queue
            &&& !last ==> {
                &&& r.player.queue_index == next
                &&& fetches(d, r, d.player.queue[next])
                &&& r.outbox.len() == d.outbox.len() + 1
            }
            &&& last && d.run.flow_active ==> {
                &&& r.outbox == d.outbox.push(Effect::LoadFlow)
                &&& r.player.queue_index == d.player.queue_index
                &&& r.player.status == PlaybackStatus::Loading
            }
            &&& last && !d.run.flow_active && d.run.active_mood is Some ==> {
                &&& r.outbox == d.outbox.push(
                    Effect::LoadMoodTracks { mood: d.run.active_mood->0, continuation: true },
                )
                &&& r.player.queue_index == d.player.queue_index
                &&& r.player.status == PlaybackStatus::Loading
            }
            &&& last && !more && d.player.repeat == RepeatMode::Queue ==> {
                &&& r.player.queue_index == 0
                &&& fetches(d, r, d.player.queue[0])
            }
            &&& last && !more && d.player.repeat != RepeatMode::Queue ==> {
                if d.player.status == PlaybackStatus::Paused && d.run.engine_ready {
                    &&& r.player.status == PlaybackStatus::Playing
                    &&& r.run.started_at == Some(now)
                    &&& r.outbox == d.outbox.push(Effect::Engine(EngineCommand::Resume))
                    &&& same_queue(d, r)
                    &&& r.player.current_track == d.player.current_track
                } else {
                    r == d
                }
            }
        }),
{
    reveal(DaemonView::command);
    reveal(DaemonView::play_next);
    reveal(DaemonView::next_in_queue);
    reveal(DaemonView::advance_to);
    reveal(DaemonView::start_play_track);
    reveal(DaemonView::start_flow);
    reveal(DaemonView::start_play_mood);
    reveal(DaemonView::resume_playback);
}

/// Previous goes one place back and fetches the track there; at the first place
/// it goes to the last one under repeat-all, and otherwise lets a paused track go
/// on or does nothing.
pub proof fn previous_goes_one_place_back(d: DaemonView, now: u64, chance: Chance)
    requires
        !d.is_offline,
        d.run.key_ready,
        !d.player.shuffle,
        d.player.queue_index < d.player.queue.len(),
        d.fits(),
    ensures
        ({
            let r = d.command(Command::PrevTrack, now, chance);
            let back = d.player.queue_index - 1;
            let end = d.player.queue.len() - 1;
            &&& r.player.queue == d.player.queue
            &&& back >= 0 ==> {
                &&& r.player.queue_index == back
                &&& fetches(d, r, d.player.queue[back])
                &&& r.outbox.len() == d.outbox.len() + 1
            }
            &&& back < 0 && d.player.repeat == RepeatMode::Queue ==> {
                &&& r.player.queue_index == end
                &&& fetches(d, r, d.player.queue[end])
                &&& r.outbox.len() == d.outbox.len() + 1
            }
            &&& back < 0 && d.player.repeat != RepeatMode::Queue ==> {
                if d.player.status == PlaybackStatus::Paused && d.run.engine_ready {
                    &&& r.player.status == PlaybackStatus::Playing
                    &&& r.run.started_at == Some(now)
                    &&& r.outbox == d.outbox.push(Effect::Engine(EngineCommand::Resume))
                    &&& same_queue(d, r)
                } else {
                    r == d
                }
            }
        }),
{
    reveal(DaemonView::command);
    reveal(DaemonView::play_prev);
    reveal(DaemonView::prev_in_queue);
    reveal(DaemonView::back_to);
    reveal(DaemonView::start_play_track);
    reveal(DaemonView::resume_playback);
}

/// Under shuffle, next and previous walk along the cycle; a cycle that is over
/// begins anew under repeat-all, as a full pass that does not open with the track
/// that just played.
#[verifier::rlimit(40)]
pub proof fn next_and_previous_walk_the_cycle(d: DaemonView, now: u64, chance: Chance)
    requires
        d.wf(),
        d.fits(),
        !d.is_offline,
        d.run.key_ready,
        d.player.shuffle,
        d.player.queue.len() > 0,
        d.run.shuffle_order.len() == d.player.queue.len(),
    ensures
        ({
            let r = d.command(Command::NextTrack, now, chance);
            let pos = d.run.shuffle_pos + 1;
            &&& pos < d.run.shuffle_order.len() ==> {
                &&& r.player.queue_index == d.run.shuffle_order[pos]
                &&& r.run.shuffle_pos == pos
                &&& r.run.shuffle_order == d.run.shuffle_order
                &&& fetches(d, r, d.player.queue[d.run.shuffle_order[pos] as int])
            }
            &&& pos == d.run.shuffle_order.len() && !d.run.flow_active && d.run.active_mood is None
                && d.player.repeat == RepeatMode::Queue ==> {
                &&& queue::is_cycle(r.run.shuffle_order, d.player.queue.len())
                &&& r.run.shuffle_order[0] == d.player.queue_index
                &&& r.player.queue_index == r.run.shuffle_order[r.run.shuffle_pos as int]
                &&& d.player.queue.len() > 1 ==> r.run.shuffle_pos == 1 && r.player.queue_index
                    != d.player.queue_index
                &&& fetches(d, r, d.player.queue[r.player.queue_index as int])
            }
        }),
        ({
            let r = d.command(Command::PrevTrack, now, chance);
            let pos = d.run.shuffle_pos - 1;
            &&& pos >= 0 ==> {
                &&& r.player.queue_index == d.run.shuffle_order[pos]
                &&& r.run.shuffle_pos == pos
                &&& r.run.shuffle_order == d.run.shuffle_order
                &&& fetches(d, r, d.player.queue[d.run.shuffle_order[pos] as int])
            }
            &&& pos < 0 ==> same_queue(d, r) && r.player.current_track == d.player.current_track
        }),
{
    reveal(DaemonView::command);
    reveal(DaemonView::play_next);
    reveal(DaemonView::sync_shuffle_order);
    reveal(DaemonView::next_in_cycle);
    reveal(DaemonView::reshuffled);
    reveal(DaemonView::advance_to);
    reveal(DaemonView::play_prev);
    reveal(DaemonView::prev_in_cycle);
    reveal(DaemonView::back_to);
    reveal(DaemonView::start_play_track);
    reveal(DaemonView::resume_playback);
    queue::shuffle_is_a_full_pass(d.player.queue.len(), d.player.queue_index, chance.seed);
}

/// Nothing at one of the first places is downloaded.
proof fn downloads_come_later(
    places: Seq<(usize, usize)>,
    d: DaemonView,
    at: int,
)
    requires
        0 <= at < places.len(),
        places[at].1 < d.player.queue.len(),
        on_disk(d, d.player.queue[places[at].1 as int]),
        forall|k: int|
            0 <= k < at ==> (#[trigger] places[k]).1 < d.player.queue.len() && !on_disk(
                d,
                d.player.queue[places[k].1 as int],
            ),
    ensures
        playback::first_downloaded(places, d.player.queue, d.offline.index) == Some(places[at]),
    decreases places.len(),
{
    on_disk_is_indexed(d, d.player.queue[places[0].1 as int]);
    if at > 0 {
        let rest = places.skip(1);
        assert(rest[at - 1] == places[at]);
        assert forall|k: int| 0 <= k < at - 1 implies (#[trigger] rest[k]).1 < d.player.queue.len()
            && !on_disk(d, d.player.queue[rest[k].1 as int]) by {
            assert(rest[k] == places[k + 1]);
        }
        assert(places[0].1 < d.player.queue.len());
        downloads_come_later(rest, d, at - 1);
    }
}

/// Without a connection, next goes to the first downloaded track that comes
/// after the current one, and reads it from disk.
pub proof fn offline_next_goes_to_the_next_download(
    d: DaemonView,
    to: int,
    now: u64,
    chance: Chance,
)
    requires
        d.is_offline,
        !d.player.shuffle,
        d.fits(),
        d.player.queue_index < to < d.player.queue.len(),
        on_disk(d, d.player.queue[to]),
        forall|k: int|
            d.player.queue_index < k < to ==> !on_disk(d, #[trigger] d.player.queue[k]),
    ensures
        ({
            let r = d.command(Command::NextTrack, now, chance);
            &&& r.player.queue_index == to
            &&& r.player.queue == d.player.queue
            &&& reads(d, r, d.player.queue[to])
            &&& r.outbox.len() == d.outbox.len() + 1
        }),
{
    reveal(DaemonView::command);
    reveal(DaemonView::play_next);
    reveal(DaemonView::next_in_queue);
    reveal(DaemonView::advance_to);
    reveal(DaemonView::start_play_track);
    reveal(DaemonView::start_play_offline_track);
    let index = (d.player.queue_index + 1) as usize;
    on_disk_is_indexed(d, d.player.queue[index as int]);
    on_disk_is_indexed(d, d.player.queue[to]);
    if index < to {
        let there = d.at_queue_index(index);
        let places = queue::candidates(
            d.player.queue.len(),
            index as nat,
            d.run.shuffle_order,
            d.run.shuffle_pos,
            false,
            d.player.repeat == RepeatMode::Queue,
        );
        let at = to - index - 1;
        assert(places[at].1 == to);
        assert forall|k: int| 0 <= k < at implies (#[trigger] places[k]).1
            < there.player.queue.len() && !on_disk(
            there,
            there.player.queue[places[k].1 as int],
        ) by {
            assert(places[k].1 == index + 1 + k);
            assert(!on_disk(d, d.player.queue[index + 1 + k]));
        }
        assert(on_disk(there, there.player.queue[to]));
        downloads_come_later(places, there, at);
    }
}

/// Without a connection and with no download left in the queue, next stops
/// playback and says why.
pub proof fn without_downloads_next_stops(d: DaemonView, now: u64, chance: Chance)
    requires
        d.is_offline,
        !d.player.shuffle,
        d.fits(),
        d.player.queue_index + 1 < d.player.queue.len(),
        forall|k: int| 0 <= k < d.player.queue.len() ==> !on_disk(d, #[trigger] d.player.queue[k]),
    ensures
        ({
            let r = d.command(Command::NextTrack, now, chance);
            &&& r.player.status == PlaybackStatus::Stopped
            &&& r.outbox == d.outbox
            &&& r.player.queue == d.player.queue
            &&& r.status_msg == Some(
                NoticeView { kind: NoticeKind::NoOfflineTrack, detail: Seq::empty(), count: 0 },
            )
        }),
{
    reveal(DaemonView::command);
    reveal(DaemonView::play_next);
    reveal(DaemonView::next_in_queue);
    reveal(DaemonView::advance_to);
    let index = (d.player.queue_index + 1) as usize;
    on_disk_is_indexed(d, d.player.queue[index as int]);
    assert(!on_disk(d, d.player.queue[index as int]));
    let there = d.at_queue_index(index);
    let places = queue::candidates(
        d.player.queue.len(),
        index as nat,
        d.run.shuffle_order,
        d.run.shuffle_pos,
        false,
        d.player.repeat == RepeatMode::Queue,
    );
    playback::first_downloaded_is_listed(places, d.player.queue, d.offline.index);
    match there.next_downloaded() {
        Some(p) => {
            on_disk_is_indexed(d, d.player.queue[p.1 as int]);
            assert(!on_disk(d, d.player.queue[p.1 as int]));
        },
        None => {},
    }
}

// ── Seeking, stopping, preferences ──────────────────────────────────

/// A seek asks for the place that is so many seconds away, or that is named, kept
/// inside the track; it needs an audio output and a track that plays or is
/// paused, and moves nothing before the audio output has moved.
pub proof fn seeks_ask_for_a_place_in_the_track(d: DaemonView, secs: u64, now: u64, chance: Chance)
    ensures
        ({
            let ready = d.run.engine_ready && (d.player.status == PlaybackStatus::Playing
                || d.player.status == PlaybackStatus::Paused);
            let end = d.player.duration_secs;
            let at = d.player.position_secs;
            let forth = d.command(Command::SeekForward { secs }, now, chance);
            let back = d.command(Command::SeekBackward { secs }, now, chance);
            let there = d.command(Command::SeekAbsolute { secs }, now, chance);
            &&& !ready ==> forth == d && back == d && there == d
            &&& ready ==> {
                &&& forth == (DaemonView {
                    outbox: d.outbox.push(
                        Effect::Seek {
                            secs: if at + secs <= end {
                                (at + secs) as u64
                            } else {
                                end
                            },
                        },
                    ),
                    ..d
                })
                &&& at <= end ==> back == (DaemonView {
                    outbox: d.outbox.push(
                        Effect::Seek {
                            secs: if secs <= at {
                                (at - secs) as u64
                            } else {
                                0
                            },
                        },
                    ),
                    ..d
                })
                &&& there == (DaemonView {
                    outbox: d.outbox.push(
                        Effect::Seek {
                            secs: if secs <= end {
                                secs
                            } else {
                                end
                            },
                        },
                    ),
                    ..d
                })
            }
        }),
{
    reveal(DaemonView::command);
    reveal(DaemonView::seek_to);
}

/// Stopping drops the track and its position, silences the audio output where
/// there is one, and keeps the queue.
pub proof fn stopping_keeps_the_queue(d: DaemonView, now: u64, chance: Chance)
    ensures
        ({
            let r = d.command(Command::Stop, now, chance);
            &&& r.player.status == PlaybackStatus::Stopped
            &&& r.player.current_track is None
            &&& r.player.position_secs == 0
            &&& r.player.duration_secs == 0
            &&& r.run.started_at is None
            &&& r.run.offset_secs == 0
            &&& same_queue(d, r)
            &&& r.outbox == (if d.run.engine_ready {
                d.outbox.push(Effect::Engine(EngineCommand::Stop))
            } else {
                d.outbox
            })
        }),
{
    reveal(DaemonView::command);
    reveal(DaemonView::stop);
}

/// The volume that is asked for, full at most, is the player's, the audio
/// output's and the one that is saved.
pub proof fn the_volume_is_set_and_saved(d: DaemonView, volume: u32, now: u64, chance: Chance)
    ensures
        ({
            let r = d.command(Command::SetVolume { volume }, now, chance);
            let v: u32 = if volume <= 1000 {
                volume
            } else {
                1000
            };
            &&& r.player.volume == v
            &&& r.config.volume == v
            &&& r.config.quality == d.config.quality
            &&& r.config.arl == d.config.arl
            &&& r.outbox == (if d.run.engine_ready {
                d.outbox.push(Effect::Engine(EngineCommand::SetVolume(v))).push(Effect::SaveConfig)
            } else {
                d.outbox.push(Effect::SaveConfig)
            })
            &&& r.player.status == d.player.status
            &&& r.player.current_track == d.player.current_track
            &&& same_queue(d, r)
        }),
{
    reveal(DaemonView::command);
    reveal(DaemonView::set_volume);
}

/// The quality that is asked for is saved, is left to the tracks to come, and is
/// the one that they are fetched in.
pub proof fn the_quality_is_for_the_tracks_to_come(
    d: DaemonView,
    quality: AudioQuality,
    track: TrackData,
    now: u64,
    chance: Chance,
)
    ensures
        ({
            let r = d.command(Command::SetQuality { quality }, now, chance);
            &&& r.config.quality == quality
            &&& r.config.volume == d.config.volume
            &&& r.config.arl == d.config.arl
            &&& r.player == d.player
            &&& r.outbox == d.outbox.push(Effect::SaveConfig)
            &&& can_fetch(d, track) ==> {
                let s = r.start_play_track(track);
                s.outbox.last() == Effect::FetchTrack {
                    track,
                    quality,
                    generation: s.run.generation,
                }
            }
        }),
{
    reveal(DaemonView::command);
    reveal(DaemonView::set_quality);
    reveal(DaemonView::start_play_track);
}

/// Repeat goes from off to the queue, to the track and off again, and touches
/// nothing else.
pub proof fn repeat_goes_from_off_to_queue_to_track(d: DaemonView, now: u64, chance: Chance)
    ensures
        ({
            let r = d.command(Command::CycleRepeat, now, chance);
            &&& d.player.repeat == RepeatMode::Off ==> r.player.repeat == RepeatMode::Queue
            &&& d.player.repeat == RepeatMode::Queue ==> r.player.repeat == RepeatMode::Track
            &&& d.player.repeat == RepeatMode::Track ==> r.player.repeat == RepeatMode::Off
            &&& r.player.shuffle == d.player.shuffle
            &&& r.player.queue == d.player.queue
            &&& r.player.queue_index == d.player.queue_index
            &&& r.player.status == d.player.status
            &&& r.player.current_track == d.player.current_track
            &&& r.run == d.run
            &&& r.outbox == d.outbox
        }),
{
    reveal(DaemonView::command);
    reveal(DaemonView::cycle_repeat);
}

/// The shuffle command turns shuffle on when it is off and off when it is on. On,
/// repeat is cleared and the whole queue is to play once, the current track
/// first; off, the queue plays in its own order from where it is.
pub proof fn shuffle_goes_on_and_off(d: DaemonView, now: u64, chance: Chance)
    requires
        d.wf(),
        d.fits(),
    ensures
        ({
            let r = d.command(Command::ToggleShuffle, now, chance);
            &&& r.player.shuffle != d.player.shuffle
            &&& r.player.queue == d.player.queue
            &&& r.player.queue_index == d.player.queue_index
            &&& r.player.current_track == d.player.current_track
            &&& r.player.status == d.player.status
            &&& r.outbox == d.outbox
            &&& r.run.shuffle_pos == 0
            &&& d.player.shuffle ==> r.player.repeat == d.player.repeat
                && r.run.shuffle_order.len() == 0
            &&& !d.player.shuffle ==> {
                &&& r.player.repeat == RepeatMode::Off
                &&& queue::is_cycle(r.run.shuffle_order, d.player.queue.len())
                &&& d.player.queue.len() > 0 ==> r.run.shuffle_order[0] == d.player.queue_index
            }
        }),
{
    reveal(DaemonView::command);
    reveal(DaemonView::toggle_shuffle);
    queue::shuffle_is_a_full_pass(d.player.queue.len(), d.player.queue_index, chance.seed);
}

/// Without a connection and under shuffle, next goes to the first downloaded track
/// that the cycle still holds.
pub proof fn offline_next_goes_on_in_the_cycle(
    d: DaemonView,
    to: int,
    now: u64,
    chance: Chance,
)
    requires
        d.wf(),
        d.fits(),
        d.is_offline,
        d.player.shuffle,
        d.player.queue.len() > 0,
        d.run.shuffle_order.len() == d.player.queue.len(),
        d.run.shuffle_pos < to < d.run.shuffle_order.len(),
        on_disk(d, d.player.queue[d.run.shuffle_order[to] as int]),
        forall|k: int|
            d.run.shuffle_pos < k < to ==> !on_disk(
                d,
                d.player.queue[(#[trigger] d.run.shuffle_order[k]) as int],
            ),
    ensures
        ({
            let r = d.command(Command::NextTrack, now, chance);
            &&& r.run.shuffle_pos == to
            &&& r.run.shuffle_order == d.run.shuffle_order
            &&& r.player.queue_index == d.run.shuffle_order[to]
            &&& reads(d, r, d.player.queue[d.run.shuffle_order[to] as int])
        }),
{
    reveal(DaemonView::command);
    reveal(DaemonView::play_next);
    reveal(DaemonView::sync_shuffle_order);
    reveal(DaemonView::next_in_cycle);
    reveal(DaemonView::advance_to);
    reveal(DaemonView::start_play_track);
    reveal(DaemonView::start_play_offline_track);
    let order = d.run.shuffle_order;
    let pos = d.run.shuffle_pos + 1;
    let index = order[pos];
    let there = d.at_cycle_pos(pos).at_queue_index(index);
    on_disk_is_indexed(d, d.player.queue[index as int]);
    on_disk_is_indexed(d, d.player.queue[order[to] as int]);
    if pos < to {
        assert(!on_disk(d, d.player.queue[order[pos] as int]));
        let places = queue::candidates(
            d.player.queue.len(),
            index as nat,
            order,
            pos as usize,
            true,
            d.player.repeat == RepeatMode::Queue,
        );
        let at = to - pos - 1;
        assert(places[at] == (to as usize, order[to]));
        assert forall|k: int| 0 <= k < at implies (#[trigger] places[k]).1
            < there.player.queue.len() && !on_disk(
            there,
            there.player.queue[places[k].1 as int],
        ) by {
            assert(places[k].1 == order[pos + 1 + k]);
            assert(!on_disk(d, d.player.queue[order[pos + 1 + k] as int]));
        }
        assert(on_disk(there, there.player.queue[order[to] as int]));
        downloads_come_later(places, there, at);
    }
}

/// Under shuffle, a queue that was replaced gets a fresh cycle that opens with the
/// current track: next goes on to another one, and every track comes up once.
pub proof fn a_replaced_queue_gets_a_fresh_cycle(d: DaemonView, now: u64, chance: Chance)
    requires
        d.wf(),
        d.fits(),
        !d.is_offline,
        d.run.key_ready,
        d.player.shuffle,
        d.player.queue.len() > 1,
        d.run.shuffle_order.len() == 0 || d.run.shuffle_order.len() > d.player.queue.len(),
    ensures
        ({
            let r = d.command(Command::NextTrack, now, chance);
            &&& queue::is_cycle(r.run.shuffle_order, d.player.queue.len())
            &&& r.run.shuffle_order[0] == d.player.queue_index
            &&& r.run.shuffle_pos == 1
            &&& r.player.queue_index == r.run.shuffle_order[1]
            &&& r.player.queue_index != d.player.queue_index
            &&& fetches(d, r, d.player.queue[r.player.queue_index as int])
        }),
{
    reveal(DaemonView::command);
    reveal(DaemonView::play_next);
    reveal(DaemonView::sync_shuffle_order);
    reveal(DaemonView::next_in_cycle);
    reveal(DaemonView::advance_to);
    reveal(DaemonView::start_play_track);
    queue::shuffle_is_a_full_pass(d.player.queue.len(), d.player.queue_index, chance.seed);
}

/// At the end of a cycle Flow or the mood is asked for more, as at the end of the
/// queue; without them and without repeat-all, a paused track goes on and anything
/// else stays as it is.
pub proof fn the_end_of_a_cycle_is_the_end_of_the_queue(d: DaemonView, now: u64, chance: Chance)
    requires
        d.wf(),
        d.fits(),
        !d.is_offline,
        d.player.shuffle,
        d.player.queue.len() > 0,
        d.run.shuffle_order.len() == d.player.queue.len(),
        d.run.shuffle_pos + 1 == d.run.shuffle_order.len(),
    ensures
        ({
            let r = d.command(Command::NextTrack, now, chance);
            &&& d.run.flow_active ==> {
                &&& r.outbox == d.outbox.push(Effect::LoadFlow)
                &&& r.player.status == PlaybackStatus::Loading
                &&& same_queue(d, r)
            }
            &&& !d.run.flow_active && d.run.active_mood is Some ==> {
                &&& r.outbox == d.outbox.push(
                    Effect::LoadMoodTracks { mood: d.run.active_mood->0, continuation: true },
                )
                &&& r.player.status == PlaybackStatus::Loading
                &&& same_queue(d, r)
            }
            &&& !d.run.flow_active && d.run.active_mood is None && d.player.repeat
                != RepeatMode::Queue ==> {
                if d.player.status == PlaybackStatus::Paused && d.run.engine_ready {
                    &&& r.player.status == PlaybackStatus::Playing
                    &&& r.outbox == d.outbox.push(Effect::Engine(EngineCommand::Resume))
                    &&& same_queue(d, r)
                } else {
                    r == d
                }
            }
        }),
{
    reveal(DaemonView::command);
    reveal(DaemonView::play_next);
    reveal(DaemonView::sync_shuffle_order);
    reveal(DaemonView::next_in_cycle);
    reveal(DaemonView::start_flow);
    reveal(DaemonView::start_play_mood);
    reveal(DaemonView::resume_playback);
}

} // verus!
