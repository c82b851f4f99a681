//! Playing tracks: starting one, going to the next or the previous, seeking,
//! and what happens as time passes.

use vstd::prelude::*;

use crate::daemon::{Chance, Daemon, DaemonView, Effect, EngineCommand, RunView};
use crate::models::{MoodItem, TrackData};
use crate::notice::NoticeKind;
use crate::player::{PlaybackStatus, PlayerStateView, RepeatMode};
use crate::queue;
use crate::queue::{extend_cycle, forward_candidates, shuffled_indices};
use crate::storage::{OfflineIndex, OfflineView};

verus! {

/// A play is reported once it has reached this many seconds.
pub const LISTEN_THRESHOLD_SECS: u64 = 30;

/// The first of the places whose track is downloaded.
pub open spec fn first_downloaded(
    places: Seq<(usize, usize)>,
    queue: Seq<TrackData>,
    offline: OfflineView,
) -> Option<(usize, usize)>
    decreases places.len(),
{
    if places.len() == 0 {
        None
    } else if places[0].1 < queue.len() && offline.has_track(queue[places[0].1 as int].track_id@) {
        Some(places[0])
    } else {
        first_downloaded(places.skip(1), queue, offline)
    }
}

impl DaemonView {
    // ── Starting a track ────────────────────────────────────────────

    /// A track is on its way: answers to earlier requests are stale from now on.
    pub open spec fn loading_track(self, track: TrackData) -> DaemonView {
        DaemonView {
            player: PlayerStateView {
                status: PlaybackStatus::Loading,
                current_track: Some(track),
                duration_secs: track.duration,
                position_secs: 0,
                ..self.player
            },
            run: RunView {
                generation: crate::daemon::counted(self.run.generation),
                logged_for: None,
                ..self.run
            },
            ..self
        }.tell(NoticeKind::Loading)
    }

    /// A downloaded track is read from disk.
    #[verifier::opaque]
    pub open spec fn start_play_offline_track(self, track: TrackData) -> DaemonView {
        self.loading_track(track).send(
            Effect::ReadTrack { track, generation: crate::daemon::counted(self.run.generation) },
        )
    }

    /// A track is fetched. Without a connection only a downloaded track plays;
    /// with one, the decryption key is needed unless the stream is a podcast
    /// episode's own.
    #[verifier::opaque]
    pub open spec fn start_play_track(self, track: TrackData) -> DaemonView {
        if self.is_offline {
            if self.offline.index.has_track(track.track_id@) {
                self.start_play_offline_track(track)
            } else {
                self.tell(NoticeKind::NoInternet)
            }
        } else if !self.run.key_ready && track.stream_url is None {
            self.tell(NoticeKind::PlayerNotReady)
        } else {
            self.loading_track(track).send(
                Effect::FetchTrack {
                    track,
                    quality: self.config.quality,
                    generation: crate::daemon::counted(self.run.generation),
                },
            )
        }
    }

    /// A list becomes the queue and one of its tracks starts.
    #[verifier::opaque]
    pub open spec fn play_list(self, queue: Seq<TrackData>, index: usize) -> DaemonView {
        self.with_queue(queue, index).start_play_track(queue[index as int])
    }

    /// A downloaded list becomes the queue and one of its tracks starts.
    #[verifier::opaque]
    pub open spec fn play_offline_list(self, queue: Seq<TrackData>, index: usize) -> DaemonView {
        self.with_queue(queue, index).start_play_offline_track(queue[index as int])
    }

    // ── Shuffle cycle ───────────────────────────────────────────────

    /// A fresh shuffle cycle, starting at `start`.
    pub open spec fn rebuild_shuffle_order(self, len: nat, start: usize, seed: u64) -> DaemonView {
        DaemonView {
            run: RunView {
                shuffle_order: queue::cycle_of(len, start, seed),
                shuffle_pos: 0,
                ..self.run
            },
            ..self
        }
    }

    /// No shuffle cycle.
    pub open spec fn without_cycle(self) -> DaemonView {
        DaemonView {
            run: RunView { shuffle_order: Seq::empty(), shuffle_pos: 0, ..self.run },
            ..self
        }
    }

    /// The shuffle cycle brought in step with the queue. A queue that grew keeps
    /// its cycle and gets the new tracks at its end; one that was replaced by a
    /// shorter one, or that had no cycle, gets a fresh cycle.
    #[verifier::opaque]
    pub open spec fn sync_shuffle_order(self, len: nat, current: usize, seed: u64) -> DaemonView {
        let have = self.run.shuffle_order.len();
        if len == 0 {
            self.without_cycle()
        } else if have == len {
            self
        } else if len > have && have > 0 {
            DaemonView {
                run: RunView {
                    shuffle_order: queue::extended(self.run.shuffle_order, len),
                    ..self.run
                },
                ..self
            }
        } else {
            self.rebuild_shuffle_order(len, current, seed)
        }
    }

    /// Another place in the shuffle cycle.
    pub open spec fn at_cycle_pos(self, pos: int) -> DaemonView {
        DaemonView { run: RunView { shuffle_pos: pos as usize, ..self.run }, ..self }
    }

    /// Another place in the queue.
    pub open spec fn at_queue_index(self, index: usize) -> DaemonView {
        DaemonView { player: PlayerStateView { queue_index: index, ..self.player }, ..self }
    }

    // ── Going on ────────────────────────────────────────────────────

    /// Playback goes on from pause.
    #[verifier::opaque]
    pub open spec fn resume_playback(self, now: u64) -> DaemonView {
        if self.run.engine_ready {
            DaemonView {
                run: RunView { started_at: Some(now), ..self.run },
                ..self.with_status(PlaybackStatus::Playing)
            }.send(Effect::Engine(EngineCommand::Resume))
        } else {
            self
        }
    }

    /// The first downloaded track after the current place, as a place in the
    /// shuffle cycle and a place in the queue.
    pub open spec fn next_downloaded(self) -> Option<(usize, usize)> {
        first_downloaded(
            queue::candidates(
                self.player.queue.len(),
                self.player.queue_index as nat,
                self.run.shuffle_order,
                self.run.shuffle_pos,
                self.player.shuffle,
                self.player.repeat == RepeatMode::Queue,
            ),
            self.player.queue,
            self.offline.index,
        )
    }

    /// The queue moves forward to `index` and its track starts. Without a
    /// connection, tracks that were never downloaded are stepped over; where no
    /// downloaded track is left, playback stops.
    #[verifier::opaque]
    pub open spec fn advance_to(self, index: usize) -> DaemonView {
        let there = self.at_queue_index(index);
        let track = self.player.queue[index as int];
        if self.is_offline && !self.offline.index.has_track(track.track_id@) {
            match there.next_downloaded() {
                Some(place) => there.at_cycle_pos(place.0 as int).at_queue_index(
                    place.1,
                ).start_play_track(self.player.queue[place.1 as int]),
                None => there.tell(NoticeKind::NoOfflineTrack).with_status(
                    PlaybackStatus::Stopped,
                ),
            }
        } else {
            there.start_play_track(track)
        }
    }

    /// The queue is at its end: Flow or the mood fetches more, repeat-all begins
    /// again at `first`, and otherwise a paused track goes on.
    pub open spec fn at_the_end(self, again: DaemonView, now: u64) -> DaemonView {
        if self.run.flow_active {
            self.with_status(PlaybackStatus::Loading).start_flow()
        } else if self.run.active_mood is Some {
            self.with_status(PlaybackStatus::Loading).start_play_mood(
                self.run.active_mood->0,
                true,
            )
        } else if self.player.repeat == RepeatMode::Queue {
            again
        } else if self.player.status == PlaybackStatus::Paused {
            self.resume_playback(now)
        } else {
            self
        }
    }

    /// Repeat-all under shuffle: the queue is shuffled anew, and the track after
    /// the current one starts.
    #[verifier::opaque]
    pub open spec fn reshuffled(self, seed: u64) -> DaemonView {
        let fresh = self.rebuild_shuffle_order(
            self.player.queue.len(),
            self.player.queue_index,
            seed,
        );
        let pos: int = if self.player.queue.len() > 1 {
            1
        } else {
            0
        };
        fresh.at_cycle_pos(pos).advance_to(fresh.run.shuffle_order[pos])
    }

    /// The next track of a shuffle cycle that is in step with the queue.
    #[verifier::opaque]
    pub open spec fn next_in_cycle(self, now: u64, seed: u64) -> DaemonView {
        let pos = self.run.shuffle_pos + 1;
        if pos < self.run.shuffle_order.len() {
            self.at_cycle_pos(pos).advance_to(self.run.shuffle_order[pos])
        } else {
            self.at_the_end(self.reshuffled(seed), now)
        }
    }

    /// The next track of the queue.
    #[verifier::opaque]
    pub open spec fn next_in_queue(self, now: u64) -> DaemonView {
        if self.player.queue_index + 1 < self.player.queue.len() {
            self.advance_to((self.player.queue_index + 1) as usize)
        } else {
            self.at_the_end(self.advance_to(0), now)
        }
    }

    /// The next track.
    #[verifier::opaque]
    pub open spec fn play_next(self, now: u64, seed: u64) -> DaemonView {
        let len = self.player.queue.len();
        if len == 0 {
            self
        } else if self.player.shuffle {
            self.sync_shuffle_order(len, self.player.queue_index, seed).next_in_cycle(now, seed)
        } else {
            self.next_in_queue(now)
        }
    }

    /// Nothing comes before: a paused track goes on.
    pub open spec fn at_the_start(self, now: u64) -> DaemonView {
        if self.player.status == PlaybackStatus::Paused {
            self.resume_playback(now)
        } else {
            self
        }
    }

    /// The queue moves back to `index` and its track starts.
    #[verifier::opaque]
    pub open spec fn back_to(self, index: usize) -> DaemonView {
        self.at_queue_index(index).start_play_track(self.player.queue[index as int])
    }

    /// The previous track of a shuffle cycle that is in step with the queue.
    #[verifier::opaque]
    pub open spec fn prev_in_cycle(self, now: u64) -> DaemonView {
        let pos = self.run.shuffle_pos - 1;
        if pos >= 0 {
            self.at_cycle_pos(pos).back_to(self.run.shuffle_order[pos])
        } else {
            self.at_the_start(now)
        }
    }

    /// The previous track of the queue.
    #[verifier::opaque]
    pub open spec fn prev_in_queue(self, now: u64) -> DaemonView {
        if self.player.queue_index > 0 {
            self.back_to((self.player.queue_index - 1) as usize)
        } else if self.player.repeat == RepeatMode::Queue {
            self.back_to((self.player.queue.len() - 1) as usize)
        } else {
            self.at_the_start(now)
        }
    }

    /// The previous track. Under shuffle this walks back through the cycle that
    /// was played.
    #[verifier::opaque]
    pub open spec fn play_prev(self, now: u64, seed: u64) -> DaemonView {
        let len = self.player.queue.len();
        if len == 0 {
            self
        } else if self.player.shuffle {
            self.sync_shuffle_order(len, self.player.queue_index, seed).prev_in_cycle(now)
        } else {
            self.prev_in_queue(now)
        }
    }

    // ── Seeking ─────────────────────────────────────────────────────

    /// A place inside the track.
    pub open spec fn inside_track(self, target: int) -> u64 {
        if target < 0 {
            0
        } else if target > self.player.duration_secs {
            self.player.duration_secs
        } else {
            target as u64
        }
    }

    /// The audio output is asked to go to a place of the track, if one plays or
    /// is paused.
    #[verifier::opaque]
    pub open spec fn seek_to(self, target: int) -> DaemonView {
        if self.run.engine_ready && (self.player.status == PlaybackStatus::Playing
            || self.player.status == PlaybackStatus::Paused) {
            self.send(Effect::Seek { secs: self.inside_track(target) })
        } else {
            self
        }
    }

    /// The audio output went to a place of the track.
    #[verifier::opaque]
    pub open spec fn seek_done(self, secs: u64, now: u64) -> DaemonView {
        DaemonView {
            player: PlayerStateView { position_secs: secs, ..self.player },
            run: RunView {
                offset_secs: secs,
                started_at: if self.run.started_at is Some {
                    Some(now)
                } else {
                    None
                },
                ..self.run
            },
            ..self
        }
    }

    // ── Pausing ─────────────────────────────────────────────────────

    /// Playing pauses and paused plays; how far the track got is kept.
    #[verifier::opaque]
    pub open spec fn toggle_pause(self, now: u64) -> DaemonView {
        if !self.run.engine_ready {
            self
        } else if self.player.status == PlaybackStatus::Playing {
            DaemonView {
                run: RunView {
                    started_at: None,
                    offset_secs: match self.run.started_at {
                        Some(at) => crate::daemon::capped_sum(
                            self.run.offset_secs,
                            crate::daemon::seconds_between(at, now),
                        ),
                        None => self.run.offset_secs,
                    },
                    ..self.run
                },
                ..self.with_status(PlaybackStatus::Paused)
            }.send(Effect::Engine(EngineCommand::Pause))
        } else if self.player.status == PlaybackStatus::Paused {
            self.resume_playback(now)
        } else {
            self
        }
    }

    /// Playback ends: no track, no position.
    #[verifier::opaque]
    pub open spec fn stop(self) -> DaemonView {
        let silent = DaemonView {
            player: PlayerStateView {
                status: PlaybackStatus::Stopped,
                current_track: None,
                position_secs: 0,
                duration_secs: 0,
                ..self.player
            },
            run: RunView { started_at: None, offset_secs: 0, ..self.run },
            ..self
        };
        if self.run.engine_ready {
            silent.send(Effect::Engine(EngineCommand::Stop))
        } else {
            silent
        }
    }

    // ── Time ────────────────────────────────────────────────────────

    /// The position that the clock gives, while a track plays.
    #[verifier::opaque]
    pub open spec fn clocked(self, now: u64) -> DaemonView {
        if self.player.status == PlaybackStatus::Playing && self.run.started_at is Some {
            let at = crate::daemon::capped_sum(
                self.run.offset_secs,
                crate::daemon::seconds_between(self.run.started_at->0, now),
            );
            DaemonView {
                player: PlayerStateView {
                    position_secs: if self.player.duration_secs > 0 && at
                        >= self.player.duration_secs {
                        self.player.duration_secs
                    } else {
                        at
                    },
                    ..self.player
                },
                ..self
            }
        } else {
            self
        }
    }

    /// The play of the current track is due to be reported: it has been heard
    /// for long enough, the service knows the track, and it was not reported yet.
    pub open spec fn listen_due(self) -> bool {
        &&& !self.is_offline
        &&& self.player.status == PlaybackStatus::Playing
        &&& self.player.current_track matches Some(track) && {
            &&& self.player.position_secs >= LISTEN_THRESHOLD_SECS
            &&& !track.uploaded()
            &&& track.stream_url is None
            &&& crate::models::opt_text(self.run.logged_for) != Some(track.track_id@)
        }
    }

    /// The play of the current track is reported, if it is due.
    #[verifier::opaque]
    pub open spec fn log_listen(self) -> DaemonView {
        if self.listen_due() {
            let track_id = self.player.current_track->0.track_id;
            DaemonView {
                run: RunView { logged_for: Some(track_id), ..self.run },
                ..self
            }.send(Effect::LogListen { track_id, quality: self.config.quality })
        } else {
            self
        }
    }

    /// A track that has come to its end is followed by the next one, or by
    /// itself when it repeats.
    #[verifier::opaque]
    pub open spec fn follow_up(self, finished: bool, now: u64, seed: u64) -> DaemonView {
        if self.run.engine_ready && finished && self.player.status == PlaybackStatus::Playing {
            if self.player.repeat == RepeatMode::Track {
                match self.player.current_track {
                    Some(track) => self.start_play_track(track),
                    None => self,
                }
            } else {
                self.play_next(now, seed)
            }
        } else {
            self
        }
    }

    /// A moment passes.
    #[verifier::opaque]
    pub open spec fn on_tick(self, finished: bool, now: u64, seed: u64) -> DaemonView {
        self.clocked(now).log_listen().follow_up(finished, now, seed)
    }
}

// ── What every step keeps ───────────────────────────────────────────

/// Starting a track keeps the player well formed.
pub proof fn start_play_track_keeps_wf(d: DaemonView, track: TrackData)
    requires
        d.wf(),
    ensures
        d.start_play_track(track).wf(),
        d.start_play_offline_track(track).wf(),
{
    reveal(DaemonView::start_play_track);
    reveal(DaemonView::start_play_offline_track);
}

/// Asking for tracks keeps the player well formed.
pub proof fn fetching_more_keeps_wf(d: DaemonView, mood: MoodItem)
    requires
        d.wf(),
    ensures
        d.start_flow().wf(),
        d.start_play_mood(mood, true).wf(),
        d.start_play_mood(mood, false).wf(),
{
    reveal(DaemonView::start_flow);
    reveal(DaemonView::start_play_mood);
}

/// Going on from pause keeps the player well formed.
pub proof fn resuming_keeps_wf(d: DaemonView, now: u64)
    requires
        d.wf(),
    ensures
        d.resume_playback(now).wf(),
{
    reveal(DaemonView::resume_playback);
}

/// Bringing the shuffle cycle in step keeps the player well formed and changes
/// nothing but the cycle, which then covers the queue.
pub proof fn sync_keeps_wf(d: DaemonView, seed: u64)
    requires
        d.wf(),
        d.fits(),
    ensures
        ({
            let r = d.sync_shuffle_order(d.player.queue.len(), d.player.queue_index, seed);
            &&& r.wf()
            &&& r.fits()
            &&& r.run.shuffle_order.len() == d.player.queue.len()
            &&& r == (DaemonView {
                run: RunView {
                    shuffle_order: r.run.shuffle_order,
                    shuffle_pos: r.run.shuffle_pos,
                    ..d.run
                },
                ..d
            })
        }),
{
    reveal(DaemonView::sync_shuffle_order);
    let len = d.player.queue.len();
    let order = d.run.shuffle_order;
    queue::shuffle_is_a_full_pass(len, d.player.queue_index, seed);
    if len > order.len() && order.len() > 0 {
        queue::extended_is_cycle(order, len);
    }
}

/// A place that is downloaded is one of the places that were looked at.
pub proof fn first_downloaded_is_listed(
    places: Seq<(usize, usize)>,
    queue: Seq<TrackData>,
    offline: OfflineView,
)
    ensures
        match first_downloaded(places, queue, offline) {
            Some(p) => places.contains(p) && p.1 < queue.len() && offline.has_track(
                queue[p.1 as int].track_id@,
            ),
            None => forall|i: int|
                0 <= i < places.len() && (#[trigger] places[i]).1 < queue.len()
                    ==> !offline.has_track(queue[places[i].1 as int].track_id@),
        },
    decreases places.len(),
{
    if places.len() > 0 {
        let rest = places.skip(1);
        first_downloaded_is_listed(rest, queue, offline);
        match first_downloaded(rest, queue, offline) {
            Some(p) => {
                let i = choose|i: int| 0 <= i < rest.len() && rest[i] == p;
                assert(places[i + 1] == rest[i]);
                assert(places[0] == places[0]);
            },
            None => {
                assert forall|i: int|
                    0 <= i < places.len() && (#[trigger] places[i]).1 < queue.len()
                        && first_downloaded(
                        places,
                        queue,
                        offline,
                    ) is None implies !offline.has_track(queue[places[i].1 as int].track_id@) by {
                    if i > 0 {
                        assert(rest[i - 1] == places[i]);
                    }
                }
            },
        }
    }
}

/// The next downloaded track is inside the queue, and inside the cycle.
pub proof fn next_downloaded_is_inside(d: DaemonView)
    requires
        d.wf(),
        d.player.queue.len() > 0,
    ensures
        match d.next_downloaded() {
            Some(p) => p.1 < d.player.queue.len() && d.offline.index.has_track(
                d.player.queue[p.1 as int].track_id@,
            ) && (p.0 == d.run.shuffle_pos || p.0 < d.run.shuffle_order.len()),
            None => true,
        },
{
    let places = queue::candidates(
        d.player.queue.len(),
        d.player.queue_index as nat,
        d.run.shuffle_order,
        d.run.shuffle_pos,
        d.player.shuffle,
        d.player.repeat == RepeatMode::Queue,
    );
    first_downloaded_is_listed(places, d.player.queue, d.offline.index);
    match d.next_downloaded() {
        Some(p) => {
            let i = choose|i: int| 0 <= i < places.len() && places[i] == p;
            assert(places[i] == p);
        },
        None => {},
    }
}

/// Moving forward keeps the player well formed.
pub proof fn advance_keeps_wf(d: DaemonView, index: usize)
    requires
        d.wf(),
        index < d.player.queue.len(),
    ensures
        d.advance_to(index).wf(),
{
    reveal(DaemonView::advance_to);
    let there = d.at_queue_index(index);
    assert(there.wf());
    start_play_track_keeps_wf(there, d.player.queue[index as int]);
    next_downloaded_is_inside(there);
    match there.next_downloaded() {
        Some(p) => {
            let moved = there.at_cycle_pos(p.0 as int).at_queue_index(p.1);
            assert(moved.wf());
            start_play_track_keeps_wf(moved, d.player.queue[p.1 as int]);
        },
        None => {},
    }
}

/// Moving back keeps the player well formed.
pub proof fn back_keeps_wf(d: DaemonView, index: usize)
    requires
        d.wf(),
        index < d.player.queue.len(),
    ensures
        d.back_to(index).wf(),
{
    reveal(DaemonView::back_to);
    start_play_track_keeps_wf(d.at_queue_index(index), d.player.queue[index as int]);
}

/// The end of the queue keeps the player well formed.
pub proof fn at_the_end_keeps_wf(d: DaemonView, again: DaemonView, now: u64)
    requires
        d.wf(),
        again.wf(),
    ensures
        d.at_the_end(again, now).wf(),
{
    let waiting = d.with_status(PlaybackStatus::Loading);
    assert(waiting.wf());
    if d.run.active_mood is Some {
        fetching_more_keeps_wf(waiting, d.run.active_mood->0);
    } else {
        fetching_more_keeps_wf(waiting, arbitrary());
    }
    resuming_keeps_wf(d, now);
}

/// Shuffling anew keeps the player well formed.
pub proof fn reshuffled_keeps_wf(d: DaemonView, seed: u64)
    requires
        d.wf(),
        d.fits(),
        d.player.queue.len() > 0,
    ensures
        d.reshuffled(seed).wf(),
{
    reveal(DaemonView::reshuffled);
    let len = d.player.queue.len();
    queue::shuffle_is_a_full_pass(len, d.player.queue_index, seed);
    let fresh = d.rebuild_shuffle_order(len, d.player.queue_index, seed);
    let pos: int = if len > 1 {
        1
    } else {
        0
    };
    assert(fresh.run.shuffle_order[pos] < len);
    advance_keeps_wf(fresh.at_cycle_pos(pos), fresh.run.shuffle_order[pos]);
}

/// Going to the next track keeps the player well formed, whatever the random
/// numbers are.
pub proof fn play_next_keeps_wf(d: DaemonView, now: u64, seed: u64)
    requires
        d.wf(),
        d.fits(),
    ensures
        d.play_next(now, seed).wf(),
{
    reveal(DaemonView::play_next);
    let len = d.player.queue.len();
    if len > 0 {
        if d.player.shuffle {
            sync_keeps_wf(d, seed);
            let synced = d.sync_shuffle_order(len, d.player.queue_index, seed);
            next_in_cycle_keeps_wf(synced, now, seed);
        } else {
            reveal(DaemonView::next_in_queue);
            if d.player.queue_index + 1 < len {
                advance_keeps_wf(d, (d.player.queue_index + 1) as usize);
            } else {
                advance_keeps_wf(d, 0);
                at_the_end_keeps_wf(d, d.advance_to(0), now);
            }
        }
    }
}

/// Going on in a shuffle cycle keeps the player well formed.
proof fn next_in_cycle_keeps_wf(d: DaemonView, now: u64, seed: u64)
    requires
        d.wf(),
        d.fits(),
        d.player.queue.len() > 0,
        d.run.shuffle_order.len() == d.player.queue.len(),
    ensures
        d.next_in_cycle(now, seed).wf(),
{
    reveal(DaemonView::next_in_cycle);
    let pos = d.run.shuffle_pos + 1;
    if pos < d.run.shuffle_order.len() {
        assert(d.run.shuffle_order[pos] < d.player.queue.len());
        advance_keeps_wf(d.at_cycle_pos(pos), d.run.shuffle_order[pos]);
    } else {
        reshuffled_keeps_wf(d, seed);
        at_the_end_keeps_wf(d, d.reshuffled(seed), now);
    }
}

/// Going to the previous track keeps the player well formed.
pub proof fn play_prev_keeps_wf(d: DaemonView, now: u64, seed: u64)
    requires
        d.wf(),
        d.fits(),
    ensures
        d.play_prev(now, seed).wf(),
{
    reveal(DaemonView::play_prev);
    reveal(DaemonView::prev_in_cycle);
    reveal(DaemonView::prev_in_queue);
    let len = d.player.queue.len();
    if len > 0 {
        if d.player.shuffle {
            sync_keeps_wf(d, seed);
            let synced = d.sync_shuffle_order(len, d.player.queue_index, seed);
            let pos = synced.run.shuffle_pos - 1;
            if pos >= 0 {
                assert(synced.run.shuffle_order[pos] < len);
                back_keeps_wf(synced.at_cycle_pos(pos), synced.run.shuffle_order[pos]);
            }
            resuming_keeps_wf(synced, now);
        } else {
            if d.player.queue_index > 0 {
                back_keeps_wf(d, (d.player.queue_index - 1) as usize);
            }
            back_keeps_wf(d, (len - 1) as usize);
            resuming_keeps_wf(d, now);
        }
    }
}

/// Reading the clock and reporting a play keep the player well formed.
pub proof fn clock_keeps_wf(d: DaemonView, now: u64)
    requires
        d.wf(),
    ensures
        d.clocked(now).wf(),
        d.log_listen().wf(),
        d.fits() ==> d.clocked(now).fits() && d.log_listen().fits(),
{
    reveal(DaemonView::clocked);
    reveal(DaemonView::log_listen);
}

/// The passing of time keeps the player well formed.
pub proof fn on_tick_keeps_wf(d: DaemonView, finished: bool, now: u64, seed: u64)
    requires
        d.wf(),
        d.fits(),
    ensures
        d.on_tick(finished, now, seed).wf(),
{
    reveal(DaemonView::on_tick);
    reveal(DaemonView::follow_up);
    clock_keeps_wf(d, now);
    clock_keeps_wf(d.clocked(now), now);
    let l = d.clocked(now).log_listen();
    play_next_keeps_wf(l, now, seed);
    match l.player.current_track {
        Some(track) => {
            start_play_track_keeps_wf(l, track);
        },
        None => {},
    }
}

// ── Steps ───────────────────────────────────────────────────────────

/// Whole seconds between two times in milliseconds.
fn seconds_since(from: u64, now: u64) -> (r: u64)
    ensures
        r == crate::daemon::seconds_between(from, now),
{
    if from <= now {
        (now - from) / 1000
    } else {
        0
    }
}

/// The first of the places whose track is downloaded.
fn find_downloaded(
    places: &Vec<(usize, usize)>,
    tracks: &Vec<TrackData>,
    offline: &OfflineIndex,
) -> (r: Option<(usize, usize)>)
    ensures
        r == first_downloaded(places@, tracks@, offline@),
{
    let n: usize = places.len();
    let mut i: usize = 0;
    proof {
        assert(places@.skip(0) =~= places@);
    }
    while i < n
        invariant
            i <= n,
            n == places@.len(),
            first_downloaded(places@, tracks@, offline@) == first_downloaded(
                places@.skip(i as int),
                tracks@,
                offline@,
            ),
        decreases n - i,
    {
        proof {
            assert(places@.skip(i as int)[0] == places@[i as int]);
            assert(places@.skip(i as int).skip(1) =~= places@.skip(i + 1));
        }
        let place: (usize, usize) = places[i];
        if place.1 < tracks.len() && offline.has_track(&tracks[place.1].track_id) {
            return Some(place);
        }
        i = i + 1;
    }
    None
}

impl Daemon {
    /// Shows that a track is on its way.
    fn loading_track(&mut self, track: &TrackData)
        ensures
            final(self)@ == old(self)@.loading_track(*track),
    {
        self.run.generation = self.run.generation.wrapping_add(1);
        self.run.logged_for = None;
        self.player.status = PlaybackStatus::Loading;
        self.player.current_track = Some(track.clone());
        self.player.duration_secs = track.duration_secs();
        self.player.position_secs = 0;
        self.tell(NoticeKind::Loading);
    }

    /// Reads a downloaded track from disk.
    pub fn start_play_offline_track(&mut self, track: TrackData)
        ensures
            final(self)@ == old(self)@.start_play_offline_track(track),
    {
        proof {
            reveal(DaemonView::start_play_offline_track);
        }
        self.loading_track(&track);
        let generation: u64 = self.run.generation;
        self.send(Effect::ReadTrack { track, generation });
    }

    /// Fetches a track.
    pub fn start_play_track(&mut self, track: TrackData)
        ensures
            final(self)@ == old(self)@.start_play_track(track),
    {
        proof {
            reveal(DaemonView::start_play_track);
        }
        if self.is_offline {
            if self.offline.index.has_track(&track.track_id) {
                self.start_play_offline_track(track);
            } else {
                self.tell(NoticeKind::NoInternet);
            }
            return;
        }
        if !self.run.key_ready && track.direct_stream_url().is_none() {
            self.tell(NoticeKind::PlayerNotReady);
            return;
        }
        self.loading_track(&track);
        let generation: u64 = self.run.generation;
        let quality = self.config.quality;
        self.send(Effect::FetchTrack { track, quality, generation });
    }

    /// Makes a list the queue, without Flow or a mood.
    pub(crate) fn set_queue(&mut self, list: Vec<TrackData>, index: usize)
        ensures
            final(self)@ == old(self)@.with_queue(list@, index),
    {
        self.run.flow_active = false;
        self.run.active_mood = None;
        self.player.queue = list;
        self.player.queue_index = index;
    }

    /// Makes a list the queue and starts one of its tracks.
    pub fn play_list(&mut self, list: Vec<TrackData>, index: usize)
        requires
            index < list@.len(),
        ensures
            final(self)@ == old(self)@.play_list(list@, index),
    {
        proof {
            reveal(DaemonView::play_list);
        }
        let track: TrackData = list[index].clone();
        self.set_queue(list, index);
        self.start_play_track(track);
    }

    /// Makes a downloaded list the queue and starts one of its tracks.
    pub fn play_offline_list(&mut self, list: Vec<TrackData>, index: usize)
        requires
            index < list@.len(),
        ensures
            final(self)@ == old(self)@.play_offline_list(list@, index),
    {
        proof {
            reveal(DaemonView::play_offline_list);
        }
        let track: TrackData = list[index].clone();
        self.set_queue(list, index);
        self.start_play_offline_track(track);
    }

    /// Builds a fresh shuffle cycle over `len` tracks, starting at `start` so
    /// that the track playing right now is not immediately replayed.
    pub fn rebuild_shuffle_order(&mut self, len: usize, start: usize, seed: u64)
        ensures
            final(self)@ == old(self)@.rebuild_shuffle_order(len as nat, start, seed),
    {
        self.run.shuffle_order = shuffled_indices(len, start, seed);
        self.run.shuffle_pos = 0;
    }

    /// Drops the shuffle cycle.
    pub fn drop_cycle(&mut self)
        ensures
            final(self)@ == old(self)@.without_cycle(),
    {
        self.run.shuffle_order = Vec::new();
        self.run.shuffle_pos = 0;
    }

    /// Brings the shuffle cycle in step with a queue that changed under it.
    pub fn sync_shuffle_order(&mut self, len: usize, current: usize, seed: u64)
        ensures
            final(self)@ == old(self)@.sync_shuffle_order(len as nat, current, seed),
    {
        proof {
            reveal(DaemonView::sync_shuffle_order);
        }
        let have: usize = self.run.shuffle_order.len();
        if len == 0 {
            self.drop_cycle();
        } else if have == len {
        } else if len > have && have > 0 {
            extend_cycle(&mut self.run.shuffle_order, len);
        } else {
            self.rebuild_shuffle_order(len, current, seed);
        }
    }

    /// Goes on from pause.
    pub fn resume_playback(&mut self, now: u64)
        ensures
            final(self)@ == old(self)@.resume_playback(now),
    {
        proof {
            reveal(DaemonView::resume_playback);
        }
        if self.run.engine_ready {
            self.player.status = PlaybackStatus::Playing;
            self.run.started_at = Some(now);
            self.send(Effect::Engine(EngineCommand::Resume));
        }
    }

    /// The first downloaded track after the current place.
    pub fn next_downloaded(&self) -> (r: Option<(usize, usize)>)
        requires
            self@.wf(),
            self@.player.queue.len() > 0,
        ensures
            r == self@.next_downloaded(),
    {
        proof {
            crate::daemon::player_fits(self);
        }
        let places: Vec<(usize, usize)> = forward_candidates(
            self.player.queue.len(),
            self.player.queue_index,
            self.run.shuffle_order.as_slice(),
            self.run.shuffle_pos,
            self.player.shuffle,
            self.player.repeat == RepeatMode::Queue,
        );
        find_downloaded(&places, &self.player.queue, &self.offline.index)
    }

    /// Moves the queue forward to `index` and starts its track.
    pub fn advance_to(&mut self, index: usize)
        requires
            old(self)@.wf(),
            index < old(self)@.player.queue.len(),
        ensures
            final(self)@ == old(self)@.advance_to(index),
    {
        proof {
            reveal(DaemonView::advance_to);
        }
        self.player.queue_index = index;
        let track: TrackData = self.player.queue[index].clone();
        if self.is_offline && !self.offline.index.has_track(&track.track_id) {
            match self.next_downloaded() {
                Some((pos, place)) => {
                    proof {
                        next_downloaded_is_inside(self@);
                    }
                    self.run.shuffle_pos = pos;
                    self.player.queue_index = place;
                    let found: TrackData = self.player.queue[place].clone();
                    self.start_play_track(found);
                },
                None => {
                    self.tell(NoticeKind::NoOfflineTrack);
                    self.player.status = PlaybackStatus::Stopped;
                },
            }
        } else {
            self.start_play_track(track);
        }
    }

    /// Has Flow or the mood fetch more tracks. Tells whether one of them does.
    fn fetch_more(&mut self) -> (r: bool)
        ensures
            r == (old(self)@.run.flow_active || old(self)@.run.active_mood is Some),
            final(self)@ == (if old(self)@.run.flow_active {
                old(self)@.with_status(PlaybackStatus::Loading).start_flow()
            } else if old(self)@.run.active_mood is Some {
                old(self)@.with_status(PlaybackStatus::Loading).start_play_mood(
                    old(self)@.run.active_mood->0,
                    true,
                )
            } else {
                old(self)@
            }),
    {
        if self.run.flow_active {
            self.player.status = PlaybackStatus::Loading;
            self.start_flow();
            return true;
        }
        let mood: Option<MoodItem> = self.run.active_mood.clone();
        match mood {
            Some(mood) => {
                self.player.status = PlaybackStatus::Loading;
                self.start_play_mood(mood, true);
                true
            },
            None => false,
        }
    }

    /// Shuffles the queue anew and starts the track after the current one.
    fn reshuffle(&mut self, seed: u64)
        requires
            old(self)@.wf(),
            old(self)@.player.queue.len() > 0,
        ensures
            final(self)@ == old(self)@.reshuffled(seed),
    {
        proof {
            reveal(DaemonView::reshuffled);
        }
        let len: usize = self.player.queue.len();
        let current: usize = self.player.queue_index;
        proof {
            queue::shuffle_is_a_full_pass(len as nat, current, seed);
        }
        self.rebuild_shuffle_order(len, current, seed);
        let pos: usize = if len > 1 {
            1
        } else {
            0
        };
        self.run.shuffle_pos = pos;
        let index: usize = self.run.shuffle_order[pos];
        self.advance_to(index);
    }

    /// Goes to the next track of a cycle that is in step with the queue.
    fn next_in_cycle(&mut self, now: u64, seed: u64)
        requires
            old(self)@.wf(),
            old(self)@.player.queue.len() > 0,
            old(self)@.run.shuffle_order.len() == old(self)@.player.queue.len(),
        ensures
            final(self)@ == old(self)@.next_in_cycle(now, seed),
    {
        proof {
            reveal(DaemonView::next_in_cycle);
            crate::daemon::player_fits(self);
        }
        let pos: usize = self.run.shuffle_pos + 1;
        if pos < self.run.shuffle_order.len() {
            let index: usize = self.run.shuffle_order[pos];
            self.run.shuffle_pos = pos;
            self.advance_to(index);
            return;
        }
        if self.fetch_more() {
            return;
        }
        if self.player.repeat == RepeatMode::Queue {
            self.reshuffle(seed);
        } else if self.player.status == PlaybackStatus::Paused {
            self.resume_playback(now);
        }
    }

    /// Goes to the next track of the queue.
    fn next_in_queue(&mut self, now: u64)
        requires
            old(self)@.wf(),
            old(self)@.player.queue.len() > 0,
        ensures
            final(self)@ == old(self)@.next_in_queue(now),
    {
        proof {
            reveal(DaemonView::next_in_queue);
            crate::daemon::player_fits(self);
        }
        let current: usize = self.player.queue_index;
        if current + 1 < self.player.queue.len() {
            self.advance_to(current + 1);
            return;
        }
        if self.fetch_more() {
            return;
        }
        if self.player.repeat == RepeatMode::Queue {
            self.advance_to(0);
        } else if self.player.status == PlaybackStatus::Paused {
            self.resume_playback(now);
        }
    }

    /// Goes to the next track.
    pub fn play_next(&mut self, now: u64, seed: u64)
        requires
            old(self)@.wf(),
        ensures
            final(self)@ == old(self)@.play_next(now, seed),
            final(self)@.wf(),
    {
        proof {
            reveal(DaemonView::play_next);
            crate::daemon::player_fits(self);
            play_next_keeps_wf(self@, now, seed);
        }
        let len: usize = self.player.queue.len();
        if len == 0 {
            return;
        }
        if self.player.shuffle {
            proof {
                sync_keeps_wf(self@, seed);
            }
            let current: usize = self.player.queue_index;
            self.sync_shuffle_order(len, current, seed);
            self.next_in_cycle(now, seed);
        } else {
            self.next_in_queue(now);
        }
    }

    /// Moves the queue back to `index` and starts its track.
    fn back_to(&mut self, index: usize)
        requires
            index < old(self)@.player.queue.len(),
        ensures
            final(self)@ == old(self)@.back_to(index),
    {
        proof {
            reveal(DaemonView::back_to);
        }
        self.player.queue_index = index;
        let track: TrackData = self.player.queue[index].clone();
        self.start_play_track(track);
    }

    /// Goes to the previous track of a cycle that is in step with the queue.
    fn prev_in_cycle(&mut self, now: u64)
        requires
            old(self)@.wf(),
            old(self)@.run.shuffle_order.len() == old(self)@.player.queue.len(),
        ensures
            final(self)@ == old(self)@.prev_in_cycle(now),
    {
        proof {
            reveal(DaemonView::prev_in_cycle);
        }
        if self.run.shuffle_pos > 0 {
            let pos: usize = self.run.shuffle_pos - 1;
            let index: usize = self.run.shuffle_order[pos];
            self.run.shuffle_pos = pos;
            self.back_to(index);
        } else if self.player.status == PlaybackStatus::Paused {
            self.resume_playback(now);
        }
    }

    /// Goes to the previous track of the queue.
    fn prev_in_queue(&mut self, now: u64)
        requires
            old(self)@.wf(),
            old(self)@.player.queue.len() > 0,
        ensures
            final(self)@ == old(self)@.prev_in_queue(now),
    {
        proof {
            reveal(DaemonView::prev_in_queue);
        }
        let current: usize = self.player.queue_index;
        if current > 0 {
            self.back_to(current - 1);
        } else if self.player.repeat == RepeatMode::Queue {
            let last: usize = self.player.queue.len() - 1;
            self.back_to(last);
        } else if self.player.status == PlaybackStatus::Paused {
            self.resume_playback(now);
        }
    }

    /// Goes to the previous track.
    pub fn play_prev(&mut self, now: u64, seed: u64)
        requires
            old(self)@.wf(),
        ensures
            final(self)@ == old(self)@.play_prev(now, seed),
            final(self)@.wf(),
    {
        proof {
            reveal(DaemonView::play_prev);
            crate::daemon::player_fits(self);
            play_prev_keeps_wf(self@, now, seed);
        }
        let len: usize = self.player.queue.len();
        if len == 0 {
            return;
        }
        if self.player.shuffle {
            proof {
                sync_keeps_wf(self@, seed);
            }
            let current: usize = self.player.queue_index;
            self.sync_shuffle_order(len, current, seed);
            self.prev_in_cycle(now);
        } else {
            self.prev_in_queue(now);
        }
    }

    /// Whether the audio output can be moved.
    fn can_seek(&self) -> (r: bool)
        ensures
            r == (self@.run.engine_ready && (self@.player.status == PlaybackStatus::Playing
                || self@.player.status == PlaybackStatus::Paused)),
    {
        self.run.engine_ready && (self.player.status == PlaybackStatus::Playing
            || self.player.status == PlaybackStatus::Paused)
    }

    /// Asks the audio output to go to a place of the track; a place past its end
    /// means its end.
    pub fn seek_absolute(&mut self, secs: u64)
        ensures
            final(self)@ == old(self)@.seek_to(secs as int),
    {
        proof {
            reveal(DaemonView::seek_to);
        }
        if self.can_seek() {
            let duration: u64 = self.player.duration_secs;
            let target: u64 = if secs > duration {
                duration
            } else {
                secs
            };
            self.send(Effect::Seek { secs: target });
        }
    }

    /// Asks the audio output to go forward by `secs` seconds, to the track's end
    /// at most.
    pub fn seek_forward(&mut self, secs: u64)
        ensures
            final(self)@ == old(self)@.seek_to(old(self)@.player.position_secs + secs),
    {
        proof {
            reveal(DaemonView::seek_to);
        }
        let target: u64 = self.player.position_secs.saturating_add(secs);
        self.seek_absolute(target);
    }

    /// Asks the audio output to go back by `secs` seconds, to the track's start
    /// at most.
    pub fn seek_backward(&mut self, secs: u64)
        ensures
            final(self)@ == old(self)@.seek_to(old(self)@.player.position_secs - secs),
    {
        proof {
            reveal(DaemonView::seek_to);
        }
        let target: u64 = self.player.position_secs.saturating_sub(secs);
        self.seek_absolute(target);
    }

    /// Takes note that the audio output went to a place of the track.
    pub fn seek_done(&mut self, secs: u64, now: u64)
        requires
            old(self)@.wf(),
        ensures
            final(self)@ == old(self)@.seek_done(secs, now),
            final(self)@.wf(),
    {
        proof {
            reveal(DaemonView::seek_done);
        }
        self.run.offset_secs = secs;
        if self.run.started_at.is_some() {
            self.run.started_at = Some(now);
        }
        self.player.position_secs = secs;
    }

    /// Pauses what plays, and plays what is paused.
    pub fn toggle_pause(&mut self, now: u64)
        ensures
            final(self)@ == old(self)@.toggle_pause(now),
    {
        proof {
            reveal(DaemonView::toggle_pause);
        }
        if !self.run.engine_ready {
            return;
        }
        if self.player.status == PlaybackStatus::Playing {
            self.player.status = PlaybackStatus::Paused;
            match self.run.started_at {
                Some(at) => {
                    let played: u64 = seconds_since(at, now);
                    self.run.offset_secs = self.run.offset_secs.saturating_add(played);
                    self.run.started_at = None;
                },
                None => {},
            }
            self.send(Effect::Engine(EngineCommand::Pause));
        } else if self.player.status == PlaybackStatus::Paused {
            self.resume_playback(now);
        }
    }

    /// Ends playback.
    pub fn stop(&mut self)
        ensures
            final(self)@ == old(self)@.stop(),
    {
        proof {
            reveal(DaemonView::stop);
        }
        self.player.status = PlaybackStatus::Stopped;
        self.player.current_track = None;
        self.player.position_secs = 0;
        self.player.duration_secs = 0;
        self.run.started_at = None;
        self.run.offset_secs = 0;
        if self.run.engine_ready {
            self.send(Effect::Engine(EngineCommand::Stop));
        }
    }

    /// Reads the position off the clock.
    fn read_clock(&mut self, now: u64)
        ensures
            final(self)@ == old(self)@.clocked(now),
    {
        proof {
            reveal(DaemonView::clocked);
        }
        if self.player.status == PlaybackStatus::Playing {
            match self.run.started_at {
                Some(at) => {
                    let played: u64 = seconds_since(at, now);
                    let position: u64 = self.run.offset_secs.saturating_add(played);
                    let duration: u64 = self.player.duration_secs;
                    self.player.position_secs = if duration > 0 && position >= duration {
                        duration
                    } else {
                        position
                    };
                },
                None => {},
            }
        }
    }

    /// Reports the play of the current track, once it has been heard for long
    /// enough, so that it shows up in the listening history.
    pub fn maybe_log_listen(&mut self)
        ensures
            final(self)@ == old(self)@.log_listen(),
    {
        proof {
            reveal(DaemonView::log_listen);
        }
        if self.is_offline || self.player.status != PlaybackStatus::Playing {
            return;
        }
        let track: TrackData = match &self.player.current_track {
            Some(track) => track.clone(),
            None => {
                return;
            },
        };
        if self.player.position_secs < LISTEN_THRESHOLD_SECS {
            return;
        }
        if track.is_user_uploaded() || track.direct_stream_url().is_some() {
            return;
        }
        if crate::models::opt_is(&self.run.logged_for, &track.track_id) {
            return;
        }
        self.run.logged_for = Some(track.track_id.clone());
        let quality = self.config.quality;
        self.send(Effect::LogListen { track_id: track.track_id, quality });
    }

    /// Lets a moment pass: reads the clock, reports a play that is due, and goes
    /// on to the next track when the audio output has finished.
    pub fn on_tick(&mut self, finished: bool, now: u64, chance: Chance)
        requires
            old(self)@.wf(),
        ensures
            final(self)@ == old(self)@.on_tick(finished, now, chance.seed),
            final(self)@.wf(),
    {
        proof {
            reveal(DaemonView::on_tick);
        }
        proof {
            crate::daemon::player_fits(self);
            on_tick_keeps_wf(self@, finished, now, chance.seed);
        }
        proof {
            clock_keeps_wf(self@, now);
            clock_keeps_wf(self@.clocked(now), now);
            reveal(DaemonView::follow_up);
        }
        self.read_clock(now);
        self.maybe_log_listen();
        if self.run.engine_ready && finished && self.player.status == PlaybackStatus::Playing {
            if self.player.repeat == RepeatMode::Track {
                let track: Option<TrackData> = self.player.current_track.clone();
                match track {
                    Some(track) => {
                        self.start_play_track(track);
                    },
                    None => {},
                }
            } else {
                self.play_next(now, chance.seed);
            }
        }
    }
}

} // verus!
