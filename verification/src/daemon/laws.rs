//! What holds of the player across its steps.

use vstd::prelude::*;

use crate::daemon::snapshot;
use crate::daemon::{Chance, DaemonView, Effect};
use crate::models::{AudioQuality, PlaylistDetailView, TrackData};
use crate::player::{PlaybackStatus, RepeatMode};
use crate::protocol::{
    ActiveTab, Command, DaemonSnapshot, FavoritesCategory, NavOverlay, OfflineCategory,
};
use crate::queue;
use crate::seqs;

verus! {

/// The answer to a track request that is not the latest one changes nothing.
pub proof fn stale_answers_change_nothing(
    d: DaemonView,
    track: TrackData,
    quality: AudioQuality,
    generation: u64,
    play_error: Option<String>,
    err: Seq<char>,
    now: u64,
    seed: u64,
)
    requires
        generation != d.run.generation,
    ensures
        d.track_ready(track, quality, generation, play_error, now) == d,
        d.track_failed(err, generation, now, seed) == d,
{
    reveal(DaemonView::track_ready);
    reveal(DaemonView::track_failed);
}

/// A request that goes out is a new one: whatever was on its way before is stale.
pub proof fn a_new_request_makes_older_answers_stale(d: DaemonView, track: TrackData)
    ensures
        d.start_play_offline_track(track).run.generation != d.run.generation,
        !d.is_offline && (d.run.key_ready || track.stream_url is Some) ==> d.start_play_track(
            track,
        ).run.generation != d.run.generation,
{
    reveal(DaemonView::start_play_track);
    reveal(DaemonView::start_play_offline_track);
}

/// Without a connection nothing is asked of the service when a track starts: it
/// is read from disk, or nothing happens.
pub proof fn offline_playback_reads_from_disk(d: DaemonView, track: TrackData)
    requires
        d.is_offline,
    ensures
        ({
            let r = d.start_play_track(track);
            if d.offline.index.has_track(track.track_id@) {
                r.outbox == d.outbox.push(
                    Effect::ReadTrack { track, generation: r.run.generation },
                )
            } else {
                r.outbox == d.outbox && r.player == d.player
            }
        }),
{
    reveal(DaemonView::start_play_track);
    reveal(DaemonView::start_play_offline_track);
}

/// After five tracks in a row that could not be fetched, the next failure stops
/// playback: nothing more is asked for.
pub proof fn failing_tracks_are_not_skipped_for_ever(
    d: DaemonView,
    err: Seq<char>,
    now: u64,
    seed: u64,
)
    requires
        d.run.skips == 5,
        d.local_copy() is None,
    ensures
        ({
            let r = d.track_failed(err, d.run.generation, now, seed);
            &&& r.player.status == PlaybackStatus::Stopped
            &&& r.outbox == d.outbox
            &&& r.run.skips == 0
        }),
{
    reveal(DaemonView::track_failed);
}

/// A track that plays ends a row of failures.
pub proof fn a_playing_track_ends_a_row_of_failures(
    d: DaemonView,
    track: TrackData,
    quality: AudioQuality,
    now: u64,
)
    requires
        d.run.engine_ready,
    ensures
        ({
            let r = d.track_ready(track, quality, d.run.generation, None, now);
            &&& r.run.skips == 0
            &&& r.player.status == PlaybackStatus::Playing
            &&& r.player.current_track == Some(track)
            &&& r.player.position_secs == 0
        }),
{
    reveal(DaemonView::track_ready);
    reveal(DaemonView::track_started);
}

/// Turning shuffle on clears repeat and begins a pass over the whole queue with
/// the current track in front; turning it off drops the pass.
pub proof fn shuffle_clears_repeat(d: DaemonView, seed: u64)
    requires
        d.wf(),
        d.fits(),
    ensures
        !d.player.shuffle ==> ({
            let r = d.toggle_shuffle(seed);
            &&& r.player.shuffle
            &&& r.player.repeat == RepeatMode::Off
            &&& queue::is_cycle(r.run.shuffle_order, d.player.queue.len())
            &&& d.player.queue.len() > 0 ==> r.run.shuffle_order[0] == d.player.queue_index
            &&& r.run.shuffle_pos == 0
        }),
        d.player.shuffle ==> ({
            let r = d.toggle_shuffle(seed);
            &&& !r.player.shuffle
            &&& r.player.repeat == d.player.repeat
            &&& r.run.shuffle_order.len() == 0
        }),
{
    reveal(DaemonView::toggle_shuffle);
    queue::shuffle_is_a_full_pass(d.player.queue.len(), d.player.queue_index, seed);
}

/// Repeat can be set on top of shuffle.
pub proof fn repeat_keeps_shuffle(d: DaemonView)
    ensures
        d.cycle_repeat().player.shuffle == d.player.shuffle,
        d.cycle_repeat().run == d.run,
{
    reveal(DaemonView::cycle_repeat);
}

/// Taking a track out of the queue leaves the current one current.
pub proof fn removing_keeps_the_current_track(d: DaemonView, index: usize)
    requires
        d.wf(),
        d.player.queue.len() > 0,
    ensures
        ({
            let r = d.remove_from_queue(index);
            &&& r.player.queue_index < r.player.queue.len()
            &&& r.player.queue[r.player.queue_index as int]
                == d.player.queue[d.player.queue_index as int]
        }),
{
    reveal(DaemonView::remove_from_queue);
}

/// A track that is put next comes right after the current one, which stays
/// current.
pub proof fn queued_next_comes_next(d: DaemonView, track: TrackData)
    requires
        d.wf(),
        d.player.queue.len() > 0,
    ensures
        ({
            let r = d.queue_next(track);
            &&& r.player.queue_index == d.player.queue_index
            &&& r.player.queue[r.player.queue_index as int]
                == d.player.queue[d.player.queue_index as int]
            &&& r.player.queue[r.player.queue_index + 1] == track
        }),
{
    reveal(DaemonView::queue_next);
}

/// A change of category shows the category asked for, from the top, and stays on
/// the tab. A place outside the list and the category shown already change
/// nothing.
pub proof fn a_new_category_is_shown_from_the_top(d: DaemonView, index: int)
    ensures
        ({
            let r = d.set_category(index);
            if 0 <= index < d.category_count() && index != d.category_place() {
                &&& r.selection() == 0
                &&& r.category_place() == index
                &&& r.active_tab == d.active_tab
            } else {
                r == d
            }
        }),
{
    reveal(DaemonView::set_category);
    reveal(DaemonView::explores);
    reveal(DaemonView::start_search);
    reveal(DaemonView::start_load_favorites_category);
    reveal(DaemonView::start_load_genres);
    reveal(DaemonView::start_load_new_releases);
}

/// In the Downloads, the row that a client shows is the row that plays, and the
/// cursor moves over the rows that it shows.
pub proof fn downloads_play_the_row_they_show(
    d: DaemonView,
    s: DaemonSnapshot,
    index: usize,
    now: u64,
    chance: Chance,
)
    requires
        d.wf(),
        snapshot::shows(s, d),
        index < s.offline_tracks@.len(),
    ensures
        ({
            let r = d.command(Command::PlayFromOffline { index }, now, chance);
            &&& r.player.queue_index == index
            &&& r.player.queue.len() == s.offline_tracks@.len()
            &&& r.player.queue[index as int] == s.offline_tracks@[index as int].track
            &&& r.player.current_track == Some(s.offline_tracks@[index as int].track)
        }),
        d.active_tab == ActiveTab::Downloads && d.offline.category == OfflineCategory::Tracks
            ==> d.list_len() == s.offline_tracks@.len(),
{
    reveal(DaemonView::command);
    reveal(DaemonView::playing_command);
    reveal(DaemonView::play_from_downloads);
    reveal(DaemonView::play_offline_list);
    reveal(DaemonView::start_play_offline_track);
}

/// Closing a detail page undoes opening it.
pub proof fn closing_a_page_undoes_opening_it(d: DaemonView, page: NavOverlay)
    requires
        d.wf(),
    ensures
        d.push_nav(page).pages.top == Some(page),
        d.push_nav(page).pop_nav() == d,
{
    reveal(DaemonView::push_nav);
    reveal(DaemonView::pop_nav);
    let r = d.push_nav(page).pop_nav();
    assert(r.pages.below =~= d.pages.below);
}

/// Starting a track leaves the queue, the place in it and the shuffle cycle as
/// they are.
proof fn starting_keeps_the_queue(d: DaemonView, track: TrackData)
    ensures
        ({
            let r = d.start_play_track(track);
            &&& r.player.queue == d.player.queue
            &&& r.player.queue_index == d.player.queue_index
            &&& r.player.shuffle == d.player.shuffle
            &&& r.player.repeat == d.player.repeat
            &&& r.run.shuffle_order == d.run.shuffle_order
            &&& r.run.shuffle_pos == d.run.shuffle_pos
            &&& r.is_offline == d.is_offline
        }),
{
    reveal(DaemonView::start_play_track);
    reveal(DaemonView::start_play_offline_track);
}

/// With a connection, going to the previous track undoes going to the next one:
/// the queue is back where it was.
pub proof fn previous_undoes_next(d: DaemonView, now: u64, seed: u64, then: u64, other: u64)
    requires
        !d.is_offline,
        !d.player.shuffle,
        d.player.queue_index + 1 < d.player.queue.len() <= usize::MAX,
    ensures
        ({
            let next = d.play_next(now, seed);
            let back = next.play_prev(then, other);
            &&& next.player.queue_index == d.player.queue_index + 1
            &&& back.player.queue_index == d.player.queue_index
            &&& back.player.queue == d.player.queue
        }),
{
    reveal(DaemonView::play_next);
    reveal(DaemonView::next_in_queue);
    reveal(DaemonView::advance_to);
    reveal(DaemonView::play_prev);
    reveal(DaemonView::prev_in_queue);
    reveal(DaemonView::back_to);
    let index = (d.player.queue_index + 1) as usize;
    let there = d.at_queue_index(index);
    starting_keeps_the_queue(there, d.player.queue[index as int]);
    let next = d.play_next(now, seed);
    starting_keeps_the_queue(
        next.at_queue_index(d.player.queue_index),
        next.player.queue[d.player.queue_index as int],
    );
}

/// With a connection and under shuffle, going to the previous track walks back
/// through the cycle that was played.
pub proof fn previous_undoes_next_in_a_cycle(
    d: DaemonView,
    now: u64,
    seed: u64,
    then: u64,
    other: u64,
)
    requires
        !d.is_offline,
        d.player.shuffle,
        d.run.shuffle_order.len() == d.player.queue.len(),
        d.run.shuffle_pos + 1 < d.run.shuffle_order.len() <= usize::MAX,
        d.player.queue_index == d.run.shuffle_order[d.run.shuffle_pos as int],
    ensures
        ({
            let next = d.play_next(now, seed);
            let back = next.play_prev(then, other);
            &&& next.player.queue_index == d.run.shuffle_order[d.run.shuffle_pos + 1]
            &&& back.player.queue_index == d.player.queue_index
            &&& back.run.shuffle_pos == d.run.shuffle_pos
            &&& back.run.shuffle_order == d.run.shuffle_order
            &&& back.player.queue == d.player.queue
        }),
{
    reveal(DaemonView::play_next);
    reveal(DaemonView::sync_shuffle_order);
    reveal(DaemonView::next_in_cycle);
    reveal(DaemonView::advance_to);
    reveal(DaemonView::play_prev);
    reveal(DaemonView::prev_in_cycle);
    reveal(DaemonView::back_to);
    let pos = d.run.shuffle_pos + 1;
    let index = d.run.shuffle_order[pos];
    starting_keeps_the_queue(
        d.at_cycle_pos(pos).at_queue_index(index),
        d.player.queue[index as int],
    );
    let next = d.play_next(now, seed);
    let was = d.run.shuffle_order[d.run.shuffle_pos as int];
    starting_keeps_the_queue(
        next.at_cycle_pos(d.run.shuffle_pos as int).at_queue_index(was),
        next.player.queue[was as int],
    );
}

/// Bringing the cycle in step with a queue that grew keeps what was played and
/// what was to come, in order.
pub proof fn a_growing_queue_keeps_its_cycle(d: DaemonView, len: nat, current: usize, seed: u64)
    requires
        0 < d.run.shuffle_order.len() <= len,
    ensures
        ({
            let r = d.sync_shuffle_order(len, current, seed);
            &&& r.run.shuffle_order.len() == len
            &&& r.run.shuffle_order.take(d.run.shuffle_order.len() as int) == d.run.shuffle_order
            &&& r.run.shuffle_pos == d.run.shuffle_pos
        }),
{
    reveal(DaemonView::sync_shuffle_order);
    let r = d.sync_shuffle_order(len, current, seed);
    assert(r.run.shuffle_order.take(d.run.shuffle_order.len() as int) =~= d.run.shuffle_order);
}

/// Each play is reported once at most.
pub proof fn a_play_is_reported_once(d: DaemonView)
    ensures
        d.log_listen().log_listen() == d.log_listen(),
{
    reveal(DaemonView::log_listen);
}

/// Seeking stays inside the track.
pub proof fn seeking_stays_inside_the_track(d: DaemonView, target: int)
    ensures
        d.inside_track(target) <= d.player.duration_secs,
        0 <= target <= d.player.duration_secs ==> d.inside_track(target) == target,
        d.seek_to(target) == d || d.seek_to(target) == d.send(
            Effect::Seek { secs: d.inside_track(target) },
        ),
{
    reveal(DaemonView::seek_to);
}

/// Pausing and going on again leaves the track playing, no earlier than before.
pub proof fn resuming_undoes_pausing(d: DaemonView, now: u64, then: u64)
    requires
        d.run.engine_ready,
        d.player.status == PlaybackStatus::Playing,
    ensures
        ({
            let paused = d.toggle_pause(now);
            let back = paused.toggle_pause(then);
            &&& paused.player.status == PlaybackStatus::Paused
            &&& back.player.status == PlaybackStatus::Playing
            &&& back.player.current_track == d.player.current_track
            &&& back.run.offset_secs >= d.run.offset_secs
            &&& back.run.started_at == Some(then)
        }),
{
    reveal(DaemonView::toggle_pause);
    reveal(DaemonView::resume_playback);
}

/// A late answer for a favorites category that is not on display leaves what is
/// shown alone, and is kept under no other category.
pub proof fn late_favorites_are_not_mixed_up(
    d: DaemonView,
    category: FavoritesCategory,
    tracks: Seq<TrackData>,
    err: Seq<char>,
)
    requires
        category != d.fav.category,
    ensures
        ({
            let r = d.favorites_loaded(category, tracks);
            &&& r.fav.display == d.fav.display
            &&& r.fav.selected == d.fav.selected
            &&& r.fav.loading == d.fav.loading
            &&& r.fav.category == d.fav.category
            &&& r.fav.cache.artists == d.fav.cache.artists
            &&& r.fav.cache.albums == d.fav.cache.albums
            &&& r.fav.cache.playlists == d.fav.cache.playlists
            &&& r.fav.cache.following == d.fav.cache.following
            &&& category != FavoritesCategory::Tracks ==> r == d
        }),
        d.favorites_failed(category, err) == d,
{
    reveal(DaemonView::favorites_loaded);
    reveal(DaemonView::favorites_failed);
}

/// A quiet refresh of the open playlist keeps the cursor on its track.
pub proof fn a_refresh_keeps_the_cursor_on_its_track(d: DaemonView, detail: PlaylistDetailView)
    requires
        detail.tracks.len() <= usize::MAX,
        d.pages.playlist matches Some(page) && {
            &&& page.playlist_id@ == detail.playlist_id@
            &&& d.pages.playlist_selected < page.tracks.len()
            &&& seqs::listed(
                detail.tracks,
                page.tracks[d.pages.playlist_selected as int].track_id@,
            )
        },
    ensures
        ({
            let r = d.refresh_playlist(detail);
            &&& r.pages.playlist == Some(detail)
            &&& r.pages.playlist_selected < detail.tracks.len()
            &&& detail.tracks[r.pages.playlist_selected as int].track_id@
                == d.pages.playlist->0.tracks[d.pages.playlist_selected as int].track_id@
        }),
{
    reveal(DaemonView::refresh_playlist);
    let id = d.pages.playlist->0.tracks[d.pages.playlist_selected as int].track_id@;
    seqs::listed_has_a_place(detail.tracks, id);
}

/// A playlist that was deleted is listed nowhere.
pub proof fn deleted_playlists_are_gone(d: DaemonView, id: Seq<char>)
    ensures
        ({
            let r = d.playlist_deleted(id);
            &&& !seqs::listed(r.playlists, id)
            &&& forall|i: int|
                0 <= i < r.search.display.len() ==> (#[trigger] r.search.display[i]).playlist_id
                    != Some(id)
            &&& forall|i: int|
                0 <= i < r.fav.display.len() ==> (#[trigger] r.fav.display[i]).playlist_id != Some(
                    id,
                )
            &&& r.pages.playlist matches Some(page) ==> page.playlist_id@ != id
        }),
{
    broadcast use vstd::seq_lib::group_filter_ensures;

    reveal(DaemonView::playlist_deleted);
    reveal(DaemonView::playlist_changed);
    reveal(DaemonView::unlist);
    seqs::others_has_no_such_id(d.playlists, id);
}

/// An empty queue has no next and no previous track.
pub proof fn an_empty_queue_stays_silent(d: DaemonView, now: u64, seed: u64)
    requires
        d.player.queue.len() == 0,
    ensures
        d.play_next(now, seed) == d,
        d.play_prev(now, seed) == d,
{
    reveal(DaemonView::play_next);
    reveal(DaemonView::play_prev);
}

} // verus!
