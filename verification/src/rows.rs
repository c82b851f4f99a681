//! Keeping lists of playlists in step with what happens to a playlist.

use vstd::prelude::*;

use crate::models;
use crate::models::{opt_is, DisplayItem, DisplayItemView, PlaylistData};
use crate::seqs::HasId;
use crate::text;
use crate::text::{decimal, first_word, parse_signed};

verus! {

/// A count changed by `delta`, never below zero.
pub open spec fn changed_count(n: int, delta: int) -> int {
    if n + delta < 0 {
        0
    } else {
        n + delta
    }
}

/// The track count that a row shows in its third column; zero where the column
/// does not begin with a number.
pub open spec fn shown_count(col3: Seq<char>, delta: int) -> int {
    match text::first_word_of(col3) {
        Some(word) => match text::signed_of(word) {
            Some(n) => changed_count(n, delta),
            None => 0,
        },
        None => 0,
    }
}

/// How a row changes when a playlist's track count changes by `delta`.
pub open spec fn row_adjusted(id: Seq<char>, delta: int) -> spec_fn(
    DisplayItemView,
) -> DisplayItemView {
    |row: DisplayItemView|
        if row.playlist_id == Some(id) {
            DisplayItemView { col3: text::decimal_of(shown_count(row.col3, delta) as nat), ..row }
        } else {
            row
        }
}

/// How a row changes when a playlist's track count is known to be `count`.
pub open spec fn row_counted(id: Seq<char>, count: nat) -> spec_fn(
    DisplayItemView,
) -> DisplayItemView {
    |row: DisplayItemView|
        if row.playlist_id == Some(id) {
            DisplayItemView { col3: text::decimal_of(count), ..row }
        } else {
            row
        }
}

/// How a row changes when a playlist gets another title.
pub open spec fn row_renamed(id: Seq<char>, title: Seq<char>) -> spec_fn(
    DisplayItemView,
) -> DisplayItemView {
    |row: DisplayItemView|
        if row.playlist_id == Some(id) {
            DisplayItemView { col1: title, ..row }
        } else {
            row
        }
}

/// The test for a row that is not this playlist's.
pub open spec fn row_of_another(id: Seq<char>) -> spec_fn(DisplayItemView) -> bool {
    |row: DisplayItemView| row.playlist_id != Some(id)
}

/// How a playlist changes when its track count changes by `delta`.
pub open spec fn playlist_adjusted(id: Seq<char>, delta: int) -> spec_fn(
    PlaylistData,
) -> PlaylistData {
    |p: PlaylistData|
        if p.playlist_id@ == id {
            PlaylistData {
                nb_songs: if changed_count(p.nb_songs as int, delta) > u64::MAX {
                    u64::MAX
                } else {
                    changed_count(p.nb_songs as int, delta) as u64
                },
                ..p
            }
        } else {
            p
        }
}

/// How a playlist changes when its track count is known to be `count`.
pub open spec fn playlist_counted(id: Seq<char>, count: u64) -> spec_fn(
    PlaylistData,
) -> PlaylistData {
    |p: PlaylistData|
        if p.playlist_id@ == id {
            PlaylistData { nb_songs: count, ..p }
        } else {
            p
        }
}

/// How a playlist changes when it gets another title.
pub open spec fn playlist_renamed(id: Seq<char>, title: String) -> spec_fn(
    PlaylistData,
) -> PlaylistData {
    |p: PlaylistData|
        if p.playlist_id@ == id {
            PlaylistData { title, ..p }
        } else {
            p
        }
}

/// The track count of a row's third column, changed by `delta`.
fn adjusted_count(col3: &str, delta: i64) -> (r: u64)
    ensures
        r == shown_count(col3@, delta as int),
{
    match first_word(col3) {
        Some(word) => match parse_signed(&word) {
            Some(n) => {
                let sum: i128 = n as i128 + delta as i128;
                if sum < 0 {
                    0
                } else {
                    sum as u64
                }
            },
            None => 0,
        },
        None => 0,
    }
}

/// Changes the track count of a playlist in every row that shows it.
pub fn adjust_rows(rows: Vec<DisplayItem>, id: &str, delta: i64) -> (r: Vec<DisplayItem>)
    ensures
        models::rows_of(r@) == models::rows_of(rows@).map_values(row_adjusted(id@, delta as int)),
        r@.len() == rows@.len(),
{
    let ghost all = rows@;
    let mut out: Vec<DisplayItem> = Vec::new();
    for row in it: rows
        invariant
            it.seq() == all,
            out@.len() == it.index(),
            forall|k: int|
                0 <= k < out@.len() ==> (#[trigger] out@[k])@ == row_adjusted(id@, delta as int)(
                    all[k]@,
                ),
    {
        if opt_is(&row.playlist_id, id) {
            let count: u64 = adjusted_count(&row.col3, delta);
            out.push(DisplayItem { col3: decimal(count), ..row });
        } else {
            out.push(row);
        }
    }
    proof {
        assert(models::rows_of(out@) =~= models::rows_of(all).map_values(
            row_adjusted(id@, delta as int),
        ));
    }
    out
}

/// Sets the track count of a playlist in every row that shows it.
pub fn count_rows(rows: Vec<DisplayItem>, id: &str, count: usize) -> (r: Vec<DisplayItem>)
    ensures
        models::rows_of(r@) == models::rows_of(rows@).map_values(row_counted(id@, count as nat)),
        r@.len() == rows@.len(),
{
    let ghost all = rows@;
    let mut out: Vec<DisplayItem> = Vec::new();
    for row in it: rows
        invariant
            it.seq() == all,
            out@.len() == it.index(),
            forall|k: int|
                0 <= k < out@.len() ==> (#[trigger] out@[k])@ == row_counted(id@, count as nat)(
                    all[k]@,
                ),
    {
        if opt_is(&row.playlist_id, id) {
            out.push(DisplayItem { col3: decimal(count as u64), ..row });
        } else {
            out.push(row);
        }
    }
    proof {
        assert(models::rows_of(out@) =~= models::rows_of(all).map_values(
            row_counted(id@, count as nat),
        ));
    }
    out
}

/// Sets the title of a playlist in every row that shows it.
pub fn rename_rows(rows: Vec<DisplayItem>, id: &str, title: &String) -> (r: Vec<DisplayItem>)
    ensures
        models::rows_of(r@) == models::rows_of(rows@).map_values(row_renamed(id@, title@)),
        r@.len() == rows@.len(),
{
    let ghost all = rows@;
    let mut out: Vec<DisplayItem> = Vec::new();
    for row in it: rows
        invariant
            it.seq() == all,
            out@.len() == it.index(),
            forall|k: int|
                0 <= k < out@.len() ==> (#[trigger] out@[k])@ == row_renamed(id@, title@)(all[k]@),
    {
        if opt_is(&row.playlist_id, id) {
            out.push(DisplayItem { col1: title.clone(), ..row });
        } else {
            out.push(row);
        }
    }
    proof {
        assert(models::rows_of(out@) =~= models::rows_of(all).map_values(row_renamed(id@, title@)));
    }
    out
}

/// Drops the rows that show a playlist.
pub fn drop_rows(rows: Vec<DisplayItem>, id: &str) -> (r: Vec<DisplayItem>)
    ensures
        models::rows_of(r@) == models::rows_of(rows@).filter(row_of_another(id@)),
{
    let ghost all = rows@;
    let ghost seen = models::rows_of(all);
    let mut out: Vec<DisplayItem> = Vec::new();
    proof {
        reveal(Seq::filter);
        assert(seen.take(0) =~= Seq::empty());
        assert(models::rows_of(out@) =~= seen.take(0).filter(row_of_another(id@)));
    }
    for row in it: rows
        invariant
            it.seq() == all,
            seen == models::rows_of(all),
            models::rows_of(out@) == seen.take(it.index() as int).filter(row_of_another(id@)),
    {
        let ghost before = out@;
        let ghost i = it.index() as int;
        let ghost this = row;
        proof {
            reveal(Seq::filter);
            assert(seen.take(i + 1).drop_last() =~= seen.take(i));
            assert(seen.take(i + 1).last() == all[i]@);
        }
        if !opt_is(&row.playlist_id, id) {
            out.push(row);
            proof {
                assert(models::rows_of(out@) =~= models::rows_of(before).push(this@));
            }
        }
    }
    proof {
        assert(seen.take(all.len() as int) =~= seen);
    }
    out
}

/// Changes the track count of a playlist.
pub fn adjust_playlists(list: Vec<PlaylistData>, id: &str, delta: i64) -> (r: Vec<PlaylistData>)
    ensures
        r@ == list@.map_values(playlist_adjusted(id@, delta as int)),
{
    let ghost all = list@;
    let mut out: Vec<PlaylistData> = Vec::new();
    for p in it: list
        invariant
            it.seq() == all,
            out@.len() == it.index(),
            forall|k: int|
                0 <= k < out@.len() ==> #[trigger] out@[k] == playlist_adjusted(id@, delta as int)(
                    all[k],
                ),
    {
        if p.has_the_id(id) {
            let sum: i128 = p.nb_songs as i128 + delta as i128;
            let nb_songs: u64 = if sum < 0 {
                0
            } else if sum > u64::MAX as i128 {
                u64::MAX
            } else {
                sum as u64
            };
            out.push(PlaylistData { nb_songs, ..p });
        } else {
            out.push(p);
        }
    }
    proof {
        assert(out@ =~= all.map_values(playlist_adjusted(id@, delta as int)));
    }
    out
}

/// Sets the track count of a playlist.
pub fn count_playlists(list: Vec<PlaylistData>, id: &str, count: usize) -> (r: Vec<PlaylistData>)
    ensures
        r@ == list@.map_values(playlist_counted(id@, count as u64)),
{
    let ghost all = list@;
    let mut out: Vec<PlaylistData> = Vec::new();
    for p in it: list
        invariant
            it.seq() == all,
            out@.len() == it.index(),
            forall|k: int|
                0 <= k < out@.len() ==> #[trigger] out@[k] == playlist_counted(id@, count as u64)(
                    all[k],
                ),
    {
        if p.has_the_id(id) {
            out.push(PlaylistData { nb_songs: count as u64, ..p });
        } else {
            out.push(p);
        }
    }
    proof {
        assert(out@ =~= all.map_values(playlist_counted(id@, count as u64)));
    }
    out
}

/// Sets the title of a playlist.
pub fn rename_playlists(list: Vec<PlaylistData>, id: &str, title: &String) -> (r: Vec<PlaylistData>)
    ensures
        r@ == list@.map_values(playlist_renamed(id@, *title)),
{
    let ghost all = list@;
    let mut out: Vec<PlaylistData> = Vec::new();
    for p in it: list
        invariant
            it.seq() == all,
            out@.len() == it.index(),
            forall|k: int|
                0 <= k < out@.len() ==> #[trigger] out@[k] == playlist_renamed(id@, *title)(all[k]),
    {
        if p.has_the_id(id) {
            out.push(PlaylistData { title: title.clone(), ..p });
        } else {
            out.push(p);
        }
    }
    proof {
        assert(out@ =~= all.map_values(playlist_renamed(id@, *title)));
    }
    out
}

/// Adding a track and removing one again leaves a playlist's count as it was,
/// short of the largest number there is.
pub proof fn adding_and_removing_keeps_the_count(p: PlaylistData, id: Seq<char>)
    requires
        p.nb_songs < u64::MAX,
    ensures
        playlist_adjusted(id, -1)(playlist_adjusted(id, 1)(p)) == p,
{
}

/// A row's count that is changed stays a number that can be changed again.
pub proof fn adjusted_rows_stay_readable(row: DisplayItemView, id: Seq<char>, n: nat)
    requires
        row.playlist_id == Some(id),
        n < i64::MAX,
        row.col3 == text::decimal_of(n),
        forall|i: int| 0 <= i < row.col3.len() ==> !text::space(#[trigger] row.col3[i]),
    ensures
        row_adjusted(id, 1)(row).col3 == text::decimal_of(n + 1),
{
    text::decimal_reads_back(n, i64::MAX as nat);
    text::no_space_is_one_word(row.col3);
    text::decimal_starts_with_digit(n);
}

/// A row that shows a number of tracks shows so many more, or fewer, afterwards, and
/// none where there would be fewer than none; its other columns stay. A row of
/// anything else stays as it is.
pub proof fn rows_are_counted_up_and_down(row: DisplayItemView, id: Seq<char>, n: nat, by: int)
    requires
        n <= i64::MAX,
        row.col3 == text::decimal_of(n),
    ensures
        ({
            let r = row_adjusted(id, by)(row);
            &&& row.playlist_id == Some(id) ==> {
                &&& n + by >= 0 ==> r.col3 == text::decimal_of((n + by) as nat)
                &&& n + by < 0 ==> r.col3 == text::decimal_of(0)
                &&& r.col1 == row.col1 && r.col2 == row.col2 && r.playlist_id == row.playlist_id
            }
            &&& row.playlist_id != Some(id) ==> r == row
        }),
{
    text::decimal_reads_back(n, i64::MAX as nat);
    text::decimals_are_one_word(n);
    text::decimal_starts_with_digit(n);
}

} // verus!
