//! Lists of things that have an id: looking up, dropping, mapping.

use vstd::prelude::*;

use crate::models::{AlbumDetail, OfflineTrack, PlaylistData, PlaylistDetail, TrackData};
use crate::text::same_text;

verus! {

/// Things that are known by an id.
pub trait HasId: Sized {
    /// The id.
    spec fn id_of(&self) -> Seq<char>;

    /// Whether the id reads `id`.
    fn has_the_id(&self, id: &str) -> (r: bool)
        ensures
            r == (self.id_of() == id@),
    ;
}

impl HasId for String {
    open spec fn id_of(&self) -> Seq<char> {
        self@
    }

    fn has_the_id(&self, id: &str) -> (r: bool) {
        same_text(self, id)
    }
}

impl HasId for TrackData {
    open spec fn id_of(&self) -> Seq<char> {
        self.track_id@
    }

    fn has_the_id(&self, id: &str) -> (r: bool) {
        same_text(&self.track_id, id)
    }
}

impl HasId for OfflineTrack {
    open spec fn id_of(&self) -> Seq<char> {
        self.track.track_id@
    }

    fn has_the_id(&self, id: &str) -> (r: bool) {
        same_text(&self.track.track_id, id)
    }
}

impl HasId for AlbumDetail {
    open spec fn id_of(&self) -> Seq<char> {
        self.album_id@
    }

    fn has_the_id(&self, id: &str) -> (r: bool) {
        same_text(&self.album_id, id)
    }
}

impl HasId for PlaylistDetail {
    open spec fn id_of(&self) -> Seq<char> {
        self.playlist_id@
    }

    fn has_the_id(&self, id: &str) -> (r: bool) {
        same_text(&self.playlist_id, id)
    }
}

impl HasId for PlaylistData {
    open spec fn id_of(&self) -> Seq<char> {
        self.playlist_id@
    }

    fn has_the_id(&self, id: &str) -> (r: bool) {
        same_text(&self.playlist_id, id)
    }
}

/// Something in the list has this id.
pub open spec fn listed<T: HasId>(s: Seq<T>, id: Seq<char>) -> bool {
    exists|i: int| 0 <= i < s.len() && (#[trigger] s[i]).id_of() == id
}

/// The test for another id.
pub open spec fn other_than<T: HasId>(id: Seq<char>) -> spec_fn(T) -> bool {
    |t: T| t.id_of() != id
}

/// The list without what has this id.
pub open spec fn others<T: HasId>(s: Seq<T>, id: Seq<char>) -> Seq<T> {
    s.filter(other_than(id))
}

/// Place `i` holds the first thing with this id.
pub open spec fn first_of<T: HasId>(s: Seq<T>, id: Seq<char>, i: int) -> bool {
    0 <= i < s.len() && s[i].id_of() == id && forall|k: int|
        0 <= k < i ==> (#[trigger] s[k]).id_of() != id
}

/// The place of the first thing with this id.
pub open spec fn place_of<T: HasId>(s: Seq<T>, id: Seq<char>) -> int {
    choose|i: int| first_of(s, id, i)
}

/// There is only one first place.
pub proof fn first_place_is_unique<T: HasId>(s: Seq<T>, id: Seq<char>, i: int)
    requires
        first_of(s, id, i),
    ensures
        place_of(s, id) == i,
{
    let j = place_of(s, id);
    assert(first_of(s, id, j));
    if i < j {
        assert(s[i].id_of() == id);
    } else if j < i {
        assert(s[j].id_of() == id);
    }
}

/// A thing that is listed has a first place.
pub proof fn listed_has_a_place<T: HasId>(s: Seq<T>, id: Seq<char>)
    requires
        listed(s, id),
    ensures
        first_of(s, id, place_of(s, id)),
    decreases s.len(),
{
    let k = choose|k: int| 0 <= k < s.len() && (#[trigger] s[k]).id_of() == id;
    if listed(s.take(k), id) {
        listed_has_a_place(s.take(k), id);
        let i = place_of(s.take(k), id);
        assert(s[i] == s.take(k)[i]);
        assert forall|j: int| 0 <= j < i implies (#[trigger] s[j]).id_of() != id by {
            assert(s[j] == s.take(k)[j]);
        }
        assert(first_of(s, id, i));
    } else {
        assert forall|j: int| 0 <= j < k implies (#[trigger] s[j]).id_of() != id by {
            assert(s.take(k)[j] == s[j]);
        }
        assert(first_of(s, id, k));
    }
}

/// The place of the first thing with this id.
pub fn find_id<T: HasId>(s: &Vec<T>, id: &str) -> (r: Option<usize>)
    ensures
        match r {
            Some(i) => first_of(s@, id@, i as int) && listed(s@, id@) && place_of(s@, id@) == i,
            None => !listed(s@, id@),
        },
{
    let n: usize = s.len();
    let mut i: usize = 0;
    while i < n
        invariant
            i <= n,
            n == s@.len(),
            forall|k: int| 0 <= k < i ==> (#[trigger] s@[k]).id_of() != id@,
        decreases n - i,
    {
        if s[i].has_the_id(id) {
            proof {
                first_place_is_unique(s@, id@, i as int);
            }
            return Some(i);
        }
        i = i + 1;
    }
    None
}

/// Whether something in the list has this id.
pub fn contains_id<T: HasId>(s: &Vec<T>, id: &str) -> (r: bool)
    ensures
        r == listed(s@, id@),
{
    find_id(s, id).is_some()
}

/// Drops what has this id from a list.
pub fn drop_id<T: HasId>(s: Vec<T>, id: &str) -> (r: Vec<T>)
    ensures
        r@ == others(s@, id@),
{
    let ghost all = s@;
    let mut out: Vec<T> = Vec::new();
    proof {
        reveal(Seq::filter);
    }
    for x in it: s
        invariant
            it.seq() == all,
            out@ == others(all.take(it.index() as int), id@),
    {
        proof {
            reveal(Seq::filter);
            assert(all.take(it.index() + 1).drop_last() =~= all.take(it.index() as int));
        }
        if !x.has_the_id(id) {
            out.push(x);
        }
    }
    proof {
        assert(all.take(all.len() as int) =~= all);
    }
    out
}

/// Nothing with the id is left, and the rest keeps its order.
pub proof fn others_has_no_such_id<T: HasId>(s: Seq<T>, id: Seq<char>)
    ensures
        !listed(others(s, id), id),
{
    broadcast use vstd::seq_lib::group_filter_ensures;

}

/// Filtering and mapping change places when the tests agree.
pub proof fn filter_then_map<A, B>(
    s: Seq<A>,
    f: spec_fn(A) -> B,
    p: spec_fn(A) -> bool,
    q: spec_fn(B) -> bool,
)
    requires
        forall|a: A| #[trigger] p(a) == q(f(a)),
    ensures
        s.filter(p).map_values(f) == s.map_values(f).filter(q),
    decreases s.len(),
{
    reveal(Seq::filter);
    if s.len() > 0 {
        let init = s.drop_last();
        filter_then_map(init, f, p, q);
        assert(s.map_values(f).drop_last() =~= init.map_values(f));
        assert(s.map_values(f).last() == f(s.last()));
        if p(s.last()) {
            assert(init.filter(p).push(s.last()).map_values(f) =~= init.filter(p).map_values(
                f,
            ).push(f(s.last())));
        }
    } else {
        assert(s.filter(p).map_values(f) =~= s.map_values(f).filter(q));
    }
}

/// What an optional value shows.
pub open spec fn opt_view<T: View>(o: Option<T>) -> Option<T::V> {
    match o {
        Some(v) => Some(v@),
        None => None,
    }
}

/// What a value shows.
pub open spec fn shown<T: View>() -> spec_fn(T) -> T::V {
    |t: T| t@
}

/// What a list of values shows.
pub open spec fn views<T: View>(s: Seq<T>) -> Seq<T::V> {
    s.map_values(shown())
}

/// Dropping by id from a list drops from what the list shows.
pub proof fn views_of_others<T: HasId + View>(s: Seq<T>, id: Seq<char>, keep: spec_fn(T::V) -> bool)
    requires
        forall|t: T| (#[trigger] t.id_of() != id) == keep(t@),
    ensures
        views(others(s, id)) == views(s).filter(keep),
{
    filter_then_map(s, shown(), other_than(id), keep);
}

/// What passes a test is what is left of a list, and all of it is left.
pub proof fn what_passes_is_left<A>(s: Seq<A>, p: spec_fn(A) -> bool)
    ensures
        s.filter(p).len() <= s.len(),
        forall|i: int|
            0 <= i < s.filter(p).len() ==> s.contains(#[trigger] s.filter(p)[i]) && p(
                s.filter(p)[i],
            ),
        forall|i: int| 0 <= i < s.len() && p(#[trigger] s[i]) ==> s.filter(p).contains(s[i]),
    decreases s.len(),
{
    reveal(Seq::filter);
    if s.len() > 0 {
        let init = s.drop_last();
        what_passes_is_left(init, p);
        let before = init.filter(p);
        let after = s.filter(p);
        assert forall|i: int| 0 <= i < after.len() implies s.contains(#[trigger] after[i]) && p(
            after[i],
        ) by {
            if i < before.len() {
                assert(after[i] == before[i]);
                let k = choose|k: int| 0 <= k < init.len() && init[k] == before[i];
                assert(s[k] == after[i]);
            } else {
                assert(s[s.len() - 1] == after[i]);
            }
        }
        assert forall|i: int| 0 <= i < s.len() && p(#[trigger] s[i]) implies after.contains(
            s[i],
        ) by {
            if i < init.len() {
                assert(init[i] == s[i]);
                let k = choose|k: int| 0 <= k < before.len() && before[k] == init[i];
                assert(after[k] == s[i]);
            } else {
                assert(after[after.len() - 1] == s[i]);
            }
        }
    }
}

} // verus!
