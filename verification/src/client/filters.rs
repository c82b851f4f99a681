//! Fuzzy filters over lists, and which items they leave.

use vstd::prelude::*;

use crate::models::{AlbumDetail, DisplayItem, OfflineTrack, PlaylistData, PlaylistDetail, TrackData};
use crate::protocol::{GenreItem, RadioItem};
use crate::text;
use crate::text::{drop_last_char, fuzzy_match, lowercase, push_char};

verus! {

/// A field matches a query in small letters: its letters stand in the field in
/// order, whatever their case there.
pub open spec fn text_fits(query: Seq<char>, field: Seq<char>) -> bool {
    text::subsequence(query, text::lowercase_of(field))
}

/// Whether a field matches a query in small letters.
pub fn field_matches(query: &str, field: &str) -> (r: bool)
    ensures
        r == text_fits(query@, field@),
{
    let low: String = lowercase(field);
    fuzzy_match(query, &low)
}

/// Where the items stand for which a test holds.
pub open spec fn places<T>(s: Seq<T>, keep: spec_fn(T) -> bool) -> Seq<usize>
    decreases s.len(),
{
    if s.len() == 0 {
        Seq::empty()
    } else if keep(s.last()) {
        places(s.drop_last(), keep).push((s.len() - 1) as usize)
    } else {
        places(s.drop_last(), keep)
    }
}

/// The places of a filtered list lead back to the items that match, in the order
/// of the list and none of them twice.
pub proof fn places_lead_back<T>(s: Seq<T>, keep: spec_fn(T) -> bool)
    requires
        s.len() <= usize::MAX,
    ensures
        places(s, keep).len() <= s.len(),
        forall|k: int|
            0 <= k < places(s, keep).len() ==> (#[trigger] places(s, keep)[k]) < s.len() && keep(
                s[places(s, keep)[k] as int],
            ),
        forall|j: int, k: int|
            0 <= j < k < places(s, keep).len() ==> places(s, keep)[j] < places(s, keep)[k],
    decreases s.len(),
{
    if s.len() > 0 {
        places_lead_back(s.drop_last(), keep);
    }
}

/// Every item that matches has its place in the filtered list.
pub proof fn matches_have_places<T>(s: Seq<T>, keep: spec_fn(T) -> bool, i: int)
    requires
        0 <= i < s.len() <= usize::MAX,
        keep(s[i]),
    ensures
        places(s, keep).contains(i as usize),
    decreases s.len(),
{
    let shorter = places(s.drop_last(), keep);
    if i == s.len() - 1 {
        let all = places(s, keep);
        assert(all[all.len() - 1] == i as usize);
    } else {
        matches_have_places(s.drop_last(), keep, i);
        let k = choose|k: int| 0 <= k < shorter.len() && shorter[k] == i as usize;
        assert(places(s, keep)[k] == i as usize);
    }
}

/// A filter that lets everything through leaves each item at its own place.
pub proof fn all_places<T>(s: Seq<T>, keep: spec_fn(T) -> bool)
    requires
        s.len() <= usize::MAX,
        forall|i: int| 0 <= i < s.len() ==> keep(#[trigger] s[i]),
    ensures
        places(s, keep).len() == s.len(),
        forall|k: int| 0 <= k < s.len() ==> (#[trigger] places(s, keep)[k]) == k,
    decreases s.len(),
{
    if s.len() > 0 {
        let rest = s.drop_last();
        assert forall|i: int| 0 <= i < rest.len() implies keep(#[trigger] rest[i]) by {
            assert(rest[i] == s[i]);
        }
        assert(keep(s[s.len() - 1]));
        all_places(rest, keep);
    }
}

/// One more item, and where the matches stand then.
pub proof fn places_of_one_more<T>(s: Seq<T>, keep: spec_fn(T) -> bool, i: int)
    requires
        0 <= i < s.len(),
    ensures
        places(s.take(i + 1), keep) == (if keep(s[i]) {
            places(s.take(i), keep).push(i as usize)
        } else {
            places(s.take(i), keep)
        }),
{
    assert(s.take(i + 1).drop_last() =~= s.take(i));
    assert(s.take(i + 1).last() == s[i]);
}

/// Things that a filter can be applied to.
pub trait Filtered: Sized {
    /// A query in small letters matches the thing.
    spec fn fits(&self, query: Seq<char>) -> bool;

    /// Whether a query in small letters matches the thing.
    fn matches(&self, query: &str) -> (r: bool)
        ensures
            r == self.fits(query@),
    ;
}

/// The test that a filter applies; an empty one lets everything through.
pub open spec fn passes<T: Filtered>(input: Seq<char>) -> spec_fn(T) -> bool {
    |t: T| input.len() == 0 || t.fits(text::lowercase_of(input))
}

/// Where the items stand that a filter leaves.
pub open spec fn left_by<T: Filtered>(s: Seq<T>, input: Seq<char>) -> Seq<usize> {
    places(s, passes(input))
}

/// Finds the items that a filter leaves.
pub fn filtered_places<T: Filtered>(items: &Vec<T>, input: &str) -> (r: Vec<usize>)
    ensures
        r@ == left_by(items@, input@),
{
    let query: String = lowercase(input);
    let empty: bool = input.unicode_len() == 0;
    let mut out: Vec<usize> = Vec::new();
    let mut i: usize = 0;
    proof {
        assert(items@.take(0) =~= Seq::empty());
        assert(out@ =~= places(items@.take(0), passes(input@)));
    }
    while i < items.len()
        invariant
            i <= items@.len(),
            query@ == text::lowercase_of(input@),
            empty == (input@.len() == 0),
            out@ == places(items@.take(i as int), passes(input@)),
        decreases items@.len() - i,
    {
        proof {
            places_of_one_more(items@, passes(input@), i as int);
        }
        if empty || items[i].matches(&query) {
            out.push(i);
        }
        i = i + 1;
    }
    proof {
        assert(items@.take(items@.len() as int) =~= items@);
    }
    out
}

/// The items at these places, each with its place.
pub open spec fn paired_with<T>(s: Seq<T>, at: Seq<usize>, r: Seq<(usize, &T)>) -> bool {
    r.len() == at.len() && forall|k: int|
        0 <= k < at.len() ==> (#[trigger] r[k]).0 == at[k] && *r[k].1 == s[at[k] as int]
}

/// Pairs the items that a filter leaves with their places.
pub fn filtered_pairs<'a, T: Filtered>(items: &'a Vec<T>, input: &str) -> (r: Vec<(usize, &'a T)>)
    ensures
        paired_with(items@, left_by(items@, input@), r@),
{
    let at: Vec<usize> = filtered_places(items, input);
    let len: usize = items.len();
    proof {
        places_lead_back(items@, passes::<T>(input@));
    }
    let mut out: Vec<(usize, &'a T)> = Vec::new();
    let mut k: usize = 0;
    while k < at.len()
        invariant
            k <= at@.len(),
            at@ == left_by(items@, input@),
            forall|j: int| 0 <= j < at@.len() ==> (#[trigger] at@[j]) < items@.len(),
            out@.len() == k,
            forall|j: int|
                0 <= j < k ==> (#[trigger] out@[j]).0 == at@[j] && *out@[j].1 == items@[at@[j] as int],
        decreases at@.len() - k,
    {
        let i: usize = at[k];
        out.push((i, &items[i]));
        k = k + 1;
    }
    out
}

impl Filtered for TrackData {
    /// By title or artist.
    open spec fn fits(&self, query: Seq<char>) -> bool {
        text_fits(query, self.title@) || text_fits(query, self.artist@)
    }

    fn matches(&self, query: &str) -> (r: bool) {
        field_matches(query, &self.title) || field_matches(query, &self.artist)
    }
}

impl Filtered for OfflineTrack {
    /// By title, artist or album.
    open spec fn fits(&self, query: Seq<char>) -> bool {
        text_fits(query, self.track.title@) || text_fits(query, self.track.artist@) || text_fits(
            query,
            self.track.album@,
        )
    }

    fn matches(&self, query: &str) -> (r: bool) {
        field_matches(query, &self.track.title) || field_matches(query, &self.track.artist)
            || field_matches(query, &self.track.album)
    }
}

impl Filtered for AlbumDetail {
    /// By title or artist.
    open spec fn fits(&self, query: Seq<char>) -> bool {
        text_fits(query, self.title@) || text_fits(query, self.artist@)
    }

    fn matches(&self, query: &str) -> (r: bool) {
        field_matches(query, &self.title) || field_matches(query, &self.artist)
    }
}

impl Filtered for PlaylistDetail {
    /// By title or creator.
    open spec fn fits(&self, query: Seq<char>) -> bool {
        text_fits(query, self.title@) || text_fits(query, self.creator@)
    }

    fn matches(&self, query: &str) -> (r: bool) {
        field_matches(query, &self.title) || field_matches(query, &self.creator)
    }
}

impl Filtered for PlaylistData {
    /// By title.
    open spec fn fits(&self, query: Seq<char>) -> bool {
        text_fits(query, self.title@)
    }

    fn matches(&self, query: &str) -> (r: bool) {
        field_matches(query, &self.title)
    }
}

impl Filtered for DisplayItem {
    /// By the first or second column.
    open spec fn fits(&self, query: Seq<char>) -> bool {
        text_fits(query, self.col1@) || text_fits(query, self.col2@)
    }

    fn matches(&self, query: &str) -> (r: bool) {
        field_matches(query, &self.col1) || field_matches(query, &self.col2)
    }
}

impl Filtered for RadioItem {
    /// By title.
    open spec fn fits(&self, query: Seq<char>) -> bool {
        text_fits(query, self.title@)
    }

    fn matches(&self, query: &str) -> (r: bool) {
        field_matches(query, &self.title)
    }
}

impl Filtered for GenreItem {
    /// By name.
    open spec fn fits(&self, query: Seq<char>) -> bool {
        text_fits(query, self.name@)
    }

    fn matches(&self, query: &str) -> (r: bool) {
        field_matches(query, &self.name)
    }
}

/// Things that can be copied as they are.
pub trait Copied: Sized {
    /// The same thing again.
    fn copied(&self) -> (r: Self)
        ensures
            r == *self,
    ;
}

impl Copied for RadioItem {
    fn copied(&self) -> (r: Self) {
        self.clone()
    }
}

impl Copied for GenreItem {
    fn copied(&self) -> (r: Self) {
        self.clone()
    }
}

/// A list with a filter over it.
#[derive(Debug)]
pub struct FilterList<T> {
    pub items: Vec<T>,
    pub loading: bool,
    /// Cursor within what is shown.
    pub selected: usize,
    /// What the filter leaves.
    pub shown: Vec<T>,
    pub input: String,
    /// Whether the filter has the focus.
    pub typing: bool,
}

/// What a [`FilterList`] holds.
pub struct FilterListView<T> {
    pub items: Seq<T>,
    pub loading: bool,
    pub selected: usize,
    pub shown: Seq<T>,
    pub input: Seq<char>,
    pub typing: bool,
}

impl<T> View for FilterList<T> {
    type V = FilterListView<T>;

    open spec fn view(&self) -> FilterListView<T> {
        FilterListView {
            items: self.items@,
            loading: self.loading,
            selected: self.selected,
            shown: self.shown@,
            input: self.input@,
            typing: self.typing,
        }
    }
}

/// What a filter leaves of a list.
pub open spec fn kept<T: Filtered>(items: Seq<T>, input: Seq<char>) -> Seq<T> {
    items.filter(passes(input))
}

impl<T: Filtered> FilterListView<T> {
    /// The list with its filter applied again, the cursor at the top.
    pub open spec fn applied(self) -> FilterListView<T> {
        FilterListView { shown: kept(self.items, self.input), selected: 0, ..self }
    }

    /// The list after a letter was typed into the filter.
    pub open spec fn typed(self, c: char) -> FilterListView<T> {
        FilterListView { input: self.input.push(c), ..self }.applied()
    }

    /// The list after a letter was taken back.
    pub open spec fn erased(self) -> FilterListView<T> {
        FilterListView { input: text::without_last(self.input), ..self }.applied()
    }

    /// The list with the focus in its filter, which may be emptied first.
    pub open spec fn focused(self, clear: bool) -> FilterListView<T> {
        FilterListView {
            typing: true,
            input: if clear {
                Seq::empty()
            } else {
                self.input
            },
            ..self
        }.applied()
    }

    /// The list with another cursor.
    pub open spec fn at(self, selected: usize) -> FilterListView<T> {
        FilterListView { selected, ..self }
    }

    /// The list with the focus outside its filter.
    pub open spec fn left(self) -> FilterListView<T> {
        FilterListView { typing: false, ..self }
    }

    /// The list with its filter emptied and left, but not applied again.
    pub open spec fn unfiltered(self) -> FilterListView<T> {
        FilterListView { typing: false, input: Seq::empty(), ..self }
    }

    /// The list once the player sent it: taken over where its length or its
    /// loading state changed.
    pub open spec fn received(self, items: Seq<T>, loading: bool) -> FilterListView<T> {
        if self.items.len() != items.len() || self.loading != loading {
            FilterListView { items, loading, ..self }.applied()
        } else {
            self
        }
    }

    /// The list as the player sends it first.
    pub open spec fn first(items: Seq<T>, loading: bool, selected: usize) -> FilterListView<T> {
        FilterListView {
            items,
            loading,
            selected,
            shown: items,
            input: Seq::empty(),
            typing: false,
        }
    }
}

/// Copies a list.
fn copy_all<T: Copied>(items: &Vec<T>) -> (r: Vec<T>)
    ensures
        r@ == items@,
{
    let mut out: Vec<T> = Vec::new();
    let mut i: usize = 0;
    while i < items.len()
        invariant
            i <= items@.len(),
            out@ == items@.take(i as int),
        decreases items@.len() - i,
    {
        out.push(items[i].copied());
        proof {
            assert(out@ =~= items@.take(i + 1));
        }
        i = i + 1;
    }
    proof {
        assert(items@.take(items@.len() as int) =~= items@);
    }
    out
}

impl<T: Filtered + Copied> FilterList<T> {
    /// The list as the player sends it first.
    pub fn new(items: &Vec<T>, loading: bool, selected: usize) -> (r: FilterList<T>)
        ensures
            r@ == FilterListView::first(items@, loading, selected),
    {
        FilterList {
            items: copy_all(items),
            loading,
            selected,
            shown: copy_all(items),
            input: String::new(),
            typing: false,
        }
    }

    /// Applies the filter again.
    pub fn apply(&mut self)
        ensures
            final(self)@ == old(self)@.applied(),
    {
        let query: String = lowercase(self.input.as_str());
        let empty: bool = self.input.as_str().unicode_len() == 0;
        let ghost test = passes::<T>(self.input@);
        let mut out: Vec<T> = Vec::new();
        let mut i: usize = 0;
        proof {
            reveal(Seq::filter);
            assert(self.items@.take(0) =~= Seq::empty());
            assert(out@ =~= self.items@.take(0).filter(test));
        }
        while i < self.items.len()
            invariant
                i <= self.items@.len(),
                test == passes::<T>(self.input@),
                query@ == text::lowercase_of(self.input@),
                empty == (self.input@.len() == 0),
                out@ == self.items@.take(i as int).filter(test),
            decreases self.items@.len() - i,
        {
            proof {
                reveal(Seq::filter);
                assert(self.items@.take(i + 1).drop_last() =~= self.items@.take(i as int));
                assert(self.items@.take(i + 1).last() == self.items@[i as int]);
            }
            if empty || self.items[i].matches(&query) {
                out.push(self.items[i].copied());
            }
            i = i + 1;
        }
        proof {
            assert(self.items@.take(self.items@.len() as int) =~= self.items@);
        }
        self.shown = out;
        self.selected = 0;
    }

    /// Types a letter into the filter.
    pub fn type_char(&mut self, c: char)
        ensures
            final(self)@ == old(self)@.typed(c),
    {
        push_char(&mut self.input, c);
        self.apply();
    }

    /// Takes a letter back.
    pub fn erase(&mut self)
        ensures
            final(self)@ == old(self)@.erased(),
    {
        self.input = drop_last_char(&self.input);
        self.apply();
    }

    /// Puts the focus in the filter.
    pub fn focus(&mut self, clear: bool)
        ensures
            final(self)@ == old(self)@.focused(clear),
    {
        self.typing = true;
        if clear {
            self.input = String::new();
        }
        self.apply();
    }

    /// Takes the focus out of the filter.
    pub fn leave(&mut self)
        ensures
            final(self)@ == old(self)@.left(),
    {
        self.typing = false;
    }

    /// Moves the cursor.
    pub fn select(&mut self, selected: usize)
        ensures
            final(self)@ == old(self)@.at(selected),
    {
        self.selected = selected;
    }

    /// Empties the filter and leaves it.
    pub fn reset(&mut self)
        ensures
            final(self)@ == old(self)@.unfiltered(),
    {
        self.typing = false;
        self.input = String::new();
    }

    /// Takes over what the player sent.
    pub fn receive(&mut self, items: &Vec<T>, loading: bool)
        ensures
            final(self)@ == old(self)@.received(items@, loading),
    {
        if self.items.len() != items.len() || self.loading != loading {
            self.items = copy_all(items);
            self.loading = loading;
            self.apply();
        }
    }
}

/// An empty filter shows the whole list.
pub proof fn an_empty_filter_shows_all<T: Filtered>(items: Seq<T>)
    ensures
        kept(items, Seq::empty()) == items,
    decreases items.len(),
{
    reveal(Seq::filter);
    if items.len() > 0 {
        an_empty_filter_shows_all(items.drop_last());
        assert(items.drop_last().push(items.last()) =~= items);
    }
}

/// Whatever a filter shows is in the list.
pub proof fn filters_invent_nothing<T: Filtered>(items: Seq<T>, input: Seq<char>, k: int)
    requires
        0 <= k < kept(items, input).len(),
    ensures
        items.contains(kept(items, input)[k]),
        passes::<T>(input)(kept(items, input)[k]),
{
    let item = kept(items, input)[k];
    assert(kept(items, input).contains(item));
    items.lemma_filter_contains_rev(passes(input), item);
}

/// A filter looks at what a row is known by: tracks, albums by title and artist,
/// downloaded tracks by their album too, playlists by title and creator, rows by
/// their first two columns, stations by title and genres by name.
pub proof fn filters_look_at_names(
    track: TrackData,
    saved: OfflineTrack,
    album: AlbumDetail,
    list: PlaylistDetail,
    row: DisplayItem,
    radio: RadioItem,
    genre: GenreItem,
    query: Seq<char>,
)
    ensures
        track.fits(query) <==> (text_fits(query, track.title@) || text_fits(query, track.artist@)),
        saved.fits(query) <==> (text_fits(query, saved.track.title@) || text_fits(
            query,
            saved.track.artist@,
        ) || text_fits(query, saved.track.album@)),
        album.fits(query) <==> (text_fits(query, album.title@) || text_fits(query, album.artist@)),
        list.fits(query) <==> (text_fits(query, list.title@) || text_fits(query, list.creator@)),
        row.fits(query) <==> (text_fits(query, row.col1@) || text_fits(query, row.col2@)),
        radio.fits(query) <==> text_fits(query, radio.title@),
        genre.fits(query) <==> text_fits(query, genre.name@),
        text_fits(query, track.title@) <==> text::subsequence(
            query,
            text::lowercase_of(track.title@),
        ),
{
}

} // verus!
