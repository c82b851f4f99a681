//! What the client has on screen: the player's last snapshot, and the client's
//! own cursors, filters, pages and dialogs.

use vstd::prelude::*;

use crate::client::clicks::{ClickAreas, Rect, ScrollOffsets};
use crate::client::filters;
use crate::client::filters::{filtered_places, FilterList, FilterListView};
use crate::client::popup;
use crate::client::popup::{PopupMenu, PopupView};
use crate::client::{ClientEffect, EffectView, InputMode, LoginMode, Overlay};
use crate::models::{ArtistSubTab, DisplayItem, PlaylistData, TrackData};
use crate::notice;
use crate::notice::{Notice, NoticeView};
use crate::protocol::{
    Command, DaemonSnapshot, GenreItem, MoodEntry, NavOverlay, RadioItem,
};
use crate::seqs;
use crate::seqs::{contains_id, drop_id, HasId};
use crate::text;
use crate::text::{drop_last_char, push_char};
use crate::theme::Theme;

verus! {

/// How long a status notification stays visible before hiding itself, in
/// milliseconds.
pub const STATUS_MSG_TTL: u64 = 7000;

/// A temporary notification message that auto-dismisses.
#[derive(Debug)]
pub struct Toast {
    pub message: Notice,
    /// When it came up, in milliseconds.
    pub created_at: u64,
    /// How long it stays, in milliseconds.
    pub duration: u64,
    pub is_error: bool,
}

/// What a [`Toast`] says.
pub struct ToastView {
    pub message: NoticeView,
    pub created_at: u64,
    pub duration: u64,
    pub is_error: bool,
}

impl View for Toast {
    type V = ToastView;

    open spec fn view(&self) -> ToastView {
        ToastView {
            message: self.message@,
            created_at: self.created_at,
            duration: self.duration,
            is_error: self.is_error,
        }
    }
}

/// What an optional toast says.
pub open spec fn opt_toast(t: Option<Toast>) -> Option<ToastView> {
    match t {
        Some(t) => Some(t@),
        None => None,
    }
}

/// How long ago `at` was; nothing where the clock went back.
pub open spec fn elapsed(at: u64, now: u64) -> int {
    if now >= at {
        now - at
    } else {
        0
    }
}

fn elapsed_since(at: u64, now: u64) -> (r: u64)
    ensures
        r == elapsed(at, now),
{
    if now >= at {
        now - at
    } else {
        0
    }
}

impl ToastView {
    /// The toast has been up for its time.
    pub open spec fn over(self, now: u64) -> bool {
        elapsed(self.created_at, now) >= self.duration
    }
}

impl Toast {
    /// A message that comes up now.
    pub fn new(message: Notice, duration: u64, now: u64) -> (r: Toast)
        ensures
            r@ == (ToastView { message: message@, created_at: now, duration, is_error: false }),
    {
        Toast { message, created_at: now, duration, is_error: false }
    }

    /// An error that comes up now.
    pub fn error(message: Notice, duration: u64, now: u64) -> (r: Toast)
        ensures
            r@ == (ToastView { message: message@, created_at: now, duration, is_error: true }),
    {
        Toast { message, created_at: now, duration, is_error: true }
    }

    /// Whether the toast has been up for its time.
    pub fn is_expired(&self, now: u64) -> (r: bool)
        ensures
            r == self@.over(now),
    {
        elapsed_since(self.created_at, now) >= self.duration
    }
}

/// Notifications on screen.
#[derive(Debug)]
pub struct Messages {
    pub status_msg: Option<Notice>,
    /// When `status_msg` last changed. The notification hides itself after
    /// [`STATUS_MSG_TTL`], though the player keeps sending its text.
    pub status_msg_at: Option<u64>,
    pub toast: Option<Toast>,
}

/// What [`Messages`] say.
pub struct MessagesView {
    pub status_msg: Option<NoticeView>,
    pub status_msg_at: Option<u64>,
    pub toast: Option<ToastView>,
}

impl View for Messages {
    type V = MessagesView;

    open spec fn view(&self) -> MessagesView {
        MessagesView {
            status_msg: notice::opt_notice(self.status_msg),
            status_msg_at: self.status_msg_at,
            toast: opt_toast(self.toast),
        }
    }
}

impl MessagesView {
    /// The notification set, its time running from now.
    pub open spec fn with_status(self, msg: Option<NoticeView>, now: u64) -> MessagesView {
        MessagesView {
            status_msg: msg,
            status_msg_at: if msg is Some {
                Some(now)
            } else {
                None
            },
            ..self
        }
    }

    /// The notification taken over from the player: its time runs on while it
    /// says the same.
    pub open spec fn received(self, msg: Option<NoticeView>, now: u64) -> MessagesView {
        if msg != self.status_msg {
            self.with_status(msg, now)
        } else {
            self
        }
    }

    /// The notification that is still visible.
    pub open spec fn visible(self, now: u64) -> Option<NoticeView> {
        match self.status_msg_at {
            Some(at) => if elapsed(at, now) < STATUS_MSG_TTL {
                self.status_msg
            } else {
                None
            },
            None => None,
        }
    }

    /// The notifications with this toast up.
    pub open spec fn with_toast(self, toast: ToastView) -> MessagesView {
        MessagesView { toast: Some(toast), ..self }
    }

    /// The notifications without a toast whose time is over.
    pub open spec fn expired(self, now: u64) -> MessagesView {
        match self.toast {
            Some(t) => if t.over(now) {
                MessagesView { toast: None, ..self }
            } else {
                self
            },
            None => self,
        }
    }
}

impl Messages {
    /// Sets the notification and restarts its display timer.
    pub fn set_status_msg(&mut self, msg: Option<Notice>, now: u64)
        ensures
            final(self)@ == old(self)@.with_status(notice::opt_notice(msg), now),
    {
        self.status_msg_at = if msg.is_some() {
            Some(now)
        } else {
            None
        };
        self.status_msg = msg;
    }

    /// Takes over the player's notification.
    pub fn receive(&mut self, msg: &Option<Notice>, now: u64)
        ensures
            final(self)@ == old(self)@.received(notice::opt_notice(*msg), now),
    {
        if !notice::same_notice(msg, &self.status_msg) {
            let copy: Option<Notice> = match msg {
                Some(m) => Some(m.clone()),
                None => None,
            };
            self.set_status_msg(copy, now);
        }
    }

    /// The notification, or none once it has been on screen long enough.
    pub fn visible_status_msg(&self, now: u64) -> (r: Option<&Notice>)
        ensures
            match r {
                Some(m) => self@.visible(now) == Some(m@),
                None => self@.visible(now) is None,
            },
    {
        match self.status_msg_at {
            Some(at) => if elapsed_since(at, now) < STATUS_MSG_TTL {
                match &self.status_msg {
                    Some(m) => Some(m),
                    None => None,
                }
            } else {
                None
            },
            None => None,
        }
    }

    /// Puts a toast up.
    pub fn show_toast(&mut self, toast: Toast)
        ensures
            final(self)@ == old(self)@.with_toast(toast@),
    {
        self.toast = Some(toast);
    }

    /// Takes down a toast whose time is over.
    pub fn expire(&mut self, now: u64)
        ensures
            final(self)@ == old(self)@.expired(now),
    {
        let over: bool = match &self.toast {
            Some(t) => t.is_expired(now),
            None => false,
        };
        if over {
            self.toast = None;
        }
    }
}

/// A notification that the player keeps sending does not come up again: its time
/// runs from when it first came.
pub proof fn repeated_notices_do_not_return(m: MessagesView, now: u64, later: u64)
    requires
        m.status_msg is Some,
        m.status_msg_at == Some(now),
        later >= now + STATUS_MSG_TTL,
    ensures
        m.received(m.status_msg, later).visible(later) is None,
        m.visible(now) == m.status_msg,
{
}

/// Cursor and left column of a detail page.
#[derive(Debug, Clone, Copy, PartialEq, Eq, Structural)]
pub struct DetailPane {
    pub selected: usize,
    pub left_scroll: u16,
    pub left_focused: bool,
    pub left_scrollable: bool,
}

impl DetailPane {
    /// The page just opened, at this cursor.
    pub open spec fn opened(selected: usize) -> DetailPane {
        DetailPane { selected, left_scroll: 0, left_focused: false, left_scrollable: false }
    }

    /// The cursor at the top.
    pub open spec fn at_top(self) -> DetailPane {
        DetailPane { selected: 0, ..self }
    }

    /// The cursor and the left column at the top, the list focused.
    pub open spec fn reset(self) -> DetailPane {
        DetailPane { selected: 0, left_scroll: 0, left_focused: false, ..self }
    }
}

/// A left column scrolled by a line.
pub open spec fn scrolled(scroll: u16, up: bool) -> u16 {
    if up {
        if scroll == 0 {
            0
        } else {
            (scroll - 1) as u16
        }
    } else if scroll == u16::MAX {
        u16::MAX
    } else {
        (scroll + 1) as u16
    }
}

/// Scrolls a left column by a line.
pub fn scroll_step(scroll: u16, up: bool) -> (r: u16)
    ensures
        r == scrolled(scroll, up),
{
    if up {
        if scroll == 0 {
            0
        } else {
            scroll - 1
        }
    } else if scroll == 65535 {
        scroll
    } else {
        scroll + 1
    }
}

/// The detail pages' own state.
#[derive(Debug)]
pub struct Pages {
    pub album: DetailPane,
    pub artist: DetailPane,
    pub artist_sub_tab: ArtistSubTab,
    /// Fuzzy filter of the open playlist's track list (`/`).
    pub playlist_filter_input: String,
    pub playlist_filter_typing: bool,
}

/// What [`Pages`] hold.
pub struct PagesView {
    pub album: DetailPane,
    pub artist: DetailPane,
    pub artist_sub_tab: ArtistSubTab,
    pub playlist_filter_input: Seq<char>,
    pub playlist_filter_typing: bool,
}

impl View for Pages {
    type V = PagesView;

    open spec fn view(&self) -> PagesView {
        PagesView {
            album: self.album,
            artist: self.artist,
            artist_sub_tab: self.artist_sub_tab,
            playlist_filter_input: self.playlist_filter_input@,
            playlist_filter_typing: self.playlist_filter_typing,
        }
    }
}

impl PagesView {
    /// The playlist's filter set.
    pub open spec fn with_filter(self, input: Seq<char>, typing: bool) -> PagesView {
        PagesView { playlist_filter_input: input, playlist_filter_typing: typing, ..self }
    }

    /// The album page changed.
    pub open spec fn with_album(self, album: DetailPane) -> PagesView {
        PagesView { album, ..self }
    }

    /// The artist page changed.
    pub open spec fn with_artist(self, artist: DetailPane) -> PagesView {
        PagesView { artist, ..self }
    }
}

impl Pages {
    /// Empties the playlist's filter and leaves it.
    pub fn reset_playlist_detail_filter(&mut self)
        ensures
            final(self)@ == old(self)@.with_filter(Seq::empty(), false),
    {
        self.playlist_filter_input = String::new();
        self.playlist_filter_typing = false;
    }
}

/// Places of the main lists' cursors, and their filters.
#[derive(Debug)]
pub struct Tabs {
    pub search_selected: usize,
    pub new_releases_selected: usize,
    pub moods: Vec<MoodEntry>,
    pub moods_loading: bool,
    pub moods_selected: usize,
    pub radios: FilterList<RadioItem>,
    pub genres: FilterList<GenreItem>,
    pub favorites: FavoritesPane,
    pub offline: OfflinePane,
}

/// What [`Tabs`] hold.
pub struct TabsView {
    pub search_selected: usize,
    pub new_releases_selected: usize,
    pub moods: Seq<MoodEntry>,
    pub moods_loading: bool,
    pub moods_selected: usize,
    pub radios: FilterListView<RadioItem>,
    pub genres: FilterListView<GenreItem>,
    pub favorites: FavoritesPaneView,
    pub offline: OfflinePaneView,
}

impl View for Tabs {
    type V = TabsView;

    open spec fn view(&self) -> TabsView {
        TabsView {
            search_selected: self.search_selected,
            new_releases_selected: self.new_releases_selected,
            moods: self.moods@,
            moods_loading: self.moods_loading,
            moods_selected: self.moods_selected,
            radios: self.radios@,
            genres: self.genres@,
            favorites: self.favorites@,
            offline: self.offline@,
        }
    }
}

/// The favorites' own state: what the client knows to be a favorite, and the
/// filter over the list.
#[derive(Debug)]
pub struct FavoritesPane {
    pub tracks: Vec<TrackData>,
    pub track_ids: Vec<String>,
    pub selected: usize,
    pub filter_input: String,
    pub filter_typing: bool,
    /// What the filter leaves, each row with its place in the list.
    pub filtered: Vec<(usize, DisplayItem)>,
    pub filter_selected: usize,
}

/// What a [`FavoritesPane`] holds.
pub struct FavoritesPaneView {
    pub tracks: Seq<TrackData>,
    pub track_ids: Seq<String>,
    pub selected: usize,
    pub filter_input: Seq<char>,
    pub filter_typing: bool,
    pub filtered: Seq<(usize, DisplayItem)>,
    pub filter_selected: usize,
}

impl View for FavoritesPane {
    type V = FavoritesPaneView;

    open spec fn view(&self) -> FavoritesPaneView {
        FavoritesPaneView {
            tracks: self.tracks@,
            track_ids: self.track_ids@,
            selected: self.selected,
            filter_input: self.filter_input@,
            filter_typing: self.filter_typing,
            filtered: self.filtered@,
            filter_selected: self.filter_selected,
        }
    }
}

/// Rows at these places, each with its place.
pub open spec fn rows_at(rows: Seq<DisplayItem>, at: Seq<usize>) -> Seq<(usize, DisplayItem)> {
    Seq::new(at.len(), |k: int| (at[k], rows[at[k] as int]))
}

impl FavoritesPaneView {
    /// The track is a favorite, as far as the client knows.
    pub open spec fn likes(self, track_id: Seq<char>) -> bool {
        seqs::listed(self.track_ids, track_id) || seqs::listed(self.tracks, track_id)
    }

    /// The filter is in use: being typed into, or not empty.
    pub open spec fn filtering(self) -> bool {
        self.filter_typing || self.filter_input.len() > 0
    }

    /// The filter applied again to the rows shown, the cursor kept inside.
    pub open spec fn applied(self, rows: Seq<DisplayItem>) -> FavoritesPaneView {
        let filtered = rows_at(rows, filters::left_by(rows, self.filter_input));
        FavoritesPaneView {
            filtered,
            filter_selected: crate::client::clamped(self.filter_selected, filtered.len()),
            ..self
        }
    }

    /// A letter typed into the filter.
    pub open spec fn typed(self, rows: Seq<DisplayItem>, c: char) -> FavoritesPaneView {
        FavoritesPaneView { filter_input: self.filter_input.push(c), ..self }.applied(rows)
    }

    /// A letter taken back.
    pub open spec fn erased(self, rows: Seq<DisplayItem>) -> FavoritesPaneView {
        FavoritesPaneView { filter_input: text::without_last(self.filter_input), ..self }.applied(
            rows,
        )
    }

    /// The focus put in the filter, which may be emptied first.
    pub open spec fn focused(self, rows: Seq<DisplayItem>, clear: bool) -> FavoritesPaneView {
        FavoritesPaneView {
            filter_typing: true,
            filter_input: if clear {
                Seq::empty()
            } else {
                self.filter_input
            },
            ..self
        }.applied(rows)
    }

    /// The focus taken out of the filter.
    pub open spec fn left(self) -> FavoritesPaneView {
        FavoritesPaneView { filter_typing: false, ..self }
    }

    /// The filter emptied and left.
    pub open spec fn unfiltered(self) -> FavoritesPaneView {
        FavoritesPaneView { filter_typing: false, filter_input: Seq::empty(), ..self }
    }

    /// The cursor of the filtered list moved.
    pub open spec fn filter_at(self, selected: usize) -> FavoritesPaneView {
        FavoritesPaneView { filter_selected: selected, ..self }
    }

    /// The cursor of the whole list moved.
    pub open spec fn at(self, selected: usize) -> FavoritesPaneView {
        FavoritesPaneView { selected, ..self }
    }

    /// The track's favorite turned around.
    pub open spec fn toggled(self, track_id: String) -> FavoritesPaneView {
        if self.likes(track_id@) {
            FavoritesPaneView {
                track_ids: seqs::others(self.track_ids, track_id@),
                tracks: seqs::others(self.tracks, track_id@),
                ..self
            }
        } else {
            FavoritesPaneView { track_ids: self.track_ids.push(track_id), ..self }
        }
    }

    /// The row under the cursor, whichever list is shown.
    pub open spec fn row(self, rows: Seq<DisplayItem>) -> Option<DisplayItem> {
        if self.filtering() {
            if self.filter_selected < self.filtered.len() {
                Some(self.filtered[self.filter_selected as int].1)
            } else {
                None
            }
        } else if self.selected < rows.len() {
            Some(rows[self.selected as int])
        } else {
            None
        }
    }

    /// The place in the whole list of the row under the cursor.
    pub open spec fn original(self) -> usize {
        if self.filtering() {
            if self.filter_selected < self.filtered.len() {
                self.filtered[self.filter_selected as int].0
            } else {
                0
            }
        } else {
            self.selected
        }
    }

    /// What the player sent taken over; the filter is emptied where it sent
    /// another category.
    pub open spec fn received(
        self,
        tracks: Seq<TrackData>,
        track_ids: Seq<String>,
        selected: usize,
        rows: Seq<DisplayItem>,
        other_category: bool,
    ) -> FavoritesPaneView {
        let pane = if other_category {
            self.unfiltered()
        } else {
            self
        };
        FavoritesPaneView { tracks, track_ids, selected, ..pane }.applied(rows)
    }
}

impl FavoritesPane {
    /// Whether the track is a favorite, as far as the client knows.
    pub fn is_track_favorite(&self, track_id: &str) -> (r: bool)
        ensures
            r == self@.likes(track_id@),
    {
        contains_id(&self.track_ids, track_id) || contains_id(&self.tracks, track_id)
    }

    /// Whether the filter is in use.
    pub fn favorites_filter_active(&self) -> (r: bool)
        ensures
            r == self@.filtering(),
    {
        self.filter_typing || self.filter_input.as_str().unicode_len() > 0
    }

    /// Applies the filter again.
    pub fn apply(&mut self, rows: &Vec<DisplayItem>)
        ensures
            final(self)@ == old(self)@.applied(rows@),
    {
        let at: Vec<usize> = filtered_places(rows, &self.filter_input);
        let len: usize = rows.len();
        proof {
            filters::places_lead_back(rows@, filters::passes::<DisplayItem>(self.filter_input@));
        }
        let mut out: Vec<(usize, DisplayItem)> = Vec::new();
        let mut k: usize = 0;
        while k < at.len()
            invariant
                k <= at@.len(),
                forall|j: int| 0 <= j < at@.len() ==> (#[trigger] at@[j]) < rows@.len(),
                out@ == rows_at(rows@, at@).take(k as int),
            decreases at@.len() - k,
        {
            let i: usize = at[k];
            out.push((i, rows[i].clone()));
            proof {
                assert(out@ =~= rows_at(rows@, at@).take(k + 1));
            }
            k = k + 1;
        }
        proof {
            assert(rows_at(rows@, at@).take(at@.len() as int) =~= rows_at(rows@, at@));
        }
        self.filter_selected = crate::client::clamp(self.filter_selected, out.len());
        self.filtered = out;
    }

    /// Types a letter into the filter.
    pub fn type_char(&mut self, rows: &Vec<DisplayItem>, c: char)
        ensures
            final(self)@ == old(self)@.typed(rows@, c),
    {
        push_char(&mut self.filter_input, c);
        self.apply(rows);
    }

    /// Takes a letter back.
    pub fn erase(&mut self, rows: &Vec<DisplayItem>)
        ensures
            final(self)@ == old(self)@.erased(rows@),
    {
        self.filter_input = drop_last_char(&self.filter_input);
        self.apply(rows);
    }

    /// Puts the focus in the filter.
    pub fn focus(&mut self, rows: &Vec<DisplayItem>, clear: bool)
        ensures
            final(self)@ == old(self)@.focused(rows@, clear),
    {
        self.filter_typing = true;
        if clear {
            self.filter_input = String::new();
        }
        self.apply(rows);
    }

    /// Takes the focus out of the filter.
    pub fn leave(&mut self)
        ensures
            final(self)@ == old(self)@.left(),
    {
        self.filter_typing = false;
    }

    /// Empties the filter and leaves it.
    pub fn reset(&mut self)
        ensures
            final(self)@ == old(self)@.unfiltered(),
    {
        self.filter_typing = false;
        self.filter_input = String::new();
    }

    /// Turns the track's favorite around.
    pub fn toggle(&mut self, track_id: &String)
        ensures
            final(self)@ == old(self)@.toggled(*track_id),
    {
        if self.is_track_favorite(track_id) {
            let mut ids: Vec<String> = Vec::new();
            std::mem::swap(&mut ids, &mut self.track_ids);
            self.track_ids = drop_id(ids, track_id);
            let mut tracks: Vec<TrackData> = Vec::new();
            std::mem::swap(&mut tracks, &mut self.tracks);
            self.tracks = drop_id(tracks, track_id);
        } else {
            self.track_ids.push(track_id.clone());
        }
    }

    /// The row under the cursor, whichever list is shown.
    pub fn selected_item<'a>(&'a self, rows: &'a Vec<DisplayItem>) -> (r: Option<&'a DisplayItem>)
        ensures
            match r {
                Some(item) => self@.row(rows@) == Some(*item),
                None => self@.row(rows@) is None,
            },
    {
        if self.favorites_filter_active() {
            if self.filter_selected < self.filtered.len() {
                Some(&self.filtered[self.filter_selected].1)
            } else {
                None
            }
        } else if self.selected < rows.len() {
            Some(&rows[self.selected])
        } else {
            None
        }
    }

    /// The place in the whole list of the row under the cursor.
    pub fn selected_original_index(&self) -> (r: usize)
        ensures
            r == self@.original(),
    {
        if self.favorites_filter_active() {
            if self.filter_selected < self.filtered.len() {
                self.filtered[self.filter_selected].0
            } else {
                0
            }
        } else {
            self.selected
        }
    }

    /// Takes over what the player sent.
    pub fn receive(
        &mut self,
        tracks: &Vec<TrackData>,
        track_ids: &Vec<String>,
        selected: usize,
        rows: &Vec<DisplayItem>,
        other_category: bool,
    )
        ensures
            final(self)@ == old(self)@.received(
                tracks@,
                track_ids@,
                selected,
                rows@,
                other_category,
            ),
    {
        if other_category {
            self.reset();
        }
        self.tracks = tracks.clone();
        self.track_ids = track_ids.clone();
        self.selected = selected;
        self.apply(rows);
    }
}

/// Turning a track's favorite around twice leaves what is a favorite as it was.
pub proof fn toggling_twice_changes_no_favorite(
    pane: FavoritesPaneView,
    track_id: String,
    other: Seq<char>,
)
    ensures
        pane.toggled(track_id).likes(track_id@) == !pane.likes(track_id@),
        other != track_id@ ==> pane.toggled(track_id).likes(other) == pane.likes(other),
        pane.toggled(track_id).toggled(track_id).likes(other) == pane.likes(other),
{
    toggling_turns_one(pane, track_id, other);
    toggling_turns_one(pane, track_id, track_id@);
    toggling_turns_one(pane.toggled(track_id), track_id, other);
    toggling_turns_one(pane.toggled(track_id), track_id, track_id@);
}

proof fn toggling_turns_one(pane: FavoritesPaneView, track_id: String, other: Seq<char>)
    ensures
        pane.toggled(track_id).likes(other) == (if other == track_id@ {
            !pane.likes(other)
        } else {
            pane.likes(other)
        }),
{
    let after = pane.toggled(track_id);
    if pane.likes(track_id@) {
        still_listed(pane.track_ids, track_id@, other);
        still_listed(pane.tracks, track_id@, other);
    } else {
        assert(after.track_ids.last() == track_id);
        if seqs::listed(pane.track_ids, other) {
            let i = choose|i: int|
                0 <= i < pane.track_ids.len() && (#[trigger] pane.track_ids[i]).id_of() == other;
            assert(after.track_ids[i].id_of() == other);
        }
        if seqs::listed(after.track_ids, other) && other != track_id@ {
            let i = choose|i: int|
                0 <= i < after.track_ids.len() && (#[trigger] after.track_ids[i]).id_of() == other;
            assert(pane.track_ids[i].id_of() == other);
        }
    }
}

proof fn still_listed<T: HasId>(s: Seq<T>, id: Seq<char>, other: Seq<char>)
    ensures
        seqs::listed(seqs::others(s, id), other) == (other != id && seqs::listed(s, other)),
{
    broadcast use vstd::seq_lib::group_filter_ensures;

    let kept = seqs::others(s, id);
    if seqs::listed(kept, other) {
        let i = choose|i: int| 0 <= i < kept.len() && (#[trigger] kept[i]).id_of() == other;
        assert(kept.contains(kept[i]));
        s.lemma_filter_contains_rev(seqs::other_than(id), kept[i]);
        let j = choose|j: int| 0 <= j < s.len() && s[j] == kept[i];
        assert(s[j].id_of() == other);
        seqs::others_has_no_such_id(s, id);
    }
    if other != id && seqs::listed(s, other) {
        let j = choose|j: int| 0 <= j < s.len() && (#[trigger] s[j]).id_of() == other;
        assert(seqs::other_than::<T>(id)(s[j]));
        assert(kept.contains(s[j]));
        let i = choose|i: int| 0 <= i < kept.len() && kept[i] == s[j];
        assert(kept[i].id_of() == other);
    }
}

/// The downloads' own state.
#[derive(Debug)]
pub struct OfflinePane {
    pub selected: usize,
    /// Fuzzy filter applied to all three categories.
    pub filter_input: String,
    pub filter_typing: bool,
    /// Selection within the filtered list of the active category.
    pub filter_selected: usize,
    /// Fuzzy filter of the album/playlist detail modal.
    pub detail_filter_input: String,
    pub detail_filter_typing: bool,
}

/// What an [`OfflinePane`] holds.
pub struct OfflinePaneView {
    pub selected: usize,
    pub filter_input: Seq<char>,
    pub filter_typing: bool,
    pub filter_selected: usize,
    pub detail_filter_input: Seq<char>,
    pub detail_filter_typing: bool,
}

impl View for OfflinePane {
    type V = OfflinePaneView;

    open spec fn view(&self) -> OfflinePaneView {
        OfflinePaneView {
            selected: self.selected,
            filter_input: self.filter_input@,
            filter_typing: self.filter_typing,
            filter_selected: self.filter_selected,
            detail_filter_input: self.detail_filter_input@,
            detail_filter_typing: self.detail_filter_typing,
        }
    }
}

impl OfflinePaneView {
    /// The filter is in use: being typed into, or not empty.
    pub open spec fn filtering(self) -> bool {
        self.filter_typing || self.filter_input.len() > 0
    }

    /// The cursor within the rows shown.
    pub open spec fn cursor(self) -> usize {
        if self.filtering() {
            self.filter_selected
        } else {
            self.selected
        }
    }

    /// The filter set to this text, its cursor at the top.
    pub open spec fn with_filter(self, input: Seq<char>, typing: bool) -> OfflinePaneView {
        OfflinePaneView { filter_input: input, filter_typing: typing, filter_selected: 0, ..self }
    }

    /// The filter's focus set.
    pub open spec fn with_focus(self, typing: bool) -> OfflinePaneView {
        OfflinePaneView { filter_typing: typing, ..self }
    }

    /// Both filters without the focus.
    pub open spec fn left(self) -> OfflinePaneView {
        OfflinePaneView { filter_typing: false, detail_filter_typing: false, ..self }
    }

    /// The filtered list's cursor moved.
    pub open spec fn filter_at(self, selected: usize) -> OfflinePaneView {
        OfflinePaneView { filter_selected: selected, ..self }
    }

    /// The whole list's cursor moved.
    pub open spec fn at(self, selected: usize) -> OfflinePaneView {
        OfflinePaneView { selected, ..self }
    }

    /// The modal's filter set.
    pub open spec fn with_detail(self, input: Seq<char>, typing: bool) -> OfflinePaneView {
        OfflinePaneView { detail_filter_input: input, detail_filter_typing: typing, ..self }
    }
}

impl OfflinePane {
    /// Whether the filter is in use.
    pub fn offline_filter_active(&self) -> (r: bool)
        ensures
            r == self@.filtering(),
    {
        self.filter_typing || self.filter_input.as_str().unicode_len() > 0
    }

    /// Cursor within the rows shown.
    pub fn offline_list_selected(&self) -> (r: usize)
        ensures
            r == self@.cursor(),
    {
        if self.offline_filter_active() {
            self.filter_selected
        } else {
            self.selected
        }
    }

    /// Empties the filter.
    pub fn clear_filter(&mut self, typing: bool)
        ensures
            final(self)@ == old(self)@.with_filter(Seq::empty(), typing),
    {
        self.filter_input = String::new();
        self.filter_typing = typing;
        self.filter_selected = 0;
    }

    /// Types a letter into the filter.
    pub fn type_char(&mut self, c: char)
        ensures
            final(self)@ == old(self)@.with_filter(
                old(self)@.filter_input.push(c),
                old(self)@.filter_typing,
            ),
    {
        push_char(&mut self.filter_input, c);
        self.filter_selected = 0;
    }

    /// Takes a letter back.
    pub fn erase(&mut self)
        ensures
            final(self)@ == old(self)@.with_filter(
                text::without_last(old(self)@.filter_input),
                old(self)@.filter_typing,
            ),
    {
        self.filter_input = drop_last_char(&self.filter_input);
        self.filter_selected = 0;
    }

    /// Empties the modal's filter.
    pub fn clear_detail(&mut self, typing: bool)
        ensures
            final(self)@ == old(self)@.with_detail(Seq::empty(), typing),
    {
        self.detail_filter_input = String::new();
        self.detail_filter_typing = typing;
    }
}

/// The login screen's own state.
#[derive(Debug)]
pub struct LoginPane {
    pub mode: LoginMode,
    pub input: String,
    /// Cursor within the input, in characters.
    pub cursor: usize,
    pub loading: bool,
}

/// What a [`LoginPane`] holds.
pub struct LoginPaneView {
    pub mode: LoginMode,
    pub input: Seq<char>,
    pub cursor: usize,
    pub loading: bool,
}

impl View for LoginPane {
    type V = LoginPaneView;

    open spec fn view(&self) -> LoginPaneView {
        LoginPaneView {
            mode: self.mode,
            input: self.input@,
            cursor: self.cursor,
            loading: self.loading,
        }
    }
}

impl LoginPaneView {
    /// The input emptied, in this mode.
    pub open spec fn emptied(self, mode: LoginMode) -> LoginPaneView {
        LoginPaneView { mode, input: Seq::empty(), cursor: 0, ..self }
    }
}

impl LoginPane {
    /// Empties the input and goes to this mode.
    pub fn empty(&mut self, mode: LoginMode)
        ensures
            final(self)@ == old(self)@.emptied(mode),
    {
        self.mode = mode;
        self.input = String::new();
        self.cursor = 0;
    }
}

/// Pages and dialogs that are open over the main view.
#[derive(Debug)]
pub struct Layers {
    pub popup: Option<PopupMenu>,
    pub overlay: Option<Overlay>,
    /// Navigation history for overlays (Esc pops back).
    pub overlay_stack: Vec<Overlay>,
    /// Navigation commands to send to the player.
    pub nav_commands: Vec<Command>,
    /// Whether the open pages were taken over from the player. From then on the
    /// client decides on them, as a snapshot may be older than its own changes.
    pub nav_synced_from_daemon: bool,
}

/// What [`Layers`] hold.
pub struct LayersView {
    pub popup: Option<PopupView>,
    pub overlay: Option<Overlay>,
    pub overlay_stack: Seq<Overlay>,
    pub nav_commands: Seq<Command>,
    pub nav_synced_from_daemon: bool,
}

impl View for Layers {
    type V = LayersView;

    open spec fn view(&self) -> LayersView {
        LayersView {
            popup: popup::opt_popup(self.popup),
            overlay: self.overlay,
            overlay_stack: self.overlay_stack@,
            nav_commands: self.nav_commands@,
            nav_synced_from_daemon: self.nav_synced_from_daemon,
        }
    }
}

impl LayersView {
    /// A new overlay opened on top of the current one.
    pub open spec fn pushed(self, new: Overlay) -> LayersView {
        LayersView {
            nav_commands: match new.remembered() {
                Some(nav) => self.nav_commands.push(Command::PushNavOverlay(nav)),
                None => self.nav_commands,
            },
            overlay_stack: match self.overlay {
                Some(current) => self.overlay_stack.push(current),
                None => self.overlay_stack,
            },
            overlay: Some(new),
            ..self
        }
    }

    /// The current overlay is one that the player remembers.
    pub open spec fn on_remembered(self) -> bool {
        match self.overlay {
            Some(o) => o.remembered() is Some,
            None => false,
        }
    }

    /// The current overlay closed, the one below it back.
    pub open spec fn popped(self) -> LayersView {
        LayersView {
            nav_commands: if self.on_remembered() {
                self.nav_commands.push(Command::PopNavOverlay)
            } else {
                self.nav_commands
            },
            overlay: if self.overlay_stack.len() > 0 {
                Some(self.overlay_stack.last())
            } else {
                None
            },
            overlay_stack: if self.overlay_stack.len() > 0 {
                self.overlay_stack.drop_last()
            } else {
                self.overlay_stack
            },
            ..self
        }
    }

    /// A page opened from the main view, nothing below it.
    pub open spec fn nav_set(self, new: Overlay) -> LayersView {
        LayersView {
            overlay_stack: Seq::empty(),
            nav_commands: match new.remembered() {
                Some(nav) => self.nav_commands.push(Command::ClearNavOverlayStack).push(
                    Command::PushNavOverlay(nav),
                ),
                None => self.nav_commands,
            },
            overlay: Some(new),
            ..self
        }
    }

    /// The current overlay replaced.
    pub open spec fn shows(self, overlay: Overlay) -> LayersView {
        LayersView { overlay: Some(overlay), ..self }
    }

    /// No context menu.
    pub open spec fn no_popup(self) -> LayersView {
        LayersView { popup: None, ..self }
    }

    /// This context menu.
    pub open spec fn with_popup(self, menu: PopupView) -> LayersView {
        LayersView { popup: Some(menu), ..self }
    }

    /// No overlay, or a page that the player remembers.
    pub open spec fn nav_or_none(self) -> bool {
        self.overlay is None || self.on_remembered()
    }

    /// A returning modal is open.
    pub open spec fn modal(self) -> bool {
        match self.overlay {
            Some(o) => o.modal(),
            None => false,
        }
    }

    /// A dialog of the context menu takes letters as text.
    pub open spec fn popup_typing(self) -> bool {
        match self.popup {
            Some(p) => match p.sub_menu {
                Some(s) => s.typing(),
                None => false,
            },
            None => false,
        }
    }

    /// The picker's filter focused or not.
    pub open spec fn picker_focused(self, on: bool) -> LayersView {
        match self.popup {
            Some(p) => match p.sub_menu {
                Some(s) => self.with_popup(p.with_sub(Some(s.focused(on)))),
                None => self,
            },
            None => self,
        }
    }

    /// A picker that waits for the playlists gets them.
    pub open spec fn picker_filled(self, list: Seq<PlaylistData>) -> LayersView {
        match self.popup {
            Some(p) => match p.sub_menu {
                Some(s) => self.with_popup(p.with_sub(Some(s.filled(list)))),
                None => self,
            },
            None => self,
        }
    }
}

impl Layers {
    /// Opens a new overlay on top of the current one.
    pub fn push_overlay(&mut self, new: Overlay)
        ensures
            final(self)@ == old(self)@.pushed(new),
    {
        match new.to_nav() {
            Some(nav) => self.nav_commands.push(Command::PushNavOverlay(nav)),
            None => {},
        }
        let mut current: Option<Overlay> = Some(new);
        std::mem::swap(&mut current, &mut self.overlay);
        match current {
            Some(current) => self.overlay_stack.push(current),
            None => {},
        }
    }

    /// Goes back to the previous overlay, or to none.
    pub fn pop_overlay(&mut self)
        ensures
            final(self)@ == old(self)@.popped(),
    {
        let remembered: bool = match &self.overlay {
            Some(o) => o.to_nav().is_some(),
            None => false,
        };
        if remembered {
            self.nav_commands.push(Command::PopNavOverlay);
        }
        self.overlay = self.overlay_stack.pop();
    }

    /// Opens a page from the main view.
    pub fn set_nav_overlay(&mut self, new: Overlay)
        ensures
            final(self)@ == old(self)@.nav_set(new),
    {
        self.overlay_stack = Vec::new();
        match new.to_nav() {
            Some(nav) => {
                self.nav_commands.push(Command::ClearNavOverlayStack);
                self.nav_commands.push(Command::PushNavOverlay(nav));
            },
            None => {},
        }
        self.overlay = Some(new);
    }

    /// Whether there is no overlay, or a page that the player remembers.
    pub fn is_nav_or_none_overlay(&self) -> (r: bool)
        ensures
            r == self@.nav_or_none(),
    {
        match &self.overlay {
            Some(o) => o.to_nav().is_some(),
            None => true,
        }
    }

    /// Whether a returning modal is open.
    pub fn has_modal_overlay(&self) -> (r: bool)
        ensures
            r == self@.modal(),
    {
        match &self.overlay {
            Some(o) => o.is_modal(),
            None => false,
        }
    }

    /// Whether a dialog of the context menu takes letters as text.
    pub fn is_popup_typing(&self) -> (r: bool)
        ensures
            r == self@.popup_typing(),
    {
        match &self.popup {
            Some(p) => match &p.sub_menu {
                Some(s) => s.is_typing(),
                None => false,
            },
            None => false,
        }
    }

    /// Sets the focus of the picker's filter.
    pub fn focus_picker(&mut self, on: bool)
        ensures
            final(self)@ == old(self)@.picker_focused(on),
    {
        let mut menu: Option<PopupMenu> = None;
        std::mem::swap(&mut menu, &mut self.popup);
        self.popup = match menu {
            Some(mut p) => {
                let mut sub: Option<popup::SubMenu> = None;
                std::mem::swap(&mut sub, &mut p.sub_menu);
                p.sub_menu = match sub {
                    Some(s) => Some(s.focus_filter(on)),
                    None => None,
                };
                Some(p)
            },
            None => None,
        };
    }

    /// Hands the playlists to a picker that waits for them.
    pub fn fill_picker(&mut self, list: &Vec<PlaylistData>)
        ensures
            final(self)@ == old(self)@.picker_filled(list@),
    {
        let mut menu: Option<PopupMenu> = None;
        std::mem::swap(&mut menu, &mut self.popup);
        self.popup = match menu {
            Some(mut p) => {
                let mut sub: Option<popup::SubMenu> = None;
                std::mem::swap(&mut sub, &mut p.sub_menu);
                p.sub_menu = match sub {
                    Some(s) => Some(s.fill(list)),
                    None => None,
                };
                Some(p)
            },
            None => None,
        };
    }
}

/// Closing an overlay undoes opening it: the page below and the history are as
/// before, and the player is told of both or of neither.
pub proof fn closing_undoes_opening(layers: LayersView, new: Overlay)
    requires
        layers.overlay is None ==> layers.overlay_stack.len() == 0,
    ensures
        ({
            let after = layers.pushed(new).popped();
            &&& after.overlay == layers.overlay
            &&& after.overlay_stack == layers.overlay_stack
            &&& after.popup == layers.popup
            &&& new.remembered() matches Some(nav) ==> after.nav_commands
                == layers.nav_commands.push(Command::PushNavOverlay(nav)).push(
                Command::PopNavOverlay,
            )
            &&& new.remembered() is None ==> after.nav_commands == layers.nav_commands
        }),
{
    match layers.overlay {
        Some(current) => {
            assert(layers.overlay_stack.push(current).drop_last() =~= layers.overlay_stack);
        },
        None => {},
    }
}

/// What the mouse needs to know.
#[derive(Debug)]
pub struct MouseState {
    /// Clickable regions of the last drawn frame.
    pub click: ClickAreas,
    /// The login button, as drawn last.
    pub login_button_area: Option<Rect>,
    /// Scroll offset each list was drawn with last.
    pub scroll: ScrollOffsets,
    /// Cell and time of the last left click, for double-click detection.
    pub last_click: Option<(u16, u16, u64)>,
}

/// All that the client has on screen.
#[derive(Debug)]
pub struct ViewState {
    /// The player's state, as it came last.
    pub data: DaemonSnapshot,
    pub tabs: Tabs,
    pub pages: Pages,
    pub login: LoginPane,
    pub layers: Layers,
    pub messages: Messages,
    pub input_mode: InputMode,
    pub search_input: String,
    pub vim_keys: bool,
    /// The user's playlists, as far as they are known.
    pub playlists: Vec<PlaylistData>,
    pub theme: Theme,
    /// What the program around the client is to do.
    pub effects: Vec<ClientEffect>,
    pub mouse: MouseState,
}

/// What a [`ViewState`] holds.
pub struct ClientView {
    pub data: DaemonSnapshot,
    pub tabs: TabsView,
    pub pages: PagesView,
    pub login: LoginPaneView,
    pub layers: LayersView,
    pub messages: MessagesView,
    pub input_mode: InputMode,
    pub search_input: Seq<char>,
    pub vim_keys: bool,
    pub playlists: Seq<PlaylistData>,
    pub theme: Theme,
    pub effects: Seq<EffectView>,
    pub mouse: MouseState,
}

impl View for ViewState {
    type V = ClientView;

    open spec fn view(&self) -> ClientView {
        ClientView {
            data: self.data,
            tabs: self.tabs@,
            pages: self.pages@,
            login: self.login@,
            layers: self.layers@,
            messages: self.messages@,
            input_mode: self.input_mode,
            search_input: self.search_input@,
            vim_keys: self.vim_keys,
            playlists: self.playlists@,
            theme: self.theme,
            effects: crate::client::effects_of(self.effects@),
            mouse: self.mouse,
        }
    }
}

/// A page that the player remembers is told to it when it opens, over the others or
/// in their place, and when it closes; other overlays are the client's own.
pub proof fn the_player_is_told_of_its_pages(layers: LayersView, new: Overlay)
    ensures
        ({
            let nav = match new {
                Overlay::ArtistDetail => Some(NavOverlay::ArtistDetail),
                Overlay::AlbumDetail { from_artist } => Some(
                    NavOverlay::AlbumDetail { from_artist },
                ),
                Overlay::PlaylistDetail { .. } => Some(NavOverlay::PlaylistDetail),
                Overlay::GenreDetail { .. } => Some(NavOverlay::GenreDetail),
                _ => None,
            };
            let over = layers.pushed(new);
            let back = over.popped();
            let alone = layers.nav_set(new);
            &&& over.overlay == Some(new) && alone.overlay == Some(new)
            &&& alone.overlay_stack.len() == 0
            &&& nav is Some ==> {
                &&& over.nav_commands == layers.nav_commands.push(Command::PushNavOverlay(nav->0))
                &&& back.nav_commands == over.nav_commands.push(Command::PopNavOverlay)
                &&& alone.nav_commands == layers.nav_commands.push(
                    Command::ClearNavOverlayStack,
                ).push(Command::PushNavOverlay(nav->0))
            }
            &&& nav is None ==> {
                &&& over.nav_commands == layers.nav_commands
                &&& back.nav_commands == layers.nav_commands
                &&& alone.nav_commands == layers.nav_commands
            }
            &&& layers.overlay is Some ==> back.overlay == layers.overlay
        }),
{
}

} // verus!
