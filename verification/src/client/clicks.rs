//! Where the widgets of the last drawn frame are, so that clicks reach them.

use vstd::prelude::*;

use crate::protocol::ActiveTab;

verus! {

/// A rectangle of screen cells.
#[derive(Debug, Clone, Copy, PartialEq, Eq, Structural)]
pub struct Rect {
    pub x: u16,
    pub y: u16,
    pub width: u16,
    pub height: u16,
}

impl Rect {
    /// Right edge, at most the last column there is.
    pub open spec fn right(self) -> int {
        if self.x + self.width > u16::MAX {
            u16::MAX as int
        } else {
            self.x + self.width
        }
    }

    /// Bottom edge, at most the last row there is.
    pub open spec fn bottom(self) -> int {
        if self.y + self.height > u16::MAX {
            u16::MAX as int
        } else {
            self.y + self.height
        }
    }

    /// The cell lies in the rectangle.
    pub open spec fn covers(self, col: u16, row: u16) -> bool {
        self.x <= col < self.right() && self.y <= row < self.bottom()
    }
}

/// Whether the cell lies in the rectangle.
pub fn contains(rect: Rect, col: u16, row: u16) -> (r: bool)
    ensures
        r == rect.covers(col, row),
{
    let right: u32 = rect.x as u32 + rect.width as u32;
    let bottom: u32 = rect.y as u32 + rect.height as u32;
    let right: u32 = if right > 65535 {
        65535
    } else {
        right
    };
    let bottom: u32 = if bottom > 65535 {
        65535
    } else {
        bottom
    };
    col >= rect.x && (col as u32) < right && row >= rect.y && (row as u32) < bottom
}

/// A clickable widget recorded by the draw pass.
#[derive(Debug, Clone, Copy, PartialEq, Eq, Structural)]
pub enum ClickTarget {
    /// Tab in the top tab bar.
    Tab(ActiveTab),
    /// Category chip of the active tab, by its place in the category list.
    Category(usize),
    /// Sub-tab of the artist detail page, by its place in the list.
    ArtistSubTab(usize),
    /// Sub-tab of the genre detail page, by its place in the list.
    GenreSubTab(usize),
    /// Search / filter text input of the active tab.
    FilterInput,
    /// "f Flow" chip in the player bar.
    FlowChip,
    /// Heart icon in the player bar, which toggles the playing track's favorite.
    ToggleLikeCurrentTrack,
    /// Playing track's name / progress bar in the player bar.
    CurrentTrack,
    /// "g Shuffle" button on the Favorites tab.
    ShuffleFavorites,
    /// "Esc Back to …" hint at the top of a detail page.
    Back,
    /// Cover + metadata column of the album / artist detail pages.
    DetailLeftPanel,
    /// Filter input of the "Add to playlist" picker.
    PlaylistFilterInput,
    /// Transparency switch of the theme picker.
    TransparencyToggle,
    /// Yes / no button of a confirmation.
    ConfirmChoice(bool),
}

/// Which list the rows recorded by the draw pass belong to: a click selects
/// the row in that list's own cursor.
#[derive(Debug, Clone, Copy, PartialEq, Eq, Structural)]
pub enum RowsKind {
    /// Main list of the active tab (and its category).
    Tab,
    AlbumDetail,
    ArtistDetail,
    GenreDetail,
    PlaylistDetail,
    WaitingList,
    NowPlayingQueue,
    /// Track list of the offline album/playlist detail modal.
    OfflineDetail,
    /// Option list of the open modal (menus, pickers, settings).
    Modal,
}

/// The visible rows of the topmost list, as laid out by the last draw pass.
#[derive(Debug, Clone, Copy, PartialEq, Eq, Structural)]
pub struct RowsArea {
    /// Data rows only: title, header and footer lines excluded.
    pub area: Rect,
    /// Index of the list's first visible row.
    pub offset: usize,
    /// Item count, so clicks past the last row are ignored.
    pub len: usize,
    pub kind: RowsKind,
}

impl RowsArea {
    /// The list item drawn at a cell, if any.
    pub open spec fn item_at(self, col: u16, row: u16) -> Option<usize> {
        if self.area.covers(col, row) && self.offset + (row - self.area.y) < self.len {
            Some((self.offset + (row - self.area.y)) as usize)
        } else {
            None
        }
    }

    /// Index of the list item drawn at this cell, if any.
    pub fn index_at(&self, col: u16, row: u16) -> (r: Option<usize>)
        ensures
            r == self.item_at(col, row),
    {
        if !contains(self.area, col, row) {
            return None;
        }
        let down: usize = (row - self.area.y) as usize;
        if self.offset >= self.len || down >= self.len - self.offset {
            return None;
        }
        Some(self.offset + down)
    }
}

/// A row that can be clicked is an item of its list, and the row below it in the
/// area is the next item.
pub proof fn rows_follow_one_another(rows: RowsArea, col: u16, row: u16)
    requires
        rows.item_at(col, row) is Some,
    ensures
        rows.item_at(col, row)->0 < rows.len,
        row < u16::MAX && rows.item_at(col, (row + 1) as u16) is Some ==> rows.item_at(
            col,
            (row + 1) as u16,
        )->0 == rows.item_at(col, row)->0 + 1,
{
}

/// Screen regions recorded by the draw pass so mouse clicks can be routed to
/// the widget under the cursor. Rebuilt from scratch on every frame.
#[derive(Debug)]
pub struct ClickAreas {
    pub targets: Vec<(Rect, ClickTarget)>,
    pub rows: Option<RowsArea>,
    /// Outline of the topmost modal, if one is open: clicking outside it closes
    /// the modal, and nothing drawn behind it is clickable.
    pub modal: Option<Rect>,
}

/// What [`ClickAreas`] records.
pub struct ClickAreasView {
    pub targets: Seq<(Rect, ClickTarget)>,
    pub rows: Option<RowsArea>,
    pub modal: Option<Rect>,
}

impl View for ClickAreas {
    type V = ClickAreasView;

    open spec fn view(&self) -> ClickAreasView {
        ClickAreasView { targets: self.targets@, rows: self.rows, modal: self.modal }
    }
}

/// The last of the widgets at this cell, as later ones are drawn on top.
pub open spec fn topmost(targets: Seq<(Rect, ClickTarget)>, col: u16, row: u16) -> Option<
    ClickTarget,
>
    decreases targets.len(),
{
    if targets.len() == 0 {
        None
    } else if targets.last().0.covers(col, row) {
        Some(targets.last().1)
    } else {
        topmost(targets.drop_last(), col, row)
    }
}

impl ClickAreas {
    /// Nothing recorded.
    pub fn new() -> (r: ClickAreas)
        ensures
            r@ == (ClickAreasView { targets: Seq::empty(), rows: None, modal: None }),
    {
        ClickAreas { targets: Vec::new(), rows: None, modal: None }
    }

    /// Topmost target under this cell.
    pub fn hit(&self, col: u16, row: u16) -> (r: Option<ClickTarget>)
        ensures
            r == topmost(self.targets@, col, row),
    {
        let mut i: usize = self.targets.len();
        proof {
            assert(self.targets@.take(i as int) =~= self.targets@);
        }
        while i > 0
            invariant
                i <= self.targets@.len(),
                topmost(self.targets@.take(i as int), col, row) == topmost(self.targets@, col, row),
            decreases i,
        {
            let (rect, target) = self.targets[i - 1];
            proof {
                assert(self.targets@.take(i as int).drop_last() =~= self.targets@.take(i - 1));
            }
            if contains(rect, col, row) {
                return Some(target);
            }
            i = i - 1;
        }
        None
    }

    /// Drops what the previous frame recorded.
    pub fn clear(&mut self)
        ensures
            final(self)@ == (ClickAreasView { targets: Seq::empty(), rows: None, modal: None }),
    {
        self.targets = Vec::new();
        self.rows = None;
        self.modal = None;
    }

    /// Records the outline of a modal being drawn, which covers what was
    /// recorded before.
    pub fn record_modal(&mut self, area: Rect)
        ensures
            final(self)@ == (ClickAreasView {
                targets: Seq::empty(),
                rows: None,
                modal: Some(area),
            }),
    {
        self.clear();
        self.modal = Some(area);
    }

    /// Records a clickable widget.
    pub fn record_click(&mut self, rect: Rect, target: ClickTarget)
        ensures
            final(self)@ == (ClickAreasView {
                targets: old(self)@.targets.push((rect, target)),
                ..old(self)@
            }),
    {
        self.targets.push((rect, target));
    }

    /// The data rows of a list drawn in `area`, below `top` lines of title and
    /// header.
    pub open spec fn data_rows(area: Rect, top: u16) -> Rect {
        Rect {
            x: area.x,
            y: (area.y + top) as u16,
            width: area.width,
            height: if area.height >= top {
                (area.height - top) as u16
            } else {
                0
            },
        }
    }

    /// Records the list drawn in `area`. `top` is how many lines the table
    /// spends on its title and header before the first data row.
    pub fn record_rows(&mut self, area: Rect, top: u16, offset: usize, len: usize, kind: RowsKind)
        requires
            area.y + top <= u16::MAX,
        ensures
            final(self)@ == (ClickAreasView {
                rows: Some(
                    RowsArea { area: ClickAreas::data_rows(area, top), offset, len, kind },
                ),
                ..old(self)@
            }),
    {
        let height: u16 = if area.height >= top {
            area.height - top
        } else {
            0
        };
        let rows = Rect { x: area.x, y: area.y + top, width: area.width, height };
        self.rows = Some(RowsArea { area: rows, offset, len, kind });
    }
}

/// A widget just recorded is the one that its cells hit, and a modal leaves
/// nothing that was recorded behind it to hit.
pub proof fn what_is_drawn_last_is_hit(
    areas: ClickAreasView,
    rect: Rect,
    target: ClickTarget,
    col: u16,
    row: u16,
)
    requires
        rect.covers(col, row),
    ensures
        topmost(areas.targets.push((rect, target)), col, row) == Some(target),
        topmost(Seq::<(Rect, ClickTarget)>::empty(), col, row) is None,
{
    assert(areas.targets.push((rect, target)).last() == (rect, target));
}

/// Scroll offset each list was drawn with last, so the next draw can resume
/// from it.
#[derive(Debug, Clone, Copy, PartialEq, Eq, Structural)]
pub struct ScrollOffsets {
    pub tab: usize,
    pub album_detail: usize,
    pub artist_detail: usize,
    pub genre_detail: usize,
    pub playlist_detail: usize,
    pub waiting_list: usize,
    pub now_playing_queue: usize,
    pub offline_detail: usize,
    pub modal: usize,
}

impl ScrollOffsets {
    /// The offset kept for a list.
    pub open spec fn of(self, kind: RowsKind) -> usize {
        match kind {
            RowsKind::Tab => self.tab,
            RowsKind::AlbumDetail => self.album_detail,
            RowsKind::ArtistDetail => self.artist_detail,
            RowsKind::GenreDetail => self.genre_detail,
            RowsKind::PlaylistDetail => self.playlist_detail,
            RowsKind::WaitingList => self.waiting_list,
            RowsKind::NowPlayingQueue => self.now_playing_queue,
            RowsKind::OfflineDetail => self.offline_detail,
            RowsKind::Modal => self.modal,
        }
    }

    /// Every list at its top.
    pub fn new() -> (r: ScrollOffsets)
        ensures
            forall|kind: RowsKind| #[trigger] r.of(kind) == 0,
    {
        ScrollOffsets {
            tab: 0,
            album_detail: 0,
            artist_detail: 0,
            genre_detail: 0,
            playlist_detail: 0,
            waiting_list: 0,
            now_playing_queue: 0,
            offline_detail: 0,
            modal: 0,
        }
    }

    /// The offset that a list was drawn with last.
    pub fn get(&self, kind: RowsKind) -> (r: usize)
        ensures
            r == self.of(kind),
    {
        match kind {
            RowsKind::Tab => self.tab,
            RowsKind::AlbumDetail => self.album_detail,
            RowsKind::ArtistDetail => self.artist_detail,
            RowsKind::GenreDetail => self.genre_detail,
            RowsKind::PlaylistDetail => self.playlist_detail,
            RowsKind::WaitingList => self.waiting_list,
            RowsKind::NowPlayingQueue => self.now_playing_queue,
            RowsKind::OfflineDetail => self.offline_detail,
            RowsKind::Modal => self.modal,
        }
    }

    /// Keeps the offset that a list was drawn with.
    pub fn keep(&mut self, kind: RowsKind, offset: usize)
        ensures
            forall|k: RowsKind|
                #[trigger] final(self).of(k) == (if k == kind {
                    offset
                } else {
                    old(self).of(k)
                }),
    {
        match kind {
            RowsKind::Tab => self.tab = offset,
            RowsKind::AlbumDetail => self.album_detail = offset,
            RowsKind::ArtistDetail => self.artist_detail = offset,
            RowsKind::GenreDetail => self.genre_detail = offset,
            RowsKind::PlaylistDetail => self.playlist_detail = offset,
            RowsKind::WaitingList => self.waiting_list = offset,
            RowsKind::NowPlayingQueue => self.now_playing_queue = offset,
            RowsKind::OfflineDetail => self.offline_detail = offset,
            RowsKind::Modal => self.modal = offset,
        }
    }
}

/// A rectangle covers the cells between its edges: from its left to before its
/// right, and from its top to before its bottom.
pub proof fn rectangles_cover_their_cells(r: Rect, col: u16, row: u16)
    requires
        r.x + r.width <= u16::MAX,
        r.y + r.height <= u16::MAX,
    ensures
        r.covers(col, row) <==> (r.x <= col < r.x + r.width && r.y <= row < r.y + r.height),
{
}

/// The first line of a list's area shows the item at the list's offset, and each
/// line below it the next one; below the last item there is none.
pub proof fn lines_show_items_from_the_offset(rows: RowsArea, col: u16, down: u16)
    requires
        rows.area.x <= col < rows.area.x + rows.area.width <= u16::MAX,
        down < rows.area.height,
        rows.area.y + rows.area.height <= u16::MAX,
    ensures
        ({
            let row = (rows.area.y + down) as u16;
            &&& rows.offset + down < rows.len ==> rows.item_at(col, row) == Some(
                (rows.offset + down) as usize,
            )
            &&& rows.offset + down >= rows.len ==> rows.item_at(col, row) is None
        }),
{
}

} // verus!
