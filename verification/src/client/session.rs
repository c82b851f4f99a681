//! Decisions around the client's main loop: what the artwork and the window
//! title show, which screen a later session reopens, and what an update offers.

use vstd::prelude::*;

use crate::client;
use crate::client::popup::{SubMenu, SubMenuView};
use crate::client::state::{ClientView, LayersView, Toast, ToastView, ViewState};
use crate::client::{LoginMode, Overlay};
use crate::models;
use crate::models::{ArtistAlbumEntry, ArtistDetail, ArtistSubTab, TrackData};
use crate::notice;
use crate::notice::{Notice, NoticeKind};
use crate::player::PlaybackStatus;
use crate::protocol::{DaemonSnapshot, Screen, ServerMessage};
use crate::text;
use crate::text::{joined, push_text, same_text, sanitize};

verus! {

/// Which overlay one is, whatever it holds.
#[derive(Debug, Clone, Copy, PartialEq, Eq, Structural)]
pub enum OverlayKind {
    Help,
    Settings,
    ThemePicker,
    QualityPicker,
    LanguagePicker,
    AlbumDetail,
    ArtistDetail,
    PlaylistDetail,
    ShowDetail,
    GenreDetail,
    WaitingList,
    NowPlaying,
    OfflineDetail,
    Info,
    UpdateAvailable,
    Updating,
}

/// Which dialog one is, whatever it holds.
#[derive(Debug, Clone, Copy, PartialEq, Eq, Structural)]
pub enum SubMenuKind {
    PlaylistPicker,
    TrackInfo,
    CreatePlaylistInput,
    RenamePlaylistInput,
    ConfirmDeletePlaylist,
    ConfirmRemoveFavorite,
}

/// The kind of layer drawn over terminal artwork. Images live outside the
/// terminal's cells, so changing a layer's footprint takes a full redraw.
#[derive(Debug, Clone, Copy, PartialEq, Eq, Structural)]
pub enum CoverLayer {
    Overlay(OverlayKind),
    Popup(Option<SubMenuKind>),
}

impl Overlay {
    /// Which overlay this is.
    pub open spec fn kind_of(self) -> OverlayKind {
        match self {
            Overlay::Help { .. } => OverlayKind::Help,
            Overlay::Settings { .. } => OverlayKind::Settings,
            Overlay::ThemePicker { .. } => OverlayKind::ThemePicker,
            Overlay::QualityPicker { .. } => OverlayKind::QualityPicker,
            Overlay::LanguagePicker { .. } => OverlayKind::LanguagePicker,
            Overlay::AlbumDetail { .. } => OverlayKind::AlbumDetail,
            Overlay::ArtistDetail => OverlayKind::ArtistDetail,
            Overlay::PlaylistDetail { .. } => OverlayKind::PlaylistDetail,
            Overlay::ShowDetail { .. } => OverlayKind::ShowDetail,
            Overlay::GenreDetail { .. } => OverlayKind::GenreDetail,
            Overlay::WaitingList { .. } => OverlayKind::WaitingList,
            Overlay::NowPlaying { .. } => OverlayKind::NowPlaying,
            Overlay::OfflineDetail { .. } => OverlayKind::OfflineDetail,
            Overlay::Info => OverlayKind::Info,
            Overlay::UpdateAvailable { .. } => OverlayKind::UpdateAvailable,
            Overlay::Updating { .. } => OverlayKind::Updating,
        }
    }

    /// Which overlay this is.
    pub fn kind(&self) -> (r: OverlayKind)
        ensures
            r == self.kind_of(),
    {
        match self {
            Overlay::Help { .. } => OverlayKind::Help,
            Overlay::Settings { .. } => OverlayKind::Settings,
            Overlay::ThemePicker { .. } => OverlayKind::ThemePicker,
            Overlay::QualityPicker { .. } => OverlayKind::QualityPicker,
            Overlay::LanguagePicker { .. } => OverlayKind::LanguagePicker,
            Overlay::AlbumDetail { .. } => OverlayKind::AlbumDetail,
            Overlay::ArtistDetail => OverlayKind::ArtistDetail,
            Overlay::PlaylistDetail { .. } => OverlayKind::PlaylistDetail,
            Overlay::ShowDetail { .. } => OverlayKind::ShowDetail,
            Overlay::GenreDetail { .. } => OverlayKind::GenreDetail,
            Overlay::WaitingList { .. } => OverlayKind::WaitingList,
            Overlay::NowPlaying { .. } => OverlayKind::NowPlaying,
            Overlay::OfflineDetail { .. } => OverlayKind::OfflineDetail,
            Overlay::Info => OverlayKind::Info,
            Overlay::UpdateAvailable { .. } => OverlayKind::UpdateAvailable,
            Overlay::Updating { .. } => OverlayKind::Updating,
        }
    }

    /// The page bears artwork itself.
    pub open spec fn bears_artwork(self) -> bool {
        self is AlbumDetail || self is ArtistDetail || self is NowPlaying
    }
}

impl SubMenuView {
    /// Which dialog this is.
    pub open spec fn kind_of(self) -> SubMenuKind {
        match self {
            SubMenuView::PlaylistPicker { .. } => SubMenuKind::PlaylistPicker,
            SubMenuView::TrackInfo => SubMenuKind::TrackInfo,
            SubMenuView::CreatePlaylistInput { .. } => SubMenuKind::CreatePlaylistInput,
            SubMenuView::RenamePlaylistInput { .. } => SubMenuKind::RenamePlaylistInput,
            SubMenuView::ConfirmDeletePlaylist { .. } => SubMenuKind::ConfirmDeletePlaylist,
            SubMenuView::ConfirmRemoveFavorite { .. } => SubMenuKind::ConfirmRemoveFavorite,
        }
    }
}

impl SubMenu {
    /// Which dialog this is.
    pub fn kind(&self) -> (r: SubMenuKind)
        ensures
            r == self@.kind_of(),
    {
        match self {
            SubMenu::PlaylistPicker { .. } => SubMenuKind::PlaylistPicker,
            SubMenu::TrackInfo => SubMenuKind::TrackInfo,
            SubMenu::CreatePlaylistInput { .. } => SubMenuKind::CreatePlaylistInput,
            SubMenu::RenamePlaylistInput { .. } => SubMenuKind::RenamePlaylistInput,
            SubMenu::ConfirmDeletePlaylist { .. } => SubMenuKind::ConfirmDeletePlaylist,
            SubMenu::ConfirmRemoveFavorite { .. } => SubMenuKind::ConfirmRemoveFavorite,
        }
    }
}

/// The queue screen that an overlay is, with its cursor.
#[derive(Debug, Clone, Copy, PartialEq, Eq, Structural)]
pub enum RestoredQueueView {
    NowPlaying,
    WaitingList,
}

/// What a later session reopens. Playback and queue belong to the player; this
/// records only which queue screen was open.
#[derive(Debug, Clone, Copy, PartialEq, Eq, Structural)]
pub struct UiSession {
    pub queue_view: Option<RestoredQueueView>,
    pub selected: usize,
}

/// The session that an overlay asks for, if it is a queue screen.
pub open spec fn session_of(o: Overlay) -> Option<UiSession> {
    match o {
        Overlay::NowPlaying { selected } => Some(
            UiSession { queue_view: Some(RestoredQueueView::NowPlaying), selected },
        ),
        Overlay::WaitingList { selected } => Some(
            UiSession { queue_view: Some(RestoredQueueView::WaitingList), selected },
        ),
        _ => None,
    }
}

fn overlay_session(o: &Overlay) -> (r: Option<UiSession>)
    ensures
        r == session_of(*o),
{
    match o {
        Overlay::NowPlaying { selected } => Some(
            UiSession { queue_view: Some(RestoredQueueView::NowPlaying), selected: *selected },
        ),
        Overlay::WaitingList { selected } => Some(
            UiSession { queue_view: Some(RestoredQueueView::WaitingList), selected: *selected },
        ),
        _ => None,
    }
}

/// The topmost queue screen of a history.
pub open spec fn stacked_session(s: Seq<Overlay>) -> Option<UiSession>
    decreases s.len(),
{
    if s.len() == 0 {
        None
    } else {
        match session_of(s.last()) {
            Some(x) => Some(x),
            None => stacked_session(s.drop_last()),
        }
    }
}

impl LayersView {
    /// The topmost queue screen, under whatever dialog is open.
    pub open spec fn queue_session(self) -> UiSession {
        let top = match self.overlay {
            Some(o) => session_of(o),
            None => None,
        };
        match top {
            Some(x) => x,
            None => match stacked_session(self.overlay_stack) {
                Some(x) => x,
                None => UiSession { queue_view: None, selected: 0 },
            },
        }
    }

    /// What is drawn over the artwork.
    pub open spec fn over_artwork(self) -> Option<CoverLayer> {
        match self.popup {
            Some(p) => Some(
                CoverLayer::Popup(
                    match p.sub_menu {
                        Some(s) => Some(s.kind_of()),
                        None => None,
                    },
                ),
            ),
            None => match self.overlay {
                Some(o) => if o.bears_artwork() {
                    None
                } else {
                    Some(CoverLayer::Overlay(o.kind_of()))
                },
                None => None,
            },
        }
    }

    /// The page that bears artwork, the topmost of them.
    pub open spec fn artwork_page(self) -> Option<OverlayKind> {
        match self.overlay {
            Some(o) => if o.bears_artwork() {
                Some(o.kind_of())
            } else {
                stacked_artwork(self.overlay_stack)
            },
            None => stacked_artwork(self.overlay_stack),
        }
    }
}

/// The topmost page of a history that bears artwork.
pub open spec fn stacked_artwork(s: Seq<Overlay>) -> Option<OverlayKind>
    decreases s.len(),
{
    if s.len() == 0 {
        None
    } else if s.last().bears_artwork() {
        Some(s.last().kind_of())
    } else {
        stacked_artwork(s.drop_last())
    }
}

/// The playback page is open, or will be when what is over it closes.
pub open spec fn now_playing_in(layers: LayersView) -> bool {
    layers.overlay is Some && layers.overlay->0 is NowPlaying || exists|i: int|
        0 <= i < layers.overlay_stack.len() && (#[trigger] layers.overlay_stack[i]) is NowPlaying
}

fn last_session(stack: &Vec<Overlay>) -> (r: Option<UiSession>)
    ensures
        r == stacked_session(stack@),
{
    let mut i: usize = stack.len();
    proof {
        assert(stack@.take(i as int) =~= stack@);
    }
    while i > 0
        invariant
            i <= stack@.len(),
            stacked_session(stack@.take(i as int)) == stacked_session(stack@),
        decreases i,
    {
        proof {
            assert(stack@.take(i as int).drop_last() =~= stack@.take(i - 1));
        }
        let found: Option<UiSession> = overlay_session(&stack[i - 1]);
        if found.is_some() {
            return found;
        }
        i = i - 1;
    }
    None
}

fn has_now_playing(stack: &Vec<Overlay>) -> (r: bool)
    ensures
        r == exists|i: int| 0 <= i < stack@.len() && (#[trigger] stack@[i]) is NowPlaying,
{
    let mut i: usize = 0;
    while i < stack.len()
        invariant
            i <= stack@.len(),
            forall|k: int| 0 <= k < i ==> !((#[trigger] stack@[k]) is NowPlaying),
        decreases stack@.len() - i,
    {
        if matches!(&stack[i], Overlay::NowPlaying { .. }) {
            return true;
        }
        i = i + 1;
    }
    false
}

fn last_artwork(stack: &Vec<Overlay>) -> (r: Option<OverlayKind>)
    ensures
        r == stacked_artwork(stack@),
{
    let mut i: usize = stack.len();
    proof {
        assert(stack@.take(i as int) =~= stack@);
    }
    while i > 0
        invariant
            i <= stack@.len(),
            stacked_artwork(stack@.take(i as int)) == stacked_artwork(stack@),
        decreases i,
    {
        proof {
            assert(stack@.take(i as int).drop_last() =~= stack@.take(i - 1));
        }
        match &stack[i - 1] {
            Overlay::AlbumDetail { .. } | Overlay::ArtistDetail | Overlay::NowPlaying { .. } => {
                return Some(stack[i - 1].kind());
            },
            _ => {},
        }
        i = i - 1;
    }
    None
}

impl UiSession {
    /// What a later session is to reopen.
    pub fn from_view(view: &ViewState) -> (r: UiSession)
        ensures
            r == view@.layers.queue_session(),
    {
        match &view.layers.overlay {
            Some(o) => match overlay_session(o) {
                Some(s) => {
                    return s;
                },
                None => {},
            },
            None => {},
        }
        match last_session(&view.layers.overlay_stack) {
            Some(s) => s,
            None => UiSession { queue_view: None, selected: 0 },
        }
    }
}

impl ClientView {
    /// The queue screen of an earlier session reopened, where there is a queue.
    pub open spec fn queue_restored(self, session: UiSession) -> ClientView {
        match session.queue_view {
            Some(kind) => if self.data.screen == Screen::Main && self.data.queue@.len() > 0 {
                let selected = client::clamped(session.selected, self.data.queue@.len());
                self.with_layers(
                    LayersView {
                        overlay_stack: Seq::empty(),
                        overlay: Some(
                            match kind {
                                RestoredQueueView::NowPlaying => Overlay::NowPlaying { selected },
                                RestoredQueueView::WaitingList => Overlay::WaitingList { selected },
                            },
                        ),
                        ..self.layers
                    },
                )
            } else {
                self
            },
            None => self,
        }
    }
}

/// A queue screen that is saved comes back as it was, while the queue is long
/// enough.
pub proof fn sessions_come_back(view: ClientView, selected: usize)
    requires
        view.data.screen == Screen::Main,
        selected < view.data.queue@.len() <= usize::MAX,
        view.layers.overlay == Some(Overlay::NowPlaying { selected }) || view.layers.overlay == Some(
            Overlay::WaitingList { selected },
        ),
    ensures
        view.queue_restored(view.layers.queue_session()).layers.overlay == view.layers.overlay,
{
}

/// A redraw is due when the layer over the artwork changed, not when a cursor
/// moved in it.
pub proof fn cursors_need_no_redraw(layers: LayersView, other: Overlay)
    requires
        layers.overlay is Some,
        layers.overlay->0.kind_of() == other.kind_of(),
    ensures
        layers.shows(other).over_artwork() == layers.over_artwork(),
{
}

impl ViewState {
    /// What is drawn over the artwork.
    pub fn cover_layer(&self) -> (r: Option<CoverLayer>)
        ensures
            r == self@.layers.over_artwork(),
    {
        match &self.layers.popup {
            Some(p) => Some(
                CoverLayer::Popup(
                    match &p.sub_menu {
                        Some(s) => Some(s.kind()),
                        None => None,
                    },
                ),
            ),
            None => match &self.layers.overlay {
                Some(o) => match o {
                    Overlay::AlbumDetail { .. }
                    | Overlay::ArtistDetail
                    | Overlay::NowPlaying { .. } => None,
                    _ => Some(CoverLayer::Overlay(o.kind())),
                },
                None => None,
            },
        }
    }

    /// Reopens the queue screen of an earlier session.
    pub fn restore_queue_view(&mut self, session: UiSession)
        ensures
            final(self)@ == old(self)@.queue_restored(session),
    {
        let kind: RestoredQueueView = match session.queue_view {
            Some(kind) => kind,
            None => {
                return;
            },
        };
        if self.data.screen != Screen::Main || self.data.queue.len() == 0 {
            return;
        }
        let selected: usize = client::clamp(session.selected, self.data.queue.len());
        self.layers.overlay_stack = Vec::new();
        self.layers.overlay = Some(
            match kind {
                RestoredQueueView::NowPlaying => Overlay::NowPlaying { selected },
                RestoredQueueView::WaitingList => Overlay::WaitingList { selected },
            },
        );
    }

    /// Whether the playback page is open, under dialogs too.
    pub fn now_playing_visible(&self) -> (r: bool)
        ensures
            r == now_playing_in(self@.layers),
    {
        match &self.layers.overlay {
            Some(Overlay::NowPlaying { .. }) => {
                return true;
            },
            _ => {},
        }
        has_now_playing(&self.layers.overlay_stack)
    }

    /// Whether the output is to be captured for the visualizer.
    pub fn captures_spectrum(&self) -> (r: bool)
        ensures
            r == (now_playing_in(self@.layers) && self.data.status == PlaybackStatus::Playing
                && self.data.screen == Screen::Main),
    {
        self.now_playing_visible() && self.data.status == PlaybackStatus::Playing
            && self.data.screen == Screen::Main
    }

    fn artwork_kind(&self) -> (r: Option<OverlayKind>)
        ensures
            r == self@.layers.artwork_page(),
    {
        match &self.layers.overlay {
            Some(o) => match o {
                Overlay::AlbumDetail { .. } | Overlay::ArtistDetail | Overlay::NowPlaying { .. } => {
                    return Some(o.kind());
                },
                _ => {},
            },
            None => {},
        }
        last_artwork(&self.layers.overlay_stack)
    }
}

/// How the capture of the output goes.
#[derive(Debug, Clone, Copy, PartialEq, Eq, Structural)]
pub enum CaptureState {
    /// Nothing is captured.
    Off,
    /// The output is captured.
    On,
    /// It cannot be captured; not tried again while the page stays open.
    Failed,
}

impl CaptureState {
    /// Whether a capture is to be started in this frame.
    pub fn starts(self, wanted: bool) -> (r: bool)
        ensures
            r == (wanted && self == CaptureState::Off),
    {
        wanted && self == CaptureState::Off
    }

    /// The state once starting a capture was tried.
    pub fn started(ok: bool) -> (r: CaptureState)
        ensures
            r == (if ok {
                CaptureState::On
            } else {
                CaptureState::Failed
            }),
    {
        if ok {
            CaptureState::On
        } else {
            CaptureState::Failed
        }
    }

    /// The state after a frame: leaving the page forgets a failure, and a
    /// capture that broke off is not started again.
    pub fn after(self, wanted: bool, lost: bool) -> (r: CaptureState)
        ensures
            r == (if !wanted {
                CaptureState::Off
            } else if self == CaptureState::On && lost {
                CaptureState::Failed
            } else {
                self
            }),
    {
        if !wanted {
            CaptureState::Off
        } else if self == CaptureState::On && lost {
            CaptureState::Failed
        } else {
            self
        }
    }
}

/// Size of a terminal cell in pixels, from the window's; unknown where the
/// terminal does not report one of the four.
pub fn cell_size(columns: u16, rows: u16, width: u16, height: u16) -> (r: Option<(u16, u16)>)
    ensures
        r == (if columns == 0 || rows == 0 || width == 0 || height == 0 {
            None
        } else {
            Some((width / columns, height / rows))
        }),
{
    if columns == 0 || rows == 0 || width == 0 || height == 0 {
        None
    } else {
        Some((width / columns, height / rows))
    }
}

/// A text, unless it is empty.
pub open spec fn nonempty(s: Seq<char>) -> Option<Seq<char>> {
    if s.len() == 0 {
        None
    } else {
        Some(s)
    }
}

/// Address of a track's cover in the size of the playback page.
pub open spec fn large_cover(picture: Seq<char>) -> Seq<char> {
    "https://e-cdns-images.dzcdn.net/images/cover/"@ + picture + "/500x500-000000-80-0-0.jpg"@
}

/// The cover of the album under the artist page's cursor, where the page lists
/// albums.
pub open spec fn album_under_cursor(detail: ArtistDetail, tab: ArtistSubTab, selected: usize) -> Option<
    Seq<char>,
> {
    if tab == ArtistSubTab::Albums || tab == ArtistSubTab::Lives || tab == ArtistSubTab::Other {
        let albums = models::albums_in_tab(detail.albums@, tab);
        if selected < albums.len() {
            nonempty(albums[selected as int].cover_url@)
        } else {
            None
        }
    } else {
        None
    }
}

impl ClientView {
    /// Address of the artwork to show.
    pub open spec fn cover(self) -> Option<Seq<char>> {
        match self.layers.artwork_page() {
            Some(OverlayKind::AlbumDetail) => match self.data.album_detail {
                Some(d) => nonempty(d.cover_url@),
                None => None,
            },
            Some(OverlayKind::ArtistDetail) => match self.data.artist_detail {
                Some(d) => match album_under_cursor(
                    d,
                    self.pages.artist_sub_tab,
                    self.pages.artist.selected,
                ) {
                    Some(url) => Some(url),
                    None => nonempty(d.picture_url@),
                },
                None => None,
            },
            Some(OverlayKind::NowPlaying) => match self.data.current_track {
                Some(t) => if t.album_picture@.len() == 0 {
                    None
                } else {
                    Some(large_cover(t.album_picture@))
                },
                None => None,
            },
            _ => None,
        }
    }
}

fn unless_empty(s: &String) -> (r: Option<String>)
    ensures
        models::opt_text(r) == nonempty(s@),
{
    if s.as_str().unicode_len() == 0 {
        None
    } else {
        Some(s.clone())
    }
}

fn selected_album_cover(detail: &ArtistDetail, tab: ArtistSubTab, selected: usize) -> (r: Option<
    String,
>)
    ensures
        models::opt_text(r) == album_under_cursor(*detail, tab, selected),
{
    if tab == ArtistSubTab::Albums || tab == ArtistSubTab::Lives || tab == ArtistSubTab::Other {
        let albums: Vec<ArtistAlbumEntry> = detail.albums_for_tab(tab);
        if selected < albums.len() {
            return unless_empty(&albums[selected].cover_url);
        }
    }
    None
}

impl ViewState {
    /// Address of the artwork of the page on screen.
    pub fn current_cover_url(&self) -> (r: Option<String>)
        ensures
            models::opt_text(r) == self@.cover(),
    {
        match self.artwork_kind() {
            Some(OverlayKind::AlbumDetail) => match &self.data.album_detail {
                Some(d) => unless_empty(&d.cover_url),
                None => None,
            },
            Some(OverlayKind::ArtistDetail) => match &self.data.artist_detail {
                Some(d) => match selected_album_cover(
                    d,
                    self.pages.artist_sub_tab,
                    self.pages.artist.selected,
                ) {
                    Some(url) => Some(url),
                    None => unless_empty(&d.picture_url),
                },
                None => None,
            },
            Some(OverlayKind::NowPlaying) => match &self.data.current_track {
                Some(t) => if t.album_picture.as_str().unicode_len() == 0 {
                    None
                } else {
                    let mut url: String = joined(
                        "https://e-cdns-images.dzcdn.net/images/cover/",
                        &t.album_picture,
                    );
                    push_text(&mut url, "/500x500-000000-80-0-0.jpg");
                    Some(url)
                },
                None => None,
            },
            _ => None,
        }
    }
}

/// What to do about the artwork.
#[derive(Debug)]
pub enum CoverStep {
    /// Nothing is to be shown: drop the picture and every one kept.
    Drop,
    /// The right picture is there, or on its way.
    Keep,
    /// Show this one, from what is kept or from the network.
    Show(String),
}

/// Decides about the artwork, from the address that is shown or loading.
pub fn cover_step(wanted: Option<String>, shown: &str) -> (r: CoverStep)
    ensures
        match wanted {
            None => r is Drop,
            Some(url) => if url@ == shown@ {
                r is Keep
            } else {
                r matches CoverStep::Show(u) && u == url
            },
        },
{
    match wanted {
        None => CoverStep::Drop,
        Some(url) => if same_text(&url, shown) {
            CoverStep::Keep
        } else {
            CoverStep::Show(url)
        },
    }
}

/// The window title for a track.
pub open spec fn title_text(icon: Seq<char>, title: Seq<char>, artist: Seq<char>, liked: bool) -> Seq<
    char,
> {
    "deezer-tui: "@ + icon + " "@ + (if liked {
        "♥ "@
    } else {
        ""@
    }) + title + " — "@ + artist
}

/// Terminal client, as far as it keeps state between frames.
#[derive(Debug)]
pub struct Client {
    pub view: ViewState,
    /// Last string written to the terminal title.
    pub last_terminal_title: String,
    /// Applied once, at the first snapshot of the main loop.
    pub pending_ui_session: Option<UiSession>,
    /// Whether to go on.
    pub running: bool,
    /// Whether to shut the player down on leaving.
    pub send_shutdown: bool,
    /// Whether the look for updates is over.
    pub update_check_done: bool,
    /// The layer over the artwork in the last frame.
    pub previous_cover_layer: Option<CoverLayer>,
}

/// What a [`Client`] holds.
pub struct LoopView {
    pub view: ClientView,
    pub last_terminal_title: Seq<char>,
    pub pending_ui_session: Option<UiSession>,
    pub running: bool,
    pub send_shutdown: bool,
    pub update_check_done: bool,
    pub previous_cover_layer: Option<CoverLayer>,
}

impl View for Client {
    type V = LoopView;

    open spec fn view(&self) -> LoopView {
        LoopView {
            view: self.view@,
            last_terminal_title: self.last_terminal_title@,
            pending_ui_session: self.pending_ui_session,
            running: self.running,
            send_shutdown: self.send_shutdown,
            update_check_done: self.update_check_done,
            previous_cover_layer: self.previous_cover_layer,
        }
    }
}

/// Something that came from the player, or did not.
#[derive(Debug)]
pub enum ServerEvent {
    /// A message of the player.
    Message(ServerMessage),
    /// A message that could not be read.
    Unreadable(String),
    /// The player is gone.
    Disconnected,
    /// Nothing came.
    Quiet,
}

/// How an update went.
#[derive(Debug)]
pub enum UpdateOutcome {
    /// The new program is in place.
    Installed,
    /// Nothing was changed.
    Failed(String),
}

impl ClientView {
    /// The title that the window is to have.
    pub open spec fn window_title(self) -> Seq<char> {
        let playing = self.data.status == PlaybackStatus::Playing;
        match self.data.current_track {
            Some(track) => if playing || self.data.status == PlaybackStatus::Paused {
                title_text(
                    if playing {
                        "▶"@
                    } else {
                        "⏸"@
                    },
                    text::sanitized(track.title@),
                    text::sanitized(track.artist@),
                    self.tabs.favorites.likes(track.track_id@),
                )
            } else {
                "deezer-tui"@
            },
            None => "deezer-tui"@,
        }
    }

    /// A notification about the connection.
    pub open spec fn notified(self, msg: notice::NoticeView, now: u64) -> ClientView {
        ClientView { messages: self.messages.with_status(Some(msg), now), ..self }
    }
}

impl LoopView {
    /// The client once the connection broke.
    pub open spec fn disconnected(self, now: u64) -> LoopView {
        LoopView {
            view: self.view.notified(notice::plain(NoticeKind::DaemonDisconnected), now),
            running: false,
            ..self
        }
    }

    /// The client once the main loop begins: the login screen at its button, or
    /// the program's information after an update.
    pub open spec fn begun(self, show_updated: bool) -> LoopView {
        let v = self.view;
        let at_login = v.data.screen == Screen::Login;
        LoopView {
            view: if at_login {
                ClientView {
                    login: client::state::LoginPaneView { mode: LoginMode::Button, ..v.login },
                    ..v
                }
            } else if show_updated {
                v.with_layers(v.layers.shows(Overlay::Info))
            } else {
                v
            },
            ..self
        }
    }

    /// The client after what came from the player.
    #[verifier::opaque]
    pub open spec fn heard(self, event: ServerEvent, now: u64) -> LoopView {
        match event {
            ServerEvent::Message(ServerMessage::Snapshot(snap)) => {
                let updated = self.view.received(*snap, now);
                LoopView {
                    view: match self.pending_ui_session {
                        Some(session) => updated.queue_restored(session),
                        None => updated,
                    },
                    pending_ui_session: None,
                    ..self
                }
            },
            ServerEvent::Message(ServerMessage::Error(err)) => LoopView {
                view: self.view.notified(notice::about(NoticeKind::ServerError, err@), now),
                ..self
            },
            ServerEvent::Unreadable(err) => LoopView {
                view: self.view.notified(notice::about(NoticeKind::CommunicationError, err@), now),
                ..self
            },
            ServerEvent::Disconnected => self.disconnected(now),
            ServerEvent::Quiet => self,
        }
    }

    /// The client once a newer version was found: offered unless something is
    /// open, and only once.
    pub open spec fn offered(self, version: String, download_url: String) -> LoopView {
        if self.update_check_done {
            self
        } else {
            LoopView {
                view: if self.view.layers.overlay is None {
                    self.view.with_layers(
                        self.view.layers.shows(
                            Overlay::UpdateAvailable { version, download_url, selected: 0 },
                        ),
                    )
                } else {
                    self.view
                },
                update_check_done: true,
                ..self
            }
        }
    }

    /// The client after an update was tried.
    pub open spec fn updated(self, outcome: UpdateOutcome, now: u64) -> LoopView {
        match outcome {
            UpdateOutcome::Installed => LoopView { running: false, ..self },
            UpdateOutcome::Failed(err) => LoopView {
                view: ClientView {
                    layers: LayersView { overlay: None, ..self.view.layers },
                    messages: self.view.messages.with_toast(
                        ToastView {
                            message: notice::about(NoticeKind::UpdateFailed, err@),
                            created_at: now,
                            duration: 5000,
                            is_error: true,
                        },
                    ),
                    ..self.view
                },
                ..self
            },
        }
    }
}

impl Client {
    /// A client around its first view.
    pub fn new(view: ViewState, session: Option<UiSession>, skip_update_check: bool) -> (r: Client)
        ensures
            r@ == (LoopView {
                view: view@,
                last_terminal_title: Seq::empty(),
                pending_ui_session: session,
                running: true,
                send_shutdown: false,
                update_check_done: skip_update_check,
                previous_cover_layer: None,
            }),
    {
        Client {
            view,
            last_terminal_title: String::new(),
            pending_ui_session: session,
            running: true,
            send_shutdown: false,
            update_check_done: skip_update_check,
            previous_cover_layer: None,
        }
    }

    /// The window/tab title for a track: `deezer-tui: ▶ ♥ Title — Artist`. The
    /// heart is only there for one of the user's favorites. Track metadata is
    /// written inside an escape sequence, so control codes are taken out first.
    pub fn terminal_title(status_icon: &str, track: &TrackData, is_favorite: bool) -> (r: String)
        ensures
            r@ == title_text(
                status_icon@,
                text::sanitized(track.title@),
                text::sanitized(track.artist@),
                is_favorite,
            ),
    {
        let mut r: String = joined("deezer-tui: ", status_icon);
        push_text(&mut r, " ");
        if is_favorite {
            push_text(&mut r, "♥ ");
        } else {
            push_text(&mut r, "");
        }
        let title: String = sanitize(&track.title);
        push_text(&mut r, &title);
        push_text(&mut r, " — ");
        let artist: String = sanitize(&track.artist);
        push_text(&mut r, &artist);
        r
    }

    fn wanted_title(&self) -> (r: String)
        ensures
            r@ == self@.view.window_title(),
    {
        match &self.view.data.current_track {
            Some(track) => {
                let liked: bool = self.view.is_track_favorite(&track.track_id);
                match self.view.data.status {
                    PlaybackStatus::Playing => Client::terminal_title("▶", track, liked),
                    PlaybackStatus::Paused => Client::terminal_title("⏸", track, liked),
                    _ => text::owned("deezer-tui"),
                }
            },
            None => text::owned("deezer-tui"),
        }
    }

    /// The title to write to the terminal, where it changed.
    pub fn update_terminal_title(&mut self) -> (r: Option<String>)
        ensures
            final(self)@ == (LoopView {
                last_terminal_title: old(self)@.view.window_title(),
                ..old(self)@
            }),
            models::opt_text(r) == (if old(self)@.view.window_title()
                == old(self)@.last_terminal_title {
                None
            } else {
                Some(old(self)@.view.window_title())
            }),
    {
        let title: String = self.wanted_title();
        if same_text(&title, &self.last_terminal_title) {
            return None;
        }
        self.last_terminal_title = title.clone();
        Some(title)
    }

    /// Begins the main loop.
    pub fn begin(&mut self, show_updated: bool)
        ensures
            final(self)@ == old(self)@.begun(show_updated),
    {
        if self.view.data.screen == Screen::Login {
            self.view.login.mode = LoginMode::Button;
        }
        if show_updated && self.view.data.screen == Screen::Main {
            self.view.layers.overlay = Some(Overlay::Info);
        }
    }

    /// Begins a frame: takes down a toast whose time is over, and says whether
    /// the screen is to be cleared because the layer over the artwork changed.
    pub fn begin_frame(&mut self, has_cover: bool, now: u64) -> (r: bool)
        ensures
            ({
                let layer = if has_cover {
                    old(self)@.view.layers.over_artwork()
                } else {
                    None
                };
                &&& final(self)@ == (LoopView {
                    view: ClientView {
                        messages: old(self)@.view.messages.expired(now),
                        ..old(self)@.view
                    },
                    previous_cover_layer: layer,
                    ..old(self)@
                })
                &&& r == (old(self)@.previous_cover_layer is Some
                    && old(self)@.previous_cover_layer != layer)
            }),
    {
        self.view.messages.expire(now);
        let layer: Option<CoverLayer> = if has_cover {
            self.view.cover_layer()
        } else {
            None
        };
        let changed: bool = match self.previous_cover_layer {
            Some(before) => match layer {
                Some(after) => before != after,
                None => true,
            },
            None => false,
        };
        self.previous_cover_layer = layer;
        changed
    }

    /// Stops, and shuts the player down where the user asked for that.
    pub fn leave(&mut self, shutdown: bool)
        ensures
            final(self)@ == (LoopView {
                running: false,
                send_shutdown: shutdown || old(self)@.send_shutdown,
                ..old(self)@
            }),
    {
        if shutdown {
            self.send_shutdown = true;
        }
        self.running = false;
    }

    /// A command could not be sent.
    pub fn send_failed(&mut self, now: u64)
        ensures
            final(self)@ == old(self)@.disconnected(now),
    {
        self.view.messages.set_status_msg(
            Some(Notice::plain(NoticeKind::DaemonDisconnected)),
            now,
        );
        self.running = false;
    }

    /// What came from the player.
    pub fn hear(&mut self, event: ServerEvent, now: u64)
        ensures
            final(self)@ == old(self)@.heard(event, now),
    {
        proof {
            reveal(LoopView::heard);
        }
        match event {
            ServerEvent::Message(ServerMessage::Snapshot(snap)) => {
                self.view.update_from_snapshot(*snap, now);
                match self.pending_ui_session {
                    Some(session) => {
                        self.view.restore_queue_view(session);
                    },
                    None => {},
                }
                self.pending_ui_session = None;
            },
            ServerEvent::Message(ServerMessage::Error(err)) => {
                self.view.messages.set_status_msg(
                    Some(Notice::about(NoticeKind::ServerError, err)),
                    now,
                );
            },
            ServerEvent::Unreadable(err) => {
                self.view.messages.set_status_msg(
                    Some(Notice::about(NoticeKind::CommunicationError, err)),
                    now,
                );
            },
            ServerEvent::Disconnected => {
                self.send_failed(now);
            },
            ServerEvent::Quiet => {},
        }
    }

    /// A newer version was found.
    pub fn offer_update(&mut self, version: String, download_url: String)
        ensures
            final(self)@ == old(self)@.offered(version, download_url),
    {
        if self.update_check_done {
            return;
        }
        if self.view.layers.overlay.is_none() {
            self.view.layers.overlay = Some(
                Overlay::UpdateAvailable { version, download_url, selected: 0 },
            );
        }
        self.update_check_done = true;
    }

    /// An update begins.
    pub fn update_started(&mut self, version: String)
        ensures
            final(self)@ == (LoopView {
                view: old(self)@.view.with_layers(
                    old(self)@.view.layers.shows(Overlay::Updating { version }),
                ),
                ..old(self)@
            }),
    {
        self.view.layers.overlay = Some(Overlay::Updating { version });
    }

    /// An update was tried.
    pub fn update_finished(&mut self, outcome: UpdateOutcome, now: u64)
        ensures
            final(self)@ == old(self)@.updated(outcome, now),
    {
        match outcome {
            UpdateOutcome::Installed => {
                self.running = false;
            },
            UpdateOutcome::Failed(err) => {
                self.view.layers.overlay = None;
                self.view.messages.show_toast(
                    Toast::error(Notice::about(NoticeKind::UpdateFailed, err), 5000, now),
                );
            },
        }
    }

    /// The browser login came back with a token.
    pub fn web_login_done(&mut self)
        ensures
            final(self)@ == (LoopView {
                view: ClientView {
                    login: client::state::LoginPaneView {
                        loading: true,
                        ..old(self)@.view.login
                    },
                    ..old(self)@.view
                },
                ..old(self)@
            }),
    {
        self.view.login.loading = true;
    }

    /// The navigation commands to send, which are taken off the list.
    pub fn take_nav_commands(&mut self) -> (r: Vec<crate::protocol::Command>)
        ensures
            r@ == old(self)@.view.layers.nav_commands,
            final(self)@ == (LoopView {
                view: old(self)@.view.with_layers(
                    LayersView { nav_commands: Seq::empty(), ..old(self)@.view.layers },
                ),
                ..old(self)@
            }),
    {
        let mut out: Vec<crate::protocol::Command> = Vec::new();
        std::mem::swap(&mut out, &mut self.view.layers.nav_commands);
        out
    }

    /// What the program is to do, which is taken off the list.
    pub fn take_effects(&mut self) -> (r: Vec<client::ClientEffect>)
        ensures
            client::effects_of(r@) == old(self)@.view.effects,
            final(self)@ == (LoopView {
                view: ClientView { effects: Seq::empty(), ..old(self)@.view },
                ..old(self)@
            }),
    {
        let mut out: Vec<client::ClientEffect> = Vec::new();
        std::mem::swap(&mut out, &mut self.view.effects);
        proof {
            assert(self.view@.effects =~= Seq::empty());
        }
        out
    }

    /// How putting a link on the clipboard went.
    pub fn link_copied(&mut self, error: Option<String>, now: u64)
        ensures
            final(self)@ == (LoopView {
                view: ClientView {
                    messages: old(self)@.view.messages.with_toast(
                        match error {
                            None => ToastView {
                                message: notice::plain(NoticeKind::LinkCopied),
                                created_at: now,
                                duration: 2000,
                                is_error: false,
                            },
                            Some(e) => ToastView {
                                message: notice::about(NoticeKind::ClipboardError, e@),
                                created_at: now,
                                duration: 3000,
                                is_error: false,
                            },
                        },
                    ),
                    ..old(self)@.view
                },
                ..old(self)@
            }),
    {
        match error {
            None => self.view.messages.show_toast(
                Toast::new(Notice::plain(NoticeKind::LinkCopied), 2000, now),
            ),
            Some(e) => self.view.messages.show_toast(
                Toast::new(Notice::about(NoticeKind::ClipboardError, e), 3000, now),
            ),
        }
    }
}

/// An earlier session's screen is reopened at most once.
pub proof fn sessions_are_restored_once(c: LoopView, snap: DaemonSnapshot, event: ServerEvent, now: u64)
    requires
        event == ServerEvent::Message(ServerMessage::Snapshot(Box::new(snap))),
    ensures
        c.heard(event, now).pending_ui_session is None,
        c.pending_ui_session is None ==> c.heard(event, now).view == c.view.received(snap, now),
{
    reveal(LoopView::heard);
}

/// No control code of a track's name reaches the terminal's title.
pub proof fn titles_hold_no_control_codes(view: ClientView, i: int)
    requires
        0 <= i < view.window_title().len(),
    ensures
        !text::control(view.window_title()[i]),
{
    reveal_strlit("deezer-tui");
    reveal_strlit("deezer-tui: ");
    reveal_strlit("▶");
    reveal_strlit("⏸");
    reveal_strlit("♥ ");
    reveal_strlit("");
    reveal_strlit(" ");
    reveal_strlit(" — ");
    match view.data.current_track {
        Some(track) => {
            assert forall|k: int| 0 <= k < text::sanitized(track.title@).len() implies !text::control(
                text::sanitized(track.title@)[k],
            ) by {
                text::sanitized_has_no_control(track.title@, k);
            }
            assert forall|k: int| 0 <= k < text::sanitized(track.artist@).len() implies !text::control(
                text::sanitized(track.artist@)[k],
            ) by {
                text::sanitized_has_no_control(track.artist@, k);
            }
        },
        None => {},
    }
}

} // verus!
