//! What the client promises of its session: messages and how long they are seen,
//! what it takes over from the player, and what a click does.

use vstd::prelude::*;

use crate::client;
use crate::client::clicks::{ClickTarget, RowsKind};
use crate::client::key_laws;
use crate::client::mouse;
use crate::client::mouse::{MouseEvent, MouseKind};
use crate::client::session::{LoopView, RestoredQueueView, ServerEvent, UiSession, UpdateOutcome};
use crate::client::state::{ClientView, MessagesView, MouseState, ToastView};
use crate::client::{
    ActionView, CommandView, InputMode, KeyCode, KeyContext, KeyEvent, LoginMode, Overlay,
};
use crate::models::TrackData;
use crate::notice::{NoticeKind, NoticeView};
use crate::player::PlaybackStatus;
use crate::protocol::{
    ActiveTab, Command, DaemonSnapshot, NavOverlay, Screen, ServerMessage,
};
use crate::text;

verus! {

// ── Messages ────────────────────────────────────────────────────────

/// A notification is seen for seven seconds and then no more; while the player
/// keeps sending the same one its time runs on, and another one takes its place.
pub proof fn notifications_are_seen_for_seven_seconds(
    m: MessagesView,
    msg: NoticeView,
    other: NoticeView,
    now: u64,
    later: u64,
)
    requires
        now <= later,
    ensures
        ({
            let shown = m.with_status(Some(msg), now);
            &&& later - now < 7000 ==> shown.visible(later) == Some(msg)
            &&& later - now >= 7000 ==> shown.visible(later) is None
            &&& shown.received(Some(msg), later) == shown
            &&& other != msg ==> shown.received(Some(other), later).visible(later) == Some(other)
            &&& shown.received(None, later).visible(later) is None
            &&& shown.toast == m.toast
        }),
        m.with_status(None, now).visible(later) is None,
{
}

/// A toast is up until its time is over, and not a moment longer.
pub proof fn toasts_are_up_for_their_time(m: MessagesView, toast: ToastView, now: u64)
    requires
        toast.created_at <= now,
    ensures
        ({
            let r = m.with_toast(toast).expired(now);
            &&& now - toast.created_at < toast.duration ==> r.toast == Some(toast)
            &&& now - toast.created_at >= toast.duration ==> r.toast is None
            &&& r.status_msg == m.status_msg
        }),
{
}

// ── What the player sends ───────────────────────────────────────────

/// A snapshot is taken over as it is: the lists and cursors that are the player's
/// are those that it sent. What the user typed and the page that is open stay, as
/// long as the user stays logged in.
pub proof fn snapshots_are_taken_over(v: ClientView, snap: DaemonSnapshot, now: u64)
    requires
        v.layers.nav_synced_from_daemon,
    ensures
        ({
            let r = v.received(snap, now);
            let stays = v.data.screen == snap.screen;
            &&& r.data == snap
            &&& r.tabs.search_selected == snap.search_selected
            &&& r.tabs.new_releases_selected == snap.new_releases_selected
            &&& r.tabs.favorites.track_ids == snap.favorite_track_ids@
            &&& r.tabs.favorites.tracks == snap.favorites@
            &&& r.tabs.favorites.selected == snap.favorites_selected
            &&& snap.playlists@.len() > 0 ==> r.playlists == snap.playlists@
            &&& snap.playlists@.len() == 0 ==> r.playlists == v.playlists
            &&& r.search_input == v.search_input
            &&& stays ==> r.input_mode == v.input_mode
            &&& stays ==> r.login.loading == snap.login_loading
            &&& stays ==> r.login.input == v.login.input
            &&& r.pages == v.pages
            &&& stays && v.data.favorites_category == snap.favorites_category
                ==> r.tabs.favorites.filter_input == v.tabs.favorites.filter_input
            &&& stays && v.data.favorites_category != snap.favorites_category
                ==> r.tabs.favorites.filter_input.len() == 0 && !r.tabs.favorites.filter_typing
            &&& v.data.screen == Screen::Login && snap.screen == Screen::Main ==> r.input_mode
                == InputMode::Normal
            &&& r.theme == v.theme && r.vim_keys == v.vim_keys
        }),
{
    reveal(ClientView::received);
    reveal(ClientView::took_lists);
    reveal(ClientView::took_rest);
    reveal(ClientView::switched);
}

/// A client that starts shows what the player shows: its lists and cursors, and
/// the page that was open, with nothing typed.
pub proof fn a_client_starts_where_the_player_is(
    snap: DaemonSnapshot,
    vim_keys: bool,
    theme: crate::theme::Theme,
    now: u64,
    mouse: MouseState,
)
    ensures
        ({
            let r = client::updates::first_view(snap, vim_keys, theme, now, mouse);
            &&& r.data == snap
            &&& r.tabs.search_selected == snap.search_selected
            &&& r.tabs.moods == snap.moods@
            &&& r.tabs.radios.items == snap.radios@
            &&& r.tabs.genres.items == snap.genres@
            &&& r.tabs.favorites.track_ids == snap.favorite_track_ids@
            &&& r.tabs.offline.selected == snap.offline_selected
            &&& r.pages.album.selected == snap.album_detail_selected
            &&& r.pages.artist.selected == snap.artist_detail_selected
            &&& r.pages.artist_sub_tab == snap.artist_detail_sub_tab
            &&& r.playlists == snap.playlists@
            &&& r.layers.popup is None
            &&& r.layers.overlay == (match snap.nav_overlay {
                Some(NavOverlay::ArtistDetail) => Some(Overlay::ArtistDetail),
                Some(NavOverlay::AlbumDetail { from_artist }) => Some(
                    Overlay::AlbumDetail { from_artist },
                ),
                Some(NavOverlay::PlaylistDetail) => Some(Overlay::PlaylistDetail { selected: 0 }),
                Some(NavOverlay::GenreDetail) => Some(
                    Overlay::GenreDetail {
                        sub_tab: crate::protocol::GenreDetailSubTab::Tracks,
                        selected: 0,
                    },
                ),
                None => None,
            })
            &&& r.layers.overlay_stack.len() == snap.nav_overlay_stack@.len()
            &&& r.input_mode == InputMode::Normal
            &&& r.search_input.len() == 0
            &&& r.login.mode == LoginMode::Button
            &&& r.login.loading == snap.login_loading
            &&& r.vim_keys == vim_keys
            &&& r.theme == theme
        }),
{
}

/// What comes from the player is heard: a snapshot is shown, an error is reported
/// with its words, and a lost connection ends the client.
pub proof fn the_player_is_heard(c: LoopView, snap: DaemonSnapshot, err: String, now: u64)
    ensures
        c.heard(ServerEvent::Message(ServerMessage::Snapshot(Box::new(snap))), now).view.data
            == snap,
        c.heard(
            ServerEvent::Message(ServerMessage::Snapshot(Box::new(snap))),
            now,
        ).pending_ui_session is None,
        ({
            let r = c.heard(ServerEvent::Message(ServerMessage::Error(err)), now);
            &&& r.view.messages.status_msg == Some(
                NoticeView { kind: NoticeKind::ServerError, detail: err@, count: 0 },
            )
            &&& r.view.data == c.view.data
            &&& r.running == c.running
        }),
        ({
            let r = c.heard(ServerEvent::Unreadable(err), now);
            &&& r.view.messages.status_msg == Some(
                NoticeView { kind: NoticeKind::CommunicationError, detail: err@, count: 0 },
            )
            &&& r.running == c.running
        }),
        !c.heard(ServerEvent::Disconnected, now).running,
        c.heard(ServerEvent::Quiet, now) == c,
{
    reveal(ClientView::received);
    reveal(ClientView::took_lists);
    reveal(ClientView::took_rest);
    reveal(ClientView::switched);
    reveal(LoopView::heard);
    let updated = c.view.received(snap, now);
    assert(updated.data == snap);
}

/// A queue screen of an earlier session comes back at its row, kept inside the
/// queue, and only while there is a queue.
pub proof fn queue_screens_come_back(v: ClientView, session: UiSession)
    ensures
        ({
            let r = v.queue_restored(session);
            let len = v.data.queue@.len();
            let row = if session.selected < len {
                session.selected
            } else {
                (len - 1) as usize
            };
            let back = session.queue_view is Some && v.data.screen == Screen::Main && len > 0;
            &&& !back ==> r == v
            &&& back && session.queue_view->0 == RestoredQueueView::NowPlaying
                ==> r.layers.overlay == Some(Overlay::NowPlaying { selected: row })
            &&& back && session.queue_view->0 == RestoredQueueView::WaitingList
                ==> r.layers.overlay == Some(Overlay::WaitingList { selected: row })
            &&& r.data == v.data
        }),
{
}

/// A newer version is offered once, and not over something that is open.
pub proof fn updates_are_offered_once(c: LoopView, version: String, download_url: String)
    ensures
        ({
            let r = c.offered(version, download_url);
            &&& r.update_check_done
            &&& c.update_check_done ==> r == c
            &&& !c.update_check_done && c.view.layers.overlay is None ==> r.view.layers.overlay
                == Some(Overlay::UpdateAvailable { version, download_url, selected: 0 })
            &&& c.view.layers.overlay is Some ==> r.view == c.view
            &&& r.offered(version, download_url) == r
        }),
{
}

/// An update that was installed ends the client, which starts anew; one that
/// failed is reported and leaves it running.
pub proof fn updates_end_or_are_reported(c: LoopView, err: String, now: u64)
    ensures
        !c.updated(UpdateOutcome::Installed, now).running,
        ({
            let r = c.updated(UpdateOutcome::Failed(err), now);
            &&& r.running == c.running
            &&& r.view.layers.overlay is None
            &&& r.view.messages.toast is Some
            &&& r.view.messages.toast->0.message == (NoticeView {
                kind: NoticeKind::UpdateFailed,
                detail: err@,
                count: 0,
            })
            &&& r.view.messages.toast->0.is_error
        }),
{
}

/// The window is titled by what plays: a sign for playing or paused, a heart for a
/// favorite, the title and the artist; and by the program's name where nothing
/// does.
pub proof fn the_window_is_titled_by_what_plays(v: ClientView, track: TrackData)
    ensures
        v.data.current_track == Some(track) && !v.tabs.favorites.likes(track.track_id@) ==> {
            &&& v.data.status == PlaybackStatus::Playing ==> v.window_title()
                == "deezer-tui: "@ + "▶"@ + " "@ + ""@ + text::sanitized(track.title@) + " — "@
                + text::sanitized(track.artist@)
            &&& v.data.status == PlaybackStatus::Paused ==> v.window_title()
                == "deezer-tui: "@ + "⏸"@ + " "@ + ""@ + text::sanitized(track.title@) + " — "@
                + text::sanitized(track.artist@)
        },
        v.data.current_track == Some(track) && v.tabs.favorites.likes(track.track_id@)
            && v.data.status == PlaybackStatus::Playing ==> v.window_title() == "deezer-tui: "@
            + "▶"@ + " "@ + "♥ "@ + text::sanitized(track.title@) + " — "@ + text::sanitized(
            track.artist@,
        ),
        v.data.current_track is None || v.data.status == PlaybackStatus::Stopped || v.data.status
            == PlaybackStatus::Loading ==> v.window_title() == "deezer-tui"@,
{
}

// ── Clicks ──────────────────────────────────────────────────────────

/// Two clicks are a double click when they hit the same row, at most two columns
/// apart, within four tenths of a second.
pub proof fn double_clicks_are_quick_and_close(
    last: (u16, u16, u64),
    col: u16,
    row: u16,
    now: u64,
)
    requires
        last.2 <= now,
    ensures
        mouse::is_double(Some(last), col, row, now) <==> (last.1 == row && -2 <= last.0 - col <= 2
            && now - last.2 < 400),
        !mouse::is_double(None, col, row, now),
{
}

/// Nothing is open over the main view, and the mouse hits this widget.
pub open spec fn clicks_widget(v: ClientView, col: u16, row: u16, target: ClickTarget) -> bool {
    &&& v.data.screen == Screen::Main
    &&& v.layers.popup is None
    &&& v.layers.overlay is None
    &&& v.mouse.click@.modal is None
    &&& v.hit(col, row) == Some(target)
}

/// A left click.
pub open spec fn left(v: ClientView, col: u16, row: u16, ctx: KeyContext) -> (
    ClientView,
    ActionView,
) {
    v.moused(MouseEvent { kind: MouseKind::LeftDown, column: col, row }, ctx)
}

/// A click on a widget sends what the widget stands for: the tab, the category,
/// Flow, the shuffled favorites, or the heart of the playing track.
pub proof fn widgets_send_what_they_stand_for(
    v: ClientView,
    col: u16,
    row: u16,
    tab: ActiveTab,
    index: usize,
    ctx: KeyContext,
)
    ensures
        clicks_widget(v, col, row, ClickTarget::Tab(tab)) ==> left(v, col, row, ctx).1 == (
        if v.data.is_offline {
            ActionView::Continue
        } else {
            key_laws::sent(Command::SetTab { tab })
        }),
        clicks_widget(v, col, row, ClickTarget::Category(index)) ==> left(v, col, row, ctx).1
            == key_laws::sent(Command::SetCategory { index }),
        clicks_widget(v, col, row, ClickTarget::FlowChip) ==> left(v, col, row, ctx).1
            == key_laws::sent(Command::StartFlow),
        clicks_widget(v, col, row, ClickTarget::ShuffleFavorites) ==> left(v, col, row, ctx).1
            == key_laws::sent(Command::ShuffleFavorites),
        clicks_widget(v, col, row, ClickTarget::ToggleLikeCurrentTrack) && v.data.current_track
            is Some ==> left(v, col, row, ctx).1 == key_laws::sent(
            if v.likes(v.data.current_track->0.track_id@) {
                Command::RemoveFavorite { track_id: v.data.current_track->0.track_id }
            } else {
                Command::AddFavorite { track_id: v.data.current_track->0.track_id }
            },
        ),
        clicks_widget(v, col, row, ClickTarget::FilterInput) && v.data.active_tab
            == ActiveTab::Search ==> left(v, col, row, ctx).0.input_mode == InputMode::Typing
            && left(v, col, row, ctx).0.search_input == v.search_input,
{
    reveal(ClientView::moused);
    reveal(ClientView::left_click);
    reveal(ClientView::page_clicked);
    reveal(ClientView::activated);
    reveal(ClientView::blurred);
    reveal(ClientView::filter_focused);
}

/// A click on a row of the search results selects it, here and at the player; the
/// second click of a double click then plays it or opens its page, as Enter does.
pub proof fn rows_are_clicked(
    v: ClientView,
    col: u16,
    row: u16,
    index: usize,
    ctx: KeyContext,
)
    requires
        v.data.screen == Screen::Main,
        v.layers.popup is None,
        v.layers.overlay is None,
        v.mouse.click@.modal is None,
        v.hit(col, row) is None,
        v.row_at(col, row) == Some((RowsKind::Tab, index)),
        v.data.active_tab == ActiveTab::Search,
        index < v.data.search_display@.len(),
    ensures
        ({
            let (after, action) = left(v, col, row, ctx);
            let again = mouse::is_double(v.mouse.last_click, col, row, ctx.now);
            &&& !again ==> after.tabs.search_selected == index && action == key_laws::sent(
                Command::SelectIndex { index },
            ) && after.layers.overlay is None
            &&& again && v.data.search_display@[index as int].track is Some ==> action
                == ActionView::Multi(
                seq![
                    CommandView::Plain(Command::SelectIndex { index }),
                    CommandView::Plain(Command::PlayFromSearch { index }),
                ],
            )
        }),
{
    reveal(ClientView::moused);
    reveal(ClientView::left_click);
    reveal(ClientView::page_clicked);
    reveal(ClientView::row_clicked);
    reveal(ClientView::row_selected);
    let clicked = v.clicked(col, row, ctx.now);
    let focused = clicked.blurred();
    assert(key_laws::at_rest(focused) && focused.data == v.data) by {
        reveal(ClientView::blurred);
    }
    let selected = focused.row_selected(RowsKind::Tab, index).0;
    key_laws::enter_plays_or_opens_the_row(
        selected,
        v.data.search_display@[index as int],
        ctx,
    );
}

/// A turn of the wheel is an arrow key: down scrolls down.
pub proof fn the_wheel_is_an_arrow_key(v: ClientView, col: u16, row: u16, ctx: KeyContext)
    requires
        key_laws::at_rest(v),
        v.hit(col, row) is None,
    ensures
        v.moused(MouseEvent { kind: MouseKind::ScrollDown, column: col, row }, ctx)
            == v.blurred().key(KeyEvent { code: KeyCode::Down, ctrl: false }, ctx),
        v.moused(MouseEvent { kind: MouseKind::ScrollUp, column: col, row }, ctx)
            == v.blurred().key(KeyEvent { code: KeyCode::Up, ctrl: false }, ctx),
{
    reveal(ClientView::moused);
    reveal(ClientView::wheel);
}

// ── Artwork ─────────────────────────────────────────────────────────

/// The artwork is that of the page that bears one: the album's cover, or on the
/// playback page the cover of the track that plays. Without such a page, or without
/// a picture, there is none.
pub proof fn the_artwork_is_the_page_s(
    v: ClientView,
    from_artist: bool,
    selected: usize,
    track: TrackData,
)
    ensures
        v.layers.overlay == Some(Overlay::AlbumDetail { from_artist }) && v.data.album_detail
            is Some ==> v.cover() == (if v.data.album_detail->0.cover_url@.len() > 0 {
            Some(v.data.album_detail->0.cover_url@)
        } else {
            None
        }),
        v.layers.overlay == Some(Overlay::NowPlaying { selected }) && v.data.current_track == Some(
            track,
        ) ==> v.cover() == (if track.album_picture@.len() > 0 {
            Some(
                "https://e-cdns-images.dzcdn.net/images/cover/"@ + track.album_picture@
                    + "/500x500-000000-80-0-0.jpg"@,
            )
        } else {
            None
        }),
        v.layers.overlay is None && v.layers.overlay_stack.len() == 0 ==> v.cover() is None,
{
}

} // verus!
