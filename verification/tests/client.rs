use deezer_tui::client::clicks::{ClickTarget, Rect, RowsArea, RowsKind};
use deezer_tui::client::mouse::{MouseEvent, MouseKind};
use deezer_tui::client::popup::{PopupMenu, SubMenu};
use deezer_tui::client::session::{
    cover_step, Client, CoverStep, ServerEvent, UiSession, UpdateOutcome,
};
use deezer_tui::client::state::{Toast, ViewState};
use deezer_tui::client::{ClientEffect, InputMode, KeyAction, KeyCode, KeyContext, KeyEvent, Overlay};
use deezer_tui::models::{DisplayItem, OfflineTrack, PlaylistData, PlaylistDetail, TrackData};
use deezer_tui::notice::{Notice, NoticeKind};
use deezer_tui::player::PlaybackStatus;
use deezer_tui::protocol::{
    ActiveTab, Command, DaemonSnapshot, ExploreCategory, FavoritesCategory, NavOverlay, RadioItem,
    Screen, ServerMessage,
};
use deezer_tui::theme::{Theme, ThemeId};

fn theme() -> Theme {
    Theme::new(ThemeId::DarkPurple, 0, false)
}

fn default_view() -> ViewState {
    ViewState::from_snapshot(DaemonSnapshot::default(), false, theme(), 0)
}

fn main_view(tab: ActiveTab) -> ViewState {
    let snap = DaemonSnapshot {
        screen: Screen::Main,
        active_tab: tab,
        ..DaemonSnapshot::default()
    };
    ViewState::from_snapshot(snap, false, theme(), 0)
}

fn ctx() -> KeyContext {
    KeyContext {
        now: 0,
        omarchy: false,
        locale: 0,
        locales: 2,
    }
}

fn track(id: &str, title: &str, artist: &str) -> TrackData {
    TrackData {
        track_id: id.to_string(),
        title: title.to_string(),
        artist: artist.to_string(),
        album: String::new(),
        duration: 0,
        album_picture: String::new(),
        artist_id: None,
        album_id: None,
        track_token: None,
        md5_origin: String::new(),
        stream_url: None,
        fallback_id: None,
    }
}

fn key(code: KeyCode) -> KeyEvent {
    KeyEvent::from(code)
}

fn shown(action: &KeyAction) -> String {
    format!("{action:?}")
}

fn rows(y: u16, height: u16, offset: usize, len: usize) -> RowsArea {
    RowsArea {
        area: Rect {
            x: 0,
            y,
            width: 40,
            height,
        },
        offset,
        len,
        kind: RowsKind::Tab,
    }
}

#[test]
fn terminal_title_marks_favorites_with_a_heart() {
    let track = track("42", "Song", "Artist");
    assert_eq!(
        Client::terminal_title("▶", &track, true),
        "deezer-tui: ▶ ♥ Song — Artist"
    );
    assert_eq!(
        Client::terminal_title("⏸", &track, false),
        "deezer-tui: ⏸ Song — Artist"
    );
}

/// A raw BEL in the metadata would terminate the OSC title string early.
#[test]
fn terminal_title_strips_control_characters() {
    let track = track("42", "So\x07ng", "Art\nist");
    let title = Client::terminal_title("▶", &track, true);
    assert!(!title.contains('\x07') && !title.contains('\n'), "{title}");
}

#[test]
fn row_index_accounts_for_scroll_offset() {
    let rows = rows(5, 4, 10, 20);
    assert_eq!(rows.index_at(0, 4), None, "above the first row");
    assert_eq!(rows.index_at(0, 5), Some(10));
    assert_eq!(rows.index_at(0, 8), Some(13));
    assert_eq!(rows.index_at(0, 9), None, "below the last visible row");
}

#[test]
fn row_index_ignores_clicks_past_the_last_item() {
    // Three items drawn in a four-row area: the empty row is not clickable.
    let rows = rows(0, 4, 0, 3);
    assert_eq!(rows.index_at(0, 2), Some(2));
    assert_eq!(rows.index_at(0, 3), None);
}

#[test]
fn every_filter_input_suppresses_single_letter_shortcuts() {
    // `i` and `?` are handled before the per-screen dispatch, so every filter
    // flag must be reported here — the offline playlist filter was missing and
    // swallowed `i` into the info modal (issue #28).
    let mut view = default_view();
    assert!(!view.is_text_input_active());

    let flags: [fn(&mut ViewState, bool); 6] = [
        |v, b| v.tabs.radios.typing = b,
        |v, b| v.tabs.genres.typing = b,
        |v, b| v.tabs.favorites.filter_typing = b,
        |v, b| v.tabs.offline.filter_typing = b,
        |v, b| v.tabs.offline.detail_filter_typing = b,
        |v, b| v.pages.playlist_filter_typing = b,
    ];
    for set in flags {
        set(&mut view, true);
        assert!(view.is_text_input_active());
        set(&mut view, false);
        assert!(!view.is_text_input_active());
    }

    view.input_mode = InputMode::Typing;
    assert!(view.is_text_input_active());
}

#[test]
fn cover_layer_changes_for_nested_dialogs_but_not_selection() {
    let mut view = default_view();
    view.layers.overlay = Some(Overlay::Settings { selected: 0 });
    let settings = view.cover_layer();

    view.layers.overlay = Some(Overlay::Settings { selected: 2 });
    assert_eq!(view.cover_layer(), settings);

    view.layers.overlay = Some(Overlay::QualityPicker { selected: 2 });
    assert_ne!(view.cover_layer(), settings);

    view.layers.overlay = Some(Overlay::AlbumDetail { from_artist: false });
    assert_eq!(view.cover_layer(), None);
}

#[test]
fn queue_view_session_ignores_transient_dialogs_and_clamps_selection() {
    let mut view = default_view();
    view.data.queue = vec![track("1", "Song", "Artist")];
    view.data.screen = Screen::Main;
    view.layers.overlay_stack = vec![Overlay::NowPlaying { selected: 99 }];
    view.layers.overlay = Some(Overlay::Settings { selected: 2 });

    let session = UiSession::from_view(&view);
    view.layers.overlay = None;
    view.layers.overlay_stack.clear();
    view.restore_queue_view(session);

    assert_eq!(view.layers.overlay, Some(Overlay::NowPlaying { selected: 0 }));
    assert!(view.layers.overlay_stack.is_empty());
}

#[test]
fn playlist_detail_filter_maps_to_original_indices() {
    let mut view = default_view();
    view.data.playlist_detail = Some(PlaylistDetail {
        playlist_id: "1".into(),
        title: "Mix".into(),
        creator: "Me".into(),
        nb_tracks: 3,
        tracks: vec![
            track("10", "Alpha", "A"),
            track("20", "Beta", "B"),
            track("30", "Alfetta", "C"),
        ],
    });

    // No filter → every track, identity indices.
    let all = view.playlist_detail_tracks_filtered();
    assert_eq!(all.iter().map(|(i, _)| *i).collect::<Vec<_>>(), [0, 1, 2]);

    // A filter that matches a single title keeps that track's real index,
    // so playback targets the right position in the full playlist.
    view.pages.playlist_filter_input = "beta".into();
    let filtered = view.playlist_detail_tracks_filtered();
    assert_eq!(filtered.len(), 1);
    assert_eq!(filtered[0].0, 1);
    assert_eq!(filtered[0].1.title, "Beta");
}

#[test]
fn is_track_favorite_checks_favorite_ids_and_favorites_list() {
    let mut view = default_view();
    assert!(!view.is_track_favorite("123"));

    view.tabs.favorites.track_ids.push("123".into());
    assert!(view.is_track_favorite("123"));
    assert!(!view.is_track_favorite("456"));

    let snap = DaemonSnapshot {
        favorite_track_ids: vec!["456".into()],
        ..DaemonSnapshot::default()
    };
    view.update_from_snapshot(snap, 0);
    assert!(!view.is_track_favorite("123"));
    assert!(view.is_track_favorite("456"));
}

#[test]
fn vim_keys_navigation_behavior() {
    let mut view = default_view();
    assert!(!view.vim_keys);

    // Arrows always work
    assert!(view.is_nav_up(KeyCode::Up));
    assert!(view.is_nav_down(KeyCode::Down));
    assert!(view.is_nav_left(KeyCode::Left));
    assert!(view.is_nav_right(KeyCode::Right));

    // Vim keys disabled by default
    assert!(!view.is_nav_up(KeyCode::Char('k')));
    assert!(!view.is_nav_down(KeyCode::Char('j')));
    assert!(!view.is_nav_left(KeyCode::Char('h')));
    assert!(!view.is_nav_right(KeyCode::Char('l')));

    // Enable vim keys
    view.vim_keys = true;
    assert!(view.is_nav_up(KeyCode::Char('k')));
    assert!(view.is_nav_down(KeyCode::Char('j')));
    assert!(view.is_nav_left(KeyCode::Char('h')));
    assert!(view.is_nav_right(KeyCode::Char('l')));
    assert!(view.is_nav_up(KeyCode::Up));
}

#[test]
fn confirm_remove_favorite_popup_structure() {
    let track = track("999", "Test Track", "Test Artist");
    let popup = PopupMenu::confirm_remove_favorite(track);
    assert_eq!(popup.track().unwrap().track_id, "999");
    assert!(popup.is_favorite);
    match popup.sub_menu {
        Some(SubMenu::ConfirmRemoveFavorite { confirm_yes }) => {
            assert!(!confirm_yes);
        }
        _ => panic!("Expected ConfirmRemoveFavorite sub_menu"),
    }
}

#[test]
fn typed_letters_go_into_the_search_box() {
    let mut view = main_view(ActiveTab::Search);
    let _ = view.handle_key(key(KeyCode::Char('/')), ctx());
    assert_eq!(view.input_mode, InputMode::Typing);
    for c in "iq?".chars() {
        let action = view.handle_key(key(KeyCode::Char(c)), ctx());
        assert!(matches!(action, KeyAction::Continue), "{}", shown(&action));
    }
    assert_eq!(view.search_input, "iq?");
    assert!(view.layers.overlay.is_none());
    let action = view.handle_key(key(KeyCode::Enter), ctx());
    assert!(
        matches!(&action, KeyAction::SendCommand(Command::Search { query }) if query == "iq?"),
        "{}",
        shown(&action)
    );
}

#[test]
fn control_c_detaches_from_anywhere() {
    let ctrl_c = KeyEvent {
        code: KeyCode::Char('c'),
        ctrl: true,
    };
    let mut view = main_view(ActiveTab::Search);
    assert!(matches!(view.handle_key(ctrl_c, ctx()), KeyAction::Detach));
    view.layers.overlay = Some(Overlay::Settings { selected: 0 });
    assert!(matches!(view.handle_key(ctrl_c, ctx()), KeyAction::Detach));
    let mut login = default_view();
    assert!(matches!(login.handle_key(ctrl_c, ctx()), KeyAction::Detach));
}

#[test]
fn help_opens_and_closes_with_a_question_mark() {
    let mut view = main_view(ActiveTab::Search);
    let _ = view.handle_key(key(KeyCode::Char('?')), ctx());
    assert_eq!(view.layers.overlay, Some(Overlay::Help { scroll: 0 }));
    let _ = view.handle_key(key(KeyCode::Char('?')), ctx());
    assert_eq!(view.layers.overlay, None);
}

#[test]
fn vim_keys_do_what_the_arrows_do() {
    for (letter, arrow) in [('j', KeyCode::Down), ('k', KeyCode::Up)] {
        let mut by_letter = main_view(ActiveTab::Search);
        by_letter.vim_keys = true;
        let mut by_arrow = main_view(ActiveTab::Search);
        by_arrow.vim_keys = true;
        assert_eq!(
            shown(&by_letter.handle_key(key(KeyCode::Char(letter)), ctx())),
            shown(&by_arrow.handle_key(key(arrow), ctx()))
        );
    }
}

#[test]
fn without_a_connection_only_the_downloads_are_shown() {
    let snap = DaemonSnapshot {
        screen: Screen::Main,
        active_tab: ActiveTab::Downloads,
        is_offline: true,
        ..DaemonSnapshot::default()
    };
    let mut view = ViewState::from_snapshot(snap, false, theme(), 0);
    let action = view.handle_key(key(KeyCode::Tab), ctx());
    assert!(matches!(action, KeyAction::Continue), "{}", shown(&action));
}

#[test]
fn favorites_are_removed_after_a_question() {
    let mut view = main_view(ActiveTab::Favorites);
    view.data.favorites_category = FavoritesCategory::Tracks;
    let liked = track("7", "Seven", "Artist");
    view.data.favorites_display = vec![DisplayItem::from_track(&liked)];
    view.tabs.favorites.tracks = vec![liked];
    view.tabs.favorites.track_ids = vec!["7".into()];

    let action = view.toggle_like_focused_or_playing();
    assert!(matches!(action, KeyAction::Continue), "{}", shown(&action));
    assert!(view.is_track_favorite("7"), "nothing is removed before the answer");
    assert!(view.layers.popup.is_some());

    let action = view.handle_key(key(KeyCode::Char('y')), ctx());
    assert!(
        matches!(&action, KeyAction::SendCommand(Command::RemoveFavorite { track_id }) if track_id == "7"),
        "{}",
        shown(&action)
    );
    assert!(view.layers.popup.is_none());
}

#[test]
fn the_playing_track_stays_in_the_queue() {
    let mut view = main_view(ActiveTab::Search);
    view.data.queue = vec![track("1", "One", "A"), track("2", "Two", "A")];
    view.data.queue_index = 0;
    view.layers.overlay = Some(Overlay::WaitingList { selected: 0 });
    let action = view.handle_key(key(KeyCode::Delete), ctx());
    assert!(matches!(action, KeyAction::Continue), "{}", shown(&action));

    view.layers.overlay = Some(Overlay::WaitingList { selected: 1 });
    let action = view.handle_key(key(KeyCode::Delete), ctx());
    assert!(
        matches!(action, KeyAction::SendCommand(Command::RemoveFromQueue { index: 1 })),
        "{}",
        shown(&action)
    );
}

#[test]
fn queue_rows_play_what_they_show() {
    let mut view = main_view(ActiveTab::Search);
    view.data.queue = vec![track("1", "One", "A"), track("2", "Two", "A")];
    view.layers.overlay = Some(Overlay::WaitingList { selected: 1 });
    let action = view.handle_key(key(KeyCode::Enter), ctx());
    assert!(
        matches!(action, KeyAction::SendCommand(Command::PlayFromQueue { index: 1 })),
        "{}",
        shown(&action)
    );
}

#[test]
fn a_filtered_playlist_plays_the_row_it_shows() {
    let mut view = main_view(ActiveTab::Search);
    view.data.playlist_detail = Some(PlaylistDetail {
        playlist_id: "1".into(),
        title: "Mix".into(),
        creator: "Me".into(),
        nb_tracks: 2,
        tracks: vec![track("10", "Alpha", "A"), track("20", "Beta", "B")],
    });
    view.pages.playlist_filter_input = "BETA".into();
    view.layers.overlay = Some(Overlay::PlaylistDetail { selected: 0 });
    let action = view.handle_key(key(KeyCode::Enter), ctx());
    assert!(
        matches!(action, KeyAction::SendCommand(Command::PlayFromPlaylist { index: 1 })),
        "{}",
        shown(&action)
    );
}

#[test]
fn volume_keys_step_and_cancel_out() {
    let mut view = main_view(ActiveTab::Search);
    view.data.volume = 500;
    let up = view.player_control_action(KeyCode::Char('+'));
    assert!(
        matches!(up, KeyAction::SendCommand(Command::SetVolume { volume: 550 })),
        "{}",
        shown(&up)
    );
    view.data.volume = 550;
    let down = view.player_control_action(KeyCode::Char('-'));
    assert!(
        matches!(down, KeyAction::SendCommand(Command::SetVolume { volume: 500 })),
        "{}",
        shown(&down)
    );
}

#[test]
fn a_station_filter_plays_the_station_it_shows() {
    let mut view = main_view(ActiveTab::Explore);
    view.data.explore_category = ExploreCategory::Radios;
    view.tabs.radios.items = vec![
        RadioItem { id: 5, title: "Rock".into() },
        RadioItem { id: 6, title: "Jazz".into() },
    ];
    view.tabs.radios.apply();
    assert_eq!(view.tabs.radios.shown.len(), 2, "an empty filter shows all");
    view.tabs.radios.focus(true);
    for c in "JZ".chars() {
        view.tabs.radios.type_char(c);
    }
    assert_eq!(view.tabs.radios.shown.len(), 1);
    assert_eq!(view.tabs.radios.shown[0].id, 6);
    view.tabs.radios.leave();
    let action = view.handle_key(key(KeyCode::Enter), ctx());
    assert!(
        matches!(action, KeyAction::SendCommand(Command::PlayFromRadio { index: 1 })),
        "{}",
        shown(&action)
    );
}

#[test]
fn opened_layers_close_in_turn() {
    let mut view = main_view(ActiveTab::Search);
    view.layers.push_overlay(Overlay::Settings { selected: 1 });
    view.layers.push_overlay(Overlay::ThemePicker { selected: 2 });
    assert_eq!(view.layers.overlay, Some(Overlay::ThemePicker { selected: 2 }));
    view.layers.pop_overlay();
    assert_eq!(view.layers.overlay, Some(Overlay::Settings { selected: 1 }));
    view.layers.pop_overlay();
    assert_eq!(view.layers.overlay, None);
}

#[test]
fn pages_come_back_from_the_player() {
    for nav in [
        NavOverlay::ArtistDetail,
        NavOverlay::AlbumDetail { from_artist: true },
        NavOverlay::PlaylistDetail,
        NavOverlay::GenreDetail,
    ] {
        assert_eq!(nav.to_overlay().to_nav(), Some(nav));
    }
    assert_eq!(Overlay::Info.to_nav(), None);

    let snap = DaemonSnapshot {
        screen: Screen::Main,
        nav_overlay: Some(NavOverlay::PlaylistDetail),
        ..DaemonSnapshot::default()
    };
    let view = ViewState::from_snapshot(snap, false, theme(), 0);
    assert_eq!(
        view.layers.overlay,
        Some(Overlay::PlaylistDetail { selected: 0 })
    );
}

#[test]
fn logging_out_closes_every_layer() {
    let mut view = main_view(ActiveTab::Search);
    view.layers.push_overlay(Overlay::Settings { selected: 1 });
    view.update_from_snapshot(DaemonSnapshot::default(), 0);
    assert_eq!(view.layers.overlay, None);
    assert!(view.layers.overlay_stack.is_empty());
}

#[test]
fn notices_disappear_and_do_not_return() {
    let mut view = main_view(ActiveTab::Search);
    let notice = Notice::plain(NoticeKind::TrackDisliked);
    let snap = || DaemonSnapshot {
        screen: Screen::Main,
        status_msg: Some(Notice::plain(NoticeKind::TrackDisliked)),
        ..DaemonSnapshot::default()
    };
    view.update_from_snapshot(snap(), 1_000);
    assert!(view.messages.visible_status_msg(7_999).is_some());
    assert!(view.messages.visible_status_msg(8_001).is_none());
    view.update_from_snapshot(snap(), 9_000);
    assert!(view.messages.visible_status_msg(9_000).is_none());

    view.messages.show_toast(Toast::new(notice, 3_000, 0));
    view.messages.expire(2_999);
    assert!(view.messages.toast.is_some());
    view.messages.expire(3_000);
    assert!(view.messages.toast.is_none());
}

#[test]
fn liking_twice_changes_nothing() {
    let mut view = main_view(ActiveTab::Search);
    let first = view.toggle_track_favorite(&"9".to_string());
    assert!(view.is_track_favorite("9"));
    assert!(
        matches!(&first, KeyAction::SendCommand(Command::AddFavorite { track_id }) if track_id == "9"),
        "{}",
        shown(&first)
    );
    let second = view.toggle_track_favorite(&"9".to_string());
    assert!(!view.is_track_favorite("9"));
    assert!(
        matches!(&second, KeyAction::SendCommand(Command::RemoveFavorite { track_id }) if track_id == "9"),
        "{}",
        shown(&second)
    );
}

#[test]
fn rows_are_clicked_where_they_are_drawn() {
    let mut view = main_view(ActiveTab::Search);
    view.data.search_display = vec![
        DisplayItem::from_track(&track("1", "One", "A")),
        DisplayItem::from_track(&track("2", "Two", "A")),
    ];
    let area = Rect { x: 0, y: 4, width: 30, height: 10 };
    view.record_rows(area, 0, 0, 2, RowsKind::Tab);
    let click = MouseEvent {
        kind: MouseKind::LeftDown,
        column: 3,
        row: 5,
    };
    let action = view.handle_mouse(click, ctx());
    assert!(
        matches!(action, KeyAction::SendCommand(Command::SelectIndex { index: 1 })),
        "{}",
        shown(&action)
    );
    // The second click of a double click plays the row.
    let action = view.handle_mouse(click, KeyContext { now: 100, ..ctx() });
    assert!(shown(&action).contains("PlayFromSearch"), "{}", shown(&action));
}

#[test]
fn what_was_drawn_last_is_clicked() {
    let mut view = main_view(ActiveTab::Search);
    let area = Rect { x: 0, y: 0, width: 5, height: 1 };
    view.record_click(area, ClickTarget::FlowChip);
    view.record_click(area, ClickTarget::Back);
    assert_eq!(view.mouse.click.hit(2, 0), Some(ClickTarget::Back));
    assert_eq!(view.mouse.click.hit(5, 0), None);
    view.clear_click_areas();
    assert_eq!(view.mouse.click.hit(2, 0), None);
}

#[test]
fn menus_skip_their_titles() {
    let mut menu = PopupMenu::full(track("1", "One", "A"), false);
    for _ in 0..40 {
        assert!(!menu.items[menu.selected].is_header);
        menu.select_next();
    }
    for _ in 0..40 {
        assert!(!menu.items[menu.selected].is_header);
        menu.select_prev();
    }
}

#[test]
fn sharing_asks_for_the_clipboard() {
    let mut view = main_view(ActiveTab::Search);
    let mut menu = PopupMenu::full(track("42", "One", "A"), false);
    let place = menu
        .items
        .iter()
        .position(|i| matches!(i.action, deezer_tui::client::popup::PopupAction::Share))
        .unwrap();
    menu.selected = place;
    view.layers.popup = Some(menu);
    let _ = view.handle_popup_key(KeyCode::Enter, ctx());
    assert_eq!(view.effects.len(), 1);
    match &view.effects[0] {
        ClientEffect::CopyLink(link) => assert_eq!(link, "https://www.deezer.com/track/42"),
        other => panic!("{other:?}"),
    }
}

#[test]
fn playlists_are_deleted_after_a_question() {
    let mut view = main_view(ActiveTab::Favorites);
    let mut menu = PopupMenu::for_playlist("5".into(), "Mine".into(), 3);
    menu.sub_menu = Some(SubMenu::ConfirmDeletePlaylist { confirm_yes: false });
    view.layers.popup = Some(menu);
    let action = view.handle_popup_key(KeyCode::Char('y'), ctx());
    assert!(
        matches!(&action, KeyAction::SendCommand(Command::DeletePlaylist { playlist_id }) if playlist_id == "5"),
        "{}",
        shown(&action)
    );
}

#[test]
fn names_are_edited_at_the_cursor() {
    let typed = deezer_tui::client::popup::edit_name("né", 1, KeyCode::Char('x'));
    assert_eq!(typed, ("nxé".to_string(), 2));
    let back = deezer_tui::client::popup::edit_name(&typed.0, typed.1, KeyCode::Backspace);
    assert_eq!(back, ("né".to_string(), 1));
}

#[test]
fn updates_are_offered_and_installed() {
    let mut client = Client::new(main_view(ActiveTab::Search), None, false);
    client.offer_update("1.2.0".into(), "https://example.org/bin".into());
    assert!(matches!(
        client.view.layers.overlay,
        Some(Overlay::UpdateAvailable { .. })
    ));
    client.update_started("1.2.0".into());
    assert_eq!(
        client.view.layers.overlay,
        Some(Overlay::Updating { version: "1.2.0".into() })
    );
    client.update_finished(UpdateOutcome::Failed("no space".into()), 0);
    assert!(client.running);
    assert!(client.view.messages.toast.is_some() || client.view.messages.status_msg.is_some());
}

#[test]
fn titles_follow_what_plays() {
    let mut client = Client::new(main_view(ActiveTab::Search), None, false);
    let snap = DaemonSnapshot {
        screen: Screen::Main,
        status: PlaybackStatus::Playing,
        current_track: Some(track("1", "One", "A")),
        ..DaemonSnapshot::default()
    };
    client.hear(ServerEvent::Message(ServerMessage::Snapshot(Box::new(snap))), 0);
    assert_eq!(
        client.update_terminal_title(),
        Some("deezer-tui: ▶ One — A".to_string())
    );
    assert_eq!(client.update_terminal_title(), None, "written once");
}

#[test]
fn covers_are_fetched_once() {
    assert!(matches!(cover_step(None, "a"), CoverStep::Drop));
    assert!(matches!(cover_step(Some("a".into()), "a"), CoverStep::Keep));
    assert!(matches!(cover_step(Some("b".into()), "a"), CoverStep::Show(url) if url == "b"));
}

#[test]
fn offline_rows_keep_their_places_under_a_filter() {
    let snap = DaemonSnapshot {
        screen: Screen::Main,
        active_tab: ActiveTab::Downloads,
        offline_tracks: vec![
            OfflineTrack { track: track("1", "One", "A"), quality: deezer_tui::models::AudioQuality::Mp3_320 },
            OfflineTrack { track: track("2", "Two", "B"), quality: deezer_tui::models::AudioQuality::Flac },
        ],
        ..DaemonSnapshot::default()
    };
    let mut view = ViewState::from_snapshot(snap, false, theme(), 0);
    view.tabs.offline.filter_input = "two".into();
    let found = view.offline_tracks_filtered();
    assert_eq!(found.len(), 1);
    assert_eq!(found[0].0, 1);
    assert_eq!(view.offline_selected_track_index(), 1);
}

#[test]
fn playlist_pickers_are_filled_when_the_playlists_come() {
    let mut view = main_view(ActiveTab::Search);
    let mut menu = PopupMenu::full(track("1", "One", "A"), false);
    menu.sub_menu = Some(SubMenu::PlaylistPicker {
        playlists: Vec::new(),
        selected: 0,
        loading: true,
        filter_input: String::new(),
        filter_typing: false,
    });
    view.layers.popup = Some(menu);
    let snap = DaemonSnapshot {
        screen: Screen::Main,
        playlists: vec![PlaylistData {
            playlist_id: "8".into(),
            title: "Mine".into(),
            nb_songs: 2,
            author: String::new(),
            collaborative: false,
        }],
        ..DaemonSnapshot::default()
    };
    view.update_from_snapshot(snap, 0);
    match view.layers.popup.as_ref().and_then(|p| p.sub_menu.as_ref()) {
        Some(SubMenu::PlaylistPicker { playlists, loading, .. }) => {
            assert_eq!(playlists.len(), 1);
            assert!(!*loading);
        }
        other => panic!("{other:?}"),
    }
}

#[test]
fn the_playback_page_shows_its_artwork_and_captures_the_output() {
    let mut playing = track("1", "One", "A");
    playing.album_picture = "abc".to_string();
    let snap = DaemonSnapshot {
        screen: Screen::Main,
        status: PlaybackStatus::Playing,
        current_track: Some(playing),
        ..DaemonSnapshot::default()
    };
    let mut view = ViewState::from_snapshot(snap, false, theme(), 0);
    assert_eq!(view.current_cover_url(), None);
    assert!(!view.captures_spectrum());
    view.layers.push_overlay(Overlay::NowPlaying { selected: 0 });
    view.layers.push_overlay(Overlay::Settings { selected: 0 });
    assert_eq!(
        view.current_cover_url().as_deref(),
        Some("https://e-cdns-images.dzcdn.net/images/cover/abc/500x500-000000-80-0-0.jpg")
    );
    assert!(view.captures_spectrum());
    view.data.status = PlaybackStatus::Paused;
    assert!(!view.captures_spectrum());
}

#[test]
fn the_screen_is_cleared_when_a_layer_over_the_artwork_goes() {
    let mut client = Client::new(main_view(ActiveTab::Search), None, true);
    client.view.layers.push_overlay(Overlay::ArtistDetail);
    client.view.layers.push_overlay(Overlay::Help { scroll: 0 });
    assert!(!client.begin_frame(true, 0));
    client.view.layers.pop_overlay();
    assert!(client.begin_frame(true, 1));
    assert!(!client.begin_frame(true, 2));
}

#[test]
fn pages_are_reported_to_the_player_once() {
    let mut client = Client::new(main_view(ActiveTab::Search), None, true);
    client.view.layers.push_overlay(Overlay::ArtistDetail);
    let sent = client.take_nav_commands();
    assert_eq!(
        format!("{sent:?}"),
        format!("{:?}", vec![Command::PushNavOverlay(NavOverlay::ArtistDetail)])
    );
    assert!(client.take_nav_commands().is_empty());
}

#[test]
fn links_and_logins_are_reported() {
    let mut client = Client::new(default_view(), None, true);
    client.web_login_done();
    assert!(client.view.login.loading);
    client.link_copied(None, 100);
    let toast = client.view.messages.toast.as_ref().unwrap();
    assert!(!toast.is_error);
    assert_eq!(toast.message.kind, NoticeKind::LinkCopied);
    client.link_copied(Some("no display".to_string()), 200);
    let toast = client.view.messages.toast.as_ref().unwrap();
    assert_eq!(toast.message.kind, NoticeKind::ClipboardError);
    assert_eq!((toast.created_at, toast.duration), (200, 3000));
}

#[test]
fn leaving_the_inputs_leaves_them_all() {
    let mut view = main_view(ActiveTab::Downloads);
    view.input_mode = InputMode::Typing;
    view.tabs.radios.typing = true;
    view.tabs.genres.typing = true;
    view.tabs.favorites.filter_typing = true;
    view.tabs.offline.filter_typing = true;
    view.tabs.offline.detail_filter_typing = true;
    view.tabs.offline.detail_filter_input = "abc".to_string();
    view.pages.playlist_filter_typing = true;
    assert!(view.is_text_input_active());
    view.blur_inputs();
    assert!(!view.is_text_input_active());
    assert_eq!(view.tabs.offline.detail_filter_input, "abc");
}

#[test]
fn the_wheel_moves_the_list_of_an_open_download() {
    let mut view = main_view(ActiveTab::Downloads);
    view.data.offline_playlists = vec![PlaylistDetail {
        playlist_id: "p".to_string(),
        title: "List".to_string(),
        creator: String::new(),
        nb_tracks: 2,
        tracks: vec![track("1", "One", "A"), track("2", "Two", "A")],
    }];
    view.layers.push_overlay(Overlay::OfflineDetail {
        playlist: true,
        index: 0,
        selected: 0,
    });
    view.tabs.offline.detail_filter_typing = true;
    let wheel = MouseEvent {
        kind: MouseKind::ScrollDown,
        column: 3,
        row: 5,
    };
    let _ = view.handle_mouse(wheel, ctx());
    assert_eq!(
        view.layers.overlay,
        Some(Overlay::OfflineDetail {
            playlist: true,
            index: 0,
            selected: 1,
        })
    );
}

#[test]
fn right_clicks_open_a_menu_and_type_nothing() {
    let mut view = main_view(ActiveTab::Search);
    view.data.search_display = vec![
        DisplayItem::from_track(&track("1", "One", "A")),
        DisplayItem::from_track(&track("2", "Two", "A")),
    ];
    view.search_input = "one".to_string();
    view.input_mode = InputMode::Typing;
    let area = Rect { x: 0, y: 4, width: 30, height: 10 };
    view.record_rows(area, 0, 0, 2, RowsKind::Tab);
    let click = MouseEvent {
        kind: MouseKind::RightDown,
        column: 3,
        row: 5,
    };
    let action = view.handle_mouse(click, ctx());
    assert!(matches!(
        action,
        KeyAction::SendCommand(Command::SelectIndex { index: 1 })
    ));
    assert_eq!(view.search_input, "one");
    let menu = view.layers.popup.as_ref().unwrap();
    assert_eq!(menu.track().unwrap().track_id, "2");
}

#[test]
fn the_cursor_of_an_open_download_stays_inside_its_filter() {
    let list = || PlaylistDetail {
        playlist_id: "p".to_string(),
        title: "List".to_string(),
        creator: String::new(),
        nb_tracks: 2,
        tracks: vec![track("1", "One", "A"), track("2", "Two", "A")],
    };
    let snap = || DaemonSnapshot {
        screen: Screen::Main,
        active_tab: ActiveTab::Downloads,
        offline_playlists: vec![list()],
        ..DaemonSnapshot::default()
    };
    let mut view = ViewState::from_snapshot(snap(), false, theme(), 0);
    view.layers.push_overlay(Overlay::OfflineDetail {
        playlist: true,
        index: 0,
        selected: 1,
    });
    view.tabs.offline.detail_filter_input = "two".to_string();
    view.update_from_snapshot(snap(), 10);
    assert_eq!(
        view.layers.overlay,
        Some(Overlay::OfflineDetail {
            playlist: true,
            index: 0,
            selected: 0,
        })
    );
}

#[test]
fn the_cursor_of_the_downloads_stays_inside_the_list() {
    let mut view = main_view(ActiveTab::Downloads);
    let snap = DaemonSnapshot {
        screen: Screen::Main,
        active_tab: ActiveTab::Downloads,
        offline_tracks: vec![
            OfflineTrack { track: track("1", "One", "A"), quality: deezer_tui::models::AudioQuality::Flac },
            OfflineTrack { track: track("2", "Two", "B"), quality: deezer_tui::models::AudioQuality::Flac },
        ],
        offline_selected: 5,
        ..DaemonSnapshot::default()
    };
    view.update_from_snapshot(snap, 1);
    assert_eq!(view.tabs.offline.offline_list_selected(), 1);
}
