//! Keys on the help screen, the settings and their pickers, and the update
//! dialog.

use vstd::prelude::*;

use crate::client;
use crate::client::likes::Step;
use crate::client::state::{ClientView, ViewState};
use crate::client::view;
use crate::client::{
    step_down, step_up, ActionView, ClientEffect, EffectView, KeyAction, KeyCode, KeyContext,
    KeyEvent, Overlay,
};
use crate::models::AudioQuality;
use crate::protocol::Command;
use crate::theme;
use crate::theme::{Theme, ThemeId};

verus! {

/// How many entries the settings have.
pub const SETTINGS_COUNT: usize = 8;

/// How many answers the update dialog has.
pub const UPDATE_OPTIONS: usize = 3;

/// Where a theme stands in the picker; at the top where it is not offered.
pub open spec fn theme_place(omarchy: bool, current: ThemeId) -> usize {
    match theme::offered(omarchy).index_of_first(current) {
        Some(i) => i as usize,
        None => 0,
    }
}

fn place_of_theme(omarchy: bool, current: ThemeId) -> (r: usize)
    ensures
        r == theme_place(omarchy, current),
{
    let themes: Vec<ThemeId> = ThemeId::available(omarchy);
    let mut i: usize = 0;
    while i < themes.len()
        invariant
            i <= themes@.len(),
            themes@ == theme::offered(omarchy),
            forall|k: int| 0 <= k < i ==> themes@[k] != current,
        decreases themes@.len() - i,
    {
        if themes[i] == current {
            proof {
                themes@.index_of_first_ensures(current);
                assert(themes@.contains(current));
            }
            return i;
        }
        i = i + 1;
    }
    proof {
        themes@.index_of_first_ensures(current);
    }
    0
}

impl ClientView {
    /// The program is asked for something.
    pub open spec fn asks(self, effect: EffectView) -> ClientView {
        ClientView { effects: self.effects.push(effect), ..self }
    }

    /// A key on the help screen.
    #[verifier::opaque]
    pub open spec fn help_key(self, code: KeyCode, scroll: usize) -> Step {
        if code == KeyCode::Esc || code == KeyCode::Enter || code == KeyCode::Char('?') {
            self.pops().stays()
        } else if view::goes_down(code, self.vim_keys) {
            self.shows(
                Overlay::Help {
                    scroll: if scroll == usize::MAX {
                        scroll
                    } else {
                        (scroll + 1) as usize
                    },
                },
            ).stays()
        } else if view::goes_up(code, self.vim_keys) {
            self.shows(Overlay::Help { scroll: client::up(scroll) }).stays()
        } else {
            self.stays()
        }
    }

    /// A key on the information screen.
    #[verifier::opaque]
    pub open spec fn info_key(self, code: KeyCode) -> Step {
        if code == KeyCode::Esc || code == KeyCode::Char('q') || code == KeyCode::Enter || code
            == KeyCode::Char('i') {
            self.pops().stays()
        } else {
            self.stays()
        }
    }

    /// The vim keys switched.
    pub open spec fn vim_switched(self) -> ClientView {
        ClientView { vim_keys: !self.vim_keys, ..self }.asks(
            EffectView::SaveVimKeys(!self.vim_keys),
        )
    }

    /// Choosing an entry of the settings.
    pub open spec fn setting_chosen(self, selected: usize, ctx: KeyContext) -> Step {
        if selected == 0 {
            self.pushes(Overlay::Help { scroll: 0 }).stays()
        } else if selected == 1 {
            ClientView { theme: Theme { omarchy_available: ctx.omarchy, ..self.theme }, ..self }.pushes(
                Overlay::ThemePicker { selected: theme_place(ctx.omarchy, self.theme.current) },
            ).stays()
        } else if selected == 2 {
            self.pushes(
                Overlay::QualityPicker { selected: self.data.quality.place() as usize },
            ).stays()
        } else if selected == 3 {
            self.pushes(Overlay::LanguagePicker { selected: ctx.locale }).stays()
        } else if selected == 4 {
            self.vim_switched().stays()
        } else if selected == 5 {
            self.pops().and_sends(Command::Logout)
        } else if selected == 6 {
            (self, ActionView::Detach)
        } else if selected == 7 {
            (self, ActionView::Quit)
        } else {
            self.stays()
        }
    }

    /// A key on the settings.
    #[verifier::opaque]
    pub open spec fn settings_key(self, key: KeyEvent, selected: usize, ctx: KeyContext) -> Step {
        let code = key.code;
        if code == KeyCode::Esc || code == KeyCode::Char('q') {
            self.pops().stays()
        } else if view::goes_up(code, self.vim_keys) {
            self.shows(Overlay::Settings { selected: client::up(selected) }).stays()
        } else if view::goes_down(code, self.vim_keys) {
            self.shows(
                Overlay::Settings { selected: client::down(selected, SETTINGS_COUNT as nat) },
            ).stays()
        } else if (code == KeyCode::Left || code == KeyCode::Right || code == KeyCode::Char(' '))
            && selected == 4 {
            self.vim_switched().stays()
        } else if code == KeyCode::Enter {
            self.setting_chosen(selected, ctx)
        } else if key.control('o') {
            self.pops().stays()
        } else {
            self.stays()
        }
    }

    /// A key on the language picker.
    #[verifier::opaque]
    pub open spec fn language_key(self, code: KeyCode, selected: usize, ctx: KeyContext) -> Step {
        if code == KeyCode::Esc || code == KeyCode::Char('q') {
            self.pops().stays()
        } else if view::goes_up(code, self.vim_keys) {
            self.shows(Overlay::LanguagePicker { selected: client::up(selected) }).stays()
        } else if view::goes_down(code, self.vim_keys) {
            self.shows(
                Overlay::LanguagePicker { selected: client::down(selected, ctx.locales as nat) },
            ).stays()
        } else if code == KeyCode::Enter && selected < ctx.locales {
            self.asks(EffectView::SaveLanguage(selected)).pops().stays()
        } else {
            self.stays()
        }
    }

    /// A key on the quality picker.
    #[verifier::opaque]
    pub open spec fn quality_key(self, code: KeyCode, selected: usize) -> Step {
        if code == KeyCode::Esc || code == KeyCode::Char('q') {
            self.pops().stays()
        } else if view::goes_up(code, self.vim_keys) {
            self.shows(Overlay::QualityPicker { selected: client::up(selected) }).stays()
        } else if view::goes_down(code, self.vim_keys) {
            self.shows(
                Overlay::QualityPicker {
                    selected: client::down(selected, AudioQuality::COUNT as nat),
                },
            ).stays()
        } else if code == KeyCode::Enter && selected < AudioQuality::COUNT {
            self.pops().and_sends(
                Command::SetQuality { quality: AudioQuality::nth(selected as int) },
            )
        } else {
            self.stays()
        }
    }

    /// The theme picker's cursor moved, its theme shown at once.
    pub open spec fn previews(self, selected: usize) -> ClientView {
        let themes = theme::offered(self.theme.omarchy_available);
        ClientView {
            theme: match client::nth(themes, selected as int) {
                Some(id) => Theme { current: id, ..self.theme },
                None => self.theme,
            },
            ..self
        }.shows(Overlay::ThemePicker { selected })
    }

    /// A key on the theme picker.
    #[verifier::opaque]
    pub open spec fn theme_key(self, code: KeyCode, selected: usize) -> Step {
        let themes = theme::offered(self.theme.omarchy_available);
        if code == KeyCode::Esc || code == KeyCode::Char('q') {
            self.asks(EffectView::SaveTransparency(self.theme.transparency)).pops().stays()
        } else if view::goes_up(code, self.vim_keys) {
            self.previews(client::up(selected)).stays()
        } else if view::goes_down(code, self.vim_keys) {
            self.previews(client::down(selected, themes.len())).stays()
        } else if code == KeyCode::Left {
            ClientView { theme: Theme { transparency: 0, ..self.theme }, ..self }.stays()
        } else if code == KeyCode::Right {
            ClientView { theme: Theme { transparency: 100, ..self.theme }, ..self }.stays()
        } else if code == KeyCode::Enter && selected < themes.len() {
            self.asks(
                EffectView::SaveTheme {
                    theme: themes[selected as int],
                    transparency: self.theme.transparency,
                },
            ).pops().stays()
        } else {
            self.stays()
        }
    }

    /// A key on the update dialog.
    #[verifier::opaque]
    pub open spec fn update_key(
        self,
        code: KeyCode,
        version: String,
        download_url: String,
        selected: usize,
    ) -> Step {
        if code == KeyCode::Esc {
            self.pops().stays()
        } else if view::goes_up(code, self.vim_keys) {
            self.shows(
                Overlay::UpdateAvailable { version, download_url, selected: client::up(selected) },
            ).stays()
        } else if view::goes_down(code, self.vim_keys) {
            self.shows(
                Overlay::UpdateAvailable {
                    version,
                    download_url,
                    selected: client::down(selected, UPDATE_OPTIONS as nat),
                },
            ).stays()
        } else if code == KeyCode::Enter {
            if selected == 0 {
                (self, ActionView::PerformUpdate { version, download_url })
            } else if selected == 1 {
                self.pops().stays()
            } else if selected == 2 {
                self.asks(EffectView::SkipUpdates).pops().stays()
            } else {
                self.stays()
            }
        } else {
            self.stays()
        }
    }

    /// A key while an overlay is open.
    #[verifier::opaque]
    pub open spec fn overlay_key(self, key: KeyEvent, ctx: KeyContext) -> Step {
        let code = key.code;
        match self.layers.overlay {
            None => self.stays(),
            Some(overlay) => match overlay {
                Overlay::Help { scroll } => self.help_key(code, scroll),
                Overlay::Info => self.info_key(code),
                Overlay::Settings { selected } => self.settings_key(key, selected, ctx),
                Overlay::LanguagePicker { selected } => self.language_key(code, selected, ctx),
                Overlay::QualityPicker { selected } => self.quality_key(code, selected),
                Overlay::ThemePicker { selected } => self.theme_key(code, selected),
                Overlay::AlbumDetail { .. } => self.album_key(code),
                Overlay::ArtistDetail => self.artist_key(code),
                Overlay::PlaylistDetail { selected } => self.playlist_key(code, selected),
                Overlay::ShowDetail { selected } => self.show_key(code, selected),
                Overlay::GenreDetail { sub_tab, selected } => self.genre_key(
                    code,
                    sub_tab,
                    selected,
                ),
                Overlay::WaitingList { selected } => self.waiting_key(code, selected),
                Overlay::NowPlaying { selected } => self.now_playing_key(code, selected),
                Overlay::OfflineDetail { playlist, index, selected } => self.offline_key(
                    code,
                    playlist,
                    index,
                    selected,
                ),
                Overlay::UpdateAvailable { version, download_url, selected } => self.update_key(
                    code,
                    version,
                    download_url,
                    selected,
                ),
                Overlay::Updating { .. } => self.stays(),
            },
        }
    }
}

impl ViewState {
    /// Asks the program for something.
    pub fn ask(&mut self, effect: ClientEffect)
        ensures
            final(self)@ == old(self)@.asks(effect@),
    {
        self.effects.push(effect);
        proof {
            assert(self@.effects =~= old(self)@.effects.push(effect@));
        }
    }

    fn handle_help_key(&mut self, key: KeyEvent, scroll: usize) -> (r: KeyAction)
        ensures
            (final(self)@, r@) == old(self)@.help_key(key.code, scroll),
    {
        proof {
            reveal(ClientView::help_key);
        }
        let code: KeyCode = key.code;
        if code == KeyCode::Esc || code == KeyCode::Enter || code == KeyCode::Char('?') {
            self.layers.pop_overlay();
        } else if self.is_nav_down(code) {
            let lower: usize = if scroll == usize::MAX {
                scroll
            } else {
                scroll + 1
            };
            self.layers.overlay = Some(Overlay::Help { scroll: lower });
        } else if self.is_nav_up(code) {
            self.layers.overlay = Some(Overlay::Help { scroll: step_up(scroll) });
        }
        KeyAction::Continue
    }

    fn handle_info_key(&mut self, key: KeyEvent) -> (r: KeyAction)
        ensures
            (final(self)@, r@) == old(self)@.info_key(key.code),
    {
        proof {
            reveal(ClientView::info_key);
        }
        let code: KeyCode = key.code;
        if code == KeyCode::Esc || code == KeyCode::Char('q') || code == KeyCode::Enter || code
            == KeyCode::Char('i') {
            self.layers.pop_overlay();
        }
        KeyAction::Continue
    }

    fn switch_vim_keys(&mut self)
        ensures
            final(self)@ == old(self)@.vim_switched(),
    {
        self.vim_keys = !self.vim_keys;
        self.ask(ClientEffect::SaveVimKeys(self.vim_keys));
    }

    fn choose_setting(&mut self, selected: usize, ctx: KeyContext) -> (r: KeyAction)
        ensures
            (final(self)@, r@) == old(self)@.setting_chosen(selected, ctx),
    {
        if selected == 0 {
            self.layers.push_overlay(Overlay::Help { scroll: 0 });
            KeyAction::Continue
        } else if selected == 1 {
            let _ = self.theme.detect_omarchy(ctx.omarchy);
            let place: usize = place_of_theme(ctx.omarchy, self.theme.current);
            self.layers.push_overlay(Overlay::ThemePicker { selected: place });
            KeyAction::Continue
        } else if selected == 2 {
            let place: usize = self.data.quality.position();
            self.layers.push_overlay(Overlay::QualityPicker { selected: place });
            KeyAction::Continue
        } else if selected == 3 {
            self.layers.push_overlay(Overlay::LanguagePicker { selected: ctx.locale });
            KeyAction::Continue
        } else if selected == 4 {
            self.switch_vim_keys();
            KeyAction::Continue
        } else if selected == 5 {
            self.layers.pop_overlay();
            KeyAction::SendCommand(Command::Logout)
        } else if selected == 6 {
            KeyAction::Detach
        } else if selected == 7 {
            KeyAction::Quit
        } else {
            KeyAction::Continue
        }
    }

    fn handle_settings_key(&mut self, key: KeyEvent, selected: usize, ctx: KeyContext) -> (r:
        KeyAction)
        ensures
            (final(self)@, r@) == old(self)@.settings_key(key, selected, ctx),
    {
        proof {
            reveal(ClientView::settings_key);
        }
        let code: KeyCode = key.code;
        if code == KeyCode::Esc || code == KeyCode::Char('q') {
            self.layers.pop_overlay();
            KeyAction::Continue
        } else if self.is_nav_up(code) {
            self.layers.overlay = Some(Overlay::Settings { selected: step_up(selected) });
            KeyAction::Continue
        } else if self.is_nav_down(code) {
            self.layers.overlay = Some(
                Overlay::Settings { selected: step_down(selected, SETTINGS_COUNT) },
            );
            KeyAction::Continue
        } else if (code == KeyCode::Left || code == KeyCode::Right || code == KeyCode::Char(' '))
            && selected == 4 {
            self.switch_vim_keys();
            KeyAction::Continue
        } else if code == KeyCode::Enter {
            self.choose_setting(selected, ctx)
        } else if key.is_control('o') {
            self.layers.pop_overlay();
            KeyAction::Continue
        } else {
            KeyAction::Continue
        }
    }

    fn handle_language_key(&mut self, key: KeyEvent, selected: usize, ctx: KeyContext) -> (r:
        KeyAction)
        ensures
            (final(self)@, r@) == old(self)@.language_key(key.code, selected, ctx),
    {
        proof {
            reveal(ClientView::language_key);
        }
        let code: KeyCode = key.code;
        if code == KeyCode::Esc || code == KeyCode::Char('q') {
            self.layers.pop_overlay();
        } else if self.is_nav_up(code) {
            self.layers.overlay = Some(Overlay::LanguagePicker { selected: step_up(selected) });
        } else if self.is_nav_down(code) {
            self.layers.overlay = Some(
                Overlay::LanguagePicker { selected: step_down(selected, ctx.locales) },
            );
        } else if code == KeyCode::Enter && selected < ctx.locales {
            self.ask(ClientEffect::SaveLanguage(selected));
            self.layers.pop_overlay();
        }
        KeyAction::Continue
    }

    fn handle_quality_key(&mut self, key: KeyEvent, selected: usize) -> (r: KeyAction)
        ensures
            (final(self)@, r@) == old(self)@.quality_key(key.code, selected),
    {
        proof {
            reveal(ClientView::quality_key);
        }
        let code: KeyCode = key.code;
        if code == KeyCode::Esc || code == KeyCode::Char('q') {
            self.layers.pop_overlay();
            KeyAction::Continue
        } else if self.is_nav_up(code) {
            self.layers.overlay = Some(Overlay::QualityPicker { selected: step_up(selected) });
            KeyAction::Continue
        } else if self.is_nav_down(code) {
            self.layers.overlay = Some(
                Overlay::QualityPicker { selected: step_down(selected, AudioQuality::COUNT) },
            );
            KeyAction::Continue
        } else if code == KeyCode::Enter {
            match AudioQuality::at(selected) {
                Some(quality) => {
                    self.layers.pop_overlay();
                    KeyAction::SendCommand(Command::SetQuality { quality })
                },
                None => KeyAction::Continue,
            }
        } else {
            KeyAction::Continue
        }
    }

    fn preview_theme(&mut self, selected: usize)
        ensures
            final(self)@ == old(self)@.previews(selected),
    {
        let themes: Vec<ThemeId> = ThemeId::available(self.theme.omarchy_available);
        if selected < themes.len() {
            self.theme.set(themes[selected]);
        }
        self.layers.overlay = Some(Overlay::ThemePicker { selected });
    }

    fn handle_theme_key(&mut self, key: KeyEvent, selected: usize) -> (r: KeyAction)
        ensures
            (final(self)@, r@) == old(self)@.theme_key(key.code, selected),
    {
        proof {
            reveal(ClientView::theme_key);
        }
        let code: KeyCode = key.code;
        let themes: Vec<ThemeId> = ThemeId::available(self.theme.omarchy_available);
        if code == KeyCode::Esc || code == KeyCode::Char('q') {
            self.ask(ClientEffect::SaveTransparency(self.theme.transparency));
            self.layers.pop_overlay();
        } else if self.is_nav_up(code) {
            self.preview_theme(step_up(selected));
        } else if self.is_nav_down(code) {
            self.preview_theme(step_down(selected, themes.len()));
        } else if code == KeyCode::Left {
            self.theme.set_transparency(0);
        } else if code == KeyCode::Right {
            self.theme.set_transparency(100);
        } else if code == KeyCode::Enter && selected < themes.len() {
            self.ask(
                ClientEffect::SaveTheme {
                    theme: themes[selected],
                    transparency: self.theme.transparency,
                },
            );
            self.layers.pop_overlay();
        }
        KeyAction::Continue
    }

    fn handle_update_key(
        &mut self,
        key: KeyEvent,
        version: String,
        download_url: String,
        selected: usize,
    ) -> (r: KeyAction)
        ensures
            (final(self)@, r@) == old(self)@.update_key(key.code, version, download_url, selected),
    {
        proof {
            reveal(ClientView::update_key);
        }
        let code: KeyCode = key.code;
        if code == KeyCode::Esc {
            self.layers.pop_overlay();
            KeyAction::Continue
        } else if self.is_nav_up(code) {
            self.layers.overlay = Some(
                Overlay::UpdateAvailable { version, download_url, selected: step_up(selected) },
            );
            KeyAction::Continue
        } else if self.is_nav_down(code) {
            self.layers.overlay = Some(
                Overlay::UpdateAvailable {
                    version,
                    download_url,
                    selected: step_down(selected, UPDATE_OPTIONS),
                },
            );
            KeyAction::Continue
        } else if code == KeyCode::Enter {
            if selected == 0 {
                KeyAction::PerformUpdate { version, download_url }
            } else if selected == 1 {
                self.layers.pop_overlay();
                KeyAction::Continue
            } else if selected == 2 {
                self.ask(ClientEffect::SkipUpdates);
                self.layers.pop_overlay();
                KeyAction::Continue
            } else {
                KeyAction::Continue
            }
        } else {
            KeyAction::Continue
        }
    }

    /// Handles a key while an overlay is open.
    pub fn handle_overlay_key(&mut self, key: KeyEvent, ctx: KeyContext) -> (r: KeyAction)
        ensures
            (final(self)@, r@) == old(self)@.overlay_key(key, ctx),
    {
        proof {
            reveal(ClientView::overlay_key);
        }
        let overlay: Overlay = match &self.layers.overlay {
            Some(o) => o.clone(),
            None => {
                return KeyAction::Continue;
            },
        };
        match overlay {
            Overlay::Help { scroll } => self.handle_help_key(key, scroll),
            Overlay::Info => self.handle_info_key(key),
            Overlay::Settings { selected } => self.handle_settings_key(key, selected, ctx),
            Overlay::LanguagePicker { selected } => self.handle_language_key(key, selected, ctx),
            Overlay::QualityPicker { selected } => self.handle_quality_key(key, selected),
            Overlay::ThemePicker { selected } => self.handle_theme_key(key, selected),
            Overlay::AlbumDetail { .. } => self.handle_album_detail_key(key),
            Overlay::ArtistDetail => self.handle_artist_detail_key(key),
            Overlay::PlaylistDetail { selected } => self.handle_playlist_detail_key(key, selected),
            Overlay::ShowDetail { selected } => self.handle_show_detail_key(key, selected),
            Overlay::GenreDetail { sub_tab, selected } => self.handle_genre_detail_key(
                key,
                sub_tab,
                selected,
            ),
            Overlay::WaitingList { selected } => self.handle_waiting_list_key(key, selected),
            Overlay::NowPlaying { selected } => self.handle_now_playing_key(key, selected),
            Overlay::OfflineDetail { playlist, index, selected } => self.handle_offline_detail_key(
                key,
                playlist,
                index,
                selected,
            ),
            Overlay::UpdateAvailable { version, download_url, selected } => self.handle_update_key(
                key,
                version,
                download_url,
                selected,
            ),
            Overlay::Updating { .. } => KeyAction::Continue,
        }
    }
}

} // verus!
