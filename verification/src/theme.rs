//! Colour themes: which there are, which one is active, and the colours they
//! give to the parts of the screen.

pub mod styles;

use vstd::prelude::*;

use crate::text;
use crate::text::{chars_of, same_text, split_once, trim};

verus! {

/// A colour by its red, green and blue parts.
#[derive(Debug, Clone, Copy, PartialEq, Eq, Structural)]
pub struct Rgb {
    pub red: u8,
    pub green: u8,
    pub blue: u8,
}

/// The colour with these parts.
pub open spec fn rgb_of(red: u8, green: u8, blue: u8) -> Rgb {
    Rgb { red, green, blue }
}

fn rgb(red: u8, green: u8, blue: u8) -> (r: Rgb)
    ensures
        r == rgb_of(red, green, blue),
{
    Rgb { red, green, blue }
}

/// Colours read from the desktop's own theme, made readable.
#[derive(Debug, Clone, Copy, PartialEq, Eq, Structural)]
pub struct Palette {
    pub primary: Rgb,
    pub secondary: Rgb,
    pub bg: Rgb,
    pub surface: Rgb,
    pub border: Rgb,
    pub text: Rgb,
    pub dim: Rgb,
    /// Text drawn on a `primary` fill (selected rows, notifications).
    pub on_primary: Rgb,
    /// Text drawn on a `secondary` fill (Flow chip).
    pub on_secondary: Rgb,
}

/// Available themes inspired by Deezer's official app.
#[derive(Debug, Clone, Copy, PartialEq, Eq, Structural)]
pub enum ThemeId {
    Omarchy,
    Crimson,
    Emerald,
    Amber,
    Magenta,
    Halloween,
    DarkPurple,
    DarkOrange,
    DarkPink,
    DarkRed,
    DarkYellow,
    DarkBlue,
}

/// Every theme, the desktop's own first.
pub open spec fn all_themes() -> Seq<ThemeId> {
    seq![
        ThemeId::Omarchy,
        ThemeId::Crimson,
        ThemeId::Emerald,
        ThemeId::Amber,
        ThemeId::Magenta,
        ThemeId::Halloween,
        ThemeId::DarkPurple,
        ThemeId::DarkOrange,
        ThemeId::DarkPink,
        ThemeId::DarkRed,
        ThemeId::DarkYellow,
        ThemeId::DarkBlue,
    ]
}

/// The themes offered: all of them, or all but the desktop's own.
pub open spec fn offered(omarchy: bool) -> Seq<ThemeId> {
    if omarchy {
        all_themes()
    } else {
        all_themes().skip(1)
    }
}

impl ThemeId {
    /// Every theme.
    pub fn all() -> (r: Vec<ThemeId>)
        ensures
            r@ == all_themes(),
    {
        let mut r: Vec<ThemeId> = Vec::new();
        r.push(ThemeId::Omarchy);
        r.push(ThemeId::Crimson);
        r.push(ThemeId::Emerald);
        r.push(ThemeId::Amber);
        r.push(ThemeId::Magenta);
        r.push(ThemeId::Halloween);
        r.push(ThemeId::DarkPurple);
        r.push(ThemeId::DarkOrange);
        r.push(ThemeId::DarkPink);
        r.push(ThemeId::DarkRed);
        r.push(ThemeId::DarkYellow);
        r.push(ThemeId::DarkBlue);
        proof {
            assert(r@ =~= all_themes());
        }
        r
    }

    /// Name shown for the theme.
    pub open spec fn title(self) -> Seq<char> {
        match self {
            ThemeId::Omarchy => "System (Omarchy)"@,
            ThemeId::Crimson => "Crimson"@,
            ThemeId::Emerald => "Emerald"@,
            ThemeId::Amber => "Amber"@,
            ThemeId::Magenta => "Magenta"@,
            ThemeId::Halloween => "Halloween"@,
            ThemeId::DarkPurple => "Dark Purple"@,
            ThemeId::DarkOrange => "Dark Orange"@,
            ThemeId::DarkPink => "Dark Pink"@,
            ThemeId::DarkRed => "Dark Red"@,
            ThemeId::DarkYellow => "Dark Yellow"@,
            ThemeId::DarkBlue => "Dark Blue"@,
        }
    }

    /// Name shown for the theme.
    pub fn label(self) -> (r: &'static str)
        ensures
            r@ == self.title(),
    {
        match self {
            ThemeId::Omarchy => "System (Omarchy)",
            ThemeId::Crimson => "Crimson",
            ThemeId::Emerald => "Emerald",
            ThemeId::Amber => "Amber",
            ThemeId::Magenta => "Magenta",
            ThemeId::Halloween => "Halloween",
            ThemeId::DarkPurple => "Dark Purple",
            ThemeId::DarkOrange => "Dark Orange",
            ThemeId::DarkPink => "Dark Pink",
            ThemeId::DarkRed => "Dark Red",
            ThemeId::DarkYellow => "Dark Yellow",
            ThemeId::DarkBlue => "Dark Blue",
        }
    }

    /// Name under which the theme is saved.
    pub open spec fn key(self) -> Seq<char> {
        match self {
            ThemeId::Omarchy => "omarchy"@,
            ThemeId::Crimson => "crimson"@,
            ThemeId::Emerald => "emerald"@,
            ThemeId::Amber => "amber"@,
            ThemeId::Magenta => "magenta"@,
            ThemeId::Halloween => "halloween"@,
            ThemeId::DarkPurple => "dark_purple"@,
            ThemeId::DarkOrange => "dark_orange"@,
            ThemeId::DarkPink => "dark_pink"@,
            ThemeId::DarkRed => "dark_red"@,
            ThemeId::DarkYellow => "dark_yellow"@,
            ThemeId::DarkBlue => "dark_blue"@,
        }
    }

    /// Name under which the theme is saved.
    pub fn as_str(self) -> (r: &'static str)
        ensures
            r@ == self.key(),
    {
        match self {
            ThemeId::Omarchy => "omarchy",
            ThemeId::Crimson => "crimson",
            ThemeId::Emerald => "emerald",
            ThemeId::Amber => "amber",
            ThemeId::Magenta => "magenta",
            ThemeId::Halloween => "halloween",
            ThemeId::DarkPurple => "dark_purple",
            ThemeId::DarkOrange => "dark_orange",
            ThemeId::DarkPink => "dark_pink",
            ThemeId::DarkRed => "dark_red",
            ThemeId::DarkYellow => "dark_yellow",
            ThemeId::DarkBlue => "dark_blue",
        }
    }

    /// The theme saved under `s`; none for an unknown name.
    pub fn from_str(s: &str) -> (r: Option<ThemeId>)
        ensures
            r matches Some(id) ==> id.key() == s@,
            r is None ==> forall|id: ThemeId| #[trigger] id.key() != s@,
    {
        if same_text(s, "omarchy") {
            Some(ThemeId::Omarchy)
        } else if same_text(s, "crimson") {
            Some(ThemeId::Crimson)
        } else if same_text(s, "emerald") {
            Some(ThemeId::Emerald)
        } else if same_text(s, "amber") {
            Some(ThemeId::Amber)
        } else if same_text(s, "magenta") {
            Some(ThemeId::Magenta)
        } else if same_text(s, "halloween") {
            Some(ThemeId::Halloween)
        } else if same_text(s, "dark_purple") {
            Some(ThemeId::DarkPurple)
        } else if same_text(s, "dark_orange") {
            Some(ThemeId::DarkOrange)
        } else if same_text(s, "dark_pink") {
            Some(ThemeId::DarkPink)
        } else if same_text(s, "dark_red") {
            Some(ThemeId::DarkRed)
        } else if same_text(s, "dark_yellow") {
            Some(ThemeId::DarkYellow)
        } else if same_text(s, "dark_blue") {
            Some(ThemeId::DarkBlue)
        } else {
            None
        }
    }

    /// Themes offered in the picker: all of them, minus the desktop's own when
    /// no usable palette of it was found.
    pub fn available(omarchy: bool) -> (r: Vec<ThemeId>)
        ensures
            r@ == offered(omarchy),
    {
        let mut r: Vec<ThemeId> = ThemeId::all();
        if !omarchy {
            let _ = r.remove(0);
            proof {
                assert(r@ =~= all_themes().skip(1));
            }
        }
        r
    }


    /// The theme's main colour.
    pub open spec fn primary_of(self) -> Rgb {
        match self {
            ThemeId::Omarchy => rgb_of(162, 0, 255),
            ThemeId::Crimson => rgb_of(220, 40, 60),
            ThemeId::Emerald => rgb_of(46, 204, 113),
            ThemeId::Amber => rgb_of(240, 165, 0),
            ThemeId::Magenta => rgb_of(255, 0, 200),
            ThemeId::Halloween => rgb_of(255, 140, 0),
            ThemeId::DarkPurple => rgb_of(162, 0, 255),
            ThemeId::DarkOrange => rgb_of(255, 140, 0),
            ThemeId::DarkPink => rgb_of(255, 20, 147),
            ThemeId::DarkRed => rgb_of(220, 20, 60),
            ThemeId::DarkYellow => rgb_of(240, 200, 0),
            ThemeId::DarkBlue => rgb_of(60, 120, 255),
        }
    }

    fn primary(self) -> (r: Rgb)
        ensures
            r == self.primary_of(),
    {
        match self {
            ThemeId::Omarchy => rgb(162, 0, 255),
            ThemeId::Crimson => rgb(220, 40, 60),
            ThemeId::Emerald => rgb(46, 204, 113),
            ThemeId::Amber => rgb(240, 165, 0),
            ThemeId::Magenta => rgb(255, 0, 200),
            ThemeId::Halloween => rgb(255, 140, 0),
            ThemeId::DarkPurple => rgb(162, 0, 255),
            ThemeId::DarkOrange => rgb(255, 140, 0),
            ThemeId::DarkPink => rgb(255, 20, 147),
            ThemeId::DarkRed => rgb(220, 20, 60),
            ThemeId::DarkYellow => rgb(240, 200, 0),
            ThemeId::DarkBlue => rgb(60, 120, 255),
        }
    }

    /// The theme's second colour.
    pub open spec fn secondary_of(self) -> Rgb {
        match self {
            ThemeId::Omarchy => rgb_of(239, 84, 105),
            ThemeId::Crimson => rgb_of(255, 107, 107),
            ThemeId::Emerald => rgb_of(0, 210, 255),
            ThemeId::Amber => rgb_of(255, 209, 102),
            ThemeId::Magenta => rgb_of(255, 105, 180),
            ThemeId::Halloween => rgb_of(162, 0, 255),
            ThemeId::DarkPurple => rgb_of(239, 84, 105),
            ThemeId::DarkOrange => rgb_of(255, 165, 0),
            ThemeId::DarkPink => rgb_of(255, 105, 180),
            ThemeId::DarkRed => rgb_of(255, 68, 68),
            ThemeId::DarkYellow => rgb_of(255, 230, 100),
            ThemeId::DarkBlue => rgb_of(100, 160, 255),
        }
    }

    fn secondary(self) -> (r: Rgb)
        ensures
            r == self.secondary_of(),
    {
        match self {
            ThemeId::Omarchy => rgb(239, 84, 105),
            ThemeId::Crimson => rgb(255, 107, 107),
            ThemeId::Emerald => rgb(0, 210, 255),
            ThemeId::Amber => rgb(255, 209, 102),
            ThemeId::Magenta => rgb(255, 105, 180),
            ThemeId::Halloween => rgb(162, 0, 255),
            ThemeId::DarkPurple => rgb(239, 84, 105),
            ThemeId::DarkOrange => rgb(255, 165, 0),
            ThemeId::DarkPink => rgb(255, 105, 180),
            ThemeId::DarkRed => rgb(255, 68, 68),
            ThemeId::DarkYellow => rgb(255, 230, 100),
            ThemeId::DarkBlue => rgb(100, 160, 255),
        }
    }

    /// The theme's background.
    pub open spec fn bg_of(self) -> Rgb {
        match self {
            ThemeId::Omarchy => rgb_of(18, 18, 18),
            ThemeId::Crimson => rgb_of(46, 10, 10),
            ThemeId::Emerald => rgb_of(10, 36, 24),
            ThemeId::Amber => rgb_of(36, 22, 8),
            ThemeId::Magenta => rgb_of(36, 10, 30),
            ThemeId::Halloween => rgb_of(30, 10, 50),
            ThemeId::DarkPurple => rgb_of(18, 18, 18),
            ThemeId::DarkOrange => rgb_of(18, 18, 18),
            ThemeId::DarkPink => rgb_of(18, 18, 18),
            ThemeId::DarkRed => rgb_of(18, 18, 18),
            ThemeId::DarkYellow => rgb_of(18, 18, 18),
            ThemeId::DarkBlue => rgb_of(14, 16, 22),
        }
    }

    fn bg(self) -> (r: Rgb)
        ensures
            r == self.bg_of(),
    {
        match self {
            ThemeId::Omarchy => rgb(18, 18, 18),
            ThemeId::Crimson => rgb(46, 10, 10),
            ThemeId::Emerald => rgb(10, 36, 24),
            ThemeId::Amber => rgb(36, 22, 8),
            ThemeId::Magenta => rgb(36, 10, 30),
            ThemeId::Halloween => rgb(30, 10, 50),
            ThemeId::DarkPurple => rgb(18, 18, 18),
            ThemeId::DarkOrange => rgb(18, 18, 18),
            ThemeId::DarkPink => rgb(18, 18, 18),
            ThemeId::DarkRed => rgb(18, 18, 18),
            ThemeId::DarkYellow => rgb(18, 18, 18),
            ThemeId::DarkBlue => rgb(14, 16, 22),
        }
    }

    /// The theme's background of panels.
    pub open spec fn surface_of(self) -> Rgb {
        match self {
            ThemeId::Omarchy => rgb_of(30, 30, 30),
            ThemeId::Crimson => rgb_of(58, 20, 20),
            ThemeId::Emerald => rgb_of(20, 48, 34),
            ThemeId::Amber => rgb_of(50, 34, 16),
            ThemeId::Magenta => rgb_of(50, 20, 42),
            ThemeId::Halloween => rgb_of(42, 18, 65),
            ThemeId::DarkPurple => rgb_of(30, 30, 30),
            ThemeId::DarkOrange => rgb_of(30, 30, 30),
            ThemeId::DarkPink => rgb_of(30, 30, 30),
            ThemeId::DarkRed => rgb_of(30, 30, 30),
            ThemeId::DarkYellow => rgb_of(30, 30, 30),
            ThemeId::DarkBlue => rgb_of(22, 26, 36),
        }
    }

    fn surface(self) -> (r: Rgb)
        ensures
            r == self.surface_of(),
    {
        match self {
            ThemeId::Omarchy => rgb(30, 30, 30),
            ThemeId::Crimson => rgb(58, 20, 20),
            ThemeId::Emerald => rgb(20, 48, 34),
            ThemeId::Amber => rgb(50, 34, 16),
            ThemeId::Magenta => rgb(50, 20, 42),
            ThemeId::Halloween => rgb(42, 18, 65),
            ThemeId::DarkPurple => rgb(30, 30, 30),
            ThemeId::DarkOrange => rgb(30, 30, 30),
            ThemeId::DarkPink => rgb(30, 30, 30),
            ThemeId::DarkRed => rgb(30, 30, 30),
            ThemeId::DarkYellow => rgb(30, 30, 30),
            ThemeId::DarkBlue => rgb(22, 26, 36),
        }
    }

    /// The theme's colour of borders.
    pub open spec fn border_of(self) -> Rgb {
        match self {
            ThemeId::Omarchy => rgb_of(60, 60, 60),
            ThemeId::Crimson => rgb_of(90, 58, 58),
            ThemeId::Emerald => rgb_of(58, 90, 74),
            ThemeId::Amber => rgb_of(90, 74, 58),
            ThemeId::Magenta => rgb_of(90, 58, 80),
            ThemeId::Halloween => rgb_of(80, 50, 90),
            ThemeId::DarkPurple => rgb_of(60, 60, 60),
            ThemeId::DarkOrange => rgb_of(60, 60, 60),
            ThemeId::DarkPink => rgb_of(60, 60, 60),
            ThemeId::DarkRed => rgb_of(60, 60, 60),
            ThemeId::DarkYellow => rgb_of(60, 60, 60),
            ThemeId::DarkBlue => rgb_of(50, 55, 75),
        }
    }

    fn border(self) -> (r: Rgb)
        ensures
            r == self.border_of(),
    {
        match self {
            ThemeId::Omarchy => rgb(60, 60, 60),
            ThemeId::Crimson => rgb(90, 58, 58),
            ThemeId::Emerald => rgb(58, 90, 74),
            ThemeId::Amber => rgb(90, 74, 58),
            ThemeId::Magenta => rgb(90, 58, 80),
            ThemeId::Halloween => rgb(80, 50, 90),
            ThemeId::DarkPurple => rgb(60, 60, 60),
            ThemeId::DarkOrange => rgb(60, 60, 60),
            ThemeId::DarkPink => rgb(60, 60, 60),
            ThemeId::DarkRed => rgb(60, 60, 60),
            ThemeId::DarkYellow => rgb(60, 60, 60),
            ThemeId::DarkBlue => rgb(50, 55, 75),
        }
    }
}

/// No two themes are saved under the same name.
pub proof fn theme_keys_differ(a: ThemeId, b: ThemeId)
    requires
        a.key() == b.key(),
    ensures
        a == b,
{
    reveal_strlit("omarchy");
    reveal_strlit("crimson");
    reveal_strlit("emerald");
    reveal_strlit("amber");
    reveal_strlit("magenta");
    reveal_strlit("halloween");
    reveal_strlit("dark_purple");
    reveal_strlit("dark_orange");
    reveal_strlit("dark_pink");
    reveal_strlit("dark_red");
    reveal_strlit("dark_yellow");
    reveal_strlit("dark_blue");
    assert("omarchy"@.len() == 7 && "crimson"@.len() == 7 && "emerald"@.len() == 7
        && "amber"@.len() == 5 && "magenta"@.len() == 7 && "halloween"@.len() == 9);
    assert("dark_purple"@.len() == 11 && "dark_orange"@.len() == 11 && "dark_pink"@.len() == 9
        && "dark_red"@.len() == 8 && "dark_yellow"@.len() == 11 && "dark_blue"@.len() == 9);
    assert("omarchy"@[0] == 'o' && "crimson"@[0] == 'c' && "emerald"@[0] == 'e' && "magenta"@[0]
        == 'm' && "halloween"@[0] == 'h');
    assert("dark_pink"@[0] == 'd' && "dark_pink"@[5] == 'p' && "dark_blue"@[0] == 'd'
        && "dark_blue"@[5] == 'b');
    assert("dark_purple"@[5] == 'p' && "dark_orange"@[5] == 'o' && "dark_yellow"@[5] == 'y');
}

/// The active theme and what goes with it.
#[derive(Debug, Clone, Copy, PartialEq, Eq, Structural)]
pub struct Theme {
    pub current: ThemeId,
    /// Background transparency: 0 = fully opaque, 100 = fully transparent.
    pub transparency: u8,
    /// Whether a usable palette of the desktop was found at the last detection.
    pub omarchy_available: bool,
    /// The desktop's palette, once it has been read.
    pub palette: Option<Palette>,
}

/// The theme that a client starts with: the saved one; the desktop's own where
/// nothing is saved and it is there; Dark Purple otherwise.
pub open spec fn first_theme(saved: Option<Seq<char>>, omarchy: bool) -> (ThemeId, bool) {
    if exists|id: ThemeId| saved == Some(#[trigger] id.key()) {
        let id = choose|id: ThemeId| saved == Some(#[trigger] id.key());
        if id == ThemeId::Omarchy && !omarchy {
            (ThemeId::DarkPurple, false)
        } else {
            (id, false)
        }
    } else if omarchy {
        (ThemeId::Omarchy, true)
    } else {
        (ThemeId::DarkPurple, false)
    }
}

/// Chooses the theme that a client starts with, and says whether the choice is
/// to be saved. A saved desktop theme that is gone is not rewritten, so it is
/// picked up again when the desktop's palette comes back.
pub fn starting_theme(saved: Option<&str>, omarchy: bool) -> (r: (ThemeId, bool))
    ensures
        r == first_theme(
            match saved {
                Some(s) => Some(s@),
                None => None,
            },
            omarchy,
        ),
{
    let known: Option<ThemeId> = match saved {
        Some(s) => ThemeId::from_str(s),
        None => None,
    };
    let ghost name: Option<Seq<char>> = match saved {
        Some(s) => Some(s@),
        None => None,
    };
    match known {
        Some(id) => {
            proof {
                assert(name == Some(id.key()));
                let other = choose|other: ThemeId| name == Some(#[trigger] other.key());
                theme_keys_differ(id, other);
            }
            if id == ThemeId::Omarchy && !omarchy {
                (ThemeId::DarkPurple, false)
            } else {
                (id, false)
            }
        },
        None => {
            proof {
                assert(forall|id: ThemeId| name != Some(#[trigger] id.key()));
            }
            if omarchy {
                (ThemeId::Omarchy, true)
            } else {
                (ThemeId::DarkPurple, false)
            }
        },
    }
}

impl Theme {
    /// The theme `current` at the saved transparency.
    pub open spec fn started(current: ThemeId, transparency: u8, omarchy: bool) -> Theme {
        Theme {
            current,
            transparency: if transparency > 100 {
                100
            } else {
                transparency
            },
            omarchy_available: omarchy,
            palette: None,
        }
    }

    /// The theme `current` at the saved transparency.
    pub fn new(current: ThemeId, transparency: u8, omarchy: bool) -> (r: Theme)
        ensures
            r == Theme::started(current, transparency, omarchy),
    {
        Theme {
            current,
            transparency: if transparency > 100 {
                100
            } else {
                transparency
            },
            omarchy_available: omarchy,
            palette: None,
        }
    }

    /// Remembers whether a usable palette of the desktop was found, for the
    /// themes that are offered.
    pub fn detect_omarchy(&mut self, found: bool) -> (r: bool)
        ensures
            *final(self) == (Theme { omarchy_available: found, ..*old(self) }),
            r == found,
    {
        self.omarchy_available = found;
        found
    }

    /// Sets the active theme.
    pub fn set(&mut self, id: ThemeId)
        ensures
            *final(self) == (Theme { current: id, ..*old(self) }),
    {
        self.current = id;
    }

    /// Takes over the desktop's palette where the desktop's theme is active and
    /// its palette could be read.
    pub fn refresh_omarchy(&mut self, loaded: Option<Palette>)
        ensures
            *final(self) == (if old(self).current == ThemeId::Omarchy && loaded is Some {
                Theme { palette: loaded, ..*old(self) }
            } else {
                *old(self)
            }),
    {
        if self.current != ThemeId::Omarchy {
            return;
        }
        if loaded.is_some() {
            self.palette = loaded;
        }
    }

    /// The active theme.
    pub fn current(&self) -> (r: ThemeId)
        ensures
            r == self.current,
    {
        self.current
    }

    /// Sets the transparency, at most 100. The switch writes 0 or 100; saved
    /// values in between are kept and read as on or off.
    pub fn set_transparency(&mut self, transparency: u8)
        ensures
            *final(self) == (Theme {
                transparency: if transparency > 100 {
                    100
                } else {
                    transparency
                },
                ..*old(self)
            }),
    {
        self.transparency = if transparency > 100 {
            100
        } else {
            transparency
        };
    }

    /// The stored transparency (0 to 100).
    pub fn transparency(&self) -> (r: u8)
        ensures
            r == self.transparency,
    {
        self.transparency
    }

    /// Whether background transparency is on: any stored value of 50 or more.
    pub fn is_transparent(&self) -> (r: bool)
        ensures
            r == (self.transparency >= 50),
    {
        self.transparency >= 50
    }

    /// The desktop's palette, where its theme is active and has been read.
    pub open spec fn active_palette(self) -> Option<Palette> {
        if self.current == ThemeId::Omarchy {
            self.palette
        } else {
            None
        }
    }

    fn omarchy_palette(&self) -> (r: Option<Palette>)
        ensures
            r == self.active_palette(),
    {
        if self.current == ThemeId::Omarchy {
            self.palette
        } else {
            None
        }
    }

    /// Main colour of the screen.
    pub fn primary(&self) -> (r: Rgb)
        ensures
            r == (match self.active_palette() {
                Some(p) => p.primary,
                None => self.current.primary_of(),
            }),
    {
        match self.omarchy_palette() {
            Some(p) => p.primary,
            None => self.current.primary(),
        }
    }

    /// Second colour of the screen.
    pub fn secondary(&self) -> (r: Rgb)
        ensures
            r == (match self.active_palette() {
                Some(p) => p.secondary,
                None => self.current.secondary_of(),
            }),
    {
        match self.omarchy_palette() {
            Some(p) => p.secondary,
            None => self.current.secondary(),
        }
    }

    /// Background colour.
    pub fn bg(&self) -> (r: Rgb)
        ensures
            r == (match self.active_palette() {
                Some(p) => p.bg,
                None => self.current.bg_of(),
            }),
    {
        match self.omarchy_palette() {
            Some(p) => p.bg,
            None => self.current.bg(),
        }
    }

    /// Background to paint: none (the terminal's own) while transparency is on.
    pub fn bg_with_opacity(&self) -> (r: Option<Rgb>)
        ensures
            r == (if self.transparency >= 50 {
                None
            } else {
                Some(
                    match self.active_palette() {
                        Some(p) => p.bg,
                        None => self.current.bg_of(),
                    },
                )
            }),
    {
        if self.is_transparent() {
            None
        } else {
            Some(self.bg())
        }
    }

    /// Background colour of panels.
    pub fn surface(&self) -> (r: Rgb)
        ensures
            r == (match self.active_palette() {
                Some(p) => p.surface,
                None => self.current.surface_of(),
            }),
    {
        match self.omarchy_palette() {
            Some(p) => p.surface,
            None => self.current.surface(),
        }
    }

    /// Colour of borders.
    pub fn border_color(&self) -> (r: Rgb)
        ensures
            r == (match self.active_palette() {
                Some(p) => p.border,
                None => self.current.border_of(),
            }),
    {
        match self.omarchy_palette() {
            Some(p) => p.border,
            None => self.current.border(),
        }
    }

    /// The colour of text.
    pub open spec fn text_of(self) -> Rgb {
        match self.active_palette() {
            Some(p) => p.text,
            None => rgb_of(230, 230, 230),
        }
    }

    /// The colour of text.
    pub fn text_color(&self) -> (r: Rgb)
        ensures
            r == self.text_of(),
    {
        match self.omarchy_palette() {
            Some(p) => p.text,
            None => rgb(230, 230, 230),
        }
    }

    /// The colour of less important text.
    pub fn text_dim_color(&self) -> (r: Rgb)
        ensures
            r == (match self.active_palette() {
                Some(p) => p.dim,
                None => rgb_of(140, 140, 140),
            }),
    {
        match self.omarchy_palette() {
            Some(p) => p.dim,
            None => rgb(140, 140, 140),
        }
    }

    /// Colour of text on a `primary` fill, on selected rows.
    pub fn highlight_text(&self) -> (r: Rgb)
        ensures
            r == (match self.active_palette() {
                Some(p) => p.on_primary,
                None => rgb_of(230, 230, 230),
            }),
    {
        match self.omarchy_palette() {
            Some(p) => p.on_primary,
            None => self.text_color(),
        }
    }

    /// Colour of text in a notification; none stands for the terminal's white.
    pub fn notification_text(&self) -> (r: Option<Rgb>)
        ensures
            r == (match self.active_palette() {
                Some(p) => Some(p.on_primary),
                None => None,
            }),
    {
        match self.omarchy_palette() {
            Some(p) => Some(p.on_primary),
            None => None,
        }
    }

    /// The colour of text on a `secondary` fill: dark on the themes whose second
    /// colour is light.
    pub open spec fn on_secondary_of(self) -> Rgb {
        match self.active_palette() {
            Some(p) => p.on_secondary,
            None => match self.current {
                ThemeId::Omarchy
                | ThemeId::Emerald
                | ThemeId::Amber
                | ThemeId::DarkOrange
                | ThemeId::DarkYellow => rgb_of(30, 30, 30),
                _ => self.text_of(),
            },
        }
    }

    /// Colour of text on a `secondary` fill.
    pub fn shortcut_flow_text(&self) -> (r: Rgb)
        ensures
            r == self.on_secondary_of(),
    {
        match self.omarchy_palette() {
            Some(p) => p.on_secondary,
            None => match self.current {
                ThemeId::Omarchy
                | ThemeId::Emerald
                | ThemeId::Amber
                | ThemeId::DarkOrange
                | ThemeId::DarkYellow => rgb(30, 30, 30),
                _ => self.text_color(),
            },
        }
    }
}

/// Setting the transparency switch and reading it back agree.
pub proof fn transparency_is_a_switch(theme: Theme, on: bool)
    ensures
        ({
            let written: u8 = if on {
                100
            } else {
                0
            };
            let after = Theme { transparency: written, ..theme };
            (after.transparency >= 50) == on
        }),
{
}

/// The value of a hexadecimal digit.
pub open spec fn hex_value(c: char) -> Option<int> {
    if '0' <= c <= '9' {
        Some(c as int - '0' as int)
    } else if 'a' <= c <= 'f' {
        Some(c as int - 'a' as int + 10)
    } else if 'A' <= c <= 'F' {
        Some(c as int - 'A' as int + 10)
    } else {
        None
    }
}

fn hex_digit(c: char) -> (r: Option<u8>)
    ensures
        r matches Some(v) ==> hex_value(c) == Some(v as int) && v < 16,
        r is None ==> hex_value(c) is None,
{
    let code: u32 = c as u32;
    if '0' <= c && c <= '9' {
        Some((code - 48) as u8)
    } else if 'a' <= c && c <= 'f' {
        Some((code - 87) as u8)
    } else if 'A' <= c && c <= 'F' {
        Some((code - 55) as u8)
    } else {
        None
    }
}

/// A byte written as two characters in base sixteen: two digits, or a plus sign
/// and a digit.
pub open spec fn hex_byte(a: char, b: char) -> Option<int> {
    match hex_value(b) {
        Some(low) => if a == '+' {
            Some(low)
        } else {
            match hex_value(a) {
                Some(high) => Some(high * 16 + low),
                None => None,
            }
        },
        None => None,
    }
}

fn hex_pair(a: char, b: char) -> (r: Option<u8>)
    ensures
        r matches Some(v) ==> hex_byte(a, b) == Some(v as int),
        r is None ==> hex_byte(a, b) is None,
{
    match hex_digit(b) {
        Some(low) => if a == '+' {
            Some(low)
        } else {
            match hex_digit(a) {
                Some(high) => Some(high * 16 + low),
                None => None,
            }
        },
        None => None,
    }
}

/// `s` without the characters `c` that it begins with.
pub open spec fn without_leading(s: Seq<char>, c: char) -> Seq<char>
    decreases s.len(),
{
    if s.len() > 0 && s[0] == c {
        without_leading(s.skip(1), c)
    } else {
        s
    }
}

/// `s` without the characters `c` that it ends with.
pub open spec fn without_trailing(s: Seq<char>, c: char) -> Seq<char>
    decreases s.len(),
{
    if s.len() > 0 && s.last() == c {
        without_trailing(s.drop_last(), c)
    } else {
        s
    }
}

/// What a colour's text holds between blanks, quotes and hash signs.
pub open spec fn hex_part(value: Seq<char>) -> Seq<char> {
    without_leading(without_leading(without_trailing(text::trimmed(value), '"'), '"'), '#')
}

/// The colour that `value` writes as six characters in base sixteen.
pub open spec fn hex_color(value: Seq<char>) -> Option<Rgb> {
    let hex = hex_part(value);
    if hex.len() != 6 {
        None
    } else {
        match (hex_byte(hex[0], hex[1]), hex_byte(hex[2], hex[3]), hex_byte(hex[4], hex[5])) {
            (Some(red), Some(green), Some(blue)) => Some(
                rgb_of(red as u8, green as u8, blue as u8),
            ),
            _ => None,
        }
    }
}

fn skip_leading(chars: &Vec<char>, from: usize, to: usize, c: char) -> (r: usize)
    requires
        from <= to <= chars@.len(),
    ensures
        from <= r <= to,
        chars@.subrange(r as int, to as int) == without_leading(
            chars@.subrange(from as int, to as int),
            c,
        ),
{
    let mut at: usize = from;
    while at < to && chars[at] == c
        invariant
            from <= at <= to <= chars@.len(),
            without_leading(chars@.subrange(at as int, to as int), c) == without_leading(
                chars@.subrange(from as int, to as int),
                c,
            ),
        decreases to - at,
    {
        proof {
            assert(chars@.subrange(at as int, to as int).skip(1) =~= chars@.subrange(
                at + 1,
                to as int,
            ));
        }
        at = at + 1;
    }
    at
}

fn skip_trailing(chars: &Vec<char>, to: usize, c: char) -> (r: usize)
    requires
        to <= chars@.len(),
    ensures
        r <= to,
        chars@.subrange(0, r as int) == without_trailing(chars@.subrange(0, to as int), c),
{
    let mut end: usize = to;
    while end > 0 && chars[end - 1] == c
        invariant
            end <= to <= chars@.len(),
            without_trailing(chars@.subrange(0, end as int), c) == without_trailing(
                chars@.subrange(0, to as int),
                c,
            ),
        decreases end,
    {
        proof {
            assert(chars@.subrange(0, end as int).drop_last() =~= chars@.subrange(0, end - 1));
        }
        end = end - 1;
    }
    end
}

/// Reads a colour such as `"#7aa2f7"`.
pub fn parse_hex_color(value: &str) -> (r: Option<Rgb>)
    ensures
        r == hex_color(value@),
{
    let trimmed: String = trim(value);
    let chars: Vec<char> = chars_of(&trimmed);
    proof {
        assert(chars@.subrange(0, chars@.len() as int) =~= chars@);
    }
    let end: usize = skip_trailing(&chars, chars.len(), '"');
    let start: usize = skip_leading(&chars, 0, end, '"');
    let at: usize = skip_leading(&chars, start, end, '#');
    if end - at != 6 {
        return None;
    }
    match (
        hex_pair(chars[at], chars[at + 1]),
        hex_pair(chars[at + 2], chars[at + 3]),
        hex_pair(chars[at + 4], chars[at + 5]),
    ) {
        (Some(red), Some(green), Some(blue)) => Some(rgb(red, green, blue)),
        _ => None,
    }
}

/// The colour that one line of a colour file gives to `name`.
pub open spec fn color_in_line(line: Seq<char>, name: Seq<char>) -> Option<Rgb> {
    match text::split_at(line, '=') {
        Some((key, value)) => if text::trimmed(key) == name {
            hex_color(value)
        } else {
            None
        },
        None => None,
    }
}

/// The first colour that a colour file gives to `name`.
pub open spec fn color_named(contents: Seq<char>, name: Seq<char>) -> Option<Rgb>
    decreases contents.len(),
{
    match text::split_at(contents, '\n') {
        Some((line, rest)) => if rest.len() < contents.len() {
            match color_in_line(line, name) {
                Some(c) => Some(c),
                None => color_named(rest, name),
            }
        } else {
            None
        },
        None => color_in_line(contents, name),
    }
}

fn line_color(line: &str, name: &str) -> (r: Option<Rgb>)
    ensures
        r == color_in_line(line@, name@),
{
    match split_once(line, '=') {
        Some((key, value)) => {
            let key: String = trim(&key);
            if same_text(&key, name) {
                parse_hex_color(&value)
            } else {
                None
            }
        },
        None => None,
    }
}

fn find_color(contents: &str, name: &str) -> (r: Option<Rgb>)
    ensures
        r == color_named(contents@, name@),
    decreases contents@.len(),
{
    match split_once(contents, '\n') {
        Some((line, rest)) => match line_color(&line, name) {
            Some(c) => Some(c),
            None => find_color(&rest, name),
        },
        None => line_color(contents, name),
    }
}

/// The colours that the desktop's theme file names, as they stand there.
#[derive(Debug, Clone, Copy, PartialEq, Eq, Structural)]
pub struct OmarchyColors {
    pub background: Rgb,
    pub lighter_background: Rgb,
    pub foreground: Rgb,
    pub accent: Rgb,
    pub magenta: Rgb,
    pub muted: Rgb,
    pub dark_foreground: Rgb,
    /// The one colour that may be missing.
    pub bright_foreground: Option<Rgb>,
}

/// The theme file names this colour.
pub open spec fn names(contents: Seq<char>, name: Seq<char>) -> bool {
    color_named(contents, name) is Some
}

/// Reads the desktop's theme file. There is a palette where every colour but
/// the bright foreground is named.
pub fn colors_from_toml(contents: &str) -> (r: Option<OmarchyColors>)
    ensures
        r is Some <==> names(contents@, "background"@) && names(contents@, "lighter_background"@)
            && names(contents@, "foreground"@) && names(contents@, "accent"@) && names(
            contents@,
            "magenta"@,
        ) && names(contents@, "muted"@) && names(contents@, "dark_foreground"@),
        r matches Some(c) ==> {
            &&& Some(c.background) == color_named(contents@, "background"@)
            &&& Some(c.lighter_background) == color_named(contents@, "lighter_background"@)
            &&& Some(c.foreground) == color_named(contents@, "foreground"@)
            &&& Some(c.accent) == color_named(contents@, "accent"@)
            &&& Some(c.magenta) == color_named(contents@, "magenta"@)
            &&& Some(c.muted) == color_named(contents@, "muted"@)
            &&& Some(c.dark_foreground) == color_named(contents@, "dark_foreground"@)
            &&& c.bright_foreground == color_named(contents@, "bright_foreground"@)
        },
{
    let background: Option<Rgb> = find_color(contents, "background");
    let lighter_background: Option<Rgb> = find_color(contents, "lighter_background");
    let foreground: Option<Rgb> = find_color(contents, "foreground");
    let accent: Option<Rgb> = find_color(contents, "accent");
    let magenta: Option<Rgb> = find_color(contents, "magenta");
    let muted: Option<Rgb> = find_color(contents, "muted");
    let dark_foreground: Option<Rgb> = find_color(contents, "dark_foreground");
    let bright_foreground: Option<Rgb> = find_color(contents, "bright_foreground");
    match (background, lighter_background, foreground, accent) {
        (Some(background), Some(lighter_background), Some(foreground), Some(accent)) => match (
            magenta,
            muted,
            dark_foreground,
        ) {
            (Some(magenta), Some(muted), Some(dark_foreground)) => Some(
                OmarchyColors {
                    background,
                    lighter_background,
                    foreground,
                    accent,
                    magenta,
                    muted,
                    dark_foreground,
                    bright_foreground,
                },
            ),
            _ => None,
        },
        _ => None,
    }
}

} // verus!
