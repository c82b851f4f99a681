//! How the parts of the screen are drawn: colours and text styles of the active
//! theme.

use vstd::prelude::*;

use crate::theme;
use crate::theme::{Rgb, Theme};

verus! {

/// A colour of text: one by its parts, or the terminal's own white.
#[derive(Debug, Clone, Copy, PartialEq, Eq, Structural)]
pub enum Ink {
    Exact(Rgb),
    White,
}

/// How a piece of text is drawn.
#[derive(Debug, Clone, Copy, PartialEq, Eq, Structural)]
pub struct TextStyle {
    pub fg: Ink,
    /// Fill behind the text, where there is one.
    pub bg: Option<Rgb>,
    pub bold: bool,
    pub underlined: bool,
}

/// Text of this colour.
pub open spec fn inked(color: Rgb) -> TextStyle {
    TextStyle { fg: Ink::Exact(color), bg: None, bold: false, underlined: false }
}

/// Bold text of this colour.
pub open spec fn bold(color: Rgb) -> TextStyle {
    TextStyle { bold: true, ..inked(color) }
}

fn ink(color: Rgb) -> (r: TextStyle)
    ensures
        r == inked(color),
{
    TextStyle { fg: Ink::Exact(color), bg: None, bold: false, underlined: false }
}

fn ink_bold(color: Rgb) -> (r: TextStyle)
    ensures
        r == bold(color),
{
    TextStyle { fg: Ink::Exact(color), bg: None, bold: true, underlined: false }
}

impl Theme {
    /// Main colour of the screen.
    pub open spec fn primary_of(self) -> Rgb {
        match self.active_palette() {
            Some(p) => p.primary,
            None => self.current.primary_of(),
        }
    }

    /// Second colour of the screen.
    pub open spec fn secondary_of(self) -> Rgb {
        match self.active_palette() {
            Some(p) => p.secondary,
            None => self.current.secondary_of(),
        }
    }

    /// Colour of less important text.
    pub open spec fn dim_of(self) -> Rgb {
        match self.active_palette() {
            Some(p) => p.dim,
            None => theme::rgb_of(140, 140, 140),
        }
    }

    /// Colour of borders.
    pub open spec fn border_of(self) -> Rgb {
        match self.active_palette() {
            Some(p) => p.border,
            None => self.current.border_of(),
        }
    }

    /// Colour of good news.
    pub fn success(&self) -> (r: Rgb)
        ensures
            r == theme::rgb_of(0, 204, 0),
    {
        Rgb { red: 0, green: 204, blue: 0 }
    }

    /// Colour of the border of what has the focus.
    pub fn border_focused_color(&self) -> (r: Rgb)
        ensures
            r == self.primary_of(),
    {
        self.primary()
    }

    /// Colour of the part of the track that was played.
    pub fn progress_fill(&self) -> (r: Rgb)
        ensures
            r == self.primary_of(),
    {
        self.primary()
    }

    /// Colour of the rest of the track.
    pub fn progress_bg(&self) -> (r: Rgb)
        ensures
            r == theme::rgb_of(50, 50, 50),
    {
        Rgb { red: 50, green: 50, blue: 50 }
    }

    /// Colour of the open tab.
    pub fn tab_active_color(&self) -> (r: Rgb)
        ensures
            r == self.primary_of(),
    {
        self.primary()
    }

    /// Colour of the other tabs.
    pub fn tab_inactive_color(&self) -> (r: Rgb)
        ensures
            r == self.text_of(),
    {
        self.text_color()
    }

    /// Titles.
    pub fn title(&self) -> (r: TextStyle)
        ensures
            r == bold(self.text_of()),
    {
        ink_bold(self.text_color())
    }

    /// Ordinary text.
    pub fn text(&self) -> (r: TextStyle)
        ensures
            r == inked(self.text_of()),
    {
        ink(self.text_color())
    }

    /// Less important text.
    pub fn dim(&self) -> (r: TextStyle)
        ensures
            r == inked(self.dim_of()),
    {
        ink(self.text_dim_color())
    }

    /// Selected rows.
    pub fn highlight(&self) -> (r: TextStyle)
        ensures
            r == (TextStyle {
                fg: Ink::Exact(
                    match self.active_palette() {
                        Some(p) => p.on_primary,
                        None => self.text_of(),
                    },
                ),
                bg: Some(self.primary_of()),
                bold: true,
                underlined: false,
            }),
    {
        TextStyle {
            fg: Ink::Exact(self.highlight_text()),
            bg: Some(self.primary()),
            bold: true,
            underlined: false,
        }
    }

    /// Borders.
    pub fn border(&self) -> (r: TextStyle)
        ensures
            r == inked(self.border_of()),
    {
        ink(self.border_color())
    }

    /// The border of what has the focus.
    pub fn border_focused(&self) -> (r: TextStyle)
        ensures
            r == inked(self.primary_of()),
    {
        ink(self.border_focused_color())
    }

    /// The open tab.
    pub fn tab_active(&self) -> (r: TextStyle)
        ensures
            r == bold(self.primary_of()),
    {
        ink_bold(self.tab_active_color())
    }

    /// The other tabs.
    pub fn tab_inactive(&self) -> (r: TextStyle)
        ensures
            r == inked(self.text_of()),
    {
        ink(self.tab_inactive_color())
    }

    /// The key of a shortcut.
    pub fn shortcut_key(&self) -> (r: TextStyle)
        ensures
            r == (TextStyle { underlined: true, ..bold(self.secondary_of()) }),
    {
        TextStyle { underlined: true, ..ink_bold(self.secondary()) }
    }

    /// A notification: light text on the main colour.
    pub fn notification(&self) -> (r: TextStyle)
        ensures
            r == (TextStyle {
                fg: match self.active_palette() {
                    Some(p) => Ink::Exact(p.on_primary),
                    None => Ink::White,
                },
                bg: Some(self.primary_of()),
                bold: true,
                underlined: false,
            }),
    {
        TextStyle {
            fg: match self.notification_text() {
                Some(color) => Ink::Exact(color),
                None => Ink::White,
            },
            bg: Some(self.primary()),
            bold: true,
            underlined: false,
        }
    }

    /// The Flow shortcut: filled with the second colour, so that it stands out.
    pub fn shortcut_flow_chip(&self) -> (r: TextStyle)
        ensures
            r == (TextStyle {
                fg: Ink::Exact(self.on_secondary_of()),
                bg: Some(self.secondary_of()),
                bold: true,
                underlined: false,
            }),
    {
        TextStyle {
            fg: Ink::Exact(self.shortcut_flow_text()),
            bg: Some(self.secondary()),
            bold: true,
            underlined: false,
        }
    }
}

} // verus!
