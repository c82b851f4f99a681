use deezer_tui::theme::styles::Ink;
use deezer_tui::theme::{colors_from_toml, parse_hex_color, starting_theme, Palette, Rgb, Theme, ThemeId};

const TOKYO_NIGHT: &str = r##"
accent = "#7aa2f7"
muted = "#414868"
background = "#1a1b26"
lighter_background = "#24283b"
foreground = "#a9b1d6"
dark_foreground = "#565f89"
bright_foreground = "#c0caf5"
magenta = "#ad8ee6"
"##;

fn rgb(r: u8, g: u8, b: u8) -> Rgb {
    Rgb {
        red: r,
        green: g,
        blue: b,
    }
}

#[test]
fn omarchy_hidden_unless_detected() {
    let mut theme = Theme::new(ThemeId::DarkPurple, 0, false);
    theme.detect_omarchy(false);
    assert!(!ThemeId::available(theme.omarchy_available).contains(&ThemeId::Omarchy));
    assert_eq!(
        ThemeId::available(theme.omarchy_available).len(),
        ThemeId::all().len() - 1
    );
    theme.detect_omarchy(true);
    assert_eq!(ThemeId::available(theme.omarchy_available), ThemeId::all());
}

#[test]
fn theme_names_are_read_back() {
    for id in ThemeId::all() {
        assert_eq!(ThemeId::from_str(id.as_str()), Some(id));
        assert!(!id.label().is_empty());
    }
    assert_eq!(ThemeId::from_str("no such theme"), None);
}

#[test]
fn the_desktop_decides_the_first_theme() {
    assert_eq!(starting_theme(None, true), (ThemeId::Omarchy, true));
    assert_eq!(starting_theme(None, false), (ThemeId::DarkPurple, false));
    let omarchy = ThemeId::Omarchy.as_str();
    assert_eq!(starting_theme(Some(omarchy), false), (ThemeId::DarkPurple, false));
    assert_eq!(starting_theme(Some(omarchy), true), (ThemeId::Omarchy, false));
    assert_eq!(
        starting_theme(Some(ThemeId::Amber.as_str()), true),
        (ThemeId::Amber, false)
    );
}

#[test]
fn transparency_is_a_switch() {
    let mut theme = Theme::new(ThemeId::Amber, 0, false);
    assert!(!theme.is_transparent());
    theme.set_transparency(100);
    assert!(theme.is_transparent());
    assert_eq!(theme.bg_with_opacity(), None);
    theme.set_transparency(0);
    assert_eq!(theme.bg_with_opacity(), Some(theme.bg()));
    theme.set_transparency(200);
    assert_eq!(theme.transparency(), 100);
}

#[test]
fn colours_are_read() {
    assert_eq!(parse_hex_color(" \"#7aa2f7\" "), Some(rgb(0x7a, 0xa2, 0xf7)));
    assert_eq!(parse_hex_color("#FFFFFF"), Some(rgb(255, 255, 255)));
    assert_eq!(parse_hex_color("#12345"), None);
    assert_eq!(parse_hex_color("#12345g"), None);
}

#[test]
fn theme_files_name_their_colours() {
    let colors = colors_from_toml(TOKYO_NIGHT).unwrap();
    assert_eq!(colors.accent, rgb(0x7a, 0xa2, 0xf7));
    assert_eq!(colors.background, rgb(0x1a, 0x1b, 0x26));
    assert_eq!(colors.bright_foreground, Some(rgb(0xc0, 0xca, 0xf5)));
    let without = TOKYO_NIGHT.replace("muted", "other");
    assert_eq!(colors_from_toml(&without), None);
    let plain = TOKYO_NIGHT.replace("bright_foreground", "other");
    assert_eq!(colors_from_toml(&plain).unwrap().bright_foreground, None);
}

#[test]
fn the_desktop_palette_is_used_by_its_own_theme_only() {
    let grey = rgb(9, 9, 9);
    let palette = Palette {
        primary: rgb(1, 2, 3),
        secondary: grey,
        bg: grey,
        surface: grey,
        border: grey,
        text: grey,
        dim: grey,
        on_primary: grey,
        on_secondary: grey,
    };
    let mut theme = Theme::new(ThemeId::Amber, 0, true);
    theme.refresh_omarchy(Some(palette));
    assert_ne!(theme.primary(), rgb(1, 2, 3));
    theme.set(ThemeId::Omarchy);
    theme.refresh_omarchy(Some(palette));
    assert_eq!(theme.primary(), rgb(1, 2, 3));
    theme.refresh_omarchy(None);
    assert_eq!(theme.primary(), rgb(1, 2, 3), "an unreadable palette changes nothing");
}

#[test]
fn selected_rows_and_chips_are_filled() {
    let theme = Theme::new(ThemeId::Emerald, 0, false);
    let row = theme.highlight();
    assert_eq!(row.bg, Some(rgb(46, 204, 113)));
    assert_eq!(row.fg, Ink::Exact(rgb(230, 230, 230)));
    assert!(row.bold);
    let chip = theme.shortcut_flow_chip();
    assert_eq!(chip.bg, Some(rgb(0, 210, 255)));
    assert_eq!(chip.fg, Ink::Exact(rgb(30, 30, 30)));
    assert_eq!(theme.notification().fg, Ink::White);
    assert!(theme.shortcut_key().underlined);
    assert_eq!(theme.dim().fg, Ink::Exact(rgb(140, 140, 140)));
    assert_eq!(theme.success(), rgb(0, 204, 0));
}
