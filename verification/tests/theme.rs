use zaptui::theme::{Color, Theme};

#[test]
fn terminal_theme_uses_the_palette() {
    let theme = Theme::terminal();
    assert_eq!(theme.text, Color::Reset);
    assert_eq!(theme.system, Color::DarkGray);
    assert_eq!(theme.border, Color::Gray);
    assert_eq!(theme.border_focused, Color::Green);
    assert_eq!(theme.me, Color::Cyan);
    assert_eq!(theme.other, Color::Green);
    assert_eq!(theme.highlight, Color::Yellow);
    assert_eq!(theme.primary, Color::Blue);
}

#[test]
fn every_name_selects_the_terminal_theme() {
    assert_eq!(Theme::from_name("terminal"), Theme::terminal());
    assert_eq!(Theme::from_name("dark"), Theme::terminal());
    assert_eq!(Theme::from_name(""), Theme::terminal());
}

#[test]
fn focused_border_differs_from_plain_border() {
    let theme = Theme::terminal();
    assert_ne!(theme.border, theme.border_focused);
}
