//! Colours of the interface.

use vstd::prelude::*;

verus! {

/// A terminal colour: the named palette entries, a 24-bit value, or an index
/// into the 256-colour table.
#[derive(Clone, Copy, Debug, PartialEq, Eq, Structural)]
pub enum Color {
    /// The terminal's own default.
    Reset,
    Black,
    Red,
    Green,
    Yellow,
    Blue,
    Magenta,
    Cyan,
    Gray,
    DarkGray,
    LightRed,
    LightGreen,
    LightYellow,
    LightBlue,
    LightMagenta,
    LightCyan,
    White,
    /// Red, green and blue.
    Rgb(u8, u8, u8),
    /// An entry of the 256-colour table.
    Indexed(u8),
}

/// The colour of each part of the interface.
#[derive(Clone, Copy, Debug, PartialEq, Eq, Structural)]
pub struct Theme {
    /// Ordinary text.
    pub text: Color,
    /// Notices that come from the program, not from a person.
    pub system: Color,
    /// The border of a pane that does not have the focus.
    pub border: Color,
    /// The border of the pane that has the focus.
    pub border_focused: Color,
    /// Messages written by the user.
    pub me: Color,
    /// Messages written by somebody else.
    pub other: Color,
    /// The selected entry.
    pub highlight: Color,
    /// Titles and other accents.
    pub primary: Color,
}

impl Theme {
    /// The theme that leaves the choice of shades to the terminal's palette.
    pub open spec fn terminal_palette() -> Theme {
        Theme {
            text: Color::Reset,
            system: Color::DarkGray,
            border: Color::Gray,
            border_focused: Color::Green,
            me: Color::Cyan,
            other: Color::Green,
            highlight: Color::Yellow,
            primary: Color::Blue,
        }
    }

    /// Builds the theme of the terminal's palette.
    pub fn terminal() -> (theme: Self)
        ensures
            theme == Self::terminal_palette(),
    {
        Theme {
            text: Color::Reset,
            system: Color::DarkGray,
            border: Color::Gray,
            border_focused: Color::Green,
            me: Color::Cyan,
            other: Color::Green,
            highlight: Color::Yellow,
            primary: Color::Blue,
        }
    }

    /// Looks a theme up by name. Every name selects the terminal's palette.
    pub fn from_name(_name: &str) -> (theme: Self)
        ensures
            theme == Self::terminal_palette(),
    {
        Self::terminal()
    }
}

} // verus!
