//! Named colour roles of the interface.

use vstd::prelude::*;

verus! {

/// The terminal palette entries the interface uses.
#[derive(Debug, Clone, Copy, PartialEq, Eq, Structural)]
pub enum ThemeColor {
    DarkGray,
    Gray,
    Green,
    Cyan,
    Yellow,
    Blue,
}

/// One colour for each role.
#[derive(Debug, Clone, Copy, PartialEq, Eq, Structural)]
pub struct Theme {
    pub system: ThemeColor,
    /// Border of a pane without focus.
    pub border: ThemeColor,
    /// Border of the pane with focus.
    pub border_focused: ThemeColor,
    pub me: ThemeColor,
    pub other: ThemeColor,
    pub highlight: ThemeColor,
    pub primary: ThemeColor,
}

pub open spec fn terminal_theme() -> Theme {
    Theme {
        system: ThemeColor::DarkGray,
        border: ThemeColor::Gray,
        border_focused: ThemeColor::Green,
        me: ThemeColor::Cyan,
        other: ThemeColor::Green,
        highlight: ThemeColor::Yellow,
        primary: ThemeColor::Blue,
    }
}

impl Theme {
    /// The preset that follows the terminal's own palette.
    pub fn terminal() -> (r: Theme)
        ensures
            r == terminal_theme(),
    {
        Theme {
            system: ThemeColor::DarkGray,
            border: ThemeColor::Gray,
            border_focused: ThemeColor::Green,
            me: ThemeColor::Cyan,
            other: ThemeColor::Green,
            highlight: ThemeColor::Yellow,
            primary: ThemeColor::Blue,
        }
    }
}

} // verus!
