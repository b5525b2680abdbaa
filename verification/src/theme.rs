//! The theme registry: three named palettes that the front end cycles
//! through in a fixed order.

use vstd::prelude::*;

verus! {

/// The terminal colors the palettes draw on.
#[derive(Clone, Copy, Debug, PartialEq, Eq, Structural)]
pub enum Color {
    /// The terminal's own default color.
    Reset,
    Black,
    White,
    Yellow,
    Green,
    Blue,
    Gray,
    Red,
    DarkGray,
}

/// One color per role on the screen.
#[derive(Clone, Copy, Debug, PartialEq, Eq, Structural)]
pub struct Palette {
    pub background: Color,
    pub foreground: Color,
    pub highlight: Color,
    pub accent: Color,
    /// Muted text, used for entries that are not selected.
    pub text: Color,
}

impl Palette {
    /// The colors of [`Theme::Default`].
    pub open spec fn spec_standard() -> Palette {
        Palette {
            background: Color::Reset,
            foreground: Color::White,
            highlight: Color::Yellow,
            accent: Color::Green,
            text: Color::Gray,
        }
    }

    /// The colors of [`Theme::Dark`].
    pub open spec fn spec_dark() -> Palette {
        Palette {
            background: Color::Black,
            foreground: Color::White,
            highlight: Color::Yellow,
            accent: Color::Blue,
            text: Color::Gray,
        }
    }

    /// The colors of [`Theme::Light`].
    pub open spec fn spec_light() -> Palette {
        Palette {
            background: Color::White,
            foreground: Color::Black,
            highlight: Color::Red,
            accent: Color::Blue,
            text: Color::DarkGray,
        }
    }

    #[verifier::when_used_as_spec(spec_standard)]
    pub fn standard() -> (palette: Palette)
        ensures
            palette == Palette::spec_standard(),
    {
        Palette {
            background: Color::Reset,
            foreground: Color::White,
            highlight: Color::Yellow,
            accent: Color::Green,
            text: Color::Gray,
        }
    }

    #[verifier::when_used_as_spec(spec_dark)]
    pub fn dark() -> (palette: Palette)
        ensures
            palette == Palette::spec_dark(),
    {
        Palette {
            background: Color::Black,
            foreground: Color::White,
            highlight: Color::Yellow,
            accent: Color::Blue,
            text: Color::Gray,
        }
    }

    #[verifier::when_used_as_spec(spec_light)]
    pub fn light() -> (palette: Palette)
        ensures
            palette == Palette::spec_light(),
    {
        Palette {
            background: Color::White,
            foreground: Color::Black,
            highlight: Color::Red,
            accent: Color::Blue,
            text: Color::DarkGray,
        }
    }
}

/// The active theme. It belongs to the session but is independent of
/// question progress: only a theme-cycle event changes it.
#[derive(Clone, Copy, Debug, PartialEq, Eq, Structural)]
pub enum Theme {
    Default,
    Dark,
    Light,
}

impl Theme {
    /// The successor in the cycle Default, Dark, Light, Default.
    pub open spec fn spec_next(self) -> Theme {
        match self {
            Theme::Default => Theme::Dark,
            Theme::Dark => Theme::Light,
            Theme::Light => Theme::Default,
        }
    }

    /// The palette a theme stands for.
    pub open spec fn spec_palette(self) -> Palette {
        match self {
            Theme::Default => Palette::spec_standard(),
            Theme::Dark => Palette::spec_dark(),
            Theme::Light => Palette::spec_light(),
        }
    }

    #[verifier::when_used_as_spec(spec_next)]
    pub fn next(self) -> (successor: Theme)
        ensures
            successor == self.spec_next(),
    {
        match self {
            Theme::Default => Theme::Dark,
            Theme::Dark => Theme::Light,
            Theme::Light => Theme::Default,
        }
    }

    #[verifier::when_used_as_spec(spec_palette)]
    pub fn palette(self) -> (palette: Palette)
        ensures
            palette == self.spec_palette(),
    {
        match self {
            Theme::Default => Palette::standard(),
            Theme::Dark => Palette::dark(),
            Theme::Light => Palette::light(),
        }
    }
}

impl Default for Theme {
    fn default() -> (theme: Theme)
        ensures
            theme == Theme::Default,
    {
        Theme::Default
    }
}

/// Cycling visits every theme and comes back: three steps from any theme
/// lead to that theme again, and fewer do not.
pub proof fn theme_cycle_has_period_three(theme: Theme)
    ensures
        theme.next().next().next() == theme,
        theme.next() != theme,
        theme.next().next() != theme,
{
}

} // verus!
