//! Color themes and the order in which they cycle.

use vstd::prelude::*;

verus! {

/// A named color theme.
#[derive(Debug, Clone, Copy, PartialEq, Eq, Structural)]
pub enum ThemeName {
    Slate,
    Midnight,
    Parchment,
    Gospel,
    /// The terminal's own colors, with a transparent background.
    Terminal,
}

/// The theme after `t` in the cycle Slate, Midnight, Parchment, Gospel,
/// Terminal.
pub open spec fn next_spec(t: ThemeName) -> ThemeName {
    match t {
        ThemeName::Slate => ThemeName::Midnight,
        ThemeName::Midnight => ThemeName::Parchment,
        ThemeName::Parchment => ThemeName::Gospel,
        ThemeName::Gospel => ThemeName::Terminal,
        ThemeName::Terminal => ThemeName::Slate,
    }
}

/// The label shown for `t`.
pub open spec fn label_spec(t: ThemeName) -> Seq<char> {
    match t {
        ThemeName::Slate => "Slate"@,
        ThemeName::Midnight => "Midnight"@,
        ThemeName::Parchment => "Parchment"@,
        ThemeName::Gospel => "Gospel"@,
        ThemeName::Terminal => "Terminal"@,
    }
}

impl ThemeName {
    /// The next theme in the cycle.
    pub fn next(self) -> (r: Self)
        ensures
            r == next_spec(self),
    {
        match self {
            ThemeName::Slate => ThemeName::Midnight,
            ThemeName::Midnight => ThemeName::Parchment,
            ThemeName::Parchment => ThemeName::Gospel,
            ThemeName::Gospel => ThemeName::Terminal,
            ThemeName::Terminal => ThemeName::Slate,
        }
    }

    /// The theme's display name.
    pub fn label(self) -> (r: &'static str)
        ensures
            r@ == label_spec(self),
    {
        match self {
            ThemeName::Slate => "Slate",
            ThemeName::Midnight => "Midnight",
            ThemeName::Parchment => "Parchment",
            ThemeName::Gospel => "Gospel",
            ThemeName::Terminal => "Terminal",
        }
    }
}

impl Default for ThemeName {
    /// Slate is the default theme.
    fn default() -> (r: Self)
        ensures
            r == ThemeName::Slate,
    {
        ThemeName::Slate
    }
}

/// Pressing `t` five times comes back to the theme one started from, and
/// no press leaves the theme unchanged.
pub proof fn lemma_next_cycles(t: ThemeName)
    ensures
        next_spec(next_spec(next_spec(next_spec(next_spec(t))))) == t,
        next_spec(t) != t,
{
}

/// Every theme has its own label.
pub proof fn lemma_labels_distinct(a: ThemeName, b: ThemeName)
    ensures
        a != b ==> label_spec(a) != label_spec(b),
{
    reveal_strlit("Slate");
    reveal_strlit("Midnight");
    reveal_strlit("Parchment");
    reveal_strlit("Gospel");
    reveal_strlit("Terminal");
    if a != b {
        assert(label_spec(a).len() != label_spec(b).len() || label_spec(a)[0] != label_spec(b)[0]);
    }
}

/// A 24-bit color.
#[derive(Debug, Clone, Copy, PartialEq, Eq, Structural)]
pub struct Rgb {
    pub r: u8,
    pub g: u8,
    pub b: u8,
}

/// A color of a theme: a 24-bit color, one of the terminal's 256 indexed
/// colors, or the terminal's own default (transparent as a background).
#[derive(Debug, Clone, Copy, PartialEq, Eq, Structural)]
pub enum Color {
    Default,
    Indexed(u8),
    Rgb(Rgb),
}

/// The colors of a theme.
#[derive(Debug, Clone, Copy, PartialEq, Eq, Structural)]
pub struct Theme {
    pub bg: Color,
    pub surface: Color,
    pub border: Color,
    pub border_active: Color,
    pub text: Color,
    pub text_dim: Color,
    pub text_muted: Color,
    pub accent: Color,
    pub accent_soft: Color,
    pub highlight_bg: Color,
    pub search_match: Color,
}

pub open spec fn rgb(r: u8, g: u8, b: u8) -> Color {
    Color::Rgb(Rgb { r, g, b })
}

/// The palette of each theme.
pub open spec fn theme_spec(name: ThemeName) -> Theme {
    match name {
        // Slate: cool blue-gray dark theme (default)
        ThemeName::Slate => Theme {
            bg: rgb(15, 23, 42),
            surface: rgb(30, 41, 59),
            border: rgb(71, 85, 105),
            border_active: rgb(226, 232, 240),
            text: rgb(241, 245, 249),
            text_dim: rgb(148, 163, 184),
            text_muted: rgb(100, 116, 139),
            accent: rgb(255, 255, 255),
            accent_soft: rgb(203, 213, 225),
            highlight_bg: rgb(55, 70, 95),
            search_match: rgb(251, 191, 36),
        },
        // Midnight: pure black, neutral grays, sharp contrast
        ThemeName::Midnight => Theme {
            bg: rgb(0, 0, 0),
            surface: rgb(10, 10, 10),
            border: rgb(38, 38, 38),
            border_active: rgb(163, 163, 163),
            text: rgb(250, 250, 250),
            text_dim: rgb(115, 115, 115),
            text_muted: rgb(82, 82, 82),
            accent: rgb(255, 255, 255),
            accent_soft: rgb(212, 212, 212),
            highlight_bg: rgb(35, 35, 35),
            search_match: rgb(234, 179, 8),
        },
        // Parchment: warm cream/sepia tones for long reading
        ThemeName::Parchment => Theme {
            bg: rgb(245, 240, 225),
            surface: rgb(237, 230, 211),
            border: rgb(196, 181, 153),
            border_active: rgb(120, 100, 70),
            text: rgb(55, 47, 35),
            text_dim: rgb(140, 125, 100),
            text_muted: rgb(168, 155, 132),
            accent: rgb(40, 32, 20),
            accent_soft: rgb(100, 85, 60),
            highlight_bg: rgb(210, 195, 160),
            search_match: rgb(180, 100, 30),
        },
        // Gospel: clean bright white, crisp and minimal
        ThemeName::Gospel => Theme {
            bg: rgb(255, 255, 255),
            surface: rgb(249, 250, 251),
            border: rgb(209, 213, 219),
            border_active: rgb(55, 65, 81),
            text: rgb(17, 24, 39),
            text_dim: rgb(107, 114, 128),
            text_muted: rgb(156, 163, 175),
            accent: rgb(0, 0, 0),
            accent_soft: rgb(75, 85, 99),
            highlight_bg: rgb(220, 225, 235),
            search_match: rgb(217, 119, 6),
        },
        // Terminal: the terminal's own colors, transparent background
        ThemeName::Terminal => Theme {
            bg: Color::Default,
            surface: Color::Default,
            border: Color::Indexed(8),
            border_active: Color::Default,
            text: Color::Default,
            text_dim: Color::Indexed(8),
            text_muted: Color::Indexed(8),
            accent: Color::Default,
            accent_soft: Color::Default,
            highlight_bg: Color::Indexed(8),
            search_match: Color::Indexed(3),
        },
    }
}

fn c(r: u8, g: u8, b: u8) -> (x: Color)
    ensures
        x == rgb(r, g, b),
{
    Color::Rgb(Rgb { r, g, b })
}

/// The palette of a theme.
pub fn get_theme(name: ThemeName) -> (t: Theme)
    ensures
        t == theme_spec(name),
{
    match name {
        ThemeName::Slate => Theme {
            bg: c(15, 23, 42),
            surface: c(30, 41, 59),
            border: c(71, 85, 105),
            border_active: c(226, 232, 240),
            text: c(241, 245, 249),
            text_dim: c(148, 163, 184),
            text_muted: c(100, 116, 139),
            accent: c(255, 255, 255),
            accent_soft: c(203, 213, 225),
            highlight_bg: c(55, 70, 95),
            search_match: c(251, 191, 36),
        },
        ThemeName::Midnight => Theme {
            bg: c(0, 0, 0),
            surface: c(10, 10, 10),
            border: c(38, 38, 38),
            border_active: c(163, 163, 163),
            text: c(250, 250, 250),
            text_dim: c(115, 115, 115),
            text_muted: c(82, 82, 82),
            accent: c(255, 255, 255),
            accent_soft: c(212, 212, 212),
            highlight_bg: c(35, 35, 35),
            search_match: c(234, 179, 8),
        },
        ThemeName::Parchment => Theme {
            bg: c(245, 240, 225),
            surface: c(237, 230, 211),
            border: c(196, 181, 153),
            border_active: c(120, 100, 70),
            text: c(55, 47, 35),
            text_dim: c(140, 125, 100),
            text_muted: c(168, 155, 132),
            accent: c(40, 32, 20),
            accent_soft: c(100, 85, 60),
            highlight_bg: c(210, 195, 160),
            search_match: c(180, 100, 30),
        },
        ThemeName::Gospel => Theme {
            bg: c(255, 255, 255),
            surface: c(249, 250, 251),
            border: c(209, 213, 219),
            border_active: c(55, 65, 81),
            text: c(17, 24, 39),
            text_dim: c(107, 114, 128),
            text_muted: c(156, 163, 175),
            accent: c(0, 0, 0),
            accent_soft: c(75, 85, 99),
            highlight_bg: c(220, 225, 235),
            search_match: c(217, 119, 6),
        },
        ThemeName::Terminal => Theme {
            bg: Color::Default,
            surface: Color::Default,
            border: Color::Indexed(8),
            border_active: Color::Default,
            text: Color::Default,
            text_dim: Color::Indexed(8),
            text_muted: Color::Indexed(8),
            accent: Color::Default,
            accent_soft: Color::Default,
            highlight_bg: Color::Indexed(8),
            search_match: Color::Indexed(3),
        },
    }
}

} // verus!
