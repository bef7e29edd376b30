//! Board color themes.

use vstd::prelude::*;

verus! {

/// A color as red, green, blue and alpha, not premultiplied.
#[derive(Debug, Clone, Copy, PartialEq, Eq, Structural)]
pub struct Rgba {
    pub r: u8,
    pub g: u8,
    pub b: u8,
    pub a: u8,
}

pub open spec fn opaque(r: u8, g: u8, b: u8) -> Rgba {
    Rgba { r, g, b, a: 255 }
}

fn rgb(r: u8, g: u8, b: u8) -> (c: Rgba)
    ensures
        c == opaque(r, g, b),
{
    Rgba { r, g, b, a: 255 }
}

#[derive(Debug, Clone, Copy, PartialEq, Eq, Structural)]
pub enum Theme {
    Classic,
    Lichess,
    ChessCom,
    Dark,
}

pub open spec fn theme_label(t: Theme) -> Seq<char> {
    match t {
        Theme::Classic => "Classic"@,
        Theme::Lichess => "Lichess"@,
        Theme::ChessCom => "Chess.com"@,
        Theme::Dark => "Dark"@,
    }
}

pub open spec fn light_square_of(t: Theme) -> Rgba {
    match t {
        Theme::Classic | Theme::Lichess => opaque(240, 217, 181),
        Theme::ChessCom => opaque(238, 238, 210),
        Theme::Dark => opaque(100, 100, 100),
    }
}

pub open spec fn dark_square_of(t: Theme) -> Rgba {
    match t {
        Theme::Classic | Theme::Lichess => opaque(181, 136, 99),
        Theme::ChessCom => opaque(118, 150, 86),
        Theme::Dark => opaque(60, 60, 60),
    }
}

pub open spec fn selected_square_of(t: Theme) -> Rgba {
    match t {
        Theme::Dark => opaque(130, 151, 105),
        _ => opaque(186, 202, 68),
    }
}

pub open spec fn last_move_highlight_of(t: Theme) -> Rgba {
    match t {
        Theme::Classic | Theme::Lichess => opaque(205, 210, 106),
        Theme::ChessCom => opaque(247, 247, 105),
        Theme::Dark => opaque(170, 162, 58),
    }
}

impl Default for Theme {
    fn default() -> (r: Theme)
        ensures
            r == Theme::Classic,
    {
        Theme::Classic
    }
}

impl Theme {
    pub fn all() -> (r: Vec<Theme>)
        ensures
            r@ == seq![Theme::Classic, Theme::Lichess, Theme::ChessCom, Theme::Dark],
    {
        let r = vec![Theme::Classic, Theme::Lichess, Theme::ChessCom, Theme::Dark];
        assert(r@ =~= seq![Theme::Classic, Theme::Lichess, Theme::ChessCom, Theme::Dark]);
        r
    }

    pub fn label(&self) -> (r: &'static str)
        ensures
            r@ == theme_label(*self),
    {
        match self {
            Theme::Classic => "Classic",
            Theme::Lichess => "Lichess",
            Theme::ChessCom => "Chess.com",
            Theme::Dark => "Dark",
        }
    }

    pub fn light_square(&self) -> (r: Rgba)
        ensures
            r == light_square_of(*self),
    {
        match self {
            Theme::Classic | Theme::Lichess => rgb(240, 217, 181),
            Theme::ChessCom => rgb(238, 238, 210),
            Theme::Dark => rgb(100, 100, 100),
        }
    }

    pub fn dark_square(&self) -> (r: Rgba)
        ensures
            r == dark_square_of(*self),
    {
        match self {
            Theme::Classic | Theme::Lichess => rgb(181, 136, 99),
            Theme::ChessCom => rgb(118, 150, 86),
            Theme::Dark => rgb(60, 60, 60),
        }
    }

    pub fn selected_square(&self) -> (r: Rgba)
        ensures
            r == selected_square_of(*self),
    {
        match self {
            Theme::Dark => rgb(130, 151, 105),
            _ => rgb(186, 202, 68),
        }
    }

    pub fn last_move_highlight(&self) -> (r: Rgba)
        ensures
            r == last_move_highlight_of(*self),
    {
        match self {
            Theme::Classic | Theme::Lichess => rgb(205, 210, 106),
            Theme::ChessCom => rgb(247, 247, 105),
            Theme::Dark => rgb(170, 162, 58),
        }
    }

    /// Translucent black, the same in every theme.
    pub fn legal_move_dot(&self) -> (r: Rgba)
        ensures
            r == (Rgba { r: 0, g: 0, b: 0, a: 40 }),
    {
        Rgba { r: 0, g: 0, b: 0, a: 40 }
    }

    pub fn check_highlight(&self) -> (r: Rgba)
        ensures
            r == opaque(255, 100, 100),
    {
        rgb(255, 100, 100)
    }

    /// Coordinates on light squares take the dark square color.
    pub fn coordinate_color_light(&self) -> (r: Rgba)
        ensures
            r == dark_square_of(*self),
    {
        self.dark_square()
    }

    /// Coordinates on dark squares take the light square color.
    pub fn coordinate_color_dark(&self) -> (r: Rgba)
        ensures
            r == light_square_of(*self),
    {
        self.light_square()
    }
}

} // verus!
