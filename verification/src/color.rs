use vstd::prelude::*;

verus! {

/// Palette entry for a terminal cell: the sixteen ANSI colors plus the
/// default foreground and the default background of the terminal theme.
#[derive(Clone, Copy, Debug, PartialEq, Eq, Structural)]
pub enum Color {
    Black,
    Red,
    Green,
    Yellow,
    Blue,
    Magenta,
    Cyan,
    White,
    BrightBlack,
    BrightRed,
    BrightGreen,
    BrightYellow,
    BrightBlue,
    BrightMagenta,
    BrightCyan,
    BrightWhite,
    DefaultFg,
    DefaultBg,
}

/// The hex rendering of each palette entry, as the display layer expects it.
/// The default foreground shares its shade with `White`, while the default
/// background is a near-black distinct from `Black`.
pub open spec fn color_hex(c: Color) -> Seq<char> {
    match c {
        Color::Black => "#000000"@,
        Color::Red => "#cd3131"@,
        Color::Green => "#0dbc79"@,
        Color::Yellow => "#e5e510"@,
        Color::Blue => "#2472c8"@,
        Color::Magenta => "#bc3fbc"@,
        Color::Cyan => "#11a8cd"@,
        Color::White => "#e5e5e5"@,
        Color::BrightBlack => "#666666"@,
        Color::BrightRed => "#f14c4c"@,
        Color::BrightGreen => "#23d18b"@,
        Color::BrightYellow => "#f5f543"@,
        Color::BrightBlue => "#3b8eea"@,
        Color::BrightMagenta => "#d670d6"@,
        Color::BrightCyan => "#29b8db"@,
        Color::BrightWhite => "#ffffff"@,
        Color::DefaultFg => "#e5e5e5"@,
        Color::DefaultBg => "#0a0a0a"@,
    }
}

impl Color {
    /// The CSS-style hex string for this palette entry.
    pub fn hex(&self) -> (r: String)
        ensures
            r@ == color_hex(*self),
    {
        match self {
            Color::Black => "#000000".to_owned(),
            Color::Red => "#cd3131".to_owned(),
            Color::Green => "#0dbc79".to_owned(),
            Color::Yellow => "#e5e510".to_owned(),
            Color::Blue => "#2472c8".to_owned(),
            Color::Magenta => "#bc3fbc".to_owned(),
            Color::Cyan => "#11a8cd".to_owned(),
            Color::White => "#e5e5e5".to_owned(),
            Color::BrightBlack => "#666666".to_owned(),
            Color::BrightRed => "#f14c4c".to_owned(),
            Color::BrightGreen => "#23d18b".to_owned(),
            Color::BrightYellow => "#f5f543".to_owned(),
            Color::BrightBlue => "#3b8eea".to_owned(),
            Color::BrightMagenta => "#d670d6".to_owned(),
            Color::BrightCyan => "#29b8db".to_owned(),
            Color::BrightWhite => "#ffffff".to_owned(),
            Color::DefaultFg => "#e5e5e5".to_owned(),
            Color::DefaultBg => "#0a0a0a".to_owned(),
        }
    }
}

/// The foreground color selected by an SGR parameter, where one is selected:
/// codes 30 through 37 pick the base palette, 39 restores the default, and
/// 90 through 97 pick the bright palette.
pub open spec fn sgr_fg_color(code: u16) -> Option<Color> {
    match code {
        30u16 => Some(Color::Black),
        31u16 => Some(Color::Red),
        32u16 => Some(Color::Green),
        33u16 => Some(Color::Yellow),
        34u16 => Some(Color::Blue),
        35u16 => Some(Color::Magenta),
        36u16 => Some(Color::Cyan),
        37u16 => Some(Color::White),
        39u16 => Some(Color::DefaultFg),
        90u16 => Some(Color::BrightBlack),
        91u16 => Some(Color::BrightRed),
        92u16 => Some(Color::BrightGreen),
        93u16 => Some(Color::BrightYellow),
        94u16 => Some(Color::BrightBlue),
        95u16 => Some(Color::BrightMagenta),
        96u16 => Some(Color::BrightCyan),
        97u16 => Some(Color::BrightWhite),
        _ => None,
    }
}

/// The background color selected by an SGR parameter, where one is selected:
/// codes 40 through 47 pick the base palette, 49 restores the default, and
/// 100 through 107 pick the bright palette.
pub open spec fn sgr_bg_color(code: u16) -> Option<Color> {
    match code {
        40u16 => Some(Color::Black),
        41u16 => Some(Color::Red),
        42u16 => Some(Color::Green),
        43u16 => Some(Color::Yellow),
        44u16 => Some(Color::Blue),
        45u16 => Some(Color::Magenta),
        46u16 => Some(Color::Cyan),
        47u16 => Some(Color::White),
        49u16 => Some(Color::DefaultBg),
        100u16 => Some(Color::BrightBlack),
        101u16 => Some(Color::BrightRed),
        102u16 => Some(Color::BrightGreen),
        103u16 => Some(Color::BrightYellow),
        104u16 => Some(Color::BrightBlue),
        105u16 => Some(Color::BrightMagenta),
        106u16 => Some(Color::BrightCyan),
        107u16 => Some(Color::BrightWhite),
        _ => None,
    }
}

} // verus!
