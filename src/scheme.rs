//! Colour schemes and the styling of a stream's glyphs.
use vstd::prelude::*;

verus! {

/// Terminal colours used by the animation.
#[derive(Clone, Copy, Debug, PartialEq, Eq, Structural)]
pub enum Color {
    White,
    Green,
    DarkGreen,
    Red,
    DarkRed,
    Blue,
    DarkBlue,
    Yellow,
    DarkYellow,
    Magenta,
    DarkMagenta,
    Cyan,
    DarkCyan,
}

/// Text weight of a drawn glyph.
#[derive(Clone, Copy, Debug, PartialEq, Eq, Structural)]
pub enum Attribute {
    Bold,
    Dim,
}

/// The hue applied to every non-head glyph; cycles through six values.
#[derive(Clone, Copy, Debug, PartialEq, Eq, Structural)]
pub enum ColorScheme {
    Green,
    Red,
    Blue,
    Yellow,
    Magenta,
    Cyan,
}

/// The scheme that follows `s` in the fixed cycle
/// Green, Red, Blue, Yellow, Magenta, Cyan, and back to Green.
pub open spec fn next_scheme(s: ColorScheme) -> ColorScheme {
    match s {
        ColorScheme::Green => ColorScheme::Red,
        ColorScheme::Red => ColorScheme::Blue,
        ColorScheme::Blue => ColorScheme::Yellow,
        ColorScheme::Yellow => ColorScheme::Magenta,
        ColorScheme::Magenta => ColorScheme::Cyan,
        ColorScheme::Cyan => ColorScheme::Green,
    }
}

/// `next_scheme` applied `n` times.
pub open spec fn next_scheme_n(s: ColorScheme, n: nat) -> ColorScheme
    decreases n,
{
    if n == 0 {
        s
    } else {
        next_scheme_n(next_scheme(s), (n - 1) as nat)
    }
}

/// A glyph at offset `i` from the head of a stream of `len` glyphs lies in the
/// dim tail zone when `i > 0.4 * len`, that is when `5 * i > 2 * len`.
pub open spec fn in_tail_zone(i: int, len: int) -> bool {
    i > 0 && 5 * i > 2 * len
}

/// The normal (bright) colour of a scheme.
pub open spec fn bright_color(s: ColorScheme) -> Color {
    match s {
        ColorScheme::Green => Color::Green,
        ColorScheme::Red => Color::Red,
        ColorScheme::Blue => Color::Blue,
        ColorScheme::Yellow => Color::Yellow,
        ColorScheme::Magenta => Color::Magenta,
        ColorScheme::Cyan => Color::Cyan,
    }
}

/// The dark variant of a scheme's colour, used in the tail zone.
pub open spec fn dark_color(s: ColorScheme) -> Color {
    match s {
        ColorScheme::Green => Color::DarkGreen,
        ColorScheme::Red => Color::DarkRed,
        ColorScheme::Blue => Color::DarkBlue,
        ColorScheme::Yellow => Color::DarkYellow,
        ColorScheme::Magenta => Color::DarkMagenta,
        ColorScheme::Cyan => Color::DarkCyan,
    }
}

/// Style of the glyph at offset `i` from the head of a stream of `len` glyphs:
/// the head is always bold white; the tail zone takes the scheme's dark colour,
/// dimmed; the rest takes the scheme's colour, bold.
pub open spec fn style_of(s: ColorScheme, i: int, len: int) -> (Color, Attribute) {
    if i == 0 {
        (Color::White, Attribute::Bold)
    } else if in_tail_zone(i, len) {
        (dark_color(s), Attribute::Dim)
    } else {
        (bright_color(s), Attribute::Bold)
    }
}

impl ColorScheme {
    /// The next scheme in the cycle.
    pub fn next(&self) -> (r: ColorScheme)
        ensures
            r == next_scheme(*self),
    {
        match self {
            ColorScheme::Green => ColorScheme::Red,
            ColorScheme::Red => ColorScheme::Blue,
            ColorScheme::Blue => ColorScheme::Yellow,
            ColorScheme::Yellow => ColorScheme::Magenta,
            ColorScheme::Magenta => ColorScheme::Cyan,
            ColorScheme::Cyan => ColorScheme::Green,
        }
    }

    /// Colour and weight of the glyph at offset `i` from the head of a stream
    /// of `len` glyphs.
    pub fn get_colors(&self, i: usize, len: usize) -> (r: (Color, Attribute))
        ensures
            r == style_of(*self, i as int, len as int),
    {
        let is_head = i == 0;
        let is_tail = !is_head && (i as u128) * 5 > (len as u128) * 2;
        if is_head {
            return (Color::White, Attribute::Bold);
        }
        match self {
            ColorScheme::Green => {
                if is_tail { (Color::DarkGreen, Attribute::Dim) } else { (Color::Green, Attribute::Bold) }
            },
            ColorScheme::Red => {
                if is_tail { (Color::DarkRed, Attribute::Dim) } else { (Color::Red, Attribute::Bold) }
            },
            ColorScheme::Blue => {
                if is_tail { (Color::DarkBlue, Attribute::Dim) } else { (Color::Blue, Attribute::Bold) }
            },
            ColorScheme::Magenta => {
                if is_tail { (Color::DarkMagenta, Attribute::Dim) } else { (Color::Magenta, Attribute::Bold) }
            },
            ColorScheme::Yellow => {
                if is_tail { (Color::DarkYellow, Attribute::Dim) } else { (Color::Yellow, Attribute::Bold) }
            },
            ColorScheme::Cyan => {
                if is_tail { (Color::DarkCyan, Attribute::Dim) } else { (Color::Cyan, Attribute::Bold) }
            },
        }
    }
}

/// Cycling the scheme is a bijection of period six: six steps from any scheme
/// return to it, and no two schemes have the same successor.
pub proof fn lemma_next_cycle(s: ColorScheme, t: ColorScheme)
    ensures
        next_scheme_n(s, 6) == s,
        next_scheme(s) == next_scheme(t) ==> s == t,
        exists|u: ColorScheme| next_scheme(u) == s,
{
    reveal_with_fuel(next_scheme_n, 7);
    let u = next_scheme_n(s, 5);
    assert(next_scheme(u) == s);
}

} // verus!
