//! Terminal colors: the named colors and those given by a hex code.

use vstd::prelude::*;
use crate::cmd::same_text;
use crate::text::{lower_of, lowercase};

verus! {

/// A terminal color.
#[derive(Clone, Copy, Debug, PartialEq, Eq, Structural)]
pub enum Color {
    Black,
    Red,
    Green,
    Yellow,
    Blue,
    Magenta,
    Cyan,
    Gray,
    DarkGray,
    LightRed,
    LightGreen,
    LightYellow,
    LightBlue,
    LightMagenta,
    LightCyan,
    White,
    Rgb(u8, u8, u8),
}

/// The color of a lowercase color name, if it names one.
pub open spec fn named_color(name: Seq<char>) -> Option<Color> {
    if name == "black"@ {
        Some(Color::Black)
    } else if name == "red"@ {
        Some(Color::Red)
    } else if name == "green"@ {
        Some(Color::Green)
    } else if name == "yellow"@ {
        Some(Color::Yellow)
    } else if name == "blue"@ {
        Some(Color::Blue)
    } else if name == "magenta"@ {
        Some(Color::Magenta)
    } else if name == "cyan"@ {
        Some(Color::Cyan)
    } else if name == "gray"@ {
        Some(Color::Gray)
    } else if name == "darkgray"@ {
        Some(Color::DarkGray)
    } else if name == "lightred"@ {
        Some(Color::LightRed)
    } else if name == "lightgreen"@ {
        Some(Color::LightGreen)
    } else if name == "lightyellow"@ {
        Some(Color::LightYellow)
    } else if name == "lightblue"@ {
        Some(Color::LightBlue)
    } else if name == "lightmagenta"@ {
        Some(Color::LightMagenta)
    } else if name == "lightcyan"@ {
        Some(Color::LightCyan)
    } else if name == "white"@ {
        Some(Color::White)
    } else {
        None
    }
}

/// The red, green and blue channels that a hex color code gives.
pub uninterp spec fn hex_rgb(code: Seq<char>) -> Option<(u8, u8, u8)>;

/// Relies on `colorsys::Rgb::from_hex_str`: the channels of the color that a
/// hex code gives, each cut to a byte, or nothing where the code is no
/// color; the result depends on the code alone.
#[verifier::external_body]
fn parse_hex(code: &str) -> (r: Option<(u8, u8, u8)>)
    ensures
        r == hex_rgb(code@),
{
    match colorsys::Rgb::from_hex_str(code) {
        Ok(rgb) => Some((rgb.red() as u8, rgb.green() as u8, rgb.blue() as u8)),
        Err(_) => None,
    }
}

/// The color that a value names: a color name, letter case aside, or else a
/// hex code without its `#`; the default where it is neither.
pub open spec fn color_value(v: Seq<char>, default_color: Color) -> Color {
    match named_color(lower_of(v)) {
        Some(c) => c,
        None => match hex_rgb("#"@ + v) {
            Some((r, g, b)) => Color::Rgb(r, g, b),
            None => default_color,
        },
    }
}

/// The color of a lowercase color name, if it names one.
fn color_by_name(name: &str) -> (r: Option<Color>)
    ensures
        r == named_color(name@),
{
    if same_text(name, "black") {
        Some(Color::Black)
    } else if same_text(name, "red") {
        Some(Color::Red)
    } else if same_text(name, "green") {
        Some(Color::Green)
    } else if same_text(name, "yellow") {
        Some(Color::Yellow)
    } else if same_text(name, "blue") {
        Some(Color::Blue)
    } else if same_text(name, "magenta") {
        Some(Color::Magenta)
    } else if same_text(name, "cyan") {
        Some(Color::Cyan)
    } else if same_text(name, "gray") {
        Some(Color::Gray)
    } else if same_text(name, "darkgray") {
        Some(Color::DarkGray)
    } else if same_text(name, "lightred") {
        Some(Color::LightRed)
    } else if same_text(name, "lightgreen") {
        Some(Color::LightGreen)
    } else if same_text(name, "lightyellow") {
        Some(Color::LightYellow)
    } else if same_text(name, "lightblue") {
        Some(Color::LightBlue)
    } else if same_text(name, "lightmagenta") {
        Some(Color::LightMagenta)
    } else if same_text(name, "lightcyan") {
        Some(Color::LightCyan)
    } else if same_text(name, "white") {
        Some(Color::White)
    } else {
        None
    }
}

/// The color that a given value names, or the default where none is given
/// or it names no color.
pub fn get_color(value: Option<&str>, default_color: Color) -> (r: Color)
    ensures
        r == (match value {
            Some(v) => color_value(v@, default_color),
            None => default_color,
        }),
{
    match value {
        Some(v) => {
            let lower = lowercase(v);
            match color_by_name(lower.as_str()) {
                Some(c) => c,
                None => {
                    let code = String::from_str("#").concat(v);
                    match parse_hex(code.as_str()) {
                        Some((r, g, b)) => Color::Rgb(r, g, b),
                        None => default_color,
                    }
                },
            }
        },
        None => default_color,
    }
}

} // verus!
