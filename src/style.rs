//! Glyphs that decorate panel titles, with a plain-text fallback for
//! terminals without Unicode symbols.

use vstd::prelude::*;

verus! {

/// A decoration shown beside a title.
#[derive(Clone, Copy, Debug, PartialEq, Eq, Hash, Structural)]
pub enum Symbol {
    Empty,
    Blank,
    Gear,
    Cloud,
    Anchor,
    Helmet,
    CircleX,
    SquareX,
    NoEntry,
    FuelPump,
    Magnifier,
    HighVoltage,
    LeftBracket,
    RightBracket,
    HistoricSite,
}

impl Symbol {
    /// Every symbol, in declaration order.
    pub fn all() -> (r: Vec<Symbol>)
        ensures
            r@.len() == 15,
            forall|s: Symbol| r@.contains(s),
    {
        let r = vec![
            Symbol::Empty,
            Symbol::Blank,
            Symbol::Gear,
            Symbol::Cloud,
            Symbol::Anchor,
            Symbol::Helmet,
            Symbol::CircleX,
            Symbol::SquareX,
            Symbol::NoEntry,
            Symbol::FuelPump,
            Symbol::Magnifier,
            Symbol::HighVoltage,
            Symbol::LeftBracket,
            Symbol::RightBracket,
            Symbol::HistoricSite,
        ];
        assert forall|s: Symbol| r@.contains(s) by {
            let i: int = match s {
                Symbol::Empty => 0,
                Symbol::Blank => 1,
                Symbol::Gear => 2,
                Symbol::Cloud => 3,
                Symbol::Anchor => 4,
                Symbol::Helmet => 5,
                Symbol::CircleX => 6,
                Symbol::SquareX => 7,
                Symbol::NoEntry => 8,
                Symbol::FuelPump => 9,
                Symbol::Magnifier => 10,
                Symbol::HighVoltage => 11,
                Symbol::LeftBracket => 12,
                Symbol::RightBracket => 13,
                Symbol::HistoricSite => 14,
            };
            assert(r@[i] == s);
        }
        r
    }
}

/// The glyph of a symbol: its Unicode form, or its plain replacement.
pub open spec fn glyph(symbol: Symbol, replace: bool) -> Seq<char> {
    match symbol {
        Symbol::Empty => ""@,
        Symbol::Blank => "\u{2800} "@,
        Symbol::Gear => if replace { ""@ } else { " \u{2699} "@ },
        Symbol::Cloud => if replace { ""@ } else { " \u{26C5} "@ },
        Symbol::Anchor => if replace { ""@ } else { " \u{2693}"@ },
        Symbol::Helmet => if replace { ""@ } else { " \u{26D1} "@ },
        Symbol::CircleX => if replace { ""@ } else { " \u{1F167} "@ },
        Symbol::SquareX => if replace { ""@ } else { " \u{1F187} "@ },
        Symbol::NoEntry => if replace { ""@ } else { " \u{26D4}"@ },
        Symbol::FuelPump => if replace { ""@ } else { " \u{26FD}"@ },
        Symbol::Magnifier => if replace { ""@ } else { " \u{1F50D}"@ },
        Symbol::HighVoltage => if replace { ""@ } else { " \u{26A1}"@ },
        Symbol::LeftBracket => if replace { "("@ } else { "\u{2997}"@ },
        Symbol::RightBracket => if replace { ")"@ } else { "\u{2998}"@ },
        Symbol::HistoricSite => if replace { ""@ } else { " \u{26EC} "@ },
    }
}

/// The table of glyphs, either in Unicode or in their replacements.
#[derive(Clone, Copy, Debug)]
pub struct Unicode {
    pub replace: bool,
}

impl Unicode {
    /// A glyph table; `replace` selects the plain replacements.
    pub fn new(replace: bool) -> (r: Unicode)
        ensures
            r.replace == replace,
    {
        Unicode { replace }
    }

    /// The glyph of `symbol` in this table.
    pub fn get(&self, symbol: Symbol) -> (r: &'static str)
        ensures
            r@ == glyph(symbol, self.replace),
    {
        let r = match symbol {
            Symbol::Empty => "",
            Symbol::Blank => "\u{2800} ",
            Symbol::Gear => if self.replace { "" } else { " \u{2699} " },
            Symbol::Cloud => if self.replace { "" } else { " \u{26C5} " },
            Symbol::Anchor => if self.replace { "" } else { " \u{2693}" },
            Symbol::Helmet => if self.replace { "" } else { " \u{26D1} " },
            Symbol::CircleX => if self.replace { "" } else { " \u{1F167} " },
            Symbol::SquareX => if self.replace { "" } else { " \u{1F187} " },
            Symbol::NoEntry => if self.replace { "" } else { " \u{26D4}" },
            Symbol::FuelPump => if self.replace { "" } else { " \u{26FD}" },
            Symbol::Magnifier => if self.replace { "" } else { " \u{1F50D}" },
            Symbol::HighVoltage => if self.replace { "" } else { " \u{26A1}" },
            Symbol::LeftBracket => if self.replace { "(" } else { "\u{2997}" },
            Symbol::RightBracket => if self.replace { ")" } else { "\u{2998}" },
            Symbol::HistoricSite => if self.replace { "" } else { " \u{26EC} " },
        };
        r
    }
}

} // verus!
