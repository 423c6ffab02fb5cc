//! The figures the panels are drawn with: which rows of the module table
//! are in view, how its columns and title read, and how large the options
//! popup is.

use vstd::prelude::*;
use crate::text::{char_width, chars_of, lemma_utf8_prefix, utf8_len};

verus! {

/// How many rows scroll out of a table of `height` rows, five of which are
/// borders and header, so that the row at `index` shows.
pub open spec fn table_offset_of(height: int, index: int) -> int {
    if height >= 5 && index >= height - 5 {
        index - (height - 5)
    } else {
        0
    }
}

/// How many leading rows of the module table are scrolled out of view.
pub fn table_offset(height: u16, index: usize) -> (r: usize)
    ensures
        r == table_offset_of(height as int, index as int),
{
    if height >= 5 && index >= (height - 5) as usize {
        index - (height - 5) as usize
    } else {
        0
    }
}

/// How many leading characters, counting from `i`, fit in `width` bytes.
pub open spec fn fitting_chars(s: Seq<char>, width: int, i: int) -> int
    decreases s.len() - i,
{
    if 0 <= i < s.len() && utf8_len(s.take(i + 1)) <= width {
        fitting_chars(s, width, i + 1)
    } else {
        i
    }
}

/// A text cut to the characters that fit in `width` bytes, with `...`
/// after it, where it takes more bytes than that.
pub open spec fn shortened(s: Seq<char>, width: int) -> Seq<char> {
    if utf8_len(s) > width {
        s.take(fitting_chars(s, width, 0)) + "..."@
    } else {
        s
    }
}

/// The "used by" column of a module: its use count and its dependents,
/// cut to `width` bytes.
pub fn used_by_column(use_count: &str, dependents: &str, width: usize) -> (r: String)
    ensures
        r@ == shortened(use_count@ + " "@ + dependents@, width as int),
{
    let full = String::from_str(use_count).concat(" ").concat(dependents);
    let cs = chars_of(full.as_str());
    let ghost s = cs@;
    let mut i: usize = 0;
    let mut n: usize = 0;
    let mut stop = false;
    while i < cs.len() && !stop
        invariant
            s == cs@,
            i <= cs.len(),
            n <= width,
            n == utf8_len(s.take(i as int)),
            fitting_chars(s, width as int, 0) == fitting_chars(s, width as int, i as int),
            stop ==> i < s.len() && utf8_len(s.take(i + 1)) > width,
        decreases cs.len() - i + (if stop { 0int } else { 1int }),
    {
        let w = char_width(cs[i]);
        assert(s.take(i + 1).drop_last() =~= s.take(i as int));
        if w <= width - n {
            n = n + w;
            i = i + 1;
        } else {
            stop = true;
        }
    }
    if stop {
        proof {
            lemma_utf8_prefix(s, i + 1);
            assert(s.take(s.len() as int) =~= s);
        }
        let head = full.as_str().substring_char(0, i);
        String::from_str(head).concat("...")
    } else {
        assert(s.take(i as int) =~= s);
        full
    }
}

/// The position shown for the selection, counting from one in a list that
/// is not empty, and how far down the list it is, in whole percent.
pub fn list_position(index: usize, len: usize) -> (r: (usize, usize))
    requires
        index < len || len == 0,
    ensures
        r.0 == (if len == 0 {
            index as int
        } else {
            index + 1
        }),
        r.1 == (if len == 0 {
            0
        } else {
            (index + 1) * 100 / (len as int)
        }),
{
    if len == 0 {
        (index, 0)
    } else {
        let p = ((index as u128 + 1) * 100 / len as u128) as usize;
        assert((index + 1) * 100 / (len as int) <= 100) by (nonlinear_arith)
            requires
                index < len,
        ;
        (index + 1, p)
    }
}

/// The share in percent that a popup of `content` rows or columns takes of
/// an area of `extent`: its own share where it fits with `margin` to spare,
/// else `fallback`.
pub open spec fn popup_share(extent: int, margin: int, content: int, fallback: int) -> int {
    let room = if extent >= margin {
        extent - margin
    } else {
        extent
    };
    if room > content && extent > 0 {
        content * 100 / extent
    } else {
        fallback
    }
}

/// The share in percent of the area that the options popup takes along one
/// side.
pub fn popup_percent(extent: u16, margin: u16, content: u16, fallback: u16) -> (r: u16)
    ensures
        r == popup_share(extent as int, margin as int, content as int, fallback as int),
{
    let room = if extent >= margin {
        extent - margin
    } else {
        extent
    };
    if room > content && extent > 0 {
        assert((content as int) * 100 / (extent as int) <= 100) by (nonlinear_arith)
            requires
                content < extent,
        ;
        ((content as u32 * 100) / extent as u32) as u16
    } else {
        fallback
    }
}

} // verus!
