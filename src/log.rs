//! The kernel log window: the captured ring buffer text, the head line it
//! was last compared by, and the vertical and horizontal scroll offsets.

use vstd::prelude::*;
use crate::app::ScrollDirection;
use crate::text::{lines, lines_of, views};

verus! {

/// The head line of a text: its first line, or nothing when it has none.
pub open spec fn head_line(s: Seq<char>) -> Seq<char> {
    if lines_of(s).len() > 0 {
        lines_of(s)[0]
    } else {
        Seq::empty()
    }
}

/// A line without its first `k` characters; nothing when it has no more.
pub open spec fn cropped(l: Seq<char>, k: int) -> Seq<char> {
    if 0 <= k < l.len() {
        l.skip(k)
    } else {
        Seq::empty()
    }
}

/// Lines written out one after the other, each ended by `\n`.
pub open spec fn joined(ls: Seq<Seq<char>>) -> Seq<char>
    decreases ls.len(),
{
    if ls.len() == 0 {
        Seq::empty()
    } else {
        joined(ls.drop_last()) + ls.last() + "\n"@
    }
}

/// How many leading lines are left out so that the line `index` lines above
/// the end still shows in a viewport of `height - sub` rows.
pub open spec fn skipped_lines(count: int, index: int, height: int, sub: int) -> int {
    if height >= sub && count >= index && count - index >= height - sub {
        count - index - (height - sub)
    } else {
        0
    }
}

/// The view of a log: lines from `skip` on, each cropped by `crop`
/// characters.
pub open spec fn log_view(out: Seq<char>, skip: int, crop: int) -> Seq<char> {
    joined(lines_of(out).skip(skip).map_values(|l: Seq<char>| cropped(l, crop)))
}

/// The kernel activity log.
#[derive(Clone, Debug)]
pub struct KernelLogs {
    pub output: String,
    pub selected_output: String,
    pub last_line: String,
    pub crop_offset: usize,
    pub index: usize,
}

/// A line without its first `k` characters. Offsets count characters, so
/// no multi-byte character is ever split, and an offset at or past the end
/// gives the empty string.
pub fn crop_line(line: &str, k: usize) -> (r: String)
    ensures
        r@ == cropped(line@, k as int),
{
    let n = line.unicode_len();
    if k < n {
        line.substring_char(k, n).to_owned()
    } else {
        proof {
            reveal_strlit("");
        }
        "".to_owned()
    }
}

/// The first line of a text, or the empty string when it has none.
pub fn first_line(s: &str) -> (r: String)
    ensures
        r@ == head_line(s@),
{
    let ls = lines(s);
    if ls.len() > 0 {
        assert(views(ls@)[0] == ls@[0]@);
        ls[0].clone()
    } else {
        String::new()
    }
}

impl KernelLogs {
    /// A poll of `fresh` as `update` takes it: `updated` when its head line
    /// differs from the recorded one, and then the text and its head line
    /// are kept; otherwise nothing changes.
    pub open spec fn polled(a: &KernelLogs, b: &KernelLogs, fresh: Seq<char>, updated: bool) -> bool {
        &&& updated == (head_line(fresh) != a.last_line@)
        &&& updated ==> b.output@ == fresh && b.last_line@ == head_line(fresh)
            && b.selected_output == a.selected_output && b.crop_offset == a.crop_offset
            && b.index == a.index
        &&& !updated ==> *b == *a
    }

    /// An empty log, scrolled to its end.
    pub fn new() -> (r: KernelLogs)
        ensures
            r.output@.len() == 0,
            r.selected_output@.len() == 0,
            r.last_line@.len() == 0,
            r.crop_offset == 0,
            r.index == 0,
    {
        KernelLogs {
            output: String::new(),
            selected_output: String::new(),
            last_line: String::new(),
            crop_offset: 0,
            index: 0,
        }
    }

    /// Takes a newly polled log text: when its head line differs from the
    /// one recorded, the text and its head line are kept and `true` comes
    /// back; otherwise nothing changes and `false` comes back.
    pub fn update(&mut self, fresh: String) -> (updated: bool)
        ensures
            KernelLogs::polled(old(self), final(self), fresh@, updated),
    {
        let head = first_line(fresh.as_str());
        let same = crate::cmd::same_text(head.as_str(), self.last_line.as_str());
        if same {
            false
        } else {
            self.output = fresh;
            self.last_line = head;
            true
        }
    }

    /// Starts over from a freshly read log: the text and its head line are
    /// taken whatever was recorded before, and both offsets go back to zero.
    pub fn refresh(&mut self, fresh: String)
        ensures
            final(self).output@ == fresh@,
            final(self).last_line@ == head_line(fresh@),
            final(self).index == 0,
            final(self).crop_offset == 0,
            final(self).selected_output == old(self).selected_output,
    {
        self.last_line = first_line(fresh.as_str());
        self.output = fresh;
        self.index = 0;
        self.crop_offset = 0;
    }

    /// Replaces the text with one that the log poller passed on.
    pub fn set_output(&mut self, text: String)
        ensures
            final(self).output@ == text@,
            final(self).last_line == old(self).last_line,
            final(self).index == old(self).index,
            final(self).crop_offset == old(self).crop_offset,
    {
        self.output = text;
    }

    /// The part of the log shown in a viewport of `area_height - area_sub`
    /// rows: leading lines are left out so that the line `index` lines
    /// above the end stays in view, and each line loses its first
    /// `crop_offset` characters.
    pub fn select(&mut self, area_height: u16, area_sub: u16) -> (r: &str)
        ensures
            r@ == final(self).selected_output@,
            final(self).selected_output@ == log_view(
                old(self).output@,
                skipped_lines(
                    lines_of(old(self).output@).len() as int,
                    old(self).index as int,
                    area_height as int,
                    area_sub as int,
                ),
                old(self).crop_offset as int,
            ),
            final(self).output == old(self).output,
            final(self).last_line == old(self).last_line,
            final(self).index == old(self).index,
            final(self).crop_offset == old(self).crop_offset,
    {
        let ls = lines(self.output.as_str());
        let count = ls.len();
        let skip: usize = if area_height >= area_sub && count >= self.index && count - self.index
            >= (area_height - area_sub) as usize {
            count - self.index - (area_height - area_sub) as usize
        } else {
            0
        };
        let ghost all = lines_of(self.output@);
        let ghost crop = self.crop_offset as int;
        let mut out = String::new();
        let mut i: usize = skip;
        while i < count
            invariant
                skip <= i <= count,
                count == ls@.len(),
                views(ls@) == all,
                crop == self.crop_offset,
                out@ == joined(all.subrange(skip as int, i as int).map_values(
                    |l: Seq<char>| cropped(l, crop),
                )),
            decreases count - i,
        {
            let piece = crop_line(ls[i].as_str(), self.crop_offset);
            out.append(piece.as_str());
            proof {
                reveal_strlit("\n");
            }
            out.append("\n");
            proof {
                let prev = all.subrange(skip as int, i as int).map_values(
                    |l: Seq<char>| cropped(l, crop),
                );
                let next = all.subrange(skip as int, i + 1).map_values(
                    |l: Seq<char>| cropped(l, crop),
                );
                assert(views(ls@)[i as int] == ls@[i as int]@);
                assert(next.drop_last() =~= prev);
            }
            i = i + 1;
        }
        proof {
            assert(all.subrange(skip as int, count as int) =~= all.skip(skip as int));
        }
        self.selected_output = out;
        self.selected_output.as_str()
    }

    /// Scrolls the log: up and down by one line when `smooth_scroll`, else
    /// by three, up no further than the number of lines and down no further
    /// than the end; left and right by ten characters, left stopping at zero
    /// and right wrapping to zero where the offset would overflow.
    pub fn scroll(&mut self, direction: ScrollDirection, smooth_scroll: bool)
        ensures
            ({
                let amount: int = if smooth_scroll { 1 } else { 3 };
                let count = lines_of(old(self).output@).len() as int;
                let i = old(self).index as int;
                let c = old(self).crop_offset as int;
                &&& final(self).output == old(self).output
                &&& final(self).last_line == old(self).last_line
                &&& final(self).selected_output == old(self).selected_output
                &&& final(self).index as int == match direction {
                    ScrollDirection::Up => if i + amount <= count { i + amount } else { i },
                    ScrollDirection::Down => if i >= amount { i - amount } else { 0 },
                    _ => i,
                }
                &&& final(self).crop_offset as int == match direction {
                    ScrollDirection::Left => if c >= 10 { c - 10 } else { 0 },
                    ScrollDirection::Right => if c + 10 <= usize::MAX { c + 10 } else { 0 },
                    _ => c,
                }
            }),
    {
        let amount: usize = if smooth_scroll { 1 } else { 3 };
        match direction {
            ScrollDirection::Up => {
                let count = lines(self.output.as_str()).len();
                if count >= amount && self.index <= count - amount {
                    self.index = self.index + amount;
                }
            },
            ScrollDirection::Down => {
                if self.index >= amount {
                    self.index = self.index - amount;
                } else {
                    self.index = 0;
                }
            },
            ScrollDirection::Left => {
                self.crop_offset = self.crop_offset.saturating_sub(10);
            },
            ScrollDirection::Right => {
                self.crop_offset = match self.crop_offset.checked_add(10) {
                    Some(v) => v,
                    None => 0,
                };
            },
            _ => {},
        }
    }
}

/// Of two consecutive polls, the second is taken exactly when its head line
/// differs from the first's: with the same head line it reports no update
/// and leaves the text as the first left it; with another it reports an
/// update and holds the new text.
pub proof fn second_poll_updates_on_new_head(
    l0: KernelLogs,
    l1: KernelLogs,
    l2: KernelLogs,
    first: Seq<char>,
    second: Seq<char>,
    u1: bool,
    u2: bool,
)
    requires
        KernelLogs::polled(&l0, &l1, first, u1),
        KernelLogs::polled(&l1, &l2, second, u2),
    ensures
        head_line(first) == head_line(second) ==> !u2 && l2.output == l1.output,
        head_line(first) != head_line(second) ==> u2 && l2.output@ == second,
{
}

} // verus!
