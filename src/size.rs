//! Module sizes: the byte count read from the module table and the
//! human-readable form it is shown in.

use vstd::prelude::*;

verus! {

/// The human-readable form of a byte count.
pub uninterp spec fn byte_size_text(bytes: u64) -> Seq<char>;

/// Relies on `bytesize::ByteSize`'s `Display`: the text for a byte count
/// depends on the count alone.
#[verifier::external_body]
fn byte_size_string(bytes: u64) -> (r: String)
    ensures
        r@ == byte_size_text(bytes),
{
    bytesize::ByteSize::b(bytes).to_string()
}

/// Whether every character is a decimal digit.
pub open spec fn all_digits(s: Seq<char>) -> bool {
    forall|i: int| 0 <= i < s.len() ==> '0' <= #[trigger] s[i] <= '9'
}

/// The value of a digit.
pub open spec fn digit_value(c: char) -> int {
    (c as u32) - ('0' as u32)
}

/// The value of a run of decimal digits.
pub open spec fn digits_value(s: Seq<char>) -> int
    decreases s.len(),
{
    if s.len() == 0 {
        0
    } else {
        digits_value(s.drop_last()) * 10 + digit_value(s.last())
    }
}

/// A byte count as written in a column: an optional `+` and decimal digits
/// whose value fits in 64 bits; anything else counts as zero.
pub open spec fn size_value(s: Seq<char>) -> u64 {
    let d = if s.len() > 0 && s[0] == '+' {
        s.skip(1)
    } else {
        s
    };
    if d.len() > 0 && all_digits(d) && digits_value(d) <= u64::MAX {
        digits_value(d) as u64
    } else {
        0
    }
}

proof fn lemma_digits_prefix_grows(s: Seq<char>, k: int)
    requires
        0 <= k <= s.len(),
        all_digits(s),
    ensures
        digits_value(s.take(k)) <= digits_value(s),
        digits_value(s.take(k)) >= 0,
    decreases s.len() - k,
{
    if k < s.len() {
        lemma_digits_prefix_grows(s, k + 1);
        assert(s.take(k + 1).drop_last() =~= s.take(k));
        assert(s.take(k + 1).last() == s[k]);
    } else {
        assert(s.take(k) =~= s);
    }
    lemma_digits_nonneg(s.take(k));
}

proof fn lemma_digits_nonneg(s: Seq<char>)
    requires
        all_digits(s),
    ensures
        digits_value(s) >= 0,
    decreases s.len(),
{
    if s.len() > 0 {
        lemma_digits_nonneg(s.drop_last());
    }
}

/// Reads a byte count; zero where the text is no count that fits.
pub fn parse_size(s: &str) -> (r: u64)
    ensures
        r == size_value(s@),
{
    let cs = crate::text::chars_of(s);
    let start: usize = if cs.len() > 0 && cs[0] == '+' { 1 } else { 0 };
    let ghost d = if s@.len() > 0 && s@[0] == '+' { s@.skip(1) } else { s@ };
    if start >= cs.len() {
        return 0;
    }
    let mut value: u64 = 0;
    let mut i: usize = start;
    while i < cs.len()
        invariant
            start <= i <= cs.len(),
            cs@ == s@,
            d == cs@.skip(start as int),
            d == (if s@.len() > 0 && s@[0] == '+' { s@.skip(1) } else { s@ }),
            all_digits(d.take(i - start)),
            value == digits_value(d.take(i - start)),
        decreases cs.len() - i,
    {
        let c = cs[i];
        if !('0' <= c && c <= '9') {
            assert(d[i - start] == c);
            assert(!all_digits(d));
            return 0;
        }
        let v = (c as u32 - '0' as u32) as u64;
        assert(d.take(i - start + 1).drop_last() =~= d.take(i - start));
        assert(d.take(i - start + 1).last() == c);
        if value > (u64::MAX - v) / 10 {
            proof {
                assert(value * 10 + v > u64::MAX) by (nonlinear_arith)
                    requires
                        value > (u64::MAX - v) / 10,
                        v <= 9,
                ;
                assert(all_digits(d.take(i - start + 1)));
                assert(digit_value(c) == v);
                assert(digits_value(d.take(i - start + 1)) == value * 10 + v);
                if all_digits(d) {
                    lemma_digits_prefix_grows(d, i - start + 1);
                }
            }
            return 0;
        }
        assert(value * 10 + v <= u64::MAX) by (nonlinear_arith)
            requires
                value <= (u64::MAX - v) / 10,
                v <= 9,
        ;
        value = value * 10 + v;
        i = i + 1;
        assert(all_digits(d.take(i - start)));
    }
    assert(d.take(i - start) =~= d);
    value
}

/// The human-readable form of a byte count.
pub fn human_size(bytes: u64) -> (r: String)
    ensures
        r@ == byte_size_text(bytes),
{
    byte_size_string(bytes)
}

} // verus!
