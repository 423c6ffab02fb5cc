//! Character-level helpers on strings, with the line and word splitting that
//! the module table and the kernel log are read with.

use vstd::prelude::*;

verus! {

/// The lowercase form of a string.
pub uninterp spec fn lower_of(s: Seq<char>) -> Seq<char>;

/// Relies on `str::to_lowercase`: its result depends on the characters alone.
#[verifier::external_body]
pub(crate) fn lowercase(s: &str) -> (r: String)
    ensures
        r@ == lower_of(s@),
{
    s.to_lowercase()
}

/// Whether `needle` occurs in `hay` as a contiguous run of characters.
pub open spec fn has_infix(hay: Seq<char>, needle: Seq<char>) -> bool {
    exists|i: int|
        0 <= i && i + needle.len() <= hay.len() && #[trigger] hay.subrange(i, i + needle.len())
            == needle
}

/// Relies on `String::push`: appends one character.
#[verifier::external_body]
pub(crate) fn push_char(s: &mut String, c: char)
    ensures
        final(s)@ == old(s)@.push(c),
{
    s.push(c)
}

/// The characters of a string, in order.
pub fn chars_of(s: &str) -> (r: Vec<char>)
    ensures
        r@ == s@,
{
    let mut v: Vec<char> = Vec::new();
    for c in it: s.chars()
        invariant
            v@ == it.seq().take(it.index() as int),
            it.seq() == s@,
    {
        v.push(c);
    }
    v
}


/// Builds a string from its characters.
pub fn string_of(cs: &Vec<char>) -> (r: String)
    ensures
        r@ == cs@,
{
    let mut s = String::new();
    let mut i: usize = 0;
    while i < cs.len()
        invariant
            i <= cs.len(),
            s@ == cs@.take(i as int),
        decreases cs.len() - i,
    {
        push_char(&mut s, cs[i]);
        i = i + 1;
        assert(cs@.take(i as int) == cs@.take(i - 1).push(cs@[i - 1]));
    }
    assert(cs@.take(cs.len() as int) == cs@);
    s
}

/// The views of a vector of strings.
pub open spec fn views(v: Seq<String>) -> Seq<Seq<char>> {
    v.map_values(|x: String| x@)
}

/// Whether a character is white space in Unicode's sense, as
/// `char::is_whitespace` decides it.
pub open spec fn is_space(c: char) -> bool {
    ||| c == ' '
    ||| ('\t' <= c && c <= '\r')
    ||| c == '\u{85}'
    ||| c == '\u{A0}'
    ||| c == '\u{1680}'
    ||| ('\u{2000}' <= c && c <= '\u{200A}')
    ||| c == '\u{2028}'
    ||| c == '\u{2029}'
    ||| c == '\u{202F}'
    ||| c == '\u{205F}'
    ||| c == '\u{3000}'
}

/// A line without the carriage return that ends it, if any.
pub open spec fn strip_cr(l: Seq<char>) -> Seq<char> {
    if l.len() > 0 && l.last() == '\r' {
        l.drop_last()
    } else {
        l
    }
}

/// The lines completed within the first `n` characters, and the part of the
/// line still open after them.
pub open spec fn line_scan(s: Seq<char>, n: nat) -> (Seq<Seq<char>>, Seq<char>)
    decreases n,
{
    if n == 0 || n > s.len() {
        (Seq::empty(), Seq::empty())
    } else {
        let (done, open) = line_scan(s, (n - 1) as nat);
        if s[n - 1] == '\n' {
            (done.push(strip_cr(open)), Seq::empty())
        } else {
            (done, open.push(s[n - 1]))
        }
    }
}

/// The lines of a text: split at each `\n`, a `\r` before it dropped, and no
/// empty line after a final `\n`.
pub open spec fn lines_of(s: Seq<char>) -> Seq<Seq<char>> {
    let (done, open) = line_scan(s, s.len());
    if open.len() == 0 {
        done
    } else {
        done.push(open)
    }
}

/// The words completed within the first `n` characters, and the word still
/// open after them.
pub open spec fn word_scan(s: Seq<char>, n: nat) -> (Seq<Seq<char>>, Seq<char>)
    decreases n,
{
    if n == 0 || n > s.len() {
        (Seq::empty(), Seq::empty())
    } else {
        let (done, open) = word_scan(s, (n - 1) as nat);
        if is_space(s[n - 1]) {
            if open.len() > 0 {
                (done.push(open), Seq::empty())
            } else {
                (done, open)
            }
        } else {
            (done, open.push(s[n - 1]))
        }
    }
}

/// The maximal runs of non-space characters of a text, in order.
pub open spec fn words_of(s: Seq<char>) -> Seq<Seq<char>> {
    let (done, open) = word_scan(s, s.len());
    if open.len() == 0 {
        done
    } else {
        done.push(open)
    }
}

/// The pieces between separators within the first `n` characters, and the
/// piece still open after them.
pub open spec fn sep_scan(s: Seq<char>, sep: char, n: nat) -> (Seq<Seq<char>>, Seq<char>)
    decreases n,
{
    if n == 0 || n > s.len() {
        (Seq::empty(), Seq::empty())
    } else {
        let (done, open) = sep_scan(s, sep, (n - 1) as nat);
        if s[n - 1] == sep {
            (done.push(open), Seq::empty())
        } else {
            (done, open.push(s[n - 1]))
        }
    }
}

/// The pieces of a text between occurrences of `sep`, empty pieces
/// included: one more piece than there are separators.
pub open spec fn split_on(s: Seq<char>, sep: char) -> Seq<Seq<char>> {
    let (done, open) = sep_scan(s, sep, s.len());
    done.push(open)
}

/// The lines of a text.
pub fn lines(s: &str) -> (r: Vec<String>)
    ensures
        views(r@) == lines_of(s@),
{
    let cs = chars_of(s);
    let mut done: Vec<String> = Vec::new();
    let mut open: Vec<char> = Vec::new();
    let mut i: usize = 0;
    while i < cs.len()
        invariant
            i <= cs.len(),
            cs@ == s@,
            (views(done@), open@) == line_scan(s@, i as nat),
        decreases cs.len() - i,
    {
        let c = cs[i];
        if c == '\n' {
            let n = open.len();
            if n > 0 && open[n - 1] == '\r' {
                open.pop();
            }
            let l = string_of(&open);
            done.push(l);
            open = Vec::new();
        } else {
            open.push(c);
        }
        i = i + 1;
        assert(views(done@) =~= line_scan(s@, i as nat).0);
    }
    if open.len() > 0 {
        let l = string_of(&open);
        done.push(l);
    }
    assert(views(done@) =~= lines_of(s@));
    done
}

/// The words of a text, split at white space.
pub fn words(s: &str) -> (r: Vec<String>)
    ensures
        views(r@) == words_of(s@),
{
    let cs = chars_of(s);
    let mut done: Vec<String> = Vec::new();
    let mut open: Vec<char> = Vec::new();
    let mut i: usize = 0;
    while i < cs.len()
        invariant
            i <= cs.len(),
            cs@ == s@,
            (views(done@), open@) == word_scan(s@, i as nat),
        decreases cs.len() - i,
    {
        let c = cs[i];
        if is_whitespace(c) {
            if open.len() > 0 {
                let w = string_of(&open);
                done.push(w);
                open = Vec::new();
            }
        } else {
            open.push(c);
        }
        i = i + 1;
        assert(views(done@) =~= word_scan(s@, i as nat).0);
    }
    if open.len() > 0 {
        let w = string_of(&open);
        done.push(w);
    }
    assert(views(done@) =~= words_of(s@));
    done
}

/// The pieces of a text between occurrences of `sep`.
pub fn split_at_char(s: &str, sep: char) -> (r: Vec<String>)
    ensures
        views(r@) == split_on(s@, sep),
        r@.len() >= 1,
{
    let cs = chars_of(s);
    let mut done: Vec<String> = Vec::new();
    let mut open: Vec<char> = Vec::new();
    let mut i: usize = 0;
    while i < cs.len()
        invariant
            i <= cs.len(),
            cs@ == s@,
            (views(done@), open@) == sep_scan(s@, sep, i as nat),
        decreases cs.len() - i,
    {
        let c = cs[i];
        if c == sep {
            let w = string_of(&open);
            done.push(w);
            open = Vec::new();
        } else {
            open.push(c);
        }
        i = i + 1;
        assert(views(done@) =~= sep_scan(s@, sep, i as nat).0);
    }
    let w = string_of(&open);
    done.push(w);
    assert(views(done@) =~= split_on(s@, sep));
    done
}

/// Whether a character is white space.
pub fn is_whitespace(c: char) -> (r: bool)
    ensures
        r == is_space(c),
{
    c == ' ' || ('\t' <= c && c <= '\r') || c == '\u{85}' || c == '\u{A0}' || c == '\u{1680}'
        || ('\u{2000}' <= c && c <= '\u{200A}') || c == '\u{2028}' || c == '\u{2029}' || c
        == '\u{202F}' || c == '\u{205F}' || c == '\u{3000}'
}


/// A text without its leading white space.
pub open spec fn trim_start(s: Seq<char>) -> Seq<char>
    decreases s.len(),
{
    if s.len() > 0 && is_space(s[0]) {
        trim_start(s.skip(1))
    } else {
        s
    }
}

/// A text without its trailing white space.
pub open spec fn trim_end(s: Seq<char>) -> Seq<char>
    decreases s.len(),
{
    if s.len() > 0 && is_space(s.last()) {
        trim_end(s.drop_last())
    } else {
        s
    }
}

/// A text without white space at either end.
pub open spec fn trimmed(s: Seq<char>) -> Seq<char> {
    trim_end(trim_start(s))
}

/// How many bytes a character takes in UTF-8.
pub open spec fn utf8_width(c: char) -> int {
    if (c as u32) < 0x80 {
        1
    } else if (c as u32) < 0x800 {
        2
    } else if (c as u32) < 0x10000 {
        3
    } else {
        4
    }
}

/// How many bytes a text takes in UTF-8.
pub open spec fn utf8_len(s: Seq<char>) -> int
    decreases s.len(),
{
    if s.len() == 0 {
        0
    } else {
        utf8_len(s.drop_last()) + utf8_width(s.last())
    }
}

/// The first position at or after `i` where `d` occurs in `s`.
pub open spec fn occurrence_from(s: Seq<char>, d: Seq<char>, i: int) -> Option<int>
    decreases s.len() - i,
{
    if i < 0 || d.len() == 0 || i + d.len() > s.len() {
        None
    } else if s.subrange(i, i + d.len()) == d {
        Some(i)
    } else {
        occurrence_from(s, d, i + 1)
    }
}

/// A line split at the first occurrence of a delimiter, where the part
/// before it is, trimmed, longer than two bytes: that part with the
/// delimiter, and the rest of the line.
pub open spec fn labelled(line: Seq<char>, d: Seq<char>) -> Option<(Seq<char>, Seq<char>)> {
    match occurrence_from(line, d, 0) {
        Some(i) => if utf8_len(trimmed(line.take(i))) > 2 {
            Some((line.take(i) + d, line.skip(i + d.len())))
        } else {
            None
        },
        None => None,
    }
}

proof fn lemma_trim_start_at(s: Seq<char>, a: int)
    requires
        0 <= a <= s.len(),
        forall|j: int| 0 <= j < a ==> is_space(#[trigger] s[j]),
        a == s.len() || !is_space(s[a]),
    ensures
        trim_start(s) == s.skip(a),
    decreases a,
{
    if a == 0 {
        assert(s.skip(0) =~= s);
    } else {
        let t = s.skip(1);
        assert forall|j: int| 0 <= j < a - 1 implies is_space(#[trigger] t[j]) by {
            assert(t[j] == s[j + 1]);
        }
        if a - 1 < t.len() {
            assert(t[a - 1] == s[a]);
        }
        lemma_trim_start_at(t, a - 1);
        assert(t.skip(a - 1) =~= s.skip(a));
    }
}

proof fn lemma_trim_end_at(s: Seq<char>, b: int)
    requires
        0 <= b <= s.len(),
        forall|j: int| b <= j < s.len() ==> is_space(#[trigger] s[j]),
        b == 0 || !is_space(s[b - 1]),
    ensures
        trim_end(s) == s.take(b),
    decreases s.len() - b,
{
    if b == s.len() {
        assert(s.take(b) =~= s);
    } else {
        let t = s.drop_last();
        assert forall|j: int| b <= j < t.len() implies is_space(#[trigger] t[j]) by {
            assert(t[j] == s[j]);
        }
        if b > 0 {
            assert(t[b - 1] == s[b - 1]);
        }
        lemma_trim_end_at(t, b);
        assert(t.take(b) =~= s.take(b));
    }
}

proof fn lemma_no_occurrence_before(s: Seq<char>, d: Seq<char>, i: int)
    requires
        0 <= i,
        d.len() > 0,
        i + d.len() <= s.len(),
        s.subrange(i, i + d.len()) != d,
    ensures
        occurrence_from(s, d, i) == occurrence_from(s, d, i + 1),
{
}

/// A prefix of a text takes no more bytes than the text.
pub proof fn lemma_utf8_prefix(s: Seq<char>, k: int)
    requires
        0 <= k <= s.len(),
    ensures
        utf8_len(s.take(k)) <= utf8_len(s),
    decreases s.len() - k,
{
    if k < s.len() {
        lemma_utf8_prefix(s, k + 1);
        assert(s.take(k + 1).drop_last() =~= s.take(k));
    } else {
        assert(s.take(k) =~= s);
    }
}

/// How many bytes a character takes in UTF-8.
pub fn char_width(c: char) -> (r: usize)
    ensures
        r == utf8_width(c),
{
    if (c as u32) < 0x80 {
        1
    } else if (c as u32) < 0x800 {
        2
    } else if (c as u32) < 0x10000 {
        3
    } else {
        4
    }
}

/// Whether a run of characters takes more than two bytes in UTF-8.
fn wider_than_two(cs: &Vec<char>, from: usize, to: usize) -> (r: bool)
    requires
        from <= to <= cs.len(),
    ensures
        r == (utf8_len(cs@.subrange(from as int, to as int)) > 2),
{
    let ghost whole = cs@.subrange(from as int, to as int);
    let mut n: usize = 0;
    let mut i: usize = from;
    while i < to
        invariant
            from <= i <= to,
            to <= cs.len(),
            whole == cs@.subrange(from as int, to as int),
            n == utf8_len(cs@.subrange(from as int, i as int)),
            n <= 2,
        decreases to - i,
    {
        let c = cs[i];
        let w: usize = if (c as u32) < 0x80 {
            1
        } else if (c as u32) < 0x800 {
            2
        } else if (c as u32) < 0x10000 {
            3
        } else {
            4
        };
        assert(cs@.subrange(from as int, i + 1).drop_last() =~= cs@.subrange(from as int, i as int));
        n = n + w;
        i = i + 1;
        if n > 2 {
            proof {
                assert(whole.take(i - from) =~= cs@.subrange(from as int, i as int));
                lemma_utf8_prefix(whole, i - from);
            }
            return true;
        }
    }
    false
}

/// A text without white space at either end.
pub fn trim(s: &str) -> (r: String)
    ensures
        r@ == trimmed(s@),
{
    let cs = chars_of(s);
    let n = cs.len();
    let mut a: usize = 0;
    while a < n && is_whitespace(cs[a])
        invariant
            a <= n,
            n == cs.len(),
            forall|j: int| 0 <= j < a ==> is_space(#[trigger] cs@[j]),
        decreases n - a,
    {
        a = a + 1;
    }
    let mut b: usize = n;
    while b > a && is_whitespace(cs[b - 1])
        invariant
            a <= b <= n,
            n == cs.len(),
            forall|j: int| b <= j < n ==> is_space(#[trigger] cs@[j]),
        decreases b,
    {
        b = b - 1;
    }
    proof {
        lemma_trim_start_at(cs@, a as int);
        let rest = cs@.skip(a as int);
        let bb = b - a;
        assert forall|j: int| bb <= j < rest.len() implies is_space(#[trigger] rest[j]) by {
            assert(rest[j] == cs@[j + a]);
        }
        if bb > 0 {
            assert(rest[bb - 1] == cs@[b - 1]);
        }
        lemma_trim_end_at(rest, bb);
        assert(rest.take(bb) =~= cs@.subrange(a as int, b as int));
    }
    s.substring_char(a, b).to_owned()
}

/// Splits a line at the first occurrence of `delimiter` where the part
/// before it is, trimmed, longer than two bytes: that part with the
/// delimiter, and the rest of the line. `None` otherwise.
pub fn split_label(line: &str, delimiter: &str) -> (r: Option<(String, String)>)
    requires
        delimiter@.len() > 0,
    ensures
        r is Some <==> labelled(line@, delimiter@) is Some,
        r matches Some(p) ==> (p.0@, p.1@) == labelled(line@, delimiter@)->Some_0,
{
    let cs = chars_of(line);
    let ds = chars_of(delimiter);
    let n = cs.len();
    let m = ds.len();
    if m > n {
        return None;
    }
    let mut i: usize = 0;
    let mut found = false;
    while i <= n - m && !found
        invariant
            cs@ == line@,
            ds@ == delimiter@,
            n == cs.len(),
            m == ds.len(),
            m > 0,
            m <= n,
            i + m <= n + 1,
            found ==> i + m <= n && cs@.subrange(i as int, i + m) == ds@,
            occurrence_from(line@, delimiter@, 0) == occurrence_from(line@, delimiter@, i as int),
        decreases n + 1 - i - (if found { 1int } else { 0int }),
    {
        let mut j: usize = 0;
        let mut same = true;
        while j < m && same
            invariant
                j <= m,
                i + m <= n,
                cs@ == line@,
                ds@ == delimiter@,
                n == cs.len(),
                m == ds.len(),
                same == forall|k: int| 0 <= k < j ==> cs@[i + k] == ds@[k],
            decreases m - j,
        {
            if cs[i + j] != ds[j] {
                same = false;
            }
            j = j + 1;
        }
        if same {
            assert(cs@.subrange(i as int, i + m) =~= ds@);
            found = true;
        } else {
            proof {
                let k = choose|k: int| 0 <= k < j && cs@[i + k] != ds@[k];
                assert(cs@.subrange(i as int, i + m)[k] != ds@[k]);
                lemma_no_occurrence_before(line@, delimiter@, i as int);
            }
            i = i + 1;
        }
    }
    if !found {
        return None;
    }
    assert(occurrence_from(line@, delimiter@, i as int) == Some(i as int));
    let mut a: usize = 0;
    while a < i && is_whitespace(cs[a])
        invariant
            a <= i,
            i <= n,
            n == cs.len(),
            forall|j: int| 0 <= j < a ==> is_space(#[trigger] cs@[j]),
        decreases i - a,
    {
        a = a + 1;
    }
    let mut b: usize = i;
    while b > a && is_whitespace(cs[b - 1])
        invariant
            a <= b <= i,
            i <= n,
            n == cs.len(),
            forall|j: int| b <= j < i ==> is_space(#[trigger] cs@[j]),
        decreases b,
    {
        b = b - 1;
    }
    proof {
        let label = cs@.take(i as int);
        assert forall|j: int| 0 <= j < a implies is_space(#[trigger] label[j]) by {
            assert(label[j] == cs@[j]);
        }
        if a < i {
            assert(label[a as int] == cs@[a as int]);
        }
        lemma_trim_start_at(label, a as int);
        let rest = label.skip(a as int);
        let bb = b - a;
        assert forall|j: int| bb <= j < rest.len() implies is_space(#[trigger] rest[j]) by {
            assert(rest[j] == cs@[j + a]);
        }
        if bb > 0 {
            assert(rest[bb - 1] == cs@[b - 1]);
        }
        lemma_trim_end_at(rest, bb);
        assert(rest.take(bb) =~= cs@.subrange(a as int, b as int));
    }
    if wider_than_two(&cs, a, b) {
        let label = string_of(&cs);
        let head = label.as_str().substring_char(0, i);
        let tail = label.as_str().substring_char(i + m, n);
        Some((String::from_str(head).concat(delimiter), tail.to_owned()))
    } else {
        None
    }
}

/// Whether `p` occurs in `cs` at position `i`.
pub fn occurs_at(cs: &Vec<char>, p: &Vec<char>, i: usize) -> (r: bool)
    ensures
        r == (i + p@.len() <= cs@.len() && cs@.subrange(i as int, i + p@.len()) == p@),
{
    if i > cs.len() || p.len() > cs.len() - i {
        return false;
    }
    let mut j: usize = 0;
    while j < p.len()
        invariant
            j <= p.len(),
            i + p.len() <= cs.len(),
            forall|k: int| 0 <= k < j ==> cs@[i + k] == p@[k],
        decreases p.len() - j,
    {
        if cs[i + j] != p[j] {
            assert(cs@.subrange(i as int, i + p@.len())[j as int] != p@[j as int]);
            return false;
        }
        j = j + 1;
    }
    assert(cs@.subrange(i as int, i + p@.len()) =~= p@);
    true
}

/// Whether `needle` occurs in `hay`.
pub fn contains_text(hay: &str, needle: &str) -> (r: bool)
    ensures
        r == has_infix(hay@, needle@),
{
    let cs = chars_of(hay);
    let ps = chars_of(needle);
    if ps.len() > cs.len() {
        return false;
    }
    if ps.len() == 0 {
        assert(hay@.subrange(0int, 0int + needle@.len()) =~= needle@);
        return true;
    }
    let mut i: usize = 0;
    while i <= cs.len() - ps.len()
        invariant
            cs@ == hay@,
            ps@ == needle@,
            1 <= ps.len() <= cs.len(),
            i <= cs.len() - ps.len() + 1,
            forall|k: int| 0 <= k < i ==> #[trigger] hay@.subrange(k, k + needle@.len()) != needle@,
        decreases cs.len() - i,
    {
        if occurs_at(&cs, &ps, i) {
            return true;
        }
        i = i + 1;
    }
    assert forall|k: int| 0 <= k && k + needle@.len() <= hay@.len() implies #[trigger] hay@.subrange(
        k,
        k + needle@.len(),
    ) != needle@ by {}
    false
}

/// Whether a lowercased module name holds a lowercased search query: the
/// test the module search applies to each name.
pub fn name_matches(name_lower: &str, query_lower: &str) -> (r: bool)
    ensures
        r == has_infix(name_lower@, query_lower@),
{
    contains_text(name_lower, query_lower)
}

/// The text from position `i` on with each occurrence of `p`, taken from
/// left to right without overlap, replaced by `t`.
pub open spec fn replaced_from(s: Seq<char>, p: Seq<char>, t: Seq<char>, i: int) -> Seq<char>
    decreases s.len() - i,
{
    if i < 0 || i >= s.len() || p.len() == 0 {
        if 0 <= i < s.len() { s.skip(i) } else { Seq::empty() }
    } else if i + p.len() <= s.len() && s.subrange(i, i + p.len()) == p {
        t + replaced_from(s, p, t, i + p.len())
    } else {
        seq![s[i]] + replaced_from(s, p, t, i + 1)
    }
}

/// A text with each occurrence of `p`, from left to right without overlap,
/// replaced by `t`.
pub open spec fn replaced(s: Seq<char>, p: Seq<char>, t: Seq<char>) -> Seq<char> {
    replaced_from(s, p, t, 0)
}

/// Replaces each occurrence of `pattern`, from left to right without
/// overlap, by `with`.
pub fn replace_text(s: &str, pattern: &str, with: &str) -> (r: String)
    requires
        pattern@.len() > 0,
    ensures
        r@ == replaced(s@, pattern@, with@),
{
    let cs = chars_of(s);
    let ps = chars_of(pattern);
    let mut out = String::new();
    let mut i: usize = 0;
    while i < cs.len()
        invariant
            i <= cs.len(),
            cs@ == s@,
            ps@ == pattern@,
            ps@.len() > 0,
            out@ + replaced_from(s@, pattern@, with@, i as int) == replaced(s@, pattern@, with@),
        decreases cs.len() - i,
    {
        let ghost before = out@;
        if occurs_at(&cs, &ps, i) {
            out.append(with);
            proof {
                assert(before + replaced_from(s@, pattern@, with@, i as int) =~= out@
                    + replaced_from(s@, pattern@, with@, i + ps@.len()));
            }
            i = i + ps.len();
        } else {
            push_char(&mut out, cs[i]);
            proof {
                assert(before + replaced_from(s@, pattern@, with@, i as int) =~= out@
                    + replaced_from(s@, pattern@, with@, i + 1));
            }
            i = i + 1;
        }
    }
    assert(out@ =~= out@ + replaced_from(s@, pattern@, with@, i as int));
    out
}

} // verus!
