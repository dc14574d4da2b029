//! Character-level helpers shared by the request parser and the response
//! builder, stated over `Seq<char>`.

use vstd::prelude::*;
use vstd::std_specs::iter::IteratorSpec;
use vstd::string::StrSliceExecFns;
use vstd::string::StringExecFns;
use vstd::utf8::{encode_utf8, is_ascii_chars, is_ascii_chars_encode_utf8};

verus! {

/// Whether `c` is whitespace as Unicode defines it (`White_Space`).
pub open spec fn is_whitespace(c: char) -> bool {
    ||| '\u{9}' <= c <= '\u{d}'
    ||| c == ' '
    ||| c == '\u{85}'
    ||| c == '\u{a0}'
    ||| c == '\u{1680}'
    ||| '\u{2000}' <= c <= '\u{200a}'
    ||| c == '\u{2028}'
    ||| c == '\u{2029}'
    ||| c == '\u{202f}'
    ||| c == '\u{205f}'
    ||| c == '\u{3000}'
}

/// Decides `is_whitespace`.
pub fn char_is_whitespace(c: char) -> (r: bool)
    ensures
        r == is_whitespace(c),
{
    ('\u{9}' <= c && c <= '\u{d}') || c == ' ' || c == '\u{85}' || c == '\u{a0}' || c == '\u{1680}'
        || ('\u{2000}' <= c && c <= '\u{200a}') || c == '\u{2028}' || c == '\u{2029}' || c
        == '\u{202f}' || c == '\u{205f}' || c == '\u{3000}'
}

/// The characters of `s`, in order.
pub fn chars_of(s: &str) -> (r: Vec<char>)
    ensures
        r@ == s@,
{
    let mut out: Vec<char> = Vec::new();
    let mut it = s.chars();
    loop
        invariant
            out@ + it.remaining() == s@,
            it.obeys_prophetic_iter_laws(),
            it.decrease() is Some,
        ensures
            out@ == s@,
        decreases it.decrease()->0,
    {
        match it.next() {
            Some(c) => {
                out.push(c);
            },
            None => {
                assert(out@ + it.remaining() =~= out@);
                break;
            },
        }
    }
    out
}

/// The least index `i >= from` with `s[i] == c`, or `s.len()` where there is
/// none.
pub open spec fn position_from(s: Seq<char>, c: char, from: int) -> int
    decreases s.len() - from,
{
    if from < 0 || from >= s.len() {
        s.len() as int
    } else if s[from] == c {
        from
    } else {
        position_from(s, c, from + 1)
    }
}

/// How often `c` occurs in `s` at an index `>= from`.
pub open spec fn occurrences_from(s: Seq<char>, c: char, from: int) -> nat
    decreases s.len() - from,
{
    if from < 0 || from >= s.len() {
        0
    } else if s[from] == c {
        1 + occurrences_from(s, c, from + 1)
    } else {
        occurrences_from(s, c, from + 1)
    }
}

/// `position_from` is in range, points at `c` where it is inside `s`, and
/// passes over no `c`.
pub proof fn lemma_position_from(s: Seq<char>, c: char, from: int)
    requires
        0 <= from <= s.len(),
    ensures
        from <= position_from(s, c, from) <= s.len(),
        position_from(s, c, from) < s.len() ==> s[position_from(s, c, from)] == c,
        forall|i: int| from <= i < position_from(s, c, from) ==> s[i] != c,
    decreases s.len() - from,
{
    if from < s.len() && s[from] != c {
        lemma_position_from(s, c, from + 1);
    }
}

/// Counting from `from` is counting from the next `c`: none is left where
/// `position_from` runs off the end, and one more than behind it otherwise.
pub proof fn lemma_occurrences_step(s: Seq<char>, c: char, from: int)
    requires
        0 <= from <= s.len(),
    ensures
        position_from(s, c, from) == s.len() ==> occurrences_from(s, c, from) == 0,
        position_from(s, c, from) < s.len() ==> occurrences_from(s, c, from) == 1
            + occurrences_from(s, c, position_from(s, c, from) + 1),
    decreases s.len() - from,
{
    if from < s.len() && s[from] != c {
        lemma_occurrences_step(s, c, from + 1);
    }
}

/// Finds the first `c` at or after `from`.
pub fn find_from(v: &Vec<char>, c: char, from: usize) -> (r: usize)
    requires
        from <= v.len(),
    ensures
        r == position_from(v@, c, from as int),
        from <= r <= v.len(),
{
    let mut i: usize = from;
    while i < v.len() && v[i] != c
        invariant
            from <= i <= v.len(),
            position_from(v@, c, from as int) == position_from(v@, c, i as int),
        decreases v.len() - i,
    {
        i += 1;
    }
    i
}

/// The index just behind the last `c` in `s[..end]`, or 0 where there is none.
pub open spec fn after_last(s: Seq<char>, c: char, end: int) -> int
    decreases end,
{
    if end <= 0 || end > s.len() {
        0
    } else if s[end - 1] == c {
        end
    } else {
        after_last(s, c, end - 1)
    }
}

/// Finds the index just behind the last `c`, or 0 where `v` holds none.
pub fn find_after_last(v: &Vec<char>, c: char) -> (r: usize)
    ensures
        r == after_last(v@, c, v@.len() as int),
        r <= v.len(),
{
    let mut i: usize = v.len();
    while i > 0 && v[i - 1] != c
        invariant
            i <= v.len(),
            after_last(v@, c, v@.len() as int) == after_last(v@, c, i as int),
        decreases i,
    {
        i -= 1;
    }
    i
}

/// `s` without its leading whitespace.
pub open spec fn trim_start(s: Seq<char>) -> Seq<char>
    decreases s.len(),
{
    if s.len() > 0 && is_whitespace(s[0]) {
        trim_start(s.subrange(1, s.len() as int))
    } else {
        s
    }
}

/// `s` without its trailing whitespace.
pub open spec fn trim_end(s: Seq<char>) -> Seq<char>
    decreases s.len(),
{
    if s.len() > 0 && is_whitespace(s[s.len() - 1]) {
        trim_end(s.subrange(0, s.len() - 1))
    } else {
        s
    }
}

/// `s` without its leading and trailing whitespace.
pub open spec fn trim(s: Seq<char>) -> Seq<char> {
    trim_end(trim_start(s))
}

/// `trim_start` keeps a suffix of `s`: what it drops is whitespace, and what
/// it keeps does not begin with whitespace.
pub proof fn lemma_trim_start(s: Seq<char>)
    ensures
        trim_start(s).len() <= s.len(),
        trim_start(s) == s.subrange(s.len() - trim_start(s).len(), s.len() as int),
        forall|i: int| 0 <= i < s.len() - trim_start(s).len() ==> is_whitespace(s[i]),
        trim_start(s).len() > 0 ==> !is_whitespace(trim_start(s)[0]),
    decreases s.len(),
{
    if s.len() > 0 && is_whitespace(s[0]) {
        let rest = s.subrange(1, s.len() as int);
        lemma_trim_start(rest);
        let kept = trim_start(rest).len();
        assert(rest.subrange(rest.len() - kept, rest.len() as int) =~= s.subrange(
            s.len() - kept,
            s.len() as int,
        ));
        assert forall|i: int| 0 <= i < s.len() - kept implies is_whitespace(s[i]) by {
            if i > 0 {
                assert(s[i] == rest[i - 1]);
            }
        }
    } else {
        assert(s.subrange(0, s.len() as int) =~= s);
    }
}

/// `trim_end` keeps a prefix of `s`: what it drops is whitespace, and what
/// it keeps does not end with whitespace.
pub proof fn lemma_trim_end(s: Seq<char>)
    ensures
        trim_end(s).len() <= s.len(),
        trim_end(s) == s.subrange(0, trim_end(s).len() as int),
        forall|i: int| trim_end(s).len() <= i < s.len() ==> is_whitespace(s[i]),
        trim_end(s).len() > 0 ==> !is_whitespace(trim_end(s)[trim_end(s).len() - 1]),
    decreases s.len(),
{
    if s.len() > 0 && is_whitespace(s[s.len() - 1]) {
        let rest = s.subrange(0, s.len() - 1);
        lemma_trim_end(rest);
        let kept = trim_end(rest).len();
        assert(rest.subrange(0, kept as int) =~= s.subrange(0, kept as int));
        assert forall|i: int| kept <= i < s.len() implies is_whitespace(s[i]) by {
            if i < s.len() - 1 {
                assert(s[i] == rest[i]);
            }
        }
    } else {
        assert(s.subrange(0, s.len() as int) =~= s);
    }
}

/// What `trim` gives neither begins nor ends with whitespace, is a part of
/// `s`, and is `s` itself where `s` neither begins nor ends with whitespace.
pub proof fn lemma_trim(s: Seq<char>)
    ensures
        trim(s).len() <= s.len(),
        trim(s).len() > 0 ==> !is_whitespace(trim(s)[0]) && !is_whitespace(
            trim(s)[trim(s).len() - 1],
        ),
        exists|from: int, to: int|
            0 <= from <= to <= s.len() && trim(s) == #[trigger] s.subrange(from, to),
        (s.len() == 0 || (!is_whitespace(s[0]) && !is_whitespace(s[s.len() - 1]))) ==> trim(s)
            == s,
        trim(trim(s)) == trim(s),
{
    let front = trim_start(s);
    lemma_trim_start(s);
    lemma_trim_end(front);
    let from = s.len() - front.len();
    let to = from + trim(s).len();
    assert(front.subrange(0, trim(s).len() as int) =~= s.subrange(from, to));
    if trim(s).len() > 0 {
        assert(trim(s)[0] == front[0]);
    }
    lemma_trim_start(trim(s));
    lemma_trim_end(trim(s));
}

/// Narrows `[from, to)` to the part of it that `trim` keeps.
pub fn trim_range(v: &Vec<char>, from: usize, to: usize) -> (r: (usize, usize))
    requires
        from <= to <= v.len(),
    ensures
        from <= r.0 <= r.1 <= to,
        v@.subrange(r.0 as int, r.1 as int) == trim(v@.subrange(from as int, to as int)),
{
    let mut a: usize = from;
    while a < to && char_is_whitespace(v[a])
        invariant
            from <= a <= to <= v.len(),
            trim_start(v@.subrange(from as int, to as int)) == trim_start(
                v@.subrange(a as int, to as int),
            ),
        decreases to - a,
    {
        assert(v@.subrange(a as int, to as int).subrange(1, to - a) =~= v@.subrange(
            a + 1,
            to as int,
        ));
        a += 1;
    }
    let mut b: usize = to;
    while b > a && char_is_whitespace(v[b - 1])
        invariant
            a <= b <= to <= v.len(),
            trim_end(v@.subrange(a as int, to as int)) == trim_end(
                v@.subrange(a as int, b as int),
            ),
        decreases b - a,
    {
        assert(v@.subrange(a as int, b as int).subrange(0, b - a - 1) =~= v@.subrange(
            a as int,
            b - 1,
        ));
        b -= 1;
    }
    (a, b)
}

/// Whether two strings hold the same characters.
pub fn same_text(a: &str, b: &str) -> (r: bool)
    ensures
        r == (a@ == b@),
{
    let x = chars_of(a);
    let y = chars_of(b);
    let n = x.len();
    if n != y.len() {
        return false;
    }
    let mut i: usize = 0;
    while i < n
        invariant
            i <= n,
            n == x@.len(),
            n == y@.len(),
            x@ == a@,
            y@ == b@,
            forall|j: int| 0 <= j < i ==> x@[j] == y@[j],
        decreases n - i,
    {
        if x[i] != y[i] {
            return false;
        }
        i += 1;
    }
    assert(x@ =~= y@);
    true
}

/// The characters of `s` from `from` up to `to`, as an owned string.
pub fn slice_string(s: &str, from: usize, to: usize) -> (r: String)
    requires
        from <= to <= s@.len(),
    ensures
        r@ == s@.subrange(from as int, to as int),
{
    String::from_str(s.substring_char(from, to))
}

/// Whether `s` holds printable ASCII only: space up to tilde, so no line
/// feed and no other control character.
pub open spec fn is_printable_ascii(s: Seq<char>) -> bool {
    forall|i: int| 0 <= i < s.len() ==> ' ' <= #[trigger] s[i] <= '~'
}

/// Whether `s` is made of whole lines of printable ASCII, none of them
/// empty: it does not begin with a line feed, it ends with one, and no line
/// feed follows another. The empty text is made of no lines.
pub open spec fn is_ascii_lines(s: Seq<char>) -> bool {
    &&& forall|i: int| 0 <= i < s.len() ==> #[trigger] s[i] == '\n' || ' ' <= s[i] <= '~'
    &&& s.len() > 0 ==> s[0] != '\n' && s[s.len() - 1] == '\n'
    &&& forall|i: int| 0 <= i < s.len() - 1 ==> !(#[trigger] s[i] == '\n' && s[i + 1] == '\n')
}

/// The same of bytes: no line feed at the start, one at the end, and no two
/// in a row, so that the bytes hold no empty line.
pub open spec fn is_line_bytes(bytes: Seq<u8>) -> bool {
    &&& bytes.len() > 0 ==> bytes[0] != 10 && bytes[bytes.len() - 1] == 10
    &&& forall|i: int|
        0 <= i < bytes.len() - 1 ==> !(#[trigger] bytes[i] == 10 && bytes[i + 1] == 10)
}

/// Printable text that is not empty, ended by a line feed, is one whole line.
pub proof fn lemma_one_line(s: Seq<char>)
    requires
        is_printable_ascii(s),
        s.len() > 0,
    ensures
        is_ascii_lines(s + seq!['\n']),
{
    let line = s + seq!['\n'];
    assert forall|i: int| 0 <= i < line.len() implies #[trigger] line[i] == '\n' || ' '
        <= line[i] <= '~' by {
        if i < s.len() {
            assert(line[i] == s[i]);
        }
    }
    assert(line[0] == s[0]);
    assert forall|i: int| 0 <= i < line.len() - 1 implies !(#[trigger] line[i] == '\n' && line[i
        + 1] == '\n') by {
        assert(line[i] == s[i]);
    }
}

/// Whole lines after whole lines are whole lines.
pub proof fn lemma_lines_concat(a: Seq<char>, b: Seq<char>)
    requires
        is_ascii_lines(a),
        is_ascii_lines(b),
    ensures
        is_ascii_lines(a + b),
{
    let s = a + b;
    assert forall|i: int| 0 <= i < s.len() implies #[trigger] s[i] == '\n' || ' ' <= s[i]
        <= '~' by {
        if i < a.len() {
            assert(s[i] == a[i]);
        } else {
            assert(s[i] == b[i - a.len()]);
        }
    }
    assert forall|i: int| 0 <= i < s.len() - 1 implies !(#[trigger] s[i] == '\n' && s[i + 1]
        == '\n') by {
        if i + 1 < a.len() {
            assert(s[i] == a[i] && s[i + 1] == a[i + 1]);
        } else if i >= a.len() {
            assert(s[i] == b[i - a.len()] && s[i + 1] == b[i + 1 - a.len()]);
        } else {
            assert(s[i + 1] == b[0]);
        }
    }
    if s.len() > 0 {
        if a.len() > 0 {
            assert(s[0] == a[0]);
        } else {
            assert(s[0] == b[0]);
        }
        if b.len() > 0 {
            assert(s[s.len() - 1] == b[b.len() - 1]);
        } else {
            assert(s[s.len() - 1] == a[a.len() - 1]);
        }
    }
}

/// Printable text after printable text is printable.
pub proof fn lemma_printable_concat(a: Seq<char>, b: Seq<char>)
    requires
        is_printable_ascii(a),
        is_printable_ascii(b),
    ensures
        is_printable_ascii(a + b),
{
    let s = a + b;
    assert forall|i: int| 0 <= i < s.len() implies ' ' <= #[trigger] s[i] <= '~' by {
        if i < a.len() {
            assert(s[i] == a[i]);
        } else {
            assert(s[i] == b[i - a.len()]);
        }
    }
}

/// Whole ASCII lines are, as UTF-8, as many bytes as characters, and hold no
/// empty line.
pub proof fn lemma_lines_as_bytes(s: Seq<char>)
    requires
        is_ascii_lines(s),
    ensures
        encode_utf8(s).len() == s.len(),
        is_line_bytes(encode_utf8(s)),
{
    assert(is_ascii_chars(s)) by {
        assert forall|i: int| 0 <= i < s.len() implies '\0' <= #[trigger] s[i] <= '\u{7f}' by {
            assert(s[i] == '\n' || ' ' <= s[i] <= '~');
        }
    }
    is_ascii_chars_encode_utf8(s);
    let bytes = encode_utf8(s);
    assert forall|i: int| 0 <= i < s.len() implies (#[trigger] bytes[i] == 10 <==> s[i]
        == '\n') by {
        assert(s[i] as u8 == bytes[i]);
        assert(s[i] == '\n' || ' ' <= s[i] <= '~');
    }
    assert forall|i: int| 0 <= i < bytes.len() - 1 implies !(#[trigger] bytes[i] == 10 && bytes[i
        + 1] == 10) by {
        assert(bytes[i + 1] == 10 <==> s[i + 1] == '\n');
        assert(!(s[i] == '\n' && s[i + 1] == '\n'));
    }
}

} // verus!
