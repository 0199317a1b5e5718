//! Character-level helpers shared by the parsers and formatters: Unicode
//! properties that only the standard library knows, trimming, decimal
//! rendering and conversions between `&str`, `Vec<char>` and `String`.

use vstd::prelude::*;

verus! {

/// The Unicode lowercase mapping of a non-ASCII `c` (one or more chars),
/// as `char::to_lowercase` yields it.
pub uninterp spec fn lowercase_of(c: char) -> Seq<char>;

/// Whether `c` has the Unicode `White_Space` property, as
/// `char::is_whitespace` reports it: the 25 code points U+0009 to U+000D,
/// U+0020, U+0085, U+00A0, U+1680, U+2000 to U+200A, U+2028, U+2029,
/// U+202F, U+205F and U+3000 (PropList.txt).
pub open spec fn is_white_space(c: char) -> bool {
    ||| '\u{9}' <= c <= '\u{d}'
    ||| c == ' '
    ||| c == '\u{85}'
    ||| c == '\u{a0}'
    ||| c == '\u{1680}'
    ||| '\u{2000}' <= c <= '\u{200a}'
    ||| c == '\u{2028}'
    ||| c == '\u{2029}'
    ||| c == '\u{202f}'
    ||| c == '\u{205f}'
    ||| c == '\u{3000}'
}

/// The lowercase mapping of `c`: its ASCII lowercase for an ASCII char,
/// else the Unicode mapping `lowercase_of`.
pub open spec fn lower_of(c: char) -> Seq<char> {
    if (c as u32) < 128 {
        seq![ascii_lowercase(c)]
    } else {
        lowercase_of(c)
    }
}

/// The ASCII lowercase of `c`: 'A' to 'Z' become 'a' to 'z', every other
/// char stays.
pub open spec fn ascii_lowercase(c: char) -> char {
    if 'A' <= c <= 'Z' {
        ((c as u32) + 32) as char
    } else {
        c
    }
}

/// Whether a char outside ASCII has the Unicode `Alphabetic` property, as
/// `char::is_alphabetic` reports it.
pub uninterp spec fn is_alphabetic_char(c: char) -> bool;

/// Whether `c` has the Unicode `Alphabetic` property: within ASCII exactly
/// the letters 'A' to 'Z' and 'a' to 'z', beyond it as the tables give.
pub open spec fn alphabetic(c: char) -> bool {
    if (c as u32) < 128 {
        ('a' <= c && c <= 'z') || ('A' <= c && c <= 'Z')
    } else {
        is_alphabetic_char(c)
    }
}

/// Calls `char::to_lowercase` and collects what it yields. The standard
/// library documents the mapping as one or more chars, the Unicode
/// lowercase mapping; for an ASCII char that is its ASCII lowercase ('A'
/// to 'Z' become 'a' to 'z', the rest stay, as `char::to_ascii_lowercase`
/// documents for ASCII). The mapping of other chars (Unicode tables) is
/// left to the name `lowercase_of`.
#[verifier::external_body]
pub fn char_lowercase(c: char) -> (r: Vec<char>)
    ensures
        (c as u32) < 128 ==> r@ == seq![ascii_lowercase(c)],
        (c as u32) >= 128 ==> r@ == lowercase_of(c),
        r@.len() >= 1,
{
    c.to_lowercase().collect()
}

/// Calls `char::is_whitespace`, which reports the `White_Space` property.
#[verifier::external_body]
pub fn char_is_whitespace(c: char) -> (b: bool)
    ensures
        b == is_white_space(c),
{
    c.is_whitespace()
}

/// Calls `char::is_alphabetic`, which answers for ASCII by its letters
/// ('a' to 'z', 'A' to 'Z') and for other chars from the Unicode tables;
/// which of those carry the property is left to the name
/// `is_alphabetic_char`.
#[verifier::external_body]
pub fn char_is_alphabetic(c: char) -> (b: bool)
    ensures
        (c as u32) < 128 ==> b == (('a' <= c && c <= 'z') || ('A' <= c && c <= 'Z')),
        (c as u32) >= 128 ==> b == is_alphabetic_char(c),
{
    c.is_alphabetic()
}

/// Calls `String::push`: the char is appended at the end.
#[verifier::external_body]
pub fn push_char(s: &mut String, c: char)
    ensures
        final(s)@ == old(s)@.push(c),
{
    s.push(c);
}

/// An ASCII decimal digit.
pub open spec fn is_ascii_digit(c: char) -> bool {
    '0' <= c && c <= '9'
}

pub fn ascii_digit(c: char) -> (b: bool)
    ensures
        b == is_ascii_digit(c),
{
    '0' <= c && c <= '9'
}

/// The chars of `s`, in order.
pub fn chars_of(s: &str) -> (r: Vec<char>)
    ensures
        r@ == s@,
{
    let mut v: Vec<char> = Vec::new();
    for c in iter: s.chars()
        invariant
            v@ == iter.seq().take(iter.index() as int),
    {
        v.push(c);
    }
    v
}

/// A `String` holding exactly the chars of `s`.
pub fn string_from(s: &[char]) -> (r: String)
    ensures
        r@ == s@,
{
    let mut out = String::new();
    let mut i: usize = 0;
    while i < s.len()
        invariant
            i <= s@.len(),
            out@ == s@.take(i as int),
        decreases s@.len() - i,
    {
        push_char(&mut out, s[i]);
        assert(s@.take(i as int).push(s@[i as int]) =~= s@.take(i + 1));
        i += 1;
    }
    assert(s@.take(s@.len() as int) =~= s@);
    out
}

/// Appends every char of `t` to `out`.
pub fn extend_chars(out: &mut Vec<char>, t: &[char])
    ensures
        final(out)@ == old(out)@ + t@,
{
    let mut i: usize = 0;
    while i < t.len()
        invariant
            i <= t@.len(),
            out@ == old(out)@ + t@.take(i as int),
        decreases t@.len() - i,
    {
        out.push(t[i]);
        assert(old(out)@ + t@.take(i + 1) =~= old(out)@ + t@.take(i as int) + seq![t@[i as int]]);
        i += 1;
    }
    assert(t@.take(t@.len() as int) =~= t@);
}

/// Appends the chars of `t` to `out`.
pub fn extend_str(out: &mut Vec<char>, t: &str)
    ensures
        final(out)@ == old(out)@ + t@,
{
    let v = chars_of(t);
    extend_chars(out, v.as_slice());
}

/// The chars `s[from..to]` as a new vector.
pub fn sub_chars(s: &[char], from: usize, to: usize) -> (r: Vec<char>)
    requires
        from <= to <= s@.len(),
    ensures
        r@ == s@.subrange(from as int, to as int),
{
    let mut v: Vec<char> = Vec::new();
    let mut i: usize = from;
    while i < to
        invariant
            from <= i <= to <= s@.len(),
            v@ == s@.subrange(from as int, i as int),
        decreases to - i,
    {
        v.push(s[i]);
        assert(s@.subrange(from as int, i as int).push(s@[i as int]) =~= s@.subrange(
            from as int,
            i + 1,
        ));
        i += 1;
    }
    v
}

/// `s` without its leading `White_Space` chars.
pub open spec fn trim_start(s: Seq<char>) -> Seq<char>
    decreases s.len(),
{
    if s.len() > 0 && is_white_space(s[0]) {
        trim_start(s.drop_first())
    } else {
        s
    }
}

/// `s` without its trailing `White_Space` chars.
pub open spec fn trim_end(s: Seq<char>) -> Seq<char>
    decreases s.len(),
{
    if s.len() > 0 && is_white_space(s.last()) {
        trim_end(s.drop_last())
    } else {
        s
    }
}

/// `s` without leading and trailing `White_Space` chars (what `str::trim`
/// documents).
pub open spec fn trimmed(s: Seq<char>) -> Seq<char> {
    trim_end(trim_start(s))
}

/// Bounds `(a, b)` with `s[a..b]` the trimmed text.
pub fn trim_bounds(s: &[char]) -> (r: (usize, usize))
    ensures
        r.0 <= r.1 <= s@.len(),
        s@.subrange(r.0 as int, r.1 as int) == trimmed(s@),
        trim_start(s@) == s@.skip(r.0 as int),
{
    let n = s.len();
    let mut a: usize = 0;
    assert(s@.skip(0) =~= s@);
    while a < n && char_is_whitespace(s[a])
        invariant
            a <= n == s@.len(),
            trim_start(s@.skip(a as int)) == trim_start(s@),
        decreases n - a,
    {
        assert(s@.skip(a as int).drop_first() =~= s@.skip(a + 1));
        a += 1;
    }
    let mut b: usize = n;
    assert(s@.subrange(a as int, n as int) =~= s@.skip(a as int));
    while b > a && char_is_whitespace(s[b - 1])
        invariant
            a <= b <= n == s@.len(),
            trim_start(s@) == s@.skip(a as int),
            trim_end(s@.subrange(a as int, b as int)) == trimmed(s@),
        decreases b - a,
    {
        assert(s@.subrange(a as int, b as int).drop_last() =~= s@.subrange(a as int, b - 1));
        b -= 1;
    }
    (a, b)
}

/// The trimmed chars of `s` as a new vector.
pub fn trim_chars(s: &[char]) -> (r: Vec<char>)
    ensures
        r@ == trimmed(s@),
{
    let (a, b) = trim_bounds(s);
    sub_chars(s, a, b)
}

/// The decimal digit for `d < 10`.
pub open spec fn digit_char(d: nat) -> char {
    if d == 0 {
        '0'
    } else if d == 1 {
        '1'
    } else if d == 2 {
        '2'
    } else if d == 3 {
        '3'
    } else if d == 4 {
        '4'
    } else if d == 5 {
        '5'
    } else if d == 6 {
        '6'
    } else if d == 7 {
        '7'
    } else if d == 8 {
        '8'
    } else {
        '9'
    }
}

/// The decimal numeral of `n`, without sign or leading zeros.
pub open spec fn decimal(n: nat) -> Seq<char>
    decreases n,
{
    if n < 10 {
        seq![digit_char(n)]
    } else {
        decimal(n / 10).push(digit_char(n % 10))
    }
}

fn digit_to_char(d: u64) -> (c: char)
    requires
        d < 10,
    ensures
        c == digit_char(d as nat),
{
    if d == 0 {
        '0'
    } else if d == 1 {
        '1'
    } else if d == 2 {
        '2'
    } else if d == 3 {
        '3'
    } else if d == 4 {
        '4'
    } else if d == 5 {
        '5'
    } else if d == 6 {
        '6'
    } else if d == 7 {
        '7'
    } else if d == 8 {
        '8'
    } else {
        '9'
    }
}

/// Appends the decimal numeral of `n` to `out`.
pub fn push_decimal(out: &mut Vec<char>, n: u64)
    ensures
        final(out)@ == old(out)@ + decimal(n as nat),
    decreases n,
{
    if n < 10 {
        out.push(digit_to_char(n));
        assert(old(out)@ + decimal(n as nat) =~= old(out)@.push(digit_char(n as nat)));
    } else {
        push_decimal(out, n / 10);
        out.push(digit_to_char(n % 10));
        assert(old(out)@ + decimal(n as nat) =~= old(out)@ + decimal((n / 10) as nat) + seq![
            digit_char((n % 10) as nat),
        ]);
    }
}

/// The code of `c` with an ASCII capital letter mapped to its small letter.
pub open spec fn ascii_lower_code(c: char) -> int {
    if 'A' <= c && c <= 'Z' {
        (c as u32) + 32
    } else {
        c as u32 as int
    }
}

/// Whether two char sequences are equal when ASCII letters are compared
/// without regard to case (what `str::eq_ignore_ascii_case` documents; on
/// UTF-8 text the byte-wise and the char-wise comparison agree).
pub open spec fn eq_ignore_ascii_case_spec(a: Seq<char>, b: Seq<char>) -> bool {
    a.len() == b.len() && forall|i: int|
        0 <= i < a.len() ==> ascii_lower_code(#[trigger] a[i]) == ascii_lower_code(b[i])
}

fn ascii_lower_code_exec(c: char) -> (r: u32)
    ensures
        r == ascii_lower_code(c),
{
    if 'A' <= c && c <= 'Z' {
        (c as u32) + 32
    } else {
        c as u32
    }
}

/// ASCII-case-insensitive equality of two strings.
pub fn eq_ignore_ascii_case(a: &str, b: &str) -> (r: bool)
    ensures
        r == eq_ignore_ascii_case_spec(a@, b@),
{
    let x = chars_of(a);
    let y = chars_of(b);
    if x.len() != y.len() {
        return false;
    }
    let mut i: usize = 0;
    while i < x.len()
        invariant
            x@ == a@,
            y@ == b@,
            x@.len() == y@.len(),
            i <= x@.len(),
            forall|k: int| 0 <= k < i ==> ascii_lower_code(#[trigger] x@[k]) == ascii_lower_code(y@[k]),
        decreases x@.len() - i,
    {
        if ascii_lower_code_exec(x[i]) != ascii_lower_code_exec(y[i]) {
            return false;
        }
        i += 1;
    }
    true
}

/// The lowercase form of a whole string, as `str::to_lowercase` computes it
/// (context-sensitive, e.g. for a final sigma).
pub uninterp spec fn lowercase_str(s: Seq<char>) -> Seq<char>;

/// Calls `str::to_lowercase`; the Unicode mapping is left to the name
/// `lowercase_str`.
#[verifier::external_body]
pub fn str_to_lowercase(s: &str) -> (r: String)
    ensures
        r@ == lowercase_str(s@),
{
    s.to_lowercase()
}

/// `q` occurs in `t` starting at char index `i`.
pub open spec fn occurs_at(t: Seq<char>, q: Seq<char>, i: int) -> bool {
    0 <= i && i + q.len() <= t.len() && t.subrange(i, i + q.len()) == q
}

/// `q` occurs somewhere in `t` (an empty `q` occurs everywhere).
pub open spec fn contains_spec(t: Seq<char>, q: Seq<char>) -> bool {
    exists|i: int| occurs_at(t, q, i)
}

fn matches_at(t: &[char], q: &[char], i: usize) -> (r: bool)
    requires
        i + q@.len() <= t@.len(),
    ensures
        r == occurs_at(t@, q@, i as int),
{
    let n = t.len();
    let mut k: usize = 0;
    while k < q.len()
        invariant
            n == t@.len(),
            i + q@.len() <= t@.len(),
            k <= q@.len(),
            forall|m: int| 0 <= m < k ==> t@[i + m] == q@[m],
        decreases q@.len() - k,
    {
        if t[i + k] != q[k] {
            assert(t@.subrange(i as int, i + q@.len())[k as int] != q@[k as int]);
            return false;
        }
        k += 1;
    }
    assert(t@.subrange(i as int, i + q@.len()) =~= q@);
    true
}

/// The first char index at which `q` occurs in `t`.
pub fn find_chars(t: &[char], q: &[char]) -> (r: Option<usize>)
    ensures
        match r {
            Some(i) => occurs_at(t@, q@, i as int) && forall|j: int|
                0 <= j < i ==> !occurs_at(t@, q@, j),
            None => !contains_spec(t@, q@),
        },
{
    if q.len() > t.len() {
        return None;
    }
    let last = t.len() - q.len();
    let mut i: usize = 0;
    loop
        invariant
            last + q@.len() == t@.len(),
            i <= last,
            forall|j: int| 0 <= j < i ==> !occurs_at(t@, q@, j),
        ensures
            forall|j: int| 0 <= j <= last ==> !occurs_at(t@, q@, j),
        decreases last - i,
    {
        if matches_at(t, q, i) {
            return Some(i);
        }
        if i == last {
            break;
        }
        i += 1;
    }
    assert forall|j: int| !occurs_at(t@, q@, j) by {
        if 0 <= j <= last {
        }
    }
    None
}

} // verus!
