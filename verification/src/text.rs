//! Character- and string-level helpers shared by every emitter: ASCII
//! upper-casing, whitespace handling, double-quote escaping, decimal
//! rendering of integers, and indentation.
use vstd::prelude::*;

verus! {

/// Relies on String::push: appends the given character to the end of the string.
pub assume_specification[ String::push ](s: &mut String, c: char)
    ensures
        final(s)@ == old(s)@.push(c),
;

/// ASCII upper-casing of a single character: letters `a` through `z` map to
/// their upper-case forms, every other character is unchanged.
pub open spec fn upper_char(c: char) -> char {
    if 'a' <= c && c <= 'z' {
        ((c as u32) - 32) as char
    } else {
        c
    }
}

pub fn to_upper_char(c: char) -> (r: char)
    ensures
        r == upper_char(c),
{
    if 'a' <= c && c <= 'z' {
        let b: u8 = (c as u32) as u8;
        ((b - 32) as char)
    } else {
        c
    }
}

/// The sequence with every character upper-cased as by [`upper_char`].
pub open spec fn spec_upper(s: Seq<char>) -> Seq<char> {
    Seq::new(s.len(), |i: int| upper_char(s[i]))
}

/// ASCII upper-casing of a whole string.
pub fn to_upper(s: &str) -> (r: String)
    ensures
        r@ == spec_upper(s@),
{
    let n: usize = s.unicode_len();
    let mut out = String::new();
    let mut i: usize = 0;
    while i < n
        invariant
            n == s@.len(),
            i <= n,
            out@.len() == i,
            forall|j: int| 0 <= j < i ==> out@[j] == upper_char(s@[j]),
        decreases n - i,
    {
        out.push(to_upper_char(s.get_char(i)));
        i = i + 1;
    }
    assert(out@ =~= spec_upper(s@));
    out
}

/// The Unicode white-space characters, as the `White_Space` property lists
/// them.
pub open spec fn is_space_char(c: char) -> bool {
    c == '\t' || c == '\n' || c == '\u{0B}' || c == '\u{0C}' || c == '\r' || c == ' '
        || c == '\u{85}' || c == '\u{A0}' || c == '\u{1680}' || ('\u{2000}' <= c && c
        <= '\u{200A}') || c == '\u{2028}' || c == '\u{2029}' || c == '\u{202F}' || c == '\u{205F}'
        || c == '\u{3000}'
}

pub fn is_space(c: char) -> (r: bool)
    ensures
        r == is_space_char(c),
{
    c == '\t' || c == '\n' || c == '\u{0B}' || c == '\u{0C}' || c == '\r' || c == ' '
        || c == '\u{85}' || c == '\u{A0}' || c == '\u{1680}' || ('\u{2000}' <= c && c
        <= '\u{200A}') || c == '\u{2028}' || c == '\u{2029}' || c == '\u{202F}' || c == '\u{205F}'
        || c == '\u{3000}'
}

/// The sequence with every white-space character removed.
pub open spec fn spec_strip_spaces(s: Seq<char>) -> Seq<char>
    decreases s.len(),
{
    if s.len() == 0 {
        Seq::empty()
    } else {
        spec_strip_spaces(s.drop_last()) + (if is_space_char(s.last()) {
            Seq::<char>::empty()
        } else {
            seq![s.last()]
        })
    }
}

/// Removes every white-space character from a string.
pub fn strip_spaces(s: &str) -> (r: String)
    ensures
        r@ == spec_strip_spaces(s@),
{
    let n: usize = s.unicode_len();
    let mut out = String::new();
    let mut i: usize = 0;
    while i < n
        invariant
            n == s@.len(),
            i <= n,
            out@ == spec_strip_spaces(s@.take(i as int)),
        decreases n - i,
    {
        let c = s.get_char(i);
        if !is_space(c) {
            out.push(c);
        }
        proof {
            assert(s@.take(i + 1).drop_last() =~= s@.take(i as int));
            assert(s@.take(i + 1).last() == s@[i as int]);
        }
        i = i + 1;
    }
    proof {
        assert(s@.take(n as int) =~= s@);
    }
    out
}

/// The sequence with every plain space replaced by an underscore; no other
/// character (not even other white space) is touched.
pub open spec fn spec_underscored(s: Seq<char>) -> Seq<char> {
    Seq::new(
        s.len(),
        |i: int|
            if s[i] == ' ' {
                '_'
            } else {
                s[i]
            },
    )
}

/// Replaces every plain space in a string by an underscore.
pub fn underscore_spaces(s: &str) -> (r: String)
    ensures
        r@ == spec_underscored(s@),
{
    let n: usize = s.unicode_len();
    let mut out = String::new();
    let mut i: usize = 0;
    while i < n
        invariant
            n == s@.len(),
            i <= n,
            out@.len() == i,
            forall|j: int| 0 <= j < i ==> out@[j] == spec_underscored(s@)[j],
        decreases n - i,
    {
        let c = s.get_char(i);
        if c == ' ' {
            out.push('_');
        } else {
            out.push(c);
        }
        i = i + 1;
    }
    assert(out@ =~= spec_underscored(s@));
    out
}

/// The number of double-quote characters in a text.
pub open spec fn quote_count(s: Seq<char>) -> nat
    decreases s.len(),
{
    if s.len() == 0 {
        0
    } else {
        quote_count(s.drop_last()) + (if s.last() == '"' {
            1nat
        } else {
            0nat
        })
    }
}

/// How one character is embedded in a quoted literal: a double quote gains a
/// single preceding backslash, every other character stands as it is.
pub open spec fn esc_char(c: char) -> Seq<char> {
    if c == '"' {
        seq!['\\', '"']
    } else {
        seq![c]
    }
}

/// The text with each double quote prefixed by one backslash; nothing else is
/// transformed.
pub open spec fn spec_escape(s: Seq<char>) -> Seq<char>
    decreases s.len(),
{
    if s.len() == 0 {
        Seq::empty()
    } else {
        spec_escape(s.drop_last()) + esc_char(s.last())
    }
}

/// Escapes free text for embedding in a quoted literal: each double quote is
/// prefixed with one backslash; no other character is transformed.
pub fn escape_str(s: &str) -> (r: String)
    ensures
        r@ == spec_escape(s@),
{
    let n: usize = s.unicode_len();
    let mut out = String::new();
    let mut i: usize = 0;
    while i < n
        invariant
            n == s@.len(),
            i <= n,
            out@ == spec_escape(s@.take(i as int)),
        decreases n - i,
    {
        let c = s.get_char(i);
        if c == '"' {
            out.push('\\');
        }
        out.push(c);
        proof {
            assert(s@.take(i + 1).drop_last() =~= s@.take(i as int));
            assert(s@.take(i + 1).last() == s@[i as int]);
        }
        i = i + 1;
    }
    proof {
        assert(s@.take(n as int) =~= s@);
    }
    out
}

/// The decimal digit character for a value below ten.
pub open spec fn dec_digit(d: int) -> char {
    if d == 0 {
        '0'
    } else if d == 1 {
        '1'
    } else if d == 2 {
        '2'
    } else if d == 3 {
        '3'
    } else if d == 4 {
        '4'
    } else if d == 5 {
        '5'
    } else if d == 6 {
        '6'
    } else if d == 7 {
        '7'
    } else if d == 8 {
        '8'
    } else {
        '9'
    }
}

/// The decimal rendering of a non-negative integer, most significant digit
/// first, with no leading zero except for the value zero itself.
pub open spec fn dec_nat(n: nat) -> Seq<char>
    decreases n,
{
    if n < 10 {
        seq![dec_digit(n as int)]
    } else {
        dec_nat(n / 10).push(dec_digit((n % 10) as int))
    }
}

/// The decimal rendering of an integer: a leading minus sign for a negative
/// value, then the digits of its magnitude.
pub open spec fn dec_int(n: int) -> Seq<char> {
    if n < 0 {
        seq!['-'] + dec_nat((-n) as nat)
    } else {
        dec_nat(n as nat)
    }
}

fn dec_digit_char(d: u32) -> (c: char)
    requires
        d < 10,
    ensures
        c == dec_digit(d as int),
{
    if d == 0 {
        '0'
    } else if d == 1 {
        '1'
    } else if d == 2 {
        '2'
    } else if d == 3 {
        '3'
    } else if d == 4 {
        '4'
    } else if d == 5 {
        '5'
    } else if d == 6 {
        '6'
    } else if d == 7 {
        '7'
    } else if d == 8 {
        '8'
    } else {
        '9'
    }
}

/// Renders a non-negative integer in decimal.
pub fn u32_dec(n: u32) -> (r: String)
    ensures
        r@ == dec_nat(n as nat),
    decreases n,
{
    if n < 10 {
        let mut s = String::new();
        s.push(dec_digit_char(n));
        s
    } else {
        let mut s = u32_dec(n / 10);
        s.push(dec_digit_char(n % 10));
        s
    }
}

/// Renders a signed integer in decimal.
pub fn i32_dec(n: i32) -> (r: String)
    ensures
        r@ == dec_int(n as int),
{
    if n >= 0 {
        u32_dec(n as u32)
    } else {
        let wide: i64 = -(n as i64);
        assert(0 <= wide <= u32::MAX);
        let m: u32 = wide as u32;
        let mut s = String::new();
        s.push('-');
        let digits = u32_dec(m);
        s.append(digits.as_str());
        s
    }
}

/// Renders a small signed integer in decimal.
pub fn i8_dec(n: i8) -> (r: String)
    ensures
        r@ == dec_int(n as int),
{
    i32_dec(n as i32)
}

/// Four spaces per level of depth; a non-positive depth yields nothing.
pub open spec fn spec_indent(depth: int) -> Seq<char> {
    Seq::new(
        if depth <= 0 {
            0
        } else {
            (4 * depth) as nat
        },
        |i: int| ' ',
    )
}

/// The indentation prefix for a nesting depth: four spaces per level.
pub fn indent(depth: i8) -> (r: String)
    ensures
        r@ == spec_indent(depth as int),
{
    let total: i32 = (depth as i32) * 4;
    let mut out = String::new();
    if total <= 0 {
        assert(out@ =~= spec_indent(depth as int));
        return out;
    }
    let mut i: i32 = 0;
    while i < total
        invariant
            0 < total <= 508,
            total == 4 * (depth as int),
            0 <= i <= total,
            out@.len() == i,
            forall|j: int| 0 <= j < i ==> out@[j] == ' ',
        decreases total - i,
    {
        out.push(' ');
        i = i + 1;
    }
    assert(out@ =~= spec_indent(depth as int));
    out
}

} // verus!
