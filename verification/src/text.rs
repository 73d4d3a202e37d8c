//! Text primitives of the code generator: decimal rendering and parsing of
//! 32-bit integers, and string-literal escaping.
//!
//! `int_text` is the canonical decimal form of an integer (no leading zeros,
//! a single leading `-` for negatives); `spec_parse_i32` is the value of a
//! decimal literal, `None` on malformed text or on 32-bit overflow.
//! `escape_text` prefixes every backslash and double quote with a backslash;
//! `unescape_text` inverts it.

use vstd::arithmetic::div_mod::lemma_fundamental_div_mod;
use vstd::prelude::*;
use vstd::string::StrSliceExecFns;
use vstd::string::StringExecFns;

verus! {

/// Relies on std's `String::push`: it appends the given character to the end
/// of the string.
pub assume_specification[ String::push ](s: &mut String, c: char)
    ensures
        final(s)@ == old(s)@.push(c),
;

/// Whether `c` is a decimal digit.
pub open spec fn is_digit(c: char) -> bool {
    48 <= c as int <= 57
}

/// The value of the decimal digit `c`.
pub open spec fn digit_val(c: char) -> int {
    c as int - 48
}

/// The decimal digit character of value `d` (0 through 9).
pub open spec fn digit_char(d: int) -> char {
    if d == 0 {
        '0'
    } else if d == 1 {
        '1'
    } else if d == 2 {
        '2'
    } else if d == 3 {
        '3'
    } else if d == 4 {
        '4'
    } else if d == 5 {
        '5'
    } else if d == 6 {
        '6'
    } else if d == 7 {
        '7'
    } else if d == 8 {
        '8'
    } else {
        '9'
    }
}

/// The decimal digits of the nonnegative integer `n`, most significant
/// first, with no leading zeros (`0` is the single digit `0`).
pub open spec fn dec_digits(n: nat) -> Seq<char>
    decreases n,
{
    if n < 10 {
        seq![digit_char(n as int)]
    } else {
        dec_digits(n / 10).push(digit_char((n % 10) as int))
    }
}

/// The canonical decimal text of the integer `n`: its digits, with a single
/// leading `-` if it is negative.
pub open spec fn int_text(n: int) -> Seq<char> {
    if n < 0 {
        seq!['-'] + dec_digits((-n) as nat)
    } else {
        dec_digits(n as nat)
    }
}

/// The value of a nonempty all-digit text, `None` otherwise.
pub open spec fn digits_val(s: Seq<char>) -> Option<int>
    decreases s.len(),
{
    if s.len() == 0 {
        None
    } else if !is_digit(s.last()) {
        None
    } else if s.len() == 1 {
        Some(digit_val(s[0]))
    } else {
        match digits_val(s.drop_last()) {
            Some(v) => Some(v * 10 + digit_val(s.last())),
            None => None,
        }
    }
}

/// The integer value of a decimal text with an optional leading sign,
/// `None` on malformed text.
pub open spec fn spec_parse_int(s: Seq<char>) -> Option<int> {
    if s.len() >= 1 && (s[0] == '-' || s[0] == '+') {
        match digits_val(s.drop_first()) {
            Some(v) => Some(if s[0] == '-' { -v } else { v }),
            None => None,
        }
    } else {
        digits_val(s)
    }
}

/// The value of a decimal text as a 32-bit integer: `None` on malformed
/// text and on overflow.
pub open spec fn spec_parse_i32(s: Seq<char>) -> Option<int> {
    match spec_parse_int(s) {
        Some(v) => if -0x8000_0000 <= v <= 0x7fff_ffff {
            Some(v)
        } else {
            None
        },
        None => None,
    }
}

/// The escaped form of one character: backslash and double quote get a
/// backslash prefix, every other character stands for itself.
pub open spec fn esc_char(c: char) -> Seq<char> {
    if c == '\\' || c == '"' {
        seq!['\\', c]
    } else {
        seq![c]
    }
}

/// The escaped form of a text: each character escaped once, in order.
pub open spec fn escape_text(s: Seq<char>) -> Seq<char>
    decreases s.len(),
{
    if s.len() == 0 {
        Seq::empty()
    } else {
        esc_char(s[0]) + escape_text(s.drop_first())
    }
}

/// The inverse of `escape_text`: reads one escaped text back, `None` where
/// the text is not the escaped form of anything (a stray backslash or a bare
/// double quote).
pub open spec fn unescape_text(s: Seq<char>) -> Option<Seq<char>>
    decreases s.len(),
{
    if s.len() == 0 {
        Some(Seq::empty())
    } else if s[0] == '\\' {
        if s.len() >= 2 && (s[1] == '\\' || s[1] == '"') {
            match unescape_text(s.skip(2)) {
                Some(r) => Some(seq![s[1]] + r),
                None => None,
            }
        } else {
            None
        }
    } else if s[0] == '"' {
        None
    } else {
        match unescape_text(s.drop_first()) {
            Some(r) => Some(seq![s[0]] + r),
            None => None,
        }
    }
}

// ---------------------------------------------------------------------------
// Facts about the decimal forms.
// ---------------------------------------------------------------------------

/// Every character of `dec_digits` is a digit, there is at least one, and
/// the first is `0` only for the number zero.
pub proof fn lemma_dec_digits_shape(n: nat)
    ensures
        dec_digits(n).len() >= 1,
        forall|i: int| 0 <= i < dec_digits(n).len() ==> is_digit(#[trigger] dec_digits(n)[i]),
        n >= 1 ==> dec_digits(n)[0] != '0',
        n < 10 ==> dec_digits(n).len() == 1,
    decreases n,
{
    if n >= 10 {
        lemma_dec_digits_shape(n / 10);
    }
}

/// Reading the decimal digits of `n` back gives `n`.
pub proof fn lemma_digits_val_dec_digits(n: nat)
    ensures
        digits_val(dec_digits(n)) == Some(n as int),
    decreases n,
{
    if n < 10 {
        assert(digits_val(dec_digits(n)) == Some(digit_val(digit_char(n as int))));
    } else {
        lemma_digits_val_dec_digits(n / 10);
        lemma_dec_digits_shape(n / 10);
        let s = dec_digits(n / 10).push(digit_char((n % 10) as int));
        assert(s.drop_last() =~= dec_digits(n / 10));
        lemma_fundamental_div_mod(n as int, 10);
    }
}

/// Round-trip fidelity of integer literals: rendering a representable
/// 32-bit integer and parsing the text back gives the same integer, the
/// text starts with `-` exactly for negatives, and it has no leading zero.
pub proof fn lemma_int_text_parse(n: int)
    requires
        -0x8000_0000 <= n <= 0x7fff_ffff,
    ensures
        spec_parse_i32(int_text(n)) == Some(n),
        (int_text(n)[0] == '-') <==> n < 0,
        n >= 0 ==> forall|i: int| 0 <= i < int_text(n).len() ==> is_digit(#[trigger] int_text(n)[i]),
        n >= 1 || n < 0 ==> int_text(n)[if n < 0 { 1int } else { 0int }] != '0',
{
    if n < 0 {
        let d = dec_digits((-n) as nat);
        lemma_dec_digits_shape((-n) as nat);
        lemma_digits_val_dec_digits((-n) as nat);
        let t = seq!['-'] + d;
        assert(t.drop_first() =~= d);
        assert(t[0] == '-');
        assert(!is_digit('-'));
        assert(spec_parse_int(t) == Some(n));
    } else {
        let d = dec_digits(n as nat);
        lemma_dec_digits_shape(n as nat);
        lemma_digits_val_dec_digits(n as nat);
        assert(is_digit(d[0]));
        assert(d[0] != '-' && d[0] != '+');
        assert(spec_parse_int(d) == Some(n));
    }
}

/// A digit text is nonnegative.
proof fn lemma_digits_val_nonneg(s: Seq<char>)
    ensures
        match digits_val(s) {
            Some(v) => v >= 0,
            None => true,
        },
    decreases s.len(),
{
    if s.len() > 1 {
        lemma_digits_val_nonneg(s.drop_last());
    }
}

/// Extending a digit text on the right never lowers its value.
proof fn lemma_digits_val_extend(p: Seq<char>, rest: Seq<char>)
    requires
        digits_val(p) is Some,
    ensures
        match digits_val(p + rest) {
            Some(w) => w >= digits_val(p)->Some_0,
            None => true,
        },
    decreases rest.len(),
{
    if rest.len() == 0 {
        assert(p + rest =~= p);
    } else {
        let s = p + rest;
        assert(s.drop_last() =~= p + rest.drop_last());
        lemma_digits_val_extend(p, rest.drop_last());
        lemma_digits_val_nonneg(p);
        lemma_digits_val_nonneg(p + rest.drop_last());
    }
}

/// A text with a non-digit character anywhere has no digit value.
proof fn lemma_digits_val_none(s: Seq<char>, i: int)
    requires
        0 <= i < s.len(),
        !is_digit(s[i]),
    ensures
        digits_val(s) is None,
    decreases s.len(),
{
    if i < s.len() - 1 {
        lemma_digits_val_none(s.drop_last(), i);
    }
}

/// One more digit on the right multiplies the value by ten and adds the
/// digit.
proof fn lemma_digits_val_snoc(p: Seq<char>, c: char)
    requires
        is_digit(c),
    ensures
        digits_val(p.push(c)) == match digits_val(p) {
            Some(v) => Some(v * 10 + digit_val(c)),
            None => if p.len() == 0 {
                Some(digit_val(c))
            } else {
                None
            },
        },
{
    let s = p.push(c);
    assert(s.last() == c);
    assert(s.drop_last() =~= p);
}

// ---------------------------------------------------------------------------
// Executable rendering and parsing.
// ---------------------------------------------------------------------------

/// The digit character of `d`.
fn digit_to_char(d: u64) -> (c: char)
    requires
        d < 10,
    ensures
        c == digit_char(d as int),
{
    if d == 0 {
        '0'
    } else if d == 1 {
        '1'
    } else if d == 2 {
        '2'
    } else if d == 3 {
        '3'
    } else if d == 4 {
        '4'
    } else if d == 5 {
        '5'
    } else if d == 6 {
        '6'
    } else if d == 7 {
        '7'
    } else if d == 8 {
        '8'
    } else {
        '9'
    }
}

/// The decimal digits of `m`, most significant first.
fn u64_digits(m: u64) -> (r: String)
    ensures
        r@ == dec_digits(m as nat),
    decreases m,
{
    if m < 10 {
        let mut s = String::new();
        s.push(digit_to_char(m));
        proof {
            assert(s@ =~= seq![digit_char(m as int)]);
        }
        s
    } else {
        let mut s = u64_digits(m / 10);
        s.push(digit_to_char(m % 10));
        s
    }
}

/// The decimal text of `n`.
pub fn usize_to_string(n: usize) -> (r: String)
    ensures
        r@ == dec_digits(n as nat),
{
    u64_digits(n as u64)
}

/// The canonical decimal text of `n`.
pub fn i32_to_string(n: i32) -> (r: String)
    ensures
        r@ == int_text(n as int),
{
    if n >= 0 {
        u64_digits(n as u64)
    } else {
        let m: u64 = (-(n as i64)) as u64;
        let mut s = String::new();
        s.push('-');
        let d = u64_digits(m);
        s.append(d.as_str());
        proof {
            assert(s@ =~= seq!['-'] + dec_digits(m as nat));
        }
        s
    }
}

/// The view of an optional 32-bit integer as an optional integer.
pub open spec fn opt_i32_view(r: Option<i32>) -> Option<int> {
    match r {
        Some(n) => Some(n as int),
        None => None,
    }
}

/// Reads a decimal literal with an optional sign as a 32-bit integer;
/// `None` exactly on malformed text or 32-bit overflow.
pub fn parse_i32(s: &str) -> (r: Option<i32>)
    ensures
        opt_i32_view(r) == spec_parse_i32(s@),
{
    let len = s.unicode_len();
    let ghost sv = s@;
    let mut start: usize = 0;
    let mut neg = false;
    if len > 0 {
        let c0 = s.get_char(0);
        if c0 == '-' {
            neg = true;
            start = 1;
        } else if c0 == '+' {
            start = 1;
        }
    }
    let ghost digits = if start == 1 {
        sv.drop_first()
    } else {
        sv
    };
    proof {
        if start == 1 {
            assert(sv.drop_first() =~= sv.subrange(1, sv.len() as int));
        } else {
            assert(sv =~= sv.subrange(0, sv.len() as int));
        }
        assert(spec_parse_int(sv) == (match digits_val(digits) {
            Some(v) => Some(if neg { -v } else { v }),
            None => None::<int>,
        }));
    }
    if start >= len {
        // Empty text, or a sign with nothing after it.
        assert(digits.len() == 0);
        return None;
    }
    let mut acc: i64 = 0;
    let mut j: usize = start;
    while j < len
        invariant
            sv == s@,
            start <= j <= len,
            len == sv.len(),
            start == 0 || start == 1,
            digits == sv.subrange(start as int, len as int),
            spec_parse_int(sv) == (match digits_val(digits) {
                Some(v) => Some(if neg { -v } else { v }),
                None => None::<int>,
            }),
            0 <= acc <= 0x8000_0000,
            j > start ==> digits_val(sv.subrange(start as int, j as int)) == Some(acc as int),
            j == start ==> acc == 0,
        decreases len - j,
    {
        let c = s.get_char(j);
        let u = c as u32;
        if !(48 <= u && u <= 57) {
            proof {
                assert(digits[j - start] == sv[j as int]);
                assert(!is_digit(digits[j - start]));
                lemma_digits_val_none(digits, j - start);
            }
            return None;
        }
        let d = (u - 48) as i64;
        proof {
            let p = sv.subrange(start as int, j as int);
            assert(sv.subrange(start as int, j as int + 1) =~= p.push(sv[j as int]));
            lemma_digits_val_snoc(p, sv[j as int]);
        }
        acc = acc * 10 + d;
        j = j + 1;
        if acc > 0x8000_0000 {
            proof {
                let p = sv.subrange(start as int, j as int);
                let rest = sv.subrange(j as int, len as int);
                assert(p + rest =~= digits);
                lemma_digits_val_extend(p, rest);
            }
            return None;
        }
    }
    proof {
        assert(sv.subrange(start as int, len as int) =~= digits);
    }
    if neg {
        Some((-acc) as i32)
    } else {
        if acc > 0x7fff_ffff {
            return None;
        }
        Some(acc as i32)
    }
}

// ---------------------------------------------------------------------------
// Executable escaping.
// ---------------------------------------------------------------------------

/// Escaping distributes over adding one character at the end.
proof fn lemma_escape_snoc(p: Seq<char>, c: char)
    ensures
        escape_text(p.push(c)) == escape_text(p) + esc_char(c),
    decreases p.len(),
{
    if p.len() == 0 {
        let t = p.push(c);
        assert(t.len() == 1);
        assert(t[0] == c);
        assert(t.drop_first() =~= Seq::<char>::empty());
        assert(escape_text(t.drop_first()) == Seq::<char>::empty());
        assert(escape_text(t) == esc_char(c) + escape_text(t.drop_first()));
        assert(escape_text(t) =~= esc_char(c));
        assert(escape_text(p) + esc_char(c) =~= esc_char(c));
    } else {
        assert(p.push(c).drop_first() =~= p.drop_first().push(c));
        lemma_escape_snoc(p.drop_first(), c);
        assert(escape_text(p.push(c)) =~= escape_text(p) + esc_char(c));
    }
}

/// The escaped form of `s`: each backslash and double quote prefixed with a
/// backslash, exactly once.
pub fn escape_string(s: &str) -> (r: String)
    ensures
        r@ == escape_text(s@),
{
    let len = s.unicode_len();
    let mut out = String::new();
    let mut i: usize = 0;
    while i < len
        invariant
            i <= len,
            len == s@.len(),
            out@ == escape_text(s@.subrange(0, i as int)),
        decreases len - i,
    {
        let c = s.get_char(i);
        proof {
            assert(s@.subrange(0, i as int + 1) =~= s@.subrange(0, i as int).push(s@[i as int]));
            lemma_escape_snoc(s@.subrange(0, i as int), s@[i as int]);
        }
        if c == '\\' || c == '"' {
            out.push('\\');
            out.push(c);
        } else {
            out.push(c);
        }
        proof {
            assert(out@ =~= escape_text(s@.subrange(0, i as int + 1)));
        }
        i = i + 1;
    }
    proof {
        assert(s@.subrange(0, len as int) =~= s@);
    }
    out
}

/// String escaping is performed exactly once and loses nothing: reading the
/// escaped text back reproduces the original text.
pub proof fn lemma_escape_round_trip(s: Seq<char>)
    ensures
        unescape_text(escape_text(s)) == Some(s),
    decreases s.len(),
{
    if s.len() == 0 {
    } else {
        let c = s[0];
        let rest = escape_text(s.drop_first());
        lemma_escape_round_trip(s.drop_first());
        if c == '\\' || c == '"' {
            let t = seq!['\\', c] + rest;
            assert(escape_text(s) =~= t);
            assert(t[0] == '\\');
            assert(t.len() >= 2 && t[1] == c);
            assert(t.skip(2) =~= rest);
            assert(seq![c] + s.drop_first() =~= s);
        } else {
            let t = seq![c] + rest;
            assert(escape_text(s) =~= t);
            assert(t.drop_first() =~= rest);
            assert(seq![c] + s.drop_first() =~= s);
        }
    }
}

} // verus!
