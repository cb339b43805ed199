//! Small verified text utilities shared across the crate: string equality,
//! substring search, ASCII trimming and case folding, and decimal
//! conversions between integers and strings.

use vstd::prelude::*;

verus! {

/// Relies on `<str as PartialEq>::eq` from std: two string slices compare
/// equal exactly when they consist of the same characters.
#[verifier::external_body]
pub fn str_eq(a: &str, b: &str) -> (r: bool)
    ensures
        r == (a@ == b@),
{
    a == b
}

/// True when `needle` occurs as a contiguous subsequence of `haystack`.
pub open spec fn contains_seq(haystack: Seq<char>, needle: Seq<char>) -> bool {
    exists|i: int|
        0 <= i && i + needle.len() <= haystack.len() && #[trigger] haystack.subrange(
            i,
            i + needle.len(),
        ) == needle
}

/// Substring search, specified against [`contains_seq`].
pub fn str_contains(haystack: &str, needle: &str) -> (r: bool)
    ensures
        r == contains_seq(haystack@, needle@),
{
    let hl = haystack.unicode_len();
    let nl = needle.unicode_len();
    if nl > hl {
        return false;
    }
    if nl == 0 {
        proof {
            assert(haystack@.subrange(0int, 0int + needle@.len() as int) =~= needle@);
        }
        return true;
    }
    let mut i: usize = 0;
    while i <= hl - nl
        invariant
            hl == haystack@.len(),
            nl == needle@.len(),
            1 <= nl <= hl,
            0 <= i <= hl - nl + 1,
            forall|k: int|
                0 <= k < i ==> #[trigger] haystack@.subrange(k, k + needle@.len()) != needle@,
        decreases hl - i,
    {
        let mut j: usize = 0;
        let mut matching = true;
        while j < nl && matching
            invariant
                hl == haystack@.len(),
                nl == needle@.len(),
                0 <= i,
                i + nl <= hl,
                0 <= j <= nl,
                matching ==> forall|t: int| 0 <= t < j ==> haystack@[i + t] == needle@[t],
                !matching ==> haystack@.subrange(i as int, i + needle@.len()) != needle@,
            decreases nl - j + (if matching { 1int } else { 0int }),
        {
            if haystack.get_char(i + j) == needle.get_char(j) {
                j = j + 1;
            } else {
                proof {
                    assert(haystack@.subrange(i as int, i + needle@.len())[j as int]
                        != needle@[j as int]);
                }
                matching = false;
            }
        }
        if matching {
            proof {
                assert(haystack@.subrange(i as int, i + needle@.len()) =~= needle@);
            }
            return true;
        }
        i = i + 1;
    }
    false
}

/// The whitespace characters stripped by payload trimming.
pub open spec fn is_ascii_ws(c: char) -> bool {
    c == ' ' || c == '\t' || c == '\n' || c == '\r'
}

/// `s` with leading whitespace removed.
pub open spec fn trim_start_spec(s: Seq<char>) -> Seq<char>
    decreases s.len(),
{
    if s.len() > 0 && is_ascii_ws(s[0]) {
        trim_start_spec(s.drop_first())
    } else {
        s
    }
}

/// `s` with trailing whitespace removed.
pub open spec fn trim_end_spec(s: Seq<char>) -> Seq<char>
    decreases s.len(),
{
    if s.len() > 0 && is_ascii_ws(s.last()) {
        trim_end_spec(s.drop_last())
    } else {
        s
    }
}

/// `s` with leading and trailing whitespace removed.
pub open spec fn trim_spec(s: Seq<char>) -> Seq<char> {
    trim_end_spec(trim_start_spec(s))
}

/// If the first `a` characters are whitespace and the next one is not,
/// trimming the start drops exactly those `a` characters.
pub proof fn lemma_trim_start_bound(s: Seq<char>, a: int)
    requires
        0 <= a <= s.len(),
        forall|k: int| 0 <= k < a ==> is_ascii_ws(s[k]),
        a < s.len() ==> !is_ascii_ws(s[a]),
    ensures
        trim_start_spec(s) == s.subrange(a, s.len() as int),
    decreases a,
{
    if a == 0 {
        assert(s.subrange(0, s.len() as int) =~= s);
    } else {
        let t = s.drop_first();
        assert(forall|k: int| 0 <= k < a - 1 ==> is_ascii_ws(#[trigger] t[k]));
        lemma_trim_start_bound(t, a - 1);
        assert(t.subrange(a - 1, t.len() as int) =~= s.subrange(a, s.len() as int));
    }
}

/// If everything from position `b` on is whitespace and the character
/// before `b` is not, trimming the end keeps exactly the first `b`
/// characters.
pub proof fn lemma_trim_end_bound(s: Seq<char>, b: int)
    requires
        0 <= b <= s.len(),
        forall|k: int| b <= k < s.len() ==> is_ascii_ws(s[k]),
        b > 0 ==> !is_ascii_ws(s[b - 1]),
    ensures
        trim_end_spec(s) == s.subrange(0, b),
    decreases s.len() - b,
{
    if b == s.len() {
        assert(s.subrange(0, b) =~= s);
    } else {
        let t = s.drop_last();
        assert(forall|k: int| b <= k < t.len() ==> is_ascii_ws(#[trigger] t[k]));
        lemma_trim_end_bound(t, b);
        assert(t.subrange(0, b) =~= s.subrange(0, b));
    }
}

/// ASCII lowercase folding of one character.
pub open spec fn lower_char(c: char) -> char {
    if 'A' <= c && c <= 'Z' {
        ((c as u32) + 32) as char
    } else {
        c
    }
}

/// ASCII lowercase folding of a character sequence.
pub open spec fn lower_seq(s: Seq<char>) -> Seq<char> {
    Seq::new(s.len(), |i: int| lower_char(s[i]))
}

/// Case-insensitive comparison of a character against the lowercase pattern
/// character `p`.
pub fn char_eq_lower(c: char, p: char) -> (r: bool)
    requires
        lower_char(p) == p,
        !('A' <= p && p <= 'Z'),
    ensures
        r == (lower_char(c) == p),
{
    if c == p {
        true
    } else if 'A' <= c && c <= 'Z' {
        let l: u32 = (c as u32) + 32;
        proof {
            assert(l == lower_char(c) as u32);
        }
        l == (p as u32)
    } else {
        false
    }
}

/// Trims leading and trailing whitespace, specified against
/// [`trim_spec`].
pub fn trim_str(s: &str) -> (r: &str)
    ensures
        r@ == trim_spec(s@),
{
    let n = s.unicode_len();
    let mut a: usize = 0;
    while a < n && is_ws_char(s.get_char(a))
        invariant
            n == s@.len(),
            0 <= a <= n,
            forall|k: int| 0 <= k < a ==> is_ascii_ws(#[trigger] s@[k]),
        decreases n - a,
    {
        a = a + 1;
    }
    let mut b: usize = n;
    while b > a && is_ws_char(s.get_char(b - 1))
        invariant
            n == s@.len(),
            0 <= a <= b <= n,
            forall|k: int| b <= k < n ==> is_ascii_ws(#[trigger] s@[k]),
        decreases b,
    {
        b = b - 1;
    }
    proof {
        lemma_trim_start_bound(s@, a as int);
        let t = s@.subrange(a as int, n as int);
        assert(forall|k: int|
            b - a <= k < t.len() ==> is_ascii_ws(#[trigger] t[k]) == is_ascii_ws(
                s@[k + a],
            ) && is_ascii_ws(s@[k + a]));
        if b > a {
            assert(t[b - a - 1] == s@[b - 1]);
        }
        lemma_trim_end_bound(t, b - a);
        assert(trim_spec(s@) == t.subrange(0, b - a));
        assert(t.subrange(0, b - a) =~= s@.subrange(a as int, b as int));
    }
    s.substring_char(a, b)
}

/// Exec test for [`is_ascii_ws`].
pub fn is_ws_char(c: char) -> (r: bool)
    ensures
        r == is_ascii_ws(c),
{
    c == ' ' || c == '\t' || c == '\n' || c == '\r'
}

/// The digit character for a value below ten.
pub open spec fn digit_char(d: nat) -> char
    recommends
        d < 10,
{
    (('0' as u32) + d) as char
}

/// The decimal digit string of `v`, without sign or leading zeros
/// (`0` is rendered as `"0"`).
pub open spec fn dec_digits(v: nat) -> Seq<char>
    decreases v,
{
    if v < 10 {
        seq![digit_char(v)]
    } else {
        dec_digits(v / 10).push(digit_char(v % 10))
    }
}

fn digit_str(d: u64) -> (r: &'static str)
    requires
        d < 10,
    ensures
        r@ == seq![digit_char(d as nat)],
{
    proof {
        reveal_strlit("0");
        reveal_strlit("1");
        reveal_strlit("2");
        reveal_strlit("3");
        reveal_strlit("4");
        reveal_strlit("5");
        reveal_strlit("6");
        reveal_strlit("7");
        reveal_strlit("8");
        reveal_strlit("9");
    }
    if d == 0 {
        "0"
    } else if d == 1 {
        "1"
    } else if d == 2 {
        "2"
    } else if d == 3 {
        "3"
    } else if d == 4 {
        "4"
    } else if d == 5 {
        "5"
    } else if d == 6 {
        "6"
    } else if d == 7 {
        "7"
    } else if d == 8 {
        "8"
    } else {
        "9"
    }
}

/// Renders `v` in decimal, specified against [`dec_digits`].
pub fn u64_to_string(v: u64) -> (r: String)
    ensures
        r@ == dec_digits(v as nat),
    decreases v,
{
    if v < 10 {
        let d = digit_str(v);
        String::from_str(d)
    } else {
        let high = u64_to_string(v / 10);
        let low = digit_str(v % 10);
        let r = high.concat(low);
        proof {
            assert(r@ =~= dec_digits(v as nat));
        }
        r
    }
}

/// True for the ten decimal digit characters.
pub open spec fn is_digit_char(c: char) -> bool {
    '0' <= c && c <= '9'
}

/// The numeric value of a digit character.
pub open spec fn digit_val(c: char) -> nat
    recommends
        is_digit_char(c),
{
    ((c as u32) - ('0' as u32)) as nat
}

/// True when every character of `s` is a decimal digit.
pub open spec fn all_digits(s: Seq<char>) -> bool {
    forall|i: int| 0 <= i < s.len() ==> is_digit_char(#[trigger] s[i])
}

/// The value of a digit string, most significant digit first.
pub open spec fn digits_val(s: Seq<char>) -> nat
    decreases s.len(),
{
    if s.len() == 0 {
        0
    } else {
        digits_val(s.drop_last()) * 10 + digit_val(s.last())
    }
}

/// A digit string's value is at least the value of any of its prefixes.
proof fn lemma_digits_val_prefix(s: Seq<char>, m: int)
    requires
        0 <= m <= s.len(),
    ensures
        digits_val(s) >= digits_val(s.subrange(0, m)),
    decreases s.len() - m,
{
    if m == s.len() {
        assert(s.subrange(0, m) =~= s);
    } else {
        let t = s.drop_last();
        lemma_digits_val_prefix(t, m);
        assert(t.subrange(0, m) =~= s.subrange(0, m));
    }
}

/// Parses the digit-only suffix of `s` starting at `start`; `None` when a
/// non-digit occurs, the suffix is empty, or the value exceeds `u64::MAX`.
fn parse_digits_u64(s: &str, start: usize) -> (r: Option<u64>)
    requires
        start <= s@.len(),
    ensures
        ({
            let body = s@.subrange(start as int, s@.len() as int);
            &&& (r is Some <==> body.len() > 0 && all_digits(body) && digits_val(body)
                <= u64::MAX)
            &&& (r matches Some(v) ==> v == digits_val(body))
        }),
{
    let ghost body = s@.subrange(start as int, s@.len() as int);
    let n = s.unicode_len();
    if start == n {
        return None;
    }
    let mut acc: u64 = 0;
    let mut j: usize = start;
    while j < n
        invariant
            n == s@.len(),
            start <= j <= n,
            start < n,
            body == s@.subrange(start as int, n as int),
            all_digits(s@.subrange(start as int, j as int)),
            acc == digits_val(s@.subrange(start as int, j as int)),
        decreases n - j,
    {
        let c = s.get_char(j);
        proof {
            assert(body[j - start] == s@[j as int]);
        }
        if !(c >= '0' && c <= '9') {
            return None;
        }
        let d: u64 = ((c as u32) - 48) as u64;
        let q: u64 = (u64::MAX - d) / 10;
        let ghost prefix = s@.subrange(start as int, j as int);
        let ghost extended = s@.subrange(start as int, j + 1int);
        proof {
            assert(extended.drop_last() =~= prefix);
            assert(extended.last() == s@[j as int]);
        }
        if acc > q {
            proof {
                assert(acc * 10 + d > u64::MAX) by (nonlinear_arith)
                    requires
                        acc > (u64::MAX - d) / 10,
                        d <= u64::MAX,
                ;
                assert(digits_val(extended) > u64::MAX);
                lemma_digits_val_prefix(body, j + 1 - start);
                assert(body.subrange(0, j + 1 - start) =~= extended);
            }
            return None;
        }
        proof {
            assert(acc * 10 + d <= u64::MAX) by (nonlinear_arith)
                requires
                    acc <= (u64::MAX - d) / 10,
                    d <= u64::MAX,
            ;
        }
        acc = acc * 10 + d;
        j = j + 1;
    }
    proof {
        assert(s@.subrange(start as int, n as int) =~= body);
    }
    Some(acc)
}

/// The body of an unsigned decimal string: an optional leading `+` is
/// stripped.
pub open spec fn uint_str_body(s: Seq<char>) -> Seq<char> {
    if s.len() > 0 && s[0] == '+' {
        s.drop_first()
    } else {
        s
    }
}

/// True when `s` is a well-formed unsigned decimal string: an optional `+`
/// followed by one or more digits.
pub open spec fn is_uint_str(s: Seq<char>) -> bool {
    uint_str_body(s).len() > 0 && all_digits(uint_str_body(s))
}

/// The value of a well-formed unsigned decimal string.
pub open spec fn uint_str_val(s: Seq<char>) -> nat {
    digits_val(uint_str_body(s))
}

/// Parses an unsigned 64-bit decimal string, as `str::parse::<u64>` does:
/// an optional `+`, then digits; `None` on malformed input or overflow.
pub fn parse_u64(s: &str) -> (r: Option<u64>)
    ensures
        r is Some <==> is_uint_str(s@) && uint_str_val(s@) <= u64::MAX,
        r matches Some(v) ==> v == uint_str_val(s@),
{
    let n = s.unicode_len();
    let start: usize = if n > 0 && s.get_char(0) == '+' {
        1
    } else {
        0
    };
    proof {
        if start == 1 {
            assert(uint_str_body(s@) =~= s@.subrange(1, s@.len() as int));
        } else {
            assert(uint_str_body(s@) =~= s@.subrange(0, s@.len() as int));
        }
    }
    parse_digits_u64(s, start)
}

/// Parses an unsigned 16-bit decimal string; `None` on malformed input or
/// a value above `u16::MAX`.
pub fn parse_u16(s: &str) -> (r: Option<u16>)
    ensures
        r is Some <==> is_uint_str(s@) && uint_str_val(s@) <= u16::MAX,
        r matches Some(v) ==> v == uint_str_val(s@),
{
    match parse_u64(s) {
        Some(v) => if v <= 0xffff {
            Some(v as u16)
        } else {
            None
        },
        None => None,
    }
}

/// True when `s` is a well-formed signed decimal string: an optional `+` or
/// `-`, then one or more digits.
pub open spec fn is_sint_str(s: Seq<char>) -> bool {
    if s.len() > 0 && (s[0] == '+' || s[0] == '-') {
        s.drop_first().len() > 0 && all_digits(s.drop_first())
    } else {
        s.len() > 0 && all_digits(s)
    }
}

/// The value of a well-formed signed decimal string.
pub open spec fn sint_str_val(s: Seq<char>) -> int
    recommends
        is_sint_str(s),
{
    if s.len() > 0 && s[0] == '-' {
        -(digits_val(s.drop_first()) as int)
    } else if s.len() > 0 && s[0] == '+' {
        digits_val(s.drop_first()) as int
    } else {
        digits_val(s) as int
    }
}

/// Parses a signed 32-bit decimal string, as `str::parse::<i32>` does;
/// `None` on malformed input or a value outside `i32`'s range.
pub fn parse_i32(s: &str) -> (r: Option<i32>)
    ensures
        r is Some <==> is_sint_str(s@) && i32::MIN <= sint_str_val(s@) <= i32::MAX,
        r matches Some(v) ==> v == sint_str_val(s@),
{
    let n = s.unicode_len();
    if n > 0 && s.get_char(0) == '-' {
        proof {
            assert(s@.drop_first() =~= s@.subrange(1, s@.len() as int));
        }
        match parse_digits_u64(s, 1) {
            Some(m) => if m <= 2147483648 {
                let v: i64 = -(m as i64);
                Some(v as i32)
            } else {
                None
            },
            None => None,
        }
    } else {
        let start: usize = if n > 0 && s.get_char(0) == '+' {
            1
        } else {
            0
        };
        proof {
            if start == 1 {
                assert(s@.drop_first() =~= s@.subrange(1, s@.len() as int));
            } else {
                assert(s@ =~= s@.subrange(0, s@.len() as int));
            }
        }
        match parse_digits_u64(s, start) {
            Some(m) => if m <= 2147483647 {
                Some(m as i32)
            } else {
                None
            },
            None => None,
        }
    }
}

} // verus!

