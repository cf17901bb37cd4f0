//! Decimal numerals, fixed-point renderings, padding and line trimming on
//! character sequences.
use vstd::prelude::*;
use vstd::arithmetic::div_mod::{lemma_fundamental_div_mod, lemma_fundamental_div_mod_converse};

verus! {

/// Relies on `String::push`: the character is appended at the end.
pub assume_specification[ String::push ](string: &mut String, ch: char)
    ensures
        final(string)@ == old(string)@.push(ch),
;

/// The character of the decimal digit `d`.
pub open spec fn digit_char(d: int) -> char
    recommends
        0 <= d < 10,
{
    (d + 48) as char
}

/// The numeric value of a decimal digit character.
pub open spec fn digit_value(c: char) -> int {
    (c as int) - 48
}

/// `c` is one of `0` to `9`.
pub open spec fn is_digit(c: char) -> bool {
    '0' <= c <= '9'
}

/// The shortest decimal numeral of `n`.
pub open spec fn decimal(n: nat) -> Seq<char>
    decreases n,
{
    if n < 10 {
        seq![digit_char(n as int)]
    } else {
        decimal(n / 10).push(digit_char((n % 10) as int))
    }
}

fn digit(d: u64) -> (c: char)
    requires
        d < 10,
    ensures
        c == digit_char(d as int),
        is_digit(c),
{
    ((d as u8) + 48u8) as char
}

/// Append the decimal numeral of `n` to `out`.
pub fn push_decimal(out: &mut String, n: u64)
    ensures
        final(out)@ == old(out)@ + decimal(n as nat),
    decreases n,
{
    if n >= 10 {
        push_decimal(out, n / 10);
    }
    out.push(digit(n % 10));
    assert(out@ =~= old(out)@ + decimal(n as nat));
}

/// The decimal numeral of `n`.
pub fn decimal_text(n: u64) -> (r: String)
    ensures
        r@ == decimal(n as nat),
{
    let mut r = String::new();
    push_decimal(&mut r, n);
    assert(r@ =~= decimal(n as nat));
    r
}

/// The value of a sequence of decimal digits, most significant first.
pub open spec fn digits_value(s: Seq<char>) -> nat
    decreases s.len(),
{
    if s.len() == 0 {
        0
    } else {
        (digits_value(s.drop_last()) * 10 + digit_value(s.last())) as nat
    }
}

/// The digits of an unsigned numeral: the text without one leading `+`.
pub open spec fn unsigned_digits(s: Seq<char>) -> Seq<char> {
    if s.len() > 0 && s[0] == '+' {
        s.drop_first()
    } else {
        s
    }
}

/// `d` is one or more decimal digits whose value fits in 64 bits.
pub open spec fn is_u64_digits(d: Seq<char>) -> bool {
    &&& d.len() > 0
    &&& forall|i: int| 0 <= i < d.len() ==> is_digit(#[trigger] d[i])
    &&& digits_value(d) <= u64::MAX
}

/// `s` is the text of a `u64`: an optional `+`, then one or more decimal
/// digits whose value fits in 64 bits.
pub open spec fn is_u64_text(s: Seq<char>) -> bool {
    is_u64_digits(unsigned_digits(s))
}

/// The `u64` that `s` denotes, if any.
pub open spec fn spec_parse_u64(s: Seq<char>) -> Option<u64> {
    if is_u64_text(s) {
        Some(digits_value(unsigned_digits(s)) as u64)
    } else {
        None
    }
}

proof fn lemma_digits_value_prefix(s: Seq<char>, k: int)
    requires
        0 <= k <= s.len(),
        forall|i: int| 0 <= i < s.len() ==> is_digit(#[trigger] s[i]),
    ensures
        digits_value(s.take(k)) <= digits_value(s),
    decreases s.len() - k,
{
    if k < s.len() {
        lemma_digits_value_prefix(s, k + 1);
        assert(s.take(k + 1).drop_last() =~= s.take(k));
        assert(is_digit(s[k]));
    } else {
        assert(s.take(k) =~= s);
    }
}

/// Parse `s` as a `u64`: an optional `+` and decimal digits, nothing else.
pub fn parse_u64(s: &str) -> (r: Option<u64>)
    ensures
        r == spec_parse_u64(s@),
{
    let n = s.unicode_len();
    let start: usize = if n > 0 && s.get_char(0) == '+' {
        1
    } else {
        0
    };
    let ghost d = unsigned_digits(s@);
    assert(d =~= s@.subrange(start as int, n as int));
    if start == n {
        return None;
    }
    let mut acc: u64 = 0;
    let mut i: usize = start;
    while i < n
        invariant
            start <= i <= n,
            n == s@.len(),
            d == s@.subrange(start as int, n as int),
            d == unsigned_digits(s@),
            acc == digits_value(d.take(i - start)),
            forall|j: int| 0 <= j < i - start ==> is_digit(#[trigger] d[j]),
        decreases n - i,
    {
        let c = s.get_char(i);
        assert(c == d[i - start]);
        if !('0' <= c && c <= '9') {
            assert(!is_digit(d[i - start]));
            return None;
        }
        assert(d.take(i - start + 1).drop_last() =~= d.take(i - start));
        let v = (c as u32 - 48) as u64;
        assert(digits_value(d.take(i - start + 1)) == acc * 10 + v);
        match acc.checked_mul(10) {
            Some(m) => match m.checked_add(v) {
                Some(a) => {
                    acc = a;
                },
                None => {
                    proof {
                        lemma_overflow_is_final(d, i - start + 1);
                    }
                    return None;
                },
            },
            None => {
                proof {
                    lemma_overflow_is_final(d, i - start + 1);
                }
                return None;
            },
        }
        i = i + 1;
    }
    assert(d.take(n - start) =~= d);
    Some(acc)
}

proof fn lemma_overflow_is_final(d: Seq<char>, k: int)
    requires
        0 < k <= d.len(),
        digits_value(d.take(k)) > u64::MAX,
    ensures
        !is_u64_digits(d),
{
    if forall|i: int| 0 <= i < d.len() ==> is_digit(#[trigger] d[i]) {
        lemma_digits_value_prefix(d, k);
    }
}

/// `s` without one trailing line feed, and then without one carriage return
/// that preceded it.
pub open spec fn trim_line_end(s: Seq<char>) -> Seq<char> {
    if s.len() > 0 && s.last() == '\n' {
        let t = s.drop_last();
        if t.len() > 0 && t.last() == '\r' {
            t.drop_last()
        } else {
            t
        }
    } else {
        s
    }
}

/// `s` without its line terminator, LF or CRLF.
pub fn trim_line_end_text(s: &str) -> (r: String)
    ensures
        r@ == trim_line_end(s@),
{
    let n = s.unicode_len();
    let mut k = n;
    if k > 0 && s.get_char(k - 1) == '\n' {
        k = k - 1;
        if k > 0 && s.get_char(k - 1) == '\r' {
            k = k - 1;
        }
    }
    let r = String::from_str(s.substring_char(0, k));
    assert(r@ =~= trim_line_end(s@));
    r
}

/// `n` spaces.
pub open spec fn spaces(n: nat) -> Seq<char> {
    Seq::new(n, |i: int| ' ')
}

/// `s` followed by spaces up to `width` characters; `s` itself when it is
/// that long already.
pub open spec fn pad_end(s: Seq<char>, width: nat) -> Seq<char> {
    if s.len() < width {
        s + spaces((width - s.len()) as nat)
    } else {
        s
    }
}

/// `s` preceded by spaces up to `width` characters; `s` itself when it is
/// that long already.
pub open spec fn pad_start(s: Seq<char>, width: nat) -> Seq<char> {
    if s.len() < width {
        spaces((width - s.len()) as nat) + s
    } else {
        s
    }
}

fn push_spaces(out: &mut String, n: usize)
    ensures
        final(out)@ == old(out)@ + spaces(n as nat),
{
    let mut i: usize = 0;
    while i < n
        invariant
            i <= n,
            out@ == old(out)@ + spaces(i as nat),
        decreases n - i,
    {
        out.push(' ');
        i = i + 1;
        assert(out@ =~= old(out)@ + spaces(i as nat));
    }
}

/// Append `s` left-aligned in a column of `width` characters.
pub fn push_padded_end(out: &mut String, s: &str, width: usize)
    ensures
        final(out)@ == old(out)@ + pad_end(s@, width as nat),
{
    let n = s.unicode_len();
    out.append(s);
    if n < width {
        push_spaces(out, width - n);
    }
    assert(out@ =~= old(out)@ + pad_end(s@, width as nat));
}

/// Append `s` right-aligned in a column of `width` characters.
pub fn push_padded_start(out: &mut String, s: &str, width: usize)
    ensures
        final(out)@ == old(out)@ + pad_start(s@, width as nat),
{
    let n = s.unicode_len();
    if n < width {
        push_spaces(out, width - n);
    }
    out.append(s);
    assert(out@ =~= old(out)@ + pad_start(s@, width as nat));
}

/// `v / d` in hundredths, rounded to the nearest, ties to the even neighbour.
pub open spec fn rounded_hundredths(v: nat, d: nat) -> nat
    recommends
        d > 0,
{
    let q = (v * 100) / d;
    let r = (v * 100) % d;
    if 2 * r > d || (2 * r == d && q % 2 == 1) {
        (q + 1) as nat
    } else {
        q as nat
    }
}

/// The numeral of `n` hundredths with exactly two decimals.
pub open spec fn fixed_two(n: nat) -> Seq<char> {
    decimal(n / 100) + seq!['.', digit_char(((n % 100) / 10) as int), digit_char((n % 10) as int)]
}

/// Append `v / d` rounded to two decimals, ties to even.
pub fn push_fixed_two(out: &mut String, v: u64, d: u64)
    requires
        2 <= d <= 1048576,
    ensures
        final(out)@ == old(out)@ + fixed_two(rounded_hundredths(v as nat, d as nat)),
{
    let whole = v / d;
    let frac = v % d;
    let scaled = frac * 100;
    let q2 = scaled / d;
    let r = scaled % d;
    proof {
        lemma_fundamental_div_mod(v as int, d as int);
        lemma_fundamental_div_mod(scaled as int, d as int);
        assert(v * 100 == (whole * 100 + q2) * d + r) by (nonlinear_arith)
            requires
                v == whole * d + frac,
                scaled == frac * 100,
                scaled == q2 * d + r,
        ;
        lemma_fundamental_div_mod_converse(v * 100, d as int, whole * 100 + q2, r as int);
        assert(q2 < 100) by (nonlinear_arith)
            requires
                scaled == q2 * d + r,
                scaled == frac * 100,
                frac < d,
                r >= 0,
        ;
    }
    let ghost n = rounded_hundredths(v as nat, d as nat);
    let round_up = 2 * r > d || (2 * r == d && q2 % 2 == 1);
    let mut whole_out = whole;
    let mut cents = q2;
    if round_up {
        if q2 == 99 {
            assert(whole < u64::MAX) by (nonlinear_arith)
                requires
                    v == whole * d + frac,
                    d >= 2,
                    frac >= 0,
                    v <= u64::MAX,
            ;
            whole_out = whole + 1;
            cents = 0;
        } else {
            cents = q2 + 1;
        }
    }
    proof {
        assert(n == whole_out * 100 + cents);
        lemma_fundamental_div_mod_converse(n as int, 100, whole_out as int, cents as int);
    }
    push_decimal(out, whole_out);
    out.push('.');
    out.push(digit(cents / 10));
    out.push(digit(cents % 10));
    assert(out@ =~= old(out)@ + fixed_two(n));
}

} // verus!
