//! Decimal text of unsigned integers, in both directions, as `u8`/`u16`/`u64`
//! `to_string` and `u8::from_str` of the standard library define it.

use vstd::prelude::*;

verus! {

/// The ASCII digit of `d`, for `d < 10`.
pub open spec fn digit_char(d: nat) -> char {
    (d + 48) as char
}

/// Whether `c` is an ASCII decimal digit.
pub open spec fn is_digit(c: char) -> bool {
    '0' <= c && c <= '9'
}

/// The value of an ASCII decimal digit.
pub open spec fn digit_value(c: char) -> nat {
    (c as int - 48) as nat
}

/// The shortest decimal text of `n`, without sign or leading zeros.
pub open spec fn decimal(n: nat) -> Seq<char>
    decreases n,
{
    if n < 10 {
        seq![digit_char(n)]
    } else {
        decimal(n / 10).push(digit_char(n % 10))
    }
}

/// Text made of the digit of `d` alone.
fn digit_text(d: u64) -> (r: &'static str)
    requires
        d < 10,
    ensures
        r@ == seq![digit_char(d as nat)],
{
    match d {
        0 => { proof { reveal_strlit("0"); } "0" },
        1 => { proof { reveal_strlit("1"); } "1" },
        2 => { proof { reveal_strlit("2"); } "2" },
        3 => { proof { reveal_strlit("3"); } "3" },
        4 => { proof { reveal_strlit("4"); } "4" },
        5 => { proof { reveal_strlit("5"); } "5" },
        6 => { proof { reveal_strlit("6"); } "6" },
        7 => { proof { reveal_strlit("7"); } "7" },
        8 => { proof { reveal_strlit("8"); } "8" },
        _ => { proof { reveal_strlit("9"); } "9" },
    }
}

/// The decimal text of `n`, as `n.to_string()` writes it.
pub fn u64_to_decimal(n: u64) -> (r: String)
    ensures
        r@ == decimal(n as nat),
{
    let mut rest: u64 = n;
    let mut suffix = String::new();
    while rest >= 10
        invariant
            decimal(n as nat) == decimal(rest as nat) + suffix@,
        decreases rest,
    {
        let d: u64 = rest % 10;
        let mut s = String::from_str(digit_text(d));
        s.append(suffix.as_str());
        proof {
            assert(decimal(rest as nat) == decimal((rest / 10) as nat).push(digit_char(d as nat)));
            assert(decimal(rest as nat) + suffix@ =~= decimal((rest / 10) as nat) + s@);
        }
        suffix = s;
        rest = rest / 10;
    }
    let mut r = String::from_str(digit_text(rest));
    r.append(suffix.as_str());
    r
}

/// Whether every character of `s` is an ASCII decimal digit.
pub open spec fn all_digits(s: Seq<char>) -> bool {
    forall|i: int| 0 <= i < s.len() ==> is_digit(#[trigger] s[i])
}

/// The value of the decimal digits `s`, most significant first.
pub open spec fn digits_value(s: Seq<char>) -> nat
    decreases s.len(),
{
    if s.len() == 0 {
        0
    } else {
        digits_value(s.drop_last()) * 10 + digit_value(s.last())
    }
}

/// What `u8::from_str` (radix 10) gives for the text `s`: an optional `+`,
/// then one or more ASCII digits whose value is at most 255. Any other text,
/// the empty text and a lone sign among them, is refused.
pub open spec fn parse_u8_text(s: Seq<char>) -> Option<u8> {
    let t = if s.len() > 0 && s[0] == '+' { s.drop_first() } else { s };
    if t.len() > 0 && all_digits(t) && digits_value(t) <= 255 {
        Some(digits_value(t) as u8)
    } else {
        None
    }
}

/// A prefix of a digit text never has a larger value than the whole text.
proof fn lemma_prefix_value_le(s: Seq<char>, k: int)
    requires
        0 <= k <= s.len(),
    ensures
        digits_value(s.take(k)) <= digits_value(s),
    decreases s.len(),
{
    if k < s.len() {
        assert(s.drop_last().take(k) =~= s.take(k));
        lemma_prefix_value_le(s.drop_last(), k);
    } else {
        assert(s.take(k) =~= s);
    }
}

/// Parses `s` as `u8::from_str` does, giving `None` where it gives an error.
pub fn parse_u8(s: &str) -> (r: Option<u8>)
    ensures
        r == parse_u8_text(s@),
{
    let len = s.unicode_len();
    let mut start: usize = 0;
    if len > 0 && s.get_char(0) == '+' {
        start = 1;
    }
    let ghost t = if s@.len() > 0 && s@[0] == '+' { s@.drop_first() } else { s@ };
    assert(t =~= s@.subrange(start as int, len as int));
    if start == len {
        return None;
    }
    let mut acc: u64 = 0;
    let mut i: usize = start;
    while i < len
        invariant
            len == s@.len(),
            start <= i <= len,
            t == (if s@.len() > 0 && s@[0] == '+' { s@.drop_first() } else { s@ }),
            t =~= s@.subrange(start as int, len as int),
            acc <= 255,
            all_digits(t.take(i - start)),
            acc == digits_value(t.take(i - start)),
        decreases len - i,
    {
        let c = s.get_char(i);
        if c < '0' || c > '9' {
            assert(t[i - start] == c);
            assert(!all_digits(t));
            return None;
        }
        let d: u64 = (c as u32 - 48) as u64;
        acc = acc * 10 + d;
        proof {
            let k = i - start;
            assert(t.take(k + 1).drop_last() =~= t.take(k));
            assert(t.take(k + 1).last() == c);
            assert(all_digits(t.take(k + 1)));
        }
        if acc > 255 {
            proof {
                lemma_prefix_value_le(t, i + 1 - start);
                assert(digits_value(t) > 255);
            }
            return None;
        }
        i = i + 1;
    }
    assert(t.take(len - start) =~= t);
    Some(acc as u8)
}

/// The decimal text of a number is digits only, starts with a digit, and
/// has that number as its value.
pub proof fn lemma_decimal_digits(n: nat)
    ensures
        decimal(n).len() > 0,
        all_digits(decimal(n)),
        digits_value(decimal(n)) == n,
    decreases n,
{
    if n >= 10 {
        lemma_decimal_digits(n / 10);
        let s = decimal(n);
        assert(s.drop_last() =~= decimal(n / 10));
        assert(s.last() == digit_char(n % 10));
        assert(digit_value(digit_char(n % 10)) == n % 10);
        assert(digits_value(s) == digits_value(decimal(n / 10)) * 10 + n % 10);
        assert((n / 10) * 10 + n % 10 == n);
        assert(digits_value(s) == n);
        assert forall|i: int| 0 <= i < s.len() implies is_digit(#[trigger] s[i]) by {
            if i < s.len() - 1 {
                assert(s[i] == decimal(n / 10)[i]);
            }
        }
    } else {
        let s = decimal(n);
        assert(s.drop_last() =~= Seq::<char>::empty());
        assert(digits_value(s.drop_last()) == 0);
        assert(s.last() == digit_char(n));
        assert(digit_value(digit_char(n)) == n);
        assert(digits_value(s) == n);
    }
}

/// `u8::from_str` reads back the decimal text that `to_string` writes.
pub proof fn lemma_parse_u8_of_decimal(b: u8)
    ensures
        parse_u8_text(decimal(b as nat)) == Some(b),
{
    lemma_decimal_digits(b as nat);
    let s = decimal(b as nat);
    assert(is_digit(s[0]));
}

/// The decimal text has no leading zero: zero is written `0`, and any other
/// number starts with a digit other than `0`.
pub proof fn lemma_decimal_canonical(n: nat)
    ensures
        n == 0 ==> decimal(n) == seq!['0'],
        n > 0 ==> decimal(n)[0] != '0',
    decreases n,
{
    if n >= 10 {
        lemma_decimal_canonical(n / 10);
        lemma_decimal_digits(n / 10);
        assert(decimal(n)[0] == decimal(n / 10)[0]);
    }
}

} // verus!
