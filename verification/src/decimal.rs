//! Unsigned decimal numbers, as they are written into and read out of HTTP
//! headers.

use vstd::prelude::*;

verus! {

/// The character of a single decimal digit.
pub open spec fn digit_char(d: nat) -> char {
    ('0' as nat + d) as char
}

/// Whether `c` is one of `0` to `9`.
pub open spec fn is_digit(c: char) -> bool {
    '0' <= c <= '9'
}

/// Whether `s` holds nothing but digits.
pub open spec fn all_digits(s: Seq<char>) -> bool {
    forall|i: int| 0 <= i < s.len() ==> is_digit(#[trigger] s[i])
}

/// The decimal notation of `n`, without a sign and without leading zeros.
pub open spec fn text(n: nat) -> Seq<char>
    decreases n,
{
    if n < 10 {
        seq![digit_char(n)]
    } else {
        text(n / 10).push(digit_char(n % 10))
    }
}

/// The number that a sequence of digits denotes; leading zeros count nothing.
pub open spec fn digits_value(s: Seq<char>) -> nat
    decreases s.len(),
{
    if s.len() == 0 {
        0
    } else {
        10 * digits_value(s.drop_last()) + (s.last() as nat - '0' as nat) as nat
    }
}

/// `s` without one leading plus sign.
pub open spec fn unsigned_part(s: Seq<char>) -> Seq<char> {
    if s.len() > 0 && s[0] == '+' {
        s.skip(1)
    } else {
        s
    }
}

/// What `s` denotes as a 64-bit number: an optional plus sign, then at least one
/// digit and nothing else, with a value that fits.
pub open spec fn u64_of_text(s: Seq<char>) -> Option<u64> {
    let digits = unsigned_part(s);
    if digits.len() > 0 && all_digits(digits) && digits_value(digits) <= u64::MAX {
        Some(digits_value(digits) as u64)
    } else {
        None
    }
}

/// More digits never make a number smaller.
proof fn lemma_prefix_value_is_smaller(s: Seq<char>, k: int)
    requires
        0 <= k <= s.len(),
    ensures
        digits_value(s.take(k)) <= digits_value(s),
    decreases s.len() - k,
{
    if k == s.len() {
        assert(s.take(k) =~= s);
    } else {
        lemma_prefix_value_is_smaller(s, k + 1);
        assert(s.take(k + 1).drop_last() =~= s.take(k));
    }
}

/// Reading the decimal notation of a number gives the number back.
pub proof fn law_decimal_reads_back(n: u64)
    ensures
        u64_of_text(text(n as nat)) == Some(n),
{
    lemma_decimal(n as nat);
    assert(text(n as nat)[0] != '+');
}

/// The notation of a number is never empty, holds digits only and denotes it.
pub proof fn lemma_decimal(n: nat)
    ensures
        text(n).len() > 0,
        all_digits(text(n)),
        digits_value(text(n)) == n,
    decreases n,
{
    if n < 10 {
        assert(text(n).drop_last() =~= Seq::<char>::empty());
        assert(digits_value(Seq::<char>::empty()) == 0);
        assert(text(n).last() == digit_char(n));
    } else {
        lemma_decimal(n / 10);
        assert(text(n).drop_last() =~= text(n / 10));
        assert(text(n).last() == digit_char(n % 10));
    }
}

/// Reads `text` as a 64-bit number in decimal notation.
pub fn parse_u64(text: &str) -> (r: Option<u64>)
    ensures
        r == u64_of_text(text@),
{
    let mut value: u64 = 0;
    let mut seen: bool = false;
    let mut first: bool = true;
    let ghost digits = unsigned_part(text@);
    let ghost mut read: int = 0;
    for c in it: text.chars()
        invariant
            it.seq() == text@,
            digits == unsigned_part(text@),
            first == (it.index() == 0),
            read == it.index() - (text@.len() - digits.len()) || first,
            first ==> read == 0,
            0 <= read <= digits.len(),
            seen == (read > 0),
            all_digits(digits.take(read)),
            value == digits_value(digits.take(read)),
    {
        let ghost at = it.index();
        assert(c == text@[at]);
        if first && c == '+' {
            first = false;
        } else if '0' <= c && c <= '9' {
            first = false;
            seen = true;
            let digit: u64 = c as u64 - '0' as u64;
            proof {
                assert(digits[read] == c);
                assert(digits.take(read + 1).drop_last() =~= digits.take(read));
                lemma_prefix_value_is_smaller(digits, read + 1);
            }
            if value > (u64::MAX - digit) / 10 {
                return None;
            }
            value = value * 10 + digit;
            proof {
                read = read + 1;
            }
        } else {
            assert(digits[read] == c);
            return None;
        }
    }
    assert(read == digits.len());
    assert(digits.take(read) =~= digits);
    if seen {
        Some(value)
    } else {
        None
    }
}

/// The one-character text of a digit.
fn digit_text(d: u64) -> (r: &'static str)
    requires
        d < 10,
    ensures
        r@ == seq![digit_char(d as nat)],
{
    proof {
        reveal_strlit("0");
        reveal_strlit("1");
        reveal_strlit("2");
        reveal_strlit("3");
        reveal_strlit("4");
        reveal_strlit("5");
        reveal_strlit("6");
        reveal_strlit("7");
        reveal_strlit("8");
        reveal_strlit("9");
    }
    match d {
        0 => "0",
        1 => "1",
        2 => "2",
        3 => "3",
        4 => "4",
        5 => "5",
        6 => "6",
        7 => "7",
        8 => "8",
        _ => "9",
    }
}

/// Appends the decimal notation of `n` to `out`.
pub fn append_decimal(out: &mut String, n: u64)
    ensures
        final(out)@ == old(out)@ + text(n as nat),
    decreases n,
{
    if n >= 10 {
        append_decimal(out, n / 10);
    }
    out.append(digit_text(n % 10));
}

} // verus!
