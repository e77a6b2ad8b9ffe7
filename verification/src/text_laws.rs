//! What every call of the operations on text and on numbers in decimal notation
//! gives.

use vstd::prelude::*;

use crate::decimal;
use crate::decimal::{append_decimal, parse_u64};
use crate::text::{same_text, strip_suffix, text_after_last};

verus! {

/// The value of a sequence of decimal digits by place: the first digit counts as
/// often as the power of ten of the number of digits behind it.
pub open spec fn place_value(digits: Seq<char>) -> int
    decreases digits.len(),
{
    if digits.len() == 0 {
        0
    } else {
        (digits[0] as int - '0' as int) * vstd::arithmetic::power::pow(10, (digits.len() - 1) as nat) + place_value(
            digits.skip(1),
        )
    }
}

/// Whether a text holds digits only, and at least one.
pub open spec fn is_number(s: Seq<char>) -> bool {
    s.len() > 0 && forall|i: int| 0 <= i < s.len() ==> '0' <= #[trigger] s[i] <= '9'
}

/// One more digit behind the others multiplies the value of those by ten.
proof fn lemma_place_value_of_push(digits: Seq<char>, last: char)
    ensures
        place_value(digits.push(last)) == 10 * place_value(digits) + (last as int - '0' as int),
    decreases digits.len(),
{
    vstd::arithmetic::power::lemma_pow0(10);
    if digits.len() == 0 {
        assert(digits.push(last).skip(1) =~= Seq::<char>::empty());
        assert(place_value(Seq::<char>::empty()) == 0);
        let d = last as int - '0' as int;
        assert(d * 1 == d);
        assert(digits.push(last)[0] == last);
    } else {
        let rest = digits.skip(1);
        lemma_place_value_of_push(rest, last);
        assert(digits.push(last).skip(1) =~= rest.push(last));
        vstd::arithmetic::power::lemma_pow1(10);
        vstd::arithmetic::power::lemma_pow_adds(10, 1, rest.len());
        let (d, p) = (digits[0] as int - '0' as int, vstd::arithmetic::power::pow(10, rest.len()));
        assert(d * (10 * p) == 10 * (d * p)) by (nonlinear_arith);
    }
}

/// The value of digits is their value by place.
proof fn lemma_digits_count_by_place(digits: Seq<char>)
    requires
        decimal::all_digits(digits),
    ensures
        decimal::digits_value(digits) == place_value(digits),
    decreases digits.len(),
{
    if digits.len() > 0 {
        lemma_digits_count_by_place(digits.drop_last());
        lemma_place_value_of_push(digits.drop_last(), digits.last());
        assert(digits.drop_last().push(digits.last()) =~= digits);
        assert(decimal::is_digit(digits[digits.len() - 1]));
    }
}

/// The notation of a number has no zero in front.
proof fn lemma_no_leading_zero(n: nat)
    ensures
        n > 0 ==> decimal::text(n)[0] != '0',
        n < 10 ==> decimal::text(n).len() == 1,
    decreases n,
{
    if n >= 10 {
        lemma_no_leading_zero(n / 10);
        decimal::lemma_decimal(n / 10);
    }
}

/// A text is read as a number exactly if it holds digits only, behind at most one
/// plus sign, and their value by place fits; the number is that value.
pub proof fn law_numbers_are_read_by_place(text: &str, r: Option<u64>)
    requires
        call_ensures(parse_u64, (text,), r),
    ensures
        ({
            let digits = if text@.len() > 0 && text@[0] == '+' {
                text@.skip(1)
            } else {
                text@
            };
            &&& r is Some <==> is_number(digits) && place_value(digits) <= u64::MAX
            &&& r is Some ==> r->0 == place_value(digits)
        }),
{
    let digits = if text@.len() > 0 && text@[0] == '+' {
        text@.skip(1)
    } else {
        text@
    };
    if is_number(digits) {
        assert(decimal::all_digits(digits));
        lemma_digits_count_by_place(digits);
    } else if digits.len() > 0 && decimal::all_digits(digits) {
        assert forall|i: int| 0 <= i < digits.len() implies '0' <= #[trigger] digits[i]
            <= '9' by {
            assert(decimal::is_digit(digits[i]));
        }
    }
}

/// A number is written behind the text as digits whose value by place it is,
/// without a zero in front of others.
pub proof fn law_numbers_are_written_by_place(out: &mut String, n: u64)
    requires
        call_ensures(append_decimal, (out, n), ()),
    ensures
        final(out)@.len() > old(out)@.len(),
        final(out)@.take(old(out)@.len() as int) == old(out)@,
        ({
            let written = final(out)@.skip(old(out)@.len() as int);
            &&& is_number(written)
            &&& place_value(written) == n
            &&& written.len() > 1 ==> written[0] != '0'
        }),
{
    let written = decimal::text(n as nat);
    decimal::lemma_decimal(n as nat);
    lemma_digits_count_by_place(written);
    lemma_no_leading_zero(n as nat);
    assert(final(out)@.skip(out@.len() as int) =~= written);
    assert(final(out)@.take(out@.len() as int) =~= out@);
    assert forall|i: int| 0 <= i < written.len() implies '0' <= #[trigger] written[i] <= '9' by {
        assert(decimal::is_digit(written[i]));
    }
}

/// Stripping gives what a suffix was put behind, and nothing where the text is
/// not made so.
pub proof fn law_stripping_undoes_appending(s: &str, suffix: &str, r: Option<&str>, t: Seq<char>)
    requires
        call_ensures(strip_suffix, (s, suffix), r),
    ensures
        r is Some ==> s@ == r->0@ + suffix@,
        s@ == t + suffix@ ==> r is Some && r->0@ == t,
{
    if s@ == t + suffix@ {
        assert(s@.skip(s@.len() - suffix@.len()) =~= suffix@);
        assert(s@.take(s@.len() - suffix@.len()) =~= t);
    }
    if r is Some {
        assert(s@ =~= s@.take(s@.len() - suffix@.len()) + suffix@);
    }
}

/// What is cut off behind the last mark holds no mark and stands behind one, and
/// nothing is cut off of a text without a mark.
pub proof fn law_cutting_takes_what_follows_the_last_mark(
    s: &str,
    mark: char,
    r: Option<&str>,
    head: Seq<char>,
    tail: Seq<char>,
)
    requires
        call_ensures(text_after_last, (s, mark), r),
    ensures
        r is None <==> !s@.contains(mark),
        s@ == head.push(mark) + tail && !tail.contains(mark) ==> r is Some && r->0@ == tail,
{
    s@.index_of_last_ensures(mark);
    if s@ == head.push(mark) + tail && !tail.contains(mark) {
        assert(s@[head.len() as int] == mark);
        assert forall|j: int| head.len() < j < s@.len() implies s@[j] != mark by {
            assert(tail.contains(tail[j - head.len() - 1]));
        }
        assert(s@.skip(head.len() as int + 1) =~= tail);
    }
}

/// Two texts are found the same exactly if they are.
pub proof fn law_same_texts_are_equal(a: &str, b: &str, r: bool)
    requires
        call_ensures(same_text, (a, b), r),
    ensures
        r <==> a@ == b@,
{
}

} // verus!
