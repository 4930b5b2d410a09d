//! Properties of IMEI normalisation and of the Luhn check that hold for
//! every input.

use vstd::prelude::*;

use crate::imei::{
    all_digits, digit_value, digits_of, has_valid_length, is_digit_char, lemma_digits_of_all_digits,
    lemma_digits_of_idempotent, luhn_ok, luhn_sum, luhn_term,
};
use crate::text::{decimal, decimal_value, digit_char};

verus! {

// ─── Normalisation ─────────────────────────────────────────────────────────────

/// The digits of a concatenation are the concatenation of the digits.
pub proof fn lemma_digits_of_append(a: Seq<char>, b: Seq<char>)
    ensures
        digits_of(a + b) == digits_of(a) + digits_of(b),
    decreases b.len(),
{
    if b.len() == 0 {
        assert(a + b == a);
        assert(digits_of(a) + digits_of(b) == digits_of(a));
    } else {
        assert((a + b).drop_last() == a + b.drop_last());
        assert((a + b).last() == b.last());
        lemma_digits_of_append(a, b.drop_last());
        if is_digit_char(b.last()) {
            assert(digits_of(a) + digits_of(b.drop_last()).push(b.last()) == (digits_of(a)
                + digits_of(b.drop_last())).push(b.last()));
        }
    }
}

/// Separators do not matter: inserting a non-digit character anywhere in an
/// input leaves its digits, and so what `parse`, `luhn_valid` and `lookup`
/// make of it, unchanged.
pub proof fn separators_are_ignored(before: Seq<char>, c: char, after: Seq<char>)
    requires
        !is_digit_char(c),
    ensures
        digits_of(before + seq![c] + after) == digits_of(before + after),
        has_valid_length(before + seq![c] + after) == has_valid_length(before + after),
        luhn_ok(before + seq![c] + after) == luhn_ok(before + after),
{
    lemma_digits_of_append(before + seq![c], after);
    lemma_digits_of_append(before, seq![c]);
    lemma_digits_of_append(before, after);
    assert(seq![c].drop_last() == Seq::<char>::empty());
    assert(seq![c].last() == c);
    assert(digits_of(Seq::<char>::empty()) == Seq::<char>::empty());
    assert(digits_of(seq![c]) == Seq::<char>::empty());
    assert(digits_of(before) + Seq::<char>::empty() == digits_of(before));
}

/// Normalisation is a fixed point: the normalized digits of an input have
/// the same digits, validity of length and Luhn verdict as the input itself,
/// so parsing a result's `normalized` string gives that result again.
pub proof fn normalization_is_stable(s: Seq<char>)
    ensures
        digits_of(digits_of(s)) == digits_of(s),
        has_valid_length(digits_of(s)) == has_valid_length(s),
        luhn_ok(digits_of(s)) == luhn_ok(s),
{
    lemma_digits_of_idempotent(s);
}

/// The digits of an input are exactly its characters that are ASCII
/// digits, kept in order: `digits_of` is the standard filter of the input.
pub proof fn digits_are_the_digit_filter(s: Seq<char>)
    ensures
        digits_of(s) == s.filter(|c: char| is_digit_char(c)),
    decreases s.len(),
{
    reveal_with_fuel(Seq::<_>::filter, 1);
    if s.len() > 0 {
        digits_are_the_digit_filter(s.drop_last());
    }
}

/// Digit characters and their values correspond one to one: `digit_char`
/// gives the character '0' + d, which is a digit of value d.
pub proof fn digit_chars_have_their_value(d: int)
    requires
        0 <= d <= 9,
    ensures
        is_digit_char(digit_char(d)),
        digit_value(digit_char(d)) == d,
        digit_char(d) as int == '0' as int + d,
{
}

/// A character is a digit exactly when its value lies in 0..=9, and it is
/// then the character of that value.
pub proof fn digit_chars_are_zero_to_nine(c: char)
    ensures
        is_digit_char(c) <==> 0 <= digit_value(c) <= 9,
        is_digit_char(c) ==> c == digit_char(digit_value(c)),
{
}

// ─── Decimal rendering ─────────────────────────────────────────────────────────

/// The decimal rendering of `n` is a non-empty string of digits without a
/// leading zero (unless `n` is 0) that, read back as a number, is `n`.
pub proof fn decimal_renders_value(n: nat)
    ensures
        decimal(n).len() >= 1,
        all_digits(decimal(n)),
        decimal_value(decimal(n)) == n,
        n > 0 ==> decimal(n)[0] != '0',
    decreases n,
{
    if n < 10 {
        digit_chars_have_their_value(n as int);
        assert(decimal(n).drop_last() == Seq::<char>::empty());
        assert(decimal_value(Seq::<char>::empty()) == 0);
    } else {
        decimal_renders_value(n / 10);
        let d = (n % 10) as int;
        digit_chars_have_their_value(d);
        let prev = decimal(n / 10);
        assert(decimal(n) == prev.push(digit_char(d)));
        assert(decimal(n).drop_last() == prev);
        assert(all_digits(decimal(n))) by {
            assert forall|i: int| 0 <= i < decimal(n).len() implies #[trigger] is_digit_char(
                decimal(n)[i],
            ) by {
                if i < prev.len() {
                    assert(is_digit_char(prev[i]));
                }
            }
        }
        assert(decimal(n)[0] == prev[0]);
    }
}

// ─── Luhn ──────────────────────────────────────────────────────────────────────

/// A digit's Luhn contribution lies in 0..=9 and determines the digit.
pub proof fn lemma_luhn_term_injective(a: int, b: int, doubled: bool)
    requires
        0 <= a <= 9,
        0 <= b <= 9,
    ensures
        0 <= luhn_term(a, doubled) <= 9,
        a != b ==> luhn_term(a, doubled) != luhn_term(b, doubled),
{
}

/// Changing the digit at one position changes the Luhn sum by exactly the
/// change of that position's contribution.
proof fn lemma_luhn_sum_one_change(s: Seq<char>, t: Seq<char>, i: int, doubled: bool)
    requires
        s.len() == t.len(),
        0 <= i < s.len(),
        forall|j: int| 0 <= j < s.len() && j != i ==> s[j] == t[j],
    ensures
        ({
            let flag = if (s.len() - 1 - i) % 2 == 0 { doubled } else { !doubled };
            luhn_sum(s, doubled) - luhn_sum(t, doubled) == luhn_term(digit_value(s[i]), flag)
                - luhn_term(digit_value(t[i]), flag)
        }),
    decreases s.len(),
{
    if i == s.len() - 1 {
        assert(s.drop_last() == t.drop_last());
    } else {
        lemma_luhn_sum_one_change(s.drop_last(), t.drop_last(), i, !doubled);
        assert(s.last() == t.last());
    }
}

/// Luhn catches every single-digit error: when two 15-digit strings differ in
/// exactly one position, at most one of them passes the check.
pub proof fn luhn_detects_single_digit_errors(s: Seq<char>, t: Seq<char>, i: int)
    requires
        s.len() == 15,
        t.len() == 15,
        all_digits(s),
        all_digits(t),
        0 <= i < 15,
        s[i] != t[i],
        forall|j: int| 0 <= j < 15 && j != i ==> s[j] == t[j],
    ensures
        luhn_ok(s) ==> !luhn_ok(t),
{
    lemma_digits_of_all_digits(s);
    lemma_digits_of_all_digits(t);
    lemma_luhn_sum_one_change(s, t, i, false);
    assert(is_digit_char(s[i]));
    assert(is_digit_char(t[i]));
    let flag = if (s.len() - 1 - i) % 2 == 0 { false } else { true };
    lemma_luhn_term_injective(digit_value(s[i]), digit_value(t[i]), flag);
}

/// A digit at a doubled position contributes the digit sum of its double
/// (0, 2, 4, 6, 8, 1, 3, 5, 7, 9 for the digits 0 through 9); any other digit
/// contributes its own value.
pub proof fn luhn_doubling_adds_digit_sum(d: int)
    requires
        0 <= d <= 9,
    ensures
        luhn_term(d, true) == (2 * d) / 10 + (2 * d) % 10,
        luhn_term(d, false) == d,
{
}

/// Only inputs with exactly 15 digits can pass the Luhn check, and the check
/// sees only the digits.
pub proof fn luhn_needs_fifteen_digits(s: Seq<char>)
    ensures
        digits_of(s).len() != 15 ==> !luhn_ok(s),
        luhn_ok(s) == luhn_ok(digits_of(s)),
{
    lemma_digits_of_idempotent(s);
}

/// The digit sum of twice the value of a digit character.
pub open spec fn doubled_digit_sum(c: char) -> int {
    (2 * digit_value(c)) / 10 + (2 * digit_value(c)) % 10
}

/// For a 15-digit string, `luhn_ok` is the standard Luhn test: counting from
/// the check digit at the right, every second digit is replaced by the digit
/// sum of its double, and the total must be a multiple of 10.
pub proof fn luhn_ok_is_the_standard_luhn_test(s: Seq<char>)
    requires
        s.len() == 15,
        all_digits(s),
    ensures
        luhn_ok(s) == ((digit_value(s[0]) + doubled_digit_sum(s[1]) + digit_value(s[2])
            + doubled_digit_sum(s[3]) + digit_value(s[4]) + doubled_digit_sum(s[5])
            + digit_value(s[6]) + doubled_digit_sum(s[7]) + digit_value(s[8])
            + doubled_digit_sum(s[9]) + digit_value(s[10]) + doubled_digit_sum(s[11])
            + digit_value(s[12]) + doubled_digit_sum(s[13]) + digit_value(s[14])) % 10 == 0),
{
    lemma_digits_of_all_digits(s);
    assert(luhn_sum(s.take(0), true) == 0);
    assert forall|i: int| 0 <= i < 15 implies 0 <= #[trigger] digit_value(s[i]) <= 9 by {
        assert(is_digit_char(s[i]));
    }
    assert forall|i: int| 0 <= i < 15 implies luhn_term(digit_value(s[i]), true)
        == #[trigger] doubled_digit_sum(s[i]) by {
        luhn_doubling_adds_digit_sum(digit_value(s[i]));
    }
    assert forall|i: int, d: bool| 1 <= i <= 15 implies #[trigger] luhn_sum(s.take(i), d)
        == luhn_term(digit_value(s[i - 1]), d) + luhn_sum(s.take(i - 1), !d) by {
        assert(s.take(i).drop_last() == s.take(i - 1));
    }
    assert(luhn_sum(s.take(1), false) == digit_value(s[0]));
    assert(luhn_sum(s.take(2), true) == digit_value(s[0]) + doubled_digit_sum(s[1]));
    assert(luhn_sum(s.take(3), false) == digit_value(s[0]) + doubled_digit_sum(s[1]) + digit_value(s[2]));
    assert(luhn_sum(s.take(4), true) == digit_value(s[0]) + doubled_digit_sum(s[1]) + digit_value(s[2]) + doubled_digit_sum(s[3]));
    assert(luhn_sum(s.take(5), false) == digit_value(s[0]) + doubled_digit_sum(s[1]) + digit_value(s[2]) + doubled_digit_sum(s[3]) + digit_value(s[4]));
    assert(luhn_sum(s.take(6), true) == digit_value(s[0]) + doubled_digit_sum(s[1]) + digit_value(s[2]) + doubled_digit_sum(s[3]) + digit_value(s[4]) + doubled_digit_sum(s[5]));
    assert(luhn_sum(s.take(7), false) == digit_value(s[0]) + doubled_digit_sum(s[1]) + digit_value(s[2]) + doubled_digit_sum(s[3]) + digit_value(s[4]) + doubled_digit_sum(s[5]) + digit_value(s[6]));
    assert(luhn_sum(s.take(8), true) == digit_value(s[0]) + doubled_digit_sum(s[1]) + digit_value(s[2]) + doubled_digit_sum(s[3]) + digit_value(s[4]) + doubled_digit_sum(s[5]) + digit_value(s[6]) + doubled_digit_sum(s[7]));
    assert(luhn_sum(s.take(9), false) == digit_value(s[0]) + doubled_digit_sum(s[1]) + digit_value(s[2]) + doubled_digit_sum(s[3]) + digit_value(s[4]) + doubled_digit_sum(s[5]) + digit_value(s[6]) + doubled_digit_sum(s[7]) + digit_value(s[8]));
    assert(luhn_sum(s.take(10), true) == digit_value(s[0]) + doubled_digit_sum(s[1]) + digit_value(s[2]) + doubled_digit_sum(s[3]) + digit_value(s[4]) + doubled_digit_sum(s[5]) + digit_value(s[6]) + doubled_digit_sum(s[7]) + digit_value(s[8]) + doubled_digit_sum(s[9]));
    assert(luhn_sum(s.take(11), false) == digit_value(s[0]) + doubled_digit_sum(s[1]) + digit_value(s[2]) + doubled_digit_sum(s[3]) + digit_value(s[4]) + doubled_digit_sum(s[5]) + digit_value(s[6]) + doubled_digit_sum(s[7]) + digit_value(s[8]) + doubled_digit_sum(s[9]) + digit_value(s[10]));
    assert(luhn_sum(s.take(12), true) == digit_value(s[0]) + doubled_digit_sum(s[1]) + digit_value(s[2]) + doubled_digit_sum(s[3]) + digit_value(s[4]) + doubled_digit_sum(s[5]) + digit_value(s[6]) + doubled_digit_sum(s[7]) + digit_value(s[8]) + doubled_digit_sum(s[9]) + digit_value(s[10]) + doubled_digit_sum(s[11]));
    assert(luhn_sum(s.take(13), false) == digit_value(s[0]) + doubled_digit_sum(s[1]) + digit_value(s[2]) + doubled_digit_sum(s[3]) + digit_value(s[4]) + doubled_digit_sum(s[5]) + digit_value(s[6]) + doubled_digit_sum(s[7]) + digit_value(s[8]) + doubled_digit_sum(s[9]) + digit_value(s[10]) + doubled_digit_sum(s[11]) + digit_value(s[12]));
    assert(luhn_sum(s.take(14), true) == digit_value(s[0]) + doubled_digit_sum(s[1]) + digit_value(s[2]) + doubled_digit_sum(s[3]) + digit_value(s[4]) + doubled_digit_sum(s[5]) + digit_value(s[6]) + doubled_digit_sum(s[7]) + digit_value(s[8]) + doubled_digit_sum(s[9]) + digit_value(s[10]) + doubled_digit_sum(s[11]) + digit_value(s[12]) + doubled_digit_sum(s[13]));
    assert(luhn_sum(s.take(15), false) == digit_value(s[0]) + doubled_digit_sum(s[1]) + digit_value(s[2]) + doubled_digit_sum(s[3]) + digit_value(s[4]) + doubled_digit_sum(s[5]) + digit_value(s[6]) + doubled_digit_sum(s[7]) + digit_value(s[8]) + doubled_digit_sum(s[9]) + digit_value(s[10]) + doubled_digit_sum(s[11]) + digit_value(s[12]) + doubled_digit_sum(s[13]) + digit_value(s[14]));
    assert(s.take(15) == s);
}

/// The Luhn check digit that completes a 14-digit body.
pub open spec fn check_digit(body: Seq<char>) -> char {
    digit_char((10 - luhn_sum(body, true) % 10) % 10)
}

/// Every 14-digit body has exactly one check digit: appending it gives a
/// string that passes the Luhn check, and no other digit does.
pub proof fn luhn_check_digit_exists_and_is_unique(body: Seq<char>)
    requires
        body.len() == 14,
        all_digits(body),
    ensures
        is_digit_char(check_digit(body)),
        luhn_ok(body.push(check_digit(body))),
        forall|c: char| is_digit_char(c) && #[trigger] luhn_ok(body.push(c)) ==> c == check_digit(body),
{
    let k = check_digit(body);
    let v = (10 - luhn_sum(body, true) % 10) % 10;
    assert(0 <= v <= 9);
    assert(digit_value(k) == v);
    assert(is_digit_char(k));
    assert forall|c: char| is_digit_char(c) implies luhn_sum(body.push(c), false) == digit_value(c)
        + luhn_sum(body, true) by {
        assert(body.push(c).drop_last() == body);
    }
    assert forall|c: char| is_digit_char(c) implies digits_of(#[trigger] body.push(c)) == body.push(
        c,
    ) by {
        assert(all_digits(body.push(c))) by {
            assert forall|j: int| 0 <= j < body.push(c).len() implies #[trigger] is_digit_char(
                body.push(c)[j],
            ) by {
                if j < 14 {
                    assert(is_digit_char(body[j]));
                }
            }
        }
        lemma_digits_of_all_digits(body.push(c));
    }
    assert(digits_of(body.push(k)) == body.push(k));
    assert forall|c: char| is_digit_char(c) && #[trigger] luhn_ok(body.push(c)) implies c == k by {
        assert(digits_of(body.push(c)) == body.push(c));
        assert(digit_value(c) == digit_value(k));
    }
}

} // verus!
