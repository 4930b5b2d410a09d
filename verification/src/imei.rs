//! IMEI and TAC parsing, Luhn validation, and the data of one lookup.

use vstd::prelude::*;

use crate::db::TacRecord;
use crate::laws::decimal_renders_value;
use crate::text::{decimal, decimal_value, push_decimal, string_from_prefix};

verus! {

// ─── Digits ────────────────────────────────────────────────────────────────────

/// An ASCII decimal digit, `'0'` through `'9'`.
pub open spec fn is_digit_char(c: char) -> bool {
    '0' <= c && c <= '9'
}

/// The numeric value of a digit character.
pub open spec fn digit_value(c: char) -> int {
    c as int - '0' as int
}

/// Every character of `s` is a decimal digit.
pub open spec fn all_digits(s: Seq<char>) -> bool {
    forall|i: int| 0 <= i < s.len() ==> #[trigger] is_digit_char(s[i])
}

/// The decimal digits of `s` in order, every other character dropped.
pub open spec fn digits_of(s: Seq<char>) -> Seq<char>
    decreases s.len(),
{
    if s.len() == 0 {
        Seq::empty()
    } else {
        let rest = digits_of(s.drop_last());
        if is_digit_char(s.last()) {
            rest.push(s.last())
        } else {
            rest
        }
    }
}

/// Length of a bare TAC.
pub const TAC_LEN: usize = 8;

/// Length of a full IMEI.
pub const IMEI_LEN: usize = 15;

/// The digits of `input`, in order.
pub fn digit_chars(input: &str) -> (out: Vec<char>)
    ensures
        out@ == digits_of(input@),
{
    let mut out: Vec<char> = Vec::new();
    for c in it: input.chars()
        invariant
            it.seq() == input@,
            out@ == digits_of(input@.take(it.index() as int)),
    {
        assert(input@.take(it.index() + 1).drop_last() == input@.take(it.index() as int));
        if '0' <= c && c <= '9' {
            out.push(c);
        }
    }
    assert(input@.take(input@.len() as int) == input@);
    out
}

// ─── Types ─────────────────────────────────────────────────────────────────────

/// A parsed and validated IMEI or TAC input.
#[derive(Debug)]
pub struct ParsedImei {
    /// The 8-digit Type Allocation Code (first 8 digits of the IMEI).
    pub tac: String,
    /// The full normalized digit string — either 15 digits (IMEI) or 8 (TAC-only).
    pub normalized: String,
    /// Whether this was a full 15-digit IMEI (as opposed to a bare TAC).
    pub is_full_imei: bool,
}

/// Why an input could not be parsed.
#[derive(Debug, Clone, Copy, PartialEq, Eq, Structural)]
pub enum ImeiError {
    /// The input held neither 8 nor 15 digits; `found` is how many it held.
    DigitCount { found: usize },
}

/// The text of an error: "Expected a 15-digit IMEI or 8-digit TAC, got N digits".
pub open spec fn error_text(e: ImeiError) -> Seq<char> {
    match e {
        ImeiError::DigitCount { found } =>
            "Expected a 15-digit IMEI or 8-digit TAC, got "@ + decimal(found as nat) + " digits"@,
    }
}

impl ImeiError {
    /// The error's text, as shown to the user.
    pub fn message(&self) -> (m: String)
        ensures
            m@ == error_text(*self),
    {
        match self {
            ImeiError::DigitCount { found } => {
                let mut m = "Expected a 15-digit IMEI or 8-digit TAC, got ".to_owned();
                push_decimal(&mut m, *found as u64);
                m.append(" digits");
                m
            },
        }
    }
}

/// Result of a single IMEI/TAC lookup, ready for display or serialisation.
#[derive(Debug)]
pub struct LookupResult {
    pub imei: String,
    pub tac: String,
    /// `true` if the input was a bare TAC, Luhn passed, or validation was skipped.
    pub valid: bool,
    pub is_full_imei: bool,
    pub validation_error: Option<String>,
    pub device: Option<TacRecord>,
}

// ─── Parsing ───────────────────────────────────────────────────────────────────

/// The input holds exactly 8 digits (a bare TAC) or 15 (a full IMEI).
pub open spec fn has_valid_length(s: Seq<char>) -> bool {
    digits_of(s).len() == 8 || digits_of(s).len() == 15
}

/// Strip non-digit characters and return a `ParsedImei`, or an error if the
/// length is not 8 (bare TAC) or 15 (full IMEI).
pub fn parse(input: &str) -> (r: Result<ParsedImei, ImeiError>)
    ensures
        r is Ok <==> has_valid_length(input@),
        r matches Ok(p) ==> {
            &&& p.normalized@ == digits_of(input@)
            &&& p.tac@ == digits_of(input@).take(8)
            &&& p.is_full_imei == (digits_of(input@).len() == 15)
        },
        r matches Err(e) ==> e == (ImeiError::DigitCount { found: digits_of(input@).len() as usize }),
{
    let digits = digit_chars(input);
    let n = digits.len();
    if n == TAC_LEN || n == IMEI_LEN {
        let tac = string_from_prefix(&digits, TAC_LEN);
        let normalized = string_from_prefix(&digits, n);
        assert(digits@.take(n as int) == digits@);
        Ok(ParsedImei { tac, normalized, is_full_imei: n == IMEI_LEN })
    } else {
        Err(ImeiError::DigitCount { found: n })
    }
}

// ─── Luhn validation ───────────────────────────────────────────────────────────

/// What one digit contributes to the Luhn sum: its value, or, at a doubled
/// position, twice its value with 9 taken off when that exceeds 9.
pub open spec fn luhn_term(d: int, doubled: bool) -> int {
    if doubled {
        if 2 * d > 9 {
            2 * d - 9
        } else {
            2 * d
        }
    } else {
        d
    }
}

/// The Luhn sum of a digit sequence, counted from its rightmost digit, which is
/// doubled exactly when `doubled` holds; positions alternate from there.
pub open spec fn luhn_sum(ds: Seq<char>, doubled: bool) -> int
    decreases ds.len(),
{
    if ds.len() == 0 {
        0
    } else {
        luhn_term(digit_value(ds.last()), doubled) + luhn_sum(ds.drop_last(), !doubled)
    }
}

/// The digits of `s` are exactly 15 and their Luhn sum (rightmost digit not
/// doubled) is a multiple of 10.
pub open spec fn luhn_ok(s: Seq<char>) -> bool {
    digits_of(s).len() == 15 && luhn_sum(digits_of(s), false) % 10 == 0
}

/// The value of a digit character.
fn digit_of(c: char) -> (d: u32)
    requires
        is_digit_char(c),
    ensures
        d as int == digit_value(c),
        d <= 9,
{
    (c as u32) - ('0' as u32)
}

/// Returns `true` if `imei` (exactly 15 digits) passes the Luhn check.
pub fn luhn_valid(imei: &str) -> (r: bool)
    ensures
        r == luhn_ok(imei@),
{
    let digits = digit_chars(imei);
    proof { lemma_digits_of_all_digits_out(imei@); }
    if digits.len() != IMEI_LEN {
        return false;
    }
    let mut sum: u32 = 0;
    let mut i: usize = 0;
    while i < IMEI_LEN
        invariant
            i <= IMEI_LEN,
            digits@ == digits_of(imei@),
            digits@.len() == IMEI_LEN,
            all_digits(digits@),
            sum as int == luhn_sum(digits@.take(i as int), (IMEI_LEN - i) % 2 == 1),
            sum <= 9 * i,
        decreases IMEI_LEN - i,
    {
        let d = digit_of(digits[i]);
        let doubled = (IMEI_LEN - 1 - i) % 2 == 1;
        let term = if doubled {
            let twice = d * 2;
            if twice > 9 { twice - 9 } else { twice }
        } else {
            d
        };
        assert(digits@.take(i + 1).drop_last() == digits@.take(i as int));
        sum = sum + term;
        i = i + 1;
    }
    assert(digits@.take(IMEI_LEN as int) == digits@);
    sum.is_multiple_of(10)
}

// ─── High-level lookup ─────────────────────────────────────────────────────────

/// The text recorded when a full IMEI fails the Luhn check.
pub open spec fn luhn_failed_text() -> Seq<char> {
    "Luhn check failed — IMEI may be invalid"@
}

/// Parse `input` and optionally validate it via Luhn. Parse and validation
/// errors are embedded in the result rather than propagated, so a batch of
/// IMEIs can accumulate results gracefully. The device is left empty: the
/// caller fills it from the local database for every input that parsed
/// (those with a non-empty `tac`).
pub fn lookup(input: &str, skip_luhn: bool) -> (r: LookupResult)
    ensures
        r.device is None,
        r.valid <==> r.validation_error is None,
        has_valid_length(input@) ==> {
            &&& r.imei@ == digits_of(input@)
            &&& r.tac@ == digits_of(input@).take(8)
            &&& r.is_full_imei == (digits_of(input@).len() == 15)
            &&& r.valid == (!r.is_full_imei || skip_luhn || luhn_ok(input@))
            &&& r.valid ==> r.validation_error is None
            &&& !r.valid ==> (r.validation_error matches Some(m) && m@ == luhn_failed_text())
        },
        !has_valid_length(input@) ==> {
            &&& r.imei@ == input@
            &&& r.tac@.len() == 0
            &&& !r.valid
            &&& r.is_full_imei
            &&& r.validation_error matches Some(m) && m@ == error_text(
                ImeiError::DigitCount { found: digits_of(input@).len() as usize },
            )
        },
{
    let parsed = match parse(input) {
        Ok(p) => p,
        Err(e) => {
            return LookupResult {
                imei: input.to_owned(),
                tac: String::new(),
                valid: false,
                is_full_imei: true,
                validation_error: Some(e.message()),
                device: None,
            };
        },
    };
    let (valid, validation_error) = if parsed.is_full_imei && !skip_luhn {
        let ok = luhn_valid(parsed.normalized.as_str());
        proof { lemma_digits_of_idempotent(input@); }
        if ok {
            (true, None)
        } else {
            (false, Some("Luhn check failed — IMEI may be invalid".to_owned()))
        }
    } else {
        (true, None)
    };
    LookupResult {
        imei: parsed.normalized,
        tac: parsed.tac,
        valid,
        is_full_imei: parsed.is_full_imei,
        validation_error,
        device: None,
    }
}

/// The text of a length error names the digit count that was found: after
/// the fixed opening come the decimal digits of the count (no leading zero),
/// which read back as the count, and then " digits".
pub proof fn error_text_reads_back_count(found: usize)
    ensures
        ({
            let t = error_text(ImeiError::DigitCount { found });
            let head = "Expected a 15-digit IMEI or 8-digit TAC, got "@;
            let tail = " digits"@;
            let k = t.len() - tail.len();
            &&& k > head.len()
            &&& t.take(head.len() as int) == head
            &&& t.skip(k) == tail
            &&& all_digits(t.subrange(head.len() as int, k))
            &&& decimal_value(t.subrange(head.len() as int, k)) == found
            &&& (found > 0 ==> t[head.len() as int] != '0')
        }),
{
    let head = "Expected a 15-digit IMEI or 8-digit TAC, got "@;
    let tail = " digits"@;
    let d = decimal(found as nat);
    decimal_renders_value(found as nat);
    let t = error_text(ImeiError::DigitCount { found });
    assert(t == head + d + tail);
    assert(t.take(head.len() as int) == head);
    assert(t.skip(t.len() - tail.len()) == tail);
    assert(t.subrange(head.len() as int, t.len() - tail.len()) == d);
    assert(t[head.len() as int] == d[0]);
}

// ─── Lemmas on digits ──────────────────────────────────────────────────────────

/// The digits of any string are all digits, and no more than its characters.
pub proof fn lemma_digits_of_all_digits_out(s: Seq<char>)
    ensures
        all_digits(digits_of(s)),
        digits_of(s).len() <= s.len(),
    decreases s.len(),
{
    if s.len() > 0 {
        lemma_digits_of_all_digits_out(s.drop_last());
    }
}

/// A string of digits only is its own digit sequence.
pub proof fn lemma_digits_of_all_digits(s: Seq<char>)
    requires
        all_digits(s),
    ensures
        digits_of(s) == s,
    decreases s.len(),
{
    if s.len() > 0 {
        assert(all_digits(s.drop_last())) by {
            assert forall|i: int| 0 <= i < s.drop_last().len() implies #[trigger] is_digit_char(
                s.drop_last()[i],
            ) by {
                assert(is_digit_char(s[i]));
            }
        }
        lemma_digits_of_all_digits(s.drop_last());
        assert(is_digit_char(s[s.len() - 1]));
        assert(s.drop_last().push(s.last()) == s);
    }
}

/// Taking the digits twice gives what taking them once gives.
pub proof fn lemma_digits_of_idempotent(s: Seq<char>)
    ensures
        digits_of(digits_of(s)) == digits_of(s),
{
    lemma_digits_of_all_digits_out(s);
    lemma_digits_of_all_digits(digits_of(s));
}

} // verus!
