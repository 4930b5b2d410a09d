//! What the terminal shows: ages in words and the lines of a lookup result.

use vstd::prelude::*;

use crate::imei::{all_digits, LookupResult};
use crate::laws::decimal_renders_value;
use crate::text::{decimal, decimal_value, push_decimal};

verus! {

pub const SECS_PER_MINUTE: u64 = 60;

pub const SECS_PER_HOUR: u64 = 3600;

pub const SECS_PER_DAY: u64 = 86400;

// ─── Ages ──────────────────────────────────────────────────────────────────────

/// An age rounded down to whole minutes, hours or days.
#[derive(Debug, Clone, Copy, PartialEq, Eq, Structural)]
pub enum AgeLabel {
    Minutes(u64),
    Hours(u64),
    Days(u64),
}

/// An age in seconds in the largest unit that keeps it under an hour in
/// minutes, under a day in hours, and in days beyond.
pub open spec fn age_label_of(age: u64) -> AgeLabel {
    if age < SECS_PER_HOUR {
        AgeLabel::Minutes(age / SECS_PER_MINUTE)
    } else if age < SECS_PER_DAY {
        AgeLabel::Hours(age / SECS_PER_HOUR)
    } else {
        AgeLabel::Days(age / SECS_PER_DAY)
    }
}

/// `now - then`, or 0 when `then` lies in the future.
pub open spec fn elapsed(now: u64, then: u64) -> u64 {
    if now >= then {
        (now - then) as u64
    } else {
        0
    }
}

/// How long ago `updated_at` was, seen at `now` (both UNIX seconds).
pub fn age_label(now: u64, updated_at: u64) -> (l: AgeLabel)
    ensures
        l == age_label_of(elapsed(now, updated_at)),
{
    let age = now.saturating_sub(updated_at);
    if age < SECS_PER_HOUR {
        AgeLabel::Minutes(age / SECS_PER_MINUTE)
    } else if age < SECS_PER_DAY {
        AgeLabel::Hours(age / SECS_PER_HOUR)
    } else {
        AgeLabel::Days(age / SECS_PER_DAY)
    }
}

/// The text of an age label, such as "3 hour(s) ago".
pub open spec fn age_text(l: AgeLabel) -> Seq<char> {
    match l {
        AgeLabel::Minutes(n) => decimal(n as nat) + " minute(s) ago"@,
        AgeLabel::Hours(n) => decimal(n as nat) + " hour(s) ago"@,
        AgeLabel::Days(n) => decimal(n as nat) + " day(s) ago"@,
    }
}

impl AgeLabel {
    /// The label in words, such as "3 hour(s) ago".
    pub fn text(&self) -> (s: String)
        ensures
            s@ == age_text(*self),
    {
        let mut s = String::new();
        match self {
            AgeLabel::Minutes(n) => {
                push_decimal(&mut s, *n);
                s.append(" minute(s) ago");
            },
            AgeLabel::Hours(n) => {
                push_decimal(&mut s, *n);
                s.append(" hour(s) ago");
            },
            AgeLabel::Days(n) => {
                push_decimal(&mut s, *n);
                s.append(" day(s) ago");
            },
        }
        assert(Seq::<char>::empty() + decimal(self.amount() as nat) == decimal(self.amount() as nat));
        s
    }

    /// The number the label shows.
    pub open spec fn amount(self) -> u64 {
        match self {
            AgeLabel::Minutes(n) => n,
            AgeLabel::Hours(n) => n,
            AgeLabel::Days(n) => n,
        }
    }

    /// The length in seconds of the label's unit.
    pub open spec fn unit_secs(self) -> int {
        match self {
            AgeLabel::Minutes(_) => SECS_PER_MINUTE as int,
            AgeLabel::Hours(_) => SECS_PER_HOUR as int,
            AgeLabel::Days(_) => SECS_PER_DAY as int,
        }
    }
}

/// Whole days in an age given in seconds.
pub fn days_old(age_secs: u64) -> (d: u64)
    ensures
        d == age_secs / SECS_PER_DAY,
{
    age_secs / SECS_PER_DAY
}

/// An age label never overstates nor understates by a whole unit: the age
/// lies in `[n * unit, (n + 1) * unit)` for the amount `n` shown, and the
/// unit is the largest of minute, hour and day that does not exceed the age
/// (minutes below one hour).
pub proof fn age_label_is_floor(age: u64)
    ensures
        age_label_of(age).amount() * age_label_of(age).unit_secs() <= age,
        age < (age_label_of(age).amount() + 1) * age_label_of(age).unit_secs(),
        age_label_of(age) is Minutes <==> age < SECS_PER_HOUR,
        age_label_of(age) is Days <==> age >= SECS_PER_DAY,
{
    let l = age_label_of(age);
    let u = l.unit_secs();
    let n = l.amount() as int;
    assert(n == age as int / u);
    assert(u > 0);
    assert(n * u <= age < (n + 1) * u) by (nonlinear_arith)
        requires
            n == age as int / u,
            u > 0,
    ;
}

/// How long ago an update was: when `then` is not in the future the elapsed
/// time is the whole difference (`then + elapsed == now`), otherwise 0; the
/// label gives that time floored to whole minutes below an hour, whole hours
/// below a day, and whole days from a day on.
pub proof fn age_label_measures_time_since(now: u64, then: u64)
    ensures
        now >= then ==> then + elapsed(now, then) == now,
        now < then ==> elapsed(now, then) == 0,
        ({
            let e = elapsed(now, then) as int;
            match age_label_of(elapsed(now, then)) {
                AgeLabel::Minutes(n) => e < 3600 && n * 60 <= e < (n + 1) * 60,
                AgeLabel::Hours(n) => 3600 <= e < 86400 && n * 3600 <= e < (n + 1) * 3600,
                AgeLabel::Days(n) => 86400 <= e && n * 86400 <= e < (n + 1) * 86400,
            }
        }),
{
    age_label_is_floor(elapsed(now, then));
}

/// The words of an age label are the number it holds, written in decimal
/// digits (no leading zero), followed by the unit: reading the leading
/// digits back gives the label's amount.
pub proof fn age_text_reads_back_as_amount(l: AgeLabel)
    ensures
        ({
            let t = age_text(l);
            let (n, unit) = match l {
                AgeLabel::Minutes(n) => (n, " minute(s) ago"@),
                AgeLabel::Hours(n) => (n, " hour(s) ago"@),
                AgeLabel::Days(n) => (n, " day(s) ago"@),
            };
            let k = t.len() - unit.len();
            &&& k >= 1
            &&& t.skip(k) == unit
            &&& all_digits(t.take(k))
            &&& decimal_value(t.take(k)) == n
            &&& (n > 0 ==> t[0] != '0')
        }),
{
    let n = l.amount();
    decimal_renders_value(n as nat);
    let d = decimal(n as nat);
    let unit = match l {
        AgeLabel::Minutes(_) => " minute(s) ago"@,
        AgeLabel::Hours(_) => " hour(s) ago"@,
        AgeLabel::Days(_) => " day(s) ago"@,
    };
    let t = age_text(l);
    assert(t == d + unit);
    assert(t.take(d.len() as int) == d);
    assert(t.skip(d.len() as int) == unit);
    assert(t[0] == d[0]);
}

// ─── Lookup results ────────────────────────────────────────────────────────────

/// The Luhn line of a displayed result.
#[derive(Debug)]
pub enum LuhnLine {
    /// Validation was skipped for a full IMEI.
    Skipped,
    /// A full IMEI passed.
    Valid,
    /// The result failed, with this message.
    Failed(String),
    /// No Luhn line.
    Hidden,
}

/// The device line of a displayed result.
#[derive(Debug, Clone, Copy, PartialEq, Eq, Structural)]
pub enum DeviceLine {
    /// Brand and model of the matched device (followed by its date and
    /// PhoneArena page where the record has them).
    Found,
    /// The TAC is not in the local database.
    NotFound,
    /// No device line.
    Hidden,
}

/// The lines shown for one lookup result.
#[derive(Debug)]
pub struct ResultView {
    /// The IMEI is shown as valid (green) rather than invalid (red).
    pub imei_valid: bool,
    /// A TAC line is shown.
    pub show_tac: bool,
    pub luhn: LuhnLine,
    pub device: DeviceLine,
    /// A `Date:` line is shown under the matched device.
    pub show_date: bool,
    /// A `PA:` (PhoneArena) line is shown under the matched device.
    pub show_phonearena: bool,
}

/// The length in bytes of the UTF-8 encoding of `s`, as `str::len` reports it.
pub open spec fn utf8_len(s: Seq<char>) -> usize {
    vstd::utf8::encode_utf8(s).len() as usize
}

/// Decide the lines that show `result`; `no_validate` is set when Luhn
/// validation was skipped for the batch.
pub fn result_view(result: &LookupResult, no_validate: bool) -> (v: ResultView)
    ensures
        v.imei_valid == result.valid,
        v.show_tac == (result.tac@.len() != 0),
        no_validate && result.is_full_imei ==> v.luhn is Skipped,
        !(no_validate && result.is_full_imei) && result.valid ==> (if utf8_len(result.imei@) == 15 {
            v.luhn is Valid
        } else {
            v.luhn is Hidden
        }),
        !(no_validate && result.is_full_imei) && !result.valid ==> match result.validation_error {
            Some(e) => v.luhn matches LuhnLine::Failed(m) && m@ == e@,
            None => v.luhn is Hidden,
        },
        v.device == (if result.device is Some {
            DeviceLine::Found
        } else if result.tac@.len() != 0 {
            DeviceLine::NotFound
        } else {
            DeviceLine::Hidden
        }),
        v.show_date == (result.device matches Some(rec) && rec.date is Some),
        v.show_phonearena == (result.device matches Some(rec) && rec.phonearena is Some),
{
    let show_tac = !result.tac.as_str().is_empty();
    let luhn = if no_validate && result.is_full_imei {
        LuhnLine::Skipped
    } else if result.valid {
        if result.imei.as_str().len() == 15 {
            LuhnLine::Valid
        } else {
            LuhnLine::Hidden
        }
    } else {
        match &result.validation_error {
            Some(err) => LuhnLine::Failed(err.clone()),
            None => LuhnLine::Hidden,
        }
    };
    let (device, show_date, show_phonearena) = match &result.device {
        Some(rec) => (DeviceLine::Found, rec.date.is_some(), rec.phonearena.is_some()),
        None => if show_tac {
            (DeviceLine::NotFound, false, false)
        } else {
            (DeviceLine::Hidden, false, false)
        },
    };
    ResultView { imei_valid: result.valid, show_tac, luhn, device, show_date, show_phonearena }
}

} // verus!
