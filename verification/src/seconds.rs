//! The seconds field of a rendered duration: whole seconds, or seconds with one
//! or two fractional digits.

use crate::accuracy::Accuracy;
use crate::decimal::{
    append_decimal, append_zero_padded, decimal, is_digit, lemma_decimal_is_digits,
    lemma_decimal_len, lemma_zero_padded_is_digits, lemma_zero_padded_len, zero_padded,
};
use crate::time_span::{MICROS_PER_MINUTE, MICROS_PER_SECOND};
use vstd::arithmetic::div_mod::lemma_fundamental_div_mod;
use vstd::math::abs;
use vstd::prelude::*;
use vstd::string::*;

verus! {

/// Microseconds in a tenth of a second.
pub const MICROS_PER_TENTH: u64 = 100_000;

/// Microseconds in a hundredth of a second.
pub const MICROS_PER_HUNDREDTH: u64 = 10_000;

/// `value` counted in steps of `step`, rounded to the nearest whole step. A value
/// exactly halfway between two steps goes to the even one.
pub open spec fn nearest_step(value: nat, step: nat) -> nat {
    let below = value / step;
    let rest = value % step;
    if 2 * rest > step || (2 * rest == step && below % 2 == 1) {
        below + 1
    } else {
        below
    }
}

/// Rounding goes to the nearest step: the rounded count of steps lies at most
/// half a step from the value, and where it lies exactly half a step from it, the
/// count is even.
pub proof fn lemma_nearest_step_is_nearest(value: nat, step: nat)
    requires
        step > 0,
    ensures
        2 * abs(value - nearest_step(value, step) * step) <= step,
        2 * abs(value - nearest_step(value, step) * step) == step ==> nearest_step(value, step)
            % 2 == 0,
{
    let below = value / step;
    let rest = value % step;
    lemma_fundamental_div_mod(value as int, step as int);
    assert((below + 1) * step == below * step + step) by (nonlinear_arith);
    assert(step * below == below * step) by (nonlinear_arith);
}

/// The digits of a number of whole seconds: at least two of them with `padded`,
/// as they come without.
pub open spec fn whole_seconds_text(seconds: nat, padded: bool) -> Seq<char> {
    if padded {
        zero_padded(seconds, 2)
    } else {
        decimal(seconds)
    }
}

/// The seconds field for `micros` microseconds.
///
/// With an accuracy of seconds the field holds the whole seconds, and what goes
/// beyond them is cut off. With tenths or hundredths the microseconds are rounded
/// to that unit, and the field holds the whole seconds, a point, and one or two
/// fractional digits. With `padded` the whole seconds take at least two digits.
pub open spec fn seconds_text(micros: nat, accuracy: Accuracy, padded: bool) -> Seq<char> {
    match accuracy {
        Accuracy::Seconds => whole_seconds_text(micros / (MICROS_PER_SECOND as nat), padded),
        Accuracy::Tenths => {
            let tenths = nearest_step(micros, MICROS_PER_TENTH as nat);
            whole_seconds_text(tenths / 10, padded) + seq!['.'] + zero_padded(tenths % 10, 1)
        },
        Accuracy::Hundredths => {
            let hundredths = nearest_step(micros, MICROS_PER_HUNDREDTH as nat);
            whole_seconds_text(hundredths / 100, padded) + seq!['.'] + zero_padded(
                hundredths % 100,
                2,
            )
        },
    }
}

/// The seconds field is never empty.
pub proof fn lemma_seconds_text_len(micros: nat, accuracy: Accuracy, padded: bool)
    ensures
        seconds_text(micros, accuracy, padded).len() >= 1,
{
    lemma_decimal_len(micros / (MICROS_PER_SECOND as nat));
    lemma_decimal_len(nearest_step(micros, MICROS_PER_TENTH as nat) / 10);
    lemma_decimal_len(nearest_step(micros, MICROS_PER_HUNDREDTH as nat) / 100);
}

/// The seconds field holds decimal digits and at most a point, nothing else.
pub proof fn lemma_seconds_text_chars(micros: nat, accuracy: Accuracy, padded: bool)
    ensures
        forall|i: int|
            0 <= i < seconds_text(micros, accuracy, padded).len() ==> {
                let c = #[trigger] seconds_text(micros, accuracy, padded)[i];
                is_digit(c) || c == '.'
            },
{
    match accuracy {
        Accuracy::Seconds => {
            let seconds = micros / (MICROS_PER_SECOND as nat);
            lemma_decimal_is_digits(seconds);
            lemma_zero_padded_is_digits(seconds, 2);
        },
        Accuracy::Tenths => {
            let tenths = nearest_step(micros, MICROS_PER_TENTH as nat);
            lemma_decimal_is_digits(tenths / 10);
            lemma_zero_padded_is_digits(tenths / 10, 2);
            lemma_zero_padded_is_digits(tenths % 10, 1);
        },
        Accuracy::Hundredths => {
            let hundredths = nearest_step(micros, MICROS_PER_HUNDREDTH as nat);
            lemma_decimal_is_digits(hundredths / 100);
            lemma_zero_padded_is_digits(hundredths / 100, 2);
            lemma_zero_padded_is_digits(hundredths % 100, 2);
        },
    }
}

/// After hours or minutes the field of less than a minute has a fixed width: two
/// digits for whole seconds, four characters with tenths, five with hundredths.
/// The whole seconds fit their two digits also where the fraction rounds up to
/// sixty.
pub proof fn lemma_padded_seconds_width(micros: nat, accuracy: Accuracy)
    requires
        micros < MICROS_PER_MINUTE,
    ensures
        seconds_text(micros, accuracy, true).len() == match accuracy {
            Accuracy::Seconds => 2nat,
            Accuracy::Tenths => 4nat,
            Accuracy::Hundredths => 5nat,
        },
{
    match accuracy {
        Accuracy::Seconds => {
            let seconds = micros / (MICROS_PER_SECOND as nat);
            lemma_decimal_len(seconds);
            lemma_zero_padded_len(seconds, 2);
        },
        Accuracy::Tenths => {
            let tenths = nearest_step(micros, MICROS_PER_TENTH as nat);
            lemma_decimal_len(tenths / 10);
            lemma_zero_padded_len(tenths / 10, 2);
            lemma_decimal_len(tenths % 10);
            lemma_zero_padded_len(tenths % 10, 1);
        },
        Accuracy::Hundredths => {
            let hundredths = nearest_step(micros, MICROS_PER_HUNDREDTH as nat);
            lemma_decimal_len(hundredths / 100);
            lemma_zero_padded_len(hundredths / 100, 2);
            lemma_decimal_len(hundredths % 100);
            lemma_zero_padded_len(hundredths % 100, 2);
        },
    }
}

/// Counts `value` in steps of `step`, rounding to the nearest step and a tie to
/// the even one.
pub fn round_to_step(value: u64, step: u64) -> (steps: u64)
    requires
        step > 0,
    ensures
        steps == nearest_step(value as nat, step as nat),
{
    let below = value / step;
    let rest = value % step;
    // `rest > step - rest` says `2 * rest > step` without the doubling.
    if rest > step - rest || (rest == step - rest && below % 2 == 1) {
        assert(below <= u64::MAX / 2) by (nonlinear_arith)
            requires
                below == value / step,
                step >= 2,
                value <= u64::MAX,
        ;
        below + 1
    } else {
        below
    }
}

/// Appends a number of whole seconds to `out`, in at least two digits with
/// `padded`.
fn append_whole_seconds(out: &mut String, seconds: u64, padded: bool)
    ensures
        final(out)@ == old(out)@ + whole_seconds_text(seconds as nat, padded),
{
    if padded {
        append_zero_padded(out, seconds, 2);
    } else {
        append_decimal(out, seconds);
    }
}

/// Appends the seconds field for `micros` microseconds to `out`.
pub fn append_seconds(out: &mut String, micros: u64, accuracy: Accuracy, padded: bool)
    ensures
        final(out)@ == old(out)@ + seconds_text(micros as nat, accuracy, padded),
{
    proof {
        reveal_strlit(".");
    }
    match accuracy {
        Accuracy::Seconds => {
            append_whole_seconds(out, micros / MICROS_PER_SECOND, padded);
        },
        Accuracy::Tenths => {
            let tenths = round_to_step(micros, MICROS_PER_TENTH);
            append_whole_seconds(out, tenths / 10, padded);
            out.append(".");
            append_zero_padded(out, tenths % 10, 1);
        },
        Accuracy::Hundredths => {
            let hundredths = round_to_step(micros, MICROS_PER_HUNDREDTH);
            append_whole_seconds(out, hundredths / 100, padded);
            out.append(".");
            append_zero_padded(out, hundredths % 100, 2);
        },
    }
}

} // verus!
