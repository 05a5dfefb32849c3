//! What a delta reads like: the text of a signed duration, as a function of its
//! microseconds and the formatter's settings, and what holds of every such text.

use crate::accuracy::Accuracy;
use crate::decimal::{decimal, lemma_decimal_is_digits, lemma_zero_padded_is_digits, zero_padded};
use crate::seconds::{lemma_seconds_text_chars, lemma_seconds_text_len, seconds_text};
use crate::time_span::MICROS_PER_MINUTE;
use vstd::math::abs;
use vstd::multiset::axiom_count_le_len;
use vstd::prelude::*;
use vstd::seq_lib::{lemma_multiset_commutative, to_multiset_contains, to_multiset_len};

verus! {

/// The two settings of a formatter.
pub struct Settings {
    /// Whether whole seconds only are shown, whatever the accuracy.
    pub drop_decimals: bool,
    /// The accuracy of the seconds field where decimals are kept.
    pub accuracy: Accuracy,
}

/// What is to be rendered: a duration in microseconds, or none, and the settings
/// of the formatter that took it.
pub struct Request {
    /// The duration in microseconds, negative for one before the point of
    /// reference; `None` where there is no duration.
    pub time: Option<int>,
    /// The settings to render it with.
    pub settings: Settings,
}

impl Settings {
    /// The accuracy that is in effect: dropping decimals shows whole seconds,
    /// whatever the accuracy chosen.
    pub open spec fn shown_accuracy(self) -> Accuracy {
        if self.drop_decimals {
            Accuracy::Seconds
        } else {
            self.accuracy
        }
    }
}

/// The text that stands for a missing duration: a single em dash.
pub open spec fn absent_text() -> Seq<char> {
    seq!['\u{2014}']
}

/// The sign in front of a duration of `micros` microseconds: the minus sign
/// U+2212 for a negative one, a plus for zero and above.
pub open spec fn sign_glyph(micros: int) -> char {
    if micros < 0 {
        '\u{2212}'
    } else {
        '+'
    }
}

/// What stands between the sign and the seconds field, for a duration of
/// `whole_minutes` full minutes: hours and two-digit minutes from one hour on,
/// the minutes alone from one minute on, nothing below. Each number is followed
/// by a colon.
pub open spec fn leading_units(whole_minutes: nat) -> Seq<char> {
    let hours = whole_minutes / 60;
    let minutes = whole_minutes % 60;
    if hours > 0 {
        decimal(hours) + seq![':'] + zero_padded(minutes, 2) + seq![':']
    } else if minutes > 0 {
        decimal(minutes) + seq![':']
    } else {
        Seq::empty()
    }
}

/// The text of a duration of `micros` microseconds.
///
/// The hours and minutes are those of the full minutes that the duration holds.
/// Rounding touches the seconds field only: what is left after the full minutes
/// is rounded by itself and shown as it comes out, so the field can read `60.0`.
/// After hours or minutes the whole seconds are padded to two digits.
pub open spec fn duration_text(micros: int, settings: Settings) -> Seq<char> {
    let magnitude = abs(micros);
    let whole_minutes = magnitude / (MICROS_PER_MINUTE as nat);
    let rest = magnitude % (MICROS_PER_MINUTE as nat);
    seq![sign_glyph(micros)] + leading_units(whole_minutes) + seconds_text(
        rest,
        settings.shown_accuracy(),
        whole_minutes > 0,
    )
}

/// The text of a request: that of its duration, or the dash where it has none.
pub open spec fn delta_text(request: Request) -> Seq<char> {
    match request.time {
        None => absent_text(),
        Some(micros) => duration_text(micros, request.settings),
    }
}

/// How often `c` occurs in `text`.
pub open spec fn occurrences(text: Seq<char>, c: char) -> nat {
    text.to_multiset().count(c)
}

/// The number of units shown in front of the seconds: two, hours and minutes, from
/// one hour on; one, the minutes, from one minute on; none below.
pub open spec fn leading_unit_count(magnitude: nat) -> nat {
    if magnitude >= 60 * MICROS_PER_MINUTE {
        2
    } else if magnitude >= MICROS_PER_MINUTE {
        1
    } else {
        0
    }
}

/// The text of a duration starts with its sign, and something follows.
pub proof fn lemma_text_starts_with_sign(micros: int, settings: Settings)
    ensures
        duration_text(micros, settings).len() >= 2,
        duration_text(micros, settings)[0] == sign_glyph(micros),
{
    let magnitude = abs(micros);
    let whole_minutes = magnitude / (MICROS_PER_MINUTE as nat);
    let rest = magnitude % (MICROS_PER_MINUTE as nat);
    lemma_seconds_text_len(rest, settings.shown_accuracy(), whole_minutes > 0);
}

/// The sign, the hours and the minutes of a text are those of the duration cut
/// off to full minutes, under every setting: what the seconds field rounds up to
/// is never carried over into them.
pub proof fn lemma_units_ignore_settings(micros: int, settings: Settings)
    ensures
        (seq![sign_glyph(micros)] + leading_units(
            abs(micros) / (MICROS_PER_MINUTE as nat),
        )).is_prefix_of(duration_text(micros, settings)),
{
}

/// A character that stands nowhere in a text occurs in it zero times.
proof fn lemma_occurrences_none(text: Seq<char>, c: char)
    requires
        forall|i: int| 0 <= i < text.len() ==> text[i] != c,
    ensures
        occurrences(text, c) == 0,
{
    to_multiset_contains(text, c);
}

/// A text of one character holds that character once and no other.
proof fn lemma_occurrences_single(x: char, c: char)
    ensures
        occurrences(seq![x], c) == if x == c {
            1nat
        } else {
            0nat
        },
{
    let text = seq![x];
    to_multiset_contains(text, c);
    to_multiset_len(text);
    axiom_count_le_len(text.to_multiset(), c);
    if x == c {
        assert(text[0] == c);
    }
}

/// What occurs in a text made of two parts occurs in one of them.
proof fn lemma_occurrences_concat(a: Seq<char>, b: Seq<char>, c: char)
    ensures
        occurrences(a + b, c) == occurrences(a, c) + occurrences(b, c),
{
    lemma_multiset_commutative(a, b);
}

/// The units in front of the seconds hold one colon each.
proof fn lemma_leading_units_colons(whole_minutes: nat)
    ensures
        occurrences(leading_units(whole_minutes), ':') == if whole_minutes >= 60 {
            2nat
        } else if whole_minutes > 0 {
            1nat
        } else {
            0nat
        },
{
    let hours = whole_minutes / 60;
    let minutes = whole_minutes % 60;
    let colon = seq![':'];
    lemma_occurrences_single(':', ':');
    if hours > 0 {
        let h = decimal(hours);
        let m = zero_padded(minutes, 2);
        lemma_decimal_is_digits(hours);
        lemma_zero_padded_is_digits(minutes, 2);
        lemma_occurrences_none(h, ':');
        lemma_occurrences_none(m, ':');
        lemma_occurrences_concat(h, colon, ':');
        lemma_occurrences_concat(h + colon, m, ':');
        lemma_occurrences_concat(h + colon + m, colon, ':');
    } else if minutes > 0 {
        let m = decimal(minutes);
        lemma_decimal_is_digits(minutes);
        lemma_occurrences_none(m, ':');
        lemma_occurrences_concat(m, colon, ':');
    } else {
        lemma_occurrences_none(Seq::<char>::empty(), ':');
    }
}

/// Rounding never moves a duration into another tier. The text of a duration
/// holds one colon for each unit in front of the seconds, and how many those are
/// goes by the length of the duration as it is, before anything is rounded:
/// whatever the settings, and also where the seconds field rounds up to sixty.
pub proof fn lemma_colons_follow_magnitude(micros: int, settings: Settings)
    ensures
        occurrences(duration_text(micros, settings), ':') == leading_unit_count(abs(micros)),
{
    let magnitude = abs(micros);
    let whole_minutes = magnitude / (MICROS_PER_MINUTE as nat);
    let rest = magnitude % (MICROS_PER_MINUTE as nat);
    let sign = seq![sign_glyph(micros)];
    let units = leading_units(whole_minutes);
    let seconds = seconds_text(rest, settings.shown_accuracy(), whole_minutes > 0);
    lemma_occurrences_single(sign_glyph(micros), ':');
    lemma_leading_units_colons(whole_minutes);
    lemma_seconds_text_chars(rest, settings.shown_accuracy(), whole_minutes > 0);
    lemma_occurrences_none(seconds, ':');
    lemma_occurrences_concat(sign, units, ':');
    lemma_occurrences_concat(sign + units, seconds, ':');
}

/// Where decimals are dropped the accuracy has no say: the text is that of whole
/// seconds.
pub proof fn lemma_dropping_ignores_accuracy(micros: int, accuracy: Accuracy)
    ensures
        duration_text(micros, Settings { drop_decimals: true, accuracy }) == duration_text(
            micros,
            Settings { drop_decimals: false, accuracy: Accuracy::Seconds },
        ),
{
}

} // verus!
