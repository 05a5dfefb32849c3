//! The delta formatter: a signed duration as text with a sign in front, such as
//! `+1:02:03.4`, `+45.2` or `−3:07`, and a dash where there is no duration.

use crate::accuracy::Accuracy;
use crate::decimal::{append_decimal, append_zero_padded};
use crate::seconds::append_seconds;
use crate::text::{
    absent_text, delta_text, leading_unit_count, leading_units, lemma_colons_follow_magnitude,
    lemma_text_starts_with_sign, lemma_units_ignore_settings, occurrences, sign_glyph, Request,
    Settings,
};
use crate::time_span::{TimeSpan, MICROS_PER_MINUTE};
use vstd::math::abs;
use vstd::prelude::*;
use vstd::string::*;

verus! {

/// A formatter for time differences. It holds two settings: whether decimals are
/// dropped, and the accuracy of the seconds where they are not.
#[derive(Clone, Copy, Debug)]
pub struct Delta {
    drop_decimals: bool,
    accuracy: Accuracy,
}

/// A duration, or the lack of one, together with the settings of the formatter
/// that took it. `to_string` gives its text.
#[derive(Clone, Copy, Debug)]
pub struct Inner {
    time: Option<TimeSpan>,
    drop_decimals: bool,
    accuracy: Accuracy,
}

impl View for Delta {
    type V = Settings;

    closed spec fn view(&self) -> Settings {
        Settings { drop_decimals: self.drop_decimals, accuracy: self.accuracy }
    }
}

impl View for Inner {
    type V = Request;

    closed spec fn view(&self) -> Request {
        Request {
            time: match self.time {
                Some(span) => Some(span@),
                None => None,
            },
            settings: Settings { drop_decimals: self.drop_decimals, accuracy: self.accuracy },
        }
    }
}

impl Delta {
    /// The default formatter: it drops decimals, with an accuracy of tenths.
    pub fn new() -> (formatter: Delta)
        ensures
            formatter@ == (Settings { drop_decimals: true, accuracy: Accuracy::Tenths }),
    {
        Delta { drop_decimals: true, accuracy: Accuracy::Tenths }
    }

    /// A formatter that drops decimals, with an accuracy of tenths. These are the
    /// settings of `new` as well.
    pub fn with_decimal_dropping() -> (formatter: Delta)
        ensures
            formatter@ == (Settings { drop_decimals: true, accuracy: Accuracy::Tenths }),
    {
        Delta { drop_decimals: true, accuracy: Accuracy::Tenths }
    }

    /// A formatter with the settings given.
    pub fn custom(drop_decimals: bool, accuracy: Accuracy) -> (formatter: Delta)
        ensures
            formatter@ == (Settings { drop_decimals, accuracy }),
    {
        Delta { drop_decimals, accuracy }
    }

    /// Takes a duration, or `None` where there is none, for rendering with this
    /// formatter's settings.
    pub fn format(&self, time: Option<TimeSpan>) -> (request: Inner)
        ensures
            request@.settings == self@,
            request@.time == match time {
                Some(span) => Some(span@),
                None => None,
            },
    {
        Inner { time, drop_decimals: self.drop_decimals, accuracy: self.accuracy }
    }
}

impl Default for Delta {
    /// The formatter that `new` gives.
    fn default() -> (formatter: Delta)
        ensures
            formatter@ == (Settings { drop_decimals: true, accuracy: Accuracy::Tenths }),
    {
        Delta { drop_decimals: true, accuracy: Accuracy::Tenths }
    }
}

impl Inner {
    /// Renders the request.
    ///
    /// A missing duration gives the dash alone. Any other text starts with the
    /// sign of the duration: the minus sign for a negative one, a plus for zero
    /// and above. Rounding stays within the seconds field: the text has as many
    /// colons as the duration has units above the second before anything is
    /// rounded, and its sign, hours and minutes are those of the full minutes that
    /// the duration holds.
    pub fn to_string(&self) -> (text: String)
        ensures
            text@ == delta_text(self@),
            self@.time is None ==> text@ == absent_text(),
            self@.time matches Some(micros) ==> text@.len() >= 2 && text@[0] == sign_glyph(
                micros,
            ),
            self@.time matches Some(micros) ==> occurrences(text@, ':') == leading_unit_count(
                abs(micros),
            ),
            self@.time matches Some(micros) ==> (seq![sign_glyph(micros)] + leading_units(
                abs(micros) / (MICROS_PER_MINUTE as nat),
            )).is_prefix_of(text@),
    {
        match self.time {
            None => {
                proof {
                    reveal_strlit("—");
                }
                String::from_str("—")
            },
            Some(span) => {
                let shown = if self.drop_decimals {
                    Accuracy::Seconds
                } else {
                    self.accuracy
                };
                let magnitude = span.magnitude();
                let whole_minutes = magnitude / MICROS_PER_MINUTE;
                let mut text = String::new();
                proof {
                    reveal_strlit("−");
                    reveal_strlit("+");
                }
                if span.is_negative() {
                    text.append("−");
                } else {
                    text.append("+");
                }
                append_leading_units(&mut text, whole_minutes);
                append_seconds(&mut text, magnitude % MICROS_PER_MINUTE, shown, whole_minutes > 0);
                proof {
                    lemma_text_starts_with_sign(span@, self@.settings);
                    lemma_colons_follow_magnitude(span@, self@.settings);
                    lemma_units_ignore_settings(span@, self@.settings);
                }
                text
            },
        }
    }
}

/// Appends what stands in front of the seconds of a duration of `whole_minutes`
/// full minutes: its hours and minutes as far as it has them, each with a colon.
pub fn append_leading_units(out: &mut String, whole_minutes: u64)
    ensures
        final(out)@ == old(out)@ + leading_units(whole_minutes as nat),
{
    let hours = whole_minutes / 60;
    let minutes = whole_minutes % 60;
    proof {
        reveal_strlit(":");
    }
    if hours > 0 {
        append_decimal(out, hours);
        out.append(":");
        append_zero_padded(out, minutes, 2);
        out.append(":");
    } else if minutes > 0 {
        append_decimal(out, minutes);
        out.append(":");
    }
}

/// Rendering has no state of its own: two requests that hold the same duration
/// and the same settings have the same text.
pub proof fn lemma_same_request_same_text(a: Inner, b: Inner)
    requires
        a@ == b@,
    ensures
        delta_text(a@) == delta_text(b@),
{
}

} // verus!
