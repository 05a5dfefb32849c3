//! How many fractional digits of a second are shown.

use vstd::prelude::*;

verus! {

/// The precision of the seconds field when decimals are kept.
#[derive(Clone, Copy, Debug, PartialEq, Eq, Structural)]
pub enum Accuracy {
    /// Whole seconds, no fractional digit.
    Seconds,
    /// One fractional digit.
    Tenths,
    /// Two fractional digits.
    Hundredths,
}

} // verus!
