//! Renders a signed time difference as short text such as `+1:02:03.4` or `−45.2`.
//!
//! A [`delta::Delta`] holds the settings, takes a [`time_span::TimeSpan`] or the
//! lack of one, and hands out a request whose `to_string` gives the text. What
//! that text is, character by character, is laid down in [`text`], on top of the
//! seconds field in [`seconds`] and the digits of numbers in [`decimal`].

pub mod accuracy;
pub mod decimal;
pub mod delta;
pub mod seconds;
pub mod text;
pub mod time_span;
