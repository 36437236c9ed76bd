//! Broken-down time: the calendar reading of one instant as a flat record of
//! ten components, in the slot order
//! `[sec, min, hour, day, month, year, wday, yday, isdst, zone]`.
//!
//! [`ToA`] is the record. It is built from anything that offers the ten
//! readings of a [`TimeSource`], of which [`Time`] is the plain one, and it
//! hands its components out by name or, with [`ToA::to_tuple`], by position.
//! Building a record computes nothing and checks nothing: each reading goes
//! into its slot as the source gave it.

pub mod calendar;
pub mod offset;
pub mod source;
pub mod to_a;

pub use offset::UtcOffset;
pub use source::{Time, TimeSource};
pub use to_a::ToA;
