use vstd::prelude::*;
use vstd::std_specs::convert::FromSpecImpl;
use crate::calendar::days_in_month;
use crate::offset::UtcOffset;
use crate::source::{Time, TimeSource};

verus! {

/// An instant broken down into ten components, for callers that take them by
/// position:
///
/// `[sec, min, hour, day, month, year, wday, yday, isdst, zone]`
///
/// A record is a plain value. It is built in one step from a [`TimeSource`],
/// holds copies of what the source read at that moment, and keeps no tie to
/// the source afterwards.
#[derive(Debug, Copy, Clone, Hash, PartialEq, Eq, Structural)]
pub struct ToA {
    /// Second of the minute, `0..=59`.
    pub sec: u8,
    /// Minute of the hour, `0..=59`.
    pub min: u8,
    /// Hour of the day, `0..=23`.
    pub hour: u8,
    /// Day of the month, `1..=n`.
    pub day: u8,
    /// Month of the year, `1..=12`.
    pub month: u8,
    /// The full year, century included.
    pub year: i32,
    /// Day of the week, `0..=6`, Sunday being 0.
    pub wday: u8,
    /// Day of the year, `1..=366`.
    pub yday: u16,
    /// Whether the instant falls in daylight saving time in its zone.
    pub isdst: bool,
    /// The offset from UTC in force at the instant.
    pub zone: UtcOffset,
}

impl ToA {
    /// How many components a record has.
    pub const ELEMENTS: usize = 10;

    /// The record of an instant: each reading in its slot, unchanged, and the
    /// raw offset made into a [`UtcOffset`].
    pub open spec fn of(time: Time) -> ToA {
        ToA {
            sec: time.second,
            min: time.minute,
            hour: time.hour,
            day: time.day,
            month: time.month,
            year: time.year,
            wday: time.day_of_week,
            yday: time.day_of_year,
            isdst: time.is_dst,
            zone: UtcOffset { seconds: time.utc_offset },
        }
    }

    /// Every component lies in its domain.
    pub open spec fn in_domain(self) -> bool {
        &&& self.sec <= 59
        &&& self.min <= 59
        &&& self.hour <= 23
        &&& 1 <= self.month <= 12
        &&& 1 <= self.day <= days_in_month(self.year as int, self.month as int)
        &&& self.wday <= 6
        &&& 1 <= self.yday <= 366
    }

    /// Breaks down the instant that `source` stands for.
    ///
    /// Reads each accessor of `source` once and stores what it returned. The
    /// readings are not checked: a reading outside its domain is stored as it
    /// is, and the record is in its domain exactly when the source is.
    pub fn from_source<S: TimeSource>(source: &S) -> (record: ToA)
        ensures
            record == ToA::of(source.resolved()),
            record.in_domain() <==> source.resolved().in_domain(),
    {
        ToA {
            sec: source.second(),
            min: source.minute(),
            hour: source.hour(),
            day: source.day(),
            month: source.month(),
            year: source.year(),
            wday: source.day_of_week(),
            yday: source.day_of_year(),
            isdst: source.is_dst(),
            zone: UtcOffset::new(source.utc_offset()),
        }
    }

    /// The ten components in slot order.
    #[inline]
    #[must_use]
    pub fn to_tuple(&self) -> (slots: (u8, u8, u8, u8, u8, i32, u8, u16, bool, UtcOffset))
        ensures
            slots == (
                self.sec,
                self.min,
                self.hour,
                self.day,
                self.month,
                self.year,
                self.wday,
                self.yday,
                self.isdst,
                self.zone,
            ),
    {
        (
            self.sec,
            self.min,
            self.hour,
            self.day,
            self.month,
            self.year,
            self.wday,
            self.yday,
            self.isdst,
            self.zone.clone(),
        )
    }
}

impl From<Time> for ToA {
    #[inline]
    fn from(time: Time) -> (record: ToA)
        ensures
            record == ToA::of(time),
            record.in_domain() <==> time.in_domain(),
    {
        ToA::from_source(&time)
    }
}

impl FromSpecImpl<Time> for ToA {
    open spec fn obeys_from_spec() -> bool {
        true
    }

    open spec fn from_spec(time: Time) -> ToA {
        ToA::of(time)
    }
}

/// A record has ten components, and [`ToA::ELEMENTS`] is that number.
pub proof fn lemma_element_count()
    ensures
        ToA::ELEMENTS == 10,
{
}

/// Two projections of one record are equal: whatever two calls of
/// [`ToA::to_tuple`] on `record` return, they return the same ten values in
/// the same order.
pub proof fn lemma_projection_is_stable(
    record: ToA,
    first: (u8, u8, u8, u8, u8, i32, u8, u16, bool, UtcOffset),
    second: (u8, u8, u8, u8, u8, i32, u8, u16, bool, UtcOffset),
)
    requires
        call_ensures(ToA::to_tuple, (&record,), first),
        call_ensures(ToA::to_tuple, (&record,), second),
    ensures
        first == second,
{
}

/// Reading a record gives back what the source gave.
///
/// Let `read` hold what each accessor of `source` returned, and let `record`
/// be what [`ToA::from_source`] returned for `source`. Then each field of the
/// record is the reading of its accessor, and the zone is the raw offset made
/// into a [`UtcOffset`].
pub proof fn lemma_round_trip<S: TimeSource>(source: S, read: Time, record: ToA)
    requires
        call_ensures(S::second, (&source,), read.second),
        call_ensures(S::minute, (&source,), read.minute),
        call_ensures(S::hour, (&source,), read.hour),
        call_ensures(S::day, (&source,), read.day),
        call_ensures(S::month, (&source,), read.month),
        call_ensures(S::year, (&source,), read.year),
        call_ensures(S::day_of_week, (&source,), read.day_of_week),
        call_ensures(S::day_of_year, (&source,), read.day_of_year),
        call_ensures(S::is_dst, (&source,), read.is_dst),
        call_ensures(S::utc_offset, (&source,), read.utc_offset),
        call_ensures(ToA::from_source::<S>, (&source,), record),
    ensures
        record.sec == read.second,
        record.min == read.minute,
        record.hour == read.hour,
        record.day == read.day,
        record.month == read.month,
        record.year == read.year,
        record.wday == read.day_of_week,
        record.yday == read.day_of_year,
        record.isdst == read.is_dst,
        record.zone == (UtcOffset { seconds: read.utc_offset }),
{
}

/// A record is fixed by what its source read when the record was made.
///
/// Let `record` be what [`ToA::from_source`] returned for `source`, and let
/// `later` be any state of the source after that, changed or not. The record
/// is still the record of `source`, and it is the record of `later` only if
/// `later` reads what `source` read.
pub proof fn lemma_record_is_fixed_at_conversion<S: TimeSource>(source: S, later: S, record: ToA)
    requires
        call_ensures(ToA::from_source::<S>, (&source,), record),
    ensures
        record == ToA::of(source.resolved()),
        record == ToA::of(later.resolved()) <==> later.resolved() == source.resolved(),
{
}

/// Breaking down loses nothing and adds nothing: two instants have the same
/// record exactly when they read the same.
pub proof fn lemma_conversion_is_lossless(a: Time, b: Time)
    ensures
        ToA::of(a) == ToA::of(b) <==> a == b,
{
}

/// Two conversions of sources that stand for the same instant return equal
/// records.
pub proof fn lemma_conversion_is_deterministic<S: TimeSource, T: TimeSource>(
    a: S,
    b: T,
    record_a: ToA,
    record_b: ToA,
)
    requires
        a.resolved() == b.resolved(),
        call_ensures(ToA::from_source::<S>, (&a,), record_a),
        call_ensures(ToA::from_source::<T>, (&b,), record_b),
    ensures
        record_a == record_b,
{
}

} // verus!
