use vstd::prelude::*;
use crate::calendar::days_in_month;

verus! {

/// One resolved instant, held as what clock and calendar read for it in its
/// own zone.
///
/// The fields are taken as they are given. Nothing here checks that they lie
/// in their domains or agree with one another (that the weekday is the one
/// the date falls on, say): whoever resolves the instant answers for that.
/// [`Time::in_domain`] says what a well-resolved instant reads.
#[derive(Debug, Copy, Clone, Hash, PartialEq, Eq, Structural)]
pub struct Time {
    /// Second of the minute, `0..=59`.
    pub second: u8,
    /// Minute of the hour, `0..=59`.
    pub minute: u8,
    /// Hour of the day on a 24-hour clock, `0..=23`.
    pub hour: u8,
    /// Day of the month, from 1.
    pub day: u8,
    /// Month of the year, `1..=12`.
    pub month: u8,
    /// The full year, century included; negative before year 0.
    pub year: i32,
    /// Day of the week, `0..=6`, Sunday being 0.
    pub day_of_week: u8,
    /// Day of the year, `1..=366`.
    pub day_of_year: u16,
    /// Whether daylight saving time is in force at this instant in its zone.
    pub is_dst: bool,
    /// Seconds that local time is ahead of UTC at this instant.
    pub utc_offset: i32,
}

impl Time {
    /// Every reading lies in its domain.
    ///
    /// This bounds each reading by itself, and the day by the length of its
    /// month. It does not say that weekday and day of the year are those of
    /// the date.
    pub open spec fn in_domain(self) -> bool {
        &&& self.second <= 59
        &&& self.minute <= 59
        &&& self.hour <= 23
        &&& 1 <= self.month <= 12
        &&& 1 <= self.day <= days_in_month(self.year as int, self.month as int)
        &&& self.day_of_week <= 6
        &&& 1 <= self.day_of_year <= 366
    }
}

/// What a value must offer to be broken down: the ten readings of the instant
/// it stands for.
///
/// Each accessor is a pure read. It returns the matching field of
/// [`resolved`](TimeSource::resolved), with no failure and no effect on the
/// source. Only the readings are promised, not that they lie in their
/// domains.
///
/// An implementation that is verified is held to these contracts, as the one
/// for [`Time`] is. One that is compiled without verification is taken at its
/// word, and what is proved of a conversion holds for it only so far as it
/// keeps them.
pub trait TimeSource {
    /// The instant this source stands for.
    spec fn resolved(&self) -> Time;

    /// Second of the minute.
    fn second(&self) -> (second: u8)
        ensures
            second == self.resolved().second,
    ;

    /// Minute of the hour.
    fn minute(&self) -> (minute: u8)
        ensures
            minute == self.resolved().minute,
    ;

    /// Hour of the day.
    fn hour(&self) -> (hour: u8)
        ensures
            hour == self.resolved().hour,
    ;

    /// Day of the month.
    fn day(&self) -> (day: u8)
        ensures
            day == self.resolved().day,
    ;

    /// Month of the year.
    fn month(&self) -> (month: u8)
        ensures
            month == self.resolved().month,
    ;

    /// The full year.
    fn year(&self) -> (year: i32)
        ensures
            year == self.resolved().year,
    ;

    /// Day of the week, Sunday being 0.
    fn day_of_week(&self) -> (day_of_week: u8)
        ensures
            day_of_week == self.resolved().day_of_week,
    ;

    /// Day of the year, from 1.
    fn day_of_year(&self) -> (day_of_year: u16)
        ensures
            day_of_year == self.resolved().day_of_year,
    ;

    /// Whether daylight saving time is in force.
    fn is_dst(&self) -> (is_dst: bool)
        ensures
            is_dst == self.resolved().is_dst,
    ;

    /// Seconds that local time is ahead of UTC.
    fn utc_offset(&self) -> (utc_offset: i32)
        ensures
            utc_offset == self.resolved().utc_offset,
    ;
}

impl TimeSource for Time {
    open spec fn resolved(&self) -> Time {
        *self
    }

    fn second(&self) -> (second: u8) {
        self.second
    }

    fn minute(&self) -> (minute: u8) {
        self.minute
    }

    fn hour(&self) -> (hour: u8) {
        self.hour
    }

    fn day(&self) -> (day: u8) {
        self.day
    }

    fn month(&self) -> (month: u8) {
        self.month
    }

    fn year(&self) -> (year: i32) {
        self.year
    }

    fn day_of_week(&self) -> (day_of_week: u8) {
        self.day_of_week
    }

    fn day_of_year(&self) -> (day_of_year: u16) {
        self.day_of_year
    }

    fn is_dst(&self) -> (is_dst: bool) {
        self.is_dst
    }

    fn utc_offset(&self) -> (utc_offset: i32) {
        self.utc_offset
    }
}

} // verus!
