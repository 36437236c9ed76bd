//! Month lengths, as far as the domain of a day of the month needs them.
//!
//! These are definitions for contracts. Nothing here is compiled or run, and
//! no record is ever checked against them.

use vstd::prelude::*;

verus! {

/// Whether `year` has a 29th of February. Years are counted as the calendar
/// is run backwards before its adoption, with a year 0 and negative years
/// before it.
pub open spec fn is_leap_year(year: int) -> bool {
    year % 4 == 0 && (year % 100 != 0 || year % 400 == 0)
}

/// How many days `month` (1 for January to 12 for December) has in `year`.
pub open spec fn days_in_month(year: int, month: int) -> int
    recommends
        1 <= month <= 12,
{
    if month == 2 {
        if is_leap_year(year) {
            29
        } else {
            28
        }
    } else if month == 4 || month == 6 || month == 9 || month == 11 {
        30
    } else {
        31
    }
}

} // verus!
