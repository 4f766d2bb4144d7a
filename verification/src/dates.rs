//! The calendar, read from the system clock. Date-based titles and the
//! staleness check need today's date; everything that reasons about it
//! takes the date as a value, so these two wrappers are the only places
//! that ask the clock.

use vstd::prelude::*;
use chrono::Datelike;

verus! {

/// Relies on chrono's `Local::now` and `DateTime::format` with the fixed
/// pattern `"%Y-%m-%d"`: the current local date as text. The result depends
/// on the machine's clock and time zone, so nothing is promised of it.
#[verifier::external_body]
pub(crate) fn today_date_string() -> String {
    chrono::Local::now().format("%Y-%m-%d").to_string()
}

/// Relies on chrono's `Local::now`, `DateTime::date_naive` and
/// `Datelike::num_days_from_ce`: the current local date as a signed day
/// count. The result depends on the machine's clock and time zone, so
/// nothing is promised of it.
#[verifier::external_body]
pub(crate) fn today_day_number() -> i32 {
    chrono::Local::now().date_naive().num_days_from_ce()
}

} // verus!
