//! The calendar-day number used by the streak logic.
//!
//! The core works on plain day numbers so that every mutation is
//! deterministic in its arguments; only this wrapper consults the clock.

use vstd::prelude::*;

verus! {

/// Relies on chrono: `Utc::now().date_naive()` is the current calendar
/// date (UTC), and `Datelike::num_days_from_ce` numbers days so that
/// consecutive calendar days get consecutive values. The result is an
/// `i32` count widened to `i64`, so it is far from either `i64` bound.
/// chrono's `Utc::now` itself panics on a system clock set before the
/// Unix epoch; this wrapper inherits that environmental assumption.
#[verifier::external_body]
pub fn current_day_number() -> (r: i64)
    ensures
        i32::MIN <= r <= i32::MAX,
{
    chrono::Datelike::num_days_from_ce(&chrono::Utc::now().date_naive()) as i64
}

} // verus!
