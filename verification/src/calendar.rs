//! The trading calendar of an xStock's underlying market: which UTC days are
//! closed and the regular and extended session hours.
use vstd::prelude::*;

use crate::accounts::{MarketStateAccount, Pubkey};
use crate::core_error::CoreError;
use crate::ix::admin::SECONDS_PER_DAY;

verus! {

/// A stored market calendar.
#[derive(Debug, Clone, PartialEq, Eq)]
pub struct MarketCalendar {
    pub protocol: Pubkey,
    pub valid_until_ts: i64,
    pub regular_open_seconds: u32,
    pub regular_close_seconds: u32,
    pub extended_open_seconds: u32,
    pub extended_close_seconds: u32,
    /// Closed UTC days, counted from the Unix epoch, in increasing order.
    pub closed_days: Vec<i64>,
    pub bump: u8,
}

/// A calendar as the authority submits it.
#[derive(Debug, Clone, PartialEq, Eq)]
pub struct MarketCalendarParams {
    pub valid_until_ts: i64,
    pub regular_open_seconds: u32,
    pub regular_close_seconds: u32,
    pub extended_open_seconds: u32,
    pub extended_close_seconds: u32,
    pub closed_days: Vec<i64>,
}

/// Sessions nest inside one day: the extended session opens first and
/// closes last, and the regular session lies inside it.
pub open spec fn sessions_valid(params: MarketCalendarParams) -> bool {
    &&& params.extended_open_seconds < params.extended_close_seconds
    &&& params.extended_close_seconds <= SECONDS_PER_DAY
    &&& params.extended_open_seconds <= params.regular_open_seconds
    &&& params.regular_open_seconds < params.regular_close_seconds
    &&& params.regular_close_seconds <= params.extended_close_seconds
}

/// Closed days are on or after the epoch and strictly increasing.
pub open spec fn closed_days_valid(days: Seq<i64>) -> bool {
    &&& forall|i: int| 0 <= i < days.len() ==> #[trigger] days[i] >= 0
    &&& forall|i: int| 0 < i < days.len() ==> days[i - 1] < #[trigger] days[i]
}

/// A calendar is accepted when it is still valid now, lists at most
/// `max_closed_days` closed days, and its sessions and days are well formed.
pub open spec fn market_calendar_params_valid(
    params: MarketCalendarParams,
    max_closed_days: usize,
    now: i64,
) -> bool {
    &&& now >= 0
    &&& params.valid_until_ts >= now
    &&& params.closed_days@.len() <= max_closed_days
    &&& sessions_valid(params)
    &&& closed_days_valid(params.closed_days@)
}

pub fn validate_market_calendar_params(
    params: &MarketCalendarParams,
    max_closed_days: usize,
    now: i64,
) -> (r: Result<(), CoreError>)
    ensures
        r == (if market_calendar_params_valid(*params, max_closed_days, now) {
            Ok(())
        } else {
            Err(CoreError::InvalidParameter)
        }),
{
    if now < 0 || params.valid_until_ts < now || params.closed_days.len() > max_closed_days {
        return Err(CoreError::InvalidParameter);
    }
    if !(params.extended_open_seconds < params.extended_close_seconds
        && params.extended_close_seconds as i64 <= SECONDS_PER_DAY && params.extended_open_seconds
        <= params.regular_open_seconds && params.regular_open_seconds < params.regular_close_seconds
        && params.regular_close_seconds <= params.extended_close_seconds) {
        return Err(CoreError::InvalidParameter);
    }
    let days = &params.closed_days;
    let mut index: usize = 0;
    while index < days.len()
        invariant
            index <= days@.len(),
            days@ == params.closed_days@,
            now >= 0 && params.valid_until_ts >= now && params.closed_days@.len() <= max_closed_days,
            sessions_valid(*params),
            closed_days_valid(days@.take(index as int)),
        decreases days@.len() - index,
    {
        if days[index] < 0 {
            assert(!closed_days_valid(days@));
            return Err(CoreError::InvalidParameter);
        }
        if index > 0 && days[index - 1] >= days[index] {
            assert(!closed_days_valid(days@));
            return Err(CoreError::InvalidParameter);
        }
        index = index + 1;
        assert(closed_days_valid(days@.take(index as int)));
    }
    assert(days@.take(days@.len() as int) =~= days@);
    Ok(())
}

/// The calendar the authority submitted, stored for `protocol`.
pub open spec fn spec_applied_calendar(
    protocol: Pubkey,
    params: MarketCalendarParams,
    bump: u8,
) -> MarketCalendar {
    MarketCalendar {
        protocol,
        valid_until_ts: params.valid_until_ts,
        regular_open_seconds: params.regular_open_seconds,
        regular_close_seconds: params.regular_close_seconds,
        extended_open_seconds: params.extended_open_seconds,
        extended_close_seconds: params.extended_close_seconds,
        closed_days: params.closed_days,
        bump,
    }
}

pub fn apply_market_calendar_params(
    calendar: &mut MarketCalendar,
    protocol: Pubkey,
    params: MarketCalendarParams,
    bump: u8,
)
    ensures
        *final(calendar) == spec_applied_calendar(protocol, params, bump),
{
    calendar.protocol = protocol;
    calendar.valid_until_ts = params.valid_until_ts;
    calendar.regular_open_seconds = params.regular_open_seconds;
    calendar.regular_close_seconds = params.regular_close_seconds;
    calendar.extended_open_seconds = params.extended_open_seconds;
    calendar.extended_close_seconds = params.extended_close_seconds;
    calendar.closed_days = params.closed_days;
    calendar.bump = bump;
}

/// Day 0, 1 January 1970, was a Thursday; Saturdays and Sundays are
/// weekend days.
pub open spec fn is_weekend(day: int) -> bool {
    let weekday = (day + 4) % 7;
    weekday == 0 || weekday == 6
}

pub fn is_weekend_utc_day(day: i64) -> (r: bool)
    requires
        day + 4 <= i64::MAX,
    ensures
        r == is_weekend(day as int),
{
    let shifted = day + 4;
    let weekday: i64 = if shifted >= 0 {
        shifted % 7
    } else {
        let back = (-(shifted + 1)) % 7;
        6 - back
    };
    proof {
        if shifted < 0 {
            let s = shifted as int;
            let b = (-(s + 1)) % 7;
            assert(s % 7 == 6 - b) by (nonlinear_arith)
                requires
                    s < 0,
                    b == (-(s + 1)) % 7,
            ;
        }
    }
    weekday == 0 || weekday == 6
}

/// `day` is listed among the closed days.
pub open spec fn is_closed_day(days: Seq<i64>, day: int) -> bool {
    exists|k: int| 0 <= k < days.len() && days[k] == day
}

/// Whether the underlying market is in its regular session, its extended
/// session, or closed at `now`.
pub open spec fn spec_market_state(calendar: MarketCalendar, now: i64) -> Result<
    MarketStateAccount,
    CoreError,
> {
    if now < 0 {
        Err(CoreError::InvalidParameter)
    } else if now > calendar.valid_until_ts {
        Err(CoreError::MarketCalendarExpired)
    } else {
        let day = now / SECONDS_PER_DAY;
        let seconds = now % SECONDS_PER_DAY;
        if is_weekend(day) || is_closed_day(calendar.closed_days@, day) {
            Ok(MarketStateAccount::Closed)
        } else if calendar.regular_open_seconds <= seconds < calendar.regular_close_seconds {
            Ok(MarketStateAccount::Regular)
        } else if calendar.extended_open_seconds <= seconds < calendar.extended_close_seconds {
            Ok(MarketStateAccount::Extended)
        } else {
            Ok(MarketStateAccount::Closed)
        }
    }
}

pub fn derive_market_state_from_calendar(calendar: &MarketCalendar, now: i64) -> (r: Result<
    MarketStateAccount,
    CoreError,
>)
    ensures
        r == spec_market_state(*calendar, now),
{
    if now < 0 {
        return Err(CoreError::InvalidParameter);
    }
    if now > calendar.valid_until_ts {
        return Err(CoreError::MarketCalendarExpired);
    }
    let day = now / SECONDS_PER_DAY;
    let mut closed = is_weekend_utc_day(day);
    let mut i: usize = 0;
    while i < calendar.closed_days.len()
        invariant
            i <= calendar.closed_days@.len(),
            closed == (is_weekend(day as int) || exists|k: int|
                0 <= k < i && #[trigger] calendar.closed_days@[k] == day),
        decreases calendar.closed_days@.len() - i,
    {
        if calendar.closed_days[i] == day {
            closed = true;
        }
        i = i + 1;
    }
    if closed {
        return Ok(MarketStateAccount::Closed);
    }
    let seconds = (now % SECONDS_PER_DAY) as u32;
    if seconds >= calendar.regular_open_seconds && seconds < calendar.regular_close_seconds {
        Ok(MarketStateAccount::Regular)
    } else if seconds >= calendar.extended_open_seconds && seconds
        < calendar.extended_close_seconds {
        Ok(MarketStateAccount::Extended)
    } else {
        Ok(MarketStateAccount::Closed)
    }
}

} // verus!
