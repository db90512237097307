use vstd::prelude::*;
use crate::protos::module::AlarmConfig;

verus! {

/// Minutes in a day, the period of the day/night schedule.
pub const MINUTES_PER_DAY: i32 = 1440;

/// The wrap-around horizon used when the night begins before the day on the clock
/// (the schedule crosses midnight).
pub const WRAP_HORIZON: i32 = 1500;

/// A minute of the day, as the scheduler reads it from the clock.
pub open spec fn is_minute_of_day(m: int) -> bool {
    0 <= m < 1440
}

/// The minutes of the day at which an alarm's window opens and closes.
pub open spec fn window_minutes(config: AlarmConfig) -> (int, int) {
    (config.begining.unwrap().hour * 60 + config.begining.unwrap().minute,
     config.end.unwrap().hour * 60 + config.end.unwrap().minute)
}

/// Reads the opening and closing minutes of an alarm's window from its times of day.
pub fn alarm_window_minutes(config: &AlarmConfig) -> (r: (i32, i32))
    requires
        config.begining is Some,
        config.end is Some,
        fits_i32(config.begining.unwrap().hour * 60),
        fits_i32(config.begining.unwrap().hour * 60 + config.begining.unwrap().minute),
        fits_i32(config.end.unwrap().hour * 60),
        fits_i32(config.end.unwrap().hour * 60 + config.end.unwrap().minute),
    ensures
        (r.0 as int, r.1 as int) == window_minutes(*config),
{
    let beginning = config.begining.unwrap();
    let ending = config.end.unwrap();
    let day_mins = beginning.hour * 60 + beginning.minute;
    let night_mins = ending.hour * 60 + ending.minute;
    (day_mins, night_mins)
}

/// What the schedule answers at minute `current`: how many minutes to sleep before the
/// next switch, and whether the relay is in its "day" (on) window meanwhile.
pub open spec fn timeout_alarm_spec(current: int, day: int, night: int) -> (int, bool) {
    if night < day {
        if current < night {
            (night - current, true)
        } else if current < day {
            (day - current, false)
        } else {
            ((1500 - current) + night, true)
        }
    } else if current < day {
        (day - current, false)
    } else if current < night {
        (night - current, true)
    } else {
        ((1440 - current) + day, false)
    }
}

/// The relay is on at minute `current`: between the day start and the night start,
/// going over midnight when the night start comes first on the clock.
pub open spec fn in_day_window(current: int, day: int, night: int) -> bool {
    if night < day {
        current < night || day <= current
    } else {
        day <= current < night
    }
}

pub open spec fn fits_i32(x: int) -> bool {
    i32::MIN <= x <= i32::MAX
}

/// The arithmetic of the schedule at these minutes stays within `i32`.
pub open spec fn schedule_fits(c: int, d: int, n: int) -> bool {
    if n < d {
        if c < n { fits_i32(n - c) }
        else if c < d { fits_i32(d - c) }
        else { fits_i32(1500 - c) && fits_i32(1500 - c + n) }
    } else if c < d {
        fits_i32(d - c)
    } else if c < n {
        fits_i32(n - c)
    } else {
        fits_i32(1440 - c) && fits_i32(1440 - c + d)
    }
}

/// Computes, for the current minute of the day and the day/night switching minutes,
/// the sleep before the next switch and whether the relay must be on now.
pub fn get_timeout_alarm(current_mins: i32, day_mins: i32, night_mins: i32) -> (res: (i32, bool))
    requires
        schedule_fits(current_mins as int, day_mins as int, night_mins as int),
    ensures
        (res.0 as int, res.1) == timeout_alarm_spec(current_mins as int, day_mins as int, night_mins as int),
        res.1 == in_day_window(current_mins as int, day_mins as int, night_mins as int),
{
    if night_mins < day_mins {
        if current_mins < night_mins {
            (night_mins - current_mins, true)
        } else if current_mins >= night_mins && current_mins < day_mins {
            (day_mins - current_mins, false)
        } else {
            ((WRAP_HORIZON - current_mins) + night_mins, true)
        }
    } else if current_mins < day_mins {
        ((day_mins - current_mins), false)
    } else if current_mins < night_mins {
        ((night_mins - current_mins), true)
    } else {
        (((MINUTES_PER_DAY) - current_mins) + day_mins, false)
    }
}

} // verus!

verus! {

/// For minutes of the day: the sleep is positive and shorter than the wrap horizon; the
/// relay is on exactly in its day window; and, apart from a day that starts after the
/// night on the clock and is already under way, the sleep ends on the next switch — the
/// night start while on, the day start while off.
pub proof fn lemma_alarm_schedule(current: int, day: int, night: int)
    requires
        is_minute_of_day(current),
        is_minute_of_day(day),
        is_minute_of_day(night),
    ensures
        ({
            let (timeout, on) = timeout_alarm_spec(current, day, night);
            &&& 0 < timeout <= 1500
            &&& on == in_day_window(current, day, night)
            &&& !(night < day && current >= day) ==>
                (current + timeout) % 1440 == (if on { night } else { day })
        }),
{
    let (timeout, on) = timeout_alarm_spec(current, day, night);
    if !(night < day && current >= day) {
        if night < day {
            assert((current + timeout) % 1440 == (if on { night } else { day }));
        } else if current < day || current < night {
            assert((current + timeout) % 1440 == (if on { night } else { day }));
        } else {
            assert(current + timeout == 1440 + day);
            assert((1440 + day) % 1440 == day) by (nonlinear_arith)
                requires 0 <= day < 1440;
        }
    }
}

} // verus!

verus! {

/// The state an alarm relay takes: on (1) in its day window, off (0) outside.
pub open spec fn alarm_state(on: bool) -> u8 {
    if on { 1 } else { 0 }
}

/// One round of an alarm relay's job at minute `current_mins` of the day: the state to set
/// and the seconds to sleep before the next round.
pub fn alarm_step(current_mins: i32, day_mins: i32, night_mins: i32) -> (r: (u8, u64))
    requires
        schedule_fits(current_mins as int, day_mins as int, night_mins as int),
        fits_i32(timeout_alarm_spec(current_mins as int, day_mins as int, night_mins as int).0 * 60),
    ensures
        ({
            let (timeout, on) = timeout_alarm_spec(current_mins as int, day_mins as int, night_mins as int);
            r == (alarm_state(on), (timeout * 60) as u64)
        }),
{
    let (timeout, day) = get_timeout_alarm(current_mins, day_mins, night_mins);
    let value: u8 = if day { 1 } else { 0 };
    (value, (timeout * 60) as u64)
}

} // verus!
