//! Where a work session stands in the cycle towards the next long break.
use vstd::prelude::*;
use crate::pomodoro_options::PomodoroOptions;

verus! {

/// What the sequencing needs to know about the work session numbered by a
/// counter of completed sessions.
pub struct PomoInfo {
    /// Work sessions left until the long break, this one included.
    pub pomodoros_till_long_break: i32,
    /// Whether the break after this session is the long one.
    pub is_long_break_coming: bool,
    /// Length of the break after this session, in seconds.
    pub break_duration: u64,
}

/// The information for the session after `counter` completed ones.
pub open spec fn pomo_info_of(options: PomodoroOptions, counter: int) -> PomoInfo {
    let position = counter % (options.interval_long_break as int);
    let is_long_break_coming = position == options.interval_long_break - 1;
    PomoInfo {
        pomodoros_till_long_break: (options.interval_long_break - position) as i32,
        is_long_break_coming,
        break_duration: (60 * (if is_long_break_coming {
            options.duration_long_break
        } else {
            options.duration_short_break
        })) as u64,
    }
}

impl PomoInfo {
    /// The information for the session after `counter` completed ones.
    /// Every `interval_long_break`-th session is followed by the long break.
    pub fn from_options(options: &PomodoroOptions, counter: i32) -> (r: PomoInfo)
        requires
            options.interval_long_break >= 1,
            counter >= 0,
            options.duration_short_break >= 0,
            options.duration_long_break >= 0,
        ensures
            r == pomo_info_of(*options, counter as int),
            r.pomodoros_till_long_break == options.interval_long_break - counter
                % options.interval_long_break,
            r.is_long_break_coming == (counter % options.interval_long_break
                == options.interval_long_break - 1),
            r.break_duration == 60 * (if r.is_long_break_coming {
                options.duration_long_break
            } else {
                options.duration_short_break
            }),
    {
        let position: i32 = counter % options.interval_long_break;
        let pomodoros_till_long_break = options.interval_long_break - position;
        let is_long_break_coming = position == options.interval_long_break - 1;
        let break_duration: u64 = if is_long_break_coming {
            options.duration_long_break as u64 * 60
        } else {
            options.duration_short_break as u64 * 60
        };
        PomoInfo { pomodoros_till_long_break, is_long_break_coming, break_duration }
    }
}

} // verus!
