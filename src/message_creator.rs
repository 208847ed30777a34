//! The status line printed before each phase.
use vstd::prelude::*;
use crate::pomo_info::PomoInfo;
use crate::pomodoro_options::PomodoroOptions;
use crate::text::{decimal, push_decimal};

verus! {

/// The figures of one status line; durations in minutes.
pub struct MessageData<'a> {
    pub current: &'a str,
    pub current_duration: i64,
    pub upcoming: &'a str,
    pub upcoming_duration: i64,
    pub pomodoros_till_long_break: i64,
    pub minutes_till_long_break: i128,
}

/// The status line for the given figures.
pub open spec fn message_text(
    current: Seq<char>,
    current_duration: int,
    upcoming: Seq<char>,
    upcoming_duration: int,
    pomodoros_till_long_break: int,
    minutes_till_long_break: int,
) -> Seq<char> {
    "Current: "@ + current + " ("@ + decimal(current_duration) + " min) | Upcoming: "@ + upcoming
        + " ("@ + decimal(upcoming_duration) + " min) | Pomodoros till long break: "@ + decimal(
        pomodoros_till_long_break,
    ) + " ("@ + decimal(minutes_till_long_break) + " min)"@
}

impl<'a> MessageData<'a> {
    pub fn generate_print_message(&self) -> (r: String)
        ensures
            r@ == message_text(
                self.current@,
                self.current_duration as int,
                self.upcoming@,
                self.upcoming_duration as int,
                self.pomodoros_till_long_break as int,
                self.minutes_till_long_break as int,
            ),
    {
        let mut s = String::from_str("Current: ");
        s.append(self.current);
        s.append(" (");
        push_decimal(&mut s, self.current_duration as i128);
        s.append(" min) | Upcoming: ");
        s.append(self.upcoming);
        s.append(" (");
        push_decimal(&mut s, self.upcoming_duration as i128);
        s.append(" min) | Pomodoros till long break: ");
        push_decimal(&mut s, self.pomodoros_till_long_break as i128);
        s.append(" (");
        push_decimal(&mut s, self.minutes_till_long_break as i128);
        s.append(" min)");
        s
    }
}

/// What follows a work session when there is no extra session: the break
/// that is due, or the next work session when breaks are of length zero.
pub open spec fn break_after(pomo_info: PomoInfo, options: PomodoroOptions) -> (Seq<char>, int) {
    if pomo_info.break_duration != 0 && pomo_info.is_long_break_coming {
        ("Long break"@, options.duration_long_break as int)
    } else if pomo_info.break_duration != 0 {
        ("Short break"@, options.duration_short_break as int)
    } else {
        ("Pomodoro"@, options.duration_pomodoro as int)
    }
}

/// The line shown before a work session.
pub open spec fn message_before_pomodoro(pomo_info: PomoInfo, options: PomodoroOptions) -> Seq<
    char,
> {
    let p = pomo_info.pomodoros_till_long_break as int;
    let upcoming = if options.additional_duration != 0 {
        ("Additional Pomodoro"@, options.additional_duration as int)
    } else {
        break_after(pomo_info, options)
    };
    message_text(
        "Pomodoro"@,
        options.duration_pomodoro as int,
        upcoming.0,
        upcoming.1,
        p,
        p * (options.duration_pomodoro + options.additional_duration) + (p - 1)
            * options.duration_short_break,
    )
}

/// The line shown before the extra session that follows a work session.
pub open spec fn message_before_additional_break(
    pomo_info: PomoInfo,
    options: PomodoroOptions,
) -> Seq<char> {
    let p = pomo_info.pomodoros_till_long_break as int;
    let upcoming = break_after(pomo_info, options);
    message_text(
        "Additional"@,
        options.additional_duration as int,
        upcoming.0,
        upcoming.1,
        p,
        p * options.additional_duration + (p - 1) * (options.duration_short_break
            + options.duration_pomodoro),
    )
}

/// The line shown before a break.
pub open spec fn message_before_break(pomo_info: PomoInfo, options: PomodoroOptions) -> Seq<char> {
    let p = pomo_info.pomodoros_till_long_break as int;
    message_text(
        if pomo_info.is_long_break_coming {
            "Long break"@
        } else {
            "Short break"@
        },
        pomo_info.break_duration as int / 60,
        "Pomodoro"@,
        options.duration_pomodoro as int,
        p - 1,
        (p - 1) * (options.duration_pomodoro + options.duration_short_break
            + options.additional_duration),
    )
}

/// `x * y` for factors made of a few `i32` values, exact in an `i128`.
fn product(x: i128, y: i128) -> (r: i128)
    requires
        -0x4_0000_0000 <= x <= 0x4_0000_0000,
        -0x4_0000_0000 <= y <= 0x4_0000_0000,
    ensures
        r == x * y,
        -0x10_0000_0000_0000_0000 <= r <= 0x10_0000_0000_0000_0000,
{
    assert(-0x10_0000_0000_0000_0000 <= x * y <= 0x10_0000_0000_0000_0000) by (nonlinear_arith)
        requires
            -0x4_0000_0000 <= x <= 0x4_0000_0000,
            -0x4_0000_0000 <= y <= 0x4_0000_0000,
    ;
    x * y
}

fn break_after_label(pomo_info: &PomoInfo, options: &PomodoroOptions) -> (r: (&'static str, i64))
    ensures
        (r.0@, r.1 as int) == break_after(*pomo_info, *options),
{
    if pomo_info.break_duration != 0 && pomo_info.is_long_break_coming {
        ("Long break", options.duration_long_break as i64)
    } else if pomo_info.break_duration != 0 {
        ("Short break", options.duration_short_break as i64)
    } else {
        ("Pomodoro", options.duration_pomodoro as i64)
    }
}

pub fn generate_print_message_before_pomodoro(pomo_info: &PomoInfo, options: &PomodoroOptions) -> (r:
    String)
    ensures
        r@ == message_before_pomodoro(*pomo_info, *options),
{
    let p = pomo_info.pomodoros_till_long_break;
    let work = product(
        p as i128,
        options.duration_pomodoro as i128 + options.additional_duration as i128,
    );
    let rest = product(p as i128 - 1, options.duration_short_break as i128);
    let (upcoming, upcoming_duration) = if options.additional_duration != 0 {
        ("Additional Pomodoro", options.additional_duration as i64)
    } else {
        break_after_label(pomo_info, options)
    };
    let message_data = MessageData {
        current: "Pomodoro",
        current_duration: options.duration_pomodoro as i64,
        upcoming,
        upcoming_duration,
        pomodoros_till_long_break: p as i64,
        minutes_till_long_break: work + rest,
    };
    message_data.generate_print_message()
}

pub fn generate_print_message_before_additional_break(
    pomo_info: &PomoInfo,
    options: &PomodoroOptions,
) -> (r: String)
    ensures
        r@ == message_before_additional_break(*pomo_info, *options),
{
    let p = pomo_info.pomodoros_till_long_break;
    let extra = product(p as i128, options.additional_duration as i128);
    let rest = product(
        p as i128 - 1,
        options.duration_short_break as i128 + options.duration_pomodoro as i128,
    );
    let (upcoming, upcoming_duration) = break_after_label(pomo_info, options);
    let message_data = MessageData {
        current: "Additional",
        current_duration: options.additional_duration as i64,
        upcoming,
        upcoming_duration,
        pomodoros_till_long_break: p as i64,
        minutes_till_long_break: extra + rest,
    };
    message_data.generate_print_message()
}

pub fn generate_print_message_before_break(pomo_info: &PomoInfo, options: &PomodoroOptions) -> (r:
    String)
    ensures
        r@ == message_before_break(*pomo_info, *options),
{
    let p = pomo_info.pomodoros_till_long_break as i128 - 1;
    let cycle = options.duration_pomodoro as i128 + options.duration_short_break as i128
        + options.additional_duration as i128;
    let message_data = MessageData {
        current: if pomo_info.is_long_break_coming {
            "Long break"
        } else {
            "Short break"
        },
        current_duration: (pomo_info.break_duration / 60) as i64,
        upcoming: "Pomodoro",
        upcoming_duration: options.duration_pomodoro as i64,
        pomodoros_till_long_break: p as i64,
        minutes_till_long_break: product(p, cycle),
    };
    message_data.generate_print_message()
}

} // verus!
