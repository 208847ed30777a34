use pomodoro::end_events::EndEvent;
use pomodoro::message_creator::{
    generate_print_message_before_additional_break, generate_print_message_before_break,
    generate_print_message_before_pomodoro, MessageData,
};
use pomodoro::pomo_info::PomoInfo;
use pomodoro::pomodoro_options::{PomodoroOptions, VerificationError};

fn sound(path: &str) -> EndEvent {
    EndEvent::Sound { filepath_sound: path.to_string() }
}

#[test]
fn default_options() {
    let options = PomodoroOptions::default();
    assert_eq!(options.duration_pomodoro, 25);
    assert_eq!(options.additional_duration, 5);
    assert_eq!(options.duration_short_break, 5);
    assert_eq!(options.duration_long_break, 15);
    assert!(options.auto_start_break);
    assert!(options.auto_start_pomodoro);
    assert_eq!(options.interval_long_break, 4);
    assert!(matches!(&options.end_event_pomodoro, EndEvent::Sound { filepath_sound } if filepath_sound.is_empty()));
    assert!(matches!(options.end_event_additional_pomodoro, EndEvent::LockScreen));
    assert_eq!(options.interval_reminder_after_break, 0);
    assert!(options.usable());
    assert_eq!(options.verify(false, false), Ok(()));
}

#[test]
fn each_duration_error_is_reported() {
    let mut options = PomodoroOptions::default();
    options.duration_pomodoro = 0;
    assert_eq!(options.verify(true, true), Err(VerificationError::InvalidDuration));
    let mut options = PomodoroOptions::default();
    options.additional_duration = -1;
    assert_eq!(options.verify(true, true), Err(VerificationError::InvalidAdditionalDuration));
    let mut options = PomodoroOptions::default();
    options.duration_short_break = -1;
    assert_eq!(options.verify(true, true), Err(VerificationError::InvalidShortBreakDuration));
    let mut options = PomodoroOptions::default();
    options.duration_long_break = -5;
    assert_eq!(options.verify(true, true), Err(VerificationError::InvalidLongBreakDuration));
}

#[test]
fn zero_lengths_other_than_work_are_accepted() {
    let mut options = PomodoroOptions::default();
    options.duration_pomodoro = 1;
    options.additional_duration = 0;
    options.duration_short_break = 0;
    options.duration_long_break = 0;
    assert_eq!(options.verify(false, false), Ok(()));
}

#[test]
fn durations_are_checked_before_sound_files() {
    let mut options = PomodoroOptions::default();
    options.duration_pomodoro = -3;
    options.end_event_pomodoro = sound("missing.wav");
    assert_eq!(options.verify(false, false), Err(VerificationError::InvalidDuration));
}

#[test]
fn missing_sound_file_is_reported() {
    let mut options = PomodoroOptions::default();
    options.end_event_pomodoro = sound("missing.wav");
    assert_eq!(options.verify(false, true), Err(VerificationError::InvalidSoundFile));
    assert_eq!(options.verify(true, false), Ok(()));
    let mut options = PomodoroOptions::default();
    options.end_event_additional_pomodoro = sound("gone.wav");
    assert_eq!(options.verify(true, false), Err(VerificationError::InvalidSoundFile));
    assert_eq!(options.verify(false, true), Ok(()));
}

#[test]
fn checked_keeps_valid_options() {
    let mut options = PomodoroOptions::default();
    options.end_event_pomodoro = sound("bell.wav");
    let (kept, reset) = options.checked(true, true).unwrap();
    assert!(!reset);
    assert!(matches!(&kept.end_event_pomodoro, EndEvent::Sound { filepath_sound } if filepath_sound == "bell.wav"));
}

#[test]
fn checked_falls_back_to_the_default_sound() {
    let mut options = PomodoroOptions::default();
    options.duration_pomodoro = 50;
    options.end_event_pomodoro = sound("missing.wav");
    options.end_event_additional_pomodoro = sound("there.wav");
    let (fixed, reset) = options.checked(false, true).unwrap();
    assert!(reset);
    assert_eq!(fixed.duration_pomodoro, 50);
    assert!(matches!(&fixed.end_event_pomodoro, EndEvent::Sound { filepath_sound } if filepath_sound.is_empty()));
    assert!(matches!(&fixed.end_event_additional_pomodoro, EndEvent::Sound { filepath_sound } if filepath_sound.is_empty()));
}

#[test]
fn checked_refuses_bad_durations() {
    let mut options = PomodoroOptions::default();
    options.duration_short_break = -2;
    options.end_event_pomodoro = sound("missing.wav");
    assert_eq!(options.checked(false, false).err(), Some(VerificationError::InvalidShortBreakDuration));
}

#[test]
fn error_messages() {
    assert_eq!(
        VerificationError::InvalidDuration.message(),
        "Pomodoro duration should be at least 1 minute."
    );
    assert_eq!(
        VerificationError::InvalidAdditionalDuration.message(),
        "Additional duration should be at least 0 minute."
    );
    assert_eq!(
        VerificationError::InvalidShortBreakDuration.message(),
        "Short break duration should be at least 0 minute."
    );
    assert_eq!(
        VerificationError::InvalidLongBreakDuration.message(),
        "Long break duration should be at least 0 minute."
    );
    assert_eq!(VerificationError::InvalidSoundFile.message(), "Sound file does not exist.");
}

#[test]
fn end_event_sound_checks() {
    assert!(sound("a.wav").has_missing_sound(false));
    assert!(!sound("a.wav").has_missing_sound(true));
    assert!(!sound("").has_missing_sound(false));
    assert!(!EndEvent::LockScreen.has_missing_sound(false));
    assert!(matches!(EndEvent::LockScreen.with_default_sound(), EndEvent::LockScreen));
}

#[test]
fn usable_needs_a_positive_interval() {
    let mut options = PomodoroOptions::default();
    options.interval_long_break = 0;
    assert!(!options.usable());
    assert_eq!(options.verify(true, true), Ok(()));
}

#[test]
fn pomo_info_counts_down_to_the_long_break() {
    let options = PomodoroOptions::default();
    let first = PomoInfo::from_options(&options, 0);
    assert_eq!(first.pomodoros_till_long_break, 4);
    assert!(!first.is_long_break_coming);
    assert_eq!(first.break_duration, 300);
    let fourth = PomoInfo::from_options(&options, 3);
    assert_eq!(fourth.pomodoros_till_long_break, 1);
    assert!(fourth.is_long_break_coming);
    assert_eq!(fourth.break_duration, 900);
    let fifth = PomoInfo::from_options(&options, 4);
    assert_eq!(fifth.pomodoros_till_long_break, 4);
    assert!(!fifth.is_long_break_coming);
    let eighth = PomoInfo::from_options(&options, 7);
    assert!(eighth.is_long_break_coming);
}

#[test]
fn interval_of_one_makes_every_break_long() {
    let mut options = PomodoroOptions::default();
    options.interval_long_break = 1;
    let info = PomoInfo::from_options(&options, 9);
    assert_eq!(info.pomodoros_till_long_break, 1);
    assert!(info.is_long_break_coming);
    assert_eq!(info.break_duration, 900);
}

#[test]
fn message_before_pomodoro() {
    let options = PomodoroOptions::default();
    let info = PomoInfo::from_options(&options, 0);
    assert_eq!(
        generate_print_message_before_pomodoro(&info, &options),
        "Current: Pomodoro (25 min) | Upcoming: Additional Pomodoro (5 min) | Pomodoros till long break: 4 (135 min)"
    );
}

#[test]
fn message_before_pomodoro_without_extra_session() {
    let mut options = PomodoroOptions::default();
    options.additional_duration = 0;
    let info = PomoInfo::from_options(&options, 1);
    assert_eq!(
        generate_print_message_before_pomodoro(&info, &options),
        "Current: Pomodoro (25 min) | Upcoming: Short break (5 min) | Pomodoros till long break: 3 (85 min)"
    );
}

#[test]
fn message_before_additional_break() {
    let options = PomodoroOptions::default();
    let info = PomoInfo::from_options(&options, 3);
    assert_eq!(
        generate_print_message_before_additional_break(&info, &options),
        "Current: Additional (5 min) | Upcoming: Long break (15 min) | Pomodoros till long break: 1 (5 min)"
    );
    let mut options = PomodoroOptions::default();
    options.duration_short_break = 0;
    let info = PomoInfo::from_options(&options, 0);
    assert_eq!(
        generate_print_message_before_additional_break(&info, &options),
        "Current: Additional (5 min) | Upcoming: Pomodoro (25 min) | Pomodoros till long break: 4 (95 min)"
    );
}

#[test]
fn message_before_break() {
    let options = PomodoroOptions::default();
    let info = PomoInfo::from_options(&options, 1);
    assert_eq!(
        generate_print_message_before_break(&info, &options),
        "Current: Short break (5 min) | Upcoming: Pomodoro (25 min) | Pomodoros till long break: 2 (70 min)"
    );
}

#[test]
fn message_data_renders_negative_and_extreme_numbers() {
    let data = MessageData {
        current: "A",
        current_duration: -7,
        upcoming: "B",
        upcoming_duration: 0,
        pomodoros_till_long_break: 1234567890123,
        minutes_till_long_break: i128::MIN,
    };
    assert_eq!(
        data.generate_print_message(),
        "Current: A (-7 min) | Upcoming: B (0 min) | Pomodoros till long break: 1234567890123 (-170141183460469231731687303715884105728 min)"
    );
}

#[test]
fn message_with_largest_durations_is_exact() {
    let mut options = PomodoroOptions::default();
    options.duration_pomodoro = i32::MAX;
    options.additional_duration = i32::MAX;
    options.duration_short_break = i32::MAX;
    let info = PomoInfo {
        pomodoros_till_long_break: i32::MAX,
        is_long_break_coming: false,
        break_duration: 60,
    };
    let expected_minutes: i128 = (i32::MAX as i128) * (2 * i32::MAX as i128)
        + (i32::MAX as i128 - 1) * (i32::MAX as i128);
    assert_eq!(
        generate_print_message_before_pomodoro(&info, &options),
        format!(
            "Current: Pomodoro (2147483647 min) | Upcoming: Additional Pomodoro (2147483647 min) | Pomodoros till long break: 2147483647 ({} min)",
            expected_minutes
        )
    );
}
