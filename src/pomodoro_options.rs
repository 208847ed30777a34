//! The settings of the timer and their validation.
use vstd::prelude::*;
use crate::end_events::EndEvent;

verus! {

/// The settings of the timer; durations are in minutes.
pub struct PomodoroOptions {
    /// Length of one work session.
    pub duration_pomodoro: i32,
    /// Length of the extra session that follows a work session; 0 for none.
    pub additional_duration: i32,
    pub duration_short_break: i32,
    pub duration_long_break: i32,
    /// Start a break without waiting for the user to confirm.
    pub auto_start_break: bool,
    /// Start the next work session without asking whether to go on.
    pub auto_start_pomodoro: bool,
    /// Every this many work sessions the break is a long one.
    pub interval_long_break: i32,
    pub end_event_pomodoro: EndEvent,
    pub end_event_additional_pomodoro: EndEvent,
    /// While waiting for the user to go on after a break, remind them every
    /// this many minutes; 0 for never.
    pub interval_reminder_after_break: i32,
    pub event_reminder_after_break: EndEvent,
}

/// Why a set of options was refused.
#[derive(PartialEq, Eq, Structural, Debug, Clone, Copy)]
pub enum VerificationError {
    InvalidDuration,
    InvalidAdditionalDuration,
    InvalidShortBreakDuration,
    InvalidLongBreakDuration,
    InvalidSoundFile,
}

impl VerificationError {
    pub open spec fn message_spec(self) -> Seq<char> {
        match self {
            VerificationError::InvalidDuration => "Pomodoro duration should be at least 1 minute."@,
            VerificationError::InvalidAdditionalDuration =>
                "Additional duration should be at least 0 minute."@,
            VerificationError::InvalidShortBreakDuration =>
                "Short break duration should be at least 0 minute."@,
            VerificationError::InvalidLongBreakDuration =>
                "Long break duration should be at least 0 minute."@,
            VerificationError::InvalidSoundFile => "Sound file does not exist."@,
        }
    }

    /// A sentence that says what is wrong.
    pub fn message(&self) -> (r: String)
        ensures
            r@ == self.message_spec(),
    {
        match self {
            VerificationError::InvalidDuration => String::from_str(
                "Pomodoro duration should be at least 1 minute.",
            ),
            VerificationError::InvalidAdditionalDuration => String::from_str(
                "Additional duration should be at least 0 minute.",
            ),
            VerificationError::InvalidShortBreakDuration => String::from_str(
                "Short break duration should be at least 0 minute.",
            ),
            VerificationError::InvalidLongBreakDuration => String::from_str(
                "Long break duration should be at least 0 minute.",
            ),
            VerificationError::InvalidSoundFile => String::from_str("Sound file does not exist."),
        }
    }
}

impl PomodoroOptions {
    /// The outcome of [`PomodoroOptions::verify`]: the first check that
    /// fails, in the order durations, then the two sound files.
    pub open spec fn verify_spec(
        &self,
        pomodoro_sound_is_file: bool,
        additional_sound_is_file: bool,
    ) -> Result<(), VerificationError> {
        if self.duration_pomodoro < 1 {
            Err(VerificationError::InvalidDuration)
        } else if self.additional_duration < 0 {
            Err(VerificationError::InvalidAdditionalDuration)
        } else if self.duration_short_break < 0 {
            Err(VerificationError::InvalidShortBreakDuration)
        } else if self.duration_long_break < 0 {
            Err(VerificationError::InvalidLongBreakDuration)
        } else if self.end_event_pomodoro.names_missing_sound(pomodoro_sound_is_file)
            || self.end_event_additional_pomodoro.names_missing_sound(additional_sound_is_file) {
            Err(VerificationError::InvalidSoundFile)
        } else {
            Ok(())
        }
    }

    /// Checks the options. Whether the sound files of the two end events
    /// exist on disk is handed in by the caller; an empty path names the
    /// default sound and is always accepted.
    pub fn verify(&self, pomodoro_sound_is_file: bool, additional_sound_is_file: bool) -> (r:
        Result<(), VerificationError>)
        ensures
            r == self.verify_spec(pomodoro_sound_is_file, additional_sound_is_file),
    {
        if self.duration_pomodoro < 1 {
            return Err(VerificationError::InvalidDuration);
        }
        if self.additional_duration < 0 {
            return Err(VerificationError::InvalidAdditionalDuration);
        }
        if self.duration_short_break < 0 {
            return Err(VerificationError::InvalidShortBreakDuration);
        }
        if self.duration_long_break < 0 {
            return Err(VerificationError::InvalidLongBreakDuration);
        }
        if self.end_event_pomodoro.has_missing_sound(pomodoro_sound_is_file) {
            return Err(VerificationError::InvalidSoundFile);
        }
        if self.end_event_additional_pomodoro.has_missing_sound(additional_sound_is_file) {
            return Err(VerificationError::InvalidSoundFile);
        }
        Ok(())
    }

    /// Options as read are taken into use: refused when a duration is out of
    /// range; when only a sound file is missing, both work-session end
    /// events fall back to the default sound and the flag says so.
    pub fn checked(self, pomodoro_sound_is_file: bool, additional_sound_is_file: bool) -> (r:
        Result<(PomodoroOptions, bool), VerificationError>)
        ensures
            match self.verify_spec(pomodoro_sound_is_file, additional_sound_is_file) {
                Ok(()) => r == Ok::<(PomodoroOptions, bool), VerificationError>((self, false)),
                Err(VerificationError::InvalidSoundFile) => r matches Ok((o, true)) && o
                    == (PomodoroOptions {
                    end_event_pomodoro: o.end_event_pomodoro,
                    end_event_additional_pomodoro: o.end_event_additional_pomodoro,
                    ..self
                }) && o.verify_spec(pomodoro_sound_is_file, additional_sound_is_file) is Ok
                    && (o.end_event_pomodoro is Sound <==> self.end_event_pomodoro is Sound) && (
                o.end_event_additional_pomodoro is Sound
                    <==> self.end_event_additional_pomodoro is Sound),
                Err(e) => r == Err::<(PomodoroOptions, bool), VerificationError>(e),
            },
    {
        match self.verify(pomodoro_sound_is_file, additional_sound_is_file) {
            Ok(()) => Ok((self, false)),
            Err(VerificationError::InvalidSoundFile) => {
                let PomodoroOptions {
                    duration_pomodoro,
                    additional_duration,
                    duration_short_break,
                    duration_long_break,
                    auto_start_break,
                    auto_start_pomodoro,
                    interval_long_break,
                    end_event_pomodoro,
                    end_event_additional_pomodoro,
                    interval_reminder_after_break,
                    event_reminder_after_break,
                } = self;
                Ok(
                    (
                        PomodoroOptions {
                            duration_pomodoro,
                            additional_duration,
                            duration_short_break,
                            duration_long_break,
                            auto_start_break,
                            auto_start_pomodoro,
                            interval_long_break,
                            end_event_pomodoro: end_event_pomodoro.with_default_sound(),
                            end_event_additional_pomodoro:
                                end_event_additional_pomodoro.with_default_sound(),
                            interval_reminder_after_break,
                            event_reminder_after_break,
                        },
                        true,
                    ),
                )
            },
            Err(e) => Err(e),
        }
    }

    /// Durations in range and a positive long-break interval: what the
    /// planning of a cycle needs.
    pub open spec fn is_usable(&self) -> bool {
        &&& self.duration_pomodoro >= 1
        &&& self.additional_duration >= 0
        &&& self.duration_short_break >= 0
        &&& self.duration_long_break >= 0
        &&& self.interval_long_break >= 1
    }

    /// Whether the options can be planned with, see
    /// [`PomodoroOptions::is_usable`].
    pub fn usable(&self) -> (r: bool)
        ensures
            r == self.is_usable(),
    {
        self.duration_pomodoro >= 1 && self.additional_duration >= 0
            && self.duration_short_break >= 0 && self.duration_long_break >= 0
            && self.interval_long_break >= 1
    }

    /// The options of a fresh installation.
    pub open spec fn is_default(&self) -> bool {
        &&& self.duration_pomodoro == 25
        &&& self.additional_duration == 5
        &&& self.duration_short_break == 5
        &&& self.duration_long_break == 15
        &&& self.auto_start_break
        &&& self.auto_start_pomodoro
        &&& self.interval_long_break == 4
        &&& self.end_event_pomodoro matches EndEvent::Sound { filepath_sound }
            && filepath_sound@.len() == 0
        &&& self.end_event_additional_pomodoro is LockScreen
        &&& self.interval_reminder_after_break == 0
        &&& self.event_reminder_after_break matches EndEvent::Sound { filepath_sound }
            && filepath_sound@.len() == 0
    }
}

impl Default for PomodoroOptions {
    fn default() -> (r: PomodoroOptions)
        ensures
            r.is_default(),
    {
        PomodoroOptions {
            duration_pomodoro: 25,
            additional_duration: 5,
            duration_short_break: 5,
            duration_long_break: 15,
            auto_start_break: true,
            auto_start_pomodoro: true,
            interval_long_break: 4,
            end_event_pomodoro: EndEvent::Sound { filepath_sound: String::new() },
            end_event_additional_pomodoro: EndEvent::LockScreen,
            interval_reminder_after_break: 0,
            event_reminder_after_break: EndEvent::Sound { filepath_sound: String::new() },
        }
    }
}

} // verus!
