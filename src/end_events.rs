//! What happens when a phase ends on its own: a sound is played or the
//! screen is locked. Performing the action is left to the caller; this
//! module only describes it.
use vstd::prelude::*;

verus! {

/// The action taken at the natural end of a phase.
pub enum EndEvent {
    /// Play the sound file at `filepath_sound`; an empty path stands for the
    /// default sound.
    Sound { filepath_sound: String },
    /// Lock the screen.
    LockScreen,
}

impl EndEvent {
    /// A sound event whose file is named but is not a file on disk.
    pub open spec fn names_missing_sound(&self, is_file: bool) -> bool {
        match self {
            EndEvent::Sound { filepath_sound } => !is_file && filepath_sound@.len() != 0,
            EndEvent::LockScreen => false,
        }
    }

    /// Whether this is a sound event with a file named that, as `is_file`
    /// reports, is not on disk.
    pub fn has_missing_sound(&self, is_file: bool) -> (r: bool)
        ensures
            r == self.names_missing_sound(is_file),
    {
        match self {
            EndEvent::Sound { filepath_sound } => !is_file && !filepath_sound.as_str().is_empty(),
            EndEvent::LockScreen => false,
        }
    }

    /// The same event with the default sound in place of a named file; a
    /// screen lock stays as it is.
    pub fn with_default_sound(self) -> (r: EndEvent)
        ensures
            match self {
                EndEvent::Sound { .. } => r matches EndEvent::Sound { filepath_sound }
                    && filepath_sound@.len() == 0,
                EndEvent::LockScreen => r is LockScreen,
            },
    {
        match self {
            EndEvent::Sound { .. } => EndEvent::Sound { filepath_sound: String::new() },
            EndEvent::LockScreen => EndEvent::LockScreen,
        }
    }
}

} // verus!
