//! The ways in which playing a file can fail. Every one of them is fatal:
//! nothing is retried and nothing is played in part.

use vstd::prelude::*;

verus! {

/// Why a file could not be played.
#[derive(Clone, Copy, Debug, PartialEq, Eq, Structural)]
pub enum PlayerError {
    /// The path names no file that can be read.
    FileAccess,
    /// The content was not recognised, or is not audio.
    UnknownFormat,
    /// The duration of the track could not be worked out.
    DurationUnavailable,
    /// The audio output device could not be opened.
    PlaybackInit,
}

impl PlayerError {
    /// The sentence shown to the user.
    pub open spec fn spec_message(self) -> Seq<char> {
        match self {
            PlayerError::FileAccess => "the file cannot be read"@,
            PlayerError::UnknownFormat => "the file is not audio of a known type"@,
            PlayerError::DurationUnavailable => "the duration of the track cannot be determined"@,
            PlayerError::PlaybackInit => "the audio output device is unavailable"@,
        }
    }

    /// The sentence shown to the user.
    pub fn message(&self) -> (text: &'static str)
        ensures
            text@ == self.spec_message(),
    {
        match self {
            PlayerError::FileAccess => "the file cannot be read",
            PlayerError::UnknownFormat => "the file is not audio of a known type",
            PlayerError::DurationUnavailable => "the duration of the track cannot be determined",
            PlayerError::PlaybackInit => "the audio output device is unavailable",
        }
    }
}

} // verus!
