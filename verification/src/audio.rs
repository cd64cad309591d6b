//! Audio-facing data: the playback commands a script can issue and the
//! message dispatched to the audio collaborator.
use vstd::prelude::*;

verus! {

/// Playback command of an audio stage direction.
#[derive(Clone, Copy, Debug, PartialEq, Eq, Structural)]
pub enum AudioCommand {
    Start,
    Stop,
    Pause,
    Unpause,
}

/// The command dispatched to the audio collaborator; the volume is the
/// integer percentage the script gave.
#[derive(Debug)]
pub struct AudioChangeMessage {
    pub command: AudioCommand,
    pub category: String,
    pub audio: String,
    pub volume: i64,
}

/// Mathematical image of an [`AudioChangeMessage`].
pub struct AudioChangeMessageV {
    pub command: AudioCommand,
    pub category: Seq<char>,
    pub audio: Seq<char>,
    pub volume: i64,
}

impl View for AudioChangeMessage {
    type V = AudioChangeMessageV;

    open spec fn view(&self) -> AudioChangeMessageV {
        AudioChangeMessageV {
            command: self.command,
            category: self.category@,
            audio: self.audio@,
            volume: self.volume,
        }
    }
}

} // verus!
