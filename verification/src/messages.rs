//! MIDI messages sorted by family: channel mode, channel voice, system
//! common and system realtime.

use crate::{i14, u14, u7, Channel};
use vstd::prelude::*;

verus! {

/// Channel mode: what the reserved controller numbers ask of a channel.
#[derive(Debug, Copy, Clone, Eq, PartialEq, Structural)]
pub enum ChannelMode {
    AllSoundOff,
    ResetAllControllers,
    /// On.
    LocalControl(bool),
    AllNotesOff,
    OmniModeOff,
    OmniModeOn,
    /// Number of channels.
    MonoModeOn(u7),
    PolyModeOn,
}

impl ChannelMode {
    /// The name of the mode.
    pub open spec fn label_text(self) -> Seq<char> {
        match self {
            ChannelMode::AllSoundOff => "All sound off"@,
            ChannelMode::ResetAllControllers => "Reset all controllers"@,
            ChannelMode::LocalControl(_) => "Local Control"@,
            ChannelMode::AllNotesOff => "All notes off"@,
            ChannelMode::OmniModeOff => "Omni mode off"@,
            ChannelMode::OmniModeOn => "Omni mode on"@,
            ChannelMode::MonoModeOn(_) => "Mono mode on"@,
            ChannelMode::PolyModeOn => "Poly mode on"@,
        }
    }

    /// The name of the mode.
    pub fn label(&self) -> (text: &'static str)
        ensures
            text@ == self.label_text(),
    {
        match self {
            ChannelMode::AllSoundOff => "All sound off",
            ChannelMode::ResetAllControllers => "Reset all controllers",
            ChannelMode::LocalControl(_) => "Local Control",
            ChannelMode::AllNotesOff => "All notes off",
            ChannelMode::OmniModeOff => "Omni mode off",
            ChannelMode::OmniModeOn => "Omni mode on",
            ChannelMode::MonoModeOn(_) => "Mono mode on",
            ChannelMode::PolyModeOn => "Poly mode on",
        }
    }
}

/// Channel voice message.
#[derive(Debug, Copy, Clone, Eq, PartialEq, Structural)]
pub enum ChannelMessage {
    /// Channel, key, velocity.
    NoteOff(Channel, u7, u7),
    /// Channel, key, velocity.
    NoteOn(Channel, u7, u7),
    /// Channel, key, pressure.
    AfterTouchPoly(Channel, u7, u7),
    /// Channel, controller number, value.
    ControllerChange(Channel, u7, u7),
    /// Channel, program number.
    ProgramChange(Channel, u7),
    /// Channel, pressure.
    AfterTouchChannel(Channel, u7),
    /// Channel, amount.
    PitchBend(Channel, i14),
}

impl ChannelMessage {
    /// The name of the message.
    pub open spec fn label_text(self) -> Seq<char> {
        match self {
            ChannelMessage::NoteOff(_, _, _) => "Note Off"@,
            ChannelMessage::NoteOn(_, _, _) => "Note On"@,
            ChannelMessage::AfterTouchPoly(_, _, _) => "Polyphonic After Touch"@,
            ChannelMessage::ControllerChange(_, _, _) => "Controller Change"@,
            ChannelMessage::ProgramChange(_, _) => "Program Change"@,
            ChannelMessage::AfterTouchChannel(_, _) => "Channel After Touch"@,
            ChannelMessage::PitchBend(_, _) => "Pitch Bend"@,
        }
    }

    /// The name of the message.
    pub fn label(&self) -> (text: &'static str)
        ensures
            text@ == self.label_text(),
    {
        match self {
            ChannelMessage::NoteOff(_, _, _) => "Note Off",
            ChannelMessage::NoteOn(_, _, _) => "Note On",
            ChannelMessage::AfterTouchPoly(_, _, _) => "Polyphonic After Touch",
            ChannelMessage::ControllerChange(_, _, _) => "Controller Change",
            ChannelMessage::ProgramChange(_, _) => "Program Change",
            ChannelMessage::AfterTouchChannel(_, _) => "Channel After Touch",
            ChannelMessage::PitchBend(_, _) => "Pitch Bend",
        }
    }
}

/// System common message.
#[derive(Debug, Copy, Clone, Eq, PartialEq, Structural)]
pub enum SystemMessage {
    SysExStart,
    /// Piece and nibble.
    TimeCodeQuarterFrame(u7, u7),
    /// Position in MIDI beats.
    SongPositionPointer(u14),
    /// Song number.
    SongSelect(u7),
    TuneRequest,
}

impl SystemMessage {
    /// The name of the message.
    pub open spec fn label_text(self) -> Seq<char> {
        match self {
            SystemMessage::SysExStart => "System Ex Start"@,
            SystemMessage::TimeCodeQuarterFrame(_, _) => "Midi Time-code Quarter Frame"@,
            SystemMessage::SongPositionPointer(_) => "Song Position Pointer"@,
            SystemMessage::SongSelect(_) => "Song Select"@,
            SystemMessage::TuneRequest => "Tune Request"@,
        }
    }

    /// The name of the message.
    pub fn label(&self) -> (text: &'static str)
        ensures
            text@ == self.label_text(),
    {
        match self {
            SystemMessage::SysExStart => "System Ex Start",
            SystemMessage::TimeCodeQuarterFrame(_, _) => "Midi Time-code Quarter Frame",
            SystemMessage::SongPositionPointer(_) => "Song Position Pointer",
            SystemMessage::SongSelect(_) => "Song Select",
            SystemMessage::TuneRequest => "Tune Request",
        }
    }
}

/// System realtime message.
#[derive(Debug, Copy, Clone, Eq, PartialEq, Structural)]
pub enum SystemRTMessage {
    Clock,
    Start,
    Continue,
    Stop,
    ActiveSensing,
    SystemReset,
}

impl SystemRTMessage {
    /// The name of the message.
    pub open spec fn label_text(self) -> Seq<char> {
        match self {
            SystemRTMessage::Clock => "System Real Time - Timing Clock"@,
            SystemRTMessage::Start => "System Real Time - Start"@,
            SystemRTMessage::Continue => "System Real Time - Continue"@,
            SystemRTMessage::Stop => "System Real Time - Stop"@,
            SystemRTMessage::ActiveSensing => "System Real Time - Active Sensing"@,
            SystemRTMessage::SystemReset => "System Real Time - System Reset"@,
        }
    }

    /// The name of the message.
    pub fn label(&self) -> (text: &'static str)
        ensures
            text@ == self.label_text(),
    {
        match self {
            SystemRTMessage::Clock => "System Real Time - Timing Clock",
            SystemRTMessage::Start => "System Real Time - Start",
            SystemRTMessage::Continue => "System Real Time - Continue",
            SystemRTMessage::Stop => "System Real Time - Stop",
            SystemRTMessage::ActiveSensing => "System Real Time - Active Sensing",
            SystemRTMessage::SystemReset => "System Real Time - System Reset",
        }
    }
}

/// The family of a message.
#[derive(Debug, Copy, Clone, Eq, PartialEq, Structural)]
pub enum Message {
    ChannelMessage,
}

} // verus!
