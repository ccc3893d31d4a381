//! Events written out as a line of text each.

use crate::read::MidiEvent;
use crate::text::{
    bool_text, decimal, hex_byte, push_bool, push_decimal, push_hex_byte, push_signed_decimal,
    signed_decimal,
};
use vstd::prelude::*;
use vstd::string::*;

verus! {

/// A label followed by one number.
pub open spec fn labelled_one(label: Seq<char>, a: nat) -> Seq<char> {
    label + decimal(a)
}

/// A label followed by two numbers.
pub open spec fn labelled_two(label: Seq<char>, a: nat, b: nat) -> Seq<char> {
    label + decimal(a) + "; "@ + decimal(b)
}

/// A label followed by three numbers.
pub open spec fn labelled_three(label: Seq<char>, a: nat, b: nat, c: nat) -> Seq<char> {
    label + decimal(a) + "; "@ + decimal(b) + "; "@ + decimal(c)
}

/// A label followed by a number and a truth value.
pub open spec fn labelled_switch(label: Seq<char>, a: nat, on: bool) -> Seq<char> {
    label + decimal(a) + "; "@ + bool_text(on)
}

impl MidiEvent {
    /// The event as a line of text: the name of the message and, for most
    /// channel messages and some system messages, its fields in decimal, a
    /// controller number in hexadecimal.
    pub open spec fn description(self) -> Seq<char> {
        match self {
            MidiEvent::NoteOff(channel, key, velocity) => labelled_three(
                "Note Off: "@,
                channel as nat,
                key as nat,
                velocity as nat,
            ),
            MidiEvent::NoteOn(channel, key, velocity) => labelled_three(
                "Note On: "@,
                channel as nat,
                key as nat,
                velocity as nat,
            ),
            MidiEvent::PolyphonicAfterTouch(channel, key, pressure) => labelled_three(
                "Polyphonic After-Touch: "@,
                channel as nat,
                key as nat,
                pressure as nat,
            ),
            MidiEvent::ControllerChange(channel, control, value) => "Controller Change: "@
                + decimal(channel as nat) + "; 0x"@ + hex_byte(control) + "; "@ + decimal(
                value as nat,
            ),
            MidiEvent::AllSoundOff => "All Sound Off"@,
            MidiEvent::ResetAllControllers => "Reset All Controllers"@,
            MidiEvent::AllNotesOff(channel) => labelled_one("All Notes Off: "@, channel as nat),
            MidiEvent::LocalControl(channel, on) => labelled_switch(
                "Local Control: "@,
                channel as nat,
                on,
            ),
            MidiEvent::OmniMode(channel, on) => labelled_switch(
                "Omni Model: "@,
                channel as nat,
                on,
            ),
            MidiEvent::MonoMode(channel, count) => labelled_two(
                "MonoMode: "@,
                channel as nat,
                count as nat,
            ),
            MidiEvent::PolyphonicMode(channel) => labelled_one(
                "PolyphonicMode: "@,
                channel as nat,
            ),
            MidiEvent::ProgramChange(channel, program) => labelled_two(
                "Program Change: "@,
                channel as nat,
                program as nat,
            ),
            MidiEvent::ChannelAfterTouch(channel, pressure) => labelled_two(
                "Channel After-Touch: "@,
                channel as nat,
                pressure as nat,
            ),
            MidiEvent::PitchBend(channel, amount) => "Pitch-Bend: "@ + decimal(channel as nat)
                + "; "@ + signed_decimal(amount as int),
            MidiEvent::MTCQuarterFrame(_, _) => "MIDI Time Code Quarter Frame"@,
            MidiEvent::SongPositionPointer(position) => labelled_one(
                "Song Position Pointer: "@,
                position as nat,
            ),
            MidiEvent::SongSelect(song) => labelled_one("Song Select: "@, song as nat),
            MidiEvent::TuneRequest => "Tune Request"@,
            MidiEvent::Clock => "Timing Clock"@,
            MidiEvent::Start => "Start"@,
            MidiEvent::Continue => "Continue"@,
            MidiEvent::Stop => "Stop"@,
            MidiEvent::ActiveSensing => "Active Sensing"@,
            MidiEvent::SystemReset => "System Reset"@,
            MidiEvent::SystemExclusiveStart(_) => "System Exclusive Start"@,
            MidiEvent::SystemExclusiveData(_) => "System Exclusive Data"@,
            MidiEvent::SystemExclusiveEnd => "System Exclusive End"@,
        }
    }

    /// The event as a line of text.
    pub fn describe(&self) -> (text: String)
        ensures
            text@ == self.description(),
    {
        match self {
            MidiEvent::NoteOff(channel, key, velocity) => describe_three(
                "Note Off: ",
                *channel,
                *key,
                *velocity,
            ),
            MidiEvent::NoteOn(channel, key, velocity) => describe_three(
                "Note On: ",
                *channel,
                *key,
                *velocity,
            ),
            MidiEvent::PolyphonicAfterTouch(channel, key, pressure) => describe_three(
                "Polyphonic After-Touch: ",
                *channel,
                *key,
                *pressure,
            ),
            MidiEvent::ControllerChange(channel, control, value) => {
                let mut text = String::from_str("Controller Change: ");
                push_decimal(&mut text, *channel as u16);
                text.append("; 0x");
                push_hex_byte(&mut text, *control);
                text.append("; ");
                push_decimal(&mut text, *value as u16);
                text
            },
            MidiEvent::AllSoundOff => String::from_str("All Sound Off"),
            MidiEvent::ResetAllControllers => String::from_str("Reset All Controllers"),
            MidiEvent::AllNotesOff(channel) => describe_one("All Notes Off: ", *channel as u16),
            MidiEvent::LocalControl(channel, on) => describe_switch(
                "Local Control: ",
                *channel,
                *on,
            ),
            MidiEvent::OmniMode(channel, on) => describe_switch("Omni Model: ", *channel, *on),
            MidiEvent::MonoMode(channel, count) => describe_two("MonoMode: ", *channel, *count),
            MidiEvent::PolyphonicMode(channel) => describe_one(
                "PolyphonicMode: ",
                *channel as u16,
            ),
            MidiEvent::ProgramChange(channel, program) => describe_two(
                "Program Change: ",
                *channel,
                *program,
            ),
            MidiEvent::ChannelAfterTouch(channel, pressure) => describe_two(
                "Channel After-Touch: ",
                *channel,
                *pressure,
            ),
            MidiEvent::PitchBend(channel, amount) => {
                let mut text = String::from_str("Pitch-Bend: ");
                push_decimal(&mut text, *channel as u16);
                text.append("; ");
                push_signed_decimal(&mut text, *amount);
                text
            },
            MidiEvent::MTCQuarterFrame(_, _) => String::from_str("MIDI Time Code Quarter Frame"),
            MidiEvent::SongPositionPointer(position) => describe_one(
                "Song Position Pointer: ",
                *position,
            ),
            MidiEvent::SongSelect(song) => describe_one("Song Select: ", *song as u16),
            MidiEvent::TuneRequest => String::from_str("Tune Request"),
            MidiEvent::Clock => String::from_str("Timing Clock"),
            MidiEvent::Start => String::from_str("Start"),
            MidiEvent::Continue => String::from_str("Continue"),
            MidiEvent::Stop => String::from_str("Stop"),
            MidiEvent::ActiveSensing => String::from_str("Active Sensing"),
            MidiEvent::SystemReset => String::from_str("System Reset"),
            MidiEvent::SystemExclusiveStart(_) => String::from_str("System Exclusive Start"),
            MidiEvent::SystemExclusiveData(_) => String::from_str("System Exclusive Data"),
            MidiEvent::SystemExclusiveEnd => String::from_str("System Exclusive End"),
        }
    }
}

fn describe_one(label: &'static str, a: u16) -> (text: String)
    ensures
        text@ == labelled_one(label@, a as nat),
{
    let mut text = String::from_str(label);
    push_decimal(&mut text, a);
    text
}

fn describe_two(label: &'static str, a: u8, b: u8) -> (text: String)
    ensures
        text@ == labelled_two(label@, a as nat, b as nat),
{
    let mut text = String::from_str(label);
    push_decimal(&mut text, a as u16);
    text.append("; ");
    push_decimal(&mut text, b as u16);
    text
}

fn describe_three(label: &'static str, a: u8, b: u8, c: u8) -> (text: String)
    ensures
        text@ == labelled_three(label@, a as nat, b as nat, c as nat),
{
    let mut text = String::from_str(label);
    push_decimal(&mut text, a as u16);
    text.append("; ");
    push_decimal(&mut text, b as u16);
    text.append("; ");
    push_decimal(&mut text, c as u16);
    text
}

fn describe_switch(label: &'static str, a: u8, on: bool) -> (text: String)
    ensures
        text@ == labelled_switch(label@, a as nat, on),
{
    let mut text = String::from_str(label);
    push_decimal(&mut text, a as u16);
    text.append("; ");
    push_bool(&mut text, on);
    text
}

} // verus!
