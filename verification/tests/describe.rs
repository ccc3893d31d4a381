use sc_midi::messages::{ChannelMessage, ChannelMode, Message, SystemMessage, SystemRTMessage};
use sc_midi::{MidiEvent, SysExID};

#[test]
fn channel_voice_events_as_text() {
    assert_eq!(MidiEvent::NoteOff(2, 64, 127).describe(), "Note Off: 2; 64; 127");
    assert_eq!(MidiEvent::NoteOn(0, 0, 0).describe(), "Note On: 0; 0; 0");
    assert_eq!(MidiEvent::NoteOn(15, 100, 9).describe(), "Note On: 15; 100; 9");
    assert_eq!(
        MidiEvent::PolyphonicAfterTouch(1, 10, 20).describe(),
        "Polyphonic After-Touch: 1; 10; 20"
    );
    assert_eq!(MidiEvent::ProgramChange(3, 42).describe(), "Program Change: 3; 42");
    assert_eq!(MidiEvent::ChannelAfterTouch(4, 99).describe(), "Channel After-Touch: 4; 99");
    assert_eq!(MidiEvent::NoteOn(255, 200, 110).describe(), "Note On: 255; 200; 110");
}

#[test]
fn controller_number_in_hexadecimal() {
    assert_eq!(MidiEvent::ControllerChange(0, 7, 64).describe(), "Controller Change: 0; 0x07; 64");
    assert_eq!(
        MidiEvent::ControllerChange(12, 0x5A, 1).describe(),
        "Controller Change: 12; 0x5A; 1"
    );
    assert_eq!(
        MidiEvent::ControllerChange(1, 0xFF, 0).describe(),
        "Controller Change: 1; 0xFF; 0"
    );
    assert_eq!(
        MidiEvent::ControllerChange(1, 0x1B, 0).describe(),
        "Controller Change: 1; 0x1B; 0"
    );
    assert_eq!(
        MidiEvent::ControllerChange(1, 0xCD, 0).describe(),
        "Controller Change: 1; 0xCD; 0"
    );
    assert_eq!(
        MidiEvent::ControllerChange(1, 0xE0, 0).describe(),
        "Controller Change: 1; 0xE0; 0"
    );
}

#[test]
fn channel_mode_events_as_text() {
    assert_eq!(MidiEvent::AllSoundOff.describe(), "All Sound Off");
    assert_eq!(MidiEvent::ResetAllControllers.describe(), "Reset All Controllers");
    assert_eq!(MidiEvent::AllNotesOff(5).describe(), "All Notes Off: 5");
    assert_eq!(MidiEvent::LocalControl(1, true).describe(), "Local Control: 1; true");
    assert_eq!(MidiEvent::LocalControl(1, false).describe(), "Local Control: 1; false");
    assert_eq!(MidiEvent::OmniMode(2, true).describe(), "Omni Model: 2; true");
    assert_eq!(MidiEvent::OmniMode(2, false).describe(), "Omni Model: 2; false");
    assert_eq!(MidiEvent::MonoMode(3, 4).describe(), "MonoMode: 3; 4");
    assert_eq!(MidiEvent::PolyphonicMode(6).describe(), "PolyphonicMode: 6");
}

#[test]
fn pitch_bend_as_text() {
    assert_eq!(MidiEvent::PitchBend(0, 0).describe(), "Pitch-Bend: 0; 0");
    assert_eq!(MidiEvent::PitchBend(1, 8191).describe(), "Pitch-Bend: 1; 8191");
    assert_eq!(MidiEvent::PitchBend(2, -8192).describe(), "Pitch-Bend: 2; -8192");
    assert_eq!(MidiEvent::PitchBend(2, -1).describe(), "Pitch-Bend: 2; -1");
    assert_eq!(MidiEvent::PitchBend(2, i16::MIN).describe(), "Pitch-Bend: 2; -32768");
    assert_eq!(MidiEvent::PitchBend(2, i16::MAX).describe(), "Pitch-Bend: 2; 32767");
}

#[test]
fn system_events_as_text() {
    assert_eq!(MidiEvent::MTCQuarterFrame(3, 5).describe(), "MIDI Time Code Quarter Frame");
    assert_eq!(MidiEvent::SongPositionPointer(0).describe(), "Song Position Pointer: 0");
    assert_eq!(MidiEvent::SongPositionPointer(16383).describe(), "Song Position Pointer: 16383");
    assert_eq!(MidiEvent::SongPositionPointer(65535).describe(), "Song Position Pointer: 65535");
    assert_eq!(MidiEvent::SongPositionPointer(1005).describe(), "Song Position Pointer: 1005");
    assert_eq!(MidiEvent::SongSelect(12).describe(), "Song Select: 12");
    assert_eq!(MidiEvent::TuneRequest.describe(), "Tune Request");
    assert_eq!(MidiEvent::Clock.describe(), "Timing Clock");
    assert_eq!(MidiEvent::Start.describe(), "Start");
    assert_eq!(MidiEvent::Continue.describe(), "Continue");
    assert_eq!(MidiEvent::Stop.describe(), "Stop");
    assert_eq!(MidiEvent::ActiveSensing.describe(), "Active Sensing");
    assert_eq!(MidiEvent::SystemReset.describe(), "System Reset");
    assert_eq!(
        MidiEvent::SystemExclusiveStart(SysExID::Byte(0x43)).describe(),
        "System Exclusive Start"
    );
    assert_eq!(
        MidiEvent::SystemExclusiveStart(SysExID::Word(0x1029)).describe(),
        "System Exclusive Start"
    );
    assert_eq!(MidiEvent::SystemExclusiveData(1).describe(), "System Exclusive Data");
    assert_eq!(MidiEvent::SystemExclusiveEnd.describe(), "System Exclusive End");
}

#[test]
fn description_agrees_with_std_formatting() {
    for n in 0..=255u8 {
        assert_eq!(MidiEvent::SongSelect(n).describe(), format!("Song Select: {}", n));
        assert_eq!(
            MidiEvent::ControllerChange(n, n, n).describe(),
            format!("Controller Change: {}; 0x{:02X}; {}", n, n, n)
        );
    }
    for n in [0u16, 9, 10, 99, 100, 999, 1000, 9999, 10000, 16383, 65535] {
        assert_eq!(
            MidiEvent::SongPositionPointer(n).describe(),
            format!("Song Position Pointer: {}", n)
        );
    }
    for n in [-32768i16, -8192, -100, -10, -9, -1, 0, 1, 9, 10, 8191, 32767] {
        assert_eq!(MidiEvent::PitchBend(7, n).describe(), format!("Pitch-Bend: {}; {}", 7, n));
    }
}

#[test]
fn channel_mode_labels() {
    assert_eq!(ChannelMode::AllSoundOff.label(), "All sound off");
    assert_eq!(ChannelMode::ResetAllControllers.label(), "Reset all controllers");
    assert_eq!(ChannelMode::LocalControl(true).label(), "Local Control");
    assert_eq!(ChannelMode::AllNotesOff.label(), "All notes off");
    assert_eq!(ChannelMode::OmniModeOff.label(), "Omni mode off");
    assert_eq!(ChannelMode::OmniModeOn.label(), "Omni mode on");
    assert_eq!(ChannelMode::MonoModeOn(3).label(), "Mono mode on");
    assert_eq!(ChannelMode::PolyModeOn.label(), "Poly mode on");
}

#[test]
fn channel_message_labels() {
    assert_eq!(ChannelMessage::NoteOff(0, 1, 2).label(), "Note Off");
    assert_eq!(ChannelMessage::NoteOn(0, 1, 2).label(), "Note On");
    assert_eq!(ChannelMessage::AfterTouchPoly(0, 1, 2).label(), "Polyphonic After Touch");
    assert_eq!(ChannelMessage::ControllerChange(0, 1, 2).label(), "Controller Change");
    assert_eq!(ChannelMessage::ProgramChange(0, 1).label(), "Program Change");
    assert_eq!(ChannelMessage::AfterTouchChannel(0, 1).label(), "Channel After Touch");
    assert_eq!(ChannelMessage::PitchBend(0, -1).label(), "Pitch Bend");
}

#[test]
fn system_message_labels() {
    assert_eq!(SystemMessage::SysExStart.label(), "System Ex Start");
    assert_eq!(SystemMessage::TimeCodeQuarterFrame(1, 2).label(), "Midi Time-code Quarter Frame");
    assert_eq!(SystemMessage::SongPositionPointer(3).label(), "Song Position Pointer");
    assert_eq!(SystemMessage::SongSelect(4).label(), "Song Select");
    assert_eq!(SystemMessage::TuneRequest.label(), "Tune Request");
}

#[test]
fn system_realtime_message_labels() {
    assert_eq!(SystemRTMessage::Clock.label(), "System Real Time - Timing Clock");
    assert_eq!(SystemRTMessage::Start.label(), "System Real Time - Start");
    assert_eq!(SystemRTMessage::Continue.label(), "System Real Time - Continue");
    assert_eq!(SystemRTMessage::Stop.label(), "System Real Time - Stop");
    assert_eq!(SystemRTMessage::ActiveSensing.label(), "System Real Time - Active Sensing");
    assert_eq!(SystemRTMessage::SystemReset.label(), "System Real Time - System Reset");
}

#[test]
fn message_family() {
    assert_eq!(Message::ChannelMessage, Message::ChannelMessage);
}
