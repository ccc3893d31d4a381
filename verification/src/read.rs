//! The decoder: a state machine that takes a MIDI byte stream one byte at a
//! time and hands back the event that a byte completes, if it completes one.

use crate::{i14, u14, u3, u4, u7, Channel};
use vstd::prelude::*;

verus! {

/// Manufacturer ID at the head of a System Exclusive block.
#[derive(Debug, Eq, PartialEq, Structural)]
pub enum SysExID {
    /// An ID of one byte, `1..=127`.
    Byte(u7),
    /// An ID of two bytes, sent after a zero byte: fourteen bits, the first
    /// byte received being the upper seven.
    Word(u14),
}

/// One decoded MIDI message.
#[derive(Debug, Eq, PartialEq, Structural)]
pub enum MidiEvent {
    // Channel voice and channel mode
    /// Channel, key, velocity.
    NoteOff(Channel, u7, u7),
    /// Channel.
    AllNotesOff(Channel),
    /// Channel, key, velocity.
    NoteOn(Channel, u7, u7),
    /// Channel, key, pressure.
    PolyphonicAfterTouch(Channel, u7, u7),
    /// Channel, controller number (below `0x78`), value.
    ControllerChange(Channel, u7, u7),
    AllSoundOff,
    ResetAllControllers,
    /// Channel, on.
    LocalControl(Channel, bool),
    /// Channel, on.
    OmniMode(Channel, bool),
    /// Channel, number of channels.
    MonoMode(Channel, u7),
    /// Channel.
    PolyphonicMode(Channel),
    /// Channel, program number.
    ProgramChange(Channel, u7),
    /// Channel, pressure.
    ChannelAfterTouch(Channel, u7),
    /// Channel, amount: zero is the wheel at rest.
    PitchBend(Channel, i14),
    // System common
    /// Piece of the time code (`0..=7`) and its nibble.
    MTCQuarterFrame(u3, u4),
    /// Position in MIDI beats (one beat is six MIDI clocks).
    SongPositionPointer(u14),
    /// Song number.
    SongSelect(u7),
    TuneRequest,
    // System realtime
    Clock,
    Start,
    Continue,
    Stop,
    ActiveSensing,
    SystemReset,
    // System exclusive
    /// Head of a System Exclusive block, with the manufacturer ID.
    SystemExclusiveStart(SysExID),
    /// One data byte of a System Exclusive block.
    SystemExclusiveData(u7),
    SystemExclusiveEnd,
}

impl SysExID {
    /// The ID lies in the range of its form.
    pub open spec fn wf(self) -> bool {
        match self {
            SysExID::Byte(id) => 0 < id < 0x80,
            SysExID::Word(id) => id < 0x4000,
        }
    }
}

impl MidiEvent {
    /// Every field lies in its numeric domain: channels in `0..=15`, data
    /// bytes in `0..=127`, fourteen-bit values in `0..=16383`, the pitch-bend
    /// amount in `-8192..=8191`, and a `ControllerChange` carries no
    /// controller number that is reserved for a channel mode.
    pub open spec fn wf(self) -> bool {
        match self {
            MidiEvent::NoteOff(c, k, v) => c < 16 && k < 0x80 && v < 0x80,
            MidiEvent::AllNotesOff(c) => c < 16,
            MidiEvent::NoteOn(c, k, v) => c < 16 && k < 0x80 && v < 0x80,
            MidiEvent::PolyphonicAfterTouch(c, k, p) => c < 16 && k < 0x80 && p < 0x80,
            MidiEvent::ControllerChange(c, n, v) => c < 16 && n < 0x78 && v < 0x80,
            MidiEvent::AllSoundOff => true,
            MidiEvent::ResetAllControllers => true,
            MidiEvent::LocalControl(c, _) => c < 16,
            MidiEvent::OmniMode(c, _) => c < 16,
            MidiEvent::MonoMode(c, n) => c < 16 && n < 0x80,
            MidiEvent::PolyphonicMode(c) => c < 16,
            MidiEvent::ProgramChange(c, p) => c < 16 && p < 0x80,
            MidiEvent::ChannelAfterTouch(c, p) => c < 16 && p < 0x80,
            MidiEvent::PitchBend(c, a) => c < 16 && -0x2000 <= a < 0x2000,
            MidiEvent::MTCQuarterFrame(piece, nibble) => piece < 8 && nibble < 16,
            MidiEvent::SongPositionPointer(p) => p < 0x4000,
            MidiEvent::SongSelect(n) => n < 0x80,
            MidiEvent::TuneRequest => true,
            MidiEvent::Clock => true,
            MidiEvent::Start => true,
            MidiEvent::Continue => true,
            MidiEvent::Stop => true,
            MidiEvent::ActiveSensing => true,
            MidiEvent::SystemReset => true,
            MidiEvent::SystemExclusiveStart(id) => id.wf(),
            MidiEvent::SystemExclusiveData(b) => b < 0x80,
            MidiEvent::SystemExclusiveEnd => true,
        }
    }

    /// The event is one of the six system-realtime events.
    pub open spec fn is_realtime(self) -> bool {
        self is Clock || self is Start || self is Continue || self is Stop
            || self is ActiveSensing || self is SystemReset
    }
}

/// The bit that tells a status byte from a data byte.
const STATUS_MASK: u8 = 0b1000_0000;

/// The bits of a channel status byte that hold the channel.
const CHANNEL_MASK: u8 = 0b0000_1111;

/// The bits of a channel status byte that hold the message; all set in a
/// system status byte.
const SYSTEM_MASK: u8 = 0b1111_0000;

/// The bits that are all set in a system-realtime byte.
const SYSTEM_RT_MASK: u8 = 0b1111_1000;

/// First status byte of the system-realtime range.
pub const SYSTEM_RT_FIRST: u8 = 0xF8;

/// First status byte of the system range (common and realtime).
pub const SYSTEM_FIRST: u8 = 0xF0;

/// First status byte: the bytes below it are data bytes.
pub const STATUS_FIRST: u8 = 0x80;

// Channel voice messages, as the upper nibble of the status byte.
pub const MESSAGE_NOTE_OFF: u8 = 0x80;

pub const MESSAGE_NOTE_ON: u8 = 0x90;

pub const MESSAGE_POLY_AFTER_TOUCH: u8 = 0xA0;

/// Controller change, or channel mode for the controller numbers from `0x78`.
pub const MESSAGE_CONTROLLER_CHANGE: u8 = 0xB0;

pub const MESSAGE_PROGRAM_CHANGE: u8 = 0xC0;

pub const MESSAGE_CHANNEL_AFTER_TOUCH: u8 = 0xD0;

pub const MESSAGE_PITCH_BEND: u8 = 0xE0;

// System common messages.
pub const MESSAGE_SYS_EX_START: u8 = 0xF0;

pub const MESSAGE_MTC_QUARTER_FRAME: u8 = 0xF1;

pub const MESSAGE_SONG_POSITION_PTR: u8 = 0xF2;

pub const MESSAGE_SONG_SELECT: u8 = 0xF3;

pub const MESSAGE_TUNE_REQUEST: u8 = 0xF6;

pub const MESSAGE_SYS_EX_END: u8 = 0xF7;

// System realtime messages.
pub const MESSAGE_CLOCK: u8 = 0xF8;

pub const MESSAGE_START: u8 = 0xFA;

pub const MESSAGE_CONTINUE: u8 = 0xFB;

pub const MESSAGE_STOP: u8 = 0xFC;

pub const MESSAGE_ACTIVE_SENSING: u8 = 0xFE;

pub const MESSAGE_SYSTEM_RESET: u8 = 0xFF;

// Controller numbers that stand for a channel mode.
pub const CHANNEL_MODE_ALL_SOUND_OFF: u7 = 0x78;

pub const CHANNEL_MODE_RESET_ALL: u7 = 0x79;

pub const CHANNEL_MODE_LOCAL_CONTROL: u7 = 0x7A;

pub const CHANNEL_MODE_ALL_NOTES_OFF: u7 = 0x7B;

pub const CHANNEL_MODE_OMNI_ON: u7 = 0x7C;

pub const CHANNEL_MODE_OMNI_OFF: u7 = 0x7D;

pub const CHANNEL_MODE_MONO_ON: u7 = 0x7E;

pub const CHANNEL_MODE_POLYPHONIC_ON: u7 = 0x7F;

/// Where the decoder stands within a message.
#[derive(Debug, Copy, Clone, Eq, PartialEq, Structural)]
pub enum Phase {
    /// Idle: no message is in progress, and data bytes are dropped until the
    /// next status byte.
    Start,
    /// A status byte was taken; the first data byte is awaited.
    ByteTwo,
    /// The first data byte was taken; the second is awaited.
    ByteThree,
    /// The upper byte of a two-byte System Exclusive ID was taken; the lower
    /// byte is awaited.
    SysExID,
    /// Inside a System Exclusive block: every data byte is handed out.
    SysExData,
}

/// What a decoder remembers between two bytes.
pub struct ReaderState {
    pub phase: Phase,
    /// Status of the message in progress: the status byte itself for a system
    /// message, its upper nibble (`0x80`, `0x90`, ..) for a channel message.
    pub message: u8,
    /// Channel of the message in progress; zero for a system message.
    pub channel: u8,
    /// The data byte that is kept until the next one arrives.
    pub data_byte: u8,
}

/// A byte of the system-realtime range, `0xF8..=0xFF`.
pub open spec fn is_realtime(byte: u8) -> bool {
    byte >= SYSTEM_RT_FIRST
}

/// A status byte: the high bit is set.
pub open spec fn is_status(byte: u8) -> bool {
    byte >= STATUS_FIRST
}

/// The value of two data bytes taken as fourteen bits, `msb` above `lsb`.
pub open spec fn u14_of(msb: u8, lsb: u8) -> int {
    msb as int * 128 + lsb as int
}

/// The pitch-bend amount that two data bytes stand for: their fourteen-bit
/// value measured from the centre `0x2000`, so that the wheel at rest is
/// zero, full down is `-8192` and full up is `8191`.
pub open spec fn i14_of(msb: u8, lsb: u8) -> int {
    u14_of(msb, lsb) - 0x2000
}

/// The event that a system-realtime byte stands for by itself; `None` for the
/// two codes of that range that are not defined.
pub open spec fn realtime_event(byte: u8) -> Option<MidiEvent> {
    if byte == MESSAGE_CLOCK {
        Some(MidiEvent::Clock)
    } else if byte == MESSAGE_START {
        Some(MidiEvent::Start)
    } else if byte == MESSAGE_CONTINUE {
        Some(MidiEvent::Continue)
    } else if byte == MESSAGE_STOP {
        Some(MidiEvent::Stop)
    } else if byte == MESSAGE_ACTIVE_SENSING {
        Some(MidiEvent::ActiveSensing)
    } else if byte == MESSAGE_SYSTEM_RESET {
        Some(MidiEvent::SystemReset)
    } else {
        None
    }
}

/// A system message that is complete with its status byte.
pub open spec fn is_single_byte_message(message: u8) -> bool {
    message == MESSAGE_TUNE_REQUEST || message == MESSAGE_SYS_EX_END
}

/// A message that is complete with one data byte.
pub open spec fn takes_one_data_byte(message: u8) -> bool {
    message == MESSAGE_PROGRAM_CHANGE || message == MESSAGE_CHANNEL_AFTER_TOUCH || message
        == MESSAGE_MTC_QUARTER_FRAME || message == MESSAGE_SONG_SELECT
}

/// A message that is complete with two data bytes and then repeats under
/// running status.
pub open spec fn takes_two_data_bytes(message: u8) -> bool {
    message == MESSAGE_NOTE_OFF || message == MESSAGE_NOTE_ON || message
        == MESSAGE_POLY_AFTER_TOUCH || message == MESSAGE_CONTROLLER_CHANGE || message
        == MESSAGE_PITCH_BEND || message == MESSAGE_SONG_POSITION_PTR
}

/// The state that a status byte below the realtime range leaves, whatever
/// the state before it: the message and channel that the byte names, no data
/// byte kept, and the first data byte awaited unless the message is complete
/// already.
pub open spec fn state_after_status(byte: u8) -> ReaderState {
    if byte >= SYSTEM_FIRST {
        ReaderState {
            phase: if is_single_byte_message(byte) {
                Phase::Start
            } else {
                Phase::ByteTwo
            },
            message: byte,
            channel: 0,
            data_byte: 0,
        }
    } else {
        ReaderState {
            phase: Phase::ByteTwo,
            message: (byte - byte % 16) as u8,
            channel: byte % 16,
            data_byte: 0,
        }
    }
}

/// The event that a status byte below the realtime range completes by itself.
pub open spec fn event_of_status(byte: u8) -> Option<MidiEvent> {
    if byte == MESSAGE_TUNE_REQUEST {
        Some(MidiEvent::TuneRequest)
    } else if byte == MESSAGE_SYS_EX_END {
        Some(MidiEvent::SystemExclusiveEnd)
    } else {
        None
    }
}

/// The event of a message that one data byte completes.
pub open spec fn one_byte_event(message: u8, channel: u8, byte: u8) -> MidiEvent
    recommends
        takes_one_data_byte(message),
{
    if message == MESSAGE_PROGRAM_CHANGE {
        MidiEvent::ProgramChange(channel, byte)
    } else if message == MESSAGE_CHANNEL_AFTER_TOUCH {
        MidiEvent::ChannelAfterTouch(channel, byte)
    } else if message == MESSAGE_MTC_QUARTER_FRAME {
        MidiEvent::MTCQuarterFrame(((byte / 16) % 8) as u8, byte % 16)
    } else {
        MidiEvent::SongSelect(byte)
    }
}

/// What a completed controller change means: a channel mode where the
/// controller number is one of the eight reserved ones, else a plain
/// controller change.
pub open spec fn controller_event(channel: u8, control: u8, value: u8) -> MidiEvent {
    if control == CHANNEL_MODE_ALL_SOUND_OFF {
        MidiEvent::AllSoundOff
    } else if control == CHANNEL_MODE_RESET_ALL {
        MidiEvent::ResetAllControllers
    } else if control == CHANNEL_MODE_LOCAL_CONTROL {
        MidiEvent::LocalControl(channel, value != 0)
    } else if control == CHANNEL_MODE_ALL_NOTES_OFF {
        MidiEvent::AllNotesOff(channel)
    } else if control == CHANNEL_MODE_OMNI_ON {
        MidiEvent::OmniMode(channel, true)
    } else if control == CHANNEL_MODE_OMNI_OFF {
        MidiEvent::OmniMode(channel, false)
    } else if control == CHANNEL_MODE_MONO_ON {
        MidiEvent::MonoMode(channel, value)
    } else if control == CHANNEL_MODE_POLYPHONIC_ON {
        MidiEvent::PolyphonicMode(channel)
    } else {
        MidiEvent::ControllerChange(channel, control, value)
    }
}

/// The event of a message that two data bytes complete, `first` and `second`
/// in the order received. Pitch bend and song position send the lower seven
/// bits first.
pub open spec fn two_byte_event(message: u8, channel: u8, first: u8, second: u8) -> MidiEvent
    recommends
        takes_two_data_bytes(message),
{
    if message == MESSAGE_NOTE_OFF {
        MidiEvent::NoteOff(channel, first, second)
    } else if message == MESSAGE_NOTE_ON {
        MidiEvent::NoteOn(channel, first, second)
    } else if message == MESSAGE_POLY_AFTER_TOUCH {
        MidiEvent::PolyphonicAfterTouch(channel, first, second)
    } else if message == MESSAGE_CONTROLLER_CHANGE {
        controller_event(channel, first, second)
    } else if message == MESSAGE_PITCH_BEND {
        MidiEvent::PitchBend(channel, i14_of(second, first) as i16)
    } else {
        MidiEvent::SongPositionPointer(u14_of(second, first) as u16)
    }
}

/// The state after a data byte.
pub open spec fn state_after_data(s: ReaderState, byte: u8) -> ReaderState {
    match s.phase {
        Phase::Start => s,
        Phase::ByteTwo => {
            if takes_one_data_byte(s.message) {
                s
            } else if s.message == MESSAGE_SYS_EX_START {
                if byte == 0 {
                    ReaderState { phase: Phase::ByteThree, ..s }
                } else {
                    ReaderState { phase: Phase::SysExData, ..s }
                }
            } else {
                ReaderState { phase: Phase::ByteThree, data_byte: byte, ..s }
            }
        },
        Phase::ByteThree => {
            if takes_two_data_bytes(s.message) {
                ReaderState { phase: Phase::ByteTwo, ..s }
            } else if s.message == MESSAGE_SYS_EX_START {
                ReaderState { phase: Phase::SysExID, data_byte: byte, ..s }
            } else {
                ReaderState { phase: Phase::Start, ..s }
            }
        },
        Phase::SysExID => ReaderState { phase: Phase::SysExData, ..s },
        Phase::SysExData => s,
    }
}

/// The event that a data byte completes.
pub open spec fn event_of_data(s: ReaderState, byte: u8) -> Option<MidiEvent> {
    match s.phase {
        Phase::Start => None,
        Phase::ByteTwo => {
            if takes_one_data_byte(s.message) {
                Some(one_byte_event(s.message, s.channel, byte))
            } else if s.message == MESSAGE_SYS_EX_START && byte != 0 {
                Some(MidiEvent::SystemExclusiveStart(SysExID::Byte(byte)))
            } else {
                None
            }
        },
        Phase::ByteThree => {
            if takes_two_data_bytes(s.message) {
                Some(two_byte_event(s.message, s.channel, s.data_byte, byte))
            } else {
                None
            }
        },
        Phase::SysExID => Some(
            MidiEvent::SystemExclusiveStart(SysExID::Word(u14_of(s.data_byte, byte) as u16)),
        ),
        Phase::SysExData => Some(MidiEvent::SystemExclusiveData(byte)),
    }
}

/// The state after one byte. A realtime byte leaves the state as it was; any
/// other status byte starts afresh; a data byte moves the message in progress
/// on.
pub open spec fn next_state(s: ReaderState, byte: u8) -> ReaderState {
    if is_realtime(byte) {
        s
    } else if is_status(byte) {
        state_after_status(byte)
    } else {
        state_after_data(s, byte)
    }
}

/// The event that one byte completes, if it completes one.
pub open spec fn output(s: ReaderState, byte: u8) -> Option<MidiEvent> {
    if is_realtime(byte) {
        realtime_event(byte)
    } else if is_status(byte) {
        event_of_status(byte)
    } else {
        event_of_data(s, byte)
    }
}

impl ReaderState {
    /// The state of a decoder that has seen no byte yet.
    pub open spec fn initial() -> ReaderState {
        ReaderState { phase: Phase::Start, message: 0, channel: 0, data_byte: 0 }
    }

    /// What holds of every state that a decoder can be in: the channel and the
    /// kept data byte lie in their domains and, while a message is in
    /// progress, its status is one that this phase can follow.
    pub open spec fn wf(self) -> bool {
        &&& self.channel < 16
        &&& self.data_byte < 0x80
        &&& self.phase != Phase::Start ==> {
            &&& STATUS_FIRST <= self.message < SYSTEM_RT_FIRST
            &&& !is_single_byte_message(self.message)
            &&& self.message < SYSTEM_FIRST ==> self.message % 16 == 0
            &&& self.message >= SYSTEM_FIRST ==> self.channel == 0
        }
        &&& self.phase == Phase::ByteThree ==> !takes_one_data_byte(self.message)
        &&& (self.phase == Phase::SysExID || self.phase == Phase::SysExData) ==> self.message
            == MESSAGE_SYS_EX_START
    }
}

/// Two data bytes taken as fourteen bits, `msb` above `lsb`.
fn to_u14(msb: u7, lsb: u7) -> (word: u14)
    requires
        msb < 0x80,
        lsb < 0x80,
    ensures
        word == u14_of(msb, lsb),
{
    let word: u14 = ((msb as u14) << 7) | (lsb as u14);
    assert(word == msb * 128 + lsb) by (bit_vector)
        requires
            msb < 0x80,
            lsb < 0x80,
            word == ((msb as u16) << 7) | (lsb as u16),
    ;
    word
}

/// Two data bytes taken as a pitch-bend amount, measured from the centre.
fn to_i14(msb: u7, lsb: u7) -> (amount: i14)
    requires
        msb < 0x80,
        lsb < 0x80,
    ensures
        amount == i14_of(msb, lsb),
{
    let word: u14 = to_u14(msb, lsb);
    word as i16 - 0x2000
}

/// Decoder of a MIDI byte stream.
///
/// It takes the stream one byte at a time and hands back the event that the
/// byte completes, if it completes one.
pub struct MidiReader {
    phase: Phase,
    message: u8,
    channel: u7,
    data_byte: u7,
}

impl View for MidiReader {
    type V = ReaderState;

    closed spec fn view(&self) -> ReaderState {
        ReaderState {
            phase: self.phase,
            message: self.message,
            channel: self.channel,
            data_byte: self.data_byte,
        }
    }
}

impl MidiReader {
    #[verifier::type_invariant]
    spec fn inv(&self) -> bool {
        self@.wf()
    }

    /// A decoder in its initial state: idle, with no message in progress.
    pub fn new() -> (reader: Self)
        ensures
            reader@ == ReaderState::initial(),
    {
        Self { phase: Phase::Start, message: 0, channel: 0, data_byte: 0 }
    }

    /// Takes the next byte of the stream and returns the event that it
    /// completes, if it completes one.
    ///
    /// Any byte is accepted in any state. A realtime byte is answered at once
    /// and leaves the message in progress untouched; any other status byte
    /// starts a new message and drops the one in progress; a data byte is read
    /// as part of the message in progress, and dropped where there is none.
    pub fn handle_byte(&mut self, byte: u8) -> (event: Option<MidiEvent>)
        ensures
            final(self)@ == next_state(old(self)@, byte),
            event == output(old(self)@, byte),
            old(self)@.wf(),
            final(self)@.wf(),
            event matches Some(e) ==> e.wf(),
    {
        proof {
            use_type_invariant(&*self);
        }
        assert((byte & SYSTEM_RT_MASK == SYSTEM_RT_MASK) <==> byte >= 0xF8) by (bit_vector);
        assert((byte & STATUS_MASK > 0) <==> byte >= 0x80) by (bit_vector);
        if (byte & SYSTEM_RT_MASK) == SYSTEM_RT_MASK {
            return self.handle_system_rt_message(byte);
        }
        let is_status_byte: bool = (byte & STATUS_MASK) > 0;
        if is_status_byte {
            // A status byte starts afresh, whatever was in progress.
            self.phase = Phase::Start;
            self.channel = 0;
            self.data_byte = 0;
        }
        match self.phase {
            Phase::Start => {
                // While idle, bytes are dropped until a status byte comes.
                if is_status_byte {
                    assert((byte & SYSTEM_MASK == SYSTEM_MASK) <==> byte >= 0xF0) by (bit_vector);
                    if (byte & SYSTEM_MASK) == SYSTEM_MASK {
                        // A system message: the status byte is the message.
                        self.message = byte;
                        return self.handle_system_message();
                    }
                    // A channel message: upper nibble message, lower nibble channel.
                    assert(byte & SYSTEM_MASK == byte - byte % 16) by (bit_vector);
                    assert(byte & CHANNEL_MASK == byte % 16) by (bit_vector);
                    self.message = byte & SYSTEM_MASK;
                    self.channel = byte & CHANNEL_MASK;
                    self.phase = Phase::ByteTwo;
                }
                None
            },
            Phase::ByteTwo => self.handle_byte_two(byte),
            Phase::ByteThree => self.handle_byte_three(byte),
            Phase::SysExID => {
                self.phase = Phase::SysExData;
                Some(MidiEvent::SystemExclusiveStart(SysExID::Word(to_u14(self.data_byte, byte))))
            },
            Phase::SysExData => Some(MidiEvent::SystemExclusiveData(byte)),
        }
    }

    /// Answers a byte of the realtime range. Such a byte may stand anywhere in
    /// the stream and is a whole message by itself, so the state is not touched.
    fn handle_system_rt_message(&self, byte: u8) -> (event: Option<MidiEvent>)
        ensures
            event == realtime_event(byte),
    {
        match byte {
            MESSAGE_CLOCK => Some(MidiEvent::Clock),
            MESSAGE_START => Some(MidiEvent::Start),
            MESSAGE_CONTINUE => Some(MidiEvent::Continue),
            MESSAGE_STOP => Some(MidiEvent::Stop),
            MESSAGE_ACTIVE_SENSING => Some(MidiEvent::ActiveSensing),
            MESSAGE_SYSTEM_RESET => Some(MidiEvent::SystemReset),
            _ => None,
        }
    }

    /// Starts the system message whose status byte was just stored: one that
    /// has no data byte is complete, any other awaits its first data byte.
    fn handle_system_message(&mut self) -> (event: Option<MidiEvent>)
        requires
            old(self)@.phase == Phase::Start,
            SYSTEM_FIRST <= old(self)@.message < SYSTEM_RT_FIRST,
            old(self)@.channel == 0,
            old(self)@.data_byte == 0,
        ensures
            final(self)@ == state_after_status(old(self)@.message),
            event == event_of_status(old(self)@.message),
    {
        match self.message {
            MESSAGE_TUNE_REQUEST => Some(MidiEvent::TuneRequest),
            MESSAGE_SYS_EX_END => Some(MidiEvent::SystemExclusiveEnd),
            _ => {
                self.phase = Phase::ByteTwo;
                None
            },
        }
    }

    /// Takes the first data byte of the message in progress.
    fn handle_byte_two(&mut self, byte: u8) -> (event: Option<MidiEvent>)
        requires
            old(self)@.phase == Phase::ByteTwo,
            byte < STATUS_FIRST,
        ensures
            final(self)@ == state_after_data(old(self)@, byte),
            event == event_of_data(old(self)@, byte),
    {
        proof {
            use_type_invariant(&*self);
        }
        match self.message {
            MESSAGE_PROGRAM_CHANGE => Some(MidiEvent::ProgramChange(self.channel, byte)),
            MESSAGE_CHANNEL_AFTER_TOUCH => Some(MidiEvent::ChannelAfterTouch(self.channel, byte)),
            MESSAGE_MTC_QUARTER_FRAME => {
                assert((byte & 0x70) >> 4 == (byte / 16) % 8) by (bit_vector);
                assert(byte & 0x0F == byte % 16) by (bit_vector);
                Some(MidiEvent::MTCQuarterFrame((byte & 0x70) >> 4, byte & 0x0F))
            },
            MESSAGE_SONG_SELECT => Some(MidiEvent::SongSelect(byte)),
            MESSAGE_SYS_EX_START => {
                if byte == 0 {
                    // A zero announces an ID of two bytes.
                    self.phase = Phase::ByteThree;
                    None
                } else {
                    self.phase = Phase::SysExData;
                    Some(MidiEvent::SystemExclusiveStart(SysExID::Byte(byte)))
                }
            },
            _ => {
                self.data_byte = byte;
                self.phase = Phase::ByteThree;
                None
            },
        }
    }

    /// Takes the second data byte of the message in progress.
    fn handle_byte_three(&mut self, byte: u8) -> (event: Option<MidiEvent>)
        requires
            old(self)@.phase == Phase::ByteThree,
            byte < STATUS_FIRST,
        ensures
            final(self)@ == state_after_data(old(self)@, byte),
            event == event_of_data(old(self)@, byte),
    {
        proof {
            use_type_invariant(&*self);
        }
        match self.message {
            MESSAGE_NOTE_OFF => {
                self.phase = Phase::ByteTwo;
                Some(MidiEvent::NoteOff(self.channel, self.data_byte, byte))
            },
            MESSAGE_NOTE_ON => {
                self.phase = Phase::ByteTwo;
                Some(MidiEvent::NoteOn(self.channel, self.data_byte, byte))
            },
            MESSAGE_POLY_AFTER_TOUCH => {
                self.phase = Phase::ByteTwo;
                Some(MidiEvent::PolyphonicAfterTouch(self.channel, self.data_byte, byte))
            },
            MESSAGE_CONTROLLER_CHANGE => {
                self.phase = Phase::ByteTwo;
                // The reserved controller numbers are channel modes.
                match self.data_byte {
                    CHANNEL_MODE_ALL_SOUND_OFF => Some(MidiEvent::AllSoundOff),
                    CHANNEL_MODE_RESET_ALL => Some(MidiEvent::ResetAllControllers),
                    CHANNEL_MODE_LOCAL_CONTROL => Some(
                        MidiEvent::LocalControl(self.channel, byte != 0),
                    ),
                    CHANNEL_MODE_ALL_NOTES_OFF => Some(MidiEvent::AllNotesOff(self.channel)),
                    CHANNEL_MODE_OMNI_ON => Some(MidiEvent::OmniMode(self.channel, true)),
                    CHANNEL_MODE_OMNI_OFF => Some(MidiEvent::OmniMode(self.channel, false)),
                    CHANNEL_MODE_MONO_ON => Some(MidiEvent::MonoMode(self.channel, byte)),
                    CHANNEL_MODE_POLYPHONIC_ON => Some(MidiEvent::PolyphonicMode(self.channel)),
                    _ => Some(MidiEvent::ControllerChange(self.channel, self.data_byte, byte)),
                }
            },
            MESSAGE_PITCH_BEND => {
                self.phase = Phase::ByteTwo;
                Some(MidiEvent::PitchBend(self.channel, to_i14(byte, self.data_byte)))
            },
            MESSAGE_SYS_EX_START => {
                // The upper byte of an ID of two bytes.
                self.data_byte = byte;
                self.phase = Phase::SysExID;
                None
            },
            MESSAGE_SONG_POSITION_PTR => {
                self.phase = Phase::ByteTwo;
                Some(MidiEvent::SongPositionPointer(to_u14(byte, self.data_byte)))
            },
            _ => {
                self.phase = Phase::Start;
                None
            },
        }
    }
}

} // verus!
