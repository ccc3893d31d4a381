//! The running time code that MIDI Time Code quarter frames add up to.

use crate::text::{decimal_padded, push_decimal_padded};
use crate::{u3, u4};
use vstd::prelude::*;
use vstd::string::*;

verus! {

/// Upper four bits of a byte.
const MSN: u8 = 0b1111_0000;

/// Lower four bits of a byte.
const LSN: u8 = 0b0000_1111;

/// Frame rate of a time code.
#[derive(Debug, Copy, Clone, Eq, PartialEq, Structural)]
pub enum Rate {
    /// 24 frames per second.
    Film,
    /// 25 frames per second.
    PAL,
    /// 30 frames per second with dropped frames (29.97 on average).
    NTSCDropFrame,
    /// 30 frames per second.
    NTSC,
}

/// The rate that the two selector bits `sel` (`0..=3`) stand for.
pub open spec fn rate_of_selector(sel: int) -> Rate {
    if sel == 0 {
        Rate::Film
    } else if sel == 1 {
        Rate::PAL
    } else if sel == 2 {
        Rate::NTSCDropFrame
    } else {
        Rate::NTSC
    }
}

/// The rate that the nibble of the last quarter frame of a cycle selects:
/// bits 1 and 2 of `data`; every other bit is ignored.
pub open spec fn rate_of_nibble(data: u8) -> Rate {
    rate_of_selector((data as int / 2) % 4)
}

impl Rate {
    /// Reads the rate out of the nibble of the last quarter frame of a cycle.
    /// Every nibble selects a rate, so the result is never `None`.
    pub fn from_event(rate: u4) -> (r: Option<Rate>)
        ensures
            r == Some(rate_of_nibble(rate)),
    {
        let sel: u8 = rate & 0b0110;
        assert(sel == 2 * ((rate / 2) % 4)) by (bit_vector)
            requires
                sel == rate & 0b0110,
        ;
        if sel == 0b0000 {
            Some(Rate::Film)
        } else if sel == 0b0010 {
            Some(Rate::PAL)
        } else if sel == 0b0100 {
            Some(Rate::NTSCDropFrame)
        } else {
            Some(Rate::NTSC)
        }
    }
}

/// A field with its lower four bits replaced by those of `data`.
pub open spec fn with_low_nibble(field: nat, data: u8) -> nat {
    field / 16 * 16 + data as nat % 16
}

/// A field with the bits above its lower four replaced by the lowest bits of
/// `data`, as many as make `span` values (`span` is 2 for one bit, 4 for two).
pub open spec fn with_high_bits(field: nat, data: u8, span: nat) -> nat {
    (data as nat % span) * 16 + field % 16
}

/// The value of a time code: what a [`TimeCode`] holds.
pub struct TimeCodeFields {
    pub hour: nat,
    pub minute: nat,
    pub second: nat,
    pub frame: nat,
    pub rate: Rate,
}

impl TimeCodeFields {
    /// Each field fits the bits that the quarter frames carry for it: five
    /// for hours and frames, six for minutes and seconds. Nothing more is
    /// asked: 31 hours or 63 seconds are values like any other.
    pub open spec fn wf(self) -> bool {
        self.hour < 32 && self.minute < 64 && self.second < 64 && self.frame < 32
    }

    /// The value after the quarter frame `piece` with the nibble `data`.
    ///
    /// Pieces 0 and 1 carry the frame, 2 and 3 the second, 4 and 5 the minute,
    /// 6 and 7 the hour, the lower four bits first; piece 7 also carries the
    /// rate. Each piece replaces the bits that it carries and leaves every
    /// other bit as it is. A piece above 7 changes nothing.
    pub open spec fn update(self, piece: u8, data: u8) -> TimeCodeFields {
        if piece == 0 {
            TimeCodeFields { frame: with_low_nibble(self.frame, data), ..self }
        } else if piece == 1 {
            TimeCodeFields { frame: with_high_bits(self.frame, data, 2), ..self }
        } else if piece == 2 {
            TimeCodeFields { second: with_low_nibble(self.second, data), ..self }
        } else if piece == 3 {
            TimeCodeFields { second: with_high_bits(self.second, data, 4), ..self }
        } else if piece == 4 {
            TimeCodeFields { minute: with_low_nibble(self.minute, data), ..self }
        } else if piece == 5 {
            TimeCodeFields { minute: with_high_bits(self.minute, data, 4), ..self }
        } else if piece == 6 {
            TimeCodeFields { hour: with_low_nibble(self.hour, data), ..self }
        } else if piece == 7 {
            TimeCodeFields {
                hour: with_high_bits(self.hour, data, 2),
                rate: rate_of_nibble(data),
                ..self
            }
        } else {
            self
        }
    }

    /// The character between seconds and frames: a semicolon where frames are
    /// dropped, else a colon.
    pub open spec fn separator(self) -> char {
        if self.rate == Rate::NTSCDropFrame {
            ';'
        } else {
            ':'
        }
    }

    /// The time code as text: hours, minutes, seconds and frames, each of two
    /// digits, with colons between them, but for the separator before the
    /// frames.
    pub open spec fn rendering(self) -> Seq<char> {
        decimal_padded(self.hour) + seq![':'] + decimal_padded(self.minute) + seq![':']
            + decimal_padded(self.second) + seq![self.separator()] + decimal_padded(self.frame)
    }
}

/// A MIDI time code: hour, minute, second and frame, and the frame rate.
#[derive(Debug, Copy, Clone, Eq, PartialEq, Structural)]
pub struct TimeCode {
    frame: u8,
    second: u8,
    minute: u8,
    hour: u8,
    rate: Rate,
}

impl View for TimeCode {
    type V = TimeCodeFields;

    closed spec fn view(&self) -> TimeCodeFields {
        TimeCodeFields {
            hour: self.hour as nat,
            minute: self.minute as nat,
            second: self.second as nat,
            frame: self.frame as nat,
            rate: self.rate,
        }
    }
}

impl TimeCode {
    #[verifier::type_invariant]
    spec fn inv(&self) -> bool {
        self@.wf()
    }

    /// A time code at the rate [`Rate::Film`]. Of each argument the bits of
    /// its field are kept: five of the hour and the frame, six of the minute
    /// and the second.
    pub fn new(hour: u8, minute: u8, second: u8, frame: u8) -> (code: Self)
        ensures
            code@ == (TimeCodeFields {
                hour: hour as nat % 32,
                minute: minute as nat % 64,
                second: second as nat % 64,
                frame: frame as nat % 32,
                rate: Rate::Film,
            }),
            code@.wf(),
    {
        assert(hour & 0b0001_1111 == hour % 32) by (bit_vector);
        assert(minute & 0b0011_1111 == minute % 64) by (bit_vector);
        assert(second & 0b0011_1111 == second % 64) by (bit_vector);
        assert(frame & 0b0001_1111 == frame % 32) by (bit_vector);
        Self {
            hour: hour & 0b0001_1111,
            minute: minute & 0b0011_1111,
            second: second & 0b0011_1111,
            frame: frame & 0b0001_1111,
            rate: Rate::Film,
        }
    }

    /// The same time code at another rate.
    pub fn at_rate(self, rate: Rate) -> (code: Self)
        ensures
            code@ == (TimeCodeFields { rate: rate, ..self@ }),
            code@.wf(),
    {
        proof {
            use_type_invariant(&self);
        }
        let mut code = self;
        code.rate = rate;
        code
    }

    /// Takes one quarter frame: its piece number and its nibble.
    ///
    /// Only the bits that the piece carries change. A piece above 7 is
    /// ignored, and so are the bits of `data` that the piece does not carry.
    pub fn update_from_event(&mut self, piece: u3, data: u4)
        ensures
            final(self)@ == old(self)@.update(piece, data),
            old(self)@.wf(),
            final(self)@.wf(),
    {
        proof {
            use_type_invariant(&*self);
            lemma_nibbles(self.frame, data);
            lemma_nibbles(self.second, data);
            lemma_nibbles(self.minute, data);
            lemma_nibbles(self.hour, data);
        }
        match piece {
            0 => self.frame = (self.frame & MSN) | (data & 0b1111),
            1 => self.frame = (self.frame & LSN) | ((data & 0b0001) << 4),
            2 => self.second = (self.second & MSN) | (data & 0b1111),
            3 => self.second = (self.second & LSN) | ((data & 0b0011) << 4),
            4 => self.minute = (self.minute & MSN) | (data & 0b1111),
            5 => self.minute = (self.minute & LSN) | ((data & 0b0011) << 4),
            6 => self.hour = (self.hour & MSN) | (data & 0b1111),
            7 => {
                self.hour = (self.hour & LSN) | ((data & 0b0001) << 4);
                self.rate = Rate::from_event(data).unwrap()
            },
            _ => (),
        }
    }

    /// The time code as text, such as `01:02:03:04`, or `01:02:03;04` at the
    /// rate that drops frames.
    pub fn render(&self) -> (text: String)
        ensures
            text@ == self@.rendering(),
    {
        proof {
            reveal_strlit(":");
            reveal_strlit(";");
        }
        let mut text = String::new();
        push_decimal_padded(&mut text, self.hour);
        text.append(":");
        push_decimal_padded(&mut text, self.minute);
        text.append(":");
        push_decimal_padded(&mut text, self.second);
        match self.rate {
            Rate::NTSCDropFrame => text.append(";"),
            _ => text.append(":"),
        }
        push_decimal_padded(&mut text, self.frame);
        assert(text@ =~= self@.rendering());
        text
    }
}

impl Default for TimeCode {
    /// The time code zero, at the rate [`Rate::Film`].
    fn default() -> (code: Self)
        ensures
            code@ == (TimeCodeFields {
                hour: 0,
                minute: 0,
                second: 0,
                frame: 0,
                rate: Rate::Film,
            }),
    {
        Self { frame: 0, second: 0, minute: 0, hour: 0, rate: Rate::Film }
    }
}

/// What the masks and shifts of an update compute, in arithmetic.
proof fn lemma_nibbles(field: u8, data: u8)
    ensures
        (field & MSN) | (data & 0b1111) == field / 16 * 16 + data % 16,
        (field & LSN) | ((data & 0b0001) << 4) == (data % 2) * 16 + field % 16,
        (field & LSN) | ((data & 0b0011) << 4) == (data % 4) * 16 + field % 16,
{
    assert((field & MSN) | (data & 0b1111) == field / 16 * 16 + data % 16) by (bit_vector);
    assert((field & LSN) | ((data & 0b0001) << 4) == (data % 2) * 16 + field % 16)
        by (bit_vector);
    assert((field & LSN) | ((data & 0b0011) << 4) == (data % 4) * 16 + field % 16)
        by (bit_vector);
}

/// A quarter frame keeps every field within its bits.
pub proof fn lemma_update_preserves_wf(v: TimeCodeFields, piece: u8, data: u8)
    requires
        v.wf(),
    ensures
        v.update(piece, data).wf(),
{
}

/// A quarter frame changes the one field that its piece carries (piece 7 the
/// hour and the rate), and of that field only the bits that it carries: the
/// lower four for an even piece, those above them for an odd one.
pub proof fn lemma_update_is_masked(v: TimeCodeFields, piece: u8, data: u8)
    ensures
        piece / 2 != 0 ==> v.update(piece, data).frame == v.frame,
        piece / 2 != 1 ==> v.update(piece, data).second == v.second,
        piece / 2 != 2 ==> v.update(piece, data).minute == v.minute,
        piece / 2 != 3 ==> v.update(piece, data).hour == v.hour,
        piece != 7 ==> v.update(piece, data).rate == v.rate,
        piece == 0 ==> v.update(piece, data).frame / 16 == v.frame / 16,
        piece == 1 ==> v.update(piece, data).frame % 16 == v.frame % 16,
        piece == 2 ==> v.update(piece, data).second / 16 == v.second / 16,
        piece == 3 ==> v.update(piece, data).second % 16 == v.second % 16,
        piece == 4 ==> v.update(piece, data).minute / 16 == v.minute / 16,
        piece == 5 ==> v.update(piece, data).minute % 16 == v.minute % 16,
        piece == 6 ==> v.update(piece, data).hour / 16 == v.hour / 16,
        piece == 7 ==> v.update(piece, data).hour % 16 == v.hour % 16,
{
}

/// A piece above 7 is ignored.
pub proof fn lemma_update_ignores_unknown_piece(v: TimeCodeFields, piece: u8, data: u8)
    requires
        piece > 7,
    ensures
        v.update(piece, data) == v,
{
}

/// A full cycle, pieces 0 to 7 in order with the nibbles `d0` to `d7`, sets
/// every field and the rate, whatever the value before it: each field is the
/// lower nibble of its even piece below the bits of its odd piece.
pub proof fn lemma_full_cycle(
    v: TimeCodeFields,
    d0: u8,
    d1: u8,
    d2: u8,
    d3: u8,
    d4: u8,
    d5: u8,
    d6: u8,
    d7: u8,
)
    ensures
        v.update(0, d0).update(1, d1).update(2, d2).update(3, d3).update(4, d4).update(
            5,
            d5,
        ).update(6, d6).update(7, d7) == (TimeCodeFields {
            frame: (d1 as nat % 2) * 16 + d0 as nat % 16,
            second: (d3 as nat % 4) * 16 + d2 as nat % 16,
            minute: (d5 as nat % 4) * 16 + d4 as nat % 16,
            hour: (d7 as nat % 2) * 16 + d6 as nat % 16,
            rate: rate_of_nibble(d7),
        }),
{
    lemma_low_then_high(v.frame, d0, d1, 2);
    lemma_low_then_high(v.second, d2, d3, 4);
    lemma_low_then_high(v.minute, d4, d5, 4);
    lemma_low_then_high(v.hour, d6, d7, 2);
    let v1 = v.update(0, d0).update(1, d1);
    let v3 = v1.update(2, d2).update(3, d3);
    let v5 = v3.update(4, d4).update(5, d5);
    let v7 = v5.update(6, d6).update(7, d7);
    assert(v1.frame == (d1 as nat % 2) * 16 + d0 as nat % 16);
    assert(v3.frame == v1.frame && v3.second == (d3 as nat % 4) * 16 + d2 as nat % 16);
    assert(v5.frame == v3.frame && v5.second == v3.second && v5.minute == (d5 as nat % 4) * 16
        + d4 as nat % 16);
    assert(v7.frame == v5.frame && v7.second == v5.second && v7.minute == v5.minute);
}

/// The lower nibble and then the upper bits of a field replace all of it.
proof fn lemma_low_then_high(field: nat, low: u8, high: u8, span: nat)
    ensures
        with_high_bits(with_low_nibble(field, low), high, span) == (high as nat % span) * 16
            + low as nat % 16,
{
}

} // verus!
