//! Incremental decoding of a MIDI 1.0 byte stream into typed events, and
//! assembly of MIDI Time Code quarter frames into a running time code.

use vstd::prelude::*;

pub mod describe;
pub mod messages;
pub mod read;
pub mod stream;
pub mod text;
pub mod timecode;

pub use read::{MidiEvent, MidiReader, SysExID};
pub use timecode::{Rate, TimeCode};

verus! {

/// A value of three bits, `0..=7`.
#[allow(non_camel_case_types)]
pub type u3 = u8;

/// A value of four bits, `0..=15`.
#[allow(non_camel_case_types)]
pub type u4 = u8;

/// A data byte: seven bits, `0..=127`.
#[allow(non_camel_case_types)]
pub type u7 = u8;

/// A channel number, in practice `0..=15`.
pub type Channel = u7;

/// A signed amount of fourteen bits, `-8192..=8191`.
#[allow(non_camel_case_types)]
pub type i14 = i16;

/// An unsigned value of fourteen bits, `0..=16383`.
#[allow(non_camel_case_types)]
pub type u14 = u16;

} // verus!
