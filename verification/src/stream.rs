//! The decoder run over a whole sequence of bytes, and what holds of every
//! such run.

use crate::read::{
    controller_event, is_realtime, is_status, next_state, one_byte_event, output,
    realtime_event, takes_one_data_byte, takes_two_data_bytes, two_byte_event, MidiEvent, Phase,
    ReaderState,
};
use vstd::prelude::*;

verus! {

/// The state of a decoder that started in `s` and took `bytes` in order.
pub open spec fn run_state(s: ReaderState, bytes: Seq<u8>) -> ReaderState
    decreases bytes.len(),
{
    if bytes.len() == 0 {
        s
    } else {
        next_state(run_state(s, bytes.drop_last()), bytes.last())
    }
}

/// The events that a decoder hands out, in order, when it starts in `s` and
/// takes `bytes` in order.
pub open spec fn run_events(s: ReaderState, bytes: Seq<u8>) -> Seq<MidiEvent>
    decreases bytes.len(),
{
    if bytes.len() == 0 {
        Seq::empty()
    } else {
        let before = bytes.drop_last();
        let events = run_events(s, before);
        match output(run_state(s, before), bytes.last()) {
            Some(event) => events.push(event),
            None => events,
        }
    }
}

/// A sequence of data bytes: no byte has its high bit set.
pub open spec fn all_data(bytes: Seq<u8>) -> bool {
    forall|i: int| 0 <= i < bytes.len() ==> !is_status(#[trigger] bytes[i])
}

/// The events of one byte, as a sequence of none or one.
pub open spec fn as_events(event: Option<MidiEvent>) -> Seq<MidiEvent> {
    match event {
        Some(event) => seq![event],
        None => Seq::empty(),
    }
}

/// A realtime byte is answered by its own event, and the state stays as it
/// was, whatever message is in progress. The six defined codes each give an
/// event; the two undefined ones give none.
pub proof fn lemma_realtime_keeps_state(s: ReaderState, byte: u8)
    requires
        is_realtime(byte),
    ensures
        next_state(s, byte) == s,
        output(s, byte) == realtime_event(byte),
        byte == 0xF8 ==> output(s, byte) == Some(MidiEvent::Clock),
        byte == 0xFA ==> output(s, byte) == Some(MidiEvent::Start),
        byte == 0xFB ==> output(s, byte) == Some(MidiEvent::Continue),
        byte == 0xFC ==> output(s, byte) == Some(MidiEvent::Stop),
        byte == 0xFE ==> output(s, byte) == Some(MidiEvent::ActiveSensing),
        byte == 0xFF ==> output(s, byte) == Some(MidiEvent::SystemReset),
        byte == 0xF9 || byte == 0xFD ==> output(s, byte) is None,
{
}

/// A status byte below the realtime range starts afresh: the state after it
/// and the event that it gives do not depend on the state before it.
pub proof fn lemma_status_resynchronizes(s1: ReaderState, s2: ReaderState, byte: u8)
    requires
        is_status(byte),
        !is_realtime(byte),
    ensures
        next_state(s1, byte) == next_state(s2, byte),
        output(s1, byte) == output(s2, byte),
        next_state(s1, byte).wf(),
{
    assert(byte < 0xF0 ==> (byte - byte % 16) % 16 == 0);
}

/// A data byte that comes while the decoder is idle is dropped: no event,
/// and the state stays as it was.
pub proof fn lemma_idle_drops_data(s: ReaderState, byte: u8)
    requires
        s.phase == Phase::Start,
        !is_status(byte),
    ensures
        next_state(s, byte) == s,
        output(s, byte) is None,
{
}

/// Every byte takes a well-formed state to a well-formed state, and the
/// event that it gives, if any, has every field in its domain.
pub proof fn lemma_step_preserves_wf(s: ReaderState, byte: u8)
    requires
        s.wf(),
    ensures
        next_state(s, byte).wf(),
        output(s, byte) matches Some(event) ==> event.wf(),
{
    assert(byte < 0xF0 ==> (byte - byte % 16) % 16 == 0);
}

/// Running status: once a status byte of a message of two data bytes was
/// taken, every further pair of data bytes gives one event of that message
/// on that channel, after its second byte, and the decoder awaits the next
/// pair.
pub proof fn lemma_running_status_two(s: ReaderState, first: u8, second: u8)
    requires
        s.phase == Phase::ByteTwo,
        takes_two_data_bytes(s.message),
        !is_status(first),
        !is_status(second),
    ensures
        output(s, first) is None,
        output(next_state(s, first), second) == Some(
            two_byte_event(s.message, s.channel, first, second),
        ),
        next_state(next_state(s, first), second) == (ReaderState { data_byte: first, ..s }),
{
}

/// Running status: once a status byte of a message of one data byte was
/// taken, every further data byte gives one event of that message on that
/// channel, and the state stays as it was.
pub proof fn lemma_running_status_one(s: ReaderState, byte: u8)
    requires
        s.phase == Phase::ByteTwo,
        takes_one_data_byte(s.message),
        !is_status(byte),
    ensures
        output(s, byte) == Some(one_byte_event(s.message, s.channel, byte)),
        next_state(s, byte) == s,
{
}

/// A completed controller change is a plain `ControllerChange` exactly when
/// its controller number lies below the eight reserved ones; else it is a
/// channel-mode event.
pub proof fn lemma_controller_or_mode(channel: u8, control: u8, value: u8)
    requires
        !is_status(control),
    ensures
        control < 0x78 <==> controller_event(channel, control, value) is ControllerChange,
        control < 0x78 ==> controller_event(channel, control, value)
            == MidiEvent::ControllerChange(channel, control, value),
{
}

/// Inside a System Exclusive block every data byte is handed out as it is,
/// and the block goes on.
pub proof fn lemma_sysex_data(s: ReaderState, byte: u8)
    requires
        s.phase == Phase::SysExData,
        !is_status(byte),
    ensures
        output(s, byte) == Some(MidiEvent::SystemExclusiveData(byte)),
        next_state(s, byte) == s,
{
}

/// Taking `a` and then `b` is taking `a + b`.
pub proof fn lemma_run_concat(s: ReaderState, a: Seq<u8>, b: Seq<u8>)
    ensures
        run_state(s, a + b) == run_state(run_state(s, a), b),
        run_events(s, a + b) == run_events(s, a) + run_events(run_state(s, a), b),
    decreases b.len(),
{
    if b.len() == 0 {
        assert(a + b =~= a);
        assert(run_events(s, a) + Seq::<MidiEvent>::empty() =~= run_events(s, a));
    } else {
        assert((a + b).drop_last() =~= a + b.drop_last());
        assert((a + b).last() == b.last());
        lemma_run_concat(s, a, b.drop_last());
        let mid = run_state(s, a);
        let front = run_events(mid, b.drop_last());
        match output(run_state(mid, b.drop_last()), b.last()) {
            Some(event) => {
                assert((run_events(s, a) + front).push(event) =~= run_events(s, a) + front.push(
                    event,
                ));
            },
            None => {},
        }
    }
}

/// Taking one byte alone.
pub proof fn lemma_run_one(s: ReaderState, byte: u8)
    ensures
        run_state(s, seq![byte]) == next_state(s, byte),
        run_events(s, seq![byte]) == as_events(output(s, byte)),
{
    let bytes = seq![byte];
    assert(bytes.drop_last() =~= Seq::<u8>::empty());
    assert(bytes.last() == byte);
    assert(run_state(s, bytes.drop_last()) == s);
    assert(run_events(s, bytes.drop_last()) =~= Seq::<MidiEvent>::empty());
    match output(s, byte) {
        Some(event) => {
            assert(Seq::<MidiEvent>::empty().push(event) =~= seq![event]);
        },
        None => {},
    }
}

/// A realtime byte may stand anywhere in a stream: the events of the bytes
/// round it are those of the stream without it, with its own event at its
/// place, and the state at the end is the same.
pub proof fn lemma_realtime_interleaved(
    s: ReaderState,
    before: Seq<u8>,
    byte: u8,
    after: Seq<u8>,
)
    requires
        is_realtime(byte),
    ensures
        run_state(s, before + seq![byte] + after) == run_state(s, before + after),
        run_events(s, before + seq![byte] + after) == run_events(s, before) + as_events(
            realtime_event(byte),
        ) + run_events(run_state(s, before), after),
        run_events(s, before + after) == run_events(s, before) + run_events(
            run_state(s, before),
            after,
        ),
{
    let mid = run_state(s, before);
    lemma_run_concat(s, before, seq![byte]);
    lemma_run_one(mid, byte);
    lemma_run_concat(s, before + seq![byte], after);
    lemma_run_concat(s, before, after);
}

/// At most one event comes out for each byte taken, each event has every
/// field in its domain, and the state at the end is well-formed.
pub proof fn lemma_run_wf(s: ReaderState, bytes: Seq<u8>)
    requires
        s.wf(),
    ensures
        run_state(s, bytes).wf(),
        run_events(s, bytes).len() <= bytes.len(),
        forall|i: int|
            0 <= i < run_events(s, bytes).len() ==> (#[trigger] run_events(s, bytes)[i]).wf(),
    decreases bytes.len(),
{
    if bytes.len() > 0 {
        lemma_run_wf(s, bytes.drop_last());
        lemma_step_preserves_wf(run_state(s, bytes.drop_last()), bytes.last());
    }
}

/// Data bytes that reach an idle decoder leave no trace: none gives an
/// event, and the decoder stays as it was.
pub proof fn lemma_idle_drops_all_data(s: ReaderState, garbage: Seq<u8>)
    requires
        s.phase == Phase::Start,
        all_data(garbage),
    ensures
        run_state(s, garbage) == s,
        run_events(s, garbage) == Seq::<MidiEvent>::empty(),
    decreases garbage.len(),
{
    if garbage.len() > 0 {
        let before = garbage.drop_last();
        assert forall|i: int| 0 <= i < before.len() implies !is_status(#[trigger] before[i]) by {
            assert(before[i] == garbage[i]);
        }
        lemma_idle_drops_all_data(s, before);
        lemma_idle_drops_data(s, garbage.last());
    }
}

/// Data bytes that reach an idle decoder do not disturb what comes after
/// them: the stream that follows is decoded as if they had not been there.
pub proof fn lemma_garbage_is_harmless(s: ReaderState, garbage: Seq<u8>, rest: Seq<u8>)
    requires
        s.phase == Phase::Start,
        all_data(garbage),
    ensures
        run_state(s, garbage + rest) == run_state(s, rest),
        run_events(s, garbage + rest) == run_events(s, rest),
{
    lemma_idle_drops_all_data(s, garbage);
    lemma_run_concat(s, garbage, rest);
    assert(Seq::<MidiEvent>::empty() + run_events(s, rest) =~= run_events(s, rest));
}

/// Whatever a decoder has taken before, from a status byte below the
/// realtime range on it decodes as any other decoder does: the bytes before
/// the status byte have no effect on the events from it on.
pub proof fn lemma_stream_resynchronizes(
    s1: ReaderState,
    s2: ReaderState,
    byte: u8,
    rest: Seq<u8>,
)
    requires
        is_status(byte),
        !is_realtime(byte),
    ensures
        run_state(s1, seq![byte] + rest) == run_state(s2, seq![byte] + rest),
        run_events(s1, seq![byte] + rest) == run_events(s2, seq![byte] + rest),
{
    lemma_run_concat(s1, seq![byte], rest);
    lemma_run_concat(s2, seq![byte], rest);
    lemma_run_one(s1, byte);
    lemma_run_one(s2, byte);
    lemma_status_resynchronizes(s1, s2, byte);
}

} // verus!
