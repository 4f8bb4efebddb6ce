//! The input events that the driver sends, as plain values.

use vstd::prelude::*;

verus! {

/// Value of a key event: the key went up.
pub const RELEASED: i32 = 0;

/// Value of a key event: the key went down.
pub const PRESSED: i32 = 1;

/// Value of a key event: the key is still down.
pub const HOLD: i32 = 2;

/// Event type of an end-of-batch marker.
pub const EV_SYN: u16 = 0x00;

/// Event type of a key or button event.
pub const EV_KEY: u16 = 0x01;

/// Event type of an absolute-axis event.
pub const EV_ABS: u16 = 0x03;

/// Code of the end-of-batch marker.
pub const SYN_REPORT: u16 = 0;

/// Code of the absolute X axis.
pub const ABS_X: u16 = 0x00;

/// Code of the absolute Y axis.
pub const ABS_Y: u16 = 0x01;

/// Code of the absolute pressure axis.
pub const ABS_PRESSURE: u16 = 0x18;

/// Largest X coordinate that the pen device declares.
pub const MAX_X: i32 = 4095;

/// Largest Y coordinate that the pen device declares.
pub const MAX_Y: i32 = 4095;

/// Largest pressure that the pen device declares.
pub const MAX_PRESSURE: i32 = 8191;

/// One of the three virtual devices that receive events.
#[derive(Clone, Copy, Debug, PartialEq, Eq, Structural)]
pub enum Sink {
    /// The absolute-pointer device.
    Pen,
    /// The keyboard that carries the tablet button combos.
    Keyboard,
    /// The keyboard that carries the media-key combos.
    MediaKeyboard,
}

/// What an event reports.
#[derive(Clone, Copy, Debug, PartialEq, Eq, Structural)]
pub enum EventKind {
    /// The end of a batch.
    Synchronization,
    /// A change of a key or button.
    Key,
    /// A position on an absolute axis.
    Absolute,
}

impl EventKind {
    /// The event type under which the input layer knows this kind.
    pub open spec fn type_code(self) -> u16 {
        match self {
            EventKind::Synchronization => EV_SYN,
            EventKind::Key => EV_KEY,
            EventKind::Absolute => EV_ABS,
        }
    }

    /// The event type under which the input layer knows this kind.
    #[verifier::when_used_as_spec(type_code)]
    pub fn event_type(self) -> (r: u16)
        ensures
            r == self.type_code(),
    {
        match self {
            EventKind::Synchronization => EV_SYN,
            EventKind::Key => EV_KEY,
            EventKind::Absolute => EV_ABS,
        }
    }
}

/// One event for one virtual device.
#[derive(Clone, Copy, Debug, PartialEq, Eq, Structural)]
pub struct Emission {
    pub sink: Sink,
    pub kind: EventKind,
    pub code: u16,
    pub value: i32,
}

/// The event that tells `sink` that key `code` is in `state`.
pub open spec fn key_event(sink: Sink, code: u16, state: i32) -> Emission {
    Emission { sink, kind: EventKind::Key, code, value: state }
}

/// The event that tells the pen device that `axis` stands at `value`.
pub open spec fn axis_event(axis: u16, value: i32) -> Emission {
    Emission { sink: Sink::Pen, kind: EventKind::Absolute, code: axis, value }
}

/// The end-of-batch marker for `sink`.
pub open spec fn flush_event(sink: Sink) -> Emission {
    Emission { sink, kind: EventKind::Synchronization, code: SYN_REPORT, value: 0 }
}

impl Emission {
    /// The event that tells `sink` that key `code` is in `state`.
    pub fn key(sink: Sink, code: u16, state: i32) -> (r: Self)
        ensures
            r == key_event(sink, code, state),
    {
        Emission { sink, kind: EventKind::Key, code, value: state }
    }

    /// The event that tells the pen device that `axis` stands at `value`.
    pub fn axis(axis: u16, value: i32) -> (r: Self)
        ensures
            r == axis_event(axis, value),
    {
        Emission { sink: Sink::Pen, kind: EventKind::Absolute, code: axis, value }
    }

    /// The end-of-batch marker for `sink`.
    pub fn flush(sink: Sink) -> (r: Self)
        ensures
            r == flush_event(sink),
    {
        Emission { sink, kind: EventKind::Synchronization, code: SYN_REPORT, value: 0 }
    }
}

/// One key event per code of `keys`, in order, all with `state`.
pub open spec fn key_events(sink: Sink, keys: Seq<u16>, state: i32) -> Seq<Emission> {
    Seq::new(keys.len(), |i: int| key_event(sink, keys[i], state))
}

/// Appends to `out` one key event per code of `keys`, in order.
pub fn push_key_events(out: &mut Vec<Emission>, sink: Sink, keys: &Vec<u16>, state: i32)
    ensures
        final(out)@ == old(out)@ + key_events(sink, keys@, state),
{
    let mut i: usize = 0;
    while i < keys.len()
        invariant
            i <= keys.len(),
            out@ == old(out)@ + key_events(sink, keys@.take(i as int), state),
        decreases keys.len() - i,
    {
        out.push(Emission::key(sink, keys[i], state));
        assert(out@ =~= old(out)@ + key_events(sink, keys@.take(i + 1), state));
        i += 1;
    }
    assert(keys@.take(i as int) =~= keys@);
}

/// Whether none of `events` is a position on an absolute axis.
pub open spec fn no_axis_event(events: Seq<Emission>) -> bool {
    forall|i: int| 0 <= i < events.len() ==> (#[trigger] events[i]).kind != EventKind::Absolute
}

/// Key events hold no position.
pub proof fn lemma_key_events_no_axis(sink: Sink, keys: Seq<u16>, state: i32)
    ensures
        no_axis_event(key_events(sink, keys, state)),
{
}

/// Two runs of events without a position make one when joined.
pub proof fn lemma_no_axis_concat(a: Seq<Emission>, b: Seq<Emission>)
    requires
        no_axis_event(a),
        no_axis_event(b),
    ensures
        no_axis_event(a + b),
{
}

} // verus!
