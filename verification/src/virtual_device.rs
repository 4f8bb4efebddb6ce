//! What the virtual devices declare to the input layer when they are set up:
//! the keys of each, and the axes of the pen.

use crate::bindings::{known_keys, KeyBindings};
use crate::dispatcher::{DeviceDispatcher, PenReading};
use crate::event::{
    key_events, Emission, EventKind, Sink, ABS_PRESSURE, ABS_X, ABS_Y, MAX_PRESSURE, MAX_X, MAX_Y,
    PRESSED, RELEASED,
};
use crate::keys::{BTN_LEFT, BTN_RIGHT, BTN_TOOL_PEN, BTN_TOUCH, KEY_CNT};
use crate::pen::{media_column, media_keys, pen_abs_events, pen_transition, touch_events};
use crate::report::DecodedSample;
use crate::tablet::{
    button_is_pressed, key_transition, tablet_events_below, tablet_key_events, TABLET_ID_END,
};
use vstd::prelude::*;

verus! {

/// A set of keys, held in an `evdev::AttributeSet<Key>`: the bit set that
/// `VirtualDeviceBuilder::with_keys` takes when a device is set up. The
/// verifier does not look into the bit set; what it holds is known through
/// [`key_set_codes`] alone.
#[verifier::external_body]
pub struct KeySet {
    pub keys: evdev::AttributeSet<evdev::Key>,
}

/// The codes of the keys whose bit is set in `set`: those that
/// `AttributeSetRef::contains` finds in it and `AttributeSetRef::iter` yields.
pub uninterp spec fn key_set_codes(set: KeySet) -> Set<u16>;

/// Whether `id` is bound in `table` and `code` stands at place `i` of its keys.
pub open spec fn binds(table: Map<u8, Seq<u16>>, id: u8, i: int, code: u16) -> bool {
    table.contains_key(id) && 0 <= i < table[id].len() && table[id][i] == code
}

/// The codes that the ids below `n` are bound to in `table`.
spec fn codes_below(table: Map<u8, Seq<u16>>, n: int) -> Set<u16> {
    Set::new(|code: u16| exists|id: u8, i: int| id < n && #[trigger] binds(table, id, i, code))
}

/// Every code that `table` binds some id to.
pub open spec fn bound_codes(table: Map<u8, Seq<u16>>) -> Set<u16> {
    Set::new(|code: u16| exists|id: u8, i: int| #[trigger] binds(table, id, i, code))
}

/// The keys that the pen device declares besides those of its buttons.
pub open spec fn pen_tool_codes() -> Set<u16> {
    set![BTN_TOOL_PEN, BTN_LEFT, BTN_RIGHT, BTN_TOUCH]
}

/// The codes of the ids up to `id` are those of the ids below it and those
/// that `id` is bound to.
proof fn lemma_codes_below_step(table: Map<u8, Seq<u16>>, id: u8)
    ensures
        table.contains_key(id) ==> codes_below(table, id + 1) == codes_below(table, id as int)
            + table[id].to_set(),
        !table.contains_key(id) ==> codes_below(table, id + 1) == codes_below(table, id as int),
{
    let next = codes_below(table, id + 1);
    let prev = codes_below(table, id as int);
    if table.contains_key(id) {
        let keys = table[id];
        assert forall|code: u16| next.contains(code) <==> (prev + keys.to_set()).contains(
            code,
        ) by {
            if next.contains(code) {
                let (j, i) = choose|j: u8, i: int| j < id + 1 && #[trigger] binds(table, j, i, code);
                if j == id {
                    assert(keys[i] == code);
                } else {
                    assert(j < id && binds(table, j, i, code));
                }
            }
            if prev.contains(code) {
                let (j, i) = choose|j: u8, i: int| j < id && #[trigger] binds(table, j, i, code);
                assert(j < id + 1 && binds(table, j, i, code));
            }
            if keys.to_set().contains(code) {
                let i = choose|i: int| 0 <= i < keys.len() && keys[i] == code;
                assert(id < id + 1 && binds(table, id, i, code));
            }
        }
        assert(next =~= prev + keys.to_set());
    } else {
        assert forall|code: u16| next.contains(code) <==> prev.contains(code) by {
            if next.contains(code) {
                let (j, i) = choose|j: u8, i: int| j < id + 1 && #[trigger] binds(table, j, i, code);
                assert(j < id && binds(table, j, i, code));
            }
            if prev.contains(code) {
                let (j, i) = choose|j: u8, i: int| j < id && #[trigger] binds(table, j, i, code);
                assert(j < id + 1 && binds(table, j, i, code));
            }
        }
        assert(next =~= prev);
    }
}

impl KeySet {
    /// Calls `AttributeSet::new`, which hands out a bit set in which no bit
    /// is set: the set holds no code.
    #[verifier::external_body]
    fn empty() -> (r: KeySet)
        ensures
            key_set_codes(r) == Set::<u16>::empty(),
    {
        KeySet { keys: evdev::AttributeSet::new() }
    }

    /// Calls `AttributeSetRef::insert` with the key of `code`, which sets the
    /// bit of that key and leaves the others: `code` joins the set. The bit
    /// set has a bit for each code below `KEY_CNT`, and the call panics on a
    /// code beyond them.
    #[verifier::external_body]
    fn insert(&mut self, code: u16)
        requires
            code < KEY_CNT,
        ensures
            key_set_codes(*final(self)) == key_set_codes(*old(self)).insert(code),
    {
        self.keys.insert(evdev::Key::new(code));
    }

    /// Adds every code of `keys` to the set.
    fn insert_all(&mut self, keys: &Vec<u16>)
        requires
            known_keys(keys@),
        ensures
            key_set_codes(*final(self)) == key_set_codes(*old(self)) + keys@.to_set(),
    {
        let mut i: usize = 0;
        assert(keys@.take(0).to_set() =~= Set::<u16>::empty());
        assert(key_set_codes(*self) + Set::<u16>::empty() =~= key_set_codes(*self));
        while i < keys.len()
            invariant
                i <= keys.len(),
                known_keys(keys@),
                key_set_codes(*self) == key_set_codes(*old(self)) + keys@.take(i as int).to_set(),
            decreases keys.len() - i,
        {
            self.insert(keys[i]);
            proof {
                assert(keys@.take(i + 1) =~= keys@.take(i as int).push(keys@[i as int]));
                keys@.take(i as int).lemma_push_to_set_commute(keys@[i as int]);
                assert(key_set_codes(*self) =~= key_set_codes(*old(self)) + keys@.take(
                    i + 1,
                ).to_set());
            }
            i += 1;
        }
        assert(keys@.take(i as int) =~= keys@);
    }
}

/// The keys that a keyboard device declares to carry the combos of
/// `bindings`: every key that some id is bound to.
pub fn keyboard_key_set(bindings: &KeyBindings) -> (r: KeySet)
    ensures
        key_set_codes(r) == bound_codes(bindings@),
{
    let mut set = KeySet::empty();
    let mut id: u16 = 0;
    assert(codes_below(bindings@, 0) =~= Set::<u16>::empty());
    while id < 256
        invariant
            id <= 256,
            key_set_codes(set) == codes_below(bindings@, id as int),
        decreases 256 - id,
    {
        proof {
            lemma_codes_below_step(bindings@, id as u8);
        }
        match bindings.get(id as u8) {
            Some(keys) => {
                set.insert_all(keys);
            },
            None => {},
        }
        id += 1;
    }
    assert(codes_below(bindings@, 256) =~= bound_codes(bindings@));
    set
}

/// The keys that the pen device declares: those of the pen's buttons, and the
/// tool, left, right and touch buttons.
pub fn pen_key_set(bindings: &KeyBindings) -> (r: KeySet)
    ensures
        key_set_codes(r) == bound_codes(bindings@) + pen_tool_codes(),
{
    let mut set = keyboard_key_set(bindings);
    set.insert(BTN_TOOL_PEN);
    set.insert(BTN_LEFT);
    set.insert(BTN_RIGHT);
    set.insert(BTN_TOUCH);
    assert(key_set_codes(set) =~= bound_codes(bindings@) + pen_tool_codes());
    set
}

/// What the pen device declares of one absolute axis.
#[derive(Clone, Copy, Debug, PartialEq, Eq, Structural)]
pub struct AxisSetup {
    pub code: u16,
    pub value: i32,
    pub minimum: i32,
    pub maximum: i32,
    pub fuzz: i32,
    pub flat: i32,
    pub resolution: i32,
}

/// The setup of an axis that runs from 0 to `maximum` in steps of 1.
pub open spec fn axis_setup(code: u16, maximum: i32) -> AxisSetup {
    AxisSetup { code, value: 0, minimum: 0, maximum, fuzz: 0, flat: 0, resolution: 1 }
}

/// The axes that the pen device declares: X, Y and pressure.
pub fn pen_axes() -> (r: Vec<AxisSetup>)
    ensures
        r@ == seq![
            axis_setup(ABS_X, MAX_X),
            axis_setup(ABS_Y, MAX_Y),
            axis_setup(ABS_PRESSURE, MAX_PRESSURE),
        ],
{
    let mut axes: Vec<AxisSetup> = Vec::new();
    axes.push(
        AxisSetup {
            code: ABS_X,
            value: 0,
            minimum: 0,
            maximum: MAX_X,
            fuzz: 0,
            flat: 0,
            resolution: 1,
        },
    );
    axes.push(
        AxisSetup {
            code: ABS_Y,
            value: 0,
            minimum: 0,
            maximum: MAX_Y,
            fuzz: 0,
            flat: 0,
            resolution: 1,
        },
    );
    axes.push(
        AxisSetup {
            code: ABS_PRESSURE,
            value: 0,
            minimum: 0,
            maximum: MAX_PRESSURE,
            fuzz: 0,
            flat: 0,
            resolution: 1,
        },
    );
    assert(axes@ =~= seq![
        axis_setup(ABS_X, MAX_X),
        axis_setup(ABS_Y, MAX_Y),
        axis_setup(ABS_PRESSURE, MAX_PRESSURE),
    ]);
    axes
}

/// Whether every key event among `events` that goes to `sink` has its code in
/// `declared`.
pub open spec fn keys_declared(events: Seq<Emission>, sink: Sink, declared: Set<u16>) -> bool {
    forall|i: int|
        0 <= i < events.len() && (#[trigger] events[i]).sink == sink && events[i].kind
            == EventKind::Key ==> declared.contains(events[i].code)
}

/// Two runs of events whose keys are declared make one when joined.
proof fn lemma_declared_concat(a: Seq<Emission>, b: Seq<Emission>, sink: Sink, declared: Set<u16>)
    requires
        keys_declared(a, sink, declared),
        keys_declared(b, sink, declared),
    ensures
        keys_declared(a + b, sink, declared),
{
}

/// Events on another device leave a device's keys alone.
proof fn lemma_declared_elsewhere(
    target: Sink,
    keys: Seq<u16>,
    state: i32,
    sink: Sink,
    declared: Set<u16>,
)
    requires
        target != sink,
    ensures
        keys_declared(key_events(target, keys, state), sink, declared),
{
}

/// The keys of a bound id are among the codes that the table binds.
proof fn lemma_declared_combo(table: Map<u8, Seq<u16>>, id: u8, state: i32, sink: Sink)
    requires
        table.contains_key(id),
    ensures
        keys_declared(key_events(sink, table[id], state), sink, bound_codes(table)),
{
    let events = key_events(sink, table[id], state);
    assert forall|i: int| 0 <= i < events.len() implies bound_codes(table).contains(
        (#[trigger] events[i]).code,
    ) by {
        assert(binds(table, id, i, events[i].code));
    }
}

/// The keys of a media button are among the codes that the table binds.
proof fn lemma_declared_media(table: Map<u8, Seq<u16>>, button: i32, state: i32)
    ensures
        keys_declared(
            key_events(Sink::MediaKeyboard, media_keys(table, button), state),
            Sink::MediaKeyboard,
            bound_codes(table),
        ),
{
    if 0 <= button <= u8::MAX && table.contains_key(button as u8) {
        lemma_declared_combo(table, button as u8, state, Sink::MediaKeyboard);
    }
}

/// The tablet's buttons send keys that the keyboard declares, and none to
/// another device.
proof fn lemma_declared_tablet(table: Map<u8, Seq<u16>>, last: u16, flags: u16, n: nat, sink: Sink)
    ensures
        keys_declared(
            tablet_events_below(table, last, flags, n),
            sink,
            if sink == Sink::Keyboard {
                bound_codes(table)
            } else {
                Set::empty()
            },
        ),
    decreases n,
{
    if n > 0 {
        let id = (n - 1) as u8;
        let declared = if sink == Sink::Keyboard {
            bound_codes(table)
        } else {
            Set::empty()
        };
        lemma_declared_tablet(table, last, flags, (n - 1) as nat, sink);
        match key_transition(button_is_pressed(last, id), button_is_pressed(flags, id)) {
            Some(state) => {
                if table.contains_key(id) {
                    lemma_declared_combo(table, id, state, Sink::Keyboard);
                }
            },
            None => {},
        }
        assert(keys_declared(tablet_key_events(table, last, flags, id), sink, declared));
        lemma_declared_concat(
            tablet_events_below(table, last, flags, (n - 1) as nat),
            tablet_key_events(table, last, flags, id),
            sink,
            declared,
        );
    }
}

/// Every key event of a sample has a code that the device it goes to
/// declares: the pen device the keys of [`pen_key_set`], the keyboard and the
/// media keyboard those of [`keyboard_key_set`] for their bindings.
pub proof fn lemma_sent_keys_are_declared(
    dispatcher: DeviceDispatcher,
    sample: DecodedSample,
    threshold: u16,
    reading: PenReading,
)
    ensures
        keys_declared(
            dispatcher.sample_events(sample, threshold, reading),
            Sink::Pen,
            bound_codes(dispatcher.pen_button_id_to_key_code_map@) + pen_tool_codes(),
        ),
        keys_declared(
            dispatcher.sample_events(sample, threshold, reading),
            Sink::Keyboard,
            bound_codes(dispatcher.tablet_button_id_to_key_code_map@),
        ),
        keys_declared(
            dispatcher.sample_events(sample, threshold, reading),
            Sink::MediaKeyboard,
            bound_codes(dispatcher.media_button_id_to_key_code_map@),
        ),
{
    let pen = dispatcher.pen_button_id_to_key_code_map@;
    let tablet = dispatcher.tablet_button_id_to_key_code_map@;
    let media = dispatcher.media_button_id_to_key_code_map@;
    let pressure = DeviceDispatcher::sample_pressure(sample, threshold, reading);
    let in_strip = DeviceDispatcher::in_media_strip(sample);
    let last = dispatcher.last_pressed_media_button;
    let buttons = dispatcher.pen_button_events(sample);
    let pads = dispatcher.tablet_button_events(sample);
    let place = pen_abs_events(reading.x, reading.y, pressure, in_strip);
    let touch = touch_events(media, last, reading.x, in_strip, dispatcher.was_touching, pressure > 0);
    let on_pen = bound_codes(pen) + pen_tool_codes();

    match pen_transition(dispatcher.pen_last_raw_pressed_button, sample.pen_button) {
        Some((state, id)) => {
            if pen.contains_key(id) {
                lemma_declared_combo(pen, id, state, Sink::Pen);
            }
        },
        None => {},
    }
    lemma_declared_media(media, media_column(reading.x as int) as i32, PRESSED);
    lemma_declared_media(media, last, RELEASED);
    lemma_declared_elsewhere(
        Sink::MediaKeyboard,
        media_keys(media, media_column(reading.x as int) as i32),
        PRESSED,
        Sink::Pen,
        on_pen,
    );
    lemma_declared_elsewhere(
        Sink::MediaKeyboard,
        media_keys(media, last),
        RELEASED,
        Sink::Pen,
        on_pen,
    );
    lemma_declared_tablet(
        tablet,
        dispatcher.tablet_last_raw_pressed_buttons,
        sample.tablet_buttons,
        TABLET_ID_END as nat,
        Sink::Pen,
    );
    lemma_declared_tablet(
        tablet,
        dispatcher.tablet_last_raw_pressed_buttons,
        sample.tablet_buttons,
        TABLET_ID_END as nat,
        Sink::Keyboard,
    );
    lemma_declared_tablet(
        tablet,
        dispatcher.tablet_last_raw_pressed_buttons,
        sample.tablet_buttons,
        TABLET_ID_END as nat,
        Sink::MediaKeyboard,
    );

    assert(keys_declared(buttons, Sink::Pen, on_pen));
    assert(keys_declared(pads, Sink::Pen, on_pen));
    assert(keys_declared(place, Sink::Pen, on_pen));
    assert(keys_declared(touch, Sink::Pen, on_pen));
    lemma_declared_concat(buttons, pads, Sink::Pen, on_pen);
    lemma_declared_concat(place, touch, Sink::Pen, on_pen);
    lemma_declared_concat(buttons + pads, place + touch, Sink::Pen, on_pen);

    assert(keys_declared(buttons, Sink::Keyboard, bound_codes(tablet)));
    assert(keys_declared(place, Sink::Keyboard, bound_codes(tablet)));
    assert(keys_declared(touch, Sink::Keyboard, bound_codes(tablet)));
    lemma_declared_concat(buttons, pads, Sink::Keyboard, bound_codes(tablet));
    lemma_declared_concat(place, touch, Sink::Keyboard, bound_codes(tablet));
    lemma_declared_concat(buttons + pads, place + touch, Sink::Keyboard, bound_codes(tablet));

    assert(keys_declared(buttons, Sink::MediaKeyboard, bound_codes(media)));
    assert(keys_declared(pads, Sink::MediaKeyboard, bound_codes(media)));
    assert(keys_declared(place, Sink::MediaKeyboard, bound_codes(media)));
    assert(keys_declared(touch, Sink::MediaKeyboard, bound_codes(media)));
    lemma_declared_concat(buttons, pads, Sink::MediaKeyboard, bound_codes(media));
    lemma_declared_concat(place, touch, Sink::MediaKeyboard, bound_codes(media));
    lemma_declared_concat(buttons + pads, place + touch, Sink::MediaKeyboard, bound_codes(media));
}

} // verus!
