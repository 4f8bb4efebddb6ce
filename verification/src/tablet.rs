//! The tablet's buttons: from two button masks to key events.

use crate::event::{
    flush_event, key_events, lemma_key_events_no_axis, lemma_no_axis_concat, no_axis_event,
    Emission, Sink, HOLD, PRESSED, RELEASED,
};
use crate::report::ALL_RELEASED;
use vstd::prelude::*;

verus! {

/// The ids of the tablet's buttons lie below this number.
pub const TABLET_ID_END: u8 = 14;

/// Whether `id` names one of the tablet's buttons: 10 and 11 name none.
pub open spec fn is_tablet_button(id: u8) -> bool {
    id < TABLET_ID_END && id != 10 && id != 11
}

/// Whether button `id` is down in `mask`: a bit that is 0 stands for a
/// pressed button.
pub open spec fn button_is_pressed(mask: u16, id: u8) -> bool {
    mask & (1u16 << id) == 0
}

/// The mask in which button `id` is down and no other.
pub open spec fn only_pressed(id: u8) -> u16 {
    ALL_RELEASED & !(1u16 << id)
}

/// What a button tells when it was, and now is, down or up.
pub open spec fn key_transition(was_pressed: bool, is_pressed: bool) -> Option<i32> {
    if !was_pressed && is_pressed {
        Some(PRESSED)
    } else if was_pressed && !is_pressed {
        Some(RELEASED)
    } else if was_pressed && is_pressed {
        Some(HOLD)
    } else {
        None
    }
}

/// The events of button `id` when the mask goes from `last` to `flags`: where
/// the button has something to tell and is bound, one key event per bound
/// key and then the end of the batch; nothing otherwise.
pub open spec fn tablet_key_events(
    bindings: Map<u8, Seq<u16>>,
    last: u16,
    flags: u16,
    id: u8,
) -> Seq<Emission> {
    match key_transition(button_is_pressed(last, id), button_is_pressed(flags, id)) {
        Some(state) => if bindings.contains_key(id) {
            key_events(Sink::Keyboard, bindings[id], state).push(flush_event(Sink::Keyboard))
        } else {
            Seq::empty()
        },
        None => Seq::empty(),
    }
}

/// The events of the buttons with an id below `n`, in the order of their ids.
pub open spec fn tablet_events_below(
    bindings: Map<u8, Seq<u16>>,
    last: u16,
    flags: u16,
    n: nat,
) -> Seq<Emission>
    decreases n,
{
    if n == 0 {
        Seq::empty()
    } else {
        let id = (n - 1) as u8;
        let before = tablet_events_below(bindings, last, flags, (n - 1) as nat);
        if is_tablet_button(id) {
            before + tablet_key_events(bindings, last, flags, id)
        } else {
            before
        }
    }
}

/// The events of all the tablet's buttons when the mask goes from `last` to
/// `flags`.
pub open spec fn tablet_events(bindings: Map<u8, Seq<u16>>, last: u16, flags: u16) -> Seq<
    Emission,
> {
    tablet_events_below(bindings, last, flags, TABLET_ID_END as nat)
}

/// The tablet's buttons send no position.
pub proof fn lemma_tablet_events_no_axis(
    bindings: Map<u8, Seq<u16>>,
    last: u16,
    flags: u16,
    n: nat,
)
    ensures
        no_axis_event(tablet_events_below(bindings, last, flags, n)),
    decreases n,
{
    if n > 0 {
        let id = (n - 1) as u8;
        lemma_tablet_events_no_axis(bindings, last, flags, (n - 1) as nat);
        match key_transition(button_is_pressed(last, id), button_is_pressed(flags, id)) {
            Some(state) => {
                if bindings.contains_key(id) {
                    lemma_key_events_no_axis(Sink::Keyboard, bindings[id], state);
                }
            },
            None => {},
        }
        lemma_no_axis_concat(
            tablet_events_below(bindings, last, flags, (n - 1) as nat),
            tablet_key_events(bindings, last, flags, id),
        );
    }
}

/// Where no button but `id` has anything to tell, the buttons below `n` send
/// what `id` sends, if it is among them.
proof fn lemma_single_button(bindings: Map<u8, Seq<u16>>, last: u16, flags: u16, id: u8, n: nat)
    requires
        n <= TABLET_ID_END,
        forall|other: u8|
            other < TABLET_ID_END && other != id ==> !#[trigger] button_is_pressed(last, other)
                && !button_is_pressed(flags, other),
    ensures
        tablet_events_below(bindings, last, flags, n) == if id < n && is_tablet_button(id) {
            tablet_key_events(bindings, last, flags, id)
        } else {
            Seq::<Emission>::empty()
        },
    decreases n,
{
    if n > 0 {
        let top = (n - 1) as u8;
        lemma_single_button(bindings, last, flags, id, (n - 1) as nat);
        let before = tablet_events_below(bindings, last, flags, (n - 1) as nat);
        if top == id {
            assert(before + tablet_key_events(bindings, last, flags, id) =~= tablet_key_events(
                bindings,
                last,
                flags,
                id,
            ));
        } else {
            assert(!button_is_pressed(last, top) && !button_is_pressed(flags, top));
            assert(tablet_key_events(bindings, last, flags, top) =~= Seq::<Emission>::empty());
            assert(before + Seq::<Emission>::empty() =~= before);
        }
    }
}

/// In the mask in which only `id` is down, `id` is down and every other
/// button is up; in the mask in which none is down, every button is up.
proof fn lemma_masks(id: u8)
    requires
        id < 16,
    ensures
        button_is_pressed(only_pressed(id), id),
        forall|other: u8|
            other < 16 && other != id ==> !#[trigger] button_is_pressed(only_pressed(id), other),
        forall|other: u8| other < 16 ==> !#[trigger] button_is_pressed(ALL_RELEASED, other),
{
    assert((0xFFFFu16 & !(1u16 << id)) & (1u16 << id) == 0) by (bit_vector)
        requires
            id < 16,
    ;
    assert forall|other: u8| other < 16 && other != id implies !#[trigger] button_is_pressed(
        only_pressed(id),
        other,
    ) by {
        assert((0xFFFFu16 & !(1u16 << id)) & (1u16 << other) != 0) by (bit_vector)
            requires
                id < 16,
                other < 16,
                other != id,
        ;
    }
    assert forall|other: u8| other < 16 implies !#[trigger] button_is_pressed(
        ALL_RELEASED,
        other,
    ) by {
        assert(0xFFFFu16 & (1u16 << other) != 0) by (bit_vector)
            requires
                other < 16,
        ;
    }
}

/// A bound button that goes down, stays down for a sample and goes up again,
/// while the others stay up, sends its keys as pressed, then as held, then as
/// released, each time followed by the end of the batch. Nothing else is
/// sent, and nothing at all while all buttons stay up.
pub proof fn lemma_button_cycle(bindings: Map<u8, Seq<u16>>, id: u8)
    requires
        is_tablet_button(id),
        bindings.contains_key(id),
    ensures
        tablet_events(bindings, ALL_RELEASED, ALL_RELEASED) == Seq::<Emission>::empty(),
        tablet_events(bindings, ALL_RELEASED, only_pressed(id)) == key_events(
            Sink::Keyboard,
            bindings[id],
            PRESSED,
        ).push(flush_event(Sink::Keyboard)),
        tablet_events(bindings, only_pressed(id), only_pressed(id)) == key_events(
            Sink::Keyboard,
            bindings[id],
            HOLD,
        ).push(flush_event(Sink::Keyboard)),
        tablet_events(bindings, only_pressed(id), ALL_RELEASED) == key_events(
            Sink::Keyboard,
            bindings[id],
            RELEASED,
        ).push(flush_event(Sink::Keyboard)),
{
    lemma_masks(id);
    let n = TABLET_ID_END as nat;
    lemma_single_button(bindings, ALL_RELEASED, ALL_RELEASED, id, n);
    lemma_single_button(bindings, ALL_RELEASED, only_pressed(id), id, n);
    lemma_single_button(bindings, only_pressed(id), only_pressed(id), id, n);
    lemma_single_button(bindings, only_pressed(id), ALL_RELEASED, id, n);
}

} // verus!
