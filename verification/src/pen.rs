//! The pen: its buttons, its position and pressure, and the media strip.

use crate::event::{
    axis_event, key_event, key_events, lemma_key_events_no_axis, no_axis_event, Emission, Sink,
    ABS_PRESSURE, ABS_X, ABS_Y, HOLD, MAX_X, MAX_Y, PRESSED, RELEASED,
};
use crate::keys::{BTN_TOOL_PEN, BTN_TOUCH};
use vstd::prelude::*;

verus! {

/// The pen button code that says that no button is down.
pub const PEN_NO_BUTTON: u8 = 2;

/// The code of the pen's first button.
pub const PEN_BUTTON_LOWER: u8 = 4;

/// The code of the pen's second button.
pub const PEN_BUTTON_UPPER: u8 = 6;

/// What the raw pressure is taken from to give the pressure points.
pub const RAW_PRESSURE_POINTS: i32 = 2000;

/// Number of columns of the media strip.
pub const MEDIA_BUTTONS_COUNT: i32 = 10;

/// Whether `code` names one of the pen's buttons.
pub open spec fn is_pen_button(code: u8) -> bool {
    code == PEN_BUTTON_LOWER || code == PEN_BUTTON_UPPER
}

/// What the pen's buttons tell when the code goes from `last` to `button`:
/// a state and the button it is about, or nothing.
pub open spec fn pen_transition(last: u8, button: u8) -> Option<(i32, u8)> {
    if last == PEN_NO_BUTTON && is_pen_button(button) {
        Some((PRESSED, button))
    } else if is_pen_button(last) && button == PEN_NO_BUTTON {
        Some((RELEASED, last))
    } else if last != PEN_NO_BUTTON && last == button {
        Some((HOLD, last))
    } else {
        None
    }
}

/// The events of the pen's buttons when the code goes from `last` to
/// `button`: one key event per key that the button is bound to.
pub open spec fn pen_key_events(bindings: Map<u8, Seq<u16>>, last: u8, button: u8) -> Seq<
    Emission,
> {
    match pen_transition(last, button) {
        Some((state, id)) => if bindings.contains_key(id) {
            key_events(Sink::Pen, bindings[id], state)
        } else {
            Seq::empty()
        },
        None => Seq::empty(),
    }
}

/// How far the raw pressure lies below that of a pen in the air.
pub open spec fn pressure_points(raw_pressure: int) -> int {
    RAW_PRESSURE_POINTS - raw_pressure
}

/// The pressure to send: none while the pressure points do not exceed
/// `threshold`, and `scaled` (the points times the sensitivity) above it.
pub open spec fn normalized_pressure(raw_pressure: int, threshold: int, scaled: i32) -> i32 {
    if pressure_points(raw_pressure) <= threshold {
        0
    } else {
        scaled
    }
}

/// `y`, held within what the pen device declares.
pub open spec fn clamp_y(y: i32) -> i32 {
    if y < 0 {
        0
    } else if y > MAX_Y {
        MAX_Y
    } else {
        y
    }
}

/// The events that place the pen: none in the media strip; on the drawing
/// surface its position, its pressure and the presence of the tool.
pub open spec fn pen_abs_events(x: i32, y: i32, pressure: i32, is_multimedia_area: bool) -> Seq<
    Emission,
> {
    if is_multimedia_area {
        Seq::empty()
    } else {
        seq![
            axis_event(ABS_X, x),
            axis_event(ABS_Y, clamp_y(y)),
            axis_event(ABS_PRESSURE, pressure),
            key_event(Sink::Pen, BTN_TOOL_PEN, PRESSED),
        ]
    }
}

/// What the touch tells when the pen was, and now is, on the surface or off.
pub open spec fn touch_transition(was_touching: bool, is_touching: bool) -> Option<i32> {
    if !was_touching && is_touching {
        Some(PRESSED)
    } else if was_touching && !is_touching {
        Some(RELEASED)
    } else {
        None
    }
}

/// The column of the media strip that holds `x`: the strip's columns are
/// equal parts of the X range, counted from 0.
pub open spec fn media_column(x: int) -> int {
    (MEDIA_BUTTONS_COUNT * x) / (MAX_X as int)
}

/// The media button that is latched after a sample: the column under the pen
/// where the pen came down in the strip, the one latched before otherwise.
pub open spec fn latched_media_button(
    last: i32,
    x: i32,
    is_multimedia_area: bool,
    was_touching: bool,
    is_touching: bool,
) -> i32 {
    if is_multimedia_area && !was_touching && is_touching {
        media_column(x as int) as i32
    } else {
        last
    }
}

/// The keys that media button `button` is bound to; none where it is not
/// bound.
pub open spec fn media_keys(bindings: Map<u8, Seq<u16>>, button: i32) -> Seq<u16> {
    if 0 <= button <= u8::MAX && bindings.contains_key(button as u8) {
        bindings[button as u8]
    } else {
        Seq::empty()
    }
}

/// The events of the touch. Nothing while the pen stays on or off the
/// surface. Where the pen comes down in the media strip, the keys of the
/// column under it go down; where it comes down on the drawing surface, the
/// touch button does. Where the pen goes up, the keys of the media button
/// latched before go up, wherever the pen is, and on the drawing surface the
/// touch button follows them.
pub open spec fn touch_events(
    bindings: Map<u8, Seq<u16>>,
    last: i32,
    x: i32,
    is_multimedia_area: bool,
    was_touching: bool,
    is_touching: bool,
) -> Seq<Emission> {
    match touch_transition(was_touching, is_touching) {
        Some(state) => if state == PRESSED {
            if is_multimedia_area {
                key_events(
                    Sink::MediaKeyboard,
                    media_keys(bindings, media_column(x as int) as i32),
                    PRESSED,
                )
            } else {
                seq![key_event(Sink::Pen, BTN_TOUCH, PRESSED)]
            }
        } else {
            let release = key_events(Sink::MediaKeyboard, media_keys(bindings, last), RELEASED);
            if is_multimedia_area {
                release
            } else {
                release.push(key_event(Sink::Pen, BTN_TOUCH, RELEASED))
            }
        },
        None => Seq::empty(),
    }
}

/// A bound pen button that goes down, stays down for a sample and goes up
/// again sends its keys as pressed, then as held, then as released. Only one
/// button is followed at a time: a change from one button to the other tells
/// nothing.
pub proof fn lemma_pen_button_cycle(bindings: Map<u8, Seq<u16>>, button: u8)
    requires
        is_pen_button(button),
        bindings.contains_key(button),
    ensures
        pen_key_events(bindings, PEN_NO_BUTTON, PEN_NO_BUTTON) == Seq::<Emission>::empty(),
        pen_key_events(bindings, PEN_NO_BUTTON, button) == key_events(
            Sink::Pen,
            bindings[button],
            PRESSED,
        ),
        pen_key_events(bindings, button, button) == key_events(Sink::Pen, bindings[button], HOLD),
        pen_key_events(bindings, button, PEN_NO_BUTTON) == key_events(
            Sink::Pen,
            bindings[button],
            RELEASED,
        ),
        pen_key_events(bindings, PEN_BUTTON_LOWER, PEN_BUTTON_UPPER) == Seq::<Emission>::empty(),
        pen_key_events(bindings, PEN_BUTTON_UPPER, PEN_BUTTON_LOWER) == Seq::<Emission>::empty(),
{
}

/// A pen that comes down in the media strip presses the keys of the column
/// under it and latches that column. While it stays down it sends nothing
/// and the column stays latched. When it goes up, in the strip or on the
/// drawing surface, it releases the keys of the latched column; on the
/// drawing surface the touch button goes up after them.
pub proof fn lemma_media_combo(
    bindings: Map<u8, Seq<u16>>,
    last: i32,
    x_down: i32,
    x_held: i32,
    held_in_strip: bool,
    x_up: i32,
    up_in_strip: bool,
)
    ensures
        ({
            let column = media_column(x_down as int) as i32;
            let keys = media_keys(bindings, column);
            &&& touch_events(bindings, last, x_down, true, false, true) == key_events(
                Sink::MediaKeyboard,
                keys,
                PRESSED,
            )
            &&& latched_media_button(last, x_down, true, false, true) == column
            &&& touch_events(bindings, column, x_held, held_in_strip, true, true) == Seq::<
                Emission,
            >::empty()
            &&& latched_media_button(column, x_held, held_in_strip, true, true) == column
            &&& touch_events(bindings, column, x_up, up_in_strip, true, false) == if up_in_strip {
                key_events(Sink::MediaKeyboard, keys, RELEASED)
            } else {
                key_events(Sink::MediaKeyboard, keys, RELEASED).push(
                    key_event(Sink::Pen, BTN_TOUCH, RELEASED),
                )
            }
            &&& latched_media_button(column, x_up, up_in_strip, true, false) == column
        }),
{
}

/// The columns of the media strip are equal parts of the X range: column `c`
/// holds the `x` from `c` tenths of the range up to, but without, `c + 1`
/// tenths. From the left edge of the range up to, but without, its right
/// edge, the column is one of the ten.
pub proof fn lemma_media_column(x: int)
    ensures
        media_column(x) * MAX_X <= MEDIA_BUTTONS_COUNT * x < (media_column(x) + 1) * MAX_X,
        0 <= x < MAX_X ==> 0 <= media_column(x) < MEDIA_BUTTONS_COUNT,
{
}

/// The Y that is sent lies within what the pen device declares, whatever was
/// read.
pub proof fn lemma_clamp_y(y: i32)
    ensures
        0 <= clamp_y(y) <= MAX_Y,
        0 <= y <= MAX_Y ==> clamp_y(y) == y,
{
}

/// The pen's buttons send no position.
pub proof fn lemma_pen_key_events_no_axis(bindings: Map<u8, Seq<u16>>, last: u8, button: u8)
    ensures
        no_axis_event(pen_key_events(bindings, last, button)),
{
    match pen_transition(last, button) {
        Some((state, id)) => {
            if bindings.contains_key(id) {
                lemma_key_events_no_axis(Sink::Pen, bindings[id], state);
            }
        },
        None => {},
    }
}

/// The touch sends no position.
pub proof fn lemma_touch_events_no_axis(
    bindings: Map<u8, Seq<u16>>,
    last: i32,
    x: i32,
    is_multimedia_area: bool,
    was_touching: bool,
    is_touching: bool,
)
    ensures
        no_axis_event(
            touch_events(bindings, last, x, is_multimedia_area, was_touching, is_touching),
        ),
{
    lemma_key_events_no_axis(
        Sink::MediaKeyboard,
        media_keys(bindings, media_column(x as int) as i32),
        PRESSED,
    );
    lemma_key_events_no_axis(Sink::MediaKeyboard, media_keys(bindings, last), RELEASED);
}

} // verus!
