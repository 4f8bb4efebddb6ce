//! The dispatcher: from one decoded sample and the session's state to the
//! events that the virtual devices have to send.

use crate::bindings::{default_media_map, default_pen_map, default_tablet_map, KeyBindings};
use crate::event::{
    axis_event, flush_event, key_events, lemma_no_axis_concat, no_axis_event, push_key_events,
    Emission, EventKind, Sink, ABS_PRESSURE, ABS_X, ABS_Y, HOLD, MAX_X, MAX_Y, PRESSED,
    RELEASED,
};
use crate::keys::{BTN_TOOL_PEN, BTN_TOUCH};
use crate::pen::{
    clamp_y, latched_media_button, lemma_pen_key_events_no_axis, lemma_touch_events_no_axis,
    media_column, media_keys, normalized_pressure, pen_abs_events, pen_key_events,
    pen_transition, touch_events, MEDIA_BUTTONS_COUNT, PEN_BUTTON_LOWER, PEN_BUTTON_UPPER,
    PEN_NO_BUTTON, RAW_PRESSURE_POINTS,
};
use crate::report::{decoded, DecodedSample, RawDataReader, ALL_RELEASED, PEN_BUTTONS};
use crate::tablet::{
    is_tablet_button, lemma_button_cycle, lemma_tablet_events_no_axis, only_pressed,
    tablet_events, tablet_events_below, tablet_key_events, TABLET_ID_END,
};
use vstd::prelude::*;

verus! {

/// What the floating-point stage made of one sample: the smoothed position,
/// cut to whole numbers, and the pressure points times the sensitivity.
#[derive(Clone, Copy, Debug, PartialEq, Eq, Structural)]
pub struct PenReading {
    pub x: i32,
    pub y: i32,
    pub pressure: i32,
}

/// The state of one session and the three binding tables.
pub struct DeviceDispatcher {
    /// The tablet button mask of the sample before.
    pub tablet_last_raw_pressed_buttons: u16,
    /// The pen button code of the sample before.
    pub pen_last_raw_pressed_button: u8,
    /// The media button that was latched last.
    pub last_pressed_media_button: i32,
    /// Whether the pen touched the surface in the sample before.
    pub was_touching: bool,
    pub media_button_id_to_key_code_map: KeyBindings,
    pub tablet_button_id_to_key_code_map: KeyBindings,
    pub pen_button_id_to_key_code_map: KeyBindings,
}

impl DeviceDispatcher {
    /// Whether `sample` lies in the media strip: the strip is where Y is
    /// below zero.
    pub open spec fn in_media_strip(sample: DecodedSample) -> bool {
        sample.y < 0
    }

    /// The pressure that `sample` sends.
    pub open spec fn sample_pressure(
        sample: DecodedSample,
        threshold: u16,
        reading: PenReading,
    ) -> i32 {
        normalized_pressure(sample.pressure as int, threshold as int, reading.pressure)
    }

    /// The events of the pen's buttons for `sample`.
    pub open spec fn pen_button_events(self, sample: DecodedSample) -> Seq<Emission> {
        pen_key_events(
            self.pen_button_id_to_key_code_map@,
            self.pen_last_raw_pressed_button,
            sample.pen_button,
        )
    }

    /// The events of the tablet's buttons for `sample`.
    pub open spec fn tablet_button_events(self, sample: DecodedSample) -> Seq<Emission> {
        tablet_events(
            self.tablet_button_id_to_key_code_map@,
            self.tablet_last_raw_pressed_buttons,
            sample.tablet_buttons,
        )
    }

    /// The events of the pen's position and touch for `sample`.
    pub open spec fn pen_events(
        self,
        sample: DecodedSample,
        threshold: u16,
        reading: PenReading,
    ) -> Seq<Emission> {
        let pressure = Self::sample_pressure(sample, threshold, reading);
        pen_abs_events(reading.x, reading.y, pressure, Self::in_media_strip(sample)) + touch_events(
            self.media_button_id_to_key_code_map@,
            self.last_pressed_media_button,
            reading.x,
            Self::in_media_strip(sample),
            self.was_touching,
            pressure > 0,
        )
    }

    /// Everything that `sample` sends: the events of the pen's buttons, of
    /// the tablet's buttons, of the pen's position and of the touch, in this
    /// order.
    pub open spec fn sample_events(
        self,
        sample: DecodedSample,
        threshold: u16,
        reading: PenReading,
    ) -> Seq<Emission> {
        self.pen_button_events(sample) + self.tablet_button_events(sample) + self.pen_events(
            sample,
            threshold,
            reading,
        )
    }

    /// The dispatcher after `sample`: it holds the sample's mask and code to
    /// compare the next with, whether the pen touched, and the media button
    /// that is latched.
    pub open spec fn after_sample(
        self,
        sample: DecodedSample,
        threshold: u16,
        reading: PenReading,
    ) -> Self {
        let pressure = Self::sample_pressure(sample, threshold, reading);
        DeviceDispatcher {
            tablet_last_raw_pressed_buttons: sample.tablet_buttons,
            pen_last_raw_pressed_button: sample.pen_button,
            last_pressed_media_button: latched_media_button(
                self.last_pressed_media_button,
                reading.x,
                Self::in_media_strip(sample),
                self.was_touching,
                pressure > 0,
            ),
            was_touching: pressure > 0,
            ..self
        }
    }

    /// The dispatcher after the samples of `samples`, each with its threshold
    /// and reading, fed one after another.
    pub open spec fn after_samples(self, samples: Seq<(DecodedSample, u16, PenReading)>) -> Self
        decreases samples.len(),
    {
        if samples.len() == 0 {
            self
        } else {
            self.after_samples(samples.drop_last()).after_sample(
                samples.last().0,
                samples.last().1,
                samples.last().2,
            )
        }
    }

    /// A dispatcher at the start of a session, with the bindings that the
    /// tablet comes with.
    pub fn new() -> (r: Self)
        ensures
            r.tablet_last_raw_pressed_buttons == ALL_RELEASED,
            r.pen_last_raw_pressed_button == 0,
            r.last_pressed_media_button == 0,
            !r.was_touching,
            r.media_button_id_to_key_code_map@ == default_media_map(),
            r.tablet_button_id_to_key_code_map@ == default_tablet_map(),
            r.pen_button_id_to_key_code_map@ == default_pen_map(),
    {
        Self::with_bindings(
            KeyBindings::default_media(),
            KeyBindings::default_tablet(),
            KeyBindings::default_pen(),
        )
    }

    /// A dispatcher at the start of a session: no tablet button down, pen
    /// button code 0, media button 0 latched, the pen off the surface.
    pub fn with_bindings(media: KeyBindings, tablet: KeyBindings, pen: KeyBindings) -> (r: Self)
        ensures
            r.tablet_last_raw_pressed_buttons == ALL_RELEASED,
            r.pen_last_raw_pressed_button == 0,
            r.last_pressed_media_button == 0,
            !r.was_touching,
            r.media_button_id_to_key_code_map == media,
            r.tablet_button_id_to_key_code_map == tablet,
            r.pen_button_id_to_key_code_map == pen,
    {
        DeviceDispatcher {
            tablet_last_raw_pressed_buttons: ALL_RELEASED,
            pen_last_raw_pressed_button: 0,
            last_pressed_media_button: 0,
            was_touching: false,
            media_button_id_to_key_code_map: media,
            tablet_button_id_to_key_code_map: tablet,
            pen_button_id_to_key_code_map: pen,
        }
    }

    /// The end of a sample's batch: one marker for the keyboard, one for the
    /// pen device.
    pub fn syn(&self) -> (r: Vec<Emission>)
        ensures
            r@ == seq![flush_event(Sink::Keyboard), flush_event(Sink::Pen)],
    {
        let mut out: Vec<Emission> = Vec::new();
        out.push(Emission::flush(Sink::Keyboard));
        out.push(Emission::flush(Sink::Pen));
        assert(out@ =~= seq![flush_event(Sink::Keyboard), flush_event(Sink::Pen)]);
        out
    }

    /// The events of tablet button `i` for the mask `raw_button_as_flags`,
    /// against the mask of the sample before.
    pub fn emit_tablet_key_event(&self, i: u8, raw_button_as_flags: u16) -> (r: Vec<Emission>)
        requires
            i < 16,
        ensures
            r@ == tablet_key_events(
                self.tablet_button_id_to_key_code_map@,
                self.tablet_last_raw_pressed_buttons,
                raw_button_as_flags,
                i,
            ),
    {
        let mut out: Vec<Emission> = Vec::new();
        let id_as_binary_mask: u16 = 1u16 << i;
        let is_pressed = (raw_button_as_flags & id_as_binary_mask) == 0;
        let was_pressed = (self.tablet_last_raw_pressed_buttons & id_as_binary_mask) == 0;
        let transition = if !was_pressed && is_pressed {
            Some(PRESSED)
        } else if was_pressed && !is_pressed {
            Some(RELEASED)
        } else if was_pressed && is_pressed {
            Some(HOLD)
        } else {
            None
        };
        if let Some(state) = transition {
            if let Some(keys) = self.tablet_button_id_to_key_code_map.get(i) {
                push_key_events(&mut out, Sink::Keyboard, keys, state);
                out.push(Emission::flush(Sink::Keyboard));
            }
        }
        assert(out@ =~= tablet_key_events(
            self.tablet_button_id_to_key_code_map@,
            self.tablet_last_raw_pressed_buttons,
            raw_button_as_flags,
            i,
        ));
        out
    }

    /// The events of all the tablet's buttons for the mask
    /// `raw_button_as_flags`, in the order of their ids.
    pub fn binary_flags_to_tablet_key_events(&self, raw_button_as_flags: u16) -> (r: Vec<Emission>)
        ensures
            r@ == tablet_events(
                self.tablet_button_id_to_key_code_map@,
                self.tablet_last_raw_pressed_buttons,
                raw_button_as_flags,
            ),
    {
        let mut out: Vec<Emission> = Vec::new();
        let mut i: u8 = 0;
        while i < TABLET_ID_END
            invariant
                i <= TABLET_ID_END,
                out@ == tablet_events_below(
                    self.tablet_button_id_to_key_code_map@,
                    self.tablet_last_raw_pressed_buttons,
                    raw_button_as_flags,
                    i as nat,
                ),
            decreases TABLET_ID_END - i,
        {
            if i != 10 && i != 11 {
                let mut events = self.emit_tablet_key_event(i, raw_button_as_flags);
                out.append(&mut events);
            }
            i += 1;
        }
        out
    }

    /// The events of the tablet's buttons for one sample; the sample's mask
    /// becomes the one to compare the next with.
    pub fn emit_tablet_events(&mut self, sample: &DecodedSample) -> (r: Vec<Emission>)
        ensures
            r@ == old(self).tablet_button_events(*sample),
            *final(self) == (DeviceDispatcher {
                tablet_last_raw_pressed_buttons: sample.tablet_buttons,
                ..*old(self)
            }),
    {
        let out = self.binary_flags_to_tablet_key_events(sample.tablet_buttons);
        self.tablet_last_raw_pressed_buttons = sample.tablet_buttons;
        out
    }

    /// The events of the pen's buttons for the code `pen_button`, against the
    /// code of the sample before.
    pub fn raw_pen_buttons_to_pen_key_events(&self, pen_button: u8) -> (r: Vec<Emission>)
        ensures
            r@ == pen_key_events(
                self.pen_button_id_to_key_code_map@,
                self.pen_last_raw_pressed_button,
                pen_button,
            ),
    {
        let mut out: Vec<Emission> = Vec::new();
        let last = self.pen_last_raw_pressed_button;
        let transition = if last == PEN_NO_BUTTON && (pen_button == PEN_BUTTON_UPPER || pen_button
            == PEN_BUTTON_LOWER) {
            Some((PRESSED, pen_button))
        } else if (last == PEN_BUTTON_UPPER || last == PEN_BUTTON_LOWER) && pen_button
            == PEN_NO_BUTTON {
            Some((RELEASED, last))
        } else if last != PEN_NO_BUTTON && last == pen_button {
            Some((HOLD, last))
        } else {
            None
        };
        assert(transition == pen_transition(last, pen_button));
        if let Some((state, id)) = transition {
            if let Some(keys) = self.pen_button_id_to_key_code_map.get(id) {
                push_key_events(&mut out, Sink::Pen, keys, state);
            }
        }
        assert(out@ =~= pen_key_events(
            self.pen_button_id_to_key_code_map@,
            self.pen_last_raw_pressed_button,
            pen_button,
        ));
        out
    }

    /// The events of the pen's buttons for one sample; the sample's code
    /// becomes the one to compare the next with.
    pub fn emit_pen_button_events(&mut self, sample: &DecodedSample) -> (r: Vec<Emission>)
        ensures
            r@ == old(self).pen_button_events(*sample),
            *final(self) == (DeviceDispatcher {
                pen_last_raw_pressed_button: sample.pen_button,
                ..*old(self)
            }),
    {
        let out = self.raw_pen_buttons_to_pen_key_events(sample.pen_button);
        self.pen_last_raw_pressed_button = sample.pen_button;
        out
    }

    /// The pressure to send for a raw pressure: 0 while the pressure points
    /// do not exceed `threshold`, and `scaled` above it.
    pub fn normalize_pressure(raw_pressure: i32, threshold: u16, scaled: i32) -> (r: i32)
        ensures
            r == normalized_pressure(raw_pressure as int, threshold as int, scaled),
    {
        let val: i64 = RAW_PRESSURE_POINTS as i64 - raw_pressure as i64;
        if val <= threshold as i64 {
            0
        } else {
            scaled
        }
    }

    /// The events that place the pen at `x`, `y` with `pressure`.
    pub fn raw_pen_abs_to_pen_abs_events(
        x: i32,
        y: i32,
        pressure: i32,
        is_multimedia_area: bool,
    ) -> (r: Vec<Emission>)
        ensures
            r@ == pen_abs_events(x, y, pressure, is_multimedia_area),
    {
        let mut out: Vec<Emission> = Vec::new();
        if is_multimedia_area {
            return out;
        }
        let clamped = if y < 0 {
            0
        } else if y > MAX_Y {
            MAX_Y
        } else {
            y
        };
        out.push(Emission::axis(ABS_X, x));
        out.push(Emission::axis(ABS_Y, clamped));
        out.push(Emission::axis(ABS_PRESSURE, pressure));
        out.push(Emission::key(Sink::Pen, BTN_TOOL_PEN, PRESSED));
        assert(out@ =~= pen_abs_events(x, y, pressure, is_multimedia_area));
        out
    }

    /// The column of the media strip that holds `x`.
    pub fn media_button_at(x: i32) -> (r: i32)
        ensures
            r == media_column(x as int),
    {
        let scaled: i64 = MEDIA_BUTTONS_COUNT as i64 * x as i64;
        if scaled >= 0 {
            (scaled / MAX_X as i64) as i32
        } else {
            let up: i64 = (MAX_X as i64 - 1 - scaled) / MAX_X as i64;
            (-up) as i32
        }
    }

    /// The keys that media button `button` is bound to.
    fn media_button_keys(&self, button: i32) -> (r: Option<&Vec<u16>>)
        ensures
            match r {
                Some(keys) => keys@ == media_keys(self.media_button_id_to_key_code_map@, button),
                None => media_keys(self.media_button_id_to_key_code_map@, button)
                    == Seq::<u16>::empty(),
            },
    {
        if 0 <= button && button <= 255 {
            self.media_button_id_to_key_code_map.get(button as u8)
        } else {
            None
        }
    }

    /// The events of the touch for a pen at `x` with `normalized_pressure`;
    /// the session takes note of the touch and of the media button that it
    /// latched.
    pub fn pen_emit_touch(&mut self, x: i32, is_multimedia_area: bool, normalized_pressure: i32) -> (r:
        Vec<Emission>)
        ensures
            r@ == touch_events(
                old(self).media_button_id_to_key_code_map@,
                old(self).last_pressed_media_button,
                x,
                is_multimedia_area,
                old(self).was_touching,
                normalized_pressure > 0,
            ),
            *final(self) == (DeviceDispatcher {
                last_pressed_media_button: latched_media_button(
                    old(self).last_pressed_media_button,
                    x,
                    is_multimedia_area,
                    old(self).was_touching,
                    normalized_pressure > 0,
                ),
                was_touching: normalized_pressure > 0,
                ..*old(self)
            }),
    {
        let mut out: Vec<Emission> = Vec::new();
        let is_touching = normalized_pressure > 0;
        let transition = if !self.was_touching && is_touching {
            Some(PRESSED)
        } else if self.was_touching && !is_touching {
            Some(RELEASED)
        } else {
            None
        };
        if let Some(state) = transition {
            if state == PRESSED {
                if is_multimedia_area {
                    self.last_pressed_media_button = Self::media_button_at(x);
                    if let Some(keys) = self.media_button_keys(self.last_pressed_media_button) {
                        push_key_events(&mut out, Sink::MediaKeyboard, keys, PRESSED);
                    }
                } else {
                    out.push(Emission::key(Sink::Pen, BTN_TOUCH, PRESSED));
                }
            } else {
                if let Some(keys) = self.media_button_keys(self.last_pressed_media_button) {
                    push_key_events(&mut out, Sink::MediaKeyboard, keys, RELEASED);
                }
                if !is_multimedia_area {
                    out.push(Emission::key(Sink::Pen, BTN_TOUCH, RELEASED));
                }
            }
        }
        self.was_touching = is_touching;
        assert(out@ =~= touch_events(
            old(self).media_button_id_to_key_code_map@,
            old(self).last_pressed_media_button,
            x,
            is_multimedia_area,
            old(self).was_touching,
            normalized_pressure > 0,
        ));
        out
    }

    /// The events of the pen's position and touch for one sample, of which
    /// `reading` holds what the floating-point stage made.
    pub fn emit_pen_events(
        &mut self,
        sample: &DecodedSample,
        threshold: u16,
        reading: PenReading,
    ) -> (r: Vec<Emission>)
        ensures
            r@ == old(self).pen_events(*sample, threshold, reading),
            *final(self) == (DeviceDispatcher {
                last_pressed_media_button: latched_media_button(
                    old(self).last_pressed_media_button,
                    reading.x,
                    Self::in_media_strip(*sample),
                    old(self).was_touching,
                    Self::sample_pressure(*sample, threshold, reading) > 0,
                ),
                was_touching: Self::sample_pressure(*sample, threshold, reading) > 0,
                ..*old(self)
            }),
    {
        let is_multimedia_area = sample.y < 0;
        let normalized_pressure = Self::normalize_pressure(
            sample.pressure,
            threshold,
            reading.pressure,
        );
        let mut out = Self::raw_pen_abs_to_pen_abs_events(
            reading.x,
            reading.y,
            normalized_pressure,
            is_multimedia_area,
        );
        let mut touch = self.pen_emit_touch(reading.x, is_multimedia_area, normalized_pressure);
        out.append(&mut touch);
        out
    }

    /// The events of one decoded sample, in the order in which they are to be
    /// sent: those of the pen's buttons, of the tablet's buttons, of the
    /// pen's position, of the touch. The session moves on to the sample.
    pub fn dispatch_sample(
        &mut self,
        sample: &DecodedSample,
        threshold: u16,
        reading: PenReading,
    ) -> (r: Vec<Emission>)
        ensures
            r@ == old(self).sample_events(*sample, threshold, reading),
            *final(self) == old(self).after_sample(*sample, threshold, reading),
    {
        let mut out = self.emit_pen_button_events(sample);
        let mut tablet = self.emit_tablet_events(sample);
        out.append(&mut tablet);
        let mut pen = self.emit_pen_events(sample, threshold, reading);
        out.append(&mut pen);
        out
    }

    /// The events of the sample that a report carries, as
    /// [`Self::dispatch_sample`] gives them for what the report tells. The
    /// report has to reach up to the pen button code.
    pub fn dispatch(&mut self, raw_data: &RawDataReader, threshold: u16, reading: PenReading) -> (r:
        Vec<Emission>)
        requires
            raw_data.data@.len() > PEN_BUTTONS,
        ensures
            r@ == old(self).sample_events(decoded(raw_data.data@), threshold, reading),
            *final(self) == old(self).after_sample(decoded(raw_data.data@), threshold, reading),
    {
        let sample = DecodedSample {
            x: raw_data.x_axis(),
            y: raw_data.y_axis(),
            pressure: raw_data.pressure(),
            tablet_buttons: raw_data.tablet_buttons_as_binary_flags(),
            pen_button: raw_data.pen_buttons(),
        };
        self.dispatch_sample(&sample, threshold, reading)
    }
}

/// Fed four samples in which all tablet buttons are up, then the bound button
/// `id` alone is down for two samples, then all are up again, a dispatcher
/// sends for the second, third and fourth the keys of `id` as pressed, as held
/// and as released, each time followed by the end of the batch, and nothing
/// else for the tablet's buttons.
pub proof fn lemma_tablet_button_cycle(
    start: DeviceDispatcher,
    id: u8,
    samples: Seq<(DecodedSample, u16, PenReading)>,
)
    requires
        is_tablet_button(id),
        start.tablet_button_id_to_key_code_map@.contains_key(id),
        samples.len() == 4,
        samples[0].0.tablet_buttons == ALL_RELEASED,
        samples[1].0.tablet_buttons == only_pressed(id),
        samples[2].0.tablet_buttons == only_pressed(id),
        samples[3].0.tablet_buttons == ALL_RELEASED,
    ensures
        ({
            let keys = start.tablet_button_id_to_key_code_map@[id];
            let flush = flush_event(Sink::Keyboard);
            &&& start.after_samples(samples.take(1)).tablet_button_events(samples[1].0)
                == key_events(Sink::Keyboard, keys, PRESSED).push(flush)
            &&& start.after_samples(samples.take(2)).tablet_button_events(samples[2].0)
                == key_events(Sink::Keyboard, keys, HOLD).push(flush)
            &&& start.after_samples(samples.take(3)).tablet_button_events(samples[3].0)
                == key_events(Sink::Keyboard, keys, RELEASED).push(flush)
        }),
{
    lemma_button_cycle(start.tablet_button_id_to_key_code_map@, id);
    lemma_after_samples(start, samples.take(1));
    lemma_after_samples(start, samples.take(2));
    lemma_after_samples(start, samples.take(3));
}

/// Samples leave the bindings as they are, and the mask of the last one is
/// the one that the next is compared with.
proof fn lemma_after_samples(start: DeviceDispatcher, samples: Seq<(DecodedSample, u16, PenReading)>)
    ensures
        start.after_samples(samples).tablet_button_id_to_key_code_map
            == start.tablet_button_id_to_key_code_map,
        samples.len() > 0 ==> start.after_samples(samples).tablet_last_raw_pressed_buttons
            == samples.last().0.tablet_buttons,
    decreases samples.len(),
{
    if samples.len() > 0 {
        lemma_after_samples(start, samples.drop_last());
    }
}

/// A sample in the media strip sends no position on any axis.
pub proof fn lemma_media_strip_sends_no_axis(
    dispatcher: DeviceDispatcher,
    sample: DecodedSample,
    threshold: u16,
    reading: PenReading,
)
    requires
        DeviceDispatcher::in_media_strip(sample),
    ensures
        no_axis_event(dispatcher.sample_events(sample, threshold, reading)),
{
    lemma_sample_events_apart(dispatcher, sample, threshold, reading);
    let pressure = DeviceDispatcher::sample_pressure(sample, threshold, reading);
    assert(pen_abs_events(reading.x, reading.y, pressure, true) =~= Seq::<Emission>::empty());
}

/// A sample on the drawing surface sends, between the events of the buttons
/// and those of the touch, the X of the reading as it stands, its Y held
/// within what the pen device declares, the pressure of the sample and the
/// presence of the tool; it sends no other position.
pub proof fn lemma_drawing_surface_sends_axes(
    dispatcher: DeviceDispatcher,
    sample: DecodedSample,
    threshold: u16,
    reading: PenReading,
)
    requires
        !DeviceDispatcher::in_media_strip(sample),
    ensures
        ({
            let events = dispatcher.sample_events(sample, threshold, reading);
            let at = (dispatcher.pen_button_events(sample).len()
                + dispatcher.tablet_button_events(sample).len()) as int;
            &&& at + 4 <= events.len()
            &&& events[at] == axis_event(ABS_X, reading.x)
            &&& events[at + 1] == axis_event(ABS_Y, clamp_y(reading.y))
            &&& 0 <= events[at + 1].value <= MAX_Y
            &&& events[at + 2] == axis_event(
                ABS_PRESSURE,
                DeviceDispatcher::sample_pressure(sample, threshold, reading),
            )
            &&& no_axis_event(events.subrange(0, at))
            &&& no_axis_event(events.subrange(at + 3, events.len() as int))
        }),
{
    lemma_sample_events_apart(dispatcher, sample, threshold, reading);
    let events = dispatcher.sample_events(sample, threshold, reading);
    let buttons = dispatcher.pen_button_events(sample) + dispatcher.tablet_button_events(sample);
    let pressure = DeviceDispatcher::sample_pressure(sample, threshold, reading);
    let touch = touch_events(
        dispatcher.media_button_id_to_key_code_map@,
        dispatcher.last_pressed_media_button,
        reading.x,
        false,
        dispatcher.was_touching,
        pressure > 0,
    );
    let at = buttons.len() as int;
    assert(events.subrange(0, at) =~= buttons);
    assert(events.subrange(at + 3, events.len() as int) =~= seq![
        pen_abs_events(reading.x, reading.y, pressure, false)[3],
    ] + touch);
    lemma_no_axis_concat(seq![pen_abs_events(reading.x, reading.y, pressure, false)[3]], touch);
}

/// Whatever was read, a sample sends no position but on the pen device: X as
/// it stands in the reading, Y held within what the pen device declares, and
/// the pressure of the sample.
pub proof fn lemma_sent_axes(
    dispatcher: DeviceDispatcher,
    sample: DecodedSample,
    threshold: u16,
    reading: PenReading,
)
    ensures
        forall|i: int|
            #![trigger dispatcher.sample_events(sample, threshold, reading)[i]]
            {
                let events = dispatcher.sample_events(sample, threshold, reading);
                0 <= i < events.len() && events[i].kind == EventKind::Absolute ==> {
                    &&& events[i].sink == Sink::Pen
                    &&& events[i].code == ABS_X || events[i].code == ABS_Y || events[i].code
                        == ABS_PRESSURE
                    &&& events[i].code == ABS_X ==> events[i].value == reading.x
                    &&& events[i].code == ABS_Y ==> events[i].value == clamp_y(reading.y) && 0
                        <= events[i].value <= MAX_Y
                    &&& events[i].code == ABS_PRESSURE ==> events[i].value
                        == DeviceDispatcher::sample_pressure(sample, threshold, reading)
                }
            },
{
    let events = dispatcher.sample_events(sample, threshold, reading);
    if DeviceDispatcher::in_media_strip(sample) {
        lemma_media_strip_sends_no_axis(dispatcher, sample, threshold, reading);
    } else {
        lemma_drawing_surface_sends_axes(dispatcher, sample, threshold, reading);
        let at = (dispatcher.pen_button_events(sample).len() + dispatcher.tablet_button_events(
            sample,
        ).len()) as int;
        let before = events.subrange(0, at);
        let after = events.subrange(at + 3, events.len() as int);
        assert forall|i: int|
            0 <= i < events.len() && (#[trigger] events[i]).kind
                == EventKind::Absolute implies at <= i < at + 3 by {
            if i < at {
                assert(before[i] == events[i]);
            } else if i >= at + 3 {
                assert(after[i - (at + 3)] == events[i]);
            }
        }
    }
}

/// The events of the buttons and those of the touch hold no position.
proof fn lemma_sample_events_apart(
    dispatcher: DeviceDispatcher,
    sample: DecodedSample,
    threshold: u16,
    reading: PenReading,
)
    ensures
        no_axis_event(dispatcher.pen_button_events(sample) + dispatcher.tablet_button_events(sample)),
        no_axis_event(
            touch_events(
                dispatcher.media_button_id_to_key_code_map@,
                dispatcher.last_pressed_media_button,
                reading.x,
                DeviceDispatcher::in_media_strip(sample),
                dispatcher.was_touching,
                DeviceDispatcher::sample_pressure(sample, threshold, reading) > 0,
            ),
        ),
        DeviceDispatcher::in_media_strip(sample) ==> no_axis_event(
            dispatcher.sample_events(sample, threshold, reading),
        ),
{
    let pressure = DeviceDispatcher::sample_pressure(sample, threshold, reading);
    let touch = touch_events(
        dispatcher.media_button_id_to_key_code_map@,
        dispatcher.last_pressed_media_button,
        reading.x,
        DeviceDispatcher::in_media_strip(sample),
        dispatcher.was_touching,
        pressure > 0,
    );
    lemma_pen_key_events_no_axis(
        dispatcher.pen_button_id_to_key_code_map@,
        dispatcher.pen_last_raw_pressed_button,
        sample.pen_button,
    );
    lemma_tablet_events_no_axis(
        dispatcher.tablet_button_id_to_key_code_map@,
        dispatcher.tablet_last_raw_pressed_buttons,
        sample.tablet_buttons,
        TABLET_ID_END as nat,
    );
    lemma_no_axis_concat(dispatcher.pen_button_events(sample), dispatcher.tablet_button_events(sample));
    lemma_touch_events_no_axis(
        dispatcher.media_button_id_to_key_code_map@,
        dispatcher.last_pressed_media_button,
        reading.x,
        DeviceDispatcher::in_media_strip(sample),
        dispatcher.was_touching,
        pressure > 0,
    );
    if DeviceDispatcher::in_media_strip(sample) {
        assert(pen_abs_events(reading.x, reading.y, pressure, true) + touch =~= touch);
        lemma_no_axis_concat(
            dispatcher.pen_button_events(sample) + dispatcher.tablet_button_events(sample),
            touch,
        );
    }
}

} // verus!
