use tablet_driver::bindings::KeyBindings;
use tablet_driver::dispatcher::{DeviceDispatcher, PenReading};
use tablet_driver::event::{
    Emission, EventKind, Sink, ABS_PRESSURE, ABS_X, ABS_Y, HOLD, PRESSED, RELEASED, SYN_REPORT,
};
use tablet_driver::keys;
use tablet_driver::report::{DecodedSample, RawDataReader};

fn report(x: i16, y: i16, pressure: u16, pen: u8, mask: u16) -> RawDataReader {
    let mut reader = RawDataReader::new();
    reader.data[1..3].copy_from_slice(&x.to_be_bytes());
    reader.data[3..5].copy_from_slice(&y.to_be_bytes());
    reader.data[5..7].copy_from_slice(&pressure.to_be_bytes());
    reader.data[9] = pen;
    reader.data[11] = mask.to_be_bytes()[1];
    reader.data[12] = mask.to_be_bytes()[0];
    reader
}

fn sample(x: i16, y: i16, pressure: u16, pen: u8, mask: u16) -> DecodedSample {
    report(x, y, pressure, pen, mask).decode().unwrap()
}

fn key(sink: Sink, code: u16, state: i32) -> Emission {
    Emission { sink, kind: EventKind::Key, code, value: state }
}

fn axis(code: u16, value: i32) -> Emission {
    Emission { sink: Sink::Pen, kind: EventKind::Absolute, code, value }
}

fn flush(sink: Sink) -> Emission {
    Emission { sink, kind: EventKind::Synchronization, code: SYN_REPORT, value: 0 }
}

fn combo(sink: Sink, codes: &[u16], state: i32) -> Vec<Emission> {
    codes.iter().map(|code| key(sink, *code, state)).collect()
}

fn only_pressed(id: u8) -> u16 {
    0xFFFF & !(1u16 << id)
}

fn at(x: i32, y: i32, pressure: i32) -> PenReading {
    PenReading { x, y, pressure }
}

fn for_sink(events: &[Emission], sink: Sink) -> Vec<Emission> {
    events.iter().filter(|event| event.sink == sink).cloned().collect()
}

const TABLET_IDS: [u8; 12] = [0, 1, 2, 3, 4, 5, 6, 7, 8, 9, 12, 13];

#[test]
fn session_starts_with_nothing_pressed() {
    let dispatcher = DeviceDispatcher::new();
    assert_eq!(dispatcher.tablet_last_raw_pressed_buttons, 0xFFFF);
    assert_eq!(dispatcher.pen_last_raw_pressed_button, 0);
    assert_eq!(dispatcher.last_pressed_media_button, 0);
    assert!(!dispatcher.was_touching);
    assert_eq!(dispatcher.tablet_button_id_to_key_code_map.get(0), Some(&vec![keys::KEY_TAB]));
    assert_eq!(dispatcher.media_button_id_to_key_code_map.get(0), Some(&vec![keys::KEY_MUTE]));
    assert_eq!(dispatcher.pen_button_id_to_key_code_map.get(4), Some(&vec![keys::BTN_STYLUS]));
}

#[test]
fn session_with_given_bindings_holds_them() {
    let mut tablet = KeyBindings::new();
    assert!(tablet.bind(5, vec![keys::KEY_D]));
    let dispatcher =
        DeviceDispatcher::with_bindings(KeyBindings::new(), tablet, KeyBindings::new());
    assert_eq!(dispatcher.tablet_last_raw_pressed_buttons, 0xFFFF);
    assert_eq!(dispatcher.pen_last_raw_pressed_button, 0);
    assert_eq!(dispatcher.last_pressed_media_button, 0);
    assert!(!dispatcher.was_touching);
    assert_eq!(dispatcher.tablet_button_id_to_key_code_map.get(5), Some(&vec![keys::KEY_D]));
    assert!(dispatcher.tablet_button_id_to_key_code_map.get(0).is_none());
    assert!(dispatcher.media_button_id_to_key_code_map.get(0).is_none());
    assert!(dispatcher.pen_button_id_to_key_code_map.get(4).is_none());
}

#[test]
fn bound_tablet_button_sends_pressed_hold_released_each_with_a_flush() {
    for id in TABLET_IDS {
        let mut dispatcher = DeviceDispatcher::new();
        let codes = dispatcher.tablet_button_id_to_key_code_map.get(id).unwrap().clone();
        let mut sent = Vec::new();
        for mask in [0xFFFF, only_pressed(id), only_pressed(id), 0xFFFF] {
            sent.push(dispatcher.emit_tablet_events(&sample(0, 0, 2000, 2, mask)));
        }
        let with_flush = |state: i32| {
            let mut events = combo(Sink::Keyboard, &codes, state);
            events.push(flush(Sink::Keyboard));
            events
        };
        assert_eq!(sent[0], vec![]);
        assert_eq!(sent[1], with_flush(PRESSED));
        assert_eq!(sent[2], with_flush(HOLD));
        assert_eq!(sent[3], with_flush(RELEASED));
        assert_eq!(dispatcher.tablet_last_raw_pressed_buttons, 0xFFFF);
    }
}

#[test]
fn bound_tablet_button_cycle_through_dispatch() {
    let mut dispatcher = DeviceDispatcher::new();
    let mut sent = Vec::new();
    for mask in [0xFFFF, only_pressed(7), only_pressed(7), 0xFFFF] {
        let events = dispatcher.dispatch(&report(10, 10, 2000, 2, mask), 510, at(10, 10, 0));
        sent.push(for_sink(&events, Sink::Keyboard));
    }
    let ctrl_minus = |state: i32| {
        vec![
            key(Sink::Keyboard, keys::KEY_LEFTCTRL, state),
            key(Sink::Keyboard, keys::KEY_KPMINUS, state),
            flush(Sink::Keyboard),
        ]
    };
    assert_eq!(sent[0], vec![]);
    assert_eq!(sent[1], ctrl_minus(1));
    assert_eq!(sent[2], ctrl_minus(2));
    assert_eq!(sent[3], ctrl_minus(0));
}

#[test]
fn tablet_button_that_stays_up_sends_nothing() {
    let dispatcher = DeviceDispatcher::new();
    for id in 0..16u8 {
        assert_eq!(dispatcher.emit_tablet_key_event(id, 0xFFFF), vec![]);
    }
}

#[test]
fn single_tablet_button_follows_its_bit() {
    let mut dispatcher = DeviceDispatcher::new();
    assert_eq!(
        dispatcher.emit_tablet_key_event(0, 0xFFFE),
        vec![key(Sink::Keyboard, keys::KEY_TAB, PRESSED), flush(Sink::Keyboard)]
    );
    assert_eq!(dispatcher.emit_tablet_key_event(1, 0xFFFE), vec![]);
    dispatcher.tablet_last_raw_pressed_buttons = 0xFFFE;
    assert_eq!(
        dispatcher.emit_tablet_key_event(0, 0xFFFE),
        vec![key(Sink::Keyboard, keys::KEY_TAB, HOLD), flush(Sink::Keyboard)]
    );
    assert_eq!(
        dispatcher.emit_tablet_key_event(0, 0xFFFF),
        vec![key(Sink::Keyboard, keys::KEY_TAB, RELEASED), flush(Sink::Keyboard)]
    );
    assert_eq!(
        dispatcher.emit_tablet_key_event(13, 0xDFFE),
        vec![key(Sink::Keyboard, keys::KEY_RIGHTBRACE, PRESSED), flush(Sink::Keyboard)]
    );
}

#[test]
fn tablet_button_without_a_binding_sends_nothing() {
    let dispatcher = DeviceDispatcher::new();
    for id in [10u8, 11, 14, 15] {
        assert_eq!(dispatcher.emit_tablet_key_event(id, 0x0000), vec![]);
    }
    let bare = DeviceDispatcher::with_bindings(
        KeyBindings::new(),
        KeyBindings::new(),
        KeyBindings::new(),
    );
    assert_eq!(bare.binary_flags_to_tablet_key_events(0x0000), vec![]);
}

#[test]
fn tablet_ids_ten_and_eleven_are_passed_over_even_where_bound() {
    let mut tablet = KeyBindings::new();
    assert!(tablet.bind(9, vec![keys::KEY_ESC]));
    assert!(tablet.bind(10, vec![keys::KEY_D]));
    assert!(tablet.bind(11, vec![keys::KEY_B]));
    assert!(tablet.bind(14, vec![keys::KEY_TAB]));
    let dispatcher =
        DeviceDispatcher::with_bindings(KeyBindings::new(), tablet, KeyBindings::new());
    assert_eq!(
        dispatcher.binary_flags_to_tablet_key_events(0x0000),
        vec![key(Sink::Keyboard, keys::KEY_ESC, PRESSED), flush(Sink::Keyboard)]
    );
}

#[test]
fn tablet_buttons_send_in_the_order_of_their_ids() {
    let dispatcher = DeviceDispatcher::new();
    let mask = 0xFFFF & !(1 << 12) & !(1 << 1) & !(1 << 8);
    assert_eq!(
        dispatcher.binary_flags_to_tablet_key_events(mask),
        vec![
            key(Sink::Keyboard, keys::KEY_SPACE, PRESSED),
            flush(Sink::Keyboard),
            key(Sink::Keyboard, keys::KEY_LEFTCTRL, PRESSED),
            key(Sink::Keyboard, keys::KEY_KPPLUS, PRESSED),
            flush(Sink::Keyboard),
            key(Sink::Keyboard, keys::KEY_B, PRESSED),
            flush(Sink::Keyboard),
        ]
    );
}

#[test]
fn tablet_mask_of_a_short_report_releases_what_was_held() {
    let mut dispatcher = DeviceDispatcher::new();
    dispatcher.tablet_last_raw_pressed_buttons = only_pressed(2);
    let mut short = RawDataReader::new();
    short.data.truncate(12);
    assert_eq!(
        dispatcher.emit_tablet_events(&short.decode().unwrap()),
        vec![key(Sink::Keyboard, keys::KEY_LEFTALT, RELEASED), flush(Sink::Keyboard)]
    );
    assert_eq!(dispatcher.tablet_last_raw_pressed_buttons, 0xFFFF);
}

#[test]
fn pen_button_goes_down_stays_down_and_goes_up() {
    let mut dispatcher = DeviceDispatcher::new();
    dispatcher.pen_last_raw_pressed_button = 2;
    assert_eq!(
        dispatcher.emit_pen_button_events(&sample(0, 0, 2000, 4, 0xFFFF)),
        vec![key(Sink::Pen, keys::BTN_STYLUS, PRESSED)]
    );
    assert_eq!(dispatcher.pen_last_raw_pressed_button, 4);
    assert_eq!(
        dispatcher.emit_pen_button_events(&sample(0, 0, 2000, 4, 0xFFFF)),
        vec![key(Sink::Pen, keys::BTN_STYLUS, HOLD)]
    );
    assert_eq!(
        dispatcher.emit_pen_button_events(&sample(0, 0, 2000, 2, 0xFFFF)),
        vec![key(Sink::Pen, keys::BTN_STYLUS, RELEASED)]
    );
    assert_eq!(dispatcher.pen_last_raw_pressed_button, 2);
    assert_eq!(dispatcher.emit_pen_button_events(&sample(0, 0, 2000, 2, 0xFFFF)), vec![]);
    assert_eq!(
        dispatcher.emit_pen_button_events(&sample(0, 0, 2000, 6, 0xFFFF)),
        vec![key(Sink::Pen, keys::BTN_STYLUS2, PRESSED)]
    );
    assert_eq!(
        dispatcher.emit_pen_button_events(&sample(0, 0, 2000, 2, 0xFFFF)),
        vec![key(Sink::Pen, keys::BTN_STYLUS2, RELEASED)]
    );
}

#[test]
fn pen_button_code_decides_and_no_mask() {
    let mut dispatcher = DeviceDispatcher::new();
    let mut sent = |last: u8, button: u8| {
        dispatcher.pen_last_raw_pressed_button = last;
        dispatcher.raw_pen_buttons_to_pen_key_events(button)
    };
    assert_eq!(sent(2, 4), vec![key(Sink::Pen, keys::BTN_STYLUS, PRESSED)]);
    assert_eq!(sent(2, 6), vec![key(Sink::Pen, keys::BTN_STYLUS2, PRESSED)]);
    assert_eq!(sent(4, 2), vec![key(Sink::Pen, keys::BTN_STYLUS, RELEASED)]);
    assert_eq!(sent(6, 2), vec![key(Sink::Pen, keys::BTN_STYLUS2, RELEASED)]);
    assert_eq!(sent(4, 4), vec![key(Sink::Pen, keys::BTN_STYLUS, HOLD)]);
    assert_eq!(sent(6, 6), vec![key(Sink::Pen, keys::BTN_STYLUS2, HOLD)]);
    assert_eq!(sent(2, 2), vec![]);
    assert_eq!(sent(4, 6), vec![]);
    assert_eq!(sent(6, 4), vec![]);
    assert_eq!(sent(0, 4), vec![]);
    assert_eq!(sent(0, 0), vec![]);
    assert_eq!(sent(2, 5), vec![]);
    assert_eq!(sent(5, 2), vec![]);
    assert_eq!(sent(5, 5), vec![]);
    assert_eq!(sent(2, 0), vec![]);
}

#[test]
fn pen_button_that_is_held_sends_the_keys_of_any_bound_code() {
    let mut pen = KeyBindings::new();
    assert!(pen.bind(5, vec![keys::BTN_LEFT, keys::BTN_RIGHT]));
    let mut dispatcher =
        DeviceDispatcher::with_bindings(KeyBindings::new(), KeyBindings::new(), pen);
    dispatcher.pen_last_raw_pressed_button = 5;
    assert_eq!(
        dispatcher.raw_pen_buttons_to_pen_key_events(5),
        vec![key(Sink::Pen, keys::BTN_LEFT, HOLD), key(Sink::Pen, keys::BTN_RIGHT, HOLD)]
    );
    dispatcher.pen_last_raw_pressed_button = 2;
    assert_eq!(dispatcher.raw_pen_buttons_to_pen_key_events(5), vec![]);
    assert_eq!(dispatcher.raw_pen_buttons_to_pen_key_events(4), vec![]);
}

#[test]
fn pressure_above_the_threshold_is_scaled_by_the_sensitivity() {
    let scaled = (1000_f32 * 5.0).round() as i32;
    assert_eq!(scaled, 5000);
    assert_eq!(DeviceDispatcher::normalize_pressure(1000, 510, scaled), 5000);
}

#[test]
fn pressure_up_to_the_threshold_is_none() {
    let scaled = (400_f32 * 5.0).round() as i32;
    assert_eq!(DeviceDispatcher::normalize_pressure(1600, 510, scaled), 0);
    assert_eq!(DeviceDispatcher::normalize_pressure(1490, 510, 2550), 0);
    assert_eq!(DeviceDispatcher::normalize_pressure(1489, 510, 2555), 2555);
    assert_eq!(DeviceDispatcher::normalize_pressure(2000, 0, 7), 0);
    assert_eq!(DeviceDispatcher::normalize_pressure(1999, 0, 7), 7);
    assert_eq!(DeviceDispatcher::normalize_pressure(65535, 510, 7), 0);
    assert_eq!(DeviceDispatcher::normalize_pressure(0, 65535, 7), 0);
}

#[test]
fn pressure_that_is_sent_is_not_held_within_the_declared_range() {
    assert_eq!(DeviceDispatcher::normalize_pressure(0, 510, 20000), 20000);
    assert_eq!(DeviceDispatcher::normalize_pressure(0, 510, -3), -3);
    assert_eq!(DeviceDispatcher::normalize_pressure(i32::MIN, 510, 1), 1);
    assert_eq!(DeviceDispatcher::normalize_pressure(i32::MAX, 510, 1), 0);
}

#[test]
fn dispatch_sends_the_pressure_of_the_curve() {
    let mut dispatcher = DeviceDispatcher::new();
    let scaled = (1000_f32 * 5.0).round() as i32;
    let events = dispatcher.dispatch(&report(7, 8, 1000, 2, 0xFFFF), 510, at(7, 8, scaled));
    assert!(events.contains(&axis(ABS_PRESSURE, 5000)));
    assert!(dispatcher.was_touching);

    let mut dispatcher = DeviceDispatcher::new();
    let scaled = (400_f32 * 5.0).round() as i32;
    let events = dispatcher.dispatch(&report(7, 8, 1600, 2, 0xFFFF), 510, at(7, 8, scaled));
    assert!(events.contains(&axis(ABS_PRESSURE, 0)));
    assert!(!dispatcher.was_touching);
}

#[test]
fn pen_on_the_drawing_surface_sends_position_pressure_and_tool() {
    assert_eq!(
        DeviceDispatcher::raw_pen_abs_to_pen_abs_events(100, 200, 300, false),
        vec![
            axis(ABS_X, 100),
            axis(ABS_Y, 200),
            axis(ABS_PRESSURE, 300),
            key(Sink::Pen, keys::BTN_TOOL_PEN, 1),
        ]
    );
}

#[test]
fn pen_in_the_media_strip_sends_no_position() {
    assert_eq!(DeviceDispatcher::raw_pen_abs_to_pen_abs_events(100, 200, 300, true), vec![]);
}

#[test]
fn y_that_is_sent_is_held_within_the_declared_range() {
    let y_of = |y: i32| DeviceDispatcher::raw_pen_abs_to_pen_abs_events(0, y, 0, false)[1];
    assert_eq!(y_of(-1), axis(ABS_Y, 0));
    assert_eq!(y_of(-32768), axis(ABS_Y, 0));
    assert_eq!(y_of(i32::MIN), axis(ABS_Y, 0));
    assert_eq!(y_of(0), axis(ABS_Y, 0));
    assert_eq!(y_of(1), axis(ABS_Y, 1));
    assert_eq!(y_of(4094), axis(ABS_Y, 4094));
    assert_eq!(y_of(4095), axis(ABS_Y, 4095));
    assert_eq!(y_of(4096), axis(ABS_Y, 4095));
    assert_eq!(y_of(32767), axis(ABS_Y, 4095));
    assert_eq!(y_of(i32::MAX), axis(ABS_Y, 4095));
}

#[test]
fn x_that_is_sent_is_passed_through() {
    let x_of = |x: i32| DeviceDispatcher::raw_pen_abs_to_pen_abs_events(x, 0, 0, false)[0];
    assert_eq!(x_of(-200), axis(ABS_X, -200));
    assert_eq!(x_of(0), axis(ABS_X, 0));
    assert_eq!(x_of(4095), axis(ABS_X, 4095));
    assert_eq!(x_of(5000), axis(ABS_X, 5000));
    assert_eq!(x_of(i32::MAX), axis(ABS_X, i32::MAX));
    assert_eq!(x_of(i32::MIN), axis(ABS_X, i32::MIN));
}

#[test]
fn sample_with_y_below_zero_sends_no_axis() {
    let mut dispatcher = DeviceDispatcher::new();
    let events = dispatcher.dispatch(&report(100, -1, 1000, 2, 0xFFFF), 510, at(100, 5, 5000));
    assert!(events.iter().all(|event| event.kind != EventKind::Absolute));
    assert!(!events.contains(&key(Sink::Pen, keys::BTN_TOOL_PEN, 1)));
    let events = dispatcher.dispatch(&report(100, -32768, 2000, 2, 0xFFFF), 510, at(100, 5, 0));
    assert!(events.iter().all(|event| event.kind != EventKind::Absolute));
}

#[test]
fn sample_with_y_zero_takes_the_pen_path() {
    let mut dispatcher = DeviceDispatcher::new();
    let events = dispatcher.dispatch(&report(100, 0, 2000, 2, 0xFFFF), 510, at(100, 0, 0));
    assert_eq!(
        events,
        vec![
            axis(ABS_X, 100),
            axis(ABS_Y, 0),
            axis(ABS_PRESSURE, 0),
            key(Sink::Pen, keys::BTN_TOOL_PEN, 1),
        ]
    );
}

#[test]
fn media_strip_is_told_by_the_y_that_was_read_not_by_the_smoothed_one() {
    let mut dispatcher = DeviceDispatcher::new();
    let events = dispatcher.dispatch(&report(100, 3, 2000, 2, 0xFFFF), 510, at(100, -40, 0));
    assert_eq!(
        events,
        vec![
            axis(ABS_X, 100),
            axis(ABS_Y, 0),
            axis(ABS_PRESSURE, 0),
            key(Sink::Pen, keys::BTN_TOOL_PEN, 1),
        ]
    );
    let events = dispatcher.dispatch(&report(100, -3, 2000, 2, 0xFFFF), 510, at(100, 40, 0));
    assert_eq!(events, vec![]);
}

#[test]
fn media_columns_are_tenths_of_the_x_range() {
    assert_eq!(DeviceDispatcher::media_button_at(0), 0);
    assert_eq!(DeviceDispatcher::media_button_at(409), 0);
    assert_eq!(DeviceDispatcher::media_button_at(410), 1);
    assert_eq!(DeviceDispatcher::media_button_at(818), 1);
    assert_eq!(DeviceDispatcher::media_button_at(819), 2);
    assert_eq!(DeviceDispatcher::media_button_at(2047), 4);
    assert_eq!(DeviceDispatcher::media_button_at(2048), 5);
    assert_eq!(DeviceDispatcher::media_button_at(3685), 8);
    assert_eq!(DeviceDispatcher::media_button_at(3686), 9);
    assert_eq!(DeviceDispatcher::media_button_at(4094), 9);
}

#[test]
fn media_column_is_the_floor_of_x_over_a_tenth_of_the_range() {
    for x in -5000..=9000 {
        let expected = (f64::from(x) / (4095.0 / 10.0)).floor() as i32;
        assert_eq!(DeviceDispatcher::media_button_at(x), expected);
    }
}

#[test]
fn media_column_beyond_the_strip_is_none_of_the_ten() {
    assert_eq!(DeviceDispatcher::media_button_at(4095), 10);
    assert_eq!(DeviceDispatcher::media_button_at(5000), 12);
    assert_eq!(DeviceDispatcher::media_button_at(-1), -1);
    assert_eq!(DeviceDispatcher::media_button_at(-410), -2);
    assert_eq!(DeviceDispatcher::media_button_at(i32::MAX), 5244160);
    assert_eq!(DeviceDispatcher::media_button_at(i32::MIN), -5244161);
}

#[test]
fn touch_in_the_last_column_presses_and_releases_its_combo() {
    let mut dispatcher = DeviceDispatcher::new();
    assert_eq!(
        dispatcher.pen_emit_touch(4094, true, 100),
        vec![
            key(Sink::MediaKeyboard, keys::KEY_LEFTMETA, PRESSED),
            key(Sink::MediaKeyboard, keys::KEY_D, PRESSED),
        ]
    );
    assert_eq!(dispatcher.last_pressed_media_button, 9);
    assert!(dispatcher.was_touching);
    assert_eq!(dispatcher.pen_emit_touch(4094, true, 100), vec![]);
    assert_eq!(
        dispatcher.pen_emit_touch(10, true, 0),
        vec![
            key(Sink::MediaKeyboard, keys::KEY_LEFTMETA, RELEASED),
            key(Sink::MediaKeyboard, keys::KEY_D, RELEASED),
        ]
    );
    assert_eq!(dispatcher.last_pressed_media_button, 9);
    assert!(!dispatcher.was_touching);
}

#[test]
fn touch_in_each_column_presses_its_combo() {
    let media = KeyBindings::default_media();
    for column in 0..10u8 {
        let mut dispatcher = DeviceDispatcher::new();
        let x = i32::from(column) * 410 + 5;
        let codes = media.get(column).unwrap();
        assert_eq!(
            dispatcher.pen_emit_touch(x, true, 1),
            combo(Sink::MediaKeyboard, codes, PRESSED)
        );
        assert_eq!(dispatcher.last_pressed_media_button, i32::from(column));
    }
}

#[test]
fn touch_beyond_the_columns_presses_nothing() {
    for x in [4095, 5000, -1, -4000, 120000, i32::MAX, i32::MIN] {
        let mut dispatcher = DeviceDispatcher::new();
        assert_eq!(dispatcher.pen_emit_touch(x, true, 1), vec![]);
        assert_eq!(dispatcher.last_pressed_media_button, DeviceDispatcher::media_button_at(x));
        assert_eq!(dispatcher.pen_emit_touch(x, true, 0), vec![]);
        assert_eq!(dispatcher.pen_emit_touch(0, false, 0), vec![]);
    }
}

#[test]
fn media_combo_is_released_wherever_the_pen_goes_up() {
    let mut dispatcher = DeviceDispatcher::new();
    assert_eq!(
        dispatcher.pen_emit_touch(1700, true, 50),
        vec![key(Sink::MediaKeyboard, keys::KEY_PLAYPAUSE, PRESSED)]
    );
    assert_eq!(dispatcher.last_pressed_media_button, 4);
    assert_eq!(
        dispatcher.pen_emit_touch(100, false, 0),
        vec![
            key(Sink::MediaKeyboard, keys::KEY_PLAYPAUSE, RELEASED),
            key(Sink::Pen, keys::BTN_TOUCH, RELEASED),
        ]
    );
    assert_eq!(dispatcher.last_pressed_media_button, 4);
}

#[test]
fn touch_on_the_drawing_surface_follows_the_pen() {
    let mut dispatcher = DeviceDispatcher::new();
    assert_eq!(dispatcher.pen_emit_touch(100, false, 0), vec![]);
    assert_eq!(
        dispatcher.pen_emit_touch(3000, false, 1),
        vec![key(Sink::Pen, keys::BTN_TOUCH, PRESSED)]
    );
    assert_eq!(dispatcher.last_pressed_media_button, 0);
    assert!(dispatcher.was_touching);
    assert_eq!(dispatcher.pen_emit_touch(3000, false, 8000), vec![]);
    assert_eq!(
        dispatcher.pen_emit_touch(3000, false, 0),
        vec![
            key(Sink::MediaKeyboard, keys::KEY_MUTE, RELEASED),
            key(Sink::Pen, keys::BTN_TOUCH, RELEASED),
        ]
    );
    assert!(!dispatcher.was_touching);
}

#[test]
fn touch_with_pressure_below_zero_is_no_touch() {
    let mut dispatcher = DeviceDispatcher::new();
    assert_eq!(dispatcher.pen_emit_touch(100, false, -5), vec![]);
    assert!(!dispatcher.was_touching);
}

#[test]
fn touch_on_the_drawing_surface_without_media_bindings_sends_the_touch_alone() {
    let mut dispatcher = DeviceDispatcher::with_bindings(
        KeyBindings::new(),
        KeyBindings::new(),
        KeyBindings::new(),
    );
    assert_eq!(
        dispatcher.pen_emit_touch(3000, false, 1),
        vec![key(Sink::Pen, keys::BTN_TOUCH, PRESSED)]
    );
    assert_eq!(
        dispatcher.pen_emit_touch(3000, false, 0),
        vec![key(Sink::Pen, keys::BTN_TOUCH, RELEASED)]
    );
}

#[test]
fn batch_ends_on_the_keyboard_and_on_the_pen() {
    let dispatcher = DeviceDispatcher::new();
    assert_eq!(dispatcher.syn(), vec![flush(Sink::Keyboard), flush(Sink::Pen)]);
}

#[test]
fn pen_events_of_a_sample_are_position_then_touch() {
    let mut dispatcher = DeviceDispatcher::new();
    let events = dispatcher.emit_pen_events(&sample(9, 9, 1000, 2, 0xFFFF), 510, at(12, 13, 77));
    assert_eq!(
        events,
        vec![
            axis(ABS_X, 12),
            axis(ABS_Y, 13),
            axis(ABS_PRESSURE, 77),
            key(Sink::Pen, keys::BTN_TOOL_PEN, 1),
            key(Sink::Pen, keys::BTN_TOUCH, PRESSED),
        ]
    );
    assert!(dispatcher.was_touching);
    assert_eq!(dispatcher.pen_last_raw_pressed_button, 0);
    assert_eq!(dispatcher.tablet_last_raw_pressed_buttons, 0xFFFF);
}

#[test]
fn sample_sends_pen_buttons_tablet_buttons_position_and_touch_in_this_order() {
    let mut dispatcher = DeviceDispatcher::new();
    dispatcher.pen_last_raw_pressed_button = 2;
    let events =
        dispatcher.dispatch(&report(300, 40, 1000, 6, only_pressed(9)), 510, at(298, 41, 5000));
    assert_eq!(
        events,
        vec![
            key(Sink::Pen, keys::BTN_STYLUS2, PRESSED),
            key(Sink::Keyboard, keys::KEY_ESC, PRESSED),
            flush(Sink::Keyboard),
            axis(ABS_X, 298),
            axis(ABS_Y, 41),
            axis(ABS_PRESSURE, 5000),
            key(Sink::Pen, keys::BTN_TOOL_PEN, 1),
            key(Sink::Pen, keys::BTN_TOUCH, PRESSED),
        ]
    );
    assert_eq!(dispatcher.pen_last_raw_pressed_button, 6);
    assert_eq!(dispatcher.tablet_last_raw_pressed_buttons, only_pressed(9));
    assert_eq!(dispatcher.last_pressed_media_button, 0);
    assert!(dispatcher.was_touching);
}

#[test]
fn sample_in_the_media_strip_latches_the_column_under_the_smoothed_x() {
    let mut dispatcher = DeviceDispatcher::new();
    let events = dispatcher.dispatch(&report(900, -1, 1000, 2, 0xFFFF), 510, at(2500, 0, 5000));
    assert_eq!(events, vec![key(Sink::MediaKeyboard, keys::KEY_NEXTSONG, PRESSED)]);
    assert_eq!(dispatcher.last_pressed_media_button, 6);
    let events = dispatcher.dispatch(&report(900, -1, 1000, 2, 0xFFFF), 510, at(100, 0, 5000));
    assert_eq!(events, vec![]);
    assert_eq!(dispatcher.last_pressed_media_button, 6);
    let events = dispatcher.dispatch(&report(900, -1, 2000, 2, 0xFFFF), 510, at(100, 0, 0));
    assert_eq!(events, vec![key(Sink::MediaKeyboard, keys::KEY_NEXTSONG, RELEASED)]);
    assert_eq!(dispatcher.last_pressed_media_button, 6);
}

#[test]
fn state_of_the_session_outlives_samples_that_change_nothing() {
    let mut dispatcher = DeviceDispatcher::new();
    dispatcher.dispatch(&report(1, 1, 1000, 4, only_pressed(3)), 510, at(1, 1, 5000));
    let again = dispatcher.dispatch(&report(1, 1, 1000, 4, only_pressed(3)), 510, at(1, 1, 5000));
    assert_eq!(
        again,
        vec![
            key(Sink::Pen, keys::BTN_STYLUS, HOLD),
            key(Sink::Keyboard, keys::KEY_LEFTCTRL, HOLD),
            flush(Sink::Keyboard),
            axis(ABS_X, 1),
            axis(ABS_Y, 1),
            axis(ABS_PRESSURE, 5000),
            key(Sink::Pen, keys::BTN_TOOL_PEN, 1),
        ]
    );
}

#[test]
fn pen_that_comes_down_on_the_surface_and_goes_up_in_the_strip_releases_the_latched_combo() {
    let mut dispatcher = DeviceDispatcher::new();
    dispatcher.last_pressed_media_button = 2;
    assert_eq!(
        dispatcher.pen_emit_touch(3000, false, 9),
        vec![key(Sink::Pen, keys::BTN_TOUCH, PRESSED)]
    );
    assert_eq!(
        dispatcher.pen_emit_touch(3000, true, 0),
        vec![key(Sink::MediaKeyboard, keys::KEY_VOLUMEUP, RELEASED)]
    );
    assert_eq!(dispatcher.last_pressed_media_button, 2);
}

#[test]
fn decoded_sample_is_dispatched_as_the_report_that_carries_it() {
    let raw = report(300, 40, 1000, 6, only_pressed(9));
    let mut by_report = DeviceDispatcher::new();
    by_report.pen_last_raw_pressed_button = 2;
    let mut by_sample = DeviceDispatcher::new();
    by_sample.pen_last_raw_pressed_button = 2;
    let decoded = DecodedSample {
        x: 300,
        y: 40,
        pressure: 1000,
        tablet_buttons: only_pressed(9),
        pen_button: 6,
    };
    assert_eq!(raw.decode(), Some(decoded));
    let sent = by_sample.dispatch_sample(&decoded, 510, at(298, 41, 5000));
    assert_eq!(sent, by_report.dispatch(&raw, 510, at(298, 41, 5000)));
    assert_eq!(sent.len(), 8);
    assert_eq!(by_sample.pen_last_raw_pressed_button, 6);
    assert_eq!(by_sample.tablet_last_raw_pressed_buttons, only_pressed(9));
    assert!(by_sample.was_touching);
}

#[test]
fn sample_need_not_come_from_a_report() {
    let mut dispatcher = DeviceDispatcher::new();
    let free = DecodedSample {
        x: 70000,
        y: -70000,
        pressure: -5,
        tablet_buttons: 0x0000,
        pen_button: 2,
    };
    let events = dispatcher.dispatch_sample(&free, 510, at(819, 0, 9));
    assert_eq!(for_sink(&events, Sink::Pen), vec![]);
    assert_eq!(
        for_sink(&events, Sink::MediaKeyboard),
        vec![key(Sink::MediaKeyboard, keys::KEY_VOLUMEUP, PRESSED)]
    );
    assert_eq!(for_sink(&events, Sink::Keyboard).len(), 26);
    assert_eq!(dispatcher.tablet_last_raw_pressed_buttons, 0);
    assert_eq!(dispatcher.last_pressed_media_button, 2);
}
