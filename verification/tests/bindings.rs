use tablet_driver::bindings::KeyBindings;
use tablet_driver::keys;

#[test]
fn new_table_binds_nothing() {
    let table = KeyBindings::new();
    for id in 0..=255u8 {
        assert!(table.get(id).is_none());
    }
}

#[test]
fn bind_makes_an_id_stand_for_its_keys_in_order() {
    let mut table = KeyBindings::new();
    assert!(table.bind(3, vec![keys::KEY_LEFTCTRL, keys::KEY_B]));
    assert_eq!(table.get(3), Some(&vec![keys::KEY_LEFTCTRL, keys::KEY_B]));
    assert!(table.get(2).is_none());
    assert!(table.get(4).is_none());
}

#[test]
fn bind_replaces_what_an_id_stood_for() {
    let mut table = KeyBindings::new();
    assert!(table.bind(3, vec![keys::KEY_B]));
    assert!(table.bind(3, vec![keys::KEY_D, keys::KEY_ESC]));
    assert_eq!(table.get(3), Some(&vec![keys::KEY_D, keys::KEY_ESC]));
}

#[test]
fn bind_accepts_no_keys_at_all() {
    let mut table = KeyBindings::new();
    assert!(table.bind(7, vec![]));
    assert_eq!(table.get(7), Some(&vec![]));
}

#[test]
fn bind_refuses_a_code_that_the_input_layer_does_not_know() {
    let mut table = KeyBindings::new();
    assert!(table.bind(1, vec![keys::KEY_B]));
    assert!(!table.bind(1, vec![keys::KEY_D, keys::KEY_CNT]));
    assert_eq!(table.get(1), Some(&vec![keys::KEY_B]));
    assert!(!table.bind(2, vec![0xFFFF]));
    assert!(table.get(2).is_none());
    assert!(table.bind(2, vec![keys::KEY_CNT - 1]));
    assert_eq!(table.get(2), Some(&vec![0x2FF]));
}

#[test]
fn media_strip_comes_with_ten_columns() {
    let table = KeyBindings::default_media();
    assert_eq!(table.get(0), Some(&vec![keys::KEY_MUTE]));
    assert_eq!(table.get(1), Some(&vec![keys::KEY_VOLUMEDOWN]));
    assert_eq!(table.get(2), Some(&vec![keys::KEY_VOLUMEUP]));
    assert_eq!(table.get(3), Some(&vec![keys::KEY_PLAYER]));
    assert_eq!(table.get(4), Some(&vec![keys::KEY_PLAYPAUSE]));
    assert_eq!(table.get(5), Some(&vec![keys::KEY_PREVIOUSSONG]));
    assert_eq!(table.get(6), Some(&vec![keys::KEY_NEXTSONG]));
    assert_eq!(table.get(7), Some(&vec![keys::KEY_HOME]));
    assert_eq!(table.get(8), Some(&vec![keys::KEY_CALC]));
    assert_eq!(table.get(9), Some(&vec![keys::KEY_LEFTMETA, keys::KEY_D]));
    for id in 10..=255u8 {
        assert!(table.get(id).is_none());
    }
}

#[test]
fn tablet_comes_with_twelve_buttons() {
    let table = KeyBindings::default_tablet();
    assert_eq!(table.get(0), Some(&vec![keys::KEY_TAB]));
    assert_eq!(table.get(1), Some(&vec![keys::KEY_SPACE]));
    assert_eq!(table.get(2), Some(&vec![keys::KEY_LEFTALT]));
    assert_eq!(table.get(3), Some(&vec![keys::KEY_LEFTCTRL]));
    assert_eq!(table.get(4), Some(&vec![keys::KEY_PAGEUP]));
    assert_eq!(table.get(5), Some(&vec![keys::KEY_PAGEDOWN]));
    assert_eq!(table.get(6), Some(&vec![keys::KEY_LEFTBRACE]));
    assert_eq!(table.get(7), Some(&vec![keys::KEY_LEFTCTRL, keys::KEY_KPMINUS]));
    assert_eq!(table.get(8), Some(&vec![keys::KEY_LEFTCTRL, keys::KEY_KPPLUS]));
    assert_eq!(table.get(9), Some(&vec![keys::KEY_ESC]));
    assert!(table.get(10).is_none());
    assert!(table.get(11).is_none());
    assert_eq!(table.get(12), Some(&vec![keys::KEY_B]));
    assert_eq!(table.get(13), Some(&vec![keys::KEY_RIGHTBRACE]));
    for id in 14..=255u8 {
        assert!(table.get(id).is_none());
    }
}

#[test]
fn pen_comes_with_two_buttons() {
    let table = KeyBindings::default_pen();
    assert_eq!(table.get(4), Some(&vec![keys::BTN_STYLUS]));
    assert_eq!(table.get(6), Some(&vec![keys::BTN_STYLUS2]));
    for id in 0..=255u8 {
        if id != 4 && id != 6 {
            assert!(table.get(id).is_none());
        }
    }
}
