//! Tables that bind a button to the keys it stands for.

use crate::keys::{
    BTN_STYLUS, BTN_STYLUS2, KEY_B, KEY_CALC, KEY_CNT, KEY_D, KEY_ESC, KEY_HOME, KEY_KPMINUS,
    KEY_KPPLUS, KEY_LEFTALT, KEY_LEFTBRACE, KEY_LEFTCTRL, KEY_LEFTMETA, KEY_MUTE, KEY_NEXTSONG,
    KEY_PAGEDOWN, KEY_PAGEUP, KEY_PLAYER, KEY_PLAYPAUSE, KEY_PREVIOUSSONG, KEY_RIGHTBRACE,
    KEY_SPACE, KEY_TAB, KEY_VOLUMEDOWN, KEY_VOLUMEUP,
};
use std::collections::HashMap;
use vstd::prelude::*;

verus! {

broadcast use vstd::std_specs::hash::group_hash_axioms;

/// Whether every code of `keys` is one that the input layer knows.
pub open spec fn known_keys(keys: Seq<u16>) -> bool {
    forall|i: int| 0 <= i < keys.len() ==> keys[i] < KEY_CNT
}

/// What the media strip's columns stand for.
pub open spec fn default_media_map() -> Map<u8, Seq<u16>> {
    map![
        0u8 => seq![KEY_MUTE],
        1u8 => seq![KEY_VOLUMEDOWN],
        2u8 => seq![KEY_VOLUMEUP],
        3u8 => seq![KEY_PLAYER],
        4u8 => seq![KEY_PLAYPAUSE],
        5u8 => seq![KEY_PREVIOUSSONG],
        6u8 => seq![KEY_NEXTSONG],
        7u8 => seq![KEY_HOME],
        8u8 => seq![KEY_CALC],
        9u8 => seq![KEY_LEFTMETA, KEY_D],
    ]
}

/// What the tablet's buttons stand for.
pub open spec fn default_tablet_map() -> Map<u8, Seq<u16>> {
    map![
        0u8 => seq![KEY_TAB],
        1u8 => seq![KEY_SPACE],
        2u8 => seq![KEY_LEFTALT],
        3u8 => seq![KEY_LEFTCTRL],
        4u8 => seq![KEY_PAGEUP],
        5u8 => seq![KEY_PAGEDOWN],
        6u8 => seq![KEY_LEFTBRACE],
        7u8 => seq![KEY_LEFTCTRL, KEY_KPMINUS],
        8u8 => seq![KEY_LEFTCTRL, KEY_KPPLUS],
        9u8 => seq![KEY_ESC],
        12u8 => seq![KEY_B],
        13u8 => seq![KEY_RIGHTBRACE],
    ]
}

/// What the pen's buttons stand for.
pub open spec fn default_pen_map() -> Map<u8, Seq<u16>> {
    map![
        4u8 => seq![BTN_STYLUS],
        6u8 => seq![BTN_STYLUS2],
    ]
}

/// A mapping from button ids to the key codes that each one sends, in order.
/// Every code in it is one that the input layer knows.
pub struct KeyBindings {
    map: HashMap<u8, Vec<u16>>,
}

impl View for KeyBindings {
    type V = Map<u8, Seq<u16>>;

    closed spec fn view(&self) -> Map<u8, Seq<u16>> {
        Map::new(|id: u8| self.map@.contains_key(id), |id: u8| self.map@[id]@)
    }
}

impl KeyBindings {
    /// Whether the input layer knows every code in the table.
    #[verifier::type_invariant]
    spec fn all_known(self) -> bool {
        forall|id: u8| #[trigger] self.map@.contains_key(id) ==> known_keys(self.map@[id]@)
    }

    /// A table that binds nothing.
    pub fn new() -> (r: Self)
        ensures
            r@ == Map::<u8, Seq<u16>>::empty(),
    {
        let r = KeyBindings { map: HashMap::new() };
        assert(r@ =~= Map::<u8, Seq<u16>>::empty());
        r
    }

    /// Binds `id` to `keys`, in place of what it was bound to, if the input
    /// layer knows every code of `keys`; leaves the table as it is if not.
    pub fn bind(&mut self, id: u8, keys: Vec<u16>) -> (accepted: bool)
        ensures
            accepted == known_keys(keys@),
            accepted ==> final(self)@ == old(self)@.insert(id, keys@),
            !accepted ==> final(self)@ == old(self)@,
    {
        proof {
            use_type_invariant(&*self);
        }
        let mut i: usize = 0;
        while i < keys.len()
            invariant
                i <= keys.len(),
                forall|j: int| 0 <= j < i ==> keys@[j] < KEY_CNT,
            decreases keys.len() - i,
        {
            if keys[i] >= KEY_CNT {
                return false;
            }
            i += 1;
        }
        let ghost before = self@;
        let ghost keys_view = keys@;
        let mut map: HashMap<u8, Vec<u16>> = HashMap::new();
        core::mem::swap(&mut self.map, &mut map);
        map.insert(id, keys);
        core::mem::swap(&mut self.map, &mut map);
        assert(self@ =~= before.insert(id, keys_view));
        true
    }

    /// The keys that `id` is bound to, each of them known to the input layer.
    pub fn get(&self, id: u8) -> (r: Option<&Vec<u16>>)
        ensures
            match r {
                Some(keys) => self@.contains_key(id) && keys@ == self@[id] && known_keys(keys@),
                None => !self@.contains_key(id),
            },
    {
        proof {
            use_type_invariant(self);
        }
        self.map.get(&id)
    }

    /// The bindings of the media strip's ten columns.
    pub fn default_media() -> (r: Self)
        ensures
            r@ == default_media_map(),
    {
        let mut r = KeyBindings::new();
        r.bind(0, vec![KEY_MUTE]);
        r.bind(1, vec![KEY_VOLUMEDOWN]);
        r.bind(2, vec![KEY_VOLUMEUP]);
        r.bind(3, vec![KEY_PLAYER]);
        r.bind(4, vec![KEY_PLAYPAUSE]);
        r.bind(5, vec![KEY_PREVIOUSSONG]);
        r.bind(6, vec![KEY_NEXTSONG]);
        r.bind(7, vec![KEY_HOME]);
        r.bind(8, vec![KEY_CALC]);
        r.bind(9, vec![KEY_LEFTMETA, KEY_D]);
        assert(r@ =~~= default_media_map());
        r
    }

    /// The bindings of the tablet's twelve buttons.
    pub fn default_tablet() -> (r: Self)
        ensures
            r@ == default_tablet_map(),
    {
        let mut r = KeyBindings::new();
        r.bind(0, vec![KEY_TAB]);
        r.bind(1, vec![KEY_SPACE]);
        r.bind(2, vec![KEY_LEFTALT]);
        r.bind(3, vec![KEY_LEFTCTRL]);
        r.bind(4, vec![KEY_PAGEUP]);
        r.bind(5, vec![KEY_PAGEDOWN]);
        r.bind(6, vec![KEY_LEFTBRACE]);
        r.bind(7, vec![KEY_LEFTCTRL, KEY_KPMINUS]);
        r.bind(8, vec![KEY_LEFTCTRL, KEY_KPPLUS]);
        r.bind(9, vec![KEY_ESC]);
        r.bind(12, vec![KEY_B]);
        r.bind(13, vec![KEY_RIGHTBRACE]);
        assert(r@ =~~= default_tablet_map());
        r
    }

    /// The bindings of the pen's two buttons.
    pub fn default_pen() -> (r: Self)
        ensures
            r@ == default_pen_map(),
    {
        let mut r = KeyBindings::new();
        r.bind(4, vec![BTN_STYLUS]);
        r.bind(6, vec![BTN_STYLUS2]);
        assert(r@ =~~= default_pen_map());
        r
    }
}

} // verus!
