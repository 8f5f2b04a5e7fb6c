//! Decoding of settings exported by ArcDPS.

use vstd::prelude::*;

verus! {

/// Set of UI settings.
#[derive(Debug, Default, Clone, Copy, PartialEq, Eq, Structural)]
pub struct UISettings {
    pub hidden: bool,
    pub draw_always: bool,
    pub modifiers_move_lock: bool,
    pub modifiers_click_block: bool,
    pub close_with_esc: bool,
}

impl UISettings {
    /// Decodes the UI settings from the raw bit set ArcDPS exports.
    ///
    /// The settings are the five lowest bits, in field order.
    pub fn from_raw(raw: u64) -> (r: Self)
        ensures
            r.hidden == (raw % 2 == 1),
            r.draw_always == ((raw / 2) % 2 == 1),
            r.modifiers_move_lock == ((raw / 4) % 2 == 1),
            r.modifiers_click_block == ((raw / 8) % 2 == 1),
            r.close_with_esc == ((raw / 16) % 2 == 1),
    {
        assert(raw & 1 == raw % 2) by (bit_vector);
        assert((raw >> 1) & 1 == (raw / 2) % 2) by (bit_vector);
        assert((raw >> 2) & 1 == (raw / 4) % 2) by (bit_vector);
        assert((raw >> 3) & 1 == (raw / 8) % 2) by (bit_vector);
        assert((raw >> 4) & 1 == (raw / 16) % 2) by (bit_vector);
        UISettings {
            hidden: raw & 1 == 1,
            draw_always: (raw >> 1) & 1 == 1,
            modifiers_move_lock: (raw >> 2) & 1 == 1,
            modifiers_click_block: (raw >> 3) & 1 == 1,
            close_with_esc: (raw >> 4) & 1 == 1,
        }
    }
}

/// Set of modifier keybinds as virtual key ids.
#[derive(Debug, Default, Clone, Copy, PartialEq, Eq, Structural)]
pub struct Modifiers {
    pub modifier1: u16,
    pub modifier2: u16,
    pub modifier_multi: u16,
}

impl Modifiers {
    /// Decodes the modifier keybinds from the raw value ArcDPS exports.
    ///
    /// The keybinds are the three lowest 16 bit words, in field order.
    pub fn from_raw(raw: u64) -> (r: Self)
        ensures
            r.modifier1 == raw % 0x1_0000,
            r.modifier2 == (raw / 0x1_0000) % 0x1_0000,
            r.modifier_multi == (raw / 0x1_0000_0000) % 0x1_0000,
    {
        assert((raw & 0xffff) == raw % 0x1_0000) by (bit_vector);
        assert(((raw >> 16) & 0xffff) == (raw / 0x1_0000) % 0x1_0000) by (bit_vector);
        assert(((raw >> 32) & 0xffff) == (raw / 0x1_0000_0000) % 0x1_0000) by (bit_vector);
        Modifiers {
            modifier1: (raw & 0xffff) as u16,
            modifier2: ((raw >> 16) & 0xffff) as u16,
            modifier_multi: ((raw >> 32) & 0xffff) as u16,
        }
    }
}

} // verus!
