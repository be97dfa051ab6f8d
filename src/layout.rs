use vstd::prelude::*;

verus! {

/// What a character lookup reports when no key of the layout produces the
/// character: both bytes hold -1.
pub const KEY_SCAN_NONE: u16 = 0xFFFF;

/// Bit of a character lookup: the key is typed with shift held.
pub const KEY_SCAN_SHIFT: u16 = 0x100;

/// Bit of a character lookup: the key is typed with control held.
pub const KEY_SCAN_CTRL: u16 = 0x200;

/// A snapshot of the keyboard layout that characters are typed with.
///
/// `char_keys[c]` is the layout's answer for the ASCII character `c`: the
/// virtual key in the low byte and the modifiers in the high byte.
/// `scan_codes[vk]` is the hardware scan code of virtual key `vk`.
/// Characters and keys beyond either table are unknown to the layout.
pub struct KeyboardLayout {
    pub char_keys: Vec<u16>,
    pub scan_codes: Vec<u16>,
}

impl KeyboardLayout {
    /// The layout's answer for the ASCII character `c`.
    pub open spec fn key_scan_of(&self, c: u8) -> u16 {
        if (c as int) < self.char_keys@.len() {
            self.char_keys@[c as int]
        } else {
            KEY_SCAN_NONE
        }
    }

    /// The scan code of virtual key `vk`; 0 where the layout has none.
    pub open spec fn scan_code_of(&self, vk: u16) -> u16 {
        if (vk as int) < self.scan_codes@.len() {
            self.scan_codes@[vk as int]
        } else {
            0
        }
    }

    pub fn new(char_keys: Vec<u16>, scan_codes: Vec<u16>) -> (r: KeyboardLayout)
        ensures
            r.char_keys@ == char_keys@,
            r.scan_codes@ == scan_codes@,
    {
        KeyboardLayout { char_keys, scan_codes }
    }

    /// Looks up the ASCII character `c`.
    pub fn key_scan(&self, c: u8) -> (r: u16)
        ensures
            r == self.key_scan_of(c),
    {
        if (c as usize) < self.char_keys.len() {
            self.char_keys[c as usize]
        } else {
            KEY_SCAN_NONE
        }
    }
}

/// The virtual key of a character lookup.
pub open spec fn lookup_vk(key_scan: u16) -> u16 {
    key_scan & 0xff
}

/// Whether a character lookup asks for shift.
pub open spec fn lookup_shift(key_scan: u16) -> bool {
    key_scan & KEY_SCAN_SHIFT != 0
}

/// Whether a character lookup names a usable key: neither 0 nor the -1 of a
/// failed lookup.
pub open spec fn lookup_resolves(key_scan: u16) -> bool {
    lookup_vk(key_scan) != 0 && lookup_vk(key_scan) != 0xff
}

/// The scan code of virtual key `vk` in `layout`.
pub fn virtual_key_to_scancode(layout: &KeyboardLayout, vk: u16) -> (r: u16)
    ensures
        r == layout.scan_code_of(vk),
{
    if (vk as usize) < layout.scan_codes.len() {
        layout.scan_codes[vk as usize]
    } else {
        0
    }
}

} // verus!
