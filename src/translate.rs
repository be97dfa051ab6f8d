use vstd::prelude::*;

use crate::keycode::{
    keystroke, KeyCode, KeySendMode, KeycodeBuilder, KEYEVENTF_UNICODE, SYNTHETIC_EXTRA_INFO,
    VK_LSHIFT,
};
use crate::layout::{
    lookup_resolves, lookup_shift, lookup_vk, virtual_key_to_scancode, KeyboardLayout,
};

verus! {

/// The high surrogate of a code point beyond the Basic Multilingual Plane.
pub open spec fn high_surrogate(v: u32) -> u16 {
    ((v - 0x10000) / 0x400 + 0xD800) as u16
}

/// The low surrogate of a code point beyond the Basic Multilingual Plane.
pub open spec fn low_surrogate(v: u32) -> u16 {
    ((v - 0x10000) % 0x400 + 0xDC00) as u16
}

/// A keystroke that types one UTF-16 code unit.
pub open spec fn unicode_keystroke(unit: u16) -> KeyCode {
    keystroke(0, unit, KEYEVENTF_UNICODE, KeySendMode::Immediate)
}

/// The keystrokes that type `c` as UTF-16 code units, one per unit.
pub open spec fn unicode_keystrokes(c: char) -> Seq<KeyCode> {
    let v = c as u32;
    if v < 0x10000 {
        seq![unicode_keystroke(v as u16)]
    } else {
        seq![unicode_keystroke(high_surrogate(v)), unicode_keystroke(low_surrogate(v))]
    }
}

/// Shift pressed (`down`) or released, with its scan code in `layout`.
pub open spec fn shift_keystroke(layout: KeyboardLayout, down: bool) -> KeyCode {
    keystroke(
        VK_LSHIFT,
        layout.scan_code_of(VK_LSHIFT),
        0,
        if down {
            KeySendMode::KeyDown
        } else {
            KeySendMode::KeyUp
        },
    )
}

/// Whether `c` is typed through a key of `layout` rather than as Unicode.
pub open spec fn typed_by_key(c: char, layout: KeyboardLayout) -> bool {
    (c as u32) < 0x80 && lookup_resolves(layout.key_scan_of(c as u8))
}

/// The keystrokes that type `c` on `layout`.
///
/// An ASCII character that the layout maps to a key is one press and release
/// of that key, bracketed by shift where the layout asks for it. Any other
/// character is typed as its UTF-16 code units.
pub open spec fn char_keystrokes(c: char, layout: KeyboardLayout) -> Seq<KeyCode> {
    if typed_by_key(c, layout) {
        let key_scan = layout.key_scan_of(c as u8);
        let vk = lookup_vk(key_scan);
        let main = keystroke(vk, layout.scan_code_of(vk), 0, KeySendMode::Immediate);
        if lookup_shift(key_scan) {
            seq![shift_keystroke(layout, true), main, shift_keystroke(layout, false)]
        } else {
            seq![main]
        }
    } else {
        unicode_keystrokes(c)
    }
}

/// The surrogate pair of `c`, or `None` for a character of the Basic
/// Multilingual Plane.
pub fn char_to_surrogate_pair(c: char) -> (r: Option<(u16, u16)>)
    ensures
        (c as u32) < 0x10000 ==> r is None,
        (c as u32) >= 0x10000 ==> r == Some(
            (high_surrogate(c as u32), low_surrogate(c as u32)),
        ),
{
    let v = c as u32;
    if v < 0x10000 {
        None
    } else {
        let high = ((v - 0x10000) / 0x400 + 0xD800) as u16;
        let low = ((v - 0x10000) % 0x400 + 0xDC00) as u16;
        Some((high, low))
    }
}

fn shift_key(layout: &KeyboardLayout, down: bool) -> (r: KeyCode)
    ensures
        r == shift_keystroke(*layout, down),
{
    KeyCode {
        vk: VK_LSHIFT,
        scan_code: virtual_key_to_scancode(layout, VK_LSHIFT),
        flags: 0,
        key_send_mode: if down {
            KeySendMode::KeyDown
        } else {
            KeySendMode::KeyUp
        },
        extra_info: SYNTHETIC_EXTRA_INFO,
    }
}

fn unicode_key(unit: u16) -> (r: KeyCode)
    ensures
        r == unicode_keystroke(unit),
{
    KeyCode {
        vk: 0,
        scan_code: unit,
        flags: KEYEVENTF_UNICODE,
        key_send_mode: KeySendMode::Immediate,
        extra_info: SYNTHETIC_EXTRA_INFO,
    }
}

impl KeycodeBuilder {
    /// The keystrokes that type the character `c` on `layout`. The fields set
    /// on the builder play no part.
    pub fn char_build(&self, c: char, layout: &KeyboardLayout) -> (r: Vec<KeyCode>)
        ensures
            r@ == char_keystrokes(c, *layout),
    {
        let mut keys: Vec<KeyCode> = Vec::new();
        let v = c as u32;
        let mut key_scan: u16 = 0;
        if v < 0x80 {
            key_scan = layout.key_scan(v as u8);
        }
        let vk = key_scan & 0xff;
        if v < 0x80 && vk != 0 && vk != 0xff {
            let shift = key_scan & 0x100 != 0;
            if shift {
                keys.push(shift_key(layout, true));
            }
            keys.push(
                KeyCode {
                    vk,
                    scan_code: virtual_key_to_scancode(layout, vk),
                    flags: 0,
                    key_send_mode: KeySendMode::Immediate,
                    extra_info: SYNTHETIC_EXTRA_INFO,
                },
            );
            if shift {
                keys.push(shift_key(layout, false));
            }
        } else {
            match char_to_surrogate_pair(c) {
                None => {
                    keys.push(unicode_key(v as u16));
                },
                Some((high, low)) => {
                    keys.push(unicode_key(high));
                    keys.push(unicode_key(low));
                },
            }
        }
        proof {
            assert(keys@ =~= char_keystrokes(c, *layout));
        }
        keys
    }
}

/// An ASCII character that the layout maps to a key without shift is typed by
/// exactly one keystroke: an immediate press and release of a non-zero
/// virtual key.
pub proof fn lemma_unshifted_ascii(c: char, layout: KeyboardLayout)
    requires
        (c as u32) < 0x80,
        lookup_resolves(layout.key_scan_of(c as u8)),
        !lookup_shift(layout.key_scan_of(c as u8)),
    ensures
        char_keystrokes(c, layout).len() == 1,
        char_keystrokes(c, layout)[0].key_send_mode == KeySendMode::Immediate,
        char_keystrokes(c, layout)[0].vk != 0,
        char_keystrokes(c, layout)[0].vk == lookup_vk(layout.key_scan_of(c as u8)),
{
}

/// An ASCII character that the layout maps to a key with shift is typed by
/// exactly three keystrokes: shift pressed, the key pressed and released, shift
/// released.
pub proof fn lemma_shifted_ascii(c: char, layout: KeyboardLayout)
    requires
        (c as u32) < 0x80,
        lookup_resolves(layout.key_scan_of(c as u8)),
        lookup_shift(layout.key_scan_of(c as u8)),
    ensures
        char_keystrokes(c, layout).len() == 3,
        char_keystrokes(c, layout)[0].vk == VK_LSHIFT,
        char_keystrokes(c, layout)[0].key_send_mode == KeySendMode::KeyDown,
        char_keystrokes(c, layout)[1].vk == lookup_vk(layout.key_scan_of(c as u8)),
        char_keystrokes(c, layout)[1].vk != 0,
        char_keystrokes(c, layout)[1].key_send_mode == KeySendMode::Immediate,
        char_keystrokes(c, layout)[2].vk == VK_LSHIFT,
        char_keystrokes(c, layout)[2].key_send_mode == KeySendMode::KeyUp,
{
}

/// A character from U+0080 up to U+FFFF is typed by exactly one Unicode
/// keystroke that carries the character itself as its code unit.
pub proof fn lemma_basic_plane(c: char, layout: KeyboardLayout)
    requires
        0x80 <= (c as u32) < 0x10000,
    ensures
        char_keystrokes(c, layout).len() == 1,
        char_keystrokes(c, layout)[0].flags == KEYEVENTF_UNICODE,
        char_keystrokes(c, layout)[0].vk == 0,
        char_keystrokes(c, layout)[0].scan_code as u32 == c as u32,
        char_keystrokes(c, layout)[0].key_send_mode == KeySendMode::Immediate,
{
}

/// A character from U+10000 on is typed by exactly two Unicode keystrokes, the
/// high surrogate first and the low surrogate second.
pub proof fn lemma_supplementary_plane(c: char, layout: KeyboardLayout)
    requires
        (c as u32) >= 0x10000,
    ensures
        char_keystrokes(c, layout).len() == 2,
        char_keystrokes(c, layout)[0].flags == KEYEVENTF_UNICODE,
        char_keystrokes(c, layout)[1].flags == KEYEVENTF_UNICODE,
        char_keystrokes(c, layout)[0].scan_code as int == ((c as u32) - 0x10000) / 0x400
            + 0xD800,
        char_keystrokes(c, layout)[1].scan_code as int == ((c as u32) - 0x10000) % 0x400
            + 0xDC00,
        char_keystrokes(c, layout)[0].key_send_mode == KeySendMode::Immediate,
        char_keystrokes(c, layout)[1].key_send_mode == KeySendMode::Immediate,
{
}

} // verus!
