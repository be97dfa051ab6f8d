use vstd::prelude::*;

verus! {

/// Left shift virtual key.
pub const VK_LSHIFT: u16 = 0xA0;

/// Left control virtual key.
pub const VK_LCONTROL: u16 = 0xA2;

/// Event flag: the key is released (absent: the key is pressed).
pub const KEYEVENTF_KEYUP: u32 = 0x0002;

/// Event flag: the scan code carries a UTF-16 code unit.
pub const KEYEVENTF_UNICODE: u32 = 0x0004;

/// Event flag: the scan code is taken literally, the virtual key is ignored.
pub const KEYEVENTF_SCANCODE: u32 = 0x0008;

/// Marker attached to every synthesised event. Hardware input carries 0, so
/// any other value tells synthetic input apart.
pub const SYNTHETIC_EXTRA_INFO: usize = 12345;

/// How many raw events one keystroke expands to, and in which state.
#[derive(Debug, PartialEq, Eq, Structural, Clone, Copy)]
pub enum KeySendMode {
    /// A press followed by a release.
    Immediate,
    /// A release only.
    KeyUp,
    /// A press only.
    KeyDown,
}

/// One logical key action.
#[derive(Debug, PartialEq, Eq, Structural, Clone, Copy)]
pub struct KeyCode {
    pub vk: u16,
    pub scan_code: u16,
    pub flags: u32,
    pub key_send_mode: KeySendMode,
    pub extra_info: usize,
}

/// The keystroke with the given fields, marked as synthetic.
pub open spec fn keystroke(vk: u16, scan_code: u16, flags: u32, mode: KeySendMode) -> KeyCode {
    KeyCode { vk, scan_code, flags, key_send_mode: mode, extra_info: SYNTHETIC_EXTRA_INFO }
}

impl KeyCode {
    pub fn vk(&self) -> (r: u16)
        ensures
            r == self.vk,
    {
        self.vk
    }

    pub fn scan_code(&self) -> (r: u16)
        ensures
            r == self.scan_code,
    {
        self.scan_code
    }

    pub fn key_send_mode(&self) -> (r: KeySendMode)
        ensures
            r == self.key_send_mode,
    {
        self.key_send_mode
    }

    pub fn extra_info(&self) -> (r: usize)
        ensures
            r == self.extra_info,
    {
        self.extra_info
    }

    pub fn flags(&self) -> (r: u32)
        ensures
            r == self.flags,
    {
        self.flags
    }
}

impl Default for KeyCode {
    /// An immediate press and release of virtual key 0, marked as synthetic.
    fn default() -> (r: KeyCode)
        ensures
            r == keystroke(0, 0, 0, KeySendMode::Immediate),
    {
        KeyCode {
            vk: 0,
            scan_code: 0,
            flags: 0,
            key_send_mode: KeySendMode::Immediate,
            extra_info: SYNTHETIC_EXTRA_INFO,
        }
    }
}

/// Assembles a keystroke field by field.
#[derive(Debug)]
pub struct KeycodeBuilder {
    pub key_code: KeyCode,
}

impl Default for KeycodeBuilder {
    fn default() -> (r: KeycodeBuilder)
        ensures
            r.key_code == keystroke(0, 0, 0, KeySendMode::Immediate),
    {
        KeycodeBuilder { key_code: KeyCode::default() }
    }
}

impl KeycodeBuilder {
    pub fn new() -> (r: KeycodeBuilder)
        ensures
            r.key_code == keystroke(0, 0, 0, KeySendMode::Immediate),
    {
        KeycodeBuilder::default()
    }

    pub fn vk(&mut self, vk: u16) -> (r: &mut Self)
        ensures
            r.key_code == (KeyCode { vk, ..old(self).key_code }),
            *final(self) == *final(r),
    {
        self.key_code.vk = vk;
        self
    }
    pub fn scan_code(&mut self, scan_code: u16) -> (r: &mut Self)
        ensures
            r.key_code == (KeyCode { scan_code, ..old(self).key_code }),
            *final(self) == *final(r),
    {
        self.key_code.scan_code = scan_code;
        self
    }

    pub fn key_send_mode(&mut self, key_send_mode: KeySendMode) -> (r: &mut Self)
        ensures
            r.key_code == (KeyCode { key_send_mode, ..old(self).key_code }),
            *final(self) == *final(r),
    {
        self.key_code.key_send_mode = key_send_mode;
        self
    }

    pub fn flags(&mut self, flags: u32) -> (r: &mut Self)
        ensures
            r.key_code == (KeyCode { flags, ..old(self).key_code }),
            *final(self) == *final(r),
    {
        self.key_code.flags = flags;
        self
    }

    pub fn extra_info(&mut self, info: usize) -> (r: &mut Self)
        ensures
            r.key_code == (KeyCode { extra_info: info, ..old(self).key_code }),
            *final(self) == *final(r),
    {
        self.key_code.extra_info = info;
        self
    }

    /// The keystroke assembled so far.
    pub fn build(&self) -> (r: KeyCode)
        ensures
            r == self.key_code,
    {
        self.key_code
    }
}

} // verus!
