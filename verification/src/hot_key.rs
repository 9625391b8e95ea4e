//! A hot key control lets the user capture a keyboard shortcut. The value it
//! exchanges with the application is one word: the virtual key code in the
//! low byte and the modifier bits in the byte above it.

use vstd::prelude::*;

verus! {

use vstd::string::StringExecFns;
use crate::base::ControlCreation;
use crate::base::ControlHandle;
use crate::base::ControlMessage;
use crate::base::Font;
use crate::base::NwgError;
use crate::base::low16;
use crate::base::WindowOp;
use crate::base::WindowRequest;
use crate::base::WM_USER;
use crate::base::WS_CHILD;
use crate::base::WS_TABSTOP;
use crate::base::WS_VISIBLE;

// Modifier bits of a hot key combination.
pub const HOTKEYF_SHIFT: u8 = 0x01;
pub const HOTKEYF_CONTROL: u8 = 0x02;
pub const HOTKEYF_ALT: u8 = 0x04;
pub const HOTKEYF_EXT: u8 = 0x08;

// Bits naming the combinations a control may reject.
pub const HKCOMB_NONE: usize = 0x0001;
pub const HKCOMB_S: usize = 0x0002;
pub const HKCOMB_C: usize = 0x0004;
pub const HKCOMB_A: usize = 0x0008;
pub const HKCOMB_SC: usize = 0x0010;
pub const HKCOMB_SA: usize = 0x0020;
pub const HKCOMB_CA: usize = 0x0040;
pub const HKCOMB_SCA: usize = 0x0080;

// Messages understood by the hot key class.
pub const HKM_SETHOTKEY: u32 = WM_USER + 1;
pub const HKM_GETHOTKEY: u32 = WM_USER + 2;
pub const HKM_SETRULES: u32 = WM_USER + 3;

/// A hot key combination: a virtual key code and the modifier bits.
#[derive(Debug, Clone, Copy, PartialEq, Eq, Structural)]
pub struct HotKeyValue {
    /// The virtual key code; zero means no key is assigned.
    pub key: u8,
    /// The modifier bits (`HOTKEYF_SHIFT` and its companions).
    pub modifiers: u8,
}

/// How a combination is packed into the word the control exchanges: the
/// modifiers in the high byte, the key in the low byte.
pub open spec fn hotkey_word(v: HotKeyValue) -> int {
    v.modifiers * 0x100 + v.key
}

impl Default for HotKeyValue {
    /// The empty combination.
    fn default() -> (r: Self)
        ensures
            r.key == 0,
            r.modifiers == 0,
    {
        HotKeyValue { key: 0, modifiers: 0 }
    }
}

impl HotKeyValue {
    /// A combination from a key and modifier bits.
    pub fn new(key: u8, modifiers: u8) -> (r: Self)
        ensures
            r.key == key,
            r.modifiers == modifiers,
    {
        HotKeyValue { key, modifiers }
    }

    /// A combination with no modifiers.
    pub fn key_only(key: u8) -> (r: Self)
        ensures
            r.key == key,
            r.modifiers == 0,
    {
        HotKeyValue { key, modifiers: 0 }
    }

    /// A combination with the control modifier.
    pub fn ctrl(key: u8) -> (r: Self)
        ensures
            r.key == key,
            r.modifiers == HOTKEYF_CONTROL,
    {
        HotKeyValue { key, modifiers: HOTKEYF_CONTROL }
    }

    /// A combination with the alt modifier.
    pub fn alt(key: u8) -> (r: Self)
        ensures
            r.key == key,
            r.modifiers == HOTKEYF_ALT,
    {
        HotKeyValue { key, modifiers: HOTKEYF_ALT }
    }

    /// A combination with the shift modifier.
    pub fn shift(key: u8) -> (r: Self)
        ensures
            r.key == key,
            r.modifiers == HOTKEYF_SHIFT,
    {
        HotKeyValue { key, modifiers: HOTKEYF_SHIFT }
    }

    /// A combination with the control and shift modifiers.
    pub fn ctrl_shift(key: u8) -> (r: Self)
        ensures
            r.key == key,
            r.modifiers == (HOTKEYF_CONTROL | HOTKEYF_SHIFT),
    {
        HotKeyValue { key, modifiers: HOTKEYF_CONTROL | HOTKEYF_SHIFT }
    }

    /// A combination with the control and alt modifiers.
    pub fn ctrl_alt(key: u8) -> (r: Self)
        ensures
            r.key == key,
            r.modifiers == (HOTKEYF_CONTROL | HOTKEYF_ALT),
    {
        HotKeyValue { key, modifiers: HOTKEYF_CONTROL | HOTKEYF_ALT }
    }

    /// Whether no key is assigned.
    pub fn is_empty(&self) -> (r: bool)
        ensures
            r == (self.key == 0),
    {
        self.key == 0
    }
}

/// Writing a combination whose modifier bits all lie among the four the
/// control defines, and reading the word back, yields the combination that
/// was written: the word packed by [`hotkey_word`] comes apart again under
/// the reading that [`HotKey::value_from_reply`] states.
pub proof fn lemma_hotkey_word_round_trip(v: HotKeyValue)
    requires
        v.modifiers < 0x10,
    ensures
        low16(hotkey_word(v)) == hotkey_word(v),
        hotkey_word(v) % 0x100 == v.key,
        (hotkey_word(v) / 0x100) % 0x10 == v.modifiers,
{
    assert((v.modifiers * 0x100 + v.key) % 0x10000 == v.modifiers * 0x100 + v.key)
        by (nonlinear_arith)
        requires
            0 <= v.key < 0x100,
            0 <= v.modifiers < 0x10,
    ;
    assert((v.modifiers * 0x100 + v.key) % 0x100 == v.key) by (nonlinear_arith)
        requires
            0 <= v.key < 0x100,
            0 <= v.modifiers < 0x10,
    ;
    assert(((v.modifiers * 0x100 + v.key) / 0x100) % 0x10 == v.modifiers) by (nonlinear_arith)
        requires
            0 <= v.key < 0x100,
            0 <= v.modifiers < 0x10,
    ;
}

/// Wrapper around one native hot key control window.
#[derive(Clone, Copy, PartialEq, Eq, Structural, Debug)]
pub struct HotKey {
    pub handle: ControlHandle,
}

impl Default for HotKey {
    /// A fresh wrapper is unbound.
    fn default() -> (r: Self)
        ensures
            r.handle == ControlHandle::NoHandle,
    {
        HotKey { handle: ControlHandle::NoHandle }
    }
}

impl HotKey {
    /// A builder with the control's default configuration.
    pub fn builder() -> (r: HotKeyBuilder)
        ensures
            r.size == (150i32, 23i32),
            r.position == (0i32, 0i32),
            r.enabled == true,
            r.focus == false,
            r.flags is None,
            r.ex_flags == 0,
            r.font is None,
            r.parent is None,
    {
        HotKeyBuilder {
            size: (150, 23),
            position: (0, 0),
            enabled: true,
            focus: false,
            flags: None,
            ex_flags: 0,
            font: None,
            parent: None,
        }
    }

    /// The message that stores a combination in the control, packed as
    /// [`hotkey_word`] says.
    pub fn set_value(&self, value: HotKeyValue) -> (m: ControlMessage)
        requires
            self.handle.is_bound(),
        ensures
            m.hwnd == self.handle.hwnd_spec(),
            m.msg == HKM_SETHOTKEY,
            m.wparam == hotkey_word(value),
            m.lparam == 0,
    {
        let wparam: usize = (value.modifiers as usize) * 0x100 + (value.key as usize);
        ControlMessage { hwnd: self.handle.checked_hwnd(), msg: HKM_SETHOTKEY, wparam, lparam: 0 }
    }

    /// The message that asks for the stored combination; hand its reply to
    /// [`HotKey::value_from_reply`].
    pub fn value(&self) -> (m: ControlMessage)
        requires
            self.handle.is_bound(),
        ensures
            m.hwnd == self.handle.hwnd_spec(),
            m.msg == HKM_GETHOTKEY,
            m.wparam == 0,
            m.lparam == 0,
    {
        ControlMessage { hwnd: self.handle.checked_hwnd(), msg: HKM_GETHOTKEY, wparam: 0, lparam: 0 }
    }

    /// Reads a combination out of the control's reply word: the key in the
    /// low byte, the modifiers in the byte above it with the bits outside
    /// the four defined flags dropped, and no combination at all when the
    /// key byte is zero. Bits above the low word carry nothing.
    pub fn value_from_reply(reply: isize) -> (r: Option<HotKeyValue>)
        ensures
            low16(reply as int) % 0x100 == 0 ==> r is None,
            low16(reply as int) % 0x100 != 0 ==> r == Some(
                HotKeyValue {
                    key: (low16(reply as int) % 0x100) as u8,
                    modifiers: ((low16(reply as int) / 0x100) % 0x10) as u8,
                },
            ),
    {
        let wide: i64 = reply as i64;
        let word: i64 = if wide >= 0 {
            wide % 0x10000
        } else {
            let n: i64 = -(wide + 1);
            0xffff - (n % 0x10000)
        };
        let key: u8 = (word % 0x100) as u8;
        let modifiers: u8 = ((word / 0x100) % 0x10) as u8;
        if key == 0 {
            None
        } else {
            Some(HotKeyValue { key, modifiers })
        }
    }

    /// The message that clears the stored combination.
    pub fn clear(&self) -> (m: ControlMessage)
        requires
            self.handle.is_bound(),
        ensures
            m.hwnd == self.handle.hwnd_spec(),
            m.msg == HKM_SETHOTKEY,
            m.wparam == 0,
            m.lparam == 0,
    {
        ControlMessage { hwnd: self.handle.checked_hwnd(), msg: HKM_SETHOTKEY, wparam: 0, lparam: 0 }
    }

    /// The message that forbids combinations and names the replacement
    /// modifiers, which travel in the high word of the second parameter.
    pub fn set_rules(&self, invalid: usize, replacement: u8) -> (m: ControlMessage)
        requires
            self.handle.is_bound(),
        ensures
            m.hwnd == self.handle.hwnd_spec(),
            m.msg == HKM_SETRULES,
            m.wparam == invalid,
            m.lparam == replacement * 0x10000,
    {
        ControlMessage {
            hwnd: self.handle.checked_hwnd(),
            msg: HKM_SETRULES,
            wparam: invalid,
            lparam: (replacement as i64) * 0x10000,
        }
    }

    /// Asks the platform layer for the control's font handle; interpret the
    /// reply with [`crate::base::decode_font`].
    pub fn font(&self) -> (r: WindowRequest)
        requires
            self.handle.is_bound(),
        ensures
            r.hwnd == self.handle.hwnd_spec(),
            r.op == WindowOp::GetFont,
    {
        WindowRequest { hwnd: self.handle.checked_hwnd(), op: WindowOp::GetFont }
    }

    /// Sets the control's font, or clears it.
    pub fn set_font(&self, font: Option<&Font>) -> (r: WindowRequest)
        requires
            self.handle.is_bound(),
        ensures
            r.hwnd == self.handle.hwnd_spec(),
            r.op == WindowOp::SetFont(
                match font {
                    Some(f) => Some(f.handle),
                    None => None,
                },
            ),
    {
        let h = match font {
            Some(f) => Some(f.handle),
            None => None,
        };
        WindowRequest { hwnd: self.handle.checked_hwnd(), op: WindowOp::SetFont(h) }
    }

    /// Asks whether the window is visible; the reply is nonzero when it is.
    pub fn visible(&self) -> (r: WindowRequest)
        requires
            self.handle.is_bound(),
        ensures
            r.hwnd == self.handle.hwnd_spec(),
            r.op == WindowOp::GetVisible,
    {
        WindowRequest { hwnd: self.handle.checked_hwnd(), op: WindowOp::GetVisible }
    }

    /// Shows or hides the window.
    pub fn set_visible(&self, visible: bool) -> (r: WindowRequest)
        requires
            self.handle.is_bound(),
        ensures
            r.hwnd == self.handle.hwnd_spec(),
            r.op == WindowOp::SetVisible(visible),
    {
        WindowRequest { hwnd: self.handle.checked_hwnd(), op: WindowOp::SetVisible(visible) }
    }

    /// Asks whether the window is enabled; the reply is nonzero when it is.
    pub fn enabled(&self) -> (r: WindowRequest)
        requires
            self.handle.is_bound(),
        ensures
            r.hwnd == self.handle.hwnd_spec(),
            r.op == WindowOp::GetEnabled,
    {
        WindowRequest { hwnd: self.handle.checked_hwnd(), op: WindowOp::GetEnabled }
    }

    /// Enables or disables the window.
    pub fn set_enabled(&self, enabled: bool) -> (r: WindowRequest)
        requires
            self.handle.is_bound(),
        ensures
            r.hwnd == self.handle.hwnd_spec(),
            r.op == WindowOp::SetEnabled(enabled),
    {
        WindowRequest { hwnd: self.handle.checked_hwnd(), op: WindowOp::SetEnabled(enabled) }
    }

    /// Asks for the window's position in its parent.
    pub fn position(&self) -> (r: WindowRequest)
        requires
            self.handle.is_bound(),
        ensures
            r.hwnd == self.handle.hwnd_spec(),
            r.op == WindowOp::GetPosition,
    {
        WindowRequest { hwnd: self.handle.checked_hwnd(), op: WindowOp::GetPosition }
    }

    /// Moves the window inside its parent.
    pub fn set_position(&self, x: i32, y: i32) -> (r: WindowRequest)
        requires
            self.handle.is_bound(),
        ensures
            r.hwnd == self.handle.hwnd_spec(),
            r.op == WindowOp::SetPosition(x, y),
    {
        WindowRequest { hwnd: self.handle.checked_hwnd(), op: WindowOp::SetPosition(x, y) }
    }

    /// Asks for the window's size.
    pub fn size(&self) -> (r: WindowRequest)
        requires
            self.handle.is_bound(),
        ensures
            r.hwnd == self.handle.hwnd_spec(),
            r.op == WindowOp::GetSize,
    {
        WindowRequest { hwnd: self.handle.checked_hwnd(), op: WindowOp::GetSize }
    }

    /// Resizes the window.
    pub fn set_size(&self, w: u32, h: u32) -> (r: WindowRequest)
        requires
            self.handle.is_bound(),
        ensures
            r.hwnd == self.handle.hwnd_spec(),
            r.op == WindowOp::SetSize(w, h),
    {
        WindowRequest { hwnd: self.handle.checked_hwnd(), op: WindowOp::SetSize(w, h) }
    }

    /// Gives the control the keyboard focus.
    pub fn set_focus(&self) -> (r: WindowRequest)
        requires
            self.handle.is_bound(),
        ensures
            r.hwnd == self.handle.hwnd_spec(),
            r.op == WindowOp::SetFocus,
    {
        WindowRequest { hwnd: self.handle.checked_hwnd(), op: WindowOp::SetFocus }
    }

    /// The window class this wrapper creates.
    pub fn class_name(&self) -> (r: &'static str)
        ensures
            r@ == "msctls_hotkey32"@,
    {
        "msctls_hotkey32"
    }

    /// The style used when the builder is given none.
    pub fn flags(&self) -> (r: u32)
        ensures
            r == (WS_VISIBLE | WS_TABSTOP),
    {
        WS_VISIBLE | WS_TABSTOP
    }

    /// The style bits every hot key control carries.
    pub fn forced_flags(&self) -> (r: u32)
        ensures
            r == WS_CHILD,
    {
        WS_CHILD
    }
}

/// Everything the platform layer must do to stand up one hot key control:
/// create the window from `base`, bind the handle, set `font` (or the
/// process-wide default when it is `None`), disable the window when
/// `enabled` is false, and give it the focus when `focus` is set.
#[derive(Debug)]
pub struct HotKeyCreation {
    pub base: ControlCreation,
    pub font: Option<Font>,
    pub enabled: bool,
    pub focus: bool,
}

/// Accumulates the configuration of one hot key control.
pub struct HotKeyBuilder {
    pub size: (i32, i32),
    pub position: (i32, i32),
    pub enabled: bool,
    pub focus: bool,
    pub flags: Option<u32>,
    pub ex_flags: u32,
    pub font: Option<Font>,
    pub parent: Option<ControlHandle>,
}

impl HotKeyBuilder {
    pub fn size(self, size: (i32, i32)) -> (r: HotKeyBuilder)
        ensures
            r == (HotKeyBuilder { size, ..self }),
    {
        HotKeyBuilder { size, ..self }
    }

    pub fn position(self, position: (i32, i32)) -> (r: HotKeyBuilder)
        ensures
            r == (HotKeyBuilder { position, ..self }),
    {
        HotKeyBuilder { position, ..self }
    }

    pub fn enabled(self, enabled: bool) -> (r: HotKeyBuilder)
        ensures
            r == (HotKeyBuilder { enabled, ..self }),
    {
        HotKeyBuilder { enabled, ..self }
    }

    pub fn focus(self, focus: bool) -> (r: HotKeyBuilder)
        ensures
            r == (HotKeyBuilder { focus, ..self }),
    {
        HotKeyBuilder { focus, ..self }
    }

    pub fn flags(self, flags: u32) -> (r: HotKeyBuilder)
        ensures
            r == (HotKeyBuilder { flags: Some(flags), ..self }),
    {
        HotKeyBuilder { flags: Some(flags), ..self }
    }

    pub fn ex_flags(self, ex_flags: u32) -> (r: HotKeyBuilder)
        ensures
            r == (HotKeyBuilder { ex_flags, ..self }),
    {
        HotKeyBuilder { ex_flags, ..self }
    }

    pub fn font(self, font: Option<&Font>) -> (r: HotKeyBuilder)
        ensures
            r.font == match font {
                Some(f) => Some(*f),
                None => None::<Font>,
            },
            r.size == self.size,
            r.position == self.position,
            r.enabled == self.enabled,
            r.focus == self.focus,
            r.flags == self.flags,
            r.ex_flags == self.ex_flags,
            r.parent == self.parent,
    {
        let f = match font {
            Some(f) => Some(*f),
            None => None,
        };
        HotKeyBuilder { font: f, ..self }
    }

    pub fn parent(self, p: ControlHandle) -> (r: HotKeyBuilder)
        ensures
            r == (HotKeyBuilder { parent: Some(p), ..self }),
    {
        HotKeyBuilder { parent: Some(p), ..self }
    }

    /// Validates the configuration and assembles the creation request.
    /// Demands a parent: without one the builder errs and leaves `out`
    /// untouched. On success `out` is reset to the unbound state; the
    /// platform layer performs the request and binds the handle.
    pub fn build(self, out: &mut HotKey) -> (res: Result<HotKeyCreation, NwgError>)
        ensures
            self.parent is None ==> (res matches Err(e) && e matches
                NwgError::ControlCreationError(m) && m@ == "HotKey"@ && *final(out) == *old(out)),
            self.parent matches Some(p) ==> (res matches Ok(c) && final(out).handle
                == ControlHandle::NoHandle && c.base.class_name@ == "msctls_hotkey32"@
                && c.base.flags == (match self.flags {
                Some(f) => f,
                None => WS_VISIBLE | WS_TABSTOP,
            } | WS_CHILD) && c.base.ex_flags == self.ex_flags && c.base.size == self.size
                && c.base.position == self.position && c.base.text@ == ""@ && c.base.parent == p
                && c.font == self.font && c.enabled == self.enabled && c.focus == self.focus),
    {
        let parent = match self.parent {
            Some(p) => p,
            None => {
                return Err(NwgError::no_parent("HotKey"));
            },
        };

        *out = HotKey { handle: ControlHandle::NoHandle };

        let flags = match self.flags {
            Some(f) => f,
            None => WS_VISIBLE | WS_TABSTOP,
        };

        Ok(
            HotKeyCreation {
                base: ControlCreation {
                    class_name: "msctls_hotkey32",
                    flags: flags | WS_CHILD,
                    ex_flags: self.ex_flags,
                    size: self.size,
                    position: self.position,
                    text: String::from_str(""),
                    parent,
                },
                font: self.font,
                enabled: self.enabled,
                focus: self.focus,
            },
        )
    }
}

} // verus!
