//! An address-entry control holds four octet fields. The value it exchanges
//! with the application is one 32-bit word with the first octet in the most
//! significant byte.

use vstd::prelude::*;

verus! {

use vstd::string::StringExecFns;
use crate::base::ControlCreation;
use crate::base::ControlHandle;
use crate::base::ControlMessage;
use crate::base::Font;
use crate::base::NwgError;
use crate::base::QueryMessage;
use crate::base::WindowOp;
use crate::base::WindowRequest;
use crate::base::WM_USER;
use crate::base::WS_CHILD;
use crate::base::WS_TABSTOP;
use crate::base::WS_VISIBLE;

// Messages understood by the address-entry class.
pub const IPM_CLEARADDRESS: u32 = WM_USER + 100;
pub const IPM_SETADDRESS: u32 = WM_USER + 101;
pub const IPM_GETADDRESS: u32 = WM_USER + 102;
pub const IPM_SETRANGE: u32 = WM_USER + 103;
pub const IPM_SETFOCUS: u32 = WM_USER + 104;
pub const IPM_ISBLANK: u32 = WM_USER + 105;

/// How four octets pack into the word the control exchanges: the first
/// octet in the most significant byte.
pub open spec fn address_word(a: u8, b: u8, c: u8, d: u8) -> int {
    a * 0x1000000 + b * 0x10000 + c * 0x100 + d
}

/// Packing four octets and unpacking the word again yields the same four
/// octets, byte for byte.
pub proof fn lemma_address_word_round_trip(a: u8, b: u8, c: u8, d: u8)
    ensures
        address_word(a, b, c, d) / 0x1000000 == a,
        (address_word(a, b, c, d) / 0x10000) % 0x100 == b,
        (address_word(a, b, c, d) / 0x100) % 0x100 == c,
        address_word(a, b, c, d) % 0x100 == d,
{
    let w = address_word(a, b, c, d);
    assert(w / 0x1000000 == a && (w / 0x10000) % 0x100 == b && (w / 0x100) % 0x100 == c && w
        % 0x100 == d) by (nonlinear_arith)
        requires
            w == a * 0x1000000 + b * 0x10000 + c * 0x100 + d,
            0 <= a < 0x100,
            0 <= b < 0x100,
            0 <= c < 0x100,
            0 <= d < 0x100,
    ;
}

/// Wrapper around one native address-entry control window.
#[derive(Clone, Copy, PartialEq, Eq, Structural, Debug)]
pub struct IpAddress {
    pub handle: ControlHandle,
}

impl Default for IpAddress {
    /// A fresh wrapper is unbound.
    fn default() -> (r: Self)
        ensures
            r.handle == ControlHandle::NoHandle,
    {
        IpAddress { handle: ControlHandle::NoHandle }
    }
}

impl IpAddress {
    /// A builder with the control's default configuration.
    pub fn builder() -> (r: IpAddressBuilder)
        ensures
            r.size == (150i32, 23i32),
            r.position == (0i32, 0i32),
            r.enabled == true,
            r.focus == false,
            r.flags is None,
            r.ex_flags == 0,
            r.font is None,
            r.parent is None,
    {
        IpAddressBuilder {
            size: (150, 23),
            position: (0, 0),
            enabled: true,
            focus: false,
            flags: None,
            ex_flags: 0,
            font: None,
            parent: None,
        }
    }

    /// The message that fills the four fields with the given octets, packed
    /// as [`address_word`] says.
    pub fn set_address(&self, addr: [u8; 4]) -> (m: ControlMessage)
        requires
            self.handle.is_bound(),
        ensures
            m.hwnd == self.handle.hwnd_spec(),
            m.msg == IPM_SETADDRESS,
            m.wparam == 0,
            m.lparam == address_word(addr[0], addr[1], addr[2], addr[3]),
    {
        let packed: i64 = (addr[0] as i64) * 0x1000000 + (addr[1] as i64) * 0x10000 + (addr[2]
            as i64) * 0x100 + (addr[3] as i64);
        ControlMessage {
            hwnd: self.handle.checked_hwnd(),
            msg: IPM_SETADDRESS,
            wparam: 0,
            lparam: packed,
        }
    }

    /// The query that reads the packed address word; its reply counts the
    /// fields that are not blank. Hand both to
    /// [`IpAddress::address_from_reply`].
    pub fn address(&self) -> (m: QueryMessage)
        requires
            self.handle.is_bound(),
        ensures
            m.hwnd == self.handle.hwnd_spec(),
            m.msg == IPM_GETADDRESS,
            m.wparam == 0,
    {
        QueryMessage { hwnd: self.handle.checked_hwnd(), msg: IPM_GETADDRESS, wparam: 0 }
    }

    /// Reads the four octets out of the packed word when all four fields
    /// were filled, and nothing otherwise.
    pub fn address_from_reply(filled: isize, word: u32) -> (r: Option<[u8; 4]>)
        ensures
            filled == 4 ==> r == Some(
                [
                    (word / 0x1000000) as u8,
                    ((word / 0x10000) % 0x100) as u8,
                    ((word / 0x100) % 0x100) as u8,
                    (word % 0x100) as u8,
                ],
            ),
            filled != 4 ==> r is None,
    {
        if filled == 4 {
            Some(
                [
                    (word / 0x1000000) as u8,
                    ((word / 0x10000) % 0x100) as u8,
                    ((word / 0x100) % 0x100) as u8,
                    (word % 0x100) as u8,
                ],
            )
        } else {
            None
        }
    }

    /// The same query as [`IpAddress::address`]; hand its reply to
    /// [`IpAddress::address_partial_from_reply`].
    pub fn address_partial(&self) -> (m: QueryMessage)
        requires
            self.handle.is_bound(),
        ensures
            m.hwnd == self.handle.hwnd_spec(),
            m.msg == IPM_GETADDRESS,
            m.wparam == 0,
    {
        QueryMessage { hwnd: self.handle.checked_hwnd(), msg: IPM_GETADDRESS, wparam: 0 }
    }

    /// Reads the four octets out of the packed word, blank fields reading
    /// as zero, together with the count of filled fields.
    pub fn address_partial_from_reply(filled: isize, word: u32) -> (r: ([u8; 4], usize))
        requires
            0 <= filled,
        ensures
            r.0 == [
                (word / 0x1000000) as u8,
                ((word / 0x10000) % 0x100) as u8,
                ((word / 0x100) % 0x100) as u8,
                (word % 0x100) as u8,
            ],
            r.1 == filled,
    {
        (
            [
                (word / 0x1000000) as u8,
                ((word / 0x10000) % 0x100) as u8,
                ((word / 0x100) % 0x100) as u8,
                (word % 0x100) as u8,
            ],
            filled as usize,
        )
    }

    /// The message that blanks all four fields.
    pub fn clear(&self) -> (m: ControlMessage)
        requires
            self.handle.is_bound(),
        ensures
            m.hwnd == self.handle.hwnd_spec(),
            m.msg == IPM_CLEARADDRESS,
            m.wparam == 0,
            m.lparam == 0,
    {
        ControlMessage {
            hwnd: self.handle.checked_hwnd(),
            msg: IPM_CLEARADDRESS,
            wparam: 0,
            lparam: 0,
        }
    }

    /// The message that asks whether every field is blank. The reply is
    /// nonzero when all are.
    pub fn is_blank(&self) -> (m: ControlMessage)
        requires
            self.handle.is_bound(),
        ensures
            m.hwnd == self.handle.hwnd_spec(),
            m.msg == IPM_ISBLANK,
            m.wparam == 0,
            m.lparam == 0,
    {
        ControlMessage { hwnd: self.handle.checked_hwnd(), msg: IPM_ISBLANK, wparam: 0, lparam: 0 }
    }

    /// The message that limits one field to a range of octet values. The
    /// bounds pack into the second parameter word with the upper bound in
    /// the byte above the lower one.
    pub fn set_field_range(&self, field: u8, min: u8, max: u8) -> (m: ControlMessage)
        requires
            self.handle.is_bound(),
        ensures
            m.hwnd == self.handle.hwnd_spec(),
            m.msg == IPM_SETRANGE,
            m.wparam == field,
            m.lparam == max * 0x100 + min,
    {
        ControlMessage {
            hwnd: self.handle.checked_hwnd(),
            msg: IPM_SETRANGE,
            wparam: field as usize,
            lparam: (max as i64) * 0x100 + (min as i64),
        }
    }

    /// The message that moves the caret to one of the four fields.
    pub fn focus_field(&self, field: u8) -> (m: ControlMessage)
        requires
            self.handle.is_bound(),
        ensures
            m.hwnd == self.handle.hwnd_spec(),
            m.msg == IPM_SETFOCUS,
            m.wparam == field,
            m.lparam == 0,
    {
        ControlMessage {
            hwnd: self.handle.checked_hwnd(),
            msg: IPM_SETFOCUS,
            wparam: field as usize,
            lparam: 0,
        }
    }

    /// Asks the platform layer for the control's font handle; interpret the
    /// reply with [`crate::base::decode_font`].
    pub fn font(&self) -> (r: WindowRequest)
        requires
            self.handle.is_bound(),
        ensures
            r.hwnd == self.handle.hwnd_spec(),
            r.op == WindowOp::GetFont,
    {
        WindowRequest { hwnd: self.handle.checked_hwnd(), op: WindowOp::GetFont }
    }

    /// Sets the control's font, or clears it.
    pub fn set_font(&self, font: Option<&Font>) -> (r: WindowRequest)
        requires
            self.handle.is_bound(),
        ensures
            r.hwnd == self.handle.hwnd_spec(),
            r.op == WindowOp::SetFont(
                match font {
                    Some(f) => Some(f.handle),
                    None => None,
                },
            ),
    {
        let h = match font {
            Some(f) => Some(f.handle),
            None => None,
        };
        WindowRequest { hwnd: self.handle.checked_hwnd(), op: WindowOp::SetFont(h) }
    }

    /// Asks whether the window is visible; the reply is nonzero when it is.
    pub fn visible(&self) -> (r: WindowRequest)
        requires
            self.handle.is_bound(),
        ensures
            r.hwnd == self.handle.hwnd_spec(),
            r.op == WindowOp::GetVisible,
    {
        WindowRequest { hwnd: self.handle.checked_hwnd(), op: WindowOp::GetVisible }
    }

    /// Shows or hides the window.
    pub fn set_visible(&self, visible: bool) -> (r: WindowRequest)
        requires
            self.handle.is_bound(),
        ensures
            r.hwnd == self.handle.hwnd_spec(),
            r.op == WindowOp::SetVisible(visible),
    {
        WindowRequest { hwnd: self.handle.checked_hwnd(), op: WindowOp::SetVisible(visible) }
    }

    /// Asks whether the window is enabled; the reply is nonzero when it is.
    pub fn enabled(&self) -> (r: WindowRequest)
        requires
            self.handle.is_bound(),
        ensures
            r.hwnd == self.handle.hwnd_spec(),
            r.op == WindowOp::GetEnabled,
    {
        WindowRequest { hwnd: self.handle.checked_hwnd(), op: WindowOp::GetEnabled }
    }

    /// Enables or disables the window.
    pub fn set_enabled(&self, enabled: bool) -> (r: WindowRequest)
        requires
            self.handle.is_bound(),
        ensures
            r.hwnd == self.handle.hwnd_spec(),
            r.op == WindowOp::SetEnabled(enabled),
    {
        WindowRequest { hwnd: self.handle.checked_hwnd(), op: WindowOp::SetEnabled(enabled) }
    }

    /// Asks for the window's position in its parent.
    pub fn position(&self) -> (r: WindowRequest)
        requires
            self.handle.is_bound(),
        ensures
            r.hwnd == self.handle.hwnd_spec(),
            r.op == WindowOp::GetPosition,
    {
        WindowRequest { hwnd: self.handle.checked_hwnd(), op: WindowOp::GetPosition }
    }

    /// Moves the window inside its parent.
    pub fn set_position(&self, x: i32, y: i32) -> (r: WindowRequest)
        requires
            self.handle.is_bound(),
        ensures
            r.hwnd == self.handle.hwnd_spec(),
            r.op == WindowOp::SetPosition(x, y),
    {
        WindowRequest { hwnd: self.handle.checked_hwnd(), op: WindowOp::SetPosition(x, y) }
    }

    /// Asks for the window's size.
    pub fn size(&self) -> (r: WindowRequest)
        requires
            self.handle.is_bound(),
        ensures
            r.hwnd == self.handle.hwnd_spec(),
            r.op == WindowOp::GetSize,
    {
        WindowRequest { hwnd: self.handle.checked_hwnd(), op: WindowOp::GetSize }
    }

    /// Resizes the window.
    pub fn set_size(&self, w: u32, h: u32) -> (r: WindowRequest)
        requires
            self.handle.is_bound(),
        ensures
            r.hwnd == self.handle.hwnd_spec(),
            r.op == WindowOp::SetSize(w, h),
    {
        WindowRequest { hwnd: self.handle.checked_hwnd(), op: WindowOp::SetSize(w, h) }
    }

    /// Gives the control the keyboard focus.
    pub fn set_focus(&self) -> (r: WindowRequest)
        requires
            self.handle.is_bound(),
        ensures
            r.hwnd == self.handle.hwnd_spec(),
            r.op == WindowOp::SetFocus,
    {
        WindowRequest { hwnd: self.handle.checked_hwnd(), op: WindowOp::SetFocus }
    }

    /// The window class this wrapper creates.
    pub fn class_name(&self) -> (r: &'static str)
        ensures
            r@ == "SysIPAddress32"@,
    {
        "SysIPAddress32"
    }

    /// The style used when the builder is given none.
    pub fn flags(&self) -> (r: u32)
        ensures
            r == (WS_VISIBLE | WS_TABSTOP),
    {
        WS_VISIBLE | WS_TABSTOP
    }

    /// The style bits every address-entry control carries.
    pub fn forced_flags(&self) -> (r: u32)
        ensures
            r == WS_CHILD,
    {
        WS_CHILD
    }
}

/// Everything the platform layer must do to stand up one address-entry
/// control: create the window from `base`, bind the handle, set `font` (or
/// the process-wide default when it is `None`), disable the window when
/// `enabled` is false, and give it the focus when `focus` is set.
#[derive(Debug)]
pub struct IpAddressCreation {
    pub base: ControlCreation,
    pub font: Option<Font>,
    pub enabled: bool,
    pub focus: bool,
}

/// Accumulates the configuration of one address-entry control.
pub struct IpAddressBuilder {
    pub size: (i32, i32),
    pub position: (i32, i32),
    pub enabled: bool,
    pub focus: bool,
    pub flags: Option<u32>,
    pub ex_flags: u32,
    pub font: Option<Font>,
    pub parent: Option<ControlHandle>,
}

impl IpAddressBuilder {
    pub fn size(self, size: (i32, i32)) -> (r: IpAddressBuilder)
        ensures
            r == (IpAddressBuilder { size, ..self }),
    {
        IpAddressBuilder { size, ..self }
    }

    pub fn position(self, position: (i32, i32)) -> (r: IpAddressBuilder)
        ensures
            r == (IpAddressBuilder { position, ..self }),
    {
        IpAddressBuilder { position, ..self }
    }

    pub fn enabled(self, enabled: bool) -> (r: IpAddressBuilder)
        ensures
            r == (IpAddressBuilder { enabled, ..self }),
    {
        IpAddressBuilder { enabled, ..self }
    }

    pub fn focus(self, focus: bool) -> (r: IpAddressBuilder)
        ensures
            r == (IpAddressBuilder { focus, ..self }),
    {
        IpAddressBuilder { focus, ..self }
    }

    pub fn flags(self, flags: u32) -> (r: IpAddressBuilder)
        ensures
            r == (IpAddressBuilder { flags: Some(flags), ..self }),
    {
        IpAddressBuilder { flags: Some(flags), ..self }
    }

    pub fn ex_flags(self, ex_flags: u32) -> (r: IpAddressBuilder)
        ensures
            r == (IpAddressBuilder { ex_flags, ..self }),
    {
        IpAddressBuilder { ex_flags, ..self }
    }

    pub fn font(self, font: Option<&Font>) -> (r: IpAddressBuilder)
        ensures
            r.font == match font {
                Some(f) => Some(*f),
                None => None::<Font>,
            },
            r.size == self.size,
            r.position == self.position,
            r.enabled == self.enabled,
            r.focus == self.focus,
            r.flags == self.flags,
            r.ex_flags == self.ex_flags,
            r.parent == self.parent,
    {
        let f = match font {
            Some(f) => Some(*f),
            None => None,
        };
        IpAddressBuilder { font: f, ..self }
    }

    pub fn parent(self, p: ControlHandle) -> (r: IpAddressBuilder)
        ensures
            r == (IpAddressBuilder { parent: Some(p), ..self }),
    {
        IpAddressBuilder { parent: Some(p), ..self }
    }

    /// Validates the configuration and assembles the creation request.
    /// Demands a parent: without one the builder errs and leaves `out`
    /// untouched. On success `out` is reset to the unbound state; the
    /// platform layer performs the request and binds the handle.
    pub fn build(self, out: &mut IpAddress) -> (res: Result<IpAddressCreation, NwgError>)
        ensures
            self.parent is None ==> (res matches Err(e) && e matches
                NwgError::ControlCreationError(m) && m@ == "IpAddress"@ && *final(out) == *old(
                out,
            )),
            self.parent matches Some(p) ==> (res matches Ok(c) && final(out).handle
                == ControlHandle::NoHandle && c.base.class_name@ == "SysIPAddress32"@
                && c.base.flags == (match self.flags {
                Some(f) => f,
                None => WS_VISIBLE | WS_TABSTOP,
            } | WS_CHILD) && c.base.ex_flags == self.ex_flags && c.base.size == self.size
                && c.base.position == self.position && c.base.text@ == ""@ && c.base.parent == p
                && c.font == self.font && c.enabled == self.enabled && c.focus == self.focus),
    {
        let parent = match self.parent {
            Some(p) => p,
            None => {
                return Err(NwgError::no_parent("IpAddress"));
            },
        };

        *out = IpAddress { handle: ControlHandle::NoHandle };

        let flags = match self.flags {
            Some(f) => f,
            None => WS_VISIBLE | WS_TABSTOP,
        };

        Ok(
            IpAddressCreation {
                base: ControlCreation {
                    class_name: "SysIPAddress32",
                    flags: flags | WS_CHILD,
                    ex_flags: self.ex_flags,
                    size: self.size,
                    position: self.position,
                    text: String::from_str(""),
                    parent,
                },
                font: self.font,
                enabled: self.enabled,
                focus: self.focus,
            },
        )
    }
}

} // verus!
