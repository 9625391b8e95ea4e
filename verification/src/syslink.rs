//! A hyperlink label renders marked-up text whose anchor tags become
//! clickable links.

use vstd::prelude::*;

verus! {

use vstd::string::StringExecFns;
use crate::base::ControlCreation;
use crate::base::ControlHandle;
use crate::base::Font;
use crate::base::NwgError;
use crate::base::QueryMessage;
use crate::base::WindowOp;
use crate::base::WindowRequest;
use crate::base::WM_USER;
use crate::base::WS_CHILD;
use crate::base::WS_VISIBLE;

// Style bits of the hyperlink label class.
pub const LWS_TRANSPARENT: u32 = 0x0001;
pub const LWS_IGNORERETURN: u32 = 0x0002;
pub const LWS_NOPREFIX: u32 = 0x0004;
pub const LWS_USEVISUALSTYLE: u32 = 0x0008;
pub const LWS_RIGHT: u32 = 0x0020;

/// The message that asks for the extent the text would like; the reply
/// structure carries the answer.
pub const LM_GETIDEALSIZE: u32 = WM_USER + 0x301;

/// Wrapper around one native hyperlink label window.
#[derive(Clone, Copy, PartialEq, Eq, Structural, Debug)]
pub struct SysLink {
    pub handle: ControlHandle,
}

impl Default for SysLink {
    /// A fresh wrapper is unbound.
    fn default() -> (r: Self)
        ensures
            r.handle == ControlHandle::NoHandle,
    {
        SysLink { handle: ControlHandle::NoHandle }
    }
}

impl SysLink {
    /// A builder with the control's default configuration.
    pub fn builder() -> (r: SysLinkBuilder)
        ensures
            r.text@ == ""@,
            r.size == (200i32, 25i32),
            r.position == (0i32, 0i32),
            r.enabled == true,
            r.flags is None,
            r.ex_flags == 0,
            r.font is None,
            r.parent is None,
    {
        SysLinkBuilder {
            text: String::from_str(""),
            size: (200, 25),
            position: (0, 0),
            enabled: true,
            flags: None,
            ex_flags: 0,
            font: None,
            parent: None,
        }
    }

    /// Asks for the window's text, markup included.
    pub fn text(&self) -> (r: WindowRequest)
        requires
            self.handle.is_bound(),
        ensures
            r.hwnd == self.handle.hwnd_spec(),
            r.op == WindowOp::GetText,
    {
        WindowRequest { hwnd: self.handle.checked_hwnd(), op: WindowOp::GetText }
    }

    /// Replaces the window's text; anchor tags in it become links.
    pub fn set_text(&self, text: &str) -> (r: WindowRequest)
        requires
            self.handle.is_bound(),
        ensures
            r.hwnd == self.handle.hwnd_spec(),
            r.op matches WindowOp::SetText(s) && s@ == text@,
    {
        WindowRequest {
            hwnd: self.handle.checked_hwnd(),
            op: WindowOp::SetText(String::from_str(text)),
        }
    }

    /// The query that asks what extent the text would like, given the
    /// window's current width; the reply structure carries the answer.
    pub fn ideal_size(&self, current_width: u32) -> (m: QueryMessage)
        requires
            self.handle.is_bound(),
        ensures
            m.hwnd == self.handle.hwnd_spec(),
            m.msg == LM_GETIDEALSIZE,
            m.wparam == current_width,
    {
        QueryMessage {
            hwnd: self.handle.checked_hwnd(),
            msg: LM_GETIDEALSIZE,
            wparam: current_width as usize,
        }
    }

    /// Asks the platform layer for the control's font handle; interpret the
    /// reply with [`crate::base::decode_font`].
    pub fn font(&self) -> (r: WindowRequest)
        requires
            self.handle.is_bound(),
        ensures
            r.hwnd == self.handle.hwnd_spec(),
            r.op == WindowOp::GetFont,
    {
        WindowRequest { hwnd: self.handle.checked_hwnd(), op: WindowOp::GetFont }
    }

    /// Sets the control's font, or clears it.
    pub fn set_font(&self, font: Option<&Font>) -> (r: WindowRequest)
        requires
            self.handle.is_bound(),
        ensures
            r.hwnd == self.handle.hwnd_spec(),
            r.op == WindowOp::SetFont(
                match font {
                    Some(f) => Some(f.handle),
                    None => None,
                },
            ),
    {
        let h = match font {
            Some(f) => Some(f.handle),
            None => None,
        };
        WindowRequest { hwnd: self.handle.checked_hwnd(), op: WindowOp::SetFont(h) }
    }

    /// Asks whether the window is visible; the reply is nonzero when it is.
    pub fn visible(&self) -> (r: WindowRequest)
        requires
            self.handle.is_bound(),
        ensures
            r.hwnd == self.handle.hwnd_spec(),
            r.op == WindowOp::GetVisible,
    {
        WindowRequest { hwnd: self.handle.checked_hwnd(), op: WindowOp::GetVisible }
    }

    /// Shows or hides the window.
    pub fn set_visible(&self, visible: bool) -> (r: WindowRequest)
        requires
            self.handle.is_bound(),
        ensures
            r.hwnd == self.handle.hwnd_spec(),
            r.op == WindowOp::SetVisible(visible),
    {
        WindowRequest { hwnd: self.handle.checked_hwnd(), op: WindowOp::SetVisible(visible) }
    }

    /// Asks whether the window is enabled; the reply is nonzero when it is.
    pub fn enabled(&self) -> (r: WindowRequest)
        requires
            self.handle.is_bound(),
        ensures
            r.hwnd == self.handle.hwnd_spec(),
            r.op == WindowOp::GetEnabled,
    {
        WindowRequest { hwnd: self.handle.checked_hwnd(), op: WindowOp::GetEnabled }
    }

    /// Enables or disables the window.
    pub fn set_enabled(&self, enabled: bool) -> (r: WindowRequest)
        requires
            self.handle.is_bound(),
        ensures
            r.hwnd == self.handle.hwnd_spec(),
            r.op == WindowOp::SetEnabled(enabled),
    {
        WindowRequest { hwnd: self.handle.checked_hwnd(), op: WindowOp::SetEnabled(enabled) }
    }

    /// Asks for the window's position in its parent.
    pub fn position(&self) -> (r: WindowRequest)
        requires
            self.handle.is_bound(),
        ensures
            r.hwnd == self.handle.hwnd_spec(),
            r.op == WindowOp::GetPosition,
    {
        WindowRequest { hwnd: self.handle.checked_hwnd(), op: WindowOp::GetPosition }
    }

    /// Moves the window inside its parent.
    pub fn set_position(&self, x: i32, y: i32) -> (r: WindowRequest)
        requires
            self.handle.is_bound(),
        ensures
            r.hwnd == self.handle.hwnd_spec(),
            r.op == WindowOp::SetPosition(x, y),
    {
        WindowRequest { hwnd: self.handle.checked_hwnd(), op: WindowOp::SetPosition(x, y) }
    }

    /// Asks for the window's size.
    pub fn size(&self) -> (r: WindowRequest)
        requires
            self.handle.is_bound(),
        ensures
            r.hwnd == self.handle.hwnd_spec(),
            r.op == WindowOp::GetSize,
    {
        WindowRequest { hwnd: self.handle.checked_hwnd(), op: WindowOp::GetSize }
    }

    /// Resizes the window.
    pub fn set_size(&self, w: u32, h: u32) -> (r: WindowRequest)
        requires
            self.handle.is_bound(),
        ensures
            r.hwnd == self.handle.hwnd_spec(),
            r.op == WindowOp::SetSize(w, h),
    {
        WindowRequest { hwnd: self.handle.checked_hwnd(), op: WindowOp::SetSize(w, h) }
    }

    /// The window class this wrapper creates.
    pub fn class_name(&self) -> (r: &'static str)
        ensures
            r@ == "SysLink"@,
    {
        "SysLink"
    }

    /// The style used when the builder is given none.
    pub fn flags(&self) -> (r: u32)
        ensures
            r == WS_VISIBLE,
    {
        WS_VISIBLE
    }

    /// The style bits every hyperlink label carries.
    pub fn forced_flags(&self) -> (r: u32)
        ensures
            r == WS_CHILD,
    {
        WS_CHILD
    }
}

/// Everything the platform layer must do to stand up one hyperlink label:
/// create the window from `base` (whose text is the marked-up label), bind
/// the handle, set `font` (or the process-wide default when it is `None`),
/// and disable the window when `enabled` is false.
#[derive(Debug)]
pub struct SysLinkCreation {
    pub base: ControlCreation,
    pub font: Option<Font>,
    pub enabled: bool,
}

/// Accumulates the configuration of one hyperlink label.
pub struct SysLinkBuilder {
    pub text: String,
    pub size: (i32, i32),
    pub position: (i32, i32),
    pub enabled: bool,
    pub flags: Option<u32>,
    pub ex_flags: u32,
    pub font: Option<Font>,
    pub parent: Option<ControlHandle>,
}

impl SysLinkBuilder {
    pub fn text(self, text: &str) -> (r: SysLinkBuilder)
        ensures
            r.text@ == text@,
            r.size == self.size,
            r.position == self.position,
            r.enabled == self.enabled,
            r.flags == self.flags,
            r.ex_flags == self.ex_flags,
            r.font == self.font,
            r.parent == self.parent,
    {
        SysLinkBuilder { text: String::from_str(text), ..self }
    }

    pub fn size(self, size: (i32, i32)) -> (r: SysLinkBuilder)
        ensures
            r.size == size,
            r.text@ == self.text@,
            r.position == self.position,
            r.enabled == self.enabled,
            r.flags == self.flags,
            r.ex_flags == self.ex_flags,
            r.font == self.font,
            r.parent == self.parent,
    {
        SysLinkBuilder { size, ..self }
    }

    pub fn position(self, position: (i32, i32)) -> (r: SysLinkBuilder)
        ensures
            r.position == position,
            r.text@ == self.text@,
            r.size == self.size,
            r.enabled == self.enabled,
            r.flags == self.flags,
            r.ex_flags == self.ex_flags,
            r.font == self.font,
            r.parent == self.parent,
    {
        SysLinkBuilder { position, ..self }
    }

    pub fn enabled(self, enabled: bool) -> (r: SysLinkBuilder)
        ensures
            r.enabled == enabled,
            r.text@ == self.text@,
            r.size == self.size,
            r.position == self.position,
            r.flags == self.flags,
            r.ex_flags == self.ex_flags,
            r.font == self.font,
            r.parent == self.parent,
    {
        SysLinkBuilder { enabled, ..self }
    }

    pub fn flags(self, flags: u32) -> (r: SysLinkBuilder)
        ensures
            r.flags == Some(flags),
            r.text@ == self.text@,
            r.size == self.size,
            r.position == self.position,
            r.enabled == self.enabled,
            r.ex_flags == self.ex_flags,
            r.font == self.font,
            r.parent == self.parent,
    {
        SysLinkBuilder { flags: Some(flags), ..self }
    }

    pub fn ex_flags(self, ex_flags: u32) -> (r: SysLinkBuilder)
        ensures
            r.ex_flags == ex_flags,
            r.text@ == self.text@,
            r.size == self.size,
            r.position == self.position,
            r.enabled == self.enabled,
            r.flags == self.flags,
            r.font == self.font,
            r.parent == self.parent,
    {
        SysLinkBuilder { ex_flags, ..self }
    }

    pub fn font(self, font: Option<&Font>) -> (r: SysLinkBuilder)
        ensures
            r.font == match font {
                Some(f) => Some(*f),
                None => None::<Font>,
            },
            r.text@ == self.text@,
            r.size == self.size,
            r.position == self.position,
            r.enabled == self.enabled,
            r.flags == self.flags,
            r.ex_flags == self.ex_flags,
            r.parent == self.parent,
    {
        let f = match font {
            Some(f) => Some(*f),
            None => None,
        };
        SysLinkBuilder { font: f, ..self }
    }

    pub fn parent(self, p: ControlHandle) -> (r: SysLinkBuilder)
        ensures
            r.parent == Some(p),
            r.text@ == self.text@,
            r.size == self.size,
            r.position == self.position,
            r.enabled == self.enabled,
            r.flags == self.flags,
            r.ex_flags == self.ex_flags,
            r.font == self.font,
    {
        SysLinkBuilder { parent: Some(p), ..self }
    }

    /// Validates the configuration and assembles the creation request.
    /// Demands a parent: without one the builder errs and leaves `out`
    /// untouched. On success `out` is reset to the unbound state; the
    /// platform layer performs the request and binds the handle. The
    /// marked-up label travels as the window text.
    pub fn build(self, out: &mut SysLink) -> (res: Result<SysLinkCreation, NwgError>)
        ensures
            self.parent is None ==> (res matches Err(e) && e matches
                NwgError::ControlCreationError(m) && m@ == "SysLink"@ && *final(out) == *old(out)),
            self.parent matches Some(p) ==> (res matches Ok(c) && final(out).handle
                == ControlHandle::NoHandle && c.base.class_name@ == "SysLink"@ && c.base.flags
                == (match self.flags {
                Some(f) => f,
                None => WS_VISIBLE,
            } | WS_CHILD) && c.base.ex_flags == self.ex_flags && c.base.size == self.size
                && c.base.position == self.position && c.base.text@ == self.text@
                && c.base.parent == p && c.font == self.font && c.enabled == self.enabled),
    {
        let parent = match self.parent {
            Some(p) => p,
            None => {
                return Err(NwgError::no_parent("SysLink"));
            },
        };

        *out = SysLink { handle: ControlHandle::NoHandle };

        let flags = match self.flags {
            Some(f) => f,
            None => WS_VISIBLE,
        };

        Ok(
            SysLinkCreation {
                base: ControlCreation {
                    class_name: "SysLink",
                    flags: flags | WS_CHILD,
                    ex_flags: self.ex_flags,
                    size: self.size,
                    position: self.position,
                    text: self.text,
                    parent,
                },
                font: self.font,
                enabled: self.enabled,
            },
        )
    }
}

} // verus!
