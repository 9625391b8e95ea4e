//! A pager is a scrollable container for one child control. It scrolls the
//! child when the child is larger than the pager's visible area.

use vstd::prelude::*;

verus! {

use vstd::string::StringExecFns;
use crate::base::ControlCreation;
use crate::base::ControlHandle;
use crate::base::ControlMessage;
use crate::base::Font;
use crate::base::HandleMessage;
use crate::base::NwgError;
use crate::base::WindowOp;
use crate::base::WindowRequest;
use crate::base::WS_CHILD;
use crate::base::WS_VISIBLE;

// Style bits of the pager class.
pub const PGS_VERT: u32 = 0x0000;
pub const PGS_HORZ: u32 = 0x0001;
pub const PGS_AUTOSCROLL: u32 = 0x0002;
pub const PGS_DRAGNDROP: u32 = 0x0004;

// Messages understood by the pager class.
pub const PGM_FIRST: u32 = 0x1400;
pub const PGM_SETCHILD: u32 = PGM_FIRST + 1;
pub const PGM_RECALCSIZE: u32 = PGM_FIRST + 2;
pub const PGM_FORWARDMOUSE: u32 = PGM_FIRST + 3;
pub const PGM_SETBKCOLOR: u32 = PGM_FIRST + 4;
pub const PGM_GETBKCOLOR: u32 = PGM_FIRST + 5;
pub const PGM_SETBORDER: u32 = PGM_FIRST + 6;
pub const PGM_GETBORDER: u32 = PGM_FIRST + 7;
pub const PGM_SETPOS: u32 = PGM_FIRST + 8;
pub const PGM_GETPOS: u32 = PGM_FIRST + 9;
pub const PGM_SETBUTTONSIZE: u32 = PGM_FIRST + 10;
pub const PGM_GETBUTTONSIZE: u32 = PGM_FIRST + 11;
pub const PGM_GETBUTTONSTATE: u32 = PGM_FIRST + 12;

// Button state values the pager reports.
pub const PGF_INVISIBLE: u32 = 0;
pub const PGF_NORMAL: u32 = 1;
pub const PGF_GRAYED: u32 = 2;
pub const PGF_DEPRESSED: u32 = 4;
pub const PGF_HOT: u32 = 8;

/// Which of the pager's two scroll buttons is meant.
#[derive(Debug, Clone, Copy, PartialEq, Eq, Structural)]
pub enum PagerButton {
    /// The top button of a vertical pager, the left one of a horizontal.
    TopLeft,
    /// The bottom button of a vertical pager, the right one of a horizontal.
    BottomRight,
}

/// The state the pager reports for one of its scroll buttons.
#[derive(Debug, Clone, Copy, PartialEq, Eq, Structural)]
pub enum PagerButtonState {
    Invisible,
    Normal,
    Grayed,
    Depressed,
    Hot,
}

impl PagerButtonState {
    /// Reads a button state out of the pager's reply; a value the pager
    /// never documents reads as invisible.
    pub fn from_raw(value: u32) -> (r: Self)
        ensures
            r == if value == PGF_INVISIBLE {
                PagerButtonState::Invisible
            } else if value == PGF_NORMAL {
                PagerButtonState::Normal
            } else if value == PGF_GRAYED {
                PagerButtonState::Grayed
            } else if value == PGF_DEPRESSED {
                PagerButtonState::Depressed
            } else if value == PGF_HOT {
                PagerButtonState::Hot
            } else {
                PagerButtonState::Invisible
            },
    {
        if value == PGF_INVISIBLE {
            PagerButtonState::Invisible
        } else if value == PGF_NORMAL {
            PagerButtonState::Normal
        } else if value == PGF_GRAYED {
            PagerButtonState::Grayed
        } else if value == PGF_DEPRESSED {
            PagerButtonState::Depressed
        } else if value == PGF_HOT {
            PagerButtonState::Hot
        } else {
            PagerButtonState::Invisible
        }
    }
}

/// How a colour packs into the word the pager exchanges: red in the low
/// byte, green and blue in the bytes above it.
pub open spec fn color_word(red: u8, green: u8, blue: u8) -> int {
    red + green * 0x100 + blue * 0x10000
}

/// Packing a colour and unpacking the word again yields the same three
/// channels.
pub proof fn lemma_color_word_round_trip(red: u8, green: u8, blue: u8)
    ensures
        color_word(red, green, blue) % 0x100 == red,
        (color_word(red, green, blue) / 0x100) % 0x100 == green,
        (color_word(red, green, blue) / 0x10000) % 0x100 == blue,
{
    let w = color_word(red, green, blue);
    assert(w % 0x100 == red && (w / 0x100) % 0x100 == green && (w / 0x10000) % 0x100 == blue)
        by (nonlinear_arith)
        requires
            w == red + green * 0x100 + blue * 0x10000,
            0 <= red < 0x100,
            0 <= green < 0x100,
            0 <= blue < 0x100,
    ;
}

/// Wrapper around one native pager control window.
#[derive(Clone, Copy, PartialEq, Eq, Structural, Debug)]
pub struct Pager {
    pub handle: ControlHandle,
}

impl Default for Pager {
    /// A fresh wrapper is unbound.
    fn default() -> (r: Self)
        ensures
            r.handle == ControlHandle::NoHandle,
    {
        Pager { handle: ControlHandle::NoHandle }
    }
}

impl Pager {
    /// A builder with the control's default configuration.
    pub fn builder() -> (r: PagerBuilder)
        ensures
            r.size == (200i32, 30i32),
            r.position == (0i32, 0i32),
            r.enabled == true,
            r.flags is None,
            r.ex_flags == 0,
            r.parent is None,
    {
        PagerBuilder {
            size: (200, 30),
            position: (0, 0),
            enabled: true,
            flags: None,
            ex_flags: 0,
            parent: None,
        }
    }

    /// The message that hands the pager its child control, or detaches the
    /// child when none is given or the given handle is unbound.
    pub fn set_child(&self, child: Option<ControlHandle>) -> (m: HandleMessage)
        requires
            self.handle.is_bound(),
        ensures
            m.hwnd == self.handle.hwnd_spec(),
            m.msg == PGM_SETCHILD,
            m.wparam == 0,
            m.handle == match child {
                Some(c) => if c.is_bound() {
                    c.hwnd_spec()
                } else {
                    0
                },
                None => 0,
            },
    {
        let child_hwnd: usize = match child {
            Some(c) => match c.hwnd() {
                Some(h) => h,
                None => 0,
            },
            None => 0,
        };
        HandleMessage {
            hwnd: self.handle.checked_hwnd(),
            msg: PGM_SETCHILD,
            wparam: 0,
            handle: child_hwnd,
        }
    }

    /// The message that makes the pager measure its child again.
    pub fn recalc_size(&self) -> (m: ControlMessage)
        requires
            self.handle.is_bound(),
        ensures
            m.hwnd == self.handle.hwnd_spec(),
            m.msg == PGM_RECALCSIZE,
            m.wparam == 0,
            m.lparam == 0,
    {
        ControlMessage {
            hwnd: self.handle.checked_hwnd(),
            msg: PGM_RECALCSIZE,
            wparam: 0,
            lparam: 0,
        }
    }

    /// The message that turns mouse forwarding to the child on or off.
    pub fn set_forward_mouse(&self, forward: bool) -> (m: ControlMessage)
        requires
            self.handle.is_bound(),
        ensures
            m.hwnd == self.handle.hwnd_spec(),
            m.msg == PGM_FORWARDMOUSE,
            m.wparam == (if forward {
                1int
            } else {
                0int
            }),
            m.lparam == 0,
    {
        ControlMessage {
            hwnd: self.handle.checked_hwnd(),
            msg: PGM_FORWARDMOUSE,
            wparam: if forward {
                1
            } else {
                0
            },
            lparam: 0,
        }
    }

    /// The message that asks for the scroll position; interpret the reply
    /// with [`crate::base::reply_as_i32`].
    pub fn position(&self) -> (m: ControlMessage)
        requires
            self.handle.is_bound(),
        ensures
            m.hwnd == self.handle.hwnd_spec(),
            m.msg == PGM_GETPOS,
            m.wparam == 0,
            m.lparam == 0,
    {
        ControlMessage { hwnd: self.handle.checked_hwnd(), msg: PGM_GETPOS, wparam: 0, lparam: 0 }
    }

    /// The message that scrolls to the given position.
    pub fn set_position(&self, pos: i32) -> (m: ControlMessage)
        requires
            self.handle.is_bound(),
        ensures
            m.hwnd == self.handle.hwnd_spec(),
            m.msg == PGM_SETPOS,
            m.wparam == 0,
            m.lparam == pos as i64,
    {
        ControlMessage {
            hwnd: self.handle.checked_hwnd(),
            msg: PGM_SETPOS,
            wparam: 0,
            lparam: pos as i64,
        }
    }

    /// The message that asks for the scroll button extent; interpret the
    /// reply with [`crate::base::reply_as_u32`].
    pub fn button_size(&self) -> (m: ControlMessage)
        requires
            self.handle.is_bound(),
        ensures
            m.hwnd == self.handle.hwnd_spec(),
            m.msg == PGM_GETBUTTONSIZE,
            m.wparam == 0,
            m.lparam == 0,
    {
        ControlMessage {
            hwnd: self.handle.checked_hwnd(),
            msg: PGM_GETBUTTONSIZE,
            wparam: 0,
            lparam: 0,
        }
    }

    /// The message that sets the scroll button extent.
    pub fn set_button_size(&self, size: u32) -> (m: ControlMessage)
        requires
            self.handle.is_bound(),
        ensures
            m.hwnd == self.handle.hwnd_spec(),
            m.msg == PGM_SETBUTTONSIZE,
            m.wparam == 0,
            m.lparam == size as i64,
    {
        ControlMessage {
            hwnd: self.handle.checked_hwnd(),
            msg: PGM_SETBUTTONSIZE,
            wparam: 0,
            lparam: size as i64,
        }
    }

    /// The message that asks for the border extent; interpret the reply
    /// with [`crate::base::reply_as_u32`].
    pub fn border(&self) -> (m: ControlMessage)
        requires
            self.handle.is_bound(),
        ensures
            m.hwnd == self.handle.hwnd_spec(),
            m.msg == PGM_GETBORDER,
            m.wparam == 0,
            m.lparam == 0,
    {
        ControlMessage {
            hwnd: self.handle.checked_hwnd(),
            msg: PGM_GETBORDER,
            wparam: 0,
            lparam: 0,
        }
    }

    /// The message that sets the border extent.
    pub fn set_border(&self, border: u32) -> (m: ControlMessage)
        requires
            self.handle.is_bound(),
        ensures
            m.hwnd == self.handle.hwnd_spec(),
            m.msg == PGM_SETBORDER,
            m.wparam == 0,
            m.lparam == border as i64,
    {
        ControlMessage {
            hwnd: self.handle.checked_hwnd(),
            msg: PGM_SETBORDER,
            wparam: 0,
            lparam: border as i64,
        }
    }

    /// The message that asks for the background colour word; hand its reply
    /// to [`Pager::background_color_from_reply`].
    pub fn background_color(&self) -> (m: ControlMessage)
        requires
            self.handle.is_bound(),
        ensures
            m.hwnd == self.handle.hwnd_spec(),
            m.msg == PGM_GETBKCOLOR,
            m.wparam == 0,
            m.lparam == 0,
    {
        ControlMessage {
            hwnd: self.handle.checked_hwnd(),
            msg: PGM_GETBKCOLOR,
            wparam: 0,
            lparam: 0,
        }
    }

    /// Reads the red, green and blue channels out of a colour word, as
    /// [`color_word`] packs them.
    pub fn background_color_from_reply(color: u32) -> (r: [u8; 3])
        ensures
            r == [(color % 0x100) as u8, ((color / 0x100) % 0x100) as u8, ((color / 0x10000)
                % 0x100) as u8],
    {
        [(color % 0x100) as u8, ((color / 0x100) % 0x100) as u8, ((color / 0x10000) % 0x100) as u8]
    }

    /// The message that sets the background colour, packed as
    /// [`color_word`] says.
    pub fn set_background_color(&self, color: [u8; 3]) -> (m: ControlMessage)
        requires
            self.handle.is_bound(),
        ensures
            m.hwnd == self.handle.hwnd_spec(),
            m.msg == PGM_SETBKCOLOR,
            m.wparam == 0,
            m.lparam == color_word(color[0], color[1], color[2]),
    {
        let packed: i64 = (color[0] as i64) + (color[1] as i64) * 0x100 + (color[2] as i64)
            * 0x10000;
        ControlMessage {
            hwnd: self.handle.checked_hwnd(),
            msg: PGM_SETBKCOLOR,
            wparam: 0,
            lparam: packed,
        }
    }

    /// The message that asks for the state of one scroll button; read the
    /// reply with [`PagerButtonState::from_raw`].
    pub fn button_state(&self, button: PagerButton) -> (m: ControlMessage)
        requires
            self.handle.is_bound(),
        ensures
            m.hwnd == self.handle.hwnd_spec(),
            m.msg == PGM_GETBUTTONSTATE,
            m.wparam == 0,
            m.lparam == match button {
                PagerButton::TopLeft => 0int,
                PagerButton::BottomRight => 1int,
            },
    {
        let btn: i64 = match button {
            PagerButton::TopLeft => 0,
            PagerButton::BottomRight => 1,
        };
        ControlMessage {
            hwnd: self.handle.checked_hwnd(),
            msg: PGM_GETBUTTONSTATE,
            wparam: 0,
            lparam: btn,
        }
    }

    /// Asks whether the window is visible; the reply is nonzero when it is.
    pub fn visible(&self) -> (r: WindowRequest)
        requires
            self.handle.is_bound(),
        ensures
            r.hwnd == self.handle.hwnd_spec(),
            r.op == WindowOp::GetVisible,
    {
        WindowRequest { hwnd: self.handle.checked_hwnd(), op: WindowOp::GetVisible }
    }

    /// Shows or hides the window.
    pub fn set_visible(&self, visible: bool) -> (r: WindowRequest)
        requires
            self.handle.is_bound(),
        ensures
            r.hwnd == self.handle.hwnd_spec(),
            r.op == WindowOp::SetVisible(visible),
    {
        WindowRequest { hwnd: self.handle.checked_hwnd(), op: WindowOp::SetVisible(visible) }
    }

    /// Asks whether the window is enabled; the reply is nonzero when it is.
    pub fn enabled(&self) -> (r: WindowRequest)
        requires
            self.handle.is_bound(),
        ensures
            r.hwnd == self.handle.hwnd_spec(),
            r.op == WindowOp::GetEnabled,
    {
        WindowRequest { hwnd: self.handle.checked_hwnd(), op: WindowOp::GetEnabled }
    }

    /// Enables or disables the window.
    pub fn set_enabled(&self, enabled: bool) -> (r: WindowRequest)
        requires
            self.handle.is_bound(),
        ensures
            r.hwnd == self.handle.hwnd_spec(),
            r.op == WindowOp::SetEnabled(enabled),
    {
        WindowRequest { hwnd: self.handle.checked_hwnd(), op: WindowOp::SetEnabled(enabled) }
    }

    /// Asks for the window's position in its parent.
    pub fn window_position(&self) -> (r: WindowRequest)
        requires
            self.handle.is_bound(),
        ensures
            r.hwnd == self.handle.hwnd_spec(),
            r.op == WindowOp::GetPosition,
    {
        WindowRequest { hwnd: self.handle.checked_hwnd(), op: WindowOp::GetPosition }
    }

    /// Moves the window inside its parent.
    pub fn set_window_position(&self, x: i32, y: i32) -> (r: WindowRequest)
        requires
            self.handle.is_bound(),
        ensures
            r.hwnd == self.handle.hwnd_spec(),
            r.op == WindowOp::SetPosition(x, y),
    {
        WindowRequest { hwnd: self.handle.checked_hwnd(), op: WindowOp::SetPosition(x, y) }
    }

    /// Asks for the window's size.
    pub fn size(&self) -> (r: WindowRequest)
        requires
            self.handle.is_bound(),
        ensures
            r.hwnd == self.handle.hwnd_spec(),
            r.op == WindowOp::GetSize,
    {
        WindowRequest { hwnd: self.handle.checked_hwnd(), op: WindowOp::GetSize }
    }

    /// Resizes the window.
    pub fn set_size(&self, w: u32, h: u32) -> (r: WindowRequest)
        requires
            self.handle.is_bound(),
        ensures
            r.hwnd == self.handle.hwnd_spec(),
            r.op == WindowOp::SetSize(w, h),
    {
        WindowRequest { hwnd: self.handle.checked_hwnd(), op: WindowOp::SetSize(w, h) }
    }

    /// Gives the control the keyboard focus.
    pub fn set_focus(&self) -> (r: WindowRequest)
        requires
            self.handle.is_bound(),
        ensures
            r.hwnd == self.handle.hwnd_spec(),
            r.op == WindowOp::SetFocus,
    {
        WindowRequest { hwnd: self.handle.checked_hwnd(), op: WindowOp::SetFocus }
    }

    /// Asks the platform layer for the control's font handle; interpret the
    /// reply with [`crate::base::decode_font`].
    pub fn font(&self) -> (r: WindowRequest)
        requires
            self.handle.is_bound(),
        ensures
            r.hwnd == self.handle.hwnd_spec(),
            r.op == WindowOp::GetFont,
    {
        WindowRequest { hwnd: self.handle.checked_hwnd(), op: WindowOp::GetFont }
    }

    /// Sets the control's font, or clears it.
    pub fn set_font(&self, font: Option<&Font>) -> (r: WindowRequest)
        requires
            self.handle.is_bound(),
        ensures
            r.hwnd == self.handle.hwnd_spec(),
            r.op == WindowOp::SetFont(
                match font {
                    Some(f) => Some(f.handle),
                    None => None,
                },
            ),
    {
        let h = match font {
            Some(f) => Some(f.handle),
            None => None,
        };
        WindowRequest { hwnd: self.handle.checked_hwnd(), op: WindowOp::SetFont(h) }
    }

    /// The window class this wrapper creates.
    pub fn class_name(&self) -> (r: &'static str)
        ensures
            r@ == "SysPager"@,
    {
        "SysPager"
    }

    /// The style used when the builder is given none.
    pub fn flags(&self) -> (r: u32)
        ensures
            r == WS_VISIBLE,
    {
        WS_VISIBLE
    }

    /// The style bits every pager control carries.
    pub fn forced_flags(&self) -> (r: u32)
        ensures
            r == WS_CHILD,
    {
        WS_CHILD
    }
}

/// Everything the platform layer must do to stand up one pager control:
/// create the window from `base`, bind the handle, and disable the window
/// when `enabled` is false.
#[derive(Debug)]
pub struct PagerCreation {
    pub base: ControlCreation,
    pub enabled: bool,
}

/// Accumulates the configuration of one pager control.
pub struct PagerBuilder {
    pub size: (i32, i32),
    pub position: (i32, i32),
    pub enabled: bool,
    pub flags: Option<u32>,
    pub ex_flags: u32,
    pub parent: Option<ControlHandle>,
}

impl PagerBuilder {
    pub fn size(self, size: (i32, i32)) -> (r: PagerBuilder)
        ensures
            r == (PagerBuilder { size, ..self }),
    {
        PagerBuilder { size, ..self }
    }

    pub fn position(self, position: (i32, i32)) -> (r: PagerBuilder)
        ensures
            r == (PagerBuilder { position, ..self }),
    {
        PagerBuilder { position, ..self }
    }

    pub fn enabled(self, enabled: bool) -> (r: PagerBuilder)
        ensures
            r == (PagerBuilder { enabled, ..self }),
    {
        PagerBuilder { enabled, ..self }
    }

    pub fn flags(self, flags: u32) -> (r: PagerBuilder)
        ensures
            r == (PagerBuilder { flags: Some(flags), ..self }),
    {
        PagerBuilder { flags: Some(flags), ..self }
    }

    pub fn ex_flags(self, ex_flags: u32) -> (r: PagerBuilder)
        ensures
            r == (PagerBuilder { ex_flags, ..self }),
    {
        PagerBuilder { ex_flags, ..self }
    }

    pub fn parent(self, p: ControlHandle) -> (r: PagerBuilder)
        ensures
            r == (PagerBuilder { parent: Some(p), ..self }),
    {
        PagerBuilder { parent: Some(p), ..self }
    }

    /// Validates the configuration and assembles the creation request.
    /// Demands a parent: without one the builder errs and leaves `out`
    /// untouched. On success `out` is reset to the unbound state; the
    /// platform layer performs the request and binds the handle.
    pub fn build(self, out: &mut Pager) -> (res: Result<PagerCreation, NwgError>)
        ensures
            self.parent is None ==> (res matches Err(e) && e matches
                NwgError::ControlCreationError(m) && m@ == "Pager"@ && *final(out) == *old(out)),
            self.parent matches Some(p) ==> (res matches Ok(c) && final(out).handle
                == ControlHandle::NoHandle && c.base.class_name@ == "SysPager"@ && c.base.flags
                == (match self.flags {
                Some(f) => f,
                None => WS_VISIBLE,
            } | WS_CHILD) && c.base.ex_flags == self.ex_flags && c.base.size == self.size
                && c.base.position == self.position && c.base.text@ == ""@ && c.base.parent == p
                && c.enabled == self.enabled),
    {
        let parent = match self.parent {
            Some(p) => p,
            None => {
                return Err(NwgError::no_parent("Pager"));
            },
        };

        *out = Pager { handle: ControlHandle::NoHandle };

        let flags = match self.flags {
            Some(f) => f,
            None => WS_VISIBLE,
        };

        Ok(
            PagerCreation {
                base: ControlCreation {
                    class_name: "SysPager",
                    flags: flags | WS_CHILD,
                    ex_flags: self.ex_flags,
                    size: self.size,
                    position: self.position,
                    text: String::from_str(""),
                    parent,
                },
                enabled: self.enabled,
            },
        )
    }
}

} // verus!
