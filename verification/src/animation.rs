//! An animation control displays silent Audio-Video Interleaved clips. The
//! native control owns playback; this wrapper assembles its creation request
//! and the exact messages that open, play and stop a clip.

use vstd::prelude::*;

verus! {

use vstd::string::StringExecFns;
use crate::base::ControlCreation;
use crate::base::ControlHandle;
use crate::base::ControlMessage;
use crate::base::Font;
use crate::base::NwgError;
use crate::base::TextMessage;
use crate::base::WindowOp;
use crate::base::WindowRequest;
use crate::base::WM_USER;
use crate::base::WS_CHILD;
use crate::base::WS_VISIBLE;
use crate::base::low16;
use crate::base::low_word;

// Style bits of the animation class.
pub const ACS_CENTER: u32 = 0x0001;
pub const ACS_TRANSPARENT: u32 = 0x0002;
pub const ACS_AUTOPLAY: u32 = 0x0004;
pub const ACS_TIMER: u32 = 0x0008;

// Messages understood by the animation class.
pub const ACM_OPENW: u32 = WM_USER + 103;
pub const ACM_PLAY: u32 = WM_USER + 101;
pub const ACM_STOP: u32 = WM_USER + 102;
pub const ACM_ISPLAYING: u32 = WM_USER + 104;

/// Wrapper around one native animation control window.
#[derive(Clone, Copy, PartialEq, Eq, Structural, Debug)]
pub struct Animation {
    pub handle: ControlHandle,
}

impl Default for Animation {
    /// A fresh wrapper is unbound.
    fn default() -> (r: Self)
        ensures
            r.handle == ControlHandle::NoHandle,
    {
        Animation { handle: ControlHandle::NoHandle }
    }
}

impl Animation {
    /// A builder with the control's default configuration.
    pub fn builder() -> (r: AnimationBuilder)
        ensures
            r.size == (100i32, 100i32),
            r.position == (0i32, 0i32),
            r.enabled == true,
            r.flags is None,
            r.ex_flags == 0,
            r.parent is None,
    {
        AnimationBuilder {
            size: (100, 100),
            position: (0, 0),
            enabled: true,
            flags: None,
            ex_flags: 0,
            parent: None,
        }
    }

    /// The message that opens a clip from a file path. The reply is nonzero
    /// on success.
    pub fn open_file(&self, path: &str) -> (m: TextMessage)
        requires
            self.handle.is_bound(),
        ensures
            m.hwnd == self.handle.hwnd_spec(),
            m.msg == ACM_OPENW,
            m.wparam == 0,
            m.text@ == path@,
    {
        TextMessage {
            hwnd: self.handle.checked_hwnd(),
            msg: ACM_OPENW,
            wparam: 0,
            text: String::from_str(path),
        }
    }

    /// The message that opens a clip from a resource of the application's
    /// own executable. The reply is nonzero on success.
    pub fn open_resource(&self, resource_id: u16) -> (m: ControlMessage)
        requires
            self.handle.is_bound(),
        ensures
            m.hwnd == self.handle.hwnd_spec(),
            m.msg == ACM_OPENW,
            m.wparam == 0,
            m.lparam == resource_id as i64,
    {
        ControlMessage {
            hwnd: self.handle.checked_hwnd(),
            msg: ACM_OPENW,
            wparam: 0,
            lparam: resource_id as i64,
        }
    }

    /// The message that opens a clip from a resource of another module,
    /// given that module's handle. The reply is nonzero on success.
    pub fn open_resource_from_module(&self, module_handle: usize, resource_id: u16) -> (m:
        ControlMessage)
        requires
            self.handle.is_bound(),
        ensures
            m.hwnd == self.handle.hwnd_spec(),
            m.msg == ACM_OPENW,
            m.wparam == module_handle,
            m.lparam == resource_id as i64,
    {
        ControlMessage {
            hwnd: self.handle.checked_hwnd(),
            msg: ACM_OPENW,
            wparam: module_handle,
            lparam: resource_id as i64,
        }
    }

    /// The message that closes the open clip and frees its resources.
    pub fn close(&self) -> (m: ControlMessage)
        requires
            self.handle.is_bound(),
        ensures
            m.hwnd == self.handle.hwnd_spec(),
            m.msg == ACM_OPENW,
            m.wparam == 0,
            m.lparam == 0,
    {
        ControlMessage { hwnd: self.handle.checked_hwnd(), msg: ACM_OPENW, wparam: 0, lparam: 0 }
    }

    /// The message that plays frames `from` to `to` (`-1` for the last
    /// frame), `repeat` times (`-1` for ever). The first parameter word packs
    /// the repeat count into its high word and the start frame into its low
    /// word. The reply is nonzero on success.
    pub fn play(&self, from: i32, to: i32, repeat: i32) -> (m: ControlMessage)
        requires
            self.handle.is_bound(),
        ensures
            m.hwnd == self.handle.hwnd_spec(),
            m.msg == ACM_PLAY,
            m.wparam == low16(repeat as int) * 0x10000 + low16(from as int),
            m.lparam == to as i64,
    {
        let wparam: usize = (low_word(repeat) as usize) * 0x10000 + (low_word(from) as usize);
        ControlMessage {
            hwnd: self.handle.checked_hwnd(),
            msg: ACM_PLAY,
            wparam,
            lparam: to as i64,
        }
    }

    /// The message that plays the whole clip once.
    pub fn play_once(&self) -> (m: ControlMessage)
        requires
            self.handle.is_bound(),
        ensures
            m.hwnd == self.handle.hwnd_spec(),
            m.msg == ACM_PLAY,
            m.wparam == 0x10000,
            m.lparam == -1,
    {
        self.play(0, -1, 1)
    }

    /// The message that plays the whole clip in an endless loop.
    pub fn play_loop(&self) -> (m: ControlMessage)
        requires
            self.handle.is_bound(),
        ensures
            m.hwnd == self.handle.hwnd_spec(),
            m.msg == ACM_PLAY,
            m.wparam == 0xffff0000,
            m.lparam == -1,
    {
        self.play(0, -1, -1)
    }

    /// The message that stops playback. The reply is nonzero on success.
    pub fn stop(&self) -> (m: ControlMessage)
        requires
            self.handle.is_bound(),
        ensures
            m.hwnd == self.handle.hwnd_spec(),
            m.msg == ACM_STOP,
            m.wparam == 0,
            m.lparam == 0,
    {
        ControlMessage { hwnd: self.handle.checked_hwnd(), msg: ACM_STOP, wparam: 0, lparam: 0 }
    }

    /// The message that asks whether a clip is playing. The reply is nonzero
    /// when one is.
    pub fn is_playing(&self) -> (m: ControlMessage)
        requires
            self.handle.is_bound(),
        ensures
            m.hwnd == self.handle.hwnd_spec(),
            m.msg == ACM_ISPLAYING,
            m.wparam == 0,
            m.lparam == 0,
    {
        ControlMessage {
            hwnd: self.handle.checked_hwnd(),
            msg: ACM_ISPLAYING,
            wparam: 0,
            lparam: 0,
        }
    }

    /// Asks the platform layer for the control's font handle; interpret the
    /// reply with [`crate::base::decode_font`].
    pub fn font(&self) -> (r: WindowRequest)
        requires
            self.handle.is_bound(),
        ensures
            r.hwnd == self.handle.hwnd_spec(),
            r.op == WindowOp::GetFont,
    {
        WindowRequest { hwnd: self.handle.checked_hwnd(), op: WindowOp::GetFont }
    }

    /// Sets the control's font, or clears it.
    pub fn set_font(&self, font: Option<&Font>) -> (r: WindowRequest)
        requires
            self.handle.is_bound(),
        ensures
            r.hwnd == self.handle.hwnd_spec(),
            r.op == WindowOp::SetFont(
                match font {
                    Some(f) => Some(f.handle),
                    None => None,
                },
            ),
    {
        let h = match font {
            Some(f) => Some(f.handle),
            None => None,
        };
        WindowRequest { hwnd: self.handle.checked_hwnd(), op: WindowOp::SetFont(h) }
    }

    /// Asks whether the window is visible; the reply is nonzero when it is.
    pub fn visible(&self) -> (r: WindowRequest)
        requires
            self.handle.is_bound(),
        ensures
            r.hwnd == self.handle.hwnd_spec(),
            r.op == WindowOp::GetVisible,
    {
        WindowRequest { hwnd: self.handle.checked_hwnd(), op: WindowOp::GetVisible }
    }

    /// Shows or hides the window.
    pub fn set_visible(&self, visible: bool) -> (r: WindowRequest)
        requires
            self.handle.is_bound(),
        ensures
            r.hwnd == self.handle.hwnd_spec(),
            r.op == WindowOp::SetVisible(visible),
    {
        WindowRequest { hwnd: self.handle.checked_hwnd(), op: WindowOp::SetVisible(visible) }
    }

    /// Asks whether the window is enabled; the reply is nonzero when it is.
    pub fn enabled(&self) -> (r: WindowRequest)
        requires
            self.handle.is_bound(),
        ensures
            r.hwnd == self.handle.hwnd_spec(),
            r.op == WindowOp::GetEnabled,
    {
        WindowRequest { hwnd: self.handle.checked_hwnd(), op: WindowOp::GetEnabled }
    }

    /// Enables or disables the window.
    pub fn set_enabled(&self, enabled: bool) -> (r: WindowRequest)
        requires
            self.handle.is_bound(),
        ensures
            r.hwnd == self.handle.hwnd_spec(),
            r.op == WindowOp::SetEnabled(enabled),
    {
        WindowRequest { hwnd: self.handle.checked_hwnd(), op: WindowOp::SetEnabled(enabled) }
    }

    /// Asks for the window's position in its parent.
    pub fn position(&self) -> (r: WindowRequest)
        requires
            self.handle.is_bound(),
        ensures
            r.hwnd == self.handle.hwnd_spec(),
            r.op == WindowOp::GetPosition,
    {
        WindowRequest { hwnd: self.handle.checked_hwnd(), op: WindowOp::GetPosition }
    }

    /// Moves the window inside its parent.
    pub fn set_position(&self, x: i32, y: i32) -> (r: WindowRequest)
        requires
            self.handle.is_bound(),
        ensures
            r.hwnd == self.handle.hwnd_spec(),
            r.op == WindowOp::SetPosition(x, y),
    {
        WindowRequest { hwnd: self.handle.checked_hwnd(), op: WindowOp::SetPosition(x, y) }
    }

    /// Asks for the window's size.
    pub fn size(&self) -> (r: WindowRequest)
        requires
            self.handle.is_bound(),
        ensures
            r.hwnd == self.handle.hwnd_spec(),
            r.op == WindowOp::GetSize,
    {
        WindowRequest { hwnd: self.handle.checked_hwnd(), op: WindowOp::GetSize }
    }

    /// Resizes the window.
    pub fn set_size(&self, w: u32, h: u32) -> (r: WindowRequest)
        requires
            self.handle.is_bound(),
        ensures
            r.hwnd == self.handle.hwnd_spec(),
            r.op == WindowOp::SetSize(w, h),
    {
        WindowRequest { hwnd: self.handle.checked_hwnd(), op: WindowOp::SetSize(w, h) }
    }

    /// The window class this wrapper creates.
    pub fn class_name(&self) -> (r: &'static str)
        ensures
            r@ == "SysAnimate32"@,
    {
        "SysAnimate32"
    }

    /// The style used when the builder is given none.
    pub fn flags(&self) -> (r: u32)
        ensures
            r == WS_VISIBLE,
    {
        WS_VISIBLE
    }

    /// The style bits every animation control carries.
    pub fn forced_flags(&self) -> (r: u32)
        ensures
            r == WS_CHILD,
    {
        WS_CHILD
    }
}

/// Everything the platform layer must do to stand up one animation control:
/// create the window from `base`, bind the handle, and disable the window
/// when `enabled` is false.
#[derive(Debug)]
pub struct AnimationCreation {
    pub base: ControlCreation,
    pub enabled: bool,
}

/// Accumulates the configuration of one animation control.
pub struct AnimationBuilder {
    pub size: (i32, i32),
    pub position: (i32, i32),
    pub enabled: bool,
    pub flags: Option<u32>,
    pub ex_flags: u32,
    pub parent: Option<ControlHandle>,
}

impl AnimationBuilder {
    pub fn size(self, size: (i32, i32)) -> (r: AnimationBuilder)
        ensures
            r == (AnimationBuilder { size, ..self }),
    {
        AnimationBuilder { size, ..self }
    }

    pub fn position(self, position: (i32, i32)) -> (r: AnimationBuilder)
        ensures
            r == (AnimationBuilder { position, ..self }),
    {
        AnimationBuilder { position, ..self }
    }

    pub fn enabled(self, enabled: bool) -> (r: AnimationBuilder)
        ensures
            r == (AnimationBuilder { enabled, ..self }),
    {
        AnimationBuilder { enabled, ..self }
    }

    pub fn flags(self, flags: u32) -> (r: AnimationBuilder)
        ensures
            r == (AnimationBuilder { flags: Some(flags), ..self }),
    {
        AnimationBuilder { flags: Some(flags), ..self }
    }

    pub fn ex_flags(self, ex_flags: u32) -> (r: AnimationBuilder)
        ensures
            r == (AnimationBuilder { ex_flags, ..self }),
    {
        AnimationBuilder { ex_flags, ..self }
    }

    pub fn parent(self, p: ControlHandle) -> (r: AnimationBuilder)
        ensures
            r == (AnimationBuilder { parent: Some(p), ..self }),
    {
        AnimationBuilder { parent: Some(p), ..self }
    }

    /// Validates the configuration and assembles the creation request.
    /// Demands a parent: without one the builder errs and leaves `out`
    /// untouched. On success `out` is reset to the unbound state; the
    /// platform layer performs the request and binds the handle.
    pub fn build(self, out: &mut Animation) -> (res: Result<AnimationCreation, NwgError>)
        ensures
            self.parent is None ==> (res matches Err(e) && e matches
                NwgError::ControlCreationError(m) && m@ == "Animation"@ && *final(out) == *old(
                out,
            )),
            self.parent matches Some(p) ==> (res matches Ok(c) && final(out).handle
                == ControlHandle::NoHandle && c.base.class_name@ == "SysAnimate32"@
                && c.base.flags == (match self.flags {
                Some(f) => f,
                None => WS_VISIBLE,
            } | WS_CHILD) && c.base.ex_flags == self.ex_flags && c.base.size == self.size
                && c.base.position == self.position && c.base.text@ == ""@ && c.base.parent == p
                && c.enabled == self.enabled),
    {
        let parent = match self.parent {
            Some(p) => p,
            None => {
                return Err(NwgError::no_parent("Animation"));
            },
        };

        *out = Animation { handle: ControlHandle::NoHandle };

        let flags = match self.flags {
            Some(f) => f,
            None => WS_VISIBLE,
        };

        Ok(
            AnimationCreation {
                base: ControlCreation {
                    class_name: "SysAnimate32",
                    flags: flags | WS_CHILD,
                    ex_flags: self.ex_flags,
                    size: self.size,
                    position: self.position,
                    text: String::from_str(""),
                    parent,
                },
                enabled: self.enabled,
            },
        )
    }
}

} // verus!
