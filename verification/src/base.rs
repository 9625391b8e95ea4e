//! Shared ground for every control wrapper: the native handle and its
//! lifecycle, the error type, the request values handed to the platform
//! layer, and the window style bits common to all controls.

use vstd::prelude::*;

verus! {

use vstd::string::StringExecFns;

// Window style bits shared by every control, as the platform SDK defines them.
pub const WS_VISIBLE: u32 = 0x1000_0000;
pub const WS_DISABLED: u32 = 0x0800_0000;
pub const WS_TABSTOP: u32 = 0x0001_0000;
pub const WS_CHILD: u32 = 0x4000_0000;
pub const WS_BORDER: u32 = 0x0080_0000;
pub const WS_VSCROLL: u32 = 0x0020_0000;
pub const WS_CLIPSIBLINGS: u32 = 0x0400_0000;
pub const WS_CLIPCHILDREN: u32 = 0x0200_0000;

/// First message number available to a window class for its own messages.
pub const WM_USER: u32 = 0x0400;
/// Sent by the system to a window whose size has changed.
pub const WM_SIZE: u32 = 0x0005;

// Common control styles shared by the toolbar and rebar classes.
pub const CCS_TOP: u32 = 0x0001;
pub const CCS_NORESIZE: u32 = 0x0004;
pub const CCS_NOPARENTALIGN: u32 = 0x0008;
pub const CCS_ADJUSTABLE: u32 = 0x0020;
pub const CCS_NODIVIDER: u32 = 0x0040;
pub const CCS_VERT: u32 = 0x0080;

/// Reference to a native window owned by the operating system.
///
/// A wrapper starts out unbound. The platform layer creates the native
/// window from a [`ControlCreation`] request and binds the handle; every
/// operation other than construction demands the bound state.
#[derive(Clone, Copy, PartialEq, Eq, Structural, Debug)]
pub enum ControlHandle {
    /// Not yet bound to a native window, or already destroyed.
    NoHandle,
    /// Bound to a native window, by its raw handle value.
    Hwnd(usize),
}

impl ControlHandle {
    /// Whether the handle is bound to a native window.
    pub open spec fn is_bound(self) -> bool {
        self is Hwnd
    }

    /// The raw handle value of a bound handle.
    pub open spec fn hwnd_spec(self) -> usize
        recommends
            self.is_bound(),
    {
        self->0
    }

    /// True when the handle is still unbound.
    pub fn blank(&self) -> (r: bool)
        ensures
            r == !self.is_bound(),
    {
        match self {
            ControlHandle::NoHandle => true,
            ControlHandle::Hwnd(_) => false,
        }
    }

    /// The raw handle value, if bound.
    pub fn hwnd(&self) -> (r: Option<usize>)
        ensures
            r == if self.is_bound() {
                Some(self.hwnd_spec())
            } else {
                None::<usize>
            },
    {
        match self {
            ControlHandle::NoHandle => None,
            ControlHandle::Hwnd(h) => Some(*h),
        }
    }

    /// The raw handle of a bound handle; every operation other than
    /// construction goes through this and therefore demands the bound state.
    pub fn checked_hwnd(&self) -> (r: usize)
        requires
            self.is_bound(),
        ensures
            r == self.hwnd_spec(),
    {
        match self {
            ControlHandle::Hwnd(h) => *h,
            ControlHandle::NoHandle => vstd::pervasive::unreached(),
        }
    }

    /// Gives up the native window, at most once: returns the handle value the
    /// platform layer must destroy, and leaves this handle unbound, so a
    /// second call returns `None` and nothing is released twice.
    pub fn destroy(&mut self) -> (r: Option<usize>)
        ensures
            !final(self).is_bound(),
            r == if old(self).is_bound() {
                Some(old(self).hwnd_spec())
            } else {
                None::<usize>
            },
    {
        let prev = self.hwnd();
        *self = ControlHandle::NoHandle;
        prev
    }
}

impl Default for ControlHandle {
    /// A fresh handle is unbound.
    fn default() -> (r: Self)
        ensures
            r == ControlHandle::NoHandle,
    {
        ControlHandle::NoHandle
    }
}

/// Error surfaced by the builders.
#[derive(Clone, Debug)]
pub enum NwgError {
    /// A control could not be created; holds the name of the control type.
    ControlCreationError(String),
}

impl NwgError {
    /// The error a builder returns when no parent was supplied.
    pub fn no_parent(name: &str) -> (r: NwgError)
        ensures
            r matches NwgError::ControlCreationError(m) && m@ == name@,
    {
        NwgError::ControlCreationError(String::from_str(name))
    }
}

/// One message send to a native window whose parameters are plain scalars:
/// the target handle, the message number, and the two parameter words.
/// `lparam` holds the signed value of the second word; the platform's signed
/// parameter word is 64 bits wide on the supported targets.
#[derive(Clone, Copy, PartialEq, Eq, Structural, Debug)]
pub struct ControlMessage {
    pub hwnd: usize,
    pub msg: u32,
    pub wparam: usize,
    pub lparam: i64,
}

/// A query message whose reply the platform layer obtains by passing the
/// address of an out-value as the second parameter word.
#[derive(Clone, Copy, PartialEq, Eq, Structural, Debug)]
pub struct QueryMessage {
    pub hwnd: usize,
    pub msg: u32,
    pub wparam: usize,
}

/// One message send whose second parameter word carries another native
/// handle (a window, an image list), or null when `handle` is zero.
#[derive(Clone, Copy, PartialEq, Eq, Structural, Debug)]
pub struct HandleMessage {
    pub hwnd: usize,
    pub msg: u32,
    pub wparam: usize,
    pub handle: usize,
}

/// One message send whose second parameter points at text: the platform
/// layer encodes `text` as a wide string and passes its address.
#[derive(Clone, Debug)]
pub struct TextMessage {
    pub hwnd: usize,
    pub msg: u32,
    pub wparam: usize,
    pub text: String,
}

/// A call into the generic window API, aimed at one window.
#[derive(Clone, Debug)]
pub struct WindowRequest {
    pub hwnd: usize,
    pub op: WindowOp,
}

/// The generic window operations every control shares: pure pass-throughs
/// to the platform's window functions.
#[derive(Clone, Debug)]
pub enum WindowOp {
    GetFont,
    SetFont(Option<usize>),
    GetVisible,
    SetVisible(bool),
    GetEnabled,
    SetEnabled(bool),
    GetPosition,
    SetPosition(i32, i32),
    GetSize,
    SetSize(u32, u32),
    GetFocus,
    SetFocus,
    GetText,
    SetText(String),
}

/// A font, by the raw handle of the native font object.
#[derive(Clone, Copy, PartialEq, Eq, Structural, Debug)]
pub struct Font {
    pub handle: usize,
}

/// Interprets a boolean reply from the native API: any nonzero value is true.
pub fn reply_nonzero(reply: isize) -> (r: bool)
    ensures
        r == (reply != 0),
{
    reply != 0
}

/// Interprets a font handle returned by the native API: a null handle means
/// the control has no font of its own.
pub fn decode_font(raw: usize) -> (r: Option<Font>)
    ensures
        r == if raw == 0 {
            None::<Font>
        } else {
            Some(Font { handle: raw })
        },
{
    if raw == 0 {
        None
    } else {
        Some(Font { handle: raw })
    }
}

/// Interprets a window handle returned by the native API: null means no
/// window.
pub fn decode_window(raw: usize) -> (r: Option<usize>)
    ensures
        r == if raw == 0 {
            None::<usize>
        } else {
            Some(raw)
        },
{
    if raw == 0 {
        None
    } else {
        Some(raw)
    }
}

/// Narrows a reply that the native API documents as an unsigned count or
/// extent.
pub fn reply_as_u32(reply: isize) -> (r: u32)
    requires
        0 <= reply <= u32::MAX,
    ensures
        r == reply,
{
    reply as u32
}

/// Narrows a reply that the native API documents as a signed position.
pub fn reply_as_i32(reply: isize) -> (r: i32)
    requires
        i32::MIN <= reply <= i32::MAX,
    ensures
        r == reply,
{
    reply as i32
}

/// The low 16 bits of the two's-complement encoding of `x`, the value the
/// platform's word-packing macros place in half of a parameter word.
pub open spec fn low16(x: int) -> int {
    if x >= 0 {
        x % 0x10000
    } else {
        0xffff - ((-x - 1) % 0x10000)
    }
}

/// Extracts the low word of a signed value, as the platform packs it.
pub fn low_word(x: i32) -> (r: u16)
    ensures
        r == low16(x as int),
{
    if x >= 0 {
        (x % 0x10000) as u16
    } else {
        let n: i64 = -(x as i64) - 1;
        let m: i64 = n % 0x10000;
        (0xffff - m) as u16
    }
}

/// What the platform layer must do to create one native control window.
/// The style in `flags` already includes the bits the control type forces.
#[derive(Debug)]
pub struct ControlCreation {
    pub class_name: &'static str,
    pub flags: u32,
    pub ex_flags: u32,
    pub size: (i32, i32),
    pub position: (i32, i32),
    pub text: String,
    pub parent: ControlHandle,
}

} // verus!
