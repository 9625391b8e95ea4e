//! A rebar is a container of movable bands, each of which may hold a child
//! control, text and an image. Inserting a band assembles a band record
//! whose child extents are adjusted from the measured child window.

use vstd::prelude::*;

verus! {

use vstd::string::StringExecFns;
use crate::base::ControlCreation;
use crate::base::ControlHandle;
use crate::base::ControlMessage;
use crate::base::Font;
use crate::base::NwgError;
use crate::base::WindowOp;
use crate::base::WindowRequest;
use crate::base::low16;
use crate::base::low_word;
use crate::base::CCS_NODIVIDER;
use crate::base::CCS_TOP;
use crate::base::WM_SIZE;
use crate::base::WM_USER;
use crate::base::WS_CHILD;
use crate::base::WS_CLIPCHILDREN;
use crate::base::WS_CLIPSIBLINGS;
use crate::base::WS_VISIBLE;

// Style bits of the rebar class.
pub const RBS_TOOLTIPS: u32 = 0x0100;
pub const RBS_VARHEIGHT: u32 = 0x0200;
pub const RBS_BANDBORDERS: u32 = 0x0400;
pub const RBS_FIXEDORDER: u32 = 0x0800;
pub const RBS_AUTOSIZE: u32 = 0x2000;
pub const RBS_VERTICALGRIPPER: u32 = 0x4000;
pub const RBS_DBLCLKTOGGLE: u32 = 0x8000;

// Style bits of a single band.
pub const RBBS_BREAK: u32 = 0x0001;
pub const RBBS_FIXEDSIZE: u32 = 0x0002;
pub const RBBS_CHILDEDGE: u32 = 0x0004;
pub const RBBS_HIDDEN: u32 = 0x0008;
pub const RBBS_NOVERT: u32 = 0x0010;
pub const RBBS_VARIABLEHEIGHT: u32 = 0x0040;
pub const RBBS_GRIPPERALWAYS: u32 = 0x0080;
pub const RBBS_USECHEVRON: u32 = 0x0200;
pub const RBBS_TOPALIGN: u32 = 0x0800;

// Bits naming which fields of a band record are meaningful.
pub const RBBIM_STYLE: u32 = 0x0001;
pub const RBBIM_TEXT: u32 = 0x0004;
pub const RBBIM_IMAGE: u32 = 0x0008;
pub const RBBIM_CHILD: u32 = 0x0010;
pub const RBBIM_CHILDSIZE: u32 = 0x0020;
pub const RBBIM_SIZE: u32 = 0x0040;
pub const RBBIM_ID: u32 = 0x0100;

// Messages understood by the rebar class.
pub const RB_DELETEBAND: u32 = WM_USER + 2;
pub const RB_SETBARINFO: u32 = WM_USER + 4;
pub const RB_INSERTBANDW: u32 = WM_USER + 10;
pub const RB_SETBANDINFOW: u32 = WM_USER + 11;
pub const RB_GETBANDCOUNT: u32 = WM_USER + 12;
pub const RB_GETROWCOUNT: u32 = WM_USER + 13;
pub const RB_GETROWHEIGHT: u32 = WM_USER + 14;
pub const RB_IDTOINDEX: u32 = WM_USER + 16;
pub const RB_BEGINDRAG: u32 = WM_USER + 24;
pub const RB_ENDDRAG: u32 = WM_USER + 25;
pub const RB_DRAGMOVE: u32 = WM_USER + 26;
pub const RB_GETBARHEIGHT: u32 = WM_USER + 27;
pub const RB_MINIMIZEBAND: u32 = WM_USER + 30;
pub const RB_MAXIMIZEBAND: u32 = WM_USER + 31;
pub const RB_SHOWBAND: u32 = WM_USER + 35;
pub const RB_MOVEBAND: u32 = WM_USER + 39;

/// The configuration of one band.
#[derive(Debug)]
pub struct RebarBand {
    /// Optional text shown at the head of the band.
    pub text: Option<String>,
    /// The least width the band's child may be given.
    pub min_width: u32,
    /// The least height the band's child may be given.
    pub min_height: u32,
    /// The width the band starts with.
    pub width: u32,
    /// The control embedded in the band, if any.
    pub child: Option<ControlHandle>,
    /// The band's style bits.
    pub flags: u32,
    /// The band's image index; negative for none.
    pub image_index: i32,
    /// The number by which the band is found again.
    pub id: u32,
}

impl Default for RebarBand {
    /// A band with a gripper and a child edge, one hundred wide and at
    /// least twenty-four high, without text, child or image.
    fn default() -> (r: Self)
        ensures
            r.text is None,
            r.min_width == 0,
            r.min_height == 24,
            r.width == 100,
            r.child is None,
            r.flags == (RBBS_GRIPPERALWAYS | RBBS_CHILDEDGE),
            r.image_index == -1,
            r.id == 0,
    {
        RebarBand {
            text: None,
            min_width: 0,
            min_height: 24,
            width: 100,
            child: None,
            flags: RBBS_GRIPPERALWAYS | RBBS_CHILDEDGE,
            image_index: -1,
            id: 0,
        }
    }
}

impl RebarBand {
    /// The default band under the given number.
    pub fn new(id: u32) -> (r: Self)
        ensures
            r.text is None,
            r.min_width == 0,
            r.min_height == 24,
            r.width == 100,
            r.child is None,
            r.flags == (RBBS_GRIPPERALWAYS | RBBS_CHILDEDGE),
            r.image_index == -1,
            r.id == id,
    {
        RebarBand {
            text: None,
            min_width: 0,
            min_height: 24,
            width: 100,
            child: None,
            flags: RBBS_GRIPPERALWAYS | RBBS_CHILDEDGE,
            image_index: -1,
            id,
        }
    }

    /// Replaces the band's text.
    pub fn with_text(self, text: &str) -> (r: Self)
        ensures
            r.text matches Some(t) && t@ == text@,
            r.min_width == self.min_width,
            r.min_height == self.min_height,
            r.width == self.width,
            r.child == self.child,
            r.flags == self.flags,
            r.image_index == self.image_index,
            r.id == self.id,
    {
        RebarBand { text: Some(String::from_str(text)), ..self }
    }

    /// Replaces the least width.
    pub fn with_min_width(self, width: u32) -> (r: Self)
        ensures
            r.min_width == width,
            r.text == self.text,
            r.min_height == self.min_height,
            r.width == self.width,
            r.child == self.child,
            r.flags == self.flags,
            r.image_index == self.image_index,
            r.id == self.id,
    {
        RebarBand { min_width: width, ..self }
    }

    /// Replaces the least height.
    pub fn with_min_height(self, height: u32) -> (r: Self)
        ensures
            r.min_height == height,
            r.text == self.text,
            r.min_width == self.min_width,
            r.width == self.width,
            r.child == self.child,
            r.flags == self.flags,
            r.image_index == self.image_index,
            r.id == self.id,
    {
        RebarBand { min_height: height, ..self }
    }

    /// Replaces the starting width.
    pub fn with_width(self, width: u32) -> (r: Self)
        ensures
            r.width == width,
            r.text == self.text,
            r.min_width == self.min_width,
            r.min_height == self.min_height,
            r.child == self.child,
            r.flags == self.flags,
            r.image_index == self.image_index,
            r.id == self.id,
    {
        RebarBand { width, ..self }
    }

    /// Embeds a control in the band.
    pub fn with_child(self, child: ControlHandle) -> (r: Self)
        ensures
            r.child == Some(child),
            r.text == self.text,
            r.min_width == self.min_width,
            r.min_height == self.min_height,
            r.width == self.width,
            r.flags == self.flags,
            r.image_index == self.image_index,
            r.id == self.id,
    {
        RebarBand { child: Some(child), ..self }
    }

    /// Replaces the style bits.
    pub fn with_flags(self, flags: u32) -> (r: Self)
        ensures
            r.flags == flags,
            r.text == self.text,
            r.min_width == self.min_width,
            r.min_height == self.min_height,
            r.width == self.width,
            r.child == self.child,
            r.image_index == self.image_index,
            r.id == self.id,
    {
        RebarBand { flags, ..self }
    }

    /// Replaces the image index.
    pub fn with_image(self, index: i32) -> (r: Self)
        ensures
            r.image_index == index,
            r.text == self.text,
            r.min_width == self.min_width,
            r.min_height == self.min_height,
            r.width == self.width,
            r.child == self.child,
            r.flags == self.flags,
            r.id == self.id,
    {
        RebarBand { image_index: index, ..self }
    }
}

/// One band record to insert. The platform layer builds the native record
/// from these fields, filling only the fields the mask names, and sends it
/// with the insert message at `index` (a negative index appends).
#[derive(Debug)]
pub struct BandRequest {
    pub hwnd: usize,
    pub index: i32,
    /// The record size the message is given. The full native record grew
    /// over the toolkit's versions; the band accepts the older, shorter
    /// record, and the longer one makes the insert fail.
    pub struct_size: u32,
    pub mask: u32,
    pub style: u32,
    pub id: u32,
    pub width: u32,
    pub min_width: u32,
    pub min_height: u32,
    pub child_height: u32,
    pub text: Option<String>,
    pub child: Option<usize>,
    pub image_index: i32,
}

/// The handle of the window a band embeds, if the band names a bound one.
pub open spec fn band_child_hwnd(band: RebarBand) -> Option<usize> {
    match band.child {
        Some(c) => if c.is_bound() {
            Some(c.hwnd_spec())
        } else {
            None
        },
        None => None,
    }
}

/// The record that inserting `band` at `index` produces, given the
/// measured size of the band's child window: the mask names style, number,
/// width and child extents, and besides them exactly the fields the band
/// carries; a measured child widens a zero least-width and raises a lesser
/// least-height.
pub open spec fn band_request_spec(
    hwnd: usize,
    index: i32,
    band: RebarBand,
    child_size: Option<(u32, u32)>,
) -> BandRequest {
    let base_mask = RBBIM_STYLE | RBBIM_ID | RBBIM_SIZE | RBBIM_CHILDSIZE;
    let mask_text = if band.text is Some {
        base_mask | RBBIM_TEXT
    } else {
        base_mask
    };
    let child = band_child_hwnd(band);
    let mask_child = if child is Some {
        mask_text | RBBIM_CHILD
    } else {
        mask_text
    };
    let mask = if band.image_index >= 0 {
        mask_child | RBBIM_IMAGE
    } else {
        mask_child
    };
    let measured = child is Some && child_size is Some;
    let child_w = if measured {
        (child_size->0).0
    } else {
        0u32
    };
    let child_h = if measured {
        (child_size->0).1
    } else {
        0u32
    };
    let min_width = if measured && child_w > 0 && band.min_width == 0 {
        child_w
    } else {
        band.min_width
    };
    let raised = measured && child_h > 0 && (band.min_height == 0 || band.min_height < child_h);
    let min_height = if raised {
        child_h
    } else {
        band.min_height
    };
    let child_height = if raised {
        child_h
    } else {
        band.min_height
    };
    BandRequest {
        hwnd,
        index,
        struct_size: 80,
        mask,
        style: band.flags,
        id: band.id,
        width: band.width,
        min_width,
        min_height,
        child_height,
        text: band.text,
        child,
        image_index: band.image_index,
    }
}

/// Wrapper around one native rebar window.
#[derive(Clone, Copy, PartialEq, Eq, Structural, Debug)]
pub struct Rebar {
    pub handle: ControlHandle,
}

impl Default for Rebar {
    /// A fresh wrapper is unbound.
    fn default() -> (r: Self)
        ensures
            r.handle == ControlHandle::NoHandle,
    {
        Rebar { handle: ControlHandle::NoHandle }
    }
}

impl Rebar {
    /// A builder with the control's default configuration.
    pub fn builder() -> (r: RebarBuilder)
        ensures
            r.size == (0i32, 32i32),
            r.position == (0i32, 0i32),
            r.enabled == true,
            r.flags is None,
            r.ex_flags == 0,
            r.font is None,
            r.parent is None,
            r.bands@.len() == 0,
    {
        RebarBuilder {
            size: (0, 32),
            position: (0, 0),
            enabled: true,
            flags: None,
            ex_flags: 0,
            font: None,
            parent: None,
            bands: Vec::new(),
        }
    }

    /// The record that appends a band at the end. `child_size` is the
    /// measured size of the band's child window, demanded whenever the
    /// band embeds a bound control.
    pub fn add_band(&self, band: RebarBand, child_size: Option<(u32, u32)>) -> (r: BandRequest)
        requires
            self.handle.is_bound(),
            band_child_hwnd(band) is Some ==> child_size is Some,
        ensures
            r == band_request_spec(self.handle.hwnd_spec(), -1i32, band, child_size),
    {
        self.insert_band(-1, band, child_size)
    }

    /// The record that inserts a band at `index`, a negative index
    /// appending. `child_size` is the measured size of the band's child
    /// window, demanded whenever the band embeds a bound control.
    pub fn insert_band(&self, index: i32, band: RebarBand, child_size: Option<(u32, u32)>) -> (r:
        BandRequest)
        requires
            self.handle.is_bound(),
            band_child_hwnd(band) is Some ==> child_size is Some,
        ensures
            r == band_request_spec(self.handle.hwnd_spec(), index, band, child_size),
    {
        let mut mask: u32 = RBBIM_STYLE | RBBIM_ID | RBBIM_SIZE | RBBIM_CHILDSIZE;
        if band.text.is_some() {
            mask = mask | RBBIM_TEXT;
        }

        let child: Option<usize> = match &band.child {
            Some(c) => c.hwnd(),
            None => None,
        };
        if child.is_some() {
            mask = mask | RBBIM_CHILD;
        }
        if band.image_index >= 0 {
            mask = mask | RBBIM_IMAGE;
        }

        let mut min_width: u32 = band.min_width;
        let mut min_height: u32 = band.min_height;
        let mut child_height: u32 = band.min_height;
        if child.is_some() {
            if let Some((child_w, child_h)) = child_size {
                if child_w > 0 && min_width == 0 {
                    min_width = child_w;
                }
                if child_h > 0 && (min_height == 0 || min_height < child_h) {
                    min_height = child_h;
                    child_height = child_h;
                }
            }
        }

        BandRequest {
            hwnd: self.handle.checked_hwnd(),
            index,
            struct_size: 80,
            mask,
            style: band.flags,
            id: band.id,
            width: band.width,
            min_width,
            min_height,
            child_height,
            text: band.text,
            child,
            image_index: band.image_index,
        }
    }

    /// The message that removes the band standing at `index`.
    pub fn remove_band(&self, index: u32) -> (m: ControlMessage)
        requires
            self.handle.is_bound(),
        ensures
            m.hwnd == self.handle.hwnd_spec(),
            m.msg == RB_DELETEBAND,
            m.wparam == index,
            m.lparam == 0,
    {
        ControlMessage {
            hwnd: self.handle.checked_hwnd(),
            msg: RB_DELETEBAND,
            wparam: index as usize,
            lparam: 0,
        }
    }

    /// The message that counts the bands; interpret the reply with
    /// [`crate::base::reply_as_u32`].
    pub fn band_count(&self) -> (m: ControlMessage)
        requires
            self.handle.is_bound(),
        ensures
            m.hwnd == self.handle.hwnd_spec(),
            m.msg == RB_GETBANDCOUNT,
            m.wparam == 0,
            m.lparam == 0,
    {
        ControlMessage {
            hwnd: self.handle.checked_hwnd(),
            msg: RB_GETBANDCOUNT,
            wparam: 0,
            lparam: 0,
        }
    }

    /// The message that asks for the rebar's height; interpret the reply
    /// with [`crate::base::reply_as_u32`].
    pub fn height(&self) -> (m: ControlMessage)
        requires
            self.handle.is_bound(),
        ensures
            m.hwnd == self.handle.hwnd_spec(),
            m.msg == RB_GETBARHEIGHT,
            m.wparam == 0,
            m.lparam == 0,
    {
        ControlMessage {
            hwnd: self.handle.checked_hwnd(),
            msg: RB_GETBARHEIGHT,
            wparam: 0,
            lparam: 0,
        }
    }

    /// The message that counts the rows of bands; interpret the reply with
    /// [`crate::base::reply_as_u32`].
    pub fn row_count(&self) -> (m: ControlMessage)
        requires
            self.handle.is_bound(),
        ensures
            m.hwnd == self.handle.hwnd_spec(),
            m.msg == RB_GETROWCOUNT,
            m.wparam == 0,
            m.lparam == 0,
    {
        ControlMessage {
            hwnd: self.handle.checked_hwnd(),
            msg: RB_GETROWCOUNT,
            wparam: 0,
            lparam: 0,
        }
    }

    /// The message that asks for one row's height; interpret the reply
    /// with [`crate::base::reply_as_u32`].
    pub fn row_height(&self, row: u32) -> (m: ControlMessage)
        requires
            self.handle.is_bound(),
        ensures
            m.hwnd == self.handle.hwnd_spec(),
            m.msg == RB_GETROWHEIGHT,
            m.wparam == row,
            m.lparam == 0,
    {
        ControlMessage {
            hwnd: self.handle.checked_hwnd(),
            msg: RB_GETROWHEIGHT,
            wparam: row as usize,
            lparam: 0,
        }
    }

    /// The message that shows or hides the band standing at `index`.
    pub fn set_band_visible(&self, index: u32, visible: bool) -> (m: ControlMessage)
        requires
            self.handle.is_bound(),
        ensures
            m.hwnd == self.handle.hwnd_spec(),
            m.msg == RB_SHOWBAND,
            m.wparam == index,
            m.lparam == (if visible {
                1int
            } else {
                0int
            }),
    {
        ControlMessage {
            hwnd: self.handle.checked_hwnd(),
            msg: RB_SHOWBAND,
            wparam: index as usize,
            lparam: if visible {
                1
            } else {
                0
            },
        }
    }

    /// The message that shrinks a band to its title alone.
    pub fn minimize_band(&self, index: u32) -> (m: ControlMessage)
        requires
            self.handle.is_bound(),
        ensures
            m.hwnd == self.handle.hwnd_spec(),
            m.msg == RB_MINIMIZEBAND,
            m.wparam == index,
            m.lparam == 0,
    {
        ControlMessage {
            hwnd: self.handle.checked_hwnd(),
            msg: RB_MINIMIZEBAND,
            wparam: index as usize,
            lparam: 0,
        }
    }

    /// The message that grows a band to its ideal size.
    pub fn maximize_band(&self, index: u32) -> (m: ControlMessage)
        requires
            self.handle.is_bound(),
        ensures
            m.hwnd == self.handle.hwnd_spec(),
            m.msg == RB_MAXIMIZEBAND,
            m.wparam == index,
            m.lparam == 1,
    {
        ControlMessage {
            hwnd: self.handle.checked_hwnd(),
            msg: RB_MAXIMIZEBAND,
            wparam: index as usize,
            lparam: 1,
        }
    }

    /// The message that moves a band from one position to another.
    pub fn move_band(&self, from_index: u32, to_index: u32) -> (m: ControlMessage)
        requires
            self.handle.is_bound(),
        ensures
            m.hwnd == self.handle.hwnd_spec(),
            m.msg == RB_MOVEBAND,
            m.wparam == from_index,
            m.lparam == to_index,
    {
        ControlMessage {
            hwnd: self.handle.checked_hwnd(),
            msg: RB_MOVEBAND,
            wparam: from_index as usize,
            lparam: to_index as i64,
        }
    }

    /// The message that asks where the band with a number stands; hand the
    /// reply to [`Rebar::id_to_index_from_reply`].
    pub fn id_to_index(&self, id: u32) -> (m: ControlMessage)
        requires
            self.handle.is_bound(),
        ensures
            m.hwnd == self.handle.hwnd_spec(),
            m.msg == RB_IDTOINDEX,
            m.wparam == id,
            m.lparam == 0,
    {
        ControlMessage {
            hwnd: self.handle.checked_hwnd(),
            msg: RB_IDTOINDEX,
            wparam: id as usize,
            lparam: 0,
        }
    }

    /// Reads a band position out of a reply: a negative reply means no
    /// band carries the number.
    pub fn id_to_index_from_reply(reply: isize) -> (r: Option<u32>)
        requires
            reply <= u32::MAX,
        ensures
            reply < 0 ==> r is None,
            reply >= 0 ==> r == Some(reply as u32),
    {
        if reply < 0 {
            None
        } else {
            Some(reply as u32)
        }
    }

    /// The record that resizes the band standing at `index`: the platform
    /// layer sends the band-info message with a record, of the full native
    /// size, whose mask names the width alone.
    pub fn set_band_width(&self, index: u32, width: u32) -> (r: BandWidthRequest)
        requires
            self.handle.is_bound(),
        ensures
            r.hwnd == self.handle.hwnd_spec(),
            r.index == index,
            r.width == width,
    {
        BandWidthRequest { hwnd: self.handle.checked_hwnd(), index, width }
    }

    /// The message that starts dragging the band standing at `index`, the
    /// pointer's vertical coordinate packed into the word above the
    /// horizontal one.
    pub fn begin_drag(&self, index: u32, pos: (i32, i32)) -> (m: ControlMessage)
        requires
            self.handle.is_bound(),
        ensures
            m.hwnd == self.handle.hwnd_spec(),
            m.msg == RB_BEGINDRAG,
            m.wparam == index,
            m.lparam == low16(pos.1 as int) * 0x10000 + low16(pos.0 as int),
    {
        let packed: i64 = (low_word(pos.1) as i64) * 0x10000 + (low_word(pos.0) as i64);
        ControlMessage {
            hwnd: self.handle.checked_hwnd(),
            msg: RB_BEGINDRAG,
            wparam: index as usize,
            lparam: packed,
        }
    }

    /// The message that ends a drag.
    pub fn end_drag(&self) -> (m: ControlMessage)
        requires
            self.handle.is_bound(),
        ensures
            m.hwnd == self.handle.hwnd_spec(),
            m.msg == RB_ENDDRAG,
            m.wparam == 0,
            m.lparam == 0,
    {
        ControlMessage { hwnd: self.handle.checked_hwnd(), msg: RB_ENDDRAG, wparam: 0, lparam: 0 }
    }

    /// The message that moves a drag to a new pointer position, packed as
    /// in [`Rebar::begin_drag`].
    pub fn drag_move(&self, pos: (i32, i32)) -> (m: ControlMessage)
        requires
            self.handle.is_bound(),
        ensures
            m.hwnd == self.handle.hwnd_spec(),
            m.msg == RB_DRAGMOVE,
            m.wparam == 0,
            m.lparam == low16(pos.1 as int) * 0x10000 + low16(pos.0 as int),
    {
        let packed: i64 = (low_word(pos.1) as i64) * 0x10000 + (low_word(pos.0) as i64);
        ControlMessage {
            hwnd: self.handle.checked_hwnd(),
            msg: RB_DRAGMOVE,
            wparam: 0,
            lparam: packed,
        }
    }

    /// What to send when the parent window reports a message: on a size
    /// change the rebar is stretched to the parent's width, anything else
    /// passes without action.
    pub fn on_parent_resize(&self, msg: u32, parent_width: u32) -> (r: Option<WindowRequest>)
        requires
            self.handle.is_bound(),
        ensures
            msg == WM_SIZE ==> (r matches Some(req) && req.hwnd == self.handle.hwnd_spec()
                && req.op == WindowOp::SetSize(parent_width, 0)),
            msg != WM_SIZE ==> r is None,
    {
        if msg == WM_SIZE {
            Some(
                WindowRequest {
                    hwnd: self.handle.checked_hwnd(),
                    op: WindowOp::SetSize(parent_width, 0),
                },
            )
        } else {
            None
        }
    }

    /// Asks the platform layer for the control's font handle; interpret the
    /// reply with [`crate::base::decode_font`].
    pub fn font(&self) -> (r: WindowRequest)
        requires
            self.handle.is_bound(),
        ensures
            r.hwnd == self.handle.hwnd_spec(),
            r.op == WindowOp::GetFont,
    {
        WindowRequest { hwnd: self.handle.checked_hwnd(), op: WindowOp::GetFont }
    }

    /// Sets the control's font, or clears it.
    pub fn set_font(&self, font: Option<&Font>) -> (r: WindowRequest)
        requires
            self.handle.is_bound(),
        ensures
            r.hwnd == self.handle.hwnd_spec(),
            r.op == WindowOp::SetFont(
                match font {
                    Some(f) => Some(f.handle),
                    None => None,
                },
            ),
    {
        let h = match font {
            Some(f) => Some(f.handle),
            None => None,
        };
        WindowRequest { hwnd: self.handle.checked_hwnd(), op: WindowOp::SetFont(h) }
    }

    /// Asks whether the window is visible; the reply is nonzero when it is.
    pub fn visible(&self) -> (r: WindowRequest)
        requires
            self.handle.is_bound(),
        ensures
            r.hwnd == self.handle.hwnd_spec(),
            r.op == WindowOp::GetVisible,
    {
        WindowRequest { hwnd: self.handle.checked_hwnd(), op: WindowOp::GetVisible }
    }

    /// Shows or hides the window.
    pub fn set_visible(&self, visible: bool) -> (r: WindowRequest)
        requires
            self.handle.is_bound(),
        ensures
            r.hwnd == self.handle.hwnd_spec(),
            r.op == WindowOp::SetVisible(visible),
    {
        WindowRequest { hwnd: self.handle.checked_hwnd(), op: WindowOp::SetVisible(visible) }
    }

    /// Asks whether the window is enabled; the reply is nonzero when it is.
    pub fn enabled(&self) -> (r: WindowRequest)
        requires
            self.handle.is_bound(),
        ensures
            r.hwnd == self.handle.hwnd_spec(),
            r.op == WindowOp::GetEnabled,
    {
        WindowRequest { hwnd: self.handle.checked_hwnd(), op: WindowOp::GetEnabled }
    }

    /// Enables or disables the window.
    pub fn set_enabled(&self, enabled: bool) -> (r: WindowRequest)
        requires
            self.handle.is_bound(),
        ensures
            r.hwnd == self.handle.hwnd_spec(),
            r.op == WindowOp::SetEnabled(enabled),
    {
        WindowRequest { hwnd: self.handle.checked_hwnd(), op: WindowOp::SetEnabled(enabled) }
    }

    /// The window class this wrapper creates.
    pub fn class_name(&self) -> (r: &'static str)
        ensures
            r@ == "ReBarWindow32"@,
    {
        "ReBarWindow32"
    }

    /// The style used when the builder is given none.
    pub fn flags(&self) -> (r: u32)
        ensures
            r == (WS_VISIBLE | WS_CLIPSIBLINGS | WS_CLIPCHILDREN | CCS_NODIVIDER | CCS_TOP
                | RBS_VARHEIGHT | RBS_BANDBORDERS),
    {
        WS_VISIBLE | WS_CLIPSIBLINGS | WS_CLIPCHILDREN | CCS_NODIVIDER | CCS_TOP | RBS_VARHEIGHT
            | RBS_BANDBORDERS
    }

    /// The style bits every rebar carries.
    pub fn forced_flags(&self) -> (r: u32)
        ensures
            r == WS_CHILD,
    {
        WS_CHILD
    }
}

/// A band resize: the platform layer sends the band-info message with a
/// record whose mask names the width alone.
#[derive(Clone, Copy, PartialEq, Eq, Structural, Debug)]
pub struct BandWidthRequest {
    pub hwnd: usize,
    pub index: u32,
    pub width: u32,
}

/// Everything the platform layer must do to stand up one rebar: create the
/// window from `base`, bind the handle, announce the bar (the bar-info
/// message with no image list) before any band goes in, set `font` (or the
/// process-wide default when it is `None`), insert `bands` in order
/// (measuring each bound child), hook the parent's size changes, and
/// disable the window when `enabled` is false.
#[derive(Debug)]
pub struct RebarCreation {
    pub base: ControlCreation,
    pub font: Option<Font>,
    pub bands: Vec<RebarBand>,
    pub enabled: bool,
}

/// Accumulates the configuration of one rebar.
pub struct RebarBuilder {
    pub size: (i32, i32),
    pub position: (i32, i32),
    pub enabled: bool,
    pub flags: Option<u32>,
    pub ex_flags: u32,
    pub font: Option<Font>,
    pub parent: Option<ControlHandle>,
    pub bands: Vec<RebarBand>,
}

impl RebarBuilder {
    pub fn size(self, size: (i32, i32)) -> (r: RebarBuilder)
        ensures
            r.size == size,
            r.position == self.position,
            r.enabled == self.enabled,
            r.flags == self.flags,
            r.ex_flags == self.ex_flags,
            r.font == self.font,
            r.parent == self.parent,
            r.bands == self.bands,
    {
        RebarBuilder { size, ..self }
    }

    pub fn position(self, position: (i32, i32)) -> (r: RebarBuilder)
        ensures
            r.position == position,
            r.size == self.size,
            r.enabled == self.enabled,
            r.flags == self.flags,
            r.ex_flags == self.ex_flags,
            r.font == self.font,
            r.parent == self.parent,
            r.bands == self.bands,
    {
        RebarBuilder { position, ..self }
    }

    pub fn enabled(self, enabled: bool) -> (r: RebarBuilder)
        ensures
            r.enabled == enabled,
            r.size == self.size,
            r.position == self.position,
            r.flags == self.flags,
            r.ex_flags == self.ex_flags,
            r.font == self.font,
            r.parent == self.parent,
            r.bands == self.bands,
    {
        RebarBuilder { enabled, ..self }
    }

    pub fn flags(self, flags: u32) -> (r: RebarBuilder)
        ensures
            r.flags == Some(flags),
            r.size == self.size,
            r.position == self.position,
            r.enabled == self.enabled,
            r.ex_flags == self.ex_flags,
            r.font == self.font,
            r.parent == self.parent,
            r.bands == self.bands,
    {
        RebarBuilder { flags: Some(flags), ..self }
    }

    pub fn ex_flags(self, ex_flags: u32) -> (r: RebarBuilder)
        ensures
            r.ex_flags == ex_flags,
            r.size == self.size,
            r.position == self.position,
            r.enabled == self.enabled,
            r.flags == self.flags,
            r.font == self.font,
            r.parent == self.parent,
            r.bands == self.bands,
    {
        RebarBuilder { ex_flags, ..self }
    }

    pub fn font(self, font: Option<&Font>) -> (r: RebarBuilder)
        ensures
            r.font == match font {
                Some(f) => Some(*f),
                None => None::<Font>,
            },
            r.size == self.size,
            r.position == self.position,
            r.enabled == self.enabled,
            r.flags == self.flags,
            r.ex_flags == self.ex_flags,
            r.parent == self.parent,
            r.bands == self.bands,
    {
        let f = match font {
            Some(f) => Some(*f),
            None => None,
        };
        RebarBuilder { font: f, ..self }
    }

    pub fn parent(self, p: ControlHandle) -> (r: RebarBuilder)
        ensures
            r.parent == Some(p),
            r.size == self.size,
            r.position == self.position,
            r.enabled == self.enabled,
            r.flags == self.flags,
            r.ex_flags == self.ex_flags,
            r.font == self.font,
            r.bands == self.bands,
    {
        RebarBuilder { parent: Some(p), ..self }
    }

    pub fn bands(self, bands: Vec<RebarBand>) -> (r: RebarBuilder)
        ensures
            r.bands == bands,
            r.size == self.size,
            r.position == self.position,
            r.enabled == self.enabled,
            r.flags == self.flags,
            r.ex_flags == self.ex_flags,
            r.font == self.font,
            r.parent == self.parent,
    {
        RebarBuilder { bands, ..self }
    }

    /// Validates the configuration and assembles the creation request.
    /// Demands a parent: without one the builder errs and leaves `out`
    /// untouched. On success `out` is reset to the unbound state; the
    /// platform layer performs the request and binds the handle.
    pub fn build(self, out: &mut Rebar) -> (res: Result<RebarCreation, NwgError>)
        ensures
            self.parent is None ==> (res matches Err(e) && e matches
                NwgError::ControlCreationError(m) && m@ == "Rebar"@ && *final(out) == *old(out)),
            self.parent matches Some(p) ==> (res matches Ok(c) && final(out).handle
                == ControlHandle::NoHandle && c.base.class_name@ == "ReBarWindow32"@
                && c.base.flags == (match self.flags {
                Some(f) => f,
                None => WS_VISIBLE | WS_CLIPSIBLINGS | WS_CLIPCHILDREN | CCS_NODIVIDER | CCS_TOP
                    | RBS_VARHEIGHT | RBS_BANDBORDERS,
            } | WS_CHILD) && c.base.ex_flags == self.ex_flags && c.base.size == self.size
                && c.base.position == self.position && c.base.text@ == ""@ && c.base.parent == p
                && c.font == self.font && c.bands == self.bands && c.enabled == self.enabled),
    {
        let parent = match self.parent {
            Some(p) => p,
            None => {
                return Err(NwgError::no_parent("Rebar"));
            },
        };

        *out = Rebar { handle: ControlHandle::NoHandle };

        let flags = match self.flags {
            Some(f) => f,
            None => WS_VISIBLE | WS_CLIPSIBLINGS | WS_CLIPCHILDREN | CCS_NODIVIDER | CCS_TOP
                | RBS_VARHEIGHT | RBS_BANDBORDERS,
        };

        Ok(
            RebarCreation {
                base: ControlCreation {
                    class_name: "ReBarWindow32",
                    flags: flags | WS_CHILD,
                    ex_flags: self.ex_flags,
                    size: self.size,
                    position: self.position,
                    text: String::from_str(""),
                    parent,
                },
                font: self.font,
                bands: self.bands,
                enabled: self.enabled,
            },
        )
    }
}

} // verus!
