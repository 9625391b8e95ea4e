//! An extended combo box supports an image beside each item. Most list
//! operations go to the plain combo box it hosts, whose handle the extended
//! control hands out on request.

use vstd::prelude::*;

verus! {

use vstd::string::StringExecFns;
use crate::base::ControlCreation;
use crate::base::ControlHandle;
use crate::base::ControlMessage;
use crate::base::Font;
use crate::base::HandleMessage;
use crate::base::NwgError;
use crate::base::WindowOp;
use crate::base::WindowRequest;
use crate::base::WM_USER;
use crate::base::WS_CHILD;
use crate::base::WS_VISIBLE;

// Style bits of the combo box classes.
pub const CBS_SIMPLE: u32 = 0x0001;
pub const CBS_DROPDOWN: u32 = 0x0002;
pub const CBS_DROPDOWNLIST: u32 = 0x0003;

// Extended styles of the extended combo box.
pub const CBES_EX_NOEDITIMAGE: u32 = 0x0001;
pub const CBES_EX_NOEDITIMAGEINDENT: u32 = 0x0002;
pub const CBES_EX_PATHWORDBREAKPROC: u32 = 0x0004;
pub const CBES_EX_NOSIZELIMIT: u32 = 0x0008;
pub const CBES_EX_CASESENSITIVE: u32 = 0x0010;
pub const CBES_EX_TEXTENDELLIPSIS: u32 = 0x0020;

// Which fields of an item record are meaningful.
pub const CBEIF_TEXT: u32 = 0x0001;
pub const CBEIF_IMAGE: u32 = 0x0002;
pub const CBEIF_SELECTEDIMAGE: u32 = 0x0004;
pub const CBEIF_INDENT: u32 = 0x0010;

// Messages understood by the extended combo box.
pub const CBEM_SETIMAGELIST: u32 = WM_USER + 2;
pub const CBEM_DELETEITEM: u32 = 0x0144;
pub const CBEM_GETCOMBOCONTROL: u32 = WM_USER + 6;
pub const CBEM_GETEDITCONTROL: u32 = WM_USER + 7;
pub const CBEM_GETEXTENDEDSTYLE: u32 = WM_USER + 9;
pub const CBEM_HASEDITCHANGED: u32 = WM_USER + 10;
pub const CBEM_INSERTITEMW: u32 = WM_USER + 11;
pub const CBEM_SETEXTENDEDSTYLE: u32 = WM_USER + 14;

// Messages understood by the hosted plain combo box.
pub const CB_GETCOUNT: u32 = 0x0146;
pub const CB_GETCURSEL: u32 = 0x0147;
pub const CB_SETCURSEL: u32 = 0x014E;
pub const CB_SHOWDROPDOWN: u32 = 0x014F;

/// An item to insert: its text, its image and selected-image indices in
/// the control's image list (negative for none), and its indentation.
#[derive(Debug)]
pub struct ComboBoxExItem {
    pub text: String,
    pub image: i32,
    pub selected_image: i32,
    pub indent: i32,
}

impl ComboBoxExItem {
    /// A text-only item.
    pub fn new(text: &str) -> (r: Self)
        ensures
            r.text@ == text@,
            r.image == -1,
            r.selected_image == -1,
            r.indent == 0,
    {
        ComboBoxExItem { text: String::from_str(text), image: -1, selected_image: -1, indent: 0 }
    }

    /// An item with an image, shown selected with the same image.
    pub fn with_image(text: &str, image: i32) -> (r: Self)
        ensures
            r.text@ == text@,
            r.image == image,
            r.selected_image == image,
            r.indent == 0,
    {
        ComboBoxExItem { text: String::from_str(text), image, selected_image: image, indent: 0 }
    }

    /// Replaces the selected-image index.
    pub fn selected_image(self, index: i32) -> (r: Self)
        ensures
            r.selected_image == index,
            r.text@ == self.text@,
            r.image == self.image,
            r.indent == self.indent,
    {
        ComboBoxExItem { selected_image: index, ..self }
    }

    /// Replaces the indentation level.
    pub fn indent(self, indent: i32) -> (r: Self)
        ensures
            r.indent == indent,
            r.text@ == self.text@,
            r.image == self.image,
            r.selected_image == self.selected_image,
    {
        ComboBoxExItem { indent, ..self }
    }
}

/// One message send whose second parameter points at an item record built
/// from these fields.
#[derive(Debug)]
pub struct ComboItemRequest {
    pub hwnd: usize,
    pub msg: u32,
    pub index: isize,
    pub mask: u32,
    pub text: String,
    pub image: i32,
    pub selected_image: i32,
    pub indent: i32,
}

/// Wrapper around one native extended combo box window.
#[derive(Clone, Copy, PartialEq, Eq, Structural, Debug)]
pub struct ComboBoxEx {
    pub handle: ControlHandle,
}

impl Default for ComboBoxEx {
    /// A fresh wrapper is unbound.
    fn default() -> (r: Self)
        ensures
            r.handle == ControlHandle::NoHandle,
    {
        ComboBoxEx { handle: ControlHandle::NoHandle }
    }
}

impl ComboBoxEx {
    /// A builder with the control's default configuration.
    pub fn builder() -> (r: ComboBoxExBuilder)
        ensures
            r.size == (100i32, 200i32),
            r.position == (0i32, 0i32),
            r.enabled == true,
            r.focus == false,
            r.flags is None,
            r.ex_flags == 0,
            r.style_ex is None,
            r.font is None,
            r.parent is None,
    {
        ComboBoxExBuilder {
            size: (100, 200),
            position: (0, 0),
            enabled: true,
            focus: false,
            flags: None,
            ex_flags: 0,
            style_ex: None,
            font: None,
            parent: None,
        }
    }

    /// The message that hands the control its image list, or detaches it.
    pub fn set_image_list(&self, image_list: Option<usize>) -> (m: HandleMessage)
        requires
            self.handle.is_bound(),
        ensures
            m.hwnd == self.handle.hwnd_spec(),
            m.msg == CBEM_SETIMAGELIST,
            m.wparam == 0,
            m.handle == match image_list {
                Some(h) => h,
                None => 0,
            },
    {
        let h: usize = match image_list {
            Some(h) => h,
            None => 0,
        };
        HandleMessage {
            hwnd: self.handle.checked_hwnd(),
            msg: CBEM_SETIMAGELIST,
            wparam: 0,
            handle: h,
        }
    }

    /// The message that asks for the hosted plain combo box; the reply is
    /// its handle.
    pub fn combo_handle(&self) -> (m: ControlMessage)
        requires
            self.handle.is_bound(),
        ensures
            m.hwnd == self.handle.hwnd_spec(),
            m.msg == CBEM_GETCOMBOCONTROL,
            m.wparam == 0,
            m.lparam == 0,
    {
        ControlMessage {
            hwnd: self.handle.checked_hwnd(),
            msg: CBEM_GETCOMBOCONTROL,
            wparam: 0,
            lparam: 0,
        }
    }

    /// The message that asks for the edit field; interpret the reply with
    /// [`crate::base::decode_window`], since only an editable combo has one.
    pub fn edit_handle(&self) -> (m: ControlMessage)
        requires
            self.handle.is_bound(),
        ensures
            m.hwnd == self.handle.hwnd_spec(),
            m.msg == CBEM_GETEDITCONTROL,
            m.wparam == 0,
            m.lparam == 0,
    {
        ControlMessage {
            hwnd: self.handle.checked_hwnd(),
            msg: CBEM_GETEDITCONTROL,
            wparam: 0,
            lparam: 0,
        }
    }

    /// The message that inserts an item at `index`, with the last index
    /// standing for the end of the list. The reply names the inserted
    /// position; decide success with [`ComboBoxEx::item_accepted`].
    pub fn insert_item(&self, index: usize, item: &ComboBoxExItem) -> (r: ComboItemRequest)
        requires
            self.handle.is_bound(),
            index == usize::MAX || index <= isize::MAX as usize,
        ensures
            r.hwnd == self.handle.hwnd_spec(),
            r.msg == CBEM_INSERTITEMW,
            r.index == (if index == usize::MAX {
                -1int
            } else {
                index as int
            }),
            r.mask == (CBEIF_TEXT | CBEIF_IMAGE | CBEIF_SELECTEDIMAGE | CBEIF_INDENT),
            r.text@ == item.text@,
            r.image == item.image,
            r.selected_image == (if item.selected_image >= 0 {
                item.selected_image
            } else {
                item.image
            }),
            r.indent == item.indent,
    {
        let item_index: isize = if index == usize::MAX {
            -1
        } else {
            index as isize
        };
        ComboItemRequest {
            hwnd: self.handle.checked_hwnd(),
            msg: CBEM_INSERTITEMW,
            index: item_index,
            mask: CBEIF_TEXT | CBEIF_IMAGE | CBEIF_SELECTEDIMAGE | CBEIF_INDENT,
            text: item.text.clone(),
            image: item.image,
            selected_image: if item.selected_image >= 0 {
                item.selected_image
            } else {
                item.image
            },
            indent: item.indent,
        }
    }

    /// The message that appends an item at the end of the list.
    pub fn push_item(&self, item: &ComboBoxExItem) -> (r: ComboItemRequest)
        requires
            self.handle.is_bound(),
        ensures
            r.hwnd == self.handle.hwnd_spec(),
            r.msg == CBEM_INSERTITEMW,
            r.index == -1,
            r.mask == (CBEIF_TEXT | CBEIF_IMAGE | CBEIF_SELECTEDIMAGE | CBEIF_INDENT),
            r.text@ == item.text@,
            r.image == item.image,
            r.selected_image == (if item.selected_image >= 0 {
                item.selected_image
            } else {
                item.image
            }),
            r.indent == item.indent,
    {
        self.insert_item(usize::MAX, item)
    }

    /// Whether an insert or delete reply reports success: anything but the
    /// error value does.
    pub fn item_accepted(reply: isize) -> (r: bool)
        ensures
            r == (reply != -1),
    {
        reply != -1
    }

    /// The message that removes the item at `index`. Decide success with
    /// [`ComboBoxEx::item_accepted`].
    pub fn remove_item(&self, index: usize) -> (m: ControlMessage)
        requires
            self.handle.is_bound(),
        ensures
            m.hwnd == self.handle.hwnd_spec(),
            m.msg == CBEM_DELETEITEM,
            m.wparam == index,
            m.lparam == 0,
    {
        ControlMessage {
            hwnd: self.handle.checked_hwnd(),
            msg: CBEM_DELETEITEM,
            wparam: index,
            lparam: 0,
        }
    }

    /// The message that removes the first item; repeating it until the
    /// reply is the error value empties the list.
    pub fn clear(&self) -> (m: ControlMessage)
        requires
            self.handle.is_bound(),
        ensures
            m.hwnd == self.handle.hwnd_spec(),
            m.msg == CBEM_DELETEITEM,
            m.wparam == 0,
            m.lparam == 0,
    {
        ControlMessage {
            hwnd: self.handle.checked_hwnd(),
            msg: CBEM_DELETEITEM,
            wparam: 0,
            lparam: 0,
        }
    }

    /// The message, aimed at the hosted combo box, that counts the items;
    /// hand the reply to [`ComboBoxEx::len_from_reply`].
    pub fn len(&self, combo: usize) -> (m: ControlMessage)
        requires
            self.handle.is_bound(),
        ensures
            m.hwnd == combo,
            m.msg == CB_GETCOUNT,
            m.wparam == 0,
            m.lparam == 0,
    {
        ControlMessage { hwnd: combo, msg: CB_GETCOUNT, wparam: 0, lparam: 0 }
    }

    /// Reads an item count out of a reply: the error value counts as an
    /// empty list.
    pub fn len_from_reply(reply: isize) -> (r: usize)
        requires
            -1 <= reply,
        ensures
            r == if reply == -1 {
                0int
            } else {
                reply as int
            },
    {
        if reply == -1 {
            0
        } else {
            reply as usize
        }
    }

    /// Whether a count reply names an empty list.
    pub fn is_empty(&self, reply: isize) -> (r: bool)
        requires
            self.handle.is_bound(),
            -1 <= reply,
        ensures
            r == (reply == -1 || reply == 0),
    {
        reply == -1 || reply == 0
    }

    /// The message, aimed at the hosted combo box, that asks for the
    /// selected index; hand the reply to
    /// [`ComboBoxEx::selection_from_reply`].
    pub fn selection(&self, combo: usize) -> (m: ControlMessage)
        requires
            self.handle.is_bound(),
        ensures
            m.hwnd == combo,
            m.msg == CB_GETCURSEL,
            m.wparam == 0,
            m.lparam == 0,
    {
        ControlMessage { hwnd: combo, msg: CB_GETCURSEL, wparam: 0, lparam: 0 }
    }

    /// Reads a selection out of a reply: the error value means nothing is
    /// selected.
    pub fn selection_from_reply(reply: isize) -> (r: Option<usize>)
        requires
            -1 <= reply,
        ensures
            reply == -1 ==> r is None,
            reply != -1 ==> r == Some(reply as usize),
    {
        if reply == -1 {
            None
        } else {
            Some(reply as usize)
        }
    }

    /// The message, aimed at the hosted combo box, that selects an index,
    /// or clears the selection when none is given.
    pub fn set_selection(&self, combo: usize, index: Option<usize>) -> (m: ControlMessage)
        requires
            self.handle.is_bound(),
            index matches Some(i) ==> i <= isize::MAX as usize,
        ensures
            m.hwnd == combo,
            m.msg == CB_SETCURSEL,
            m.wparam == match index {
                Some(i) => i,
                None => usize::MAX,
            },
            m.lparam == 0,
    {
        let i: usize = match index {
            Some(i) => i,
            None => usize::MAX,
        };
        ControlMessage { hwnd: combo, msg: CB_SETCURSEL, wparam: i, lparam: 0 }
    }

    /// The message, aimed at the hosted combo box, that opens or closes
    /// the drop-down list.
    pub fn dropdown(&self, combo: usize, show: bool) -> (m: ControlMessage)
        requires
            self.handle.is_bound(),
        ensures
            m.hwnd == combo,
            m.msg == CB_SHOWDROPDOWN,
            m.wparam == (if show {
                1int
            } else {
                0int
            }),
            m.lparam == 0,
    {
        ControlMessage {
            hwnd: combo,
            msg: CB_SHOWDROPDOWN,
            wparam: if show {
                1
            } else {
                0
            },
            lparam: 0,
        }
    }

    /// The message that asks whether the edit field changed; the reply is
    /// nonzero when it did.
    pub fn has_edit_changed(&self) -> (m: ControlMessage)
        requires
            self.handle.is_bound(),
        ensures
            m.hwnd == self.handle.hwnd_spec(),
            m.msg == CBEM_HASEDITCHANGED,
            m.wparam == 0,
            m.lparam == 0,
    {
        ControlMessage {
            hwnd: self.handle.checked_hwnd(),
            msg: CBEM_HASEDITCHANGED,
            wparam: 0,
            lparam: 0,
        }
    }

    /// The message that replaces the extended style bits.
    pub fn set_style_ex(&self, style: u32) -> (m: ControlMessage)
        requires
            self.handle.is_bound(),
        ensures
            m.hwnd == self.handle.hwnd_spec(),
            m.msg == CBEM_SETEXTENDEDSTYLE,
            m.wparam == 0,
            m.lparam == style as i64,
    {
        ControlMessage {
            hwnd: self.handle.checked_hwnd(),
            msg: CBEM_SETEXTENDEDSTYLE,
            wparam: 0,
            lparam: style as i64,
        }
    }

    /// The message that asks for the extended style bits; hand the reply
    /// to [`ComboBoxEx::style_ex_from_reply`].
    pub fn style_ex(&self) -> (m: ControlMessage)
        requires
            self.handle.is_bound(),
        ensures
            m.hwnd == self.handle.hwnd_spec(),
            m.msg == CBEM_GETEXTENDEDSTYLE,
            m.wparam == 0,
            m.lparam == 0,
    {
        ControlMessage {
            hwnd: self.handle.checked_hwnd(),
            msg: CBEM_GETEXTENDEDSTYLE,
            wparam: 0,
            lparam: 0,
        }
    }

    /// Keeps the bits of a style reply that name a documented extended
    /// style; they all live in the low six bits.
    pub fn style_ex_from_reply(reply: isize) -> (r: u32)
        requires
            0 <= reply,
        ensures
            r == reply % 0x40,
    {
        let word: usize = reply as usize;
        (word % 0x40) as u32
    }

    /// Asks the platform layer for the control's font handle; interpret the
    /// reply with [`crate::base::decode_font`].
    pub fn font(&self) -> (r: WindowRequest)
        requires
            self.handle.is_bound(),
        ensures
            r.hwnd == self.handle.hwnd_spec(),
            r.op == WindowOp::GetFont,
    {
        WindowRequest { hwnd: self.handle.checked_hwnd(), op: WindowOp::GetFont }
    }

    /// Sets the control's font, or clears it.
    pub fn set_font(&self, font: Option<&Font>) -> (r: WindowRequest)
        requires
            self.handle.is_bound(),
        ensures
            r.hwnd == self.handle.hwnd_spec(),
            r.op == WindowOp::SetFont(
                match font {
                    Some(f) => Some(f.handle),
                    None => None,
                },
            ),
    {
        let h = match font {
            Some(f) => Some(f.handle),
            None => None,
        };
        WindowRequest { hwnd: self.handle.checked_hwnd(), op: WindowOp::SetFont(h) }
    }

    /// Asks whether the window is visible; the reply is nonzero when it is.
    pub fn visible(&self) -> (r: WindowRequest)
        requires
            self.handle.is_bound(),
        ensures
            r.hwnd == self.handle.hwnd_spec(),
            r.op == WindowOp::GetVisible,
    {
        WindowRequest { hwnd: self.handle.checked_hwnd(), op: WindowOp::GetVisible }
    }

    /// Shows or hides the window.
    pub fn set_visible(&self, visible: bool) -> (r: WindowRequest)
        requires
            self.handle.is_bound(),
        ensures
            r.hwnd == self.handle.hwnd_spec(),
            r.op == WindowOp::SetVisible(visible),
    {
        WindowRequest { hwnd: self.handle.checked_hwnd(), op: WindowOp::SetVisible(visible) }
    }

    /// Asks whether the window is enabled; the reply is nonzero when it is.
    pub fn enabled(&self) -> (r: WindowRequest)
        requires
            self.handle.is_bound(),
        ensures
            r.hwnd == self.handle.hwnd_spec(),
            r.op == WindowOp::GetEnabled,
    {
        WindowRequest { hwnd: self.handle.checked_hwnd(), op: WindowOp::GetEnabled }
    }

    /// Enables or disables the window.
    pub fn set_enabled(&self, enabled: bool) -> (r: WindowRequest)
        requires
            self.handle.is_bound(),
        ensures
            r.hwnd == self.handle.hwnd_spec(),
            r.op == WindowOp::SetEnabled(enabled),
    {
        WindowRequest { hwnd: self.handle.checked_hwnd(), op: WindowOp::SetEnabled(enabled) }
    }

    /// Asks for the window's position in its parent.
    pub fn position(&self) -> (r: WindowRequest)
        requires
            self.handle.is_bound(),
        ensures
            r.hwnd == self.handle.hwnd_spec(),
            r.op == WindowOp::GetPosition,
    {
        WindowRequest { hwnd: self.handle.checked_hwnd(), op: WindowOp::GetPosition }
    }

    /// Moves the window inside its parent.
    pub fn set_position(&self, x: i32, y: i32) -> (r: WindowRequest)
        requires
            self.handle.is_bound(),
        ensures
            r.hwnd == self.handle.hwnd_spec(),
            r.op == WindowOp::SetPosition(x, y),
    {
        WindowRequest { hwnd: self.handle.checked_hwnd(), op: WindowOp::SetPosition(x, y) }
    }

    /// Asks for the window's size.
    pub fn size(&self) -> (r: WindowRequest)
        requires
            self.handle.is_bound(),
        ensures
            r.hwnd == self.handle.hwnd_spec(),
            r.op == WindowOp::GetSize,
    {
        WindowRequest { hwnd: self.handle.checked_hwnd(), op: WindowOp::GetSize }
    }

    /// Resizes the window.
    pub fn set_size(&self, w: u32, h: u32) -> (r: WindowRequest)
        requires
            self.handle.is_bound(),
        ensures
            r.hwnd == self.handle.hwnd_spec(),
            r.op == WindowOp::SetSize(w, h),
    {
        WindowRequest { hwnd: self.handle.checked_hwnd(), op: WindowOp::SetSize(w, h) }
    }

    /// Gives the control the keyboard focus.
    pub fn set_focus(&self) -> (r: WindowRequest)
        requires
            self.handle.is_bound(),
        ensures
            r.hwnd == self.handle.hwnd_spec(),
            r.op == WindowOp::SetFocus,
    {
        WindowRequest { hwnd: self.handle.checked_hwnd(), op: WindowOp::SetFocus }
    }

    /// The window class this wrapper creates.
    pub fn class_name(&self) -> (r: &'static str)
        ensures
            r@ == "ComboBoxEx32"@,
    {
        "ComboBoxEx32"
    }

    /// The style used when the builder is given none.
    pub fn flags(&self) -> (r: u32)
        ensures
            r == (WS_VISIBLE | CBS_DROPDOWN),
    {
        WS_VISIBLE | CBS_DROPDOWN
    }

    /// The style bits every extended combo box carries.
    pub fn forced_flags(&self) -> (r: u32)
        ensures
            r == WS_CHILD,
    {
        WS_CHILD
    }
}

/// Everything the platform layer must do to stand up one extended combo
/// box: create the window from `base`, bind the handle, set `font` (or the
/// process-wide default when it is `None`), apply the optional extended
/// style, disable the window when `enabled` is false, and give it the
/// focus when `focus` is set.
#[derive(Debug)]
pub struct ComboBoxExCreation {
    pub base: ControlCreation,
    pub font: Option<Font>,
    pub style_ex: Option<u32>,
    pub enabled: bool,
    pub focus: bool,
}

/// Accumulates the configuration of one extended combo box.
pub struct ComboBoxExBuilder {
    pub size: (i32, i32),
    pub position: (i32, i32),
    pub enabled: bool,
    pub focus: bool,
    pub flags: Option<u32>,
    pub ex_flags: u32,
    pub style_ex: Option<u32>,
    pub font: Option<Font>,
    pub parent: Option<ControlHandle>,
}

impl ComboBoxExBuilder {
    pub fn size(self, size: (i32, i32)) -> (r: ComboBoxExBuilder)
        ensures
            r == (ComboBoxExBuilder { size, ..self }),
    {
        ComboBoxExBuilder { size, ..self }
    }

    pub fn position(self, position: (i32, i32)) -> (r: ComboBoxExBuilder)
        ensures
            r == (ComboBoxExBuilder { position, ..self }),
    {
        ComboBoxExBuilder { position, ..self }
    }

    pub fn enabled(self, enabled: bool) -> (r: ComboBoxExBuilder)
        ensures
            r == (ComboBoxExBuilder { enabled, ..self }),
    {
        ComboBoxExBuilder { enabled, ..self }
    }

    pub fn focus(self, focus: bool) -> (r: ComboBoxExBuilder)
        ensures
            r == (ComboBoxExBuilder { focus, ..self }),
    {
        ComboBoxExBuilder { focus, ..self }
    }

    pub fn flags(self, flags: u32) -> (r: ComboBoxExBuilder)
        ensures
            r == (ComboBoxExBuilder { flags: Some(flags), ..self }),
    {
        ComboBoxExBuilder { flags: Some(flags), ..self }
    }

    pub fn ex_flags(self, ex_flags: u32) -> (r: ComboBoxExBuilder)
        ensures
            r == (ComboBoxExBuilder { ex_flags, ..self }),
    {
        ComboBoxExBuilder { ex_flags, ..self }
    }

    pub fn style_ex(self, style_ex: u32) -> (r: ComboBoxExBuilder)
        ensures
            r == (ComboBoxExBuilder { style_ex: Some(style_ex), ..self }),
    {
        ComboBoxExBuilder { style_ex: Some(style_ex), ..self }
    }

    pub fn font(self, font: Option<&Font>) -> (r: ComboBoxExBuilder)
        ensures
            r.font == match font {
                Some(f) => Some(*f),
                None => None::<Font>,
            },
            r.size == self.size,
            r.position == self.position,
            r.enabled == self.enabled,
            r.focus == self.focus,
            r.flags == self.flags,
            r.ex_flags == self.ex_flags,
            r.style_ex == self.style_ex,
            r.parent == self.parent,
    {
        let f = match font {
            Some(f) => Some(*f),
            None => None,
        };
        ComboBoxExBuilder { font: f, ..self }
    }

    pub fn parent(self, p: ControlHandle) -> (r: ComboBoxExBuilder)
        ensures
            r == (ComboBoxExBuilder { parent: Some(p), ..self }),
    {
        ComboBoxExBuilder { parent: Some(p), ..self }
    }

    /// Validates the configuration and assembles the creation request.
    /// Demands a parent: without one the builder errs and leaves `out`
    /// untouched. On success `out` is reset to the unbound state; the
    /// platform layer performs the request and binds the handle.
    pub fn build(self, out: &mut ComboBoxEx) -> (res: Result<ComboBoxExCreation, NwgError>)
        ensures
            self.parent is None ==> (res matches Err(e) && e matches
                NwgError::ControlCreationError(m) && m@ == "ComboBoxEx"@ && *final(out) == *old(
                out,
            )),
            self.parent matches Some(p) ==> (res matches Ok(c) && final(out).handle
                == ControlHandle::NoHandle && c.base.class_name@ == "ComboBoxEx32"@
                && c.base.flags == (match self.flags {
                Some(f) => f,
                None => WS_VISIBLE | CBS_DROPDOWN,
            } | WS_CHILD) && c.base.ex_flags == self.ex_flags && c.base.size == self.size
                && c.base.position == self.position && c.base.text@ == ""@ && c.base.parent == p
                && c.font == self.font && c.style_ex == self.style_ex && c.enabled == self.enabled
                && c.focus == self.focus),
    {
        let parent = match self.parent {
            Some(p) => p,
            None => {
                return Err(NwgError::no_parent("ComboBoxEx"));
            },
        };

        *out = ComboBoxEx { handle: ControlHandle::NoHandle };

        let flags = match self.flags {
            Some(f) => f,
            None => WS_VISIBLE | CBS_DROPDOWN,
        };

        Ok(
            ComboBoxExCreation {
                base: ControlCreation {
                    class_name: "ComboBoxEx32",
                    flags: flags | WS_CHILD,
                    ex_flags: self.ex_flags,
                    size: self.size,
                    position: self.position,
                    text: String::from_str(""),
                    parent,
                },
                font: self.font,
                style_ex: self.style_ex,
                enabled: self.enabled,
                focus: self.focus,
            },
        )
    }
}

} // verus!
