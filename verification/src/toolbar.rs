//! A toolbar holds a row of buttons, each with an image, text, or both.
//! Adding a button with text is a two-step exchange: the text is registered
//! first and the button record then names the reply it got.

use vstd::prelude::*;

verus! {

use vstd::string::StringExecFns;
use crate::base::ControlCreation;
use crate::base::ControlHandle;
use crate::base::ControlMessage;
use crate::base::Font;
use crate::base::HandleMessage;
use crate::base::NwgError;
use crate::base::TextMessage;
use crate::base::WindowOp;
use crate::base::WindowRequest;
use crate::base::CCS_NODIVIDER;
use crate::base::WM_SIZE;
use crate::base::WM_USER;
use crate::base::WS_CHILD;
use crate::base::WS_VISIBLE;

// Style bits of the toolbar class.
pub const TBSTYLE_TOOLTIPS: u32 = 0x0100;
pub const TBSTYLE_WRAPABLE: u32 = 0x0200;
pub const TBSTYLE_FLAT: u32 = 0x0800;
pub const TBSTYLE_LIST: u32 = 0x1000;

// Style bytes of a single button.
pub const BTNS_BUTTON: u8 = 0x00;
pub const BTNS_SEP: u8 = 0x01;
pub const BTNS_CHECK: u8 = 0x02;
pub const BTNS_GROUP: u8 = 0x04;
pub const BTNS_CHECKGROUP: u8 = 0x06;
pub const BTNS_DROPDOWN: u8 = 0x08;
pub const BTNS_WHOLEDROPDOWN: u8 = 0x80;

/// The state byte of a button that starts out enabled.
pub const TBSTATE_ENABLED: u8 = 0x04;

// Messages understood by the toolbar class.
pub const TB_ENABLEBUTTON: u32 = WM_USER + 1;
pub const TB_CHECKBUTTON: u32 = WM_USER + 2;
pub const TB_ISBUTTONENABLED: u32 = WM_USER + 9;
pub const TB_ISBUTTONCHECKED: u32 = WM_USER + 10;
pub const TB_DELETEBUTTON: u32 = WM_USER + 22;
pub const TB_BUTTONCOUNT: u32 = WM_USER + 24;
pub const TB_COMMANDTOINDEX: u32 = WM_USER + 25;
pub const TB_BUTTONSTRUCTSIZE: u32 = WM_USER + 30;
pub const TB_SETBUTTONSIZE: u32 = WM_USER + 31;
pub const TB_AUTOSIZE: u32 = WM_USER + 33;
pub const TB_SETIMAGELIST: u32 = WM_USER + 48;
pub const TB_ADDBUTTONSW: u32 = WM_USER + 68;
pub const TB_ADDSTRINGW: u32 = WM_USER + 77;

/// The style of one toolbar button.
#[derive(Clone, Copy, Debug, PartialEq, Eq, Structural)]
pub enum ToolbarButtonStyle {
    /// A plain push button.
    Button,
    /// A small gap between buttons.
    Separator,
    /// A button that toggles between pressed and released.
    Check,
    /// A button with a drop-down arrow.
    Dropdown,
    /// A button belonging to a group.
    Group,
    /// A toggling button belonging to a group.
    CheckGroup,
    /// A drop-down whose arrow is a separate press area.
    WholeDropdown,
}

impl Default for ToolbarButtonStyle {
    /// A plain push button.
    fn default() -> (r: Self)
        ensures
            r == ToolbarButtonStyle::Button,
    {
        ToolbarButtonStyle::Button
    }
}

/// The style byte each button style writes into its record.
pub open spec fn tb_style_bits(style: ToolbarButtonStyle) -> u8 {
    match style {
        ToolbarButtonStyle::Button => BTNS_BUTTON,
        ToolbarButtonStyle::Separator => BTNS_SEP,
        ToolbarButtonStyle::Check => BTNS_CHECK,
        ToolbarButtonStyle::Dropdown => BTNS_DROPDOWN,
        ToolbarButtonStyle::Group => BTNS_GROUP,
        ToolbarButtonStyle::CheckGroup => BTNS_CHECKGROUP,
        ToolbarButtonStyle::WholeDropdown => BTNS_WHOLEDROPDOWN,
    }
}

impl ToolbarButtonStyle {
    /// The style byte this style writes into its record.
    pub fn to_tbstyle(&self) -> (r: u8)
        ensures
            r == tb_style_bits(*self),
    {
        match self {
            ToolbarButtonStyle::Button => BTNS_BUTTON,
            ToolbarButtonStyle::Separator => BTNS_SEP,
            ToolbarButtonStyle::Check => BTNS_CHECK,
            ToolbarButtonStyle::Dropdown => BTNS_DROPDOWN,
            ToolbarButtonStyle::Group => BTNS_GROUP,
            ToolbarButtonStyle::CheckGroup => BTNS_CHECKGROUP,
            ToolbarButtonStyle::WholeDropdown => BTNS_WHOLEDROPDOWN,
        }
    }
}

/// A button to insert: its command number, its image index (negative for
/// none), its style, whether it starts enabled, and its optional text.
#[derive(Debug)]
pub struct ToolbarButton {
    pub id: i32,
    pub image_index: i32,
    pub style: ToolbarButtonStyle,
    pub enabled: bool,
    pub text: Option<String>,
}

impl Default for ToolbarButton {
    /// An enabled push button with no image and no text.
    fn default() -> (r: Self)
        ensures
            r.id == 0,
            r.image_index == -1,
            r.style == ToolbarButtonStyle::Button,
            r.enabled == true,
            r.text is None,
    {
        ToolbarButton {
            id: 0,
            image_index: -1,
            style: ToolbarButtonStyle::Button,
            enabled: true,
            text: None,
        }
    }
}

impl ToolbarButton {
    /// An enabled push button with the given command number.
    pub fn new(id: i32) -> (r: Self)
        ensures
            r.id == id,
            r.image_index == -1,
            r.style == ToolbarButtonStyle::Button,
            r.enabled == true,
            r.text is None,
    {
        ToolbarButton {
            id,
            image_index: -1,
            style: ToolbarButtonStyle::Button,
            enabled: true,
            text: None,
        }
    }

    /// Replaces the image index.
    pub fn with_image(self, index: i32) -> (r: Self)
        ensures
            r.image_index == index,
            r.id == self.id,
            r.style == self.style,
            r.enabled == self.enabled,
            r.text == self.text,
    {
        ToolbarButton { image_index: index, ..self }
    }

    /// Replaces the style.
    pub fn with_style(self, style: ToolbarButtonStyle) -> (r: Self)
        ensures
            r.style == style,
            r.id == self.id,
            r.image_index == self.image_index,
            r.enabled == self.enabled,
            r.text == self.text,
    {
        ToolbarButton { style, ..self }
    }

    /// Replaces the text.
    pub fn with_text(self, text: &str) -> (r: Self)
        ensures
            r.text matches Some(t) && t@ == text@,
            r.id == self.id,
            r.image_index == self.image_index,
            r.style == self.style,
            r.enabled == self.enabled,
    {
        ToolbarButton { text: Some(String::from_str(text)), ..self }
    }

    /// Replaces the enabled state.
    pub fn enabled(self, enabled: bool) -> (r: Self)
        ensures
            r.enabled == enabled,
            r.id == self.id,
            r.image_index == self.image_index,
            r.style == self.style,
            r.text == self.text,
    {
        ToolbarButton { enabled, ..self }
    }
}

/// One button record to append: the platform layer sends it, one record at
/// a time, with the button-struct-size preamble already made.
#[derive(Debug)]
pub struct ButtonRequest {
    pub hwnd: usize,
    /// The image index of the button.
    pub bitmap: i32,
    /// The command number reported when the button is pressed.
    pub command_id: i32,
    /// The state byte; an enabled button carries [`TBSTATE_ENABLED`].
    pub state: u8,
    /// The style byte, as [`tb_style_bits`] gives it.
    pub style: u8,
    /// The string index the record names: the reply the registered text
    /// got, or zero for a button without text.
    pub string_index: isize,
    /// The button's text, already registered when this is `Some`.
    pub text: Option<String>,
}

/// The record that appending `button` produces: image, command number,
/// state and style bytes taken from the button, and the registered string
/// index named only when the button has text.
pub open spec fn button_record_spec(
    hwnd: usize,
    button: ToolbarButton,
    string_index: isize,
) -> ButtonRequest {
    ButtonRequest {
        hwnd,
        bitmap: button.image_index,
        command_id: button.id,
        state: if button.enabled {
            TBSTATE_ENABLED
        } else {
            0u8
        },
        style: tb_style_bits(button.style),
        string_index: if button.text is Some {
            string_index
        } else {
            0isize
        },
        text: button.text,
    }
}

/// Wrapper around one native toolbar window.
#[derive(Clone, Copy, PartialEq, Eq, Structural, Debug)]
pub struct Toolbar {
    pub handle: ControlHandle,
}

impl Default for Toolbar {
    /// A fresh wrapper is unbound.
    fn default() -> (r: Self)
        ensures
            r.handle == ControlHandle::NoHandle,
    {
        Toolbar { handle: ControlHandle::NoHandle }
    }
}

impl Toolbar {
    /// A builder with the control's default configuration.
    pub fn builder() -> (r: ToolbarBuilder)
        ensures
            r.size == (0i32, 32i32),
            r.position == (0i32, 0i32),
            r.enabled == true,
            r.flags is None,
            r.ex_flags == 0,
            r.font is None,
            r.parent is None,
            r.buttons@.len() == 0,
            r.button_size is None,
    {
        ToolbarBuilder {
            size: (0, 32),
            position: (0, 0),
            enabled: true,
            flags: None,
            ex_flags: 0,
            font: None,
            parent: None,
            buttons: Vec::new(),
            button_size: None,
        }
    }

    /// The message that registers a button's text, when it has any; the
    /// reply is the string index the button record must name.
    pub fn add_button_string(&self, button: &ToolbarButton) -> (r: Option<TextMessage>)
        requires
            self.handle.is_bound(),
        ensures
            button.text matches Some(t) ==> (r matches Some(m) && m.hwnd
                == self.handle.hwnd_spec() && m.msg == TB_ADDSTRINGW && m.wparam == 0 && m.text@
                == t@),
            button.text is None ==> r is None,
    {
        match &button.text {
            Some(t) => Some(
                TextMessage {
                    hwnd: self.handle.checked_hwnd(),
                    msg: TB_ADDSTRINGW,
                    wparam: 0,
                    text: t.clone(),
                },
            ),
            None => None,
        }
    }

    /// The record that appends one button. For a button with text,
    /// `string_index` is the reply its registration got; for one without,
    /// the record names index zero whatever is passed.
    pub fn add_button(&self, button: &ToolbarButton, string_index: isize) -> (r: ButtonRequest)
        requires
            self.handle.is_bound(),
        ensures
            r == button_record_spec(self.handle.hwnd_spec(), *button, string_index),
    {
        let text: Option<String> = match &button.text {
            Some(t) => Some(t.clone()),
            None => None,
        };
        ButtonRequest {
            hwnd: self.handle.checked_hwnd(),
            bitmap: button.image_index,
            command_id: button.id,
            state: if button.enabled {
                TBSTATE_ENABLED
            } else {
                0
            },
            style: button.style.to_tbstyle(),
            string_index: if button.text.is_some() {
                string_index
            } else {
                0
            },
            text,
        }
    }

    /// The records that append a run of buttons, in slice order. Each
    /// entry of `string_indices` is the reply the matching button's text
    /// registration got, and is ignored for a button without text.
    pub fn add_buttons(&self, buttons: &[ToolbarButton], string_indices: &[isize]) -> (r: Vec<
        ButtonRequest,
    >)
        requires
            self.handle.is_bound(),
            buttons@.len() == string_indices@.len(),
        ensures
            r@.len() == buttons@.len(),
            forall|j: int|
                0 <= j < buttons@.len() ==> #[trigger] r@[j] == button_record_spec(
                    self.handle.hwnd_spec(),
                    buttons@[j],
                    string_indices@[j],
                ),
    {
        let mut requests: Vec<ButtonRequest> = Vec::new();
        let mut i: usize = 0;
        while i < buttons.len()
            invariant
                self.handle.is_bound(),
                buttons@.len() == string_indices@.len(),
                i <= buttons@.len(),
                requests@.len() == i,
                forall|j: int|
                    0 <= j < i ==> #[trigger] requests@[j] == button_record_spec(
                        self.handle.hwnd_spec(),
                        buttons@[j],
                        string_indices@[j],
                    ),
            decreases buttons@.len() - i,
        {
            let req = self.add_button(&buttons[i], string_indices[i]);
            requests.push(req);
            i = i + 1;
        }
        requests
    }

    /// The record that appends a separator.
    pub fn add_separator(&self) -> (r: ButtonRequest)
        requires
            self.handle.is_bound(),
        ensures
            r.hwnd == self.handle.hwnd_spec(),
            r.bitmap == -1,
            r.command_id == 0,
            r.state == TBSTATE_ENABLED,
            r.style == BTNS_SEP,
            r.string_index == 0,
            r.text is None,
    {
        let button = ToolbarButton {
            style: ToolbarButtonStyle::Separator,
            id: 0,
            image_index: -1,
            enabled: true,
            text: None,
        };
        self.add_button(&button, 0)
    }

    /// The message that removes the button standing at `index`, as a
    /// command-to-index query reported it; a negative index means the
    /// command was not found and nothing is sent.
    pub fn remove_button(&self, index: isize) -> (r: Option<ControlMessage>)
        requires
            self.handle.is_bound(),
        ensures
            index >= 0 ==> r == Some(
                ControlMessage {
                    hwnd: self.handle.hwnd_spec(),
                    msg: TB_DELETEBUTTON,
                    wparam: index as usize,
                    lparam: 0,
                },
            ),
            index < 0 ==> r is None,
    {
        if index >= 0 {
            Some(
                ControlMessage {
                    hwnd: self.handle.checked_hwnd(),
                    msg: TB_DELETEBUTTON,
                    wparam: index as usize,
                    lparam: 0,
                },
            )
        } else {
            None
        }
    }

    /// The message that asks where the button with a command number
    /// stands; the reply is its index, negative when there is none.
    pub fn button_index(&self, id: i32) -> (m: ControlMessage)
        requires
            self.handle.is_bound(),
        ensures
            m.hwnd == self.handle.hwnd_spec(),
            m.msg == TB_COMMANDTOINDEX,
            m.wparam == id as usize,
            m.lparam == 0,
    {
        ControlMessage {
            hwnd: self.handle.checked_hwnd(),
            msg: TB_COMMANDTOINDEX,
            wparam: #[verifier::truncate] (id as usize),
            lparam: 0,
        }
    }

    /// The message that counts the buttons; interpret the reply with
    /// [`crate::base::reply_as_u32`].
    pub fn button_count(&self) -> (m: ControlMessage)
        requires
            self.handle.is_bound(),
        ensures
            m.hwnd == self.handle.hwnd_spec(),
            m.msg == TB_BUTTONCOUNT,
            m.wparam == 0,
            m.lparam == 0,
    {
        ControlMessage {
            hwnd: self.handle.checked_hwnd(),
            msg: TB_BUTTONCOUNT,
            wparam: 0,
            lparam: 0,
        }
    }

    /// The message that enables or disables the button with a command
    /// number.
    pub fn set_button_enabled(&self, id: i32, enabled: bool) -> (m: ControlMessage)
        requires
            self.handle.is_bound(),
        ensures
            m.hwnd == self.handle.hwnd_spec(),
            m.msg == TB_ENABLEBUTTON,
            m.wparam == id as usize,
            m.lparam == (if enabled {
                1int
            } else {
                0int
            }),
    {
        ControlMessage {
            hwnd: self.handle.checked_hwnd(),
            msg: TB_ENABLEBUTTON,
            wparam: #[verifier::truncate] (id as usize),
            lparam: if enabled {
                1
            } else {
                0
            },
        }
    }

    /// The message that asks whether the button with a command number is
    /// enabled; the reply is nonzero when it is.
    pub fn button_enabled(&self, id: i32) -> (m: ControlMessage)
        requires
            self.handle.is_bound(),
        ensures
            m.hwnd == self.handle.hwnd_spec(),
            m.msg == TB_ISBUTTONENABLED,
            m.wparam == id as usize,
            m.lparam == 0,
    {
        ControlMessage {
            hwnd: self.handle.checked_hwnd(),
            msg: TB_ISBUTTONENABLED,
            wparam: #[verifier::truncate] (id as usize),
            lparam: 0,
        }
    }

    /// The message that presses or releases a toggling button.
    pub fn set_button_checked(&self, id: i32, checked: bool) -> (m: ControlMessage)
        requires
            self.handle.is_bound(),
        ensures
            m.hwnd == self.handle.hwnd_spec(),
            m.msg == TB_CHECKBUTTON,
            m.wparam == id as usize,
            m.lparam == (if checked {
                1int
            } else {
                0int
            }),
    {
        ControlMessage {
            hwnd: self.handle.checked_hwnd(),
            msg: TB_CHECKBUTTON,
            wparam: #[verifier::truncate] (id as usize),
            lparam: if checked {
                1
            } else {
                0
            },
        }
    }

    /// The message that asks whether a toggling button is pressed; the
    /// reply is nonzero when it is.
    pub fn button_checked(&self, id: i32) -> (m: ControlMessage)
        requires
            self.handle.is_bound(),
        ensures
            m.hwnd == self.handle.hwnd_spec(),
            m.msg == TB_ISBUTTONCHECKED,
            m.wparam == id as usize,
            m.lparam == 0,
    {
        ControlMessage {
            hwnd: self.handle.checked_hwnd(),
            msg: TB_ISBUTTONCHECKED,
            wparam: #[verifier::truncate] (id as usize),
            lparam: 0,
        }
    }

    /// The message that sets every button's extent, the height packed into
    /// the word above the width.
    pub fn set_button_size(&self, width: u16, height: u16) -> (m: ControlMessage)
        requires
            self.handle.is_bound(),
        ensures
            m.hwnd == self.handle.hwnd_spec(),
            m.msg == TB_SETBUTTONSIZE,
            m.wparam == 0,
            m.lparam == height * 0x10000 + width,
    {
        ControlMessage {
            hwnd: self.handle.checked_hwnd(),
            msg: TB_SETBUTTONSIZE,
            wparam: 0,
            lparam: (height as i64) * 0x10000 + (width as i64),
        }
    }

    /// The message that hands the toolbar its image list, or detaches it.
    pub fn set_image_list(&self, list: Option<usize>) -> (m: HandleMessage)
        requires
            self.handle.is_bound(),
        ensures
            m.hwnd == self.handle.hwnd_spec(),
            m.msg == TB_SETIMAGELIST,
            m.wparam == 0,
            m.handle == match list {
                Some(h) => h,
                None => 0,
            },
    {
        let h: usize = match list {
            Some(h) => h,
            None => 0,
        };
        HandleMessage {
            hwnd: self.handle.checked_hwnd(),
            msg: TB_SETIMAGELIST,
            wparam: 0,
            handle: h,
        }
    }

    /// The message that makes the toolbar size itself to its buttons.
    pub fn auto_size(&self) -> (m: ControlMessage)
        requires
            self.handle.is_bound(),
        ensures
            m.hwnd == self.handle.hwnd_spec(),
            m.msg == TB_AUTOSIZE,
            m.wparam == 0,
            m.lparam == 0,
    {
        ControlMessage { hwnd: self.handle.checked_hwnd(), msg: TB_AUTOSIZE, wparam: 0, lparam: 0 }
    }

    /// What to send when the parent window reports a message: on a size
    /// change the toolbar is told to size itself again, anything else
    /// passes without action.
    pub fn on_parent_resize(&self, msg: u32) -> (r: Option<ControlMessage>)
        requires
            self.handle.is_bound(),
        ensures
            msg == WM_SIZE ==> r == Some(
                ControlMessage {
                    hwnd: self.handle.hwnd_spec(),
                    msg: TB_AUTOSIZE,
                    wparam: 0,
                    lparam: 0,
                },
            ),
            msg != WM_SIZE ==> r is None,
    {
        if msg == WM_SIZE {
            Some(self.auto_size())
        } else {
            None
        }
    }

    /// Asks the platform layer for the control's font handle; interpret the
    /// reply with [`crate::base::decode_font`].
    pub fn font(&self) -> (r: WindowRequest)
        requires
            self.handle.is_bound(),
        ensures
            r.hwnd == self.handle.hwnd_spec(),
            r.op == WindowOp::GetFont,
    {
        WindowRequest { hwnd: self.handle.checked_hwnd(), op: WindowOp::GetFont }
    }

    /// Sets the control's font, or clears it.
    pub fn set_font(&self, font: Option<&Font>) -> (r: WindowRequest)
        requires
            self.handle.is_bound(),
        ensures
            r.hwnd == self.handle.hwnd_spec(),
            r.op == WindowOp::SetFont(
                match font {
                    Some(f) => Some(f.handle),
                    None => None,
                },
            ),
    {
        let h = match font {
            Some(f) => Some(f.handle),
            None => None,
        };
        WindowRequest { hwnd: self.handle.checked_hwnd(), op: WindowOp::SetFont(h) }
    }

    /// Asks whether the window is visible; the reply is nonzero when it is.
    pub fn visible(&self) -> (r: WindowRequest)
        requires
            self.handle.is_bound(),
        ensures
            r.hwnd == self.handle.hwnd_spec(),
            r.op == WindowOp::GetVisible,
    {
        WindowRequest { hwnd: self.handle.checked_hwnd(), op: WindowOp::GetVisible }
    }

    /// Shows or hides the window.
    pub fn set_visible(&self, visible: bool) -> (r: WindowRequest)
        requires
            self.handle.is_bound(),
        ensures
            r.hwnd == self.handle.hwnd_spec(),
            r.op == WindowOp::SetVisible(visible),
    {
        WindowRequest { hwnd: self.handle.checked_hwnd(), op: WindowOp::SetVisible(visible) }
    }

    /// Asks whether the window is enabled; the reply is nonzero when it is.
    pub fn enabled(&self) -> (r: WindowRequest)
        requires
            self.handle.is_bound(),
        ensures
            r.hwnd == self.handle.hwnd_spec(),
            r.op == WindowOp::GetEnabled,
    {
        WindowRequest { hwnd: self.handle.checked_hwnd(), op: WindowOp::GetEnabled }
    }

    /// Enables or disables the window.
    pub fn set_enabled(&self, enabled: bool) -> (r: WindowRequest)
        requires
            self.handle.is_bound(),
        ensures
            r.hwnd == self.handle.hwnd_spec(),
            r.op == WindowOp::SetEnabled(enabled),
    {
        WindowRequest { hwnd: self.handle.checked_hwnd(), op: WindowOp::SetEnabled(enabled) }
    }

    /// The window class this wrapper creates.
    pub fn class_name(&self) -> (r: &'static str)
        ensures
            r@ == "ToolbarWindow32"@,
    {
        "ToolbarWindow32"
    }

    /// The style used when the builder is given none.
    pub fn flags(&self) -> (r: u32)
        ensures
            r == (WS_VISIBLE | TBSTYLE_FLAT | CCS_NODIVIDER),
    {
        WS_VISIBLE | TBSTYLE_FLAT | CCS_NODIVIDER
    }

    /// The style bits every toolbar carries.
    pub fn forced_flags(&self) -> (r: u32)
        ensures
            r == WS_CHILD,
    {
        WS_CHILD
    }
}

/// Everything the platform layer must do to stand up one toolbar: create
/// the window from `base`, bind the handle, make the button-struct-size
/// preamble, apply the optional button extent, set `font` (or the
/// process-wide default when it is `None`), append `buttons` in order
/// (registering each text first), tell the toolbar to size itself, hook
/// the parent's size changes, and disable the window when `enabled` is
/// false.
#[derive(Debug)]
pub struct ToolbarCreation {
    pub base: ControlCreation,
    pub button_size: Option<(u16, u16)>,
    pub font: Option<Font>,
    pub buttons: Vec<ToolbarButton>,
    pub enabled: bool,
}

/// Accumulates the configuration of one toolbar.
pub struct ToolbarBuilder {
    pub size: (i32, i32),
    pub position: (i32, i32),
    pub enabled: bool,
    pub flags: Option<u32>,
    pub ex_flags: u32,
    pub font: Option<Font>,
    pub parent: Option<ControlHandle>,
    pub buttons: Vec<ToolbarButton>,
    pub button_size: Option<(u16, u16)>,
}

impl ToolbarBuilder {
    pub fn size(self, size: (i32, i32)) -> (r: ToolbarBuilder)
        ensures
            r.size == size,
            r.position == self.position,
            r.enabled == self.enabled,
            r.flags == self.flags,
            r.ex_flags == self.ex_flags,
            r.font == self.font,
            r.parent == self.parent,
            r.buttons == self.buttons,
            r.button_size == self.button_size,
    {
        ToolbarBuilder { size, ..self }
    }

    pub fn position(self, position: (i32, i32)) -> (r: ToolbarBuilder)
        ensures
            r.position == position,
            r.size == self.size,
            r.enabled == self.enabled,
            r.flags == self.flags,
            r.ex_flags == self.ex_flags,
            r.font == self.font,
            r.parent == self.parent,
            r.buttons == self.buttons,
            r.button_size == self.button_size,
    {
        ToolbarBuilder { position, ..self }
    }

    pub fn enabled(self, enabled: bool) -> (r: ToolbarBuilder)
        ensures
            r.enabled == enabled,
            r.size == self.size,
            r.position == self.position,
            r.flags == self.flags,
            r.ex_flags == self.ex_flags,
            r.font == self.font,
            r.parent == self.parent,
            r.buttons == self.buttons,
            r.button_size == self.button_size,
    {
        ToolbarBuilder { enabled, ..self }
    }

    pub fn flags(self, flags: u32) -> (r: ToolbarBuilder)
        ensures
            r.flags == Some(flags),
            r.size == self.size,
            r.position == self.position,
            r.enabled == self.enabled,
            r.ex_flags == self.ex_flags,
            r.font == self.font,
            r.parent == self.parent,
            r.buttons == self.buttons,
            r.button_size == self.button_size,
    {
        ToolbarBuilder { flags: Some(flags), ..self }
    }

    pub fn ex_flags(self, ex_flags: u32) -> (r: ToolbarBuilder)
        ensures
            r.ex_flags == ex_flags,
            r.size == self.size,
            r.position == self.position,
            r.enabled == self.enabled,
            r.flags == self.flags,
            r.font == self.font,
            r.parent == self.parent,
            r.buttons == self.buttons,
            r.button_size == self.button_size,
    {
        ToolbarBuilder { ex_flags, ..self }
    }

    pub fn font(self, font: Option<&Font>) -> (r: ToolbarBuilder)
        ensures
            r.font == match font {
                Some(f) => Some(*f),
                None => None::<Font>,
            },
            r.size == self.size,
            r.position == self.position,
            r.enabled == self.enabled,
            r.flags == self.flags,
            r.ex_flags == self.ex_flags,
            r.parent == self.parent,
            r.buttons == self.buttons,
            r.button_size == self.button_size,
    {
        let f = match font {
            Some(f) => Some(*f),
            None => None,
        };
        ToolbarBuilder { font: f, ..self }
    }

    pub fn parent(self, p: ControlHandle) -> (r: ToolbarBuilder)
        ensures
            r.parent == Some(p),
            r.size == self.size,
            r.position == self.position,
            r.enabled == self.enabled,
            r.flags == self.flags,
            r.ex_flags == self.ex_flags,
            r.font == self.font,
            r.buttons == self.buttons,
            r.button_size == self.button_size,
    {
        ToolbarBuilder { parent: Some(p), ..self }
    }

    pub fn buttons(self, buttons: Vec<ToolbarButton>) -> (r: ToolbarBuilder)
        ensures
            r.buttons == buttons,
            r.size == self.size,
            r.position == self.position,
            r.enabled == self.enabled,
            r.flags == self.flags,
            r.ex_flags == self.ex_flags,
            r.font == self.font,
            r.parent == self.parent,
            r.button_size == self.button_size,
    {
        ToolbarBuilder { buttons, ..self }
    }

    pub fn button_size(self, width: u16, height: u16) -> (r: ToolbarBuilder)
        ensures
            r.button_size == Some((width, height)),
            r.size == self.size,
            r.position == self.position,
            r.enabled == self.enabled,
            r.flags == self.flags,
            r.ex_flags == self.ex_flags,
            r.font == self.font,
            r.parent == self.parent,
            r.buttons == self.buttons,
    {
        ToolbarBuilder { button_size: Some((width, height)), ..self }
    }

    /// Validates the configuration and assembles the creation request.
    /// Demands a parent: without one the builder errs and leaves `out`
    /// untouched. On success `out` is reset to the unbound state; the
    /// platform layer performs the request and binds the handle.
    pub fn build(self, out: &mut Toolbar) -> (res: Result<ToolbarCreation, NwgError>)
        ensures
            self.parent is None ==> (res matches Err(e) && e matches
                NwgError::ControlCreationError(m) && m@ == "Toolbar"@ && *final(out) == *old(out)),
            self.parent matches Some(p) ==> (res matches Ok(c) && final(out).handle
                == ControlHandle::NoHandle && c.base.class_name@ == "ToolbarWindow32"@
                && c.base.flags == (match self.flags {
                Some(f) => f,
                None => WS_VISIBLE | TBSTYLE_FLAT | CCS_NODIVIDER,
            } | WS_CHILD) && c.base.ex_flags == self.ex_flags && c.base.size == self.size
                && c.base.position == self.position && c.base.text@ == ""@ && c.base.parent == p
                && c.button_size == self.button_size && c.font == self.font && c.buttons
                == self.buttons && c.enabled == self.enabled),
    {
        let parent = match self.parent {
            Some(p) => p,
            None => {
                return Err(NwgError::no_parent("Toolbar"));
            },
        };

        *out = Toolbar { handle: ControlHandle::NoHandle };

        let flags = match self.flags {
            Some(f) => f,
            None => WS_VISIBLE | TBSTYLE_FLAT | CCS_NODIVIDER,
        };

        Ok(
            ToolbarCreation {
                base: ControlCreation {
                    class_name: "ToolbarWindow32",
                    flags: flags | WS_CHILD,
                    ex_flags: self.ex_flags,
                    size: self.size,
                    position: self.position,
                    text: String::from_str(""),
                    parent,
                },
                button_size: self.button_size,
                font: self.font,
                buttons: self.buttons,
                enabled: self.enabled,
            },
        )
    }
}

} // verus!
