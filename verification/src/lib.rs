//! Verified marshalling layer for a family of native windowing controls.
//!
//! Every control in this crate wraps one native window class. The operating
//! system implements all behaviour; what this crate owns, and what is verified
//! here, is the protocol around the native handle (unbound, bound, destroyed),
//! the builders that validate and assemble a creation request, and the exact
//! packing of every message sent to a control window. A thin platform layer
//! outside this crate performs the actual window creation and message sends
//! from the requests produced here.

pub mod animation;
pub mod base;
pub mod combobox_ex;
pub mod hot_key;
pub mod ip_address;
pub mod month_calendar;
pub mod pager;
pub mod rebar;
pub mod syslink;
pub mod toolbar;

pub use animation::Animation;
pub use animation::AnimationBuilder;
pub use base::ControlHandle;
pub use combobox_ex::ComboBoxEx;
pub use combobox_ex::ComboBoxExBuilder;
pub use combobox_ex::ComboBoxExItem;
pub use hot_key::HotKey;
pub use hot_key::HotKeyBuilder;
pub use hot_key::HotKeyValue;
pub use ip_address::IpAddress;
pub use ip_address::IpAddressBuilder;
pub use month_calendar::MonthCalendar;
pub use month_calendar::MonthCalendarBuilder;
pub use month_calendar::MonthCalendarDate;
pub use pager::Pager;
pub use pager::PagerBuilder;
pub use pager::PagerButton;
pub use pager::PagerButtonState;
pub use rebar::Rebar;
pub use rebar::RebarBand;
pub use rebar::RebarBuilder;
pub use syslink::SysLink;
pub use syslink::SysLinkBuilder;
pub use toolbar::Toolbar;
pub use toolbar::ToolbarBuilder;
pub use toolbar::ToolbarButton;
pub use toolbar::ToolbarButtonStyle;
pub use base::ControlMessage;
pub use base::NwgError;
