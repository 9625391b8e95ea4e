use native_windows_gui::animation::{Animation, ACS_CENTER};
use native_windows_gui::base::{ControlHandle, Font, NwgError, WindowOp};
use native_windows_gui::combobox_ex::ComboBoxEx;
use native_windows_gui::hot_key::HotKey;
use native_windows_gui::ip_address::IpAddress;
use native_windows_gui::month_calendar::{MonthCalendar, MonthCalendarDate};
use native_windows_gui::pager::Pager;
use native_windows_gui::rebar::Rebar;
use native_windows_gui::syslink::SysLink;
use native_windows_gui::toolbar::{Toolbar, ToolbarButton};

const PARENT: ControlHandle = ControlHandle::Hwnd(0x1000);

fn error_name(e: NwgError) -> String {
    match e {
        NwgError::ControlCreationError(name) => name,
    }
}

#[test]
fn every_builder_demands_a_parent() {
    let mut animation = Animation::default();
    let e = Animation::builder().build(&mut animation).unwrap_err();
    assert_eq!(error_name(e), "Animation");

    let mut combo = ComboBoxEx::default();
    let e = ComboBoxEx::builder().build(&mut combo).unwrap_err();
    assert_eq!(error_name(e), "ComboBoxEx");

    let mut hot_key = HotKey::default();
    let e = HotKey::builder().build(&mut hot_key).unwrap_err();
    assert_eq!(error_name(e), "HotKey");

    let mut ip = IpAddress::default();
    let e = IpAddress::builder().build(&mut ip).unwrap_err();
    assert_eq!(error_name(e), "IpAddress");

    let mut calendar = MonthCalendar::default();
    let e = MonthCalendar::builder().build(&mut calendar).unwrap_err();
    assert_eq!(error_name(e), "MonthCalendar");

    let mut pager = Pager::default();
    let e = Pager::builder().build(&mut pager).unwrap_err();
    assert_eq!(error_name(e), "Pager");

    let mut rebar = Rebar::default();
    let e = Rebar::builder().build(&mut rebar).unwrap_err();
    assert_eq!(error_name(e), "Rebar");

    let mut link = SysLink::default();
    let e = SysLink::builder().build(&mut link).unwrap_err();
    assert_eq!(error_name(e), "SysLink");

    let mut toolbar = Toolbar::default();
    let e = Toolbar::builder().build(&mut toolbar).unwrap_err();
    assert_eq!(error_name(e), "Toolbar");
}

#[test]
fn failed_build_leaves_the_wrapper_alone() {
    let mut animation = Animation { handle: ControlHandle::Hwnd(0x9) };
    assert!(Animation::builder().build(&mut animation).is_err());
    assert_eq!(animation.handle, ControlHandle::Hwnd(0x9));
}

#[test]
fn animation_build_fills_the_request() {
    let mut animation = Animation { handle: ControlHandle::Hwnd(0x9) };
    let c = Animation::builder()
        .size((120, 90))
        .position((10, 20))
        .enabled(false)
        .parent(PARENT)
        .build(&mut animation)
        .unwrap();
    // A successful build resets the wrapper; the platform layer binds it.
    assert!(animation.handle.blank());
    assert_eq!(c.base.class_name, "SysAnimate32");
    assert_eq!(c.base.flags, 0x5000_0000);
    assert_eq!(c.base.ex_flags, 0);
    assert_eq!(c.base.size, (120, 90));
    assert_eq!(c.base.position, (10, 20));
    assert_eq!(c.base.text, "");
    assert_eq!(c.base.parent, PARENT);
    assert!(!c.enabled);
}

#[test]
fn chosen_flags_still_gain_the_forced_bits() {
    let mut animation = Animation::default();
    let c = Animation::builder()
        .flags(0x1000_0000 | ACS_CENTER)
        .parent(PARENT)
        .build(&mut animation)
        .unwrap();
    assert_eq!(c.base.flags, 0x5000_0001);
}

#[test]
fn hot_key_build_carries_font_and_focus() {
    let mut hot_key = HotKey::default();
    let c = HotKey::builder()
        .font(Some(&Font { handle: 0x77 }))
        .focus(true)
        .parent(PARENT)
        .build(&mut hot_key)
        .unwrap();
    assert_eq!(c.base.class_name, "msctls_hotkey32");
    assert_eq!(c.base.flags, 0x5001_0000);
    assert_eq!(c.base.size, (150, 23));
    assert_eq!(c.font, Some(Font { handle: 0x77 }));
    assert!(c.enabled);
    assert!(c.focus);
}

#[test]
fn ip_address_build_uses_its_class() {
    let mut ip = IpAddress::default();
    let c = IpAddress::builder().parent(PARENT).build(&mut ip).unwrap();
    assert_eq!(c.base.class_name, "SysIPAddress32");
    assert_eq!(c.base.flags, 0x5001_0000);
    assert_eq!(c.base.size, (150, 23));
}

#[test]
fn pager_build_uses_its_class() {
    let mut pager = Pager::default();
    let c = Pager::builder()
        .size((400, 40))
        .parent(PARENT)
        .build(&mut pager)
        .unwrap();
    assert_eq!(c.base.class_name, "SysPager");
    assert_eq!(c.base.flags, 0x5000_0000);
    assert_eq!(c.base.size, (400, 40));
    assert!(c.enabled);
}

#[test]
fn syslink_build_carries_the_markup() {
    let mut link = SysLink::default();
    let c = SysLink::builder()
        .text("go <a href=\"https://example.com\">there</a>")
        .parent(PARENT)
        .build(&mut link)
        .unwrap();
    assert_eq!(c.base.class_name, "SysLink");
    assert_eq!(c.base.flags, 0x5000_0000);
    assert_eq!(c.base.text, "go <a href=\"https://example.com\">there</a>");
}

#[test]
fn calendar_build_carries_dates_and_limits() {
    let mut calendar = MonthCalendar::default();
    let first = MonthCalendarDate::new(2024, 3, 1);
    let low = MonthCalendarDate::new(2020, 1, 1);
    let high = MonthCalendarDate::new(2029, 12, 31);
    let c = MonthCalendar::builder()
        .date(first)
        .min_date(low)
        .max_date(high)
        .max_selection_count(7)
        .focus(true)
        .parent(PARENT)
        .build(&mut calendar)
        .unwrap();
    assert_eq!(c.base.class_name, "SysMonthCal32");
    assert_eq!(c.base.flags, 0x5001_0000);
    assert_eq!(c.base.size, (250, 200));
    assert_eq!(c.date, Some(first));
    assert_eq!(c.min_date, Some(low));
    assert_eq!(c.max_date, Some(high));
    assert_eq!(c.max_selection_count, Some(7));
    assert!(c.focus);
}

#[test]
fn combo_build_carries_the_extended_style() {
    let mut combo = ComboBoxEx::default();
    let c = ComboBoxEx::builder()
        .style_ex(0x10)
        .parent(PARENT)
        .build(&mut combo)
        .unwrap();
    assert_eq!(c.base.class_name, "ComboBoxEx32");
    assert_eq!(c.base.flags, 0x5000_0002);
    assert_eq!(c.base.size, (100, 200));
    assert_eq!(c.style_ex, Some(0x10));
}

#[test]
fn toolbar_build_carries_its_buttons() {
    let mut toolbar = Toolbar::default();
    let c = Toolbar::builder()
        .buttons(vec![ToolbarButton::new(1), ToolbarButton::new(2)])
        .button_size(24, 24)
        .parent(PARENT)
        .build(&mut toolbar)
        .unwrap();
    assert_eq!(c.base.class_name, "ToolbarWindow32");
    assert_eq!(c.base.flags, 0x5000_0840);
    assert_eq!(c.base.size, (0, 32));
    assert_eq!(c.buttons.len(), 2);
    assert_eq!(c.buttons[1].id, 2);
    assert_eq!(c.button_size, Some((24, 24)));
}

#[test]
fn rebar_build_carries_its_bands() {
    let mut rebar = Rebar::default();
    let c = Rebar::builder()
        .bands(vec![native_windows_gui::rebar::RebarBand::new(1)])
        .parent(PARENT)
        .build(&mut rebar)
        .unwrap();
    assert_eq!(c.base.class_name, "ReBarWindow32");
    assert_eq!(c.base.flags, 0x5600_0641);
    assert_eq!(c.base.size, (0, 32));
    assert_eq!(c.bands.len(), 1);
    assert!(c.enabled);
}

#[test]
fn window_operations_name_their_target() {
    let a = Animation { handle: ControlHandle::Hwnd(0xab) };
    let r = a.set_visible(true);
    assert_eq!(r.hwnd, 0xab);
    assert!(matches!(r.op, WindowOp::SetVisible(true)));
    assert!(matches!(a.visible().op, WindowOp::GetVisible));
    assert!(matches!(a.set_enabled(false).op, WindowOp::SetEnabled(false)));
    assert!(matches!(a.set_position(3, 4).op, WindowOp::SetPosition(3, 4)));
    assert!(matches!(a.set_size(100, 50).op, WindowOp::SetSize(100, 50)));
    assert!(matches!(a.font().op, WindowOp::GetFont));
    assert!(matches!(
        a.set_font(Some(&Font { handle: 5 })).op,
        WindowOp::SetFont(Some(5))
    ));
    assert!(matches!(a.set_font(None).op, WindowOp::SetFont(None)));
}

#[test]
fn class_names_and_default_styles() {
    let a = Animation::default();
    assert_eq!(a.class_name(), "SysAnimate32");
    assert_eq!(a.flags(), 0x1000_0000);
    assert_eq!(a.forced_flags(), 0x4000_0000);
    assert_eq!(HotKey::default().flags(), 0x1001_0000);
    assert_eq!(IpAddress::default().class_name(), "SysIPAddress32");
    assert_eq!(MonthCalendar::default().class_name(), "SysMonthCal32");
    assert_eq!(Pager::default().class_name(), "SysPager");
    assert_eq!(Rebar::default().flags(), 0x1600_0641);
    assert_eq!(SysLink::default().class_name(), "SysLink");
    assert_eq!(Toolbar::default().flags(), 0x1000_0840);
    assert_eq!(ComboBoxEx::default().flags(), 0x1000_0002);
}
