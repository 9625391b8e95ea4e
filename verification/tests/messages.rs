use native_windows_gui::animation::{Animation, ACM_ISPLAYING, ACM_OPENW, ACM_PLAY, ACM_STOP};
use native_windows_gui::base::ControlHandle;
use native_windows_gui::base::WindowOp;
use native_windows_gui::combobox_ex::{ComboBoxEx, ComboBoxExItem};
use native_windows_gui::combobox_ex::{CBEM_DELETEITEM, CBEM_INSERTITEMW, CB_SETCURSEL};
use native_windows_gui::month_calendar::{MonthCalendar, MonthCalendarDate};
use native_windows_gui::month_calendar::{rect_extent, MCM_SETCURSEL, MCM_SETRANGE};
use native_windows_gui::pager::{Pager, PagerButton, PagerButtonState, PGM_GETBUTTONSTATE};
use native_windows_gui::syslink::{SysLink, LM_GETIDEALSIZE};

fn animation() -> Animation {
    Animation { handle: ControlHandle::Hwnd(0x11) }
}

fn combo() -> ComboBoxEx {
    ComboBoxEx { handle: ControlHandle::Hwnd(0x22) }
}

fn calendar() -> MonthCalendar {
    MonthCalendar { handle: ControlHandle::Hwnd(0x33) }
}

#[test]
fn play_packs_repeat_above_start_frame() {
    let m = animation().play(5, 10, 2);
    assert_eq!(m.msg, ACM_PLAY);
    assert_eq!(m.wparam, 0x0002_0005);
    assert_eq!(m.lparam, 10);
}

#[test]
fn play_once_runs_the_clip_once() {
    let m = animation().play_once();
    assert_eq!(m.msg, ACM_PLAY);
    assert_eq!(m.wparam, 0x0001_0000);
    assert_eq!(m.lparam, -1);
}

#[test]
fn play_loop_repeats_for_ever() {
    let m = animation().play_loop();
    assert_eq!(m.wparam, 0xffff_0000);
    assert_eq!(m.lparam, -1);
}

#[test]
fn negative_frames_pack_as_low_words() {
    let m = animation().play(-3, -1, -1);
    assert_eq!(m.wparam, 0xffff_fffd);
    assert_eq!(m.lparam, -1);
}

#[test]
fn open_and_close_share_the_open_message() {
    let a = animation();
    let open = a.open_resource(9);
    assert_eq!(open.msg, ACM_OPENW);
    assert_eq!(open.lparam, 9);
    let with_module = a.open_resource_from_module(0x4000, 9);
    assert_eq!(with_module.wparam, 0x4000);
    let close = a.close();
    assert_eq!(close.msg, ACM_OPENW);
    assert_eq!(close.wparam, 0);
    assert_eq!(close.lparam, 0);
    assert_eq!(a.stop().msg, ACM_STOP);
    assert_eq!(a.is_playing().msg, ACM_ISPLAYING);
}

#[test]
fn open_file_carries_the_path() {
    let m = animation().open_file("clip.avi");
    assert_eq!(m.msg, ACM_OPENW);
    assert_eq!(m.text, "clip.avi");
}

#[test]
fn pager_button_states_decode() {
    assert_eq!(PagerButtonState::from_raw(0), PagerButtonState::Invisible);
    assert_eq!(PagerButtonState::from_raw(1), PagerButtonState::Normal);
    assert_eq!(PagerButtonState::from_raw(2), PagerButtonState::Grayed);
    assert_eq!(PagerButtonState::from_raw(4), PagerButtonState::Depressed);
    assert_eq!(PagerButtonState::from_raw(8), PagerButtonState::Hot);
    // An undocumented value reads as invisible.
    assert_eq!(PagerButtonState::from_raw(3), PagerButtonState::Invisible);
}

#[test]
fn pager_button_state_query_names_the_button() {
    let p = Pager { handle: ControlHandle::Hwnd(0x44) };
    let m = p.button_state(PagerButton::BottomRight);
    assert_eq!(m.msg, PGM_GETBUTTONSTATE);
    assert_eq!(m.lparam, 1);
    assert_eq!(p.button_state(PagerButton::TopLeft).lparam, 0);
}

#[test]
fn calendar_selection_carries_the_date() {
    let d = MonthCalendarDate::new(2024, 2, 29);
    let m = calendar().set_selection(d);
    assert_eq!(m.msg, MCM_SETCURSEL);
    assert_eq!(m.date, d);
}

#[test]
fn date_range_names_the_given_ends() {
    let c = calendar();
    let d1 = MonthCalendarDate::new(2020, 1, 1);
    let d2 = MonthCalendarDate::new(2030, 12, 31);
    assert_eq!(c.set_date_range(None, None).wparam, 0);
    assert_eq!(c.set_date_range(Some(d1), None).wparam, 1);
    assert_eq!(c.set_date_range(None, Some(d2)).wparam, 2);
    let both = c.set_date_range(Some(d1), Some(d2));
    assert_eq!(both.msg, MCM_SETRANGE);
    assert_eq!(both.wparam, 3);
    assert_eq!(both.min, Some(d1));
    assert_eq!(both.max, Some(d2));
}

#[test]
fn range_replies_read_their_bits() {
    let d = MonthCalendarDate::new(2021, 6, 15);
    assert_eq!(MonthCalendar::min_date_from_reply(3, d), Some(d));
    assert_eq!(MonthCalendar::min_date_from_reply(2, d), None);
    assert_eq!(MonthCalendar::max_date_from_reply(2, d), Some(d));
    assert_eq!(MonthCalendar::max_date_from_reply(1, d), None);
}

#[test]
fn first_weekday_lives_in_the_low_word() {
    assert_eq!(MonthCalendar::first_day_of_week_from_reply(0x0001_0003), 3);
    assert_eq!(MonthCalendar::first_day_of_week_from_reply(6), 6);
}

#[test]
fn rect_extent_subtracts_the_corners() {
    assert_eq!(rect_extent(10, 20, 110, 220), (100, 200));
}

#[test]
fn calendar_focus_compares_handles() {
    let c = calendar();
    assert!(c.has_focus(0x33));
    assert!(!c.has_focus(0x34));
}

#[test]
fn combo_item_fills_the_record() {
    let item = ComboBoxExItem::with_image("first", 7);
    let r = combo().insert_item(5, &item);
    assert_eq!(r.msg, CBEM_INSERTITEMW);
    assert_eq!(r.index, 5);
    assert_eq!(r.mask, 0x17);
    assert_eq!(r.text, "first");
    assert_eq!(r.image, 7);
    assert_eq!(r.selected_image, 7);
    assert_eq!(r.indent, 0);
}

#[test]
fn combo_item_without_selected_image_falls_back() {
    let item = ComboBoxExItem::new("plain").indent(2);
    let r = combo().insert_item(0, &item);
    assert_eq!(r.image, -1);
    assert_eq!(r.selected_image, -1);
    assert_eq!(r.indent, 2);
}

#[test]
fn push_item_appends() {
    let item = ComboBoxExItem::new("tail");
    let r = combo().push_item(&item);
    assert_eq!(r.index, -1);
}

#[test]
fn combo_replies_decode() {
    assert!(ComboBoxEx::item_accepted(0));
    assert!(!ComboBoxEx::item_accepted(-1));
    assert_eq!(ComboBoxEx::len_from_reply(-1), 0);
    assert_eq!(ComboBoxEx::len_from_reply(4), 4);
    assert_eq!(ComboBoxEx::selection_from_reply(-1), None);
    assert_eq!(ComboBoxEx::selection_from_reply(2), Some(2));
    assert_eq!(ComboBoxEx::style_ex_from_reply(0x7f), 0x3f);
}

#[test]
fn combo_selection_goes_to_the_hosted_box() {
    let c = combo();
    let m = c.set_selection(0x99, Some(3));
    assert_eq!(m.hwnd, 0x99);
    assert_eq!(m.msg, CB_SETCURSEL);
    assert_eq!(m.wparam, 3);
    // Clearing the selection names the index past every item.
    assert_eq!(c.set_selection(0x99, None).wparam, usize::MAX);
}

#[test]
fn clear_removes_the_first_item_each_round() {
    let m = combo().clear();
    assert_eq!(m.msg, CBEM_DELETEITEM);
    assert_eq!(m.wparam, 0);
}

#[test]
fn ideal_size_passes_the_current_width() {
    let s = SysLink { handle: ControlHandle::Hwnd(0x55) };
    let m = s.ideal_size(640);
    assert_eq!(m.msg, LM_GETIDEALSIZE);
    assert_eq!(m.wparam, 640);
}

#[test]
fn link_text_travels_whole() {
    let s = SysLink { handle: ControlHandle::Hwnd(0x55) };
    let r = s.set_text("see <a href=\"https://example.com\">here</a>");
    match r.op {
        WindowOp::SetText(t) => assert_eq!(t, "see <a href=\"https://example.com\">here</a>"),
        _ => panic!("expected a text write"),
    }
}
