use native_windows_gui::base::ControlHandle;
use native_windows_gui::base::WindowOp;
use native_windows_gui::base::WM_SIZE;
use native_windows_gui::rebar::{Rebar, RebarBand};
use native_windows_gui::rebar::{RBBS_CHILDEDGE, RBBS_GRIPPERALWAYS, RB_BEGINDRAG, RB_MOVEBAND};
use native_windows_gui::toolbar::{Toolbar, ToolbarButton, ToolbarButtonStyle};
use native_windows_gui::toolbar::{BTNS_SEP, TBSTATE_ENABLED, TB_AUTOSIZE, TB_SETBUTTONSIZE};

fn toolbar() -> Toolbar {
    Toolbar { handle: ControlHandle::Hwnd(0x66) }
}

fn rebar() -> Rebar {
    Rebar { handle: ControlHandle::Hwnd(0x77) }
}

#[test]
fn button_styles_map_to_their_bytes() {
    assert_eq!(ToolbarButtonStyle::Button.to_tbstyle(), 0x00);
    assert_eq!(ToolbarButtonStyle::Separator.to_tbstyle(), 0x01);
    assert_eq!(ToolbarButtonStyle::Check.to_tbstyle(), 0x02);
    assert_eq!(ToolbarButtonStyle::Dropdown.to_tbstyle(), 0x08);
    assert_eq!(ToolbarButtonStyle::Group.to_tbstyle(), 0x04);
    assert_eq!(ToolbarButtonStyle::CheckGroup.to_tbstyle(), 0x06);
    assert_eq!(ToolbarButtonStyle::WholeDropdown.to_tbstyle(), 0x80);
}

#[test]
fn textless_button_names_string_zero() {
    let b = ToolbarButton::new(40).with_image(3);
    // The passed index is ignored for a button without text.
    let r = toolbar().add_button(&b, 9);
    assert_eq!(r.command_id, 40);
    assert_eq!(r.bitmap, 3);
    assert_eq!(r.state, TBSTATE_ENABLED);
    assert_eq!(r.style, 0x00);
    assert_eq!(r.string_index, 0);
    assert!(r.text.is_none());
}

#[test]
fn text_button_names_its_registered_string() {
    let t = toolbar();
    let b = ToolbarButton::new(41).with_text("Save").enabled(false);
    let registration = t.add_button_string(&b).unwrap();
    assert_eq!(registration.text, "Save");
    let r = t.add_button(&b, 12);
    assert_eq!(r.string_index, 12);
    assert_eq!(r.state, 0);
    assert_eq!(r.text.as_deref(), Some("Save"));
    // A textless button registers nothing.
    assert!(t.add_button_string(&ToolbarButton::new(1)).is_none());
}

#[test]
fn button_runs_keep_their_order() {
    let buttons = vec![
        ToolbarButton::new(1),
        ToolbarButton::new(2).with_image(5).with_text("Open"),
        ToolbarButton::new(3).enabled(false),
    ];
    let rs = toolbar().add_buttons(&buttons, &[0, 11, 0]);
    assert_eq!(rs.len(), 3);
    assert_eq!(rs[0].command_id, 1);
    assert_eq!(rs[0].string_index, 0);
    assert_eq!(rs[1].command_id, 2);
    assert_eq!(rs[1].bitmap, 5);
    assert_eq!(rs[1].string_index, 11);
    assert_eq!(rs[1].text.as_deref(), Some("Open"));
    assert_eq!(rs[2].state, 0);
    assert!(rs[2].text.is_none());
}

#[test]
fn separators_are_enabled_gaps() {
    let r = toolbar().add_separator();
    assert_eq!(r.style, BTNS_SEP);
    assert_eq!(r.command_id, 0);
    assert_eq!(r.bitmap, -1);
    assert_eq!(r.state, TBSTATE_ENABLED);
}

#[test]
fn removing_needs_a_found_index() {
    let t = toolbar();
    assert!(t.remove_button(-1).is_none());
    let m = t.remove_button(5).unwrap();
    assert_eq!(m.wparam, 5);
}

#[test]
fn negative_command_numbers_wrap_into_the_word() {
    let t = toolbar();
    assert_eq!(t.button_index(-1).wparam, usize::MAX);
    assert_eq!(t.set_button_enabled(-2, true).wparam, usize::MAX - 1);
    assert_eq!(t.button_checked(7).wparam, 7);
}

#[test]
fn button_extent_packs_height_above_width() {
    let m = toolbar().set_button_size(24, 32);
    assert_eq!(m.msg, TB_SETBUTTONSIZE);
    assert_eq!(m.lparam, 0x0020_0018);
}

#[test]
fn toolbar_reacts_to_parent_resize_alone() {
    let t = toolbar();
    let m = t.on_parent_resize(WM_SIZE).unwrap();
    assert_eq!(m.msg, TB_AUTOSIZE);
    assert!(t.on_parent_resize(WM_SIZE + 1).is_none());
}

#[test]
fn default_band_has_gripper_and_child_edge() {
    let b = RebarBand::default();
    assert_eq!(b.flags, RBBS_GRIPPERALWAYS | RBBS_CHILDEDGE);
    assert_eq!(b.min_height, 24);
    assert_eq!(b.width, 100);
    assert_eq!(b.image_index, -1);
    assert_eq!(RebarBand::new(9).id, 9);
}

#[test]
fn plain_band_masks_its_constant_fields() {
    let r = rebar().insert_band(2, RebarBand::new(1), None);
    assert_eq!(r.index, 2);
    assert_eq!(r.struct_size, 80);
    assert_eq!(r.mask, 0x0161);
    assert_eq!(r.id, 1);
    assert_eq!(r.width, 100);
    assert!(r.text.is_none());
    assert!(r.child.is_none());
}

#[test]
fn band_extras_extend_the_mask() {
    let band = RebarBand::new(1).with_text("tools").with_image(2);
    let r = rebar().insert_band(-1, band, None);
    assert_eq!(r.mask, 0x0161 | 0x0004 | 0x0008);
    assert_eq!(r.text.as_deref(), Some("tools"));
    assert_eq!(r.image_index, 2);
}

#[test]
fn measured_child_raises_the_extents() {
    let band = RebarBand::new(1).with_child(ControlHandle::Hwnd(0x88));
    let r = rebar().add_band(band, Some((50, 40)));
    assert_eq!(r.index, -1);
    assert_eq!(r.mask, 0x0161 | 0x0010);
    assert_eq!(r.child, Some(0x88));
    // A zero least-width widens to the measured child.
    assert_eq!(r.min_width, 50);
    // The default least-height is below the measured child, so both rise.
    assert_eq!(r.min_height, 40);
    assert_eq!(r.child_height, 40);
}

#[test]
fn stated_extents_hold_against_a_smaller_child() {
    let band = RebarBand::new(1)
        .with_child(ControlHandle::Hwnd(0x88))
        .with_min_width(10)
        .with_min_height(24);
    let r = rebar().insert_band(0, band, Some((50, 20)));
    assert_eq!(r.min_width, 10);
    assert_eq!(r.min_height, 24);
    assert_eq!(r.child_height, 24);
}

#[test]
fn unbound_child_is_not_named() {
    let band = RebarBand::new(1).with_child(ControlHandle::NoHandle);
    let r = rebar().insert_band(0, band, None);
    assert!(r.child.is_none());
    assert_eq!(r.mask, 0x0161);
}

#[test]
fn drag_packs_vertical_above_horizontal() {
    let m = rebar().begin_drag(2, (-1, 3));
    assert_eq!(m.msg, RB_BEGINDRAG);
    assert_eq!(m.wparam, 2);
    assert_eq!(m.lparam, 0x0003_ffff);
    assert_eq!(rebar().drag_move((7, 1)).lparam, 0x0001_0007);
}

#[test]
fn band_lookup_decodes() {
    assert_eq!(Rebar::id_to_index_from_reply(-1), None);
    assert_eq!(Rebar::id_to_index_from_reply(7), Some(7));
}

#[test]
fn band_moves_name_both_positions() {
    let m = rebar().move_band(1, 4);
    assert_eq!(m.msg, RB_MOVEBAND);
    assert_eq!(m.wparam, 1);
    assert_eq!(m.lparam, 4);
}

#[test]
fn band_width_request_is_width_alone() {
    let r = rebar().set_band_width(3, 240);
    assert_eq!(r.index, 3);
    assert_eq!(r.width, 240);
}

#[test]
fn rebar_stretches_to_its_parent() {
    let r = rebar();
    let req = r.on_parent_resize(WM_SIZE, 800).unwrap();
    assert!(matches!(req.op, WindowOp::SetSize(800, 0)));
    assert!(r.on_parent_resize(0x0006, 800).is_none());
}
