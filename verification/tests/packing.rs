use native_windows_gui::base::ControlHandle;
use native_windows_gui::hot_key::{HotKey, HotKeyValue, HKM_SETHOTKEY, HKM_SETRULES};
use native_windows_gui::hot_key::{HKCOMB_NONE, HKCOMB_S, HOTKEYF_ALT, HOTKEYF_CONTROL};
use native_windows_gui::ip_address::{IpAddress, IPM_SETADDRESS, IPM_SETRANGE};
use native_windows_gui::pager::{Pager, PGM_GETBKCOLOR, PGM_SETBKCOLOR};

fn hot_key() -> HotKey {
    HotKey { handle: ControlHandle::Hwnd(0x100) }
}

fn ip() -> IpAddress {
    IpAddress { handle: ControlHandle::Hwnd(0x200) }
}

fn pager() -> Pager {
    Pager { handle: ControlHandle::Hwnd(0x300) }
}

#[test]
fn hot_key_value_constructors() {
    assert_eq!(HotKeyValue::ctrl(0x53), HotKeyValue { key: 0x53, modifiers: HOTKEYF_CONTROL });
    assert_eq!(HotKeyValue::ctrl_shift(0x53), HotKeyValue { key: 0x53, modifiers: 0x03 });
    assert_eq!(HotKeyValue::alt(0x70).modifiers, HOTKEYF_ALT);
    assert!(HotKeyValue::default().is_empty());
    assert!(!HotKeyValue::key_only(0x41).is_empty());
}

#[test]
fn hot_key_word_is_modifiers_then_key() {
    let m = hot_key().set_value(HotKeyValue::ctrl_shift(0x53));
    assert_eq!(m.hwnd, 0x100);
    assert_eq!(m.msg, HKM_SETHOTKEY);
    assert_eq!(m.wparam, 0x0353);
    assert_eq!(m.lparam, 0);
}

#[test]
fn hot_key_reply_comes_apart() {
    let v = HotKey::value_from_reply(0x0353).unwrap();
    assert_eq!(v, HotKeyValue { key: 0x53, modifiers: 0x03 });
    // A word whose key byte is zero names no combination at all.
    assert_eq!(HotKey::value_from_reply(0x0300), None);
    assert_eq!(HotKey::value_from_reply(0), None);
}

#[test]
fn undefined_modifier_bits_are_dropped() {
    let v = HotKey::value_from_reply(0x1f41).unwrap();
    assert_eq!(v, HotKeyValue { key: 0x41, modifiers: 0x0f });
}

#[test]
fn reply_bits_above_the_low_word_carry_nothing() {
    let v = HotKey::value_from_reply(-1).unwrap();
    assert_eq!(v, HotKeyValue { key: 0xff, modifiers: 0x0f });
    assert_eq!(HotKey::value_from_reply(0x7fff_0300), None);
}

#[test]
fn hot_key_clear_writes_the_empty_word() {
    let m = hot_key().clear();
    assert_eq!(m.msg, HKM_SETHOTKEY);
    assert_eq!(m.wparam, 0);
}

#[test]
fn hot_key_rules_put_replacement_in_high_word() {
    let m = hot_key().set_rules(HKCOMB_NONE | HKCOMB_S, HOTKEYF_ALT);
    assert_eq!(m.msg, HKM_SETRULES);
    assert_eq!(m.wparam, 0x0003);
    assert_eq!(m.lparam, 0x0004_0000);
}

#[test]
fn address_packs_first_octet_highest() {
    let m = ip().set_address([192, 168, 1, 1]);
    assert_eq!(m.msg, IPM_SETADDRESS);
    assert_eq!(m.wparam, 0);
    assert_eq!(m.lparam, 0xc0a8_0101);
}

#[test]
fn address_reply_comes_apart() {
    assert_eq!(
        IpAddress::address_from_reply(4, 0xc0a8_0101),
        Some([192, 168, 1, 1])
    );
    // Fewer than four filled fields read as no address.
    assert_eq!(IpAddress::address_from_reply(3, 0xc0a8_0101), None);
    assert_eq!(IpAddress::address_from_reply(0, 0), None);
}

#[test]
fn partial_address_keeps_the_count() {
    let (octets, filled) = IpAddress::address_partial_from_reply(2, 0x0a00_0000);
    assert_eq!(octets, [10, 0, 0, 0]);
    assert_eq!(filled, 2);
}

#[test]
fn field_range_packs_upper_bound_above_lower() {
    let m = ip().set_field_range(1, 10, 20);
    assert_eq!(m.msg, IPM_SETRANGE);
    assert_eq!(m.wparam, 1);
    assert_eq!(m.lparam, 20 * 0x100 + 10);
}

#[test]
fn color_packs_red_lowest() {
    let m = pager().set_background_color([0x12, 0x34, 0x56]);
    assert_eq!(m.msg, PGM_SETBKCOLOR);
    assert_eq!(m.lparam, 0x0056_3412);
}

#[test]
fn color_reply_comes_apart() {
    assert_eq!(Pager::background_color_from_reply(0x0056_3412), [0x12, 0x34, 0x56]);
    let q = pager().background_color();
    assert_eq!(q.msg, PGM_GETBKCOLOR);
}
