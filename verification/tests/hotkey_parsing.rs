use n501_tts_lite::config::default_record_hotkey;
use n501_tts_lite::hotkey::{select_record_hotkey, parse_key_code, parse_normalized_hotkey, parse_record_hotkey, Hotkey, KeyCode, Modifiers};

fn mods(control: bool, shift: bool, alt: bool, super_key: bool) -> Modifiers {
    Modifiers { control, shift, alt, super_key }
}

fn expect_error(input: &str, message: &str) {
    match parse_record_hotkey(input) {
        Ok(h) => panic!("unexpected hotkey {:?}", h),
        Err(e) => {
            assert_eq!(e.code, "HOTKEY");
            assert_eq!(e.message, message);
        }
    }
}

#[test]
fn default_hotkey_is_command_shift_v() {
    let h = parse_record_hotkey(&default_record_hotkey()).unwrap();
    assert_eq!(h, Hotkey { modifiers: mods(false, true, false, true), key: KeyCode::KeyV });
}

#[test]
fn surrounding_space_and_case_are_ignored() {
    let h = parse_record_hotkey("  CTRL+Alt+Space \n").unwrap();
    assert_eq!(h, Hotkey { modifiers: mods(true, false, true, false), key: KeyCode::Space });
}

#[test]
fn modifier_synonyms() {
    let a = parse_record_hotkey("control+option+command+q").unwrap();
    let b = parse_record_hotkey("ctrl+alt+meta+q").unwrap();
    let c = parse_record_hotkey("ctrl+alt+super+q").unwrap();
    assert_eq!(a, b);
    assert_eq!(b, c);
    assert_eq!(a.modifiers, mods(true, false, true, true));
    assert_eq!(a.key, KeyCode::KeyQ);
}

#[test]
fn dash_separates_like_plus() {
    assert_eq!(parse_record_hotkey("ctrl-shift-k").unwrap(), parse_record_hotkey("ctrl+shift+k").unwrap());
}

#[test]
fn empty_and_trailing_parts_are_skipped() {
    let plain = parse_record_hotkey("ctrl+v").unwrap();
    assert_eq!(parse_record_hotkey("ctrl++v").unwrap(), plain);
    assert_eq!(parse_record_hotkey("ctrl+v+").unwrap(), plain);
    assert_eq!(parse_record_hotkey("+ctrl+v").unwrap(), plain);
}

#[test]
fn last_key_wins() {
    let h = parse_record_hotkey("a+shift+b").unwrap();
    assert_eq!(h, Hotkey { modifiers: mods(false, true, false, false), key: KeyCode::KeyB });
}

#[test]
fn key_alone_has_no_modifiers() {
    let h = parse_record_hotkey("spacebar").unwrap();
    assert_eq!(h, Hotkey { modifiers: mods(false, false, false, false), key: KeyCode::Space });
}

#[test]
fn blank_hotkey_is_refused() {
    expect_error("", "Пустая горячая клавиша");
    expect_error("   \t", "Пустая горячая клавиша");
}

#[test]
fn hotkey_without_key_is_refused() {
    expect_error("ctrl+shift", "Не задана клавиша");
    expect_error("+", "Не задана клавиша");
}

#[test]
fn unknown_key_is_refused_by_name() {
    expect_error("Ctrl+F1", "Неподдерживаемая клавиша: f1");
    expect_error("ctrl+ab", "Неподдерживаемая клавиша: ab");
}

#[test]
fn normalized_parser_does_not_lowercase() {
    match parse_normalized_hotkey("ctrl+V") {
        Ok(h) => panic!("unexpected hotkey {:?}", h),
        Err(e) => assert_eq!(e.message, "Неподдерживаемая клавиша: V"),
    }
}

#[test]
fn key_codes() {
    assert_eq!(parse_key_code("space").unwrap(), KeyCode::Space);
    assert_eq!(parse_key_code("a").unwrap(), KeyCode::KeyA);
    assert_eq!(parse_key_code("z").unwrap(), KeyCode::KeyZ);
    let e = parse_key_code("1").unwrap_err();
    assert_eq!(e.code, "HOTKEY");
    assert_eq!(e.message, "Неподдерживаемая клавиша: 1");
}

#[test]
fn configured_hotkey_is_bound() {
    let choice = select_record_hotkey("Ctrl+Alt+R");
    assert!(choice.rejected.is_none());
    assert_eq!(choice.hotkey.unwrap(), Hotkey { modifiers: mods(true, false, true, false), key: KeyCode::KeyR });
}

#[test]
fn refused_hotkey_falls_back_to_default() {
    let choice = select_record_hotkey("Ctrl+F5");
    let rejected = choice.rejected.unwrap();
    assert_eq!(rejected.code, "HOTKEY");
    assert_eq!(rejected.message, "Неподдерживаемая клавиша: f5");
    assert_eq!(choice.hotkey.unwrap(), Hotkey { modifiers: mods(false, true, false, true), key: KeyCode::KeyV });
}

#[test]
fn inner_spaces_are_not_stripped() {
    assert!(parse_record_hotkey("Ctrl + V").is_err());
}

#[test]
fn modifier_order_and_repetition_do_not_matter() {
    let a = parse_record_hotkey("shift+ctrl+v").unwrap();
    assert_eq!(a, parse_record_hotkey("ctrl+shift+v").unwrap());
    assert_eq!(a, parse_record_hotkey("ctrl+ctrl+shift+v").unwrap());
}

#[test]
fn white_space_at_either_end_is_ignored() {
    let plain = parse_record_hotkey("ctrl+shift+v").unwrap();
    assert_eq!(parse_record_hotkey("\u{3000} ctrl+shift+v\t\n").unwrap(), plain);
    assert_eq!(parse_record_hotkey(" SHIFT+Ctrl+V ").unwrap(), plain);
}
