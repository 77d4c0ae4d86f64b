use glutin_window::keyboard::{map_char, map_key, map_named, Key, KeyboardIgnoreModifiers, LogicalKey, NamedKey};
use glutin_window::mouse::{map_mouse, MouseButton, NativeMouseButton};

fn character(s: &str) -> LogicalKey {
    LogicalKey::Character(s.to_string())
}

#[test]
fn letters_map_in_either_case() {
    for kim in [KeyboardIgnoreModifiers::Keep, KeyboardIgnoreModifiers::AbcKeyCode] {
        assert_eq!(map_key(&character("a"), kim), Key::A);
        assert_eq!(map_key(&character("A"), kim), Key::A);
        assert_eq!(map_key(&character("z"), kim), Key::Z);
        assert_eq!(map_key(&character("Z"), kim), Key::Z);
        assert_eq!(map_key(&character("q"), kim), Key::Q);
    }
}

#[test]
fn digits_map_to_digit_keys() {
    let keys = [
        Key::D0, Key::D1, Key::D2, Key::D3, Key::D4, Key::D5, Key::D6, Key::D7, Key::D8, Key::D9,
    ];
    for (i, c) in "0123456789".chars().enumerate() {
        assert_eq!(map_char(c, KeyboardIgnoreModifiers::Keep), keys[i]);
        assert_eq!(map_char(c, KeyboardIgnoreModifiers::AbcKeyCode), keys[i]);
    }
}

#[test]
fn shifted_digits_keep_their_own_code() {
    let kim = KeyboardIgnoreModifiers::Keep;
    assert_eq!(map_char(')', kim), Key::RightParen);
    assert_eq!(map_char('!', kim), Key::NumPadExclam);
    assert_eq!(map_char('@', kim), Key::At);
    assert_eq!(map_char('#', kim), Key::Hash);
    assert_eq!(map_char('$', kim), Key::Dollar);
    assert_eq!(map_char('%', kim), Key::Percent);
    assert_eq!(map_char('^', kim), Key::Caret);
    assert_eq!(map_char('&', kim), Key::Ampersand);
    assert_eq!(map_char('*', kim), Key::Asterisk);
    assert_eq!(map_char('(', kim), Key::LeftParen);
}

#[test]
fn shifted_digits_map_to_digits_when_modifiers_are_ignored() {
    let kim = KeyboardIgnoreModifiers::AbcKeyCode;
    let keys = [
        Key::D0, Key::D1, Key::D2, Key::D3, Key::D4, Key::D5, Key::D6, Key::D7, Key::D8, Key::D9,
    ];
    for (i, c) in ")!@#$%^&*(".chars().enumerate() {
        assert_eq!(map_char(c, kim), keys[i]);
    }
}

#[test]
fn punctuation_keeps_its_own_code() {
    let kim = KeyboardIgnoreModifiers::Keep;
    assert_eq!(map_char('\'', kim), Key::Quote);
    assert_eq!(map_char('"', kim), Key::Quotedbl);
    assert_eq!(map_char(';', kim), Key::Semicolon);
    assert_eq!(map_char(':', kim), Key::Colon);
    assert_eq!(map_char('[', kim), Key::LeftBracket);
    assert_eq!(map_char('{', kim), Key::NumPadLeftBrace);
    assert_eq!(map_char(']', kim), Key::RightBracket);
    assert_eq!(map_char('}', kim), Key::NumPadRightBrace);
    assert_eq!(map_char('\\', kim), Key::Backslash);
    assert_eq!(map_char('|', kim), Key::NumPadVerticalBar);
    assert_eq!(map_char(',', kim), Key::Comma);
    assert_eq!(map_char('<', kim), Key::Less);
    assert_eq!(map_char('.', kim), Key::Period);
    assert_eq!(map_char('>', kim), Key::Greater);
    assert_eq!(map_char('/', kim), Key::Slash);
    assert_eq!(map_char('?', kim), Key::Question);
    assert_eq!(map_char('`', kim), Key::Backquote);
    assert_eq!(map_char('~', kim), Key::Unknown);
}

#[test]
fn punctuation_maps_to_its_key_when_modifiers_are_ignored() {
    let kim = KeyboardIgnoreModifiers::AbcKeyCode;
    assert_eq!(map_char('"', kim), Key::Quote);
    assert_eq!(map_char(':', kim), Key::Semicolon);
    assert_eq!(map_char('{', kim), Key::LeftBracket);
    assert_eq!(map_char('}', kim), Key::RightBracket);
    assert_eq!(map_char('|', kim), Key::Backslash);
    assert_eq!(map_char('<', kim), Key::Comma);
    assert_eq!(map_char('>', kim), Key::Period);
    assert_eq!(map_char('?', kim), Key::Slash);
    assert_eq!(map_char('~', kim), Key::Backquote);
    assert_eq!(map_char('`', kim), Key::Backquote);
    assert_eq!(map_char('\'', kim), Key::Quote);
}

#[test]
fn other_text_has_no_key() {
    let kim = KeyboardIgnoreModifiers::Keep;
    assert_eq!(map_key(&character(""), kim), Key::Unknown);
    assert_eq!(map_key(&character("ab"), kim), Key::Unknown);
    assert_eq!(map_key(&character("é"), kim), Key::Unknown);
    assert_eq!(map_key(&character("-"), kim), Key::Unknown);
    assert_eq!(map_key(&LogicalKey::Unidentified, kim), Key::Unknown);
}

#[test]
fn named_keys_map_by_name() {
    assert_eq!(map_named(NamedKey::Escape), Key::Escape);
    assert_eq!(map_named(NamedKey::F1), Key::F1);
    assert_eq!(map_named(NamedKey::F15), Key::F15);
    assert_eq!(map_named(NamedKey::Delete), Key::Delete);
    assert_eq!(map_named(NamedKey::ArrowLeft), Key::Left);
    assert_eq!(map_named(NamedKey::ArrowUp), Key::Up);
    assert_eq!(map_named(NamedKey::ArrowRight), Key::Right);
    assert_eq!(map_named(NamedKey::ArrowDown), Key::Down);
    assert_eq!(map_named(NamedKey::Backspace), Key::Backspace);
    assert_eq!(map_named(NamedKey::Enter), Key::Return);
    assert_eq!(map_named(NamedKey::Space), Key::Space);
    assert_eq!(map_named(NamedKey::Alt), Key::LAlt);
    assert_eq!(map_named(NamedKey::AltGraph), Key::RAlt);
    assert_eq!(map_named(NamedKey::Control), Key::LCtrl);
    assert_eq!(map_named(NamedKey::Super), Key::Menu);
    assert_eq!(map_named(NamedKey::Shift), Key::LShift);
    assert_eq!(map_named(NamedKey::Tab), Key::Tab);
    assert_eq!(map_named(NamedKey::Other), Key::Unknown);
    assert_eq!(
        map_key(&LogicalKey::Named(NamedKey::F7), KeyboardIgnoreModifiers::AbcKeyCode),
        Key::F7
    );
}

#[test]
fn mouse_buttons_map_by_number() {
    assert_eq!(map_mouse(NativeMouseButton::Left), MouseButton::Left);
    assert_eq!(map_mouse(NativeMouseButton::Right), MouseButton::Right);
    assert_eq!(map_mouse(NativeMouseButton::Middle), MouseButton::Middle);
    assert_eq!(map_mouse(NativeMouseButton::Other(0)), MouseButton::X1);
    assert_eq!(map_mouse(NativeMouseButton::Other(1)), MouseButton::X2);
    assert_eq!(map_mouse(NativeMouseButton::Other(2)), MouseButton::Button6);
    assert_eq!(map_mouse(NativeMouseButton::Other(3)), MouseButton::Button7);
    assert_eq!(map_mouse(NativeMouseButton::Other(4)), MouseButton::Button8);
    assert_eq!(map_mouse(NativeMouseButton::Other(5)), MouseButton::Unknown);
    assert_eq!(map_mouse(NativeMouseButton::Other(u16::MAX)), MouseButton::Unknown);
    assert_eq!(map_mouse(NativeMouseButton::Back), MouseButton::Unknown);
    assert_eq!(map_mouse(NativeMouseButton::Forward), MouseButton::Unknown);
}
