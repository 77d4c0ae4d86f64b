//! Key codes and the mapping from the native layer's logical keys.

use vstd::prelude::*;
use vstd::string::*;

verus! {

/// Settings for whether to ignore modifiers and use standard keyboard layouts instead.
///
/// This does not affect text events.
///
/// Without knowing the keyboard layout there is no coherent way of
/// generating key codes, so this option chooses between two tradeoffs.
#[derive(Clone, Copy, PartialEq, Eq, Structural, Debug)]
pub enum KeyboardIgnoreModifiers {
    /// Keep the key codes that are affected by modifiers.
    ///
    /// This is a good default for most applications.
    Keep,
    /// Assume the user's keyboard layout is standard English ABC.
    ///
    /// A symbol typed with a modifier is reported as the key that carries
    /// it on that layout, so the key code names the physical key.
    AbcKeyCode,
}

/// A key code of the engine's input model.
#[derive(Clone, Copy, PartialEq, Eq, Structural, Debug)]
pub enum Key {
    Unknown,
    D0,
    D1,
    D2,
    D3,
    D4,
    D5,
    D6,
    D7,
    D8,
    D9,
    RightParen,
    NumPadExclam,
    At,
    Hash,
    Dollar,
    Percent,
    Caret,
    Ampersand,
    Asterisk,
    LeftParen,
    A,
    B,
    C,
    D,
    E,
    F,
    G,
    H,
    I,
    J,
    K,
    L,
    M,
    N,
    O,
    P,
    Q,
    R,
    S,
    T,
    U,
    V,
    W,
    X,
    Y,
    Z,
    Quote,
    Quotedbl,
    Semicolon,
    Colon,
    LeftBracket,
    NumPadLeftBrace,
    RightBracket,
    NumPadRightBrace,
    Backslash,
    NumPadVerticalBar,
    Comma,
    Less,
    Period,
    Greater,
    Slash,
    Question,
    Backquote,
    Escape,
    F1,
    F2,
    F3,
    F4,
    F5,
    F6,
    F7,
    F8,
    F9,
    F10,
    F11,
    F12,
    F13,
    F14,
    F15,
    Delete,
    Left,
    Up,
    Right,
    Down,
    Backspace,
    Return,
    Space,
    LAlt,
    RAlt,
    LCtrl,
    Menu,
    LShift,
    Tab,
}

/// A named (non-character) key of the native layer.
#[derive(Clone, Copy, PartialEq, Eq, Structural, Debug)]
pub enum NamedKey {
    Escape,
    F1,
    F2,
    F3,
    F4,
    F5,
    F6,
    F7,
    F8,
    F9,
    F10,
    F11,
    F12,
    F13,
    F14,
    F15,
    Delete,
    ArrowLeft,
    ArrowUp,
    ArrowRight,
    ArrowDown,
    Backspace,
    Enter,
    Space,
    Alt,
    AltGraph,
    Control,
    Super,
    Shift,
    Tab,
    /// Any named key that the engine has no code for.
    Other,
}

/// The logical key of a native keyboard event.
#[derive(Clone, PartialEq, Eq, Debug)]
pub enum LogicalKey {
    /// A key that produces text, with the text it produces.
    Character(String),
    /// A named key.
    Named(NamedKey),
    /// A key the native layer could not identify, or a dead key.
    Unidentified,
}

/// The mathematical value of a [`LogicalKey`].
pub enum LogicalKeyView {
    Character(Seq<char>),
    Named(NamedKey),
    Unidentified,
}

impl View for LogicalKey {
    type V = LogicalKeyView;

    open spec fn view(&self) -> LogicalKeyView {
        match self {
            LogicalKey::Character(s) => LogicalKeyView::Character(s@),
            LogicalKey::Named(n) => LogicalKeyView::Named(*n),
            LogicalKey::Unidentified => LogicalKeyView::Unidentified,
        }
    }
}

/// For a symbol that the standard English layout types with shift held,
/// the character that the same key types without it.
pub open spec fn unshifted(c: char) -> Option<char> {
    match c {
        ')' => Some('0'),
        '!' => Some('1'),
        '@' => Some('2'),
        '#' => Some('3'),
        '$' => Some('4'),
        '%' => Some('5'),
        '^' => Some('6'),
        '&' => Some('7'),
        '*' => Some('8'),
        '(' => Some('9'),
        '"' => Some('\''),
        ':' => Some(';'),
        '{' => Some('['),
        '}' => Some(']'),
        '|' => Some('\\'),
        '<' => Some(','),
        '>' => Some('.'),
        '?' => Some('/'),
        '~' => Some('`'),
        _ => None,
    }
}

/// The key that types `c` on the standard English layout with no modifier
/// held; letters are taken in either case.
pub open spec fn plain_key(c: char) -> Key {
    match c {
        '0' => Key::D0,
        '1' => Key::D1,
        '2' => Key::D2,
        '3' => Key::D3,
        '4' => Key::D4,
        '5' => Key::D5,
        '6' => Key::D6,
        '7' => Key::D7,
        '8' => Key::D8,
        '9' => Key::D9,
        'a' | 'A' => Key::A,
        'b' | 'B' => Key::B,
        'c' | 'C' => Key::C,
        'd' | 'D' => Key::D,
        'e' | 'E' => Key::E,
        'f' | 'F' => Key::F,
        'g' | 'G' => Key::G,
        'h' | 'H' => Key::H,
        'i' | 'I' => Key::I,
        'j' | 'J' => Key::J,
        'k' | 'K' => Key::K,
        'l' | 'L' => Key::L,
        'm' | 'M' => Key::M,
        'n' | 'N' => Key::N,
        'o' | 'O' => Key::O,
        'p' | 'P' => Key::P,
        'q' | 'Q' => Key::Q,
        'r' | 'R' => Key::R,
        's' | 'S' => Key::S,
        't' | 'T' => Key::T,
        'u' | 'U' => Key::U,
        'v' | 'V' => Key::V,
        'w' | 'W' => Key::W,
        'x' | 'X' => Key::X,
        'y' | 'Y' => Key::Y,
        'z' | 'Z' => Key::Z,
        '\'' => Key::Quote,
        ';' => Key::Semicolon,
        '[' => Key::LeftBracket,
        ']' => Key::RightBracket,
        '\\' => Key::Backslash,
        ',' => Key::Comma,
        '.' => Key::Period,
        '/' => Key::Slash,
        '`' => Key::Backquote,
        _ => Key::Unknown,
    }
}

/// The engine's own code for a shifted symbol. The tilde has none.
pub open spec fn symbol_key(c: char) -> Key {
    match c {
        ')' => Key::RightParen,
        '!' => Key::NumPadExclam,
        '@' => Key::At,
        '#' => Key::Hash,
        '$' => Key::Dollar,
        '%' => Key::Percent,
        '^' => Key::Caret,
        '&' => Key::Ampersand,
        '*' => Key::Asterisk,
        '(' => Key::LeftParen,
        '"' => Key::Quotedbl,
        ':' => Key::Colon,
        '{' => Key::NumPadLeftBrace,
        '}' => Key::NumPadRightBrace,
        '|' => Key::NumPadVerticalBar,
        '<' => Key::Less,
        '>' => Key::Greater,
        '?' => Key::Question,
        _ => Key::Unknown,
    }
}

/// The key code for a single typed character.
///
/// A shifted symbol is reported by its own code, or, when modifiers are
/// ignored, by the code of the key that carries it.
pub open spec fn key_for_char(c: char, kim: KeyboardIgnoreModifiers) -> Key {
    match unshifted(c) {
        Some(base) => if kim == KeyboardIgnoreModifiers::AbcKeyCode {
            plain_key(base)
        } else {
            symbol_key(c)
        },
        None => plain_key(c),
    }
}

/// The key code for a named key.
pub open spec fn key_for_named(named: NamedKey) -> Key {
    match named {
        NamedKey::Escape => Key::Escape,
        NamedKey::F1 => Key::F1,
        NamedKey::F2 => Key::F2,
        NamedKey::F3 => Key::F3,
        NamedKey::F4 => Key::F4,
        NamedKey::F5 => Key::F5,
        NamedKey::F6 => Key::F6,
        NamedKey::F7 => Key::F7,
        NamedKey::F8 => Key::F8,
        NamedKey::F9 => Key::F9,
        NamedKey::F10 => Key::F10,
        NamedKey::F11 => Key::F11,
        NamedKey::F12 => Key::F12,
        NamedKey::F13 => Key::F13,
        NamedKey::F14 => Key::F14,
        NamedKey::F15 => Key::F15,
        NamedKey::Delete => Key::Delete,
        NamedKey::ArrowLeft => Key::Left,
        NamedKey::ArrowUp => Key::Up,
        NamedKey::ArrowRight => Key::Right,
        NamedKey::ArrowDown => Key::Down,
        NamedKey::Backspace => Key::Backspace,
        NamedKey::Enter => Key::Return,
        NamedKey::Space => Key::Space,
        NamedKey::Alt => Key::LAlt,
        NamedKey::AltGraph => Key::RAlt,
        NamedKey::Control => Key::LCtrl,
        NamedKey::Super => Key::Menu,
        NamedKey::Shift => Key::LShift,
        NamedKey::Tab => Key::Tab,
        NamedKey::Other => Key::Unknown,
    }
}

/// The key code for a logical key: text of exactly one character goes by
/// that character, a named key by its name, anything else has no code.
pub open spec fn key_of(key: LogicalKeyView, kim: KeyboardIgnoreModifiers) -> Key {
    match key {
        LogicalKeyView::Character(s) => if s.len() == 1 {
            key_for_char(s[0], kim)
        } else {
            Key::Unknown
        },
        LogicalKeyView::Named(n) => key_for_named(n),
        LogicalKeyView::Unidentified => Key::Unknown,
    }
}

/// Maps a single typed character to its key code.
pub fn map_char(c: char, kim: KeyboardIgnoreModifiers) -> (key: Key)
    ensures
        key == key_for_char(c, kim),
{
    let abc = match kim {
        KeyboardIgnoreModifiers::AbcKeyCode => true,
        KeyboardIgnoreModifiers::Keep => false,
    };
    match c {
        '0' => Key::D0,
        ')' => if abc { Key::D0 } else { Key::RightParen },
        '1' => Key::D1,
        '!' => if abc { Key::D1 } else { Key::NumPadExclam },
        '2' => Key::D2,
        '@' => if abc { Key::D2 } else { Key::At },
        '3' => Key::D3,
        '#' => if abc { Key::D3 } else { Key::Hash },
        '4' => Key::D4,
        '$' => if abc { Key::D4 } else { Key::Dollar },
        '5' => Key::D5,
        '%' => if abc { Key::D5 } else { Key::Percent },
        '6' => Key::D6,
        '^' => if abc { Key::D6 } else { Key::Caret },
        '7' => Key::D7,
        '&' => if abc { Key::D7 } else { Key::Ampersand },
        '8' => Key::D8,
        '*' => if abc { Key::D8 } else { Key::Asterisk },
        '9' => Key::D9,
        '(' => if abc { Key::D9 } else { Key::LeftParen },
        'a' | 'A' => Key::A,
        'b' | 'B' => Key::B,
        'c' | 'C' => Key::C,
        'd' | 'D' => Key::D,
        'e' | 'E' => Key::E,
        'f' | 'F' => Key::F,
        'g' | 'G' => Key::G,
        'h' | 'H' => Key::H,
        'i' | 'I' => Key::I,
        'j' | 'J' => Key::J,
        'k' | 'K' => Key::K,
        'l' | 'L' => Key::L,
        'm' | 'M' => Key::M,
        'n' | 'N' => Key::N,
        'o' | 'O' => Key::O,
        'p' | 'P' => Key::P,
        'q' | 'Q' => Key::Q,
        'r' | 'R' => Key::R,
        's' | 'S' => Key::S,
        't' | 'T' => Key::T,
        'u' | 'U' => Key::U,
        'v' | 'V' => Key::V,
        'w' | 'W' => Key::W,
        'x' | 'X' => Key::X,
        'y' | 'Y' => Key::Y,
        'z' | 'Z' => Key::Z,
        '\'' => Key::Quote,
        '"' => if abc { Key::Quote } else { Key::Quotedbl },
        ';' => Key::Semicolon,
        ':' => if abc { Key::Semicolon } else { Key::Colon },
        '[' => Key::LeftBracket,
        '{' => if abc { Key::LeftBracket } else { Key::NumPadLeftBrace },
        ']' => Key::RightBracket,
        '}' => if abc { Key::RightBracket } else { Key::NumPadRightBrace },
        '\\' => Key::Backslash,
        '|' => if abc { Key::Backslash } else { Key::NumPadVerticalBar },
        ',' => Key::Comma,
        '<' => if abc { Key::Comma } else { Key::Less },
        '.' => Key::Period,
        '>' => if abc { Key::Period } else { Key::Greater },
        '/' => Key::Slash,
        '?' => if abc { Key::Slash } else { Key::Question },
        '`' => Key::Backquote,
        '~' => if abc { Key::Backquote } else { Key::Unknown },
        _ => Key::Unknown,
    }
}

/// Maps a named key to its key code.
pub fn map_named(named: NamedKey) -> (key: Key)
    ensures
        key == key_for_named(named),
{
    match named {
        NamedKey::Escape => Key::Escape,
        NamedKey::F1 => Key::F1,
        NamedKey::F2 => Key::F2,
        NamedKey::F3 => Key::F3,
        NamedKey::F4 => Key::F4,
        NamedKey::F5 => Key::F5,
        NamedKey::F6 => Key::F6,
        NamedKey::F7 => Key::F7,
        NamedKey::F8 => Key::F8,
        NamedKey::F9 => Key::F9,
        NamedKey::F10 => Key::F10,
        NamedKey::F11 => Key::F11,
        NamedKey::F12 => Key::F12,
        NamedKey::F13 => Key::F13,
        NamedKey::F14 => Key::F14,
        NamedKey::F15 => Key::F15,
        NamedKey::Delete => Key::Delete,
        NamedKey::ArrowLeft => Key::Left,
        NamedKey::ArrowUp => Key::Up,
        NamedKey::ArrowRight => Key::Right,
        NamedKey::ArrowDown => Key::Down,
        NamedKey::Backspace => Key::Backspace,
        NamedKey::Enter => Key::Return,
        NamedKey::Space => Key::Space,
        NamedKey::Alt => Key::LAlt,
        NamedKey::AltGraph => Key::RAlt,
        NamedKey::Control => Key::LCtrl,
        NamedKey::Super => Key::Menu,
        NamedKey::Shift => Key::LShift,
        NamedKey::Tab => Key::Tab,
        NamedKey::Other => Key::Unknown,
    }
}

/// Maps the logical key of a native keyboard event to the engine's key code.
pub fn map_key(logical_key: &LogicalKey, kim: KeyboardIgnoreModifiers) -> (key: Key)
    ensures
        key == key_of(logical_key@, kim),
{
    match logical_key {
        LogicalKey::Character(s) => {
            let text = s.as_str();
            if text.unicode_len() == 1 {
                map_char(text.get_char(0), kim)
            } else {
                Key::Unknown
            }
        },
        LogicalKey::Named(n) => map_named(*n),
        LogicalKey::Unidentified => Key::Unknown,
    }
}

} // verus!
