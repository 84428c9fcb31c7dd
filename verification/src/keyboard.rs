//! Keyboard events: the key event model shared by the keyboard drivers, and
//! the translation of the desktop simulator's key events into it.
use vstd::prelude::*;

verus! {

/// What happened to a key.
#[derive(Clone, Copy, Debug, PartialEq, Eq, Structural)]
pub enum KeyKind {
    Pressed,
    Released,
    Held,
}

/// The modifier keys and lock states that accompany a key event.
#[derive(Clone, Copy, Debug, PartialEq, Eq, Structural)]
pub struct Modifiers {
    pub shift: bool,
    pub ctrl: bool,
    pub alt: bool,
    pub meta: bool,
    pub numlock: bool,
    pub capslock: bool,
}

impl Modifiers {
    /// No modifier set.
    pub fn new() -> (r: Modifiers)
        ensures
            r == no_modifiers(),
    {
        Modifiers { shift: false, ctrl: false, alt: false, meta: false, numlock: false, capslock: false }
    }
}

/// No modifier set.
pub open spec fn no_modifiers() -> Modifiers {
    Modifiers { shift: false, ctrl: false, alt: false, meta: false, numlock: false, capslock: false }
}

/// The key a key event is about.
#[derive(Clone, Copy, Debug, PartialEq, Eq, Structural)]
pub enum KeyCode {
    Char(char),
    Backspace,
    Tab,
    Enter,
    Esc,
    Delete,
    F(u8),
    PrintScreen,
    Pause,
    Insert,
    Home,
    PageUp,
    End,
    PageDown,
    Right,
    Left,
    Down,
    Up,
}

/// A key event as the keyboard multiplexer receives it.
#[derive(Clone, Copy, Debug, PartialEq, Eq, Structural)]
pub struct KeyEvent {
    pub kind: KeyKind,
    pub modifiers: Modifiers,
    pub code: KeyCode,
}

/// The keys that the desktop simulator reports and that are told apart here.
#[derive(Clone, Copy, Debug, PartialEq, Eq, Structural)]
pub enum SimKey {
    Backspace,
    Tab,
    Return,
    Escape,
    Space,
    Semicolon,
    Less,
    Equals,
    Greater,
    Question,
    At,
    Caret,
    Underscore,
    A,
    B,
    C,
    D,
    E,
    F,
    G,
    H,
    I,
    J,
    K,
    L,
    M,
    N,
    O,
    P,
    Q,
    R,
    S,
    T,
    U,
    V,
    W,
    X,
    Y,
    Z,
    Delete,
    F1,
    F2,
    F3,
    F4,
    F5,
    F6,
    F7,
    F8,
    F9,
    F10,
    F11,
    F12,
    F13,
    F14,
    F15,
    F16,
    F17,
    F18,
    F19,
    F20,
    F21,
    F22,
    F23,
    F24,
    PrintScreen,
    Pause,
    Insert,
    Home,
    PageUp,
    End,
    PageDown,
    Right,
    Left,
    Down,
    Up,
    Num0,
    Num1,
    Num2,
    Num3,
    Num4,
    Num5,
    Num6,
    Num7,
    Num8,
    Num9,
    Quote,
    LeftBracket,
    Backslash,
    RightBracket,
    Backquote,
    Plus,
    Comma,
    Minus,
    Period,
    Slash,
    LCtrl,
    LShift,
    LAlt,
    LGui,
    RCtrl,
    RShift,
    RAlt,
    RGui,
    Mode,
    /// Any key without a mapping.
    Other,
}

/// Left shift held (the simulator's modifier bits).
pub const MOD_LSHIFT: u16 = 0x0001;
/// Right shift held.
pub const MOD_RSHIFT: u16 = 0x0002;
/// Left control held.
pub const MOD_LCTRL: u16 = 0x0040;
/// Right control held.
pub const MOD_RCTRL: u16 = 0x0080;
/// Left alt held.
pub const MOD_LALT: u16 = 0x0100;
/// Right alt held.
pub const MOD_RALT: u16 = 0x0200;
/// Left GUI key held.
pub const MOD_LGUI: u16 = 0x0400;
/// Right GUI key held.
pub const MOD_RGUI: u16 = 0x0800;
/// Num lock on.
pub const MOD_NUM: u16 = 0x1000;
/// Caps lock on.
pub const MOD_CAPS: u16 = 0x2000;

/// The kind of a simulator key event.
pub open spec fn sim_kind(repeat: bool, is_down: bool) -> KeyKind {
    if !is_down {
        KeyKind::Released
    } else if repeat {
        KeyKind::Held
    } else {
        KeyKind::Pressed
    }
}

/// Whether any of the modifier bits `mask` is set.
pub open spec fn has_mod(keymod: u16, mask: u16) -> bool {
    keymod & mask != 0
}

/// The modifiers of a simulator key event: either shift key sets shift,
/// and likewise control, alt and the GUI keys (meta); the lock bits set the
/// lock states.
pub open spec fn sim_modifiers(keymod: u16) -> Modifiers {
    Modifiers {
        shift: has_mod(keymod, MOD_LSHIFT) || has_mod(keymod, MOD_RSHIFT),
        ctrl: has_mod(keymod, MOD_LCTRL) || has_mod(keymod, MOD_RCTRL),
        alt: has_mod(keymod, MOD_LALT) || has_mod(keymod, MOD_RALT),
        meta: has_mod(keymod, MOD_LGUI) || has_mod(keymod, MOD_RGUI),
        numlock: has_mod(keymod, MOD_NUM),
        capslock: has_mod(keymod, MOD_CAPS),
    }
}

/// The key code of a simulator key, with the shifted character where
/// `upper` holds; `None` for the modifier keys themselves and for keys
/// without a mapping.
pub open spec fn sim_key_code(key: SimKey, upper: bool) -> Option<KeyCode> {
    match key {
        SimKey::Backspace => Some(KeyCode::Backspace),
        SimKey::Tab => Some(KeyCode::Tab),
        SimKey::Return => Some(KeyCode::Enter),
        SimKey::Escape => Some(KeyCode::Esc),
        SimKey::Space => Some(KeyCode::Char(' ')),
        SimKey::Semicolon => Some(KeyCode::Char(if upper { ':' } else { ';' })),
        SimKey::Less => Some(KeyCode::Char('<')),
        SimKey::Equals => Some(KeyCode::Char(if upper { '+' } else { '=' })),
        SimKey::Greater => Some(KeyCode::Char('>')),
        SimKey::Question => Some(KeyCode::Char('?')),
        SimKey::At => Some(KeyCode::Char('@')),
        SimKey::Caret => Some(KeyCode::Char('^')),
        SimKey::Underscore => Some(KeyCode::Char('_')),
        SimKey::A => Some(KeyCode::Char(if upper { 'A' } else { 'a' })),
        SimKey::B => Some(KeyCode::Char(if upper { 'B' } else { 'b' })),
        SimKey::C => Some(KeyCode::Char(if upper { 'C' } else { 'c' })),
        SimKey::D => Some(KeyCode::Char(if upper { 'D' } else { 'd' })),
        SimKey::E => Some(KeyCode::Char(if upper { 'E' } else { 'e' })),
        SimKey::F => Some(KeyCode::Char(if upper { 'F' } else { 'f' })),
        SimKey::G => Some(KeyCode::Char(if upper { 'G' } else { 'g' })),
        SimKey::H => Some(KeyCode::Char(if upper { 'H' } else { 'h' })),
        SimKey::I => Some(KeyCode::Char(if upper { 'I' } else { 'i' })),
        SimKey::J => Some(KeyCode::Char(if upper { 'J' } else { 'j' })),
        SimKey::K => Some(KeyCode::Char(if upper { 'K' } else { 'k' })),
        SimKey::L => Some(KeyCode::Char(if upper { 'L' } else { 'l' })),
        SimKey::M => Some(KeyCode::Char(if upper { 'M' } else { 'm' })),
        SimKey::N => Some(KeyCode::Char(if upper { 'N' } else { 'n' })),
        SimKey::O => Some(KeyCode::Char(if upper { 'O' } else { 'o' })),
        SimKey::P => Some(KeyCode::Char(if upper { 'P' } else { 'p' })),
        SimKey::Q => Some(KeyCode::Char(if upper { 'Q' } else { 'q' })),
        SimKey::R => Some(KeyCode::Char(if upper { 'R' } else { 'r' })),
        SimKey::S => Some(KeyCode::Char(if upper { 'S' } else { 's' })),
        SimKey::T => Some(KeyCode::Char(if upper { 'T' } else { 't' })),
        SimKey::U => Some(KeyCode::Char(if upper { 'U' } else { 'u' })),
        SimKey::V => Some(KeyCode::Char(if upper { 'V' } else { 'v' })),
        SimKey::W => Some(KeyCode::Char(if upper { 'W' } else { 'w' })),
        SimKey::X => Some(KeyCode::Char(if upper { 'X' } else { 'x' })),
        SimKey::Y => Some(KeyCode::Char(if upper { 'Y' } else { 'y' })),
        SimKey::Z => Some(KeyCode::Char(if upper { 'Z' } else { 'z' })),
        SimKey::Delete => Some(KeyCode::Delete),
        SimKey::F1 => Some(KeyCode::F(1)),
        SimKey::F2 => Some(KeyCode::F(2)),
        SimKey::F3 => Some(KeyCode::F(3)),
        SimKey::F4 => Some(KeyCode::F(4)),
        SimKey::F5 => Some(KeyCode::F(5)),
        SimKey::F6 => Some(KeyCode::F(6)),
        SimKey::F7 => Some(KeyCode::F(7)),
        SimKey::F8 => Some(KeyCode::F(8)),
        SimKey::F9 => Some(KeyCode::F(9)),
        SimKey::F10 => Some(KeyCode::F(10)),
        SimKey::F11 => Some(KeyCode::F(11)),
        SimKey::F12 => Some(KeyCode::F(12)),
        SimKey::F13 => Some(KeyCode::F(13)),
        SimKey::F14 => Some(KeyCode::F(14)),
        SimKey::F15 => Some(KeyCode::F(15)),
        SimKey::F16 => Some(KeyCode::F(16)),
        SimKey::F17 => Some(KeyCode::F(17)),
        SimKey::F18 => Some(KeyCode::F(18)),
        SimKey::F19 => Some(KeyCode::F(19)),
        SimKey::F20 => Some(KeyCode::F(20)),
        SimKey::F21 => Some(KeyCode::F(21)),
        SimKey::F22 => Some(KeyCode::F(22)),
        SimKey::F23 => Some(KeyCode::F(23)),
        SimKey::F24 => Some(KeyCode::F(24)),
        SimKey::PrintScreen => Some(KeyCode::PrintScreen),
        SimKey::Pause => Some(KeyCode::Pause),
        SimKey::Insert => Some(KeyCode::Insert),
        SimKey::Home => Some(KeyCode::Home),
        SimKey::PageUp => Some(KeyCode::PageUp),
        SimKey::End => Some(KeyCode::End),
        SimKey::PageDown => Some(KeyCode::PageDown),
        SimKey::Right => Some(KeyCode::Right),
        SimKey::Left => Some(KeyCode::Left),
        SimKey::Down => Some(KeyCode::Down),
        SimKey::Up => Some(KeyCode::Up),
        SimKey::Num0 => Some(KeyCode::Char(if upper { ')' } else { '0' })),
        SimKey::Num1 => Some(KeyCode::Char(if upper { '!' } else { '1' })),
        SimKey::Num2 => Some(KeyCode::Char(if upper { '@' } else { '2' })),
        SimKey::Num3 => Some(KeyCode::Char(if upper { '#' } else { '3' })),
        SimKey::Num4 => Some(KeyCode::Char(if upper { '$' } else { '4' })),
        SimKey::Num5 => Some(KeyCode::Char(if upper { '%' } else { '5' })),
        SimKey::Num6 => Some(KeyCode::Char(if upper { '^' } else { '6' })),
        SimKey::Num7 => Some(KeyCode::Char(if upper { '&' } else { '7' })),
        SimKey::Num8 => Some(KeyCode::Char(if upper { '*' } else { '8' })),
        SimKey::Num9 => Some(KeyCode::Char(if upper { '(' } else { '9' })),
        SimKey::Quote => Some(KeyCode::Char(if upper { '"' } else { '\'' })),
        SimKey::LeftBracket => Some(KeyCode::Char(if upper { '{' } else { '[' })),
        SimKey::Backslash => Some(KeyCode::Char(if upper { '|' } else { '\\' })),
        SimKey::RightBracket => Some(KeyCode::Char(if upper { '}' } else { ']' })),
        SimKey::Backquote => Some(KeyCode::Char(if upper { '~' } else { '`' })),
        SimKey::Plus => Some(KeyCode::Char('+')),
        SimKey::Comma => Some(KeyCode::Char(if upper { '<' } else { ',' })),
        SimKey::Minus => Some(KeyCode::Char(if upper { '_' } else { '-' })),
        SimKey::Period => Some(KeyCode::Char(if upper { '>' } else { '.' })),
        SimKey::Slash => Some(KeyCode::Char(if upper { '?' } else { '/' })),
        SimKey::LCtrl => None,
        SimKey::LShift => None,
        SimKey::LAlt => None,
        SimKey::LGui => None,
        SimKey::RCtrl => None,
        SimKey::RShift => None,
        SimKey::RAlt => None,
        SimKey::RGui => None,
        SimKey::Mode => None,
        SimKey::Other => None,
    }
}

/// The key event for a simulator key event, if the key has one: shifted
/// characters are chosen when shift or caps lock is on.
pub open spec fn sim_key_event(key: SimKey, keymod: u16, repeat: bool, is_down: bool) -> Option<KeyEvent> {
    let m = sim_modifiers(keymod);
    match sim_key_code(key, m.shift || m.capslock) {
        Some(code) => Some(KeyEvent { kind: sim_kind(repeat, is_down), modifiers: m, code }),
        None => None,
    }
}

fn key_code(key: SimKey, upper: bool) -> (r: Option<KeyCode>)
    ensures
        r == sim_key_code(key, upper),
{
    match key {
            SimKey::Backspace => Some(KeyCode::Backspace),
            SimKey::Tab => Some(KeyCode::Tab),
            SimKey::Return => Some(KeyCode::Enter),
            SimKey::Escape => Some(KeyCode::Esc),
            SimKey::Space => Some(KeyCode::Char(' ')),
            SimKey::Semicolon => Some(KeyCode::Char(if upper { ':' } else { ';' })),
            SimKey::Less => Some(KeyCode::Char('<')),
            SimKey::Equals => Some(KeyCode::Char(if upper { '+' } else { '=' })),
            SimKey::Greater => Some(KeyCode::Char('>')),
            SimKey::Question => Some(KeyCode::Char('?')),
            SimKey::At => Some(KeyCode::Char('@')),
            SimKey::Caret => Some(KeyCode::Char('^')),
            SimKey::Underscore => Some(KeyCode::Char('_')),
            SimKey::A => Some(KeyCode::Char(if upper { 'A' } else { 'a' })),
            SimKey::B => Some(KeyCode::Char(if upper { 'B' } else { 'b' })),
            SimKey::C => Some(KeyCode::Char(if upper { 'C' } else { 'c' })),
            SimKey::D => Some(KeyCode::Char(if upper { 'D' } else { 'd' })),
            SimKey::E => Some(KeyCode::Char(if upper { 'E' } else { 'e' })),
            SimKey::F => Some(KeyCode::Char(if upper { 'F' } else { 'f' })),
            SimKey::G => Some(KeyCode::Char(if upper { 'G' } else { 'g' })),
            SimKey::H => Some(KeyCode::Char(if upper { 'H' } else { 'h' })),
            SimKey::I => Some(KeyCode::Char(if upper { 'I' } else { 'i' })),
            SimKey::J => Some(KeyCode::Char(if upper { 'J' } else { 'j' })),
            SimKey::K => Some(KeyCode::Char(if upper { 'K' } else { 'k' })),
            SimKey::L => Some(KeyCode::Char(if upper { 'L' } else { 'l' })),
            SimKey::M => Some(KeyCode::Char(if upper { 'M' } else { 'm' })),
            SimKey::N => Some(KeyCode::Char(if upper { 'N' } else { 'n' })),
            SimKey::O => Some(KeyCode::Char(if upper { 'O' } else { 'o' })),
            SimKey::P => Some(KeyCode::Char(if upper { 'P' } else { 'p' })),
            SimKey::Q => Some(KeyCode::Char(if upper { 'Q' } else { 'q' })),
            SimKey::R => Some(KeyCode::Char(if upper { 'R' } else { 'r' })),
            SimKey::S => Some(KeyCode::Char(if upper { 'S' } else { 's' })),
            SimKey::T => Some(KeyCode::Char(if upper { 'T' } else { 't' })),
            SimKey::U => Some(KeyCode::Char(if upper { 'U' } else { 'u' })),
            SimKey::V => Some(KeyCode::Char(if upper { 'V' } else { 'v' })),
            SimKey::W => Some(KeyCode::Char(if upper { 'W' } else { 'w' })),
            SimKey::X => Some(KeyCode::Char(if upper { 'X' } else { 'x' })),
            SimKey::Y => Some(KeyCode::Char(if upper { 'Y' } else { 'y' })),
            SimKey::Z => Some(KeyCode::Char(if upper { 'Z' } else { 'z' })),
            SimKey::Delete => Some(KeyCode::Delete),
            SimKey::F1 => Some(KeyCode::F(1)),
            SimKey::F2 => Some(KeyCode::F(2)),
            SimKey::F3 => Some(KeyCode::F(3)),
            SimKey::F4 => Some(KeyCode::F(4)),
            SimKey::F5 => Some(KeyCode::F(5)),
            SimKey::F6 => Some(KeyCode::F(6)),
            SimKey::F7 => Some(KeyCode::F(7)),
            SimKey::F8 => Some(KeyCode::F(8)),
            SimKey::F9 => Some(KeyCode::F(9)),
            SimKey::F10 => Some(KeyCode::F(10)),
            SimKey::F11 => Some(KeyCode::F(11)),
            SimKey::F12 => Some(KeyCode::F(12)),
            SimKey::F13 => Some(KeyCode::F(13)),
            SimKey::F14 => Some(KeyCode::F(14)),
            SimKey::F15 => Some(KeyCode::F(15)),
            SimKey::F16 => Some(KeyCode::F(16)),
            SimKey::F17 => Some(KeyCode::F(17)),
            SimKey::F18 => Some(KeyCode::F(18)),
            SimKey::F19 => Some(KeyCode::F(19)),
            SimKey::F20 => Some(KeyCode::F(20)),
            SimKey::F21 => Some(KeyCode::F(21)),
            SimKey::F22 => Some(KeyCode::F(22)),
            SimKey::F23 => Some(KeyCode::F(23)),
            SimKey::F24 => Some(KeyCode::F(24)),
            SimKey::PrintScreen => Some(KeyCode::PrintScreen),
            SimKey::Pause => Some(KeyCode::Pause),
            SimKey::Insert => Some(KeyCode::Insert),
            SimKey::Home => Some(KeyCode::Home),
            SimKey::PageUp => Some(KeyCode::PageUp),
            SimKey::End => Some(KeyCode::End),
            SimKey::PageDown => Some(KeyCode::PageDown),
            SimKey::Right => Some(KeyCode::Right),
            SimKey::Left => Some(KeyCode::Left),
            SimKey::Down => Some(KeyCode::Down),
            SimKey::Up => Some(KeyCode::Up),
            SimKey::Num0 => Some(KeyCode::Char(if upper { ')' } else { '0' })),
            SimKey::Num1 => Some(KeyCode::Char(if upper { '!' } else { '1' })),
            SimKey::Num2 => Some(KeyCode::Char(if upper { '@' } else { '2' })),
            SimKey::Num3 => Some(KeyCode::Char(if upper { '#' } else { '3' })),
            SimKey::Num4 => Some(KeyCode::Char(if upper { '$' } else { '4' })),
            SimKey::Num5 => Some(KeyCode::Char(if upper { '%' } else { '5' })),
            SimKey::Num6 => Some(KeyCode::Char(if upper { '^' } else { '6' })),
            SimKey::Num7 => Some(KeyCode::Char(if upper { '&' } else { '7' })),
            SimKey::Num8 => Some(KeyCode::Char(if upper { '*' } else { '8' })),
            SimKey::Num9 => Some(KeyCode::Char(if upper { '(' } else { '9' })),
            SimKey::Quote => Some(KeyCode::Char(if upper { '"' } else { '\'' })),
            SimKey::LeftBracket => Some(KeyCode::Char(if upper { '{' } else { '[' })),
            SimKey::Backslash => Some(KeyCode::Char(if upper { '|' } else { '\\' })),
            SimKey::RightBracket => Some(KeyCode::Char(if upper { '}' } else { ']' })),
            SimKey::Backquote => Some(KeyCode::Char(if upper { '~' } else { '`' })),
            SimKey::Plus => Some(KeyCode::Char('+')),
            SimKey::Comma => Some(KeyCode::Char(if upper { '<' } else { ',' })),
            SimKey::Minus => Some(KeyCode::Char(if upper { '_' } else { '-' })),
            SimKey::Period => Some(KeyCode::Char(if upper { '>' } else { '.' })),
            SimKey::Slash => Some(KeyCode::Char(if upper { '?' } else { '/' })),
            SimKey::LCtrl => None,
            SimKey::LShift => None,
            SimKey::LAlt => None,
            SimKey::LGui => None,
            SimKey::RCtrl => None,
            SimKey::RShift => None,
            SimKey::RAlt => None,
            SimKey::RGui => None,
            SimKey::Mode => None,
            SimKey::Other => None,
    }
}

/// Translates a key event of the desktop simulator (key, modifier bits,
/// whether it repeats, whether the key went down) into a key event.
pub fn sim_key_to_key_event(keycode: SimKey, keymod: u16, repeat: bool, is_down: bool) -> (r: Option<KeyEvent>)
    ensures
        r == sim_key_event(keycode, keymod, repeat, is_down),
{
    let kind = if !is_down {
        KeyKind::Released
    } else if repeat {
        KeyKind::Held
    } else {
        KeyKind::Pressed
    };
    let modifiers = Modifiers {
        shift: keymod & MOD_LSHIFT != 0 || keymod & MOD_RSHIFT != 0,
        ctrl: keymod & MOD_LCTRL != 0 || keymod & MOD_RCTRL != 0,
        alt: keymod & MOD_LALT != 0 || keymod & MOD_RALT != 0,
        meta: keymod & MOD_LGUI != 0 || keymod & MOD_RGUI != 0,
        numlock: keymod & MOD_NUM != 0,
        capslock: keymod & MOD_CAPS != 0,
    };
    let upper = modifiers.shift || modifiers.capslock;
    match key_code(keycode, upper) {
        Some(code) => Some(KeyEvent { kind, modifiers, code }),
        None => None,
    }
}

/// Whether a simulator key is a letter key.
pub open spec fn is_letter(key: SimKey) -> bool {
    matches!(key, SimKey::A | SimKey::B | SimKey::C | SimKey::D | SimKey::E | SimKey::F | SimKey::G | SimKey::H | SimKey::I | SimKey::J | SimKey::K | SimKey::L | SimKey::M | SimKey::N | SimKey::O | SimKey::P | SimKey::Q | SimKey::R | SimKey::S | SimKey::T | SimKey::U | SimKey::V | SimKey::W | SimKey::X | SimKey::Y | SimKey::Z)
}

/// A letter key gives its lower-case letter, and with shift or caps lock its
/// upper-case letter; the two differ by the ASCII case offset.
pub proof fn lemma_letter_case(key: SimKey)
    requires
        is_letter(key),
    ensures
        sim_key_code(key, false) matches Some(KeyCode::Char(lo)) && sim_key_code(key, true) matches Some(
            KeyCode::Char(up),
        ) && 'a' <= lo <= 'z' && up as u32 + 32 == lo as u32,
{
}

/// Every letter, digit and function key gives what its name says: key `A`
/// the letter `a`, `Num0` the digit `0`, `F1` function key 1, and so on;
/// with shift, the number row gives the US layout's symbols.
pub proof fn lemma_named_keys()
    ensures
        sim_key_code(SimKey::A, false) == Some(KeyCode::Char('a')),
        sim_key_code(SimKey::B, false) == Some(KeyCode::Char('b')),
        sim_key_code(SimKey::C, false) == Some(KeyCode::Char('c')),
        sim_key_code(SimKey::D, false) == Some(KeyCode::Char('d')),
        sim_key_code(SimKey::E, false) == Some(KeyCode::Char('e')),
        sim_key_code(SimKey::F, false) == Some(KeyCode::Char('f')),
        sim_key_code(SimKey::G, false) == Some(KeyCode::Char('g')),
        sim_key_code(SimKey::H, false) == Some(KeyCode::Char('h')),
        sim_key_code(SimKey::I, false) == Some(KeyCode::Char('i')),
        sim_key_code(SimKey::J, false) == Some(KeyCode::Char('j')),
        sim_key_code(SimKey::K, false) == Some(KeyCode::Char('k')),
        sim_key_code(SimKey::L, false) == Some(KeyCode::Char('l')),
        sim_key_code(SimKey::M, false) == Some(KeyCode::Char('m')),
        sim_key_code(SimKey::N, false) == Some(KeyCode::Char('n')),
        sim_key_code(SimKey::O, false) == Some(KeyCode::Char('o')),
        sim_key_code(SimKey::P, false) == Some(KeyCode::Char('p')),
        sim_key_code(SimKey::Q, false) == Some(KeyCode::Char('q')),
        sim_key_code(SimKey::R, false) == Some(KeyCode::Char('r')),
        sim_key_code(SimKey::S, false) == Some(KeyCode::Char('s')),
        sim_key_code(SimKey::T, false) == Some(KeyCode::Char('t')),
        sim_key_code(SimKey::U, false) == Some(KeyCode::Char('u')),
        sim_key_code(SimKey::V, false) == Some(KeyCode::Char('v')),
        sim_key_code(SimKey::W, false) == Some(KeyCode::Char('w')),
        sim_key_code(SimKey::X, false) == Some(KeyCode::Char('x')),
        sim_key_code(SimKey::Y, false) == Some(KeyCode::Char('y')),
        sim_key_code(SimKey::Z, false) == Some(KeyCode::Char('z')),
        sim_key_code(SimKey::Num0, false) == Some(KeyCode::Char('0')),
        sim_key_code(SimKey::Num1, false) == Some(KeyCode::Char('1')),
        sim_key_code(SimKey::Num2, false) == Some(KeyCode::Char('2')),
        sim_key_code(SimKey::Num3, false) == Some(KeyCode::Char('3')),
        sim_key_code(SimKey::Num4, false) == Some(KeyCode::Char('4')),
        sim_key_code(SimKey::Num5, false) == Some(KeyCode::Char('5')),
        sim_key_code(SimKey::Num6, false) == Some(KeyCode::Char('6')),
        sim_key_code(SimKey::Num7, false) == Some(KeyCode::Char('7')),
        sim_key_code(SimKey::Num8, false) == Some(KeyCode::Char('8')),
        sim_key_code(SimKey::Num9, false) == Some(KeyCode::Char('9')),
        sim_key_code(SimKey::F1, false) == Some(KeyCode::F(1)) && sim_key_code(SimKey::F1, true) == Some(KeyCode::F(1)),
        sim_key_code(SimKey::F2, false) == Some(KeyCode::F(2)) && sim_key_code(SimKey::F2, true) == Some(KeyCode::F(2)),
        sim_key_code(SimKey::F3, false) == Some(KeyCode::F(3)) && sim_key_code(SimKey::F3, true) == Some(KeyCode::F(3)),
        sim_key_code(SimKey::F4, false) == Some(KeyCode::F(4)) && sim_key_code(SimKey::F4, true) == Some(KeyCode::F(4)),
        sim_key_code(SimKey::F5, false) == Some(KeyCode::F(5)) && sim_key_code(SimKey::F5, true) == Some(KeyCode::F(5)),
        sim_key_code(SimKey::F6, false) == Some(KeyCode::F(6)) && sim_key_code(SimKey::F6, true) == Some(KeyCode::F(6)),
        sim_key_code(SimKey::F7, false) == Some(KeyCode::F(7)) && sim_key_code(SimKey::F7, true) == Some(KeyCode::F(7)),
        sim_key_code(SimKey::F8, false) == Some(KeyCode::F(8)) && sim_key_code(SimKey::F8, true) == Some(KeyCode::F(8)),
        sim_key_code(SimKey::F9, false) == Some(KeyCode::F(9)) && sim_key_code(SimKey::F9, true) == Some(KeyCode::F(9)),
        sim_key_code(SimKey::F10, false) == Some(KeyCode::F(10)) && sim_key_code(SimKey::F10, true) == Some(KeyCode::F(10)),
        sim_key_code(SimKey::F11, false) == Some(KeyCode::F(11)) && sim_key_code(SimKey::F11, true) == Some(KeyCode::F(11)),
        sim_key_code(SimKey::F12, false) == Some(KeyCode::F(12)) && sim_key_code(SimKey::F12, true) == Some(KeyCode::F(12)),
        sim_key_code(SimKey::F13, false) == Some(KeyCode::F(13)) && sim_key_code(SimKey::F13, true) == Some(KeyCode::F(13)),
        sim_key_code(SimKey::F14, false) == Some(KeyCode::F(14)) && sim_key_code(SimKey::F14, true) == Some(KeyCode::F(14)),
        sim_key_code(SimKey::F15, false) == Some(KeyCode::F(15)) && sim_key_code(SimKey::F15, true) == Some(KeyCode::F(15)),
        sim_key_code(SimKey::F16, false) == Some(KeyCode::F(16)) && sim_key_code(SimKey::F16, true) == Some(KeyCode::F(16)),
        sim_key_code(SimKey::F17, false) == Some(KeyCode::F(17)) && sim_key_code(SimKey::F17, true) == Some(KeyCode::F(17)),
        sim_key_code(SimKey::F18, false) == Some(KeyCode::F(18)) && sim_key_code(SimKey::F18, true) == Some(KeyCode::F(18)),
        sim_key_code(SimKey::F19, false) == Some(KeyCode::F(19)) && sim_key_code(SimKey::F19, true) == Some(KeyCode::F(19)),
        sim_key_code(SimKey::F20, false) == Some(KeyCode::F(20)) && sim_key_code(SimKey::F20, true) == Some(KeyCode::F(20)),
        sim_key_code(SimKey::F21, false) == Some(KeyCode::F(21)) && sim_key_code(SimKey::F21, true) == Some(KeyCode::F(21)),
        sim_key_code(SimKey::F22, false) == Some(KeyCode::F(22)) && sim_key_code(SimKey::F22, true) == Some(KeyCode::F(22)),
        sim_key_code(SimKey::F23, false) == Some(KeyCode::F(23)) && sim_key_code(SimKey::F23, true) == Some(KeyCode::F(23)),
        sim_key_code(SimKey::F24, false) == Some(KeyCode::F(24)) && sim_key_code(SimKey::F24, true) == Some(KeyCode::F(24)),
        sim_key_code(SimKey::Num1, true) == Some(KeyCode::Char('!')),
        sim_key_code(SimKey::Num2, true) == Some(KeyCode::Char('@')),
        sim_key_code(SimKey::Num3, true) == Some(KeyCode::Char('#')),
        sim_key_code(SimKey::Num4, true) == Some(KeyCode::Char('$')),
        sim_key_code(SimKey::Num5, true) == Some(KeyCode::Char('%')),
        sim_key_code(SimKey::Num6, true) == Some(KeyCode::Char('^')),
        sim_key_code(SimKey::Num7, true) == Some(KeyCode::Char('&')),
        sim_key_code(SimKey::Num8, true) == Some(KeyCode::Char('*')),
        sim_key_code(SimKey::Num9, true) == Some(KeyCode::Char('(')),
        sim_key_code(SimKey::Num0, true) == Some(KeyCode::Char(')')),
{
}

} // verus!
