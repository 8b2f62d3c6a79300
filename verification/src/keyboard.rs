use vstd::prelude::*;

verus! {

/// A logical key on a US 104-key layout, the target of scan-code decoding.
#[derive(Clone, Copy, Debug, PartialEq, Eq, Structural)]
pub enum KeyCode {
    AltLeft,
    AltRight,
    ArrowDown,
    ArrowLeft,
    ArrowRight,
    ArrowUp,
    BackSlash,
    Backspace,
    BackTick,
    BracketSquareLeft,
    BracketSquareRight,
    Break,
    CapsLock,
    Comma,
    ControlLeft,
    ControlRight,
    Delete,
    End,
    Enter,
    Escape,
    Equals,
    F1,
    F2,
    F3,
    F4,
    F5,
    F6,
    F7,
    F8,
    F9,
    F10,
    F11,
    F12,
    Fullstop,
    Home,
    Insert,
    Key1,
    Key2,
    Key3,
    Key4,
    Key5,
    Key6,
    Key7,
    Key8,
    Key9,
    Key0,
    Menus,
    Minus,
    Numpad0,
    Numpad1,
    Numpad2,
    Numpad3,
    Numpad4,
    Numpad5,
    Numpad6,
    Numpad7,
    Numpad8,
    Numpad9,
    NumpadEnter,
    NumpadLock,
    NumpadSlash,
    NumpadStar,
    NumpadMinus,
    NumpadPeriod,
    NumpadPlus,
    PageDown,
    PageUp,
    PauseBreak,
    PrintScreen,
    ScrollLock,
    SemiColon,
    ShiftLeft,
    ShiftRight,
    Slash,
    Spacebar,
    SysReq,
    Tab,
    Quote,
    WindowsLeft,
    WindowsRight,
    A,
    B,
    C,
    D,
    E,
    F,
    G,
    H,
    I,
    J,
    K,
    L,
    M,
    N,
    O,
    P,
    Q,
    R,
    S,
    T,
    U,
    V,
    W,
    X,
    Y,
    Z,
}

/// Whether a key event is a press or a release.
#[derive(Clone, Copy, Debug, PartialEq, Eq, Structural)]
pub enum KeyState {
    Up,
    Down,
}

/// A decoded key transition: which key, and whether it went down or up.
#[derive(Clone, Copy, Debug, PartialEq, Eq, Structural)]
pub struct KeyEvent {
    pub code: KeyCode,
    pub state: KeyState,
}

impl KeyEvent {
    pub fn new(code: KeyCode, state: KeyState) -> (ev: KeyEvent)
        ensures
            ev.code == code,
            ev.state == state,
    {
        KeyEvent { code, state }
    }
}

/// The consumer-facing meaning of a key press: either a printable (or control)
/// character, or a key with no character meaning.
#[derive(Clone, Copy, Debug, PartialEq, Eq, Structural)]
pub enum DecodedKey {
    RawKey(KeyCode),
    Unicode(char),
}

/// Error for a byte that maps to no key in scan code set 1.
#[derive(Clone, Copy, Debug, PartialEq, Eq, Structural)]
pub struct DecodeError;

/// The scan code set 1 table: which key a press code in `0x01..=0x58` names.
/// Codes in the documented gaps of the set map to `None`.
pub open spec fn spec_scan_table(code: u8) -> Option<KeyCode> {
    if code == 0x01 {
        Some(KeyCode::Escape)
    } else if code == 0x02 {
        Some(KeyCode::Key1)
    } else if code == 0x03 {
        Some(KeyCode::Key2)
    } else if code == 0x04 {
        Some(KeyCode::Key3)
    } else if code == 0x05 {
        Some(KeyCode::Key4)
    } else if code == 0x06 {
        Some(KeyCode::Key5)
    } else if code == 0x07 {
        Some(KeyCode::Key6)
    } else if code == 0x08 {
        Some(KeyCode::Key7)
    } else if code == 0x09 {
        Some(KeyCode::Key8)
    } else if code == 0x0a {
        Some(KeyCode::Key9)
    } else if code == 0x0b {
        Some(KeyCode::Key0)
    } else if code == 0x0c {
        Some(KeyCode::Minus)
    } else if code == 0x0d {
        Some(KeyCode::Equals)
    } else if code == 0x0e {
        Some(KeyCode::Backspace)
    } else if code == 0x0f {
        Some(KeyCode::Tab)
    } else if code == 0x10 {
        Some(KeyCode::Q)
    } else if code == 0x11 {
        Some(KeyCode::W)
    } else if code == 0x12 {
        Some(KeyCode::E)
    } else if code == 0x13 {
        Some(KeyCode::R)
    } else if code == 0x14 {
        Some(KeyCode::T)
    } else if code == 0x15 {
        Some(KeyCode::Y)
    } else if code == 0x16 {
        Some(KeyCode::U)
    } else if code == 0x17 {
        Some(KeyCode::I)
    } else if code == 0x18 {
        Some(KeyCode::O)
    } else if code == 0x19 {
        Some(KeyCode::P)
    } else if code == 0x1a {
        Some(KeyCode::BracketSquareLeft)
    } else if code == 0x1b {
        Some(KeyCode::BracketSquareRight)
    } else if code == 0x1c {
        Some(KeyCode::Enter)
    } else if code == 0x1d {
        Some(KeyCode::ControlLeft)
    } else if code == 0x1e {
        Some(KeyCode::A)
    } else if code == 0x1f {
        Some(KeyCode::S)
    } else if code == 0x20 {
        Some(KeyCode::D)
    } else if code == 0x21 {
        Some(KeyCode::F)
    } else if code == 0x22 {
        Some(KeyCode::G)
    } else if code == 0x23 {
        Some(KeyCode::H)
    } else if code == 0x24 {
        Some(KeyCode::J)
    } else if code == 0x25 {
        Some(KeyCode::K)
    } else if code == 0x26 {
        Some(KeyCode::L)
    } else if code == 0x27 {
        Some(KeyCode::SemiColon)
    } else if code == 0x28 {
        Some(KeyCode::Quote)
    } else if code == 0x29 {
        Some(KeyCode::BackTick)
    } else if code == 0x2a {
        Some(KeyCode::ShiftLeft)
    } else if code == 0x2b {
        Some(KeyCode::BackSlash)
    } else if code == 0x2c {
        Some(KeyCode::Z)
    } else if code == 0x2d {
        Some(KeyCode::X)
    } else if code == 0x2e {
        Some(KeyCode::C)
    } else if code == 0x2f {
        Some(KeyCode::V)
    } else if code == 0x30 {
        Some(KeyCode::B)
    } else if code == 0x31 {
        Some(KeyCode::N)
    } else if code == 0x32 {
        Some(KeyCode::M)
    } else if code == 0x33 {
        Some(KeyCode::Comma)
    } else if code == 0x34 {
        Some(KeyCode::Fullstop)
    } else if code == 0x35 {
        Some(KeyCode::Slash)
    } else if code == 0x36 {
        Some(KeyCode::ShiftRight)
    } else if code == 0x37 {
        Some(KeyCode::NumpadStar)
    } else if code == 0x38 {
        Some(KeyCode::AltLeft)
    } else if code == 0x39 {
        Some(KeyCode::Spacebar)
    } else if code == 0x3a {
        Some(KeyCode::CapsLock)
    } else if code == 0x3b {
        Some(KeyCode::F1)
    } else if code == 0x3c {
        Some(KeyCode::F2)
    } else if code == 0x3d {
        Some(KeyCode::F3)
    } else if code == 0x3e {
        Some(KeyCode::F4)
    } else if code == 0x3f {
        Some(KeyCode::F5)
    } else if code == 0x40 {
        Some(KeyCode::F6)
    } else if code == 0x41 {
        Some(KeyCode::F7)
    } else if code == 0x42 {
        Some(KeyCode::F8)
    } else if code == 0x43 {
        Some(KeyCode::F9)
    } else if code == 0x44 {
        Some(KeyCode::F10)
    } else if code == 0x45 {
        Some(KeyCode::NumpadLock)
    } else if code == 0x46 {
        Some(KeyCode::ScrollLock)
    } else if code == 0x47 {
        Some(KeyCode::Numpad7)
    } else if code == 0x48 {
        Some(KeyCode::Numpad8)
    } else if code == 0x49 {
        Some(KeyCode::Numpad9)
    } else if code == 0x4a {
        Some(KeyCode::NumpadMinus)
    } else if code == 0x4b {
        Some(KeyCode::Numpad4)
    } else if code == 0x4c {
        Some(KeyCode::Numpad5)
    } else if code == 0x4d {
        Some(KeyCode::Numpad6)
    } else if code == 0x4e {
        Some(KeyCode::NumpadPlus)
    } else if code == 0x4f {
        Some(KeyCode::Numpad1)
    } else if code == 0x50 {
        Some(KeyCode::Numpad2)
    } else if code == 0x51 {
        Some(KeyCode::Numpad3)
    } else if code == 0x52 {
        Some(KeyCode::Numpad0)
    } else if code == 0x53 {
        Some(KeyCode::NumpadPeriod)
    } else if code == 0x57 {
        Some(KeyCode::F11)
    } else if code == 0x58 {
        Some(KeyCode::F12)
    } else {
        None
    }
}

/// The full key-code mapping, including the mirrored range `0x81..=0xd8`,
/// which repeats the table after subtracting `0x80`.
pub open spec fn spec_key_code(code: u8) -> Option<KeyCode> {
    if 0x81 <= code <= 0xd8 {
        spec_scan_table((code - 0x80) as u8)
    } else {
        spec_scan_table(code)
    }
}

/// The event a raw scancode byte stands for: bytes at or above `0x80` release
/// the key named by `byte - 0x80`, all others press the key they name.
pub open spec fn spec_key_event(code: u8) -> Option<KeyEvent> {
    if code >= 0x80 {
        match spec_key_code((code - 0x80) as u8) {
            Some(k) => Some(KeyEvent { code: k, state: KeyState::Up }),
            None => None,
        }
    } else {
        match spec_key_code(code) {
            Some(k) => Some(KeyEvent { code: k, state: KeyState::Down }),
            None => None,
        }
    }
}

/// Looks a code up in the scan code set 1 table.
pub fn get_key_code(code: u8) -> (r: Result<KeyCode, DecodeError>)
    ensures
        r matches Ok(k) ==> spec_key_code(code) == Some(k),
        r is Err ==> spec_key_code(code) is None,
    decreases code,
{
    if code == 0x01 {
        Ok(KeyCode::Escape)
    } else if code == 0x02 {
        Ok(KeyCode::Key1)
    } else if code == 0x03 {
        Ok(KeyCode::Key2)
    } else if code == 0x04 {
        Ok(KeyCode::Key3)
    } else if code == 0x05 {
        Ok(KeyCode::Key4)
    } else if code == 0x06 {
        Ok(KeyCode::Key5)
    } else if code == 0x07 {
        Ok(KeyCode::Key6)
    } else if code == 0x08 {
        Ok(KeyCode::Key7)
    } else if code == 0x09 {
        Ok(KeyCode::Key8)
    } else if code == 0x0a {
        Ok(KeyCode::Key9)
    } else if code == 0x0b {
        Ok(KeyCode::Key0)
    } else if code == 0x0c {
        Ok(KeyCode::Minus)
    } else if code == 0x0d {
        Ok(KeyCode::Equals)
    } else if code == 0x0e {
        Ok(KeyCode::Backspace)
    } else if code == 0x0f {
        Ok(KeyCode::Tab)
    } else if code == 0x10 {
        Ok(KeyCode::Q)
    } else if code == 0x11 {
        Ok(KeyCode::W)
    } else if code == 0x12 {
        Ok(KeyCode::E)
    } else if code == 0x13 {
        Ok(KeyCode::R)
    } else if code == 0x14 {
        Ok(KeyCode::T)
    } else if code == 0x15 {
        Ok(KeyCode::Y)
    } else if code == 0x16 {
        Ok(KeyCode::U)
    } else if code == 0x17 {
        Ok(KeyCode::I)
    } else if code == 0x18 {
        Ok(KeyCode::O)
    } else if code == 0x19 {
        Ok(KeyCode::P)
    } else if code == 0x1a {
        Ok(KeyCode::BracketSquareLeft)
    } else if code == 0x1b {
        Ok(KeyCode::BracketSquareRight)
    } else if code == 0x1c {
        Ok(KeyCode::Enter)
    } else if code == 0x1d {
        Ok(KeyCode::ControlLeft)
    } else if code == 0x1e {
        Ok(KeyCode::A)
    } else if code == 0x1f {
        Ok(KeyCode::S)
    } else if code == 0x20 {
        Ok(KeyCode::D)
    } else if code == 0x21 {
        Ok(KeyCode::F)
    } else if code == 0x22 {
        Ok(KeyCode::G)
    } else if code == 0x23 {
        Ok(KeyCode::H)
    } else if code == 0x24 {
        Ok(KeyCode::J)
    } else if code == 0x25 {
        Ok(KeyCode::K)
    } else if code == 0x26 {
        Ok(KeyCode::L)
    } else if code == 0x27 {
        Ok(KeyCode::SemiColon)
    } else if code == 0x28 {
        Ok(KeyCode::Quote)
    } else if code == 0x29 {
        Ok(KeyCode::BackTick)
    } else if code == 0x2a {
        Ok(KeyCode::ShiftLeft)
    } else if code == 0x2b {
        Ok(KeyCode::BackSlash)
    } else if code == 0x2c {
        Ok(KeyCode::Z)
    } else if code == 0x2d {
        Ok(KeyCode::X)
    } else if code == 0x2e {
        Ok(KeyCode::C)
    } else if code == 0x2f {
        Ok(KeyCode::V)
    } else if code == 0x30 {
        Ok(KeyCode::B)
    } else if code == 0x31 {
        Ok(KeyCode::N)
    } else if code == 0x32 {
        Ok(KeyCode::M)
    } else if code == 0x33 {
        Ok(KeyCode::Comma)
    } else if code == 0x34 {
        Ok(KeyCode::Fullstop)
    } else if code == 0x35 {
        Ok(KeyCode::Slash)
    } else if code == 0x36 {
        Ok(KeyCode::ShiftRight)
    } else if code == 0x37 {
        Ok(KeyCode::NumpadStar)
    } else if code == 0x38 {
        Ok(KeyCode::AltLeft)
    } else if code == 0x39 {
        Ok(KeyCode::Spacebar)
    } else if code == 0x3a {
        Ok(KeyCode::CapsLock)
    } else if code == 0x3b {
        Ok(KeyCode::F1)
    } else if code == 0x3c {
        Ok(KeyCode::F2)
    } else if code == 0x3d {
        Ok(KeyCode::F3)
    } else if code == 0x3e {
        Ok(KeyCode::F4)
    } else if code == 0x3f {
        Ok(KeyCode::F5)
    } else if code == 0x40 {
        Ok(KeyCode::F6)
    } else if code == 0x41 {
        Ok(KeyCode::F7)
    } else if code == 0x42 {
        Ok(KeyCode::F8)
    } else if code == 0x43 {
        Ok(KeyCode::F9)
    } else if code == 0x44 {
        Ok(KeyCode::F10)
    } else if code == 0x45 {
        Ok(KeyCode::NumpadLock)
    } else if code == 0x46 {
        Ok(KeyCode::ScrollLock)
    } else if code == 0x47 {
        Ok(KeyCode::Numpad7)
    } else if code == 0x48 {
        Ok(KeyCode::Numpad8)
    } else if code == 0x49 {
        Ok(KeyCode::Numpad9)
    } else if code == 0x4a {
        Ok(KeyCode::NumpadMinus)
    } else if code == 0x4b {
        Ok(KeyCode::Numpad4)
    } else if code == 0x4c {
        Ok(KeyCode::Numpad5)
    } else if code == 0x4d {
        Ok(KeyCode::Numpad6)
    } else if code == 0x4e {
        Ok(KeyCode::NumpadPlus)
    } else if code == 0x4f {
        Ok(KeyCode::Numpad1)
    } else if code == 0x50 {
        Ok(KeyCode::Numpad2)
    } else if code == 0x51 {
        Ok(KeyCode::Numpad3)
    } else if code == 0x52 {
        Ok(KeyCode::Numpad0)
    } else if code == 0x53 {
        Ok(KeyCode::NumpadPeriod)
    } else if code == 0x57 {
        Ok(KeyCode::F11)
    } else if code == 0x58 {
        Ok(KeyCode::F12)
    } else if 0x81 <= code && code <= 0xd8 {
        get_key_code(code - 0x80)
    } else {
        Err(DecodeError)
    }
}

/// Decodes one raw scancode byte into a press or release event.
pub fn get_key_ev(code: u8) -> (r: Result<KeyEvent, DecodeError>)
    ensures
        r matches Ok(ev) ==> spec_key_event(code) == Some(ev),
        r is Err ==> spec_key_event(code) is None,
{
    if code >= 0x80 {
        match get_key_code(code - 0x80) {
            Ok(k) => Ok(KeyEvent::new(k, KeyState::Up)),
            Err(e) => Err(e),
        }
    } else {
        match get_key_code(code) {
            Ok(k) => Ok(KeyEvent::new(k, KeyState::Down)),
            Err(e) => Err(e),
        }
    }
}


/// The decoder's modifier memory: which shift, control and lock states are
/// currently in effect. Mutated only by `process_key_ev`.
#[derive(Clone, Copy, Debug, PartialEq, Eq, Structural)]
pub struct Keyboard {
    pub lshift: bool,
    pub rshift: bool,
    pub lctrl: bool,
    pub rctrl: bool,
    pub numlock: bool,
    pub capslock: bool,
    pub alt_gr: bool,
}

impl Keyboard {
    /// Either shift key is held.
    pub open spec fn spec_shifted(self) -> bool {
        self.lshift || self.rshift
    }

    /// Either control key is held.
    pub open spec fn spec_ctrl(self) -> bool {
        self.lctrl || self.rctrl
    }

    /// The effective uppercase state: shift and caps-lock cancel each other.
    pub open spec fn spec_caps(self) -> bool {
        (self.lshift || self.rshift) != self.capslock
    }

    pub fn new() -> (kb: Keyboard)
        ensures
            kb == (Keyboard {
                lshift: false,
                rshift: false,
                lctrl: false,
                rctrl: false,
                numlock: false,
                capslock: false,
                alt_gr: false,
            }),
    {
        Keyboard {
            lshift: false,
            rshift: false,
            lctrl: false,
            rctrl: false,
            numlock: false,
            capslock: false,
            alt_gr: false,
        }
    }

    pub fn is_shifted(&self) -> (r: bool)
        ensures
            r == self.spec_shifted(),
    {
        self.lshift || self.rshift
    }

    pub fn is_ctrl(&self) -> (r: bool)
        ensures
            r == self.spec_ctrl(),
    {
        self.lctrl || self.rctrl
    }

    pub fn is_caps(&self) -> (r: bool)
        ensures
            r == self.spec_caps(),
    {
        (self.lshift || self.rshift) != self.capslock
    }
}

/// A key that only updates the modifier memory and is never surfaced.
pub open spec fn spec_is_modifier(code: KeyCode) -> bool {
    ||| code == KeyCode::ShiftLeft
    ||| code == KeyCode::ShiftRight
    ||| code == KeyCode::CapsLock
    ||| code == KeyCode::NumpadLock
    ||| code == KeyCode::ControlLeft
    ||| code == KeyCode::ControlRight
    ||| code == KeyCode::AltRight
}

/// A shifted/plain character pair: shift picks the first.
pub open spec fn spec_shift_pair(kb: Keyboard, shifted: char, plain: char) -> DecodedKey {
    if kb.spec_shifted() {
        DecodedKey::Unicode(shifted)
    } else {
        DecodedKey::Unicode(plain)
    }
}

/// A letter key: control picks the C0 control code, otherwise the effective
/// uppercase state picks the case.
pub open spec fn spec_letter(kb: Keyboard, ctrl: char, upper: char, lower: char) -> DecodedKey {
    if kb.spec_ctrl() {
        DecodedKey::Unicode(ctrl)
    } else if kb.spec_caps() {
        DecodedKey::Unicode(upper)
    } else {
        DecodedKey::Unicode(lower)
    }
}

/// A numeric-keypad key: num-lock picks the digit, otherwise the navigation key.
pub open spec fn spec_numpad(kb: Keyboard, digit: char, nav: KeyCode) -> DecodedKey {
    if kb.numlock {
        DecodedKey::Unicode(digit)
    } else {
        DecodedKey::RawKey(nav)
    }
}

/// What a press of `code` decodes to under the modifier state `kb` (US layout).
pub open spec fn spec_map_keycode(kb: Keyboard, code: KeyCode) -> DecodedKey {
    match code {
        KeyCode::BackTick => spec_shift_pair(kb, '~', '`'),
        KeyCode::Key1 => spec_shift_pair(kb, '!', '1'),
        KeyCode::Key2 => spec_shift_pair(kb, '@', '2'),
        KeyCode::Key3 => spec_shift_pair(kb, '#', '3'),
        KeyCode::Key4 => spec_shift_pair(kb, '$', '4'),
        KeyCode::Key5 => spec_shift_pair(kb, '%', '5'),
        KeyCode::Key6 => spec_shift_pair(kb, '^', '6'),
        KeyCode::Key7 => spec_shift_pair(kb, '&', '7'),
        KeyCode::Key8 => spec_shift_pair(kb, '*', '8'),
        KeyCode::Key9 => spec_shift_pair(kb, '(', '9'),
        KeyCode::Key0 => spec_shift_pair(kb, ')', '0'),
        KeyCode::Minus => spec_shift_pair(kb, '_', '-'),
        KeyCode::Equals => spec_shift_pair(kb, '+', '='),
        KeyCode::BracketSquareLeft => spec_shift_pair(kb, '{', '['),
        KeyCode::BracketSquareRight => spec_shift_pair(kb, '}', ']'),
        KeyCode::BackSlash => spec_shift_pair(kb, '|', '\\'),
        KeyCode::SemiColon => spec_shift_pair(kb, ':', ';'),
        KeyCode::Quote => spec_shift_pair(kb, '\"', '\''),
        KeyCode::Comma => spec_shift_pair(kb, '<', ','),
        KeyCode::Fullstop => spec_shift_pair(kb, '>', '.'),
        KeyCode::Slash => spec_shift_pair(kb, '?', '/'),
        KeyCode::Escape => DecodedKey::Unicode('\u{1b}'),
        KeyCode::Backspace => DecodedKey::Unicode('\u{8}'),
        KeyCode::Tab => DecodedKey::Unicode('\u{9}'),
        KeyCode::Enter => DecodedKey::Unicode('\n'),
        KeyCode::Spacebar => DecodedKey::Unicode(' '),
        KeyCode::Delete => DecodedKey::Unicode('\u{7f}'),
        KeyCode::NumpadSlash => DecodedKey::Unicode('/'),
        KeyCode::NumpadStar => DecodedKey::Unicode('*'),
        KeyCode::NumpadMinus => DecodedKey::Unicode('-'),
        KeyCode::NumpadPlus => DecodedKey::Unicode('+'),
        KeyCode::Numpad5 => DecodedKey::Unicode('5'),
        KeyCode::NumpadEnter => DecodedKey::Unicode('\n'),
        KeyCode::Q => spec_letter(kb, '\u{11}', 'Q', 'q'),
        KeyCode::W => spec_letter(kb, '\u{17}', 'W', 'w'),
        KeyCode::E => spec_letter(kb, '\u{5}', 'E', 'e'),
        KeyCode::R => spec_letter(kb, '\u{12}', 'R', 'r'),
        KeyCode::T => spec_letter(kb, '\u{14}', 'T', 't'),
        KeyCode::Y => spec_letter(kb, '\u{19}', 'Y', 'y'),
        KeyCode::U => spec_letter(kb, '\u{15}', 'U', 'u'),
        KeyCode::I => spec_letter(kb, '\u{9}', 'I', 'i'),
        KeyCode::O => spec_letter(kb, '\u{f}', 'O', 'o'),
        KeyCode::P => spec_letter(kb, '\u{10}', 'P', 'p'),
        KeyCode::A => spec_letter(kb, '\u{1}', 'A', 'a'),
        KeyCode::S => spec_letter(kb, '\u{13}', 'S', 's'),
        KeyCode::D => spec_letter(kb, '\u{4}', 'D', 'd'),
        KeyCode::F => spec_letter(kb, '\u{6}', 'F', 'f'),
        KeyCode::G => spec_letter(kb, '\u{7}', 'G', 'g'),
        KeyCode::H => spec_letter(kb, '\u{8}', 'H', 'h'),
        KeyCode::J => spec_letter(kb, '\u{a}', 'J', 'j'),
        KeyCode::K => spec_letter(kb, '\u{b}', 'K', 'k'),
        KeyCode::L => spec_letter(kb, '\u{c}', 'L', 'l'),
        KeyCode::Z => spec_letter(kb, '\u{1a}', 'Z', 'z'),
        KeyCode::X => spec_letter(kb, '\u{18}', 'X', 'x'),
        KeyCode::C => spec_letter(kb, '\u{3}', 'C', 'c'),
        KeyCode::V => spec_letter(kb, '\u{16}', 'V', 'v'),
        KeyCode::B => spec_letter(kb, '\u{2}', 'B', 'b'),
        KeyCode::N => spec_letter(kb, '\u{e}', 'N', 'n'),
        KeyCode::M => spec_letter(kb, '\u{d}', 'M', 'm'),
        KeyCode::Numpad7 => spec_numpad(kb, '7', KeyCode::Home),
        KeyCode::Numpad8 => spec_numpad(kb, '8', KeyCode::ArrowUp),
        KeyCode::Numpad9 => spec_numpad(kb, '9', KeyCode::PageUp),
        KeyCode::Numpad4 => spec_numpad(kb, '4', KeyCode::ArrowLeft),
        KeyCode::Numpad6 => spec_numpad(kb, '6', KeyCode::ArrowRight),
        KeyCode::Numpad1 => spec_numpad(kb, '1', KeyCode::End),
        KeyCode::Numpad2 => spec_numpad(kb, '2', KeyCode::ArrowDown),
        KeyCode::Numpad3 => spec_numpad(kb, '3', KeyCode::PageDown),
        KeyCode::Numpad0 => spec_numpad(kb, '0', KeyCode::Insert),
        KeyCode::NumpadPeriod => if kb.numlock {
            DecodedKey::Unicode('.')
        } else {
            DecodedKey::Unicode('\u{7f}')
        },
        _ => DecodedKey::RawKey(code),
    }
}


impl Keyboard {
    fn shift_pair(&self, shifted: char, plain: char) -> (r: DecodedKey)
        ensures
            r == spec_shift_pair(*self, shifted, plain),
    {
        if self.is_shifted() {
            DecodedKey::Unicode(shifted)
        } else {
            DecodedKey::Unicode(plain)
        }
    }

    fn letter_key(&self, ctrl: char, upper: char, lower: char) -> (r: DecodedKey)
        ensures
            r == spec_letter(*self, ctrl, upper, lower),
    {
        if self.is_ctrl() {
            DecodedKey::Unicode(ctrl)
        } else if self.is_caps() {
            DecodedKey::Unicode(upper)
        } else {
            DecodedKey::Unicode(lower)
        }
    }

    fn numpad_key(&self, digit: char, nav: KeyCode) -> (r: DecodedKey)
        ensures
            r == spec_numpad(*self, digit, nav),
    {
        if self.numlock {
            DecodedKey::Unicode(digit)
        } else {
            DecodedKey::RawKey(nav)
        }
    }

    /// Maps a pressed (non-modifier) key to its decoded meaning under the
    /// current modifier state.
    pub fn map_keycode(&self, code: KeyCode) -> (r: DecodedKey)
        ensures
            r == spec_map_keycode(*self, code),
    {
        match code {
            KeyCode::BackTick => self.shift_pair('~', '`'),
            KeyCode::Key1 => self.shift_pair('!', '1'),
            KeyCode::Key2 => self.shift_pair('@', '2'),
            KeyCode::Key3 => self.shift_pair('#', '3'),
            KeyCode::Key4 => self.shift_pair('$', '4'),
            KeyCode::Key5 => self.shift_pair('%', '5'),
            KeyCode::Key6 => self.shift_pair('^', '6'),
            KeyCode::Key7 => self.shift_pair('&', '7'),
            KeyCode::Key8 => self.shift_pair('*', '8'),
            KeyCode::Key9 => self.shift_pair('(', '9'),
            KeyCode::Key0 => self.shift_pair(')', '0'),
            KeyCode::Minus => self.shift_pair('_', '-'),
            KeyCode::Equals => self.shift_pair('+', '='),
            KeyCode::BracketSquareLeft => self.shift_pair('{', '['),
            KeyCode::BracketSquareRight => self.shift_pair('}', ']'),
            KeyCode::BackSlash => self.shift_pair('|', '\\'),
            KeyCode::SemiColon => self.shift_pair(':', ';'),
            KeyCode::Quote => self.shift_pair('\"', '\''),
            KeyCode::Comma => self.shift_pair('<', ','),
            KeyCode::Fullstop => self.shift_pair('>', '.'),
            KeyCode::Slash => self.shift_pair('?', '/'),
            KeyCode::Escape => DecodedKey::Unicode('\u{1b}'),
            KeyCode::Backspace => DecodedKey::Unicode('\u{8}'),
            KeyCode::Tab => DecodedKey::Unicode('\u{9}'),
            KeyCode::Enter => DecodedKey::Unicode('\n'),
            KeyCode::Spacebar => DecodedKey::Unicode(' '),
            KeyCode::Delete => DecodedKey::Unicode('\u{7f}'),
            KeyCode::NumpadSlash => DecodedKey::Unicode('/'),
            KeyCode::NumpadStar => DecodedKey::Unicode('*'),
            KeyCode::NumpadMinus => DecodedKey::Unicode('-'),
            KeyCode::NumpadPlus => DecodedKey::Unicode('+'),
            KeyCode::Numpad5 => DecodedKey::Unicode('5'),
            KeyCode::NumpadEnter => DecodedKey::Unicode('\n'),
            KeyCode::Q => self.letter_key('\u{11}', 'Q', 'q'),
            KeyCode::W => self.letter_key('\u{17}', 'W', 'w'),
            KeyCode::E => self.letter_key('\u{5}', 'E', 'e'),
            KeyCode::R => self.letter_key('\u{12}', 'R', 'r'),
            KeyCode::T => self.letter_key('\u{14}', 'T', 't'),
            KeyCode::Y => self.letter_key('\u{19}', 'Y', 'y'),
            KeyCode::U => self.letter_key('\u{15}', 'U', 'u'),
            KeyCode::I => self.letter_key('\u{9}', 'I', 'i'),
            KeyCode::O => self.letter_key('\u{f}', 'O', 'o'),
            KeyCode::P => self.letter_key('\u{10}', 'P', 'p'),
            KeyCode::A => self.letter_key('\u{1}', 'A', 'a'),
            KeyCode::S => self.letter_key('\u{13}', 'S', 's'),
            KeyCode::D => self.letter_key('\u{4}', 'D', 'd'),
            KeyCode::F => self.letter_key('\u{6}', 'F', 'f'),
            KeyCode::G => self.letter_key('\u{7}', 'G', 'g'),
            KeyCode::H => self.letter_key('\u{8}', 'H', 'h'),
            KeyCode::J => self.letter_key('\u{a}', 'J', 'j'),
            KeyCode::K => self.letter_key('\u{b}', 'K', 'k'),
            KeyCode::L => self.letter_key('\u{c}', 'L', 'l'),
            KeyCode::Z => self.letter_key('\u{1a}', 'Z', 'z'),
            KeyCode::X => self.letter_key('\u{18}', 'X', 'x'),
            KeyCode::C => self.letter_key('\u{3}', 'C', 'c'),
            KeyCode::V => self.letter_key('\u{16}', 'V', 'v'),
            KeyCode::B => self.letter_key('\u{2}', 'B', 'b'),
            KeyCode::N => self.letter_key('\u{e}', 'N', 'n'),
            KeyCode::M => self.letter_key('\u{d}', 'M', 'm'),
            KeyCode::Numpad7 => self.numpad_key('7', KeyCode::Home),
            KeyCode::Numpad8 => self.numpad_key('8', KeyCode::ArrowUp),
            KeyCode::Numpad9 => self.numpad_key('9', KeyCode::PageUp),
            KeyCode::Numpad4 => self.numpad_key('4', KeyCode::ArrowLeft),
            KeyCode::Numpad6 => self.numpad_key('6', KeyCode::ArrowRight),
            KeyCode::Numpad1 => self.numpad_key('1', KeyCode::End),
            KeyCode::Numpad2 => self.numpad_key('2', KeyCode::ArrowDown),
            KeyCode::Numpad3 => self.numpad_key('3', KeyCode::PageDown),
            KeyCode::Numpad0 => self.numpad_key('0', KeyCode::Insert),
            KeyCode::NumpadPeriod => {
                if self.numlock {
                    DecodedKey::Unicode('.')
                } else {
                    DecodedKey::Unicode('\u{7f}')
                }
            },
            k => DecodedKey::RawKey(k),
        }
    }

    /// Feeds one key event through the modifier state machine. Modifier keys
    /// and releases yield `None`; any other press yields its decoded meaning.
    pub fn process_key_ev(&mut self, ev: KeyEvent) -> (r: Option<DecodedKey>)
        ensures
            *final(self) == spec_process_state(*old(self), ev),
            r == spec_process_output(*old(self), ev),
    {
        match ev.code {
            KeyCode::ShiftLeft => {
                self.lshift = matches!(ev.state, KeyState::Down);
                None
            },
            KeyCode::ShiftRight => {
                self.rshift = matches!(ev.state, KeyState::Down);
                None
            },
            KeyCode::ControlLeft => {
                self.lctrl = matches!(ev.state, KeyState::Down);
                None
            },
            KeyCode::ControlRight => {
                self.rctrl = matches!(ev.state, KeyState::Down);
                None
            },
            KeyCode::AltRight => {
                self.alt_gr = matches!(ev.state, KeyState::Down);
                None
            },
            KeyCode::CapsLock => {
                if matches!(ev.state, KeyState::Down) {
                    self.capslock = !self.capslock;
                }
                None
            },
            KeyCode::NumpadLock => {
                if matches!(ev.state, KeyState::Down) {
                    self.numlock = !self.numlock;
                }
                None
            },
            c => {
                if matches!(ev.state, KeyState::Down) {
                    Some(self.map_keycode(c))
                } else {
                    None
                }
            },
        }
    }
}

/// The modifier state after one key event: shift, control and alt-right track
/// the key's up/down state; the two locks toggle on each press.
pub open spec fn spec_process_state(kb: Keyboard, ev: KeyEvent) -> Keyboard {
    match ev.code {
        KeyCode::ShiftLeft => Keyboard { lshift: ev.state is Down, ..kb },
        KeyCode::ShiftRight => Keyboard { rshift: ev.state is Down, ..kb },
        KeyCode::ControlLeft => Keyboard { lctrl: ev.state is Down, ..kb },
        KeyCode::ControlRight => Keyboard { rctrl: ev.state is Down, ..kb },
        KeyCode::AltRight => Keyboard { alt_gr: ev.state is Down, ..kb },
        KeyCode::CapsLock => if ev.state is Down {
            Keyboard { capslock: !kb.capslock, ..kb }
        } else {
            kb
        },
        KeyCode::NumpadLock => if ev.state is Down {
            Keyboard { numlock: !kb.numlock, ..kb }
        } else {
            kb
        },
        _ => kb,
    }
}

/// What one key event surfaces: modifiers and releases are silent, any other
/// press decodes under the state in effect before the event.
pub open spec fn spec_process_output(kb: Keyboard, ev: KeyEvent) -> Option<DecodedKey> {
    if spec_is_modifier(ev.code) {
        None
    } else if ev.state is Down {
        Some(spec_map_keycode(kb, ev.code))
    } else {
        None
    }
}


/// A letter key of the US layout.
pub open spec fn spec_is_letter(code: KeyCode) -> bool {
    ||| code == KeyCode::A
    ||| code == KeyCode::B
    ||| code == KeyCode::C
    ||| code == KeyCode::D
    ||| code == KeyCode::E
    ||| code == KeyCode::F
    ||| code == KeyCode::G
    ||| code == KeyCode::H
    ||| code == KeyCode::I
    ||| code == KeyCode::J
    ||| code == KeyCode::K
    ||| code == KeyCode::L
    ||| code == KeyCode::M
    ||| code == KeyCode::N
    ||| code == KeyCode::O
    ||| code == KeyCode::P
    ||| code == KeyCode::Q
    ||| code == KeyCode::R
    ||| code == KeyCode::S
    ||| code == KeyCode::T
    ||| code == KeyCode::U
    ||| code == KeyCode::V
    ||| code == KeyCode::W
    ||| code == KeyCode::X
    ||| code == KeyCode::Y
    ||| code == KeyCode::Z
}

/// The lowercase character of a letter key.
pub open spec fn spec_letter_lower(code: KeyCode) -> char {
    match code {
        KeyCode::A => 'a',
        KeyCode::B => 'b',
        KeyCode::C => 'c',
        KeyCode::D => 'd',
        KeyCode::E => 'e',
        KeyCode::F => 'f',
        KeyCode::G => 'g',
        KeyCode::H => 'h',
        KeyCode::I => 'i',
        KeyCode::J => 'j',
        KeyCode::K => 'k',
        KeyCode::L => 'l',
        KeyCode::M => 'm',
        KeyCode::N => 'n',
        KeyCode::O => 'o',
        KeyCode::P => 'p',
        KeyCode::Q => 'q',
        KeyCode::R => 'r',
        KeyCode::S => 's',
        KeyCode::T => 't',
        KeyCode::U => 'u',
        KeyCode::V => 'v',
        KeyCode::W => 'w',
        KeyCode::X => 'x',
        KeyCode::Y => 'y',
        KeyCode::Z => 'z',
        _ => '\u{0}',
    }
}

/// The uppercase character of a letter key.
pub open spec fn spec_letter_upper(code: KeyCode) -> char {
    match code {
        KeyCode::A => 'A',
        KeyCode::B => 'B',
        KeyCode::C => 'C',
        KeyCode::D => 'D',
        KeyCode::E => 'E',
        KeyCode::F => 'F',
        KeyCode::G => 'G',
        KeyCode::H => 'H',
        KeyCode::I => 'I',
        KeyCode::J => 'J',
        KeyCode::K => 'K',
        KeyCode::L => 'L',
        KeyCode::M => 'M',
        KeyCode::N => 'N',
        KeyCode::O => 'O',
        KeyCode::P => 'P',
        KeyCode::Q => 'Q',
        KeyCode::R => 'R',
        KeyCode::S => 'S',
        KeyCode::T => 'T',
        KeyCode::U => 'U',
        KeyCode::V => 'V',
        KeyCode::W => 'W',
        KeyCode::X => 'X',
        KeyCode::Y => 'Y',
        KeyCode::Z => 'Z',
        _ => '\u{0}',
    }
}

/// The C0 control character of a letter key.
pub open spec fn spec_letter_ctrl(code: KeyCode) -> char {
    match code {
        KeyCode::A => '\u{1}',
        KeyCode::B => '\u{2}',
        KeyCode::C => '\u{3}',
        KeyCode::D => '\u{4}',
        KeyCode::E => '\u{5}',
        KeyCode::F => '\u{6}',
        KeyCode::G => '\u{7}',
        KeyCode::H => '\u{8}',
        KeyCode::I => '\u{9}',
        KeyCode::J => '\u{a}',
        KeyCode::K => '\u{b}',
        KeyCode::L => '\u{c}',
        KeyCode::M => '\u{d}',
        KeyCode::N => '\u{e}',
        KeyCode::O => '\u{f}',
        KeyCode::P => '\u{10}',
        KeyCode::Q => '\u{11}',
        KeyCode::R => '\u{12}',
        KeyCode::S => '\u{13}',
        KeyCode::T => '\u{14}',
        KeyCode::U => '\u{15}',
        KeyCode::V => '\u{16}',
        KeyCode::W => '\u{17}',
        KeyCode::X => '\u{18}',
        KeyCode::Y => '\u{19}',
        KeyCode::Z => '\u{1a}',
        _ => '\u{0}',
    }
}

/// Case selection: without control held, a pressed letter key decodes to its
/// uppercase character exactly when shift and caps-lock differ (shift XOR
/// caps-lock), and to its lowercase character otherwise.
pub proof fn lemma_caps_xor_shift(kb: Keyboard, code: KeyCode)
    requires
        spec_is_letter(code),
        !kb.spec_ctrl(),
    ensures
        spec_map_keycode(kb, code) == DecodedKey::Unicode(
            if kb.spec_shifted() != kb.capslock {
                spec_letter_upper(code)
            } else {
                spec_letter_lower(code)
            },
        ),
{
}

/// Control codes: with control held, a pressed letter key decodes to the C0
/// control character of that letter, which sits exactly 0x40 below the
/// uppercase character (A maps to 0x01 through Z to 0x1a).
pub proof fn lemma_ctrl_letter(kb: Keyboard, code: KeyCode)
    requires
        spec_is_letter(code),
        kb.spec_ctrl(),
    ensures
        spec_map_keycode(kb, code) == DecodedKey::Unicode(spec_letter_ctrl(code)),
        spec_letter_ctrl(code) as int == spec_letter_upper(code) as int - 0x40,
        1 <= spec_letter_ctrl(code) as int <= 0x1a,
{
}

/// Press and release mirror each other: for any press code, the code
/// `0x80` higher decodes to the release of the same key, and codes the
/// table does not know fail in both directions.
pub proof fn lemma_release_mirrors_press(code: u8)
    requires
        code < 0x80,
    ensures
        spec_key_code(code) matches Some(k) ==> spec_key_event(code) == Some(
            KeyEvent { code: k, state: KeyState::Down },
        ) && spec_key_event((code + 0x80) as u8) == Some(
            KeyEvent { code: k, state: KeyState::Up },
        ),
        spec_key_code(code) is None ==> spec_key_event(code) is None && spec_key_event(
            (code + 0x80) as u8,
        ) is None,
{
}

/// A numeric-keypad key's digit row: under num-lock it decodes to its digit,
/// and without num-lock to the navigation key sharing its cap.
pub proof fn lemma_numpad_numlock(kb: Keyboard, digit: char, nav: KeyCode)
    ensures
        kb.numlock ==> spec_numpad(kb, digit, nav) == DecodedKey::Unicode(digit),
        !kb.numlock ==> spec_numpad(kb, digit, nav) == DecodedKey::RawKey(nav),
{
}

/// Modifier keys are never surfaced: a shift, control, alt-right or lock key
/// event only updates the modifier memory and yields no decoded key.
pub proof fn lemma_modifier_silent(kb: Keyboard, ev: KeyEvent)
    requires
        spec_is_modifier(ev.code),
    ensures
        spec_process_output(kb, ev) is None,
{
}

/// Releases are never surfaced: a key-up event yields no decoded key.
pub proof fn lemma_release_silent(kb: Keyboard, ev: KeyEvent)
    requires
        ev.state is Up,
    ensures
        spec_process_output(kb, ev) is None,
{
}

/// Every press of a non-modifier key is surfaced, decoded under the modifier
/// state in effect before the event.
pub proof fn lemma_press_surfaced(kb: Keyboard, ev: KeyEvent)
    requires
        !spec_is_modifier(ev.code),
        ev.state is Down,
    ensures
        spec_process_output(kb, ev) == Some(spec_map_keycode(kb, ev.code)),
{
}

} // verus!
