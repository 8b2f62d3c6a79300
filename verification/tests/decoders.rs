use kernel::keyboard::{get_key_code, get_key_ev, DecodeError, DecodedKey, KeyCode, KeyEvent, KeyState, Keyboard};
use kernel::mouse::Mouse;

fn press(kb: &mut Keyboard, code: KeyCode) -> Option<DecodedKey> {
    kb.process_key_ev(KeyEvent::new(code, KeyState::Down))
}

fn release(kb: &mut Keyboard, code: KeyCode) -> Option<DecodedKey> {
    kb.process_key_ev(KeyEvent::new(code, KeyState::Up))
}

#[test]
fn decode_press_and_release() {
    assert_eq!(get_key_ev(0x1e), Ok(KeyEvent::new(KeyCode::A, KeyState::Down)));
    assert_eq!(get_key_ev(0x1e + 0x80), Ok(KeyEvent::new(KeyCode::A, KeyState::Up)));
    assert_eq!(get_key_ev(0x01), Ok(KeyEvent::new(KeyCode::Escape, KeyState::Down)));
    assert_eq!(get_key_ev(0x58), Ok(KeyEvent::new(KeyCode::F12, KeyState::Down)));
    assert_eq!(get_key_ev(0xd8), Ok(KeyEvent::new(KeyCode::F12, KeyState::Up)));
}

#[test]
fn decode_unknown_codes() {
    assert_eq!(get_key_ev(0x00), Err(DecodeError));
    assert_eq!(get_key_ev(0x54), Err(DecodeError));
    assert_eq!(get_key_ev(0x55), Err(DecodeError));
    assert_eq!(get_key_ev(0x56), Err(DecodeError));
    assert_eq!(get_key_ev(0x59), Err(DecodeError));
    // release of a code the table does not know
    assert_eq!(get_key_ev(0xd4), Err(DecodeError));
}

#[test]
fn key_code_table_spot_checks() {
    assert_eq!(get_key_code(0x02), Ok(KeyCode::Key1));
    assert_eq!(get_key_code(0x10), Ok(KeyCode::Q));
    assert_eq!(get_key_code(0x39), Ok(KeyCode::Spacebar));
    assert_eq!(get_key_code(0x45), Ok(KeyCode::NumpadLock));
    assert_eq!(get_key_code(0x53), Ok(KeyCode::NumpadPeriod));
    // the mirrored range repeats the table after subtracting 0x80
    assert_eq!(get_key_code(0x81), Ok(KeyCode::Escape));
    assert_eq!(get_key_code(0xd8), Ok(KeyCode::F12));
    assert_eq!(get_key_code(0xd9), Err(DecodeError));
}

#[test]
fn shift_selects_uppercase() {
    let mut kb = Keyboard::new();
    assert_eq!(press(&mut kb, KeyCode::ShiftLeft), None);
    assert_eq!(press(&mut kb, KeyCode::A), Some(DecodedKey::Unicode('A')));
}

#[test]
fn capslock_selects_uppercase() {
    let mut kb = Keyboard::new();
    assert_eq!(press(&mut kb, KeyCode::CapsLock), None);
    assert_eq!(release(&mut kb, KeyCode::CapsLock), None);
    assert_eq!(press(&mut kb, KeyCode::A), Some(DecodedKey::Unicode('A')));
}

#[test]
fn capslock_and_shift_cancel() {
    let mut kb = Keyboard::new();
    assert_eq!(press(&mut kb, KeyCode::CapsLock), None);
    assert_eq!(press(&mut kb, KeyCode::ShiftLeft), None);
    assert_eq!(press(&mut kb, KeyCode::A), Some(DecodedKey::Unicode('a')));
}

#[test]
fn ctrl_maps_letters_to_control_codes() {
    let mut kb = Keyboard::new();
    assert_eq!(press(&mut kb, KeyCode::ControlLeft), None);
    assert_eq!(press(&mut kb, KeyCode::A), Some(DecodedKey::Unicode('\u{1}')));
    assert_eq!(press(&mut kb, KeyCode::Z), Some(DecodedKey::Unicode('\u{1a}')));
    // control wins over shift and caps
    assert_eq!(press(&mut kb, KeyCode::ShiftLeft), None);
    assert_eq!(press(&mut kb, KeyCode::C), Some(DecodedKey::Unicode('\u{3}')));
}

#[test]
fn releases_are_silent() {
    let mut kb = Keyboard::new();
    assert_eq!(release(&mut kb, KeyCode::A), None);
    assert_eq!(release(&mut kb, KeyCode::Enter), None);
    assert_eq!(release(&mut kb, KeyCode::Numpad5), None);
}

#[test]
fn shift_release_restores_lowercase() {
    let mut kb = Keyboard::new();
    press(&mut kb, KeyCode::ShiftLeft);
    assert_eq!(press(&mut kb, KeyCode::B), Some(DecodedKey::Unicode('B')));
    assert_eq!(release(&mut kb, KeyCode::ShiftLeft), None);
    assert_eq!(press(&mut kb, KeyCode::B), Some(DecodedKey::Unicode('b')));
}

#[test]
fn shifted_symbol_rows() {
    let mut kb = Keyboard::new();
    assert_eq!(press(&mut kb, KeyCode::Key1), Some(DecodedKey::Unicode('1')));
    assert_eq!(press(&mut kb, KeyCode::Slash), Some(DecodedKey::Unicode('/')));
    press(&mut kb, KeyCode::ShiftRight);
    assert_eq!(press(&mut kb, KeyCode::Key1), Some(DecodedKey::Unicode('!')));
    assert_eq!(press(&mut kb, KeyCode::Slash), Some(DecodedKey::Unicode('?')));
    assert_eq!(press(&mut kb, KeyCode::Equals), Some(DecodedKey::Unicode('+')));
}

#[test]
fn numpad_follows_numlock() {
    let mut kb = Keyboard::new();
    assert_eq!(press(&mut kb, KeyCode::Numpad8), Some(DecodedKey::RawKey(KeyCode::ArrowUp)));
    assert_eq!(press(&mut kb, KeyCode::Numpad0), Some(DecodedKey::RawKey(KeyCode::Insert)));
    assert_eq!(press(&mut kb, KeyCode::NumpadPeriod), Some(DecodedKey::Unicode('\u{7f}')));
    assert_eq!(press(&mut kb, KeyCode::NumpadLock), None);
    assert_eq!(press(&mut kb, KeyCode::Numpad8), Some(DecodedKey::Unicode('8')));
    assert_eq!(press(&mut kb, KeyCode::Numpad0), Some(DecodedKey::Unicode('0')));
    assert_eq!(press(&mut kb, KeyCode::NumpadPeriod), Some(DecodedKey::Unicode('.')));
}

#[test]
fn keys_without_character_meaning_are_raw() {
    let mut kb = Keyboard::new();
    assert_eq!(press(&mut kb, KeyCode::F1), Some(DecodedKey::RawKey(KeyCode::F1)));
    assert_eq!(press(&mut kb, KeyCode::Home), Some(DecodedKey::RawKey(KeyCode::Home)));
    assert_eq!(press(&mut kb, KeyCode::AltLeft), Some(DecodedKey::RawKey(KeyCode::AltLeft)));
}

#[test]
fn mouse_round_trip() {
    // always-one and y-sign set; x = 16 positive, y raw 0xf0 negative
    let mut m = Mouse::new();
    m.process_packet(0b0010_1000);
    m.process_packet(16);
    m.process_packet(0xf0);
    assert_eq!(m.get_coords(), (16, -16));
    // no new packet: the snapshot was consumed
    assert_eq!(m.get_coords(), (0, 0));
}

#[test]
fn mouse_y_without_sign_flag_is_positive() {
    // the same raw bytes with the y-sign flag clear decode the y magnitude
    // as it stands
    let mut m = Mouse::new();
    m.process_packet(0b0000_1000);
    m.process_packet(16);
    m.process_packet(0xf0);
    assert_eq!(m.get_coords(), (16, 240));
}

#[test]
fn mouse_resynchronizes_on_marker_bit() {
    let mut m = Mouse::new();
    // a first byte without the always-one bit is discarded; the packet
    // starts with the next marked byte
    m.process_packet(0b0000_0111);
    m.process_packet(0b0000_1000);
    m.process_packet(5);
    m.process_packet(7);
    assert_eq!(m.get_coords(), (5, 7));
}

#[test]
fn mouse_overflow_freezes_axis() {
    let mut m = Mouse::new();
    m.process_packet(0b0000_1000);
    m.process_packet(40);
    m.process_packet(50);
    assert_eq!(m.get_coords(), (40, 50));
    // x-overflow set: the x field keeps the prior packet's value
    m.process_packet(0b0100_1000);
    m.process_packet(90);
    m.process_packet(60);
    assert_eq!(m.get_coords(), (40, 60));
}

#[test]
fn mouse_buttons_from_flags() {
    let mut m = Mouse::new();
    m.process_packet(0b0000_1001);
    m.process_packet(0);
    m.process_packet(0);
    let st = m.completed_state;
    assert!(st.left_button_down());
    assert!(!st.right_button_down());
    assert!(st.right_button_up());
    assert!(!st.left_button_up());
    assert_eq!(st.get_x(), 0);
    assert_eq!(st.get_y(), 0);
}

#[test]
fn every_table_code_decodes() {
    // every press code of the set decodes, except the documented gaps
    for code in 0x01u8..=0x58 {
        let r = get_key_ev(code);
        if code == 0x54 || code == 0x55 || code == 0x56 {
            assert_eq!(r, Err(DecodeError));
        } else {
            let ev = r.expect("press code should decode");
            assert_eq!(ev.state, KeyState::Down);
        }
    }
    // and each release mirrors its press
    for code in 0x01u8..=0x58 {
        assert_eq!(
            get_key_ev(code).map(|ev| ev.code),
            get_key_ev(code + 0x80).map(|ev| ev.code)
        );
    }
}

#[test]
fn codes_past_the_table_fail() {
    for code in 0x59u8..=0x7f {
        assert_eq!(get_key_ev(code), Err(DecodeError));
    }
    assert_eq!(get_key_ev(0xff), Err(DecodeError));
}

#[test]
fn mouse_in_progress_packet_is_not_visible() {
    let mut m = Mouse::new();
    m.process_packet(0b0000_1000);
    m.process_packet(33);
    // only two of three bytes arrived: nothing is completed yet
    assert_eq!(m.get_coords(), (0, 0));
    m.process_packet(44);
    assert_eq!(m.get_coords(), (33, 44));
}
