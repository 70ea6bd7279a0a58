use umiko::keys::check_key_state;
use umiko::keys::is_locked;
use umiko::keys::is_pressed;
use umiko::keys::KeyState;
use umiko::keys::Keys;

#[test]
fn from_raw_decodes_the_four_states() {
    assert_eq!(KeyState::from_raw(-128), Some(KeyState::Press));
    assert_eq!(KeyState::from_raw(-127), Some(KeyState::PressAndLock));
    assert_eq!(KeyState::from_raw(1), Some(KeyState::Lock));
    assert_eq!(KeyState::from_raw(0), Some(KeyState::Idle));
}

#[test]
fn from_raw_rejects_every_other_number() {
    let mut reading = i16::MIN;
    loop {
        let known = reading == -128 || reading == -127 || reading == 0 || reading == 1;
        assert_eq!(KeyState::from_raw(reading).is_some(), known);
        if reading == i16::MAX {
            break;
        }
        reading += 1;
    }
}

#[test]
fn from_raw_rejects_the_neighbours_of_the_states() {
    assert_eq!(KeyState::from_raw(-129), None);
    assert_eq!(KeyState::from_raw(-126), None);
    assert_eq!(KeyState::from_raw(-1), None);
    assert_eq!(KeyState::from_raw(2), None);
    assert_eq!(KeyState::from_raw(128), None);
    assert_eq!(KeyState::from_raw(i16::MIN), None);
    assert_eq!(KeyState::from_raw(i16::MAX), None);
}

#[test]
fn raw_gives_the_number_of_each_state() {
    assert_eq!(KeyState::Press.raw(), -128);
    assert_eq!(KeyState::PressAndLock.raw(), -127);
    assert_eq!(KeyState::Lock.raw(), 1);
    assert_eq!(KeyState::Idle.raw(), 0);
}

#[test]
fn raw_and_from_raw_are_inverse() {
    for state in [KeyState::Press, KeyState::PressAndLock, KeyState::Lock, KeyState::Idle] {
        assert_eq!(KeyState::from_raw(state.raw()), Some(state));
    }
}

#[test]
fn check_key_state_decodes_the_four_states() {
    assert_eq!(check_key_state(-128), KeyState::Press);
    assert_eq!(check_key_state(-127), KeyState::PressAndLock);
    assert_eq!(check_key_state(1), KeyState::Lock);
    assert_eq!(check_key_state(0), KeyState::Idle);
}

#[test]
fn is_pressed_holds_of_the_two_pressed_states() {
    assert!(is_pressed(-128));
    assert!(is_pressed(-127));
    assert!(!is_pressed(1));
    assert!(!is_pressed(0));
}

#[test]
fn is_locked_holds_of_the_two_locked_states() {
    assert!(!is_locked(-128));
    assert!(is_locked(-127));
    assert!(is_locked(1));
    assert!(!is_locked(0));
}

#[test]
fn key_codes_are_those_of_the_platform() {
    assert_eq!(Keys::BACKSPACE, 0x08);
    assert_eq!(Keys::TAB, 0x09);
    assert_eq!(Keys::ENTER, 0x0D);
    assert_eq!(Keys::CAPS_LOCK, 0x14);
    assert_eq!(Keys::ESCAPE, 0x1B);
    assert_eq!(Keys::SPACE, 0x20);
    assert_eq!(Keys::INDERT, 0x2D);
    assert_eq!(Keys::NUMROW_0, 0x30);
    assert_eq!(Keys::NUMROW_9, 0x39);
    assert_eq!(Keys::A, 0x41);
    assert_eq!(Keys::H, 0x48);
    assert_eq!(Keys::Z, 0x5A);
    assert_eq!(Keys::NUMPAD_0, 0x60);
    assert_eq!(Keys::F1, 0x70);
    assert_eq!(Keys::F5, 0x74);
    assert_eq!(Keys::F24, 0x87);
    assert_eq!(Keys::NUMLOCK, 0x90);
    assert_eq!(Keys::SCROLL_LOCK, 0x91);
    assert_eq!(Keys::L_SHIFT, 0xA0);
    assert_eq!(Keys::R_CONTROL, 0xA3);
}

#[test]
fn letters_and_digits_are_their_ascii_codes() {
    assert_eq!(Keys::A, 'A' as u32);
    assert_eq!(Keys::Z, 'Z' as u32);
    assert_eq!(Keys::NUMROW_0, '0' as u32);
    assert_eq!(Keys::NUMROW_9, '9' as u32);
}
