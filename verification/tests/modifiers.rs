use umiko::modifiers::KeyModifiers;

#[test]
fn each_modifier_has_its_bit() {
    assert_eq!(KeyModifiers::NONE_MODIFIES().bits(), 0);
    assert_eq!(KeyModifiers::MOD_ALT().bits(), 0x0001);
    assert_eq!(KeyModifiers::MOD_CONTROL().bits(), 0x0002);
    assert_eq!(KeyModifiers::MOD_SHIFT().bits(), 0x0004);
    assert_eq!(KeyModifiers::MOD_WIN().bits(), 0x0008);
    assert_eq!(KeyModifiers::MOD_NO_REPEAT().bits(), 0x4000);
}

#[test]
fn or_composes_modifiers() {
    let both = KeyModifiers::MOD_CONTROL() | KeyModifiers::MOD_ALT();
    assert_eq!(both.bits(), 0x0003);
    assert!(both.contains(KeyModifiers::MOD_CONTROL()));
    assert!(both.contains(KeyModifiers::MOD_ALT()));
    assert!(!both.contains(KeyModifiers::MOD_SHIFT()));
    assert_eq!(both | KeyModifiers::MOD_ALT(), both);
    assert_eq!(KeyModifiers::MOD_ALT() | KeyModifiers::MOD_CONTROL(), both);
}

#[test]
fn or_of_all_modifiers_sets_all_their_bits() {
    let all = KeyModifiers::MOD_ALT()
        | KeyModifiers::MOD_CONTROL()
        | KeyModifiers::MOD_SHIFT()
        | KeyModifiers::MOD_WIN()
        | KeyModifiers::MOD_NO_REPEAT();
    assert_eq!(all.bits(), 0x400F);
}

#[test]
fn and_keeps_what_both_sets_hold() {
    let left = KeyModifiers::MOD_CONTROL() | KeyModifiers::MOD_ALT();
    let right = KeyModifiers::MOD_ALT() | KeyModifiers::MOD_SHIFT();
    assert_eq!(left & right, KeyModifiers::MOD_ALT());
    assert_eq!(KeyModifiers::MOD_WIN() & KeyModifiers::MOD_SHIFT(), KeyModifiers::NONE_MODIFIES());
}

#[test]
fn the_empty_set_is_empty_and_lies_in_every_set() {
    assert!(KeyModifiers::NONE_MODIFIES().is_empty());
    assert!(!KeyModifiers::MOD_WIN().is_empty());
    assert!(KeyModifiers::MOD_WIN().contains(KeyModifiers::NONE_MODIFIES()));
    assert!(KeyModifiers::NONE_MODIFIES().contains(KeyModifiers::NONE_MODIFIES()));
    assert!(!KeyModifiers::NONE_MODIFIES().contains(KeyModifiers::MOD_WIN()));
}

#[test]
fn from_bits_takes_the_bits_of_modifiers() {
    assert_eq!(KeyModifiers::from_bits(0), Some(KeyModifiers::NONE_MODIFIES()));
    assert_eq!(KeyModifiers::from_bits(0x0004), Some(KeyModifiers::MOD_SHIFT()));
    assert_eq!(
        KeyModifiers::from_bits(0x4003),
        Some(KeyModifiers::MOD_NO_REPEAT() | KeyModifiers::MOD_CONTROL() | KeyModifiers::MOD_ALT())
    );
    assert_eq!(KeyModifiers::from_bits(0x400F).map(|all| all.bits()), Some(0x400F));
}

#[test]
fn from_bits_refuses_any_other_bit() {
    assert_eq!(KeyModifiers::from_bits(0x0010), None);
    assert_eq!(KeyModifiers::from_bits(0x0011), None);
    assert_eq!(KeyModifiers::from_bits(0x2000), None);
    assert_eq!(KeyModifiers::from_bits(0x8000), None);
    assert_eq!(KeyModifiers::from_bits(0x0001_0000), None);
    assert_eq!(KeyModifiers::from_bits(u32::MAX), None);
}

#[test]
fn bits_and_from_bits_are_inverse() {
    let mut bits: u32 = 0;
    while bits <= 0x400F {
        match KeyModifiers::from_bits(bits) {
            Some(modifiers) => {
                assert_eq!(bits & !0x400F, 0);
                assert_eq!(modifiers.bits(), bits);
            }
            None => assert_ne!(bits & !0x400F, 0),
        }
        bits += 1;
    }
}
