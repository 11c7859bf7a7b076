use crossterm::event::KeyModifiers as Outside;
use zaptui::input::{KeyCode, KeyEvent, KeyKind, KeyModifiers, ALT, CONTROL, HYPER, META, SHIFT, SUPER};

fn key(code: KeyCode, bits: u8, kind: KeyKind) -> KeyEvent {
    KeyEvent { code, modifiers: KeyModifiers::from_bits(bits), kind }
}

#[test]
fn control_c_press_interrupts() {
    assert!(KeyEvent::press(KeyCode::Char('c'), KeyModifiers::control()).interrupts());
}

#[test]
fn control_c_with_more_modifiers_interrupts() {
    assert!(key(KeyCode::Char('c'), CONTROL | ALT, KeyKind::Press).interrupts());
    assert!(key(KeyCode::Char('c'), CONTROL | SHIFT | META, KeyKind::Press).interrupts());
    assert!(key(KeyCode::Char('c'), 0xff, KeyKind::Press).interrupts());
}

#[test]
fn release_and_repeat_do_not_interrupt() {
    assert!(!key(KeyCode::Char('c'), CONTROL, KeyKind::Release).interrupts());
    assert!(!key(KeyCode::Char('c'), CONTROL, KeyKind::Repeat).interrupts());
}

#[test]
fn plain_c_does_not_interrupt() {
    assert!(!KeyEvent::press(KeyCode::Char('c'), KeyModifiers::none()).interrupts());
    assert!(!key(KeyCode::Char('c'), ALT | SHIFT, KeyKind::Press).interrupts());
}

#[test]
fn other_keys_do_not_interrupt() {
    assert!(!KeyEvent::press(KeyCode::Char('C'), KeyModifiers::control()).interrupts());
    assert!(!KeyEvent::press(KeyCode::Char('d'), KeyModifiers::control()).interrupts());
    assert!(!KeyEvent::press(KeyCode::Other, KeyModifiers::control()).interrupts());
}

#[test]
fn contains_tests_every_bit_asked_for() {
    let held = KeyModifiers::from_bits(CONTROL | SHIFT);
    assert!(held.contains(KeyModifiers::control()));
    assert!(held.contains(KeyModifiers::from_bits(SHIFT)));
    assert!(held.contains(KeyModifiers::from_bits(CONTROL | SHIFT)));
    assert!(held.contains(KeyModifiers::none()));
    assert!(!held.contains(KeyModifiers::from_bits(ALT)));
    assert!(!held.contains(KeyModifiers::from_bits(CONTROL | ALT)));
    assert!(!KeyModifiers::none().contains(KeyModifiers::control()));
}

#[test]
fn union_holds_both_sides() {
    let both = KeyModifiers::control().union(KeyModifiers::from_bits(ALT));
    assert_eq!(both.bits, 0x06);
    assert!(both.contains(KeyModifiers::control()));
    assert!(both.contains(KeyModifiers::from_bits(ALT)));
    assert_eq!(KeyModifiers::none().union(KeyModifiers::none()), KeyModifiers::none());
}

#[test]
fn modifier_bits_are_those_of_the_terminal_library() {
    assert_eq!(SHIFT, Outside::SHIFT.bits());
    assert_eq!(CONTROL, Outside::CONTROL.bits());
    assert_eq!(ALT, Outside::ALT.bits());
    assert_eq!(SUPER, Outside::SUPER.bits());
    assert_eq!(HYPER, Outside::HYPER.bits());
    assert_eq!(META, Outside::META.bits());
    assert_eq!(KeyModifiers::none().bits, Outside::NONE.bits());
}

#[test]
fn contains_agrees_with_the_terminal_library() {
    for held in 0u8..64 {
        for asked in 0u8..64 {
            let ours = KeyModifiers::from_bits(held).contains(KeyModifiers::from_bits(asked));
            let theirs = Outside::from_bits_truncate(held).contains(Outside::from_bits_truncate(asked));
            assert_eq!(ours, theirs);
        }
    }
}
