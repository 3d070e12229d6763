use den::command::{
    key_event_to_bytes, key_to_shell, types_null, KeyCode, KeyModifiers, CONTROL, NONE, SHIFT,
};

fn plain(code: KeyCode) -> Vec<u8> {
    key_event_to_bytes(code, KeyModifiers { bits: NONE })
}

#[test]
fn a_character_is_sent_in_utf8() {
    assert_eq!(plain(KeyCode::Char('a')), b"a".to_vec());
    assert_eq!(plain(KeyCode::Char('ü')), "ü".as_bytes().to_vec());
    assert_eq!(plain(KeyCode::Char('€')), "€".as_bytes().to_vec());
    assert_eq!(plain(KeyCode::Char('😀')), "😀".as_bytes().to_vec());
}

#[test]
fn special_keys_are_sent_as_control_sequences() {
    assert_eq!(plain(KeyCode::Enter), b"\r".to_vec());
    assert_eq!(plain(KeyCode::Backspace), b"\x7f".to_vec());
    assert_eq!(plain(KeyCode::Tab), b"\t".to_vec());
    assert_eq!(plain(KeyCode::Up), b"\x1b[A".to_vec());
    assert_eq!(plain(KeyCode::Down), b"\x1b[B".to_vec());
    assert_eq!(plain(KeyCode::Right), b"\x1b[C".to_vec());
    assert_eq!(plain(KeyCode::Left), b"\x1b[D".to_vec());
    assert_eq!(plain(KeyCode::Home), b"\x1b[H".to_vec());
    assert_eq!(plain(KeyCode::End), b"\x1b[F".to_vec());
    assert_eq!(plain(KeyCode::Delete), b"\x1b[3~".to_vec());
    assert_eq!(plain(KeyCode::Esc), b"\x1b".to_vec());
    assert!(plain(KeyCode::Null).is_empty());
    assert!(plain(KeyCode::Other).is_empty());
}

#[test]
fn only_shift_goes_with_a_key() {
    let shifted = KeyModifiers { bits: SHIFT };
    assert_eq!(key_event_to_bytes(KeyCode::Char('A'), shifted), b"A".to_vec());
    for bits in [CONTROL, 3, 4, 8] {
        assert!(key_event_to_bytes(KeyCode::Char('a'), KeyModifiers { bits }).is_empty());
    }
}

#[test]
fn a_shell_can_be_interrupted_and_ended() {
    let control = KeyModifiers { bits: CONTROL };
    assert_eq!(key_to_shell(KeyCode::Char('c'), control), vec![3]);
    assert_eq!(key_to_shell(KeyCode::Char('d'), control), vec![4]);
    assert!(key_to_shell(KeyCode::Char('e'), control).is_empty());
    assert_eq!(key_to_shell(KeyCode::Char('c'), KeyModifiers { bits: NONE }), b"c".to_vec());
}

#[test]
fn the_null_character_has_three_keys() {
    let control = KeyModifiers { bits: CONTROL };
    assert!(types_null(KeyCode::Null, control));
    assert!(types_null(KeyCode::Char('@'), control));
    assert!(types_null(KeyCode::Char('2'), control));
    assert!(!types_null(KeyCode::Char('3'), control));
    assert!(!types_null(KeyCode::Null, KeyModifiers { bits: NONE }));
}
