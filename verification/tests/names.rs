use fartcloud::name_entry::{clear_name, erase_char, name_byte_len, resolve_confirmed_name, type_char};

#[test]
fn typing_keeps_alphanumerics_only() {
    let mut s = String::new();
    for c in "Ab1 -_!z".chars() {
        type_char(&mut s, c);
    }
    assert_eq!(s, "Ab1z");
}

#[test]
fn typing_stops_at_twelve_bytes() {
    let mut s = String::new();
    for c in "ABCDEFGHIJKLMNOP".chars() {
        type_char(&mut s, c);
    }
    assert_eq!(s, "ABCDEFGHIJKL");
    assert_eq!(name_byte_len(&s), 12);
}

#[test]
fn a_wide_character_may_overshoot_twelve_bytes() {
    let mut s = String::from("ABCDEFGHIJK");
    type_char(&mut s, 'é');
    assert_eq!(s, "ABCDEFGHIJKé");
    assert_eq!(name_byte_len(&s), 13);
    type_char(&mut s, 'x');
    assert_eq!(s, "ABCDEFGHIJKé");
}

#[test]
fn backspace_and_clear() {
    let mut s = String::from("Abc");
    erase_char(&mut s);
    assert_eq!(s, "Ab");
    erase_char(&mut s);
    erase_char(&mut s);
    erase_char(&mut s);
    assert_eq!(s, "");
    let mut t = String::from("xyz");
    clear_name(&mut t);
    assert!(t.is_empty());
}

#[test]
fn confirmed_names() {
    assert_eq!(resolve_confirmed_name(String::new()), "Anonymous");
    assert_eq!(resolve_confirmed_name("Anonymous".to_string()), "Anonymous");
    assert_eq!(resolve_confirmed_name("FartKing42".to_string()), "FartKing42");
}
