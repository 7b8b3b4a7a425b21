use vaultquad::text::{ascii_character_list, latin_character_list};

#[test]
fn ascii_list_has_codes_0_to_254() {
    let l = ascii_character_list();
    assert_eq!(l.len(), 255);
    assert_eq!(l[0], '\u{0}');
    assert_eq!(l[65], 'A');
    assert_eq!(l[254], '\u{fe}');
}

#[test]
fn latin_list_in_keyboard_order() {
    let l = latin_character_list();
    assert_eq!(l.len(), 79);
    assert_eq!(l[0], 'q');
    assert_eq!(l[26], 'Q');
    assert_eq!(l[52], '1');
    assert_eq!(*l.last().unwrap(), ':');
}
