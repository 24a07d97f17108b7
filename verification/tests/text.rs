use scancodes::sequence::{push_hex_keycodes, resolve, string_to_scancodes, Resolution};
use scancodes::{KEY_LEFTCTRL, KEY_LEFTSHIFT, KEY_SPACE, KEY_U};

#[test]
fn test_ascii() {
    let codes = string_to_scancodes("hello");
    assert_eq!(codes, vec![35, 18, 38, 38, 24]); // h e l l o
}

#[test]
fn test_shifted() {
    let codes = string_to_scancodes("Hello!");
    // H = shift + h, ! = shift + 1
    assert!(codes.contains(&KEY_LEFTSHIFT));
    assert!(codes.contains(&35)); // h
    assert!(codes.contains(&2)); // 1 (for !)
}

#[test]
fn test_unicode() {
    let codes = string_to_scancodes("中");
    // Ctrl+Shift+U, the code point, Space
    assert!(codes.contains(&KEY_LEFTCTRL));
    assert!(codes.contains(&KEY_U));
    assert!(codes.contains(&KEY_SPACE));
}

#[test]
fn modifier_and_trigger_key_codes() {
    assert_eq!(KEY_LEFTCTRL, 29);
    assert_eq!(KEY_LEFTSHIFT, 42);
    assert_eq!(KEY_U, 22);
    assert_eq!(KEY_SPACE, 57);
}

#[test]
fn empty_text_needs_no_press() {
    assert_eq!(string_to_scancodes(""), Vec::<u32>::new());
}

#[test]
fn shifted_text_exact() {
    assert_eq!(
        string_to_scancodes("Hello!"),
        vec![42, 35, 18, 38, 38, 24, 42, 2]
    );
}

#[test]
fn shift_comes_before_each_shifted_key() {
    assert_eq!(string_to_scancodes("AB"), vec![42, 30, 42, 48]);
    assert_eq!(string_to_scancodes("aB"), vec![30, 42, 48]);
    assert_eq!(string_to_scancodes("Ab"), vec![42, 30, 48]);
}

#[test]
fn unicode_entry_exact() {
    // U+4E2D: 4 e 2 d
    assert_eq!(
        string_to_scancodes("中"),
        vec![29, 42, 22, 5, 18, 3, 32, 57]
    );
}

#[test]
fn unicode_entry_two_digits() {
    // U+00E9: e 9
    assert_eq!(string_to_scancodes("é"), vec![29, 42, 22, 18, 10, 57]);
}

#[test]
fn unicode_entry_five_digits() {
    // U+1F600: 1 f 6 0 0
    assert_eq!(
        string_to_scancodes("\u{1F600}"),
        vec![29, 42, 22, 2, 33, 7, 11, 11, 57]
    );
}

#[test]
fn unicode_entry_of_largest_scalar() {
    // U+10FFFF: 1 0 f f f f
    assert_eq!(
        string_to_scancodes("\u{10FFFF}"),
        vec![29, 42, 22, 2, 11, 33, 33, 33, 33, 57]
    );
}

#[test]
fn unicode_entry_of_code_point_zero() {
    assert_eq!(string_to_scancodes("\0"), vec![29, 42, 22, 11, 57]);
}

#[test]
fn unicode_entry_of_control_characters() {
    // carriage return, U+000D, has no key of its own
    assert_eq!(string_to_scancodes("\r"), vec![29, 42, 22, 32, 57]);
    // delete, U+007F
    assert_eq!(string_to_scancodes("\u{7f}"), vec![29, 42, 22, 8, 33, 57]);
}

#[test]
fn unicode_entry_has_trigger_digits_and_terminator() {
    for c in ['中', 'é', 'ß', 'Ω', '\u{1F600}', '\u{10FFFF}', '\0', '\r'] {
        let codes = string_to_scancodes(&c.to_string());
        let digits = format!("{:x}", c as u32);
        assert_eq!(codes[..3], [KEY_LEFTCTRL, KEY_LEFTSHIFT, KEY_U]);
        assert_eq!(codes[codes.len() - 1], KEY_SPACE);
        assert_eq!(codes.len(), 3 + digits.len() + 1);
        for (i, d) in digits.chars().enumerate() {
            assert_eq!(vec![codes[3 + i]], string_to_scancodes(&d.to_string()));
        }
    }
}

#[test]
fn mixed_text_keeps_the_order_of_its_characters() {
    assert_eq!(
        string_to_scancodes("Hi 中!\n"),
        vec![42, 35, 23, 57, 29, 42, 22, 5, 18, 3, 32, 57, 42, 2, 28]
    );
}

#[test]
fn joined_texts_give_joined_presses() {
    let parts = ["", "a", "Hello!", "中", " \t\n", "x = Y[0];", "é\0"];
    for a in parts {
        for b in parts {
            let mut expected = string_to_scancodes(a);
            expected.extend(string_to_scancodes(b));
            assert_eq!(string_to_scancodes(&format!("{}{}", a, b)), expected);
        }
    }
}

#[test]
fn same_text_gives_same_presses() {
    for text in ["", "hello", "Hello, World!", "中文 é \u{1F600}", "a\tb\nc"] {
        assert_eq!(string_to_scancodes(text), string_to_scancodes(text));
    }
}

#[test]
fn every_character_takes_one_to_ten_presses() {
    for text in ["hello", "Hello!", "中文", "\u{10FFFF}\u{10FFFF}", "a中B\0"] {
        let chars = text.chars().count();
        let presses = string_to_scancodes(text).len();
        assert!(chars <= presses);
        assert!(presses <= 10 * chars);
    }
    assert_eq!(string_to_scancodes("\u{10FFFF}").len(), 10);
    assert_eq!(string_to_scancodes("a").len(), 1);
}

#[test]
fn resolve_asks_the_direct_table_first() {
    assert_eq!(resolve('a'), Resolution::Direct(30));
    assert_eq!(resolve('1'), Resolution::Direct(2));
    assert_eq!(resolve(' '), Resolution::Direct(57));
    assert_eq!(resolve('`'), Resolution::Direct(41));
}

#[test]
fn resolve_asks_the_shifted_table_second() {
    assert_eq!(resolve('A'), Resolution::Shifted(30));
    assert_eq!(resolve('!'), Resolution::Shifted(2));
    assert_eq!(resolve('~'), Resolution::Shifted(41));
}

#[test]
fn resolve_falls_back_to_the_code_point() {
    assert_eq!(resolve('中'), Resolution::Unicode('中'));
    assert_eq!(resolve('\0'), Resolution::Unicode('\0'));
    assert_eq!(resolve('\r'), Resolution::Unicode('\r'));
    assert_eq!(resolve('\u{10FFFF}'), Resolution::Unicode('\u{10FFFF}'));
}

#[test]
fn press_appends_to_what_is_there() {
    let mut out = vec![7, 7];
    Resolution::Direct(30).press(&mut out);
    assert_eq!(out, vec![7, 7, 30]);
    Resolution::Shifted(48).press(&mut out);
    assert_eq!(out, vec![7, 7, 30, 42, 48]);
    Resolution::Unicode('中').press(&mut out);
    assert_eq!(out, vec![7, 7, 30, 42, 48, 29, 42, 22, 5, 18, 3, 32, 57]);
}

#[test]
fn press_of_resolve_is_the_text_of_one_character() {
    for c in ['a', 'Z', '?', '\n', '中', '\0', '\u{10FFFF}'] {
        let mut out = Vec::new();
        resolve(c).press(&mut out);
        assert_eq!(out, string_to_scancodes(&c.to_string()));
    }
}

#[test]
fn hex_keycodes_of_all_digits() {
    let digits: Vec<char> = "0123456789abcdef".chars().collect();
    let mut out = Vec::new();
    push_hex_keycodes(&digits, &mut out);
    assert_eq!(
        out,
        vec![11, 2, 3, 4, 5, 6, 7, 8, 9, 10, 30, 48, 46, 32, 18, 33]
    );
}

#[test]
fn hex_keycodes_pass_over_other_characters() {
    let mut out = vec![1];
    push_hex_keycodes(&['g', '1', 'F', 'a', ' ', 'x', '中'], &mut out);
    assert_eq!(out, vec![1, 2, 30]);
    push_hex_keycodes(&[], &mut out);
    assert_eq!(out, vec![1, 2, 30]);
    push_hex_keycodes(&['A', 'G', '-'], &mut out);
    assert_eq!(out, vec![1, 2, 30]);
}
