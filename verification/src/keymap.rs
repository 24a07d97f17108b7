//! The fixed key tables: which key types which character.
//!
//! Key codes follow the Linux input-event numbering. Only one physical layout
//! is covered. The tables are fixed data: nothing builds or changes them at
//! run time.

use crate::hex::is_hex_digit;
use vstd::prelude::*;

verus! {

/// Key code of the left Control key.
pub const KEY_LEFTCTRL: u32 = 29;

/// Key code of the left Shift key.
pub const KEY_LEFTSHIFT: u32 = 42;

/// Key code of the letter U key.
pub const KEY_U: u32 = 22;

/// Key code of the space bar.
pub const KEY_SPACE: u32 = 57;

/// The characters typed by a bare key press, each with the code of its key:
/// lower-case letters, digits, space, newline, tab and the punctuation that
/// needs no modifier.
pub open spec fn direct_map() -> Map<char, u32> {
    map![
        'a' => 30u32, 'b' => 48u32, 'c' => 46u32, 'd' => 32u32, 'e' => 18u32,
        'f' => 33u32, 'g' => 34u32, 'h' => 35u32, 'i' => 23u32, 'j' => 36u32,
        'k' => 37u32, 'l' => 38u32, 'm' => 50u32, 'n' => 49u32, 'o' => 24u32,
        'p' => 25u32, 'q' => 16u32, 'r' => 19u32, 's' => 31u32, 't' => 20u32,
        'u' => KEY_U, 'v' => 47u32, 'w' => 17u32, 'x' => 45u32, 'y' => 21u32,
        'z' => 44u32,
        '1' => 2u32, '2' => 3u32, '3' => 4u32, '4' => 5u32, '5' => 6u32,
        '6' => 7u32, '7' => 8u32, '8' => 9u32, '9' => 10u32, '0' => 11u32,
        ' ' => KEY_SPACE, '\n' => 28u32, '\t' => 15u32,
        '-' => 12u32, '=' => 13u32, '[' => 26u32, ']' => 27u32, '\\' => 43u32,
        ';' => 39u32, '\'' => 40u32, ',' => 51u32, '.' => 52u32, '/' => 53u32,
        '`' => 41u32,
    ]
}

/// The characters typed while Shift is held, each with the code of the key
/// that is pressed together with Shift: upper-case letters and the symbols of
/// the shifted layer.
pub open spec fn shifted_map() -> Map<char, u32> {
    map![
        'A' => 30u32, 'B' => 48u32, 'C' => 46u32, 'D' => 32u32, 'E' => 18u32,
        'F' => 33u32, 'G' => 34u32, 'H' => 35u32, 'I' => 23u32, 'J' => 36u32,
        'K' => 37u32, 'L' => 38u32, 'M' => 50u32, 'N' => 49u32, 'O' => 24u32,
        'P' => 25u32, 'Q' => 16u32, 'R' => 19u32, 'S' => 31u32, 'T' => 20u32,
        'U' => KEY_U, 'V' => 47u32, 'W' => 17u32, 'X' => 45u32, 'Y' => 21u32,
        'Z' => 44u32,
        '!' => 2u32, '@' => 3u32, '#' => 4u32, '$' => 5u32, '%' => 6u32,
        '^' => 7u32, '&' => 8u32, '*' => 9u32, '(' => 10u32, ')' => 11u32,
        '_' => 12u32, '+' => 13u32, '{' => 26u32, '}' => 27u32, '|' => 43u32,
        ':' => 39u32, '"' => 40u32, '<' => 51u32, '>' => 52u32, '?' => 53u32,
        '~' => 41u32,
    ]
}

/// The sixteen lower-case hexadecimal digits, each with the code of the key
/// that types it.
pub open spec fn hex_digit_map() -> Map<char, u32> {
    map![
        '0' => 11u32, '1' => 2u32, '2' => 3u32, '3' => 4u32, '4' => 5u32,
        '5' => 6u32, '6' => 7u32, '7' => 8u32, '8' => 9u32, '9' => 10u32,
        'a' => 30u32, 'b' => 48u32, 'c' => 46u32, 'd' => 32u32, 'e' => 18u32,
        'f' => 33u32,
    ]
}

/// `c` is one of `a` to `z`.
pub open spec fn is_lowercase_letter(c: char) -> bool {
    'a' <= c <= 'z'
}

/// `c` is one of `A` to `Z`.
pub open spec fn is_uppercase_letter(c: char) -> bool {
    'A' <= c <= 'Z'
}

/// `c` is one of `0` to `9`.
pub open spec fn is_digit(c: char) -> bool {
    '0' <= c <= '9'
}

/// `c` is a space, a newline or a tab.
pub open spec fn is_whitespace_key(c: char) -> bool {
    c == ' ' || c == '\n' || c == '\t'
}

/// `c` is a punctuation mark that its key types without a modifier.
pub open spec fn is_unshifted_punctuation(c: char) -> bool {
    c == '-' || c == '=' || c == '[' || c == ']' || c == '\\' || c == ';' || c == '\''
        || c == ',' || c == '.' || c == '/' || c == '`'
}

/// `c` is a symbol of the shifted layer of a digit key or a punctuation key.
pub open spec fn is_shifted_symbol(c: char) -> bool {
    c == '!' || c == '@' || c == '#' || c == '$' || c == '%' || c == '^' || c == '&'
        || c == '*' || c == '(' || c == ')' || c == '_' || c == '+' || c == '{' || c == '}'
        || c == '|' || c == ':' || c == '"' || c == '<' || c == '>' || c == '?' || c == '~'
}

/// The character that the key of a shifted character types when Shift is not
/// held: the lower-case form of an upper-case letter, the digit or punctuation
/// mark under a shifted symbol. Every other character is its own counterpart.
pub open spec fn unshifted(c: char) -> char {
    if is_uppercase_letter(c) {
        (c as int - 'A' as int + 'a' as int) as char
    } else {
        match c {
            '!' => '1',
            '@' => '2',
            '#' => '3',
            '$' => '4',
            '%' => '5',
            '^' => '6',
            '&' => '7',
            '*' => '8',
            '(' => '9',
            ')' => '0',
            '_' => '-',
            '+' => '=',
            '{' => '[',
            '}' => ']',
            '|' => '\\',
            ':' => ';',
            '"' => '\'',
            '<' => ',',
            '>' => '.',
            '?' => '/',
            '~' => '`',
            _ => c,
        }
    }
}

/// Looks `c` up among the characters typed by a bare key press.
pub fn direct_keycode(c: char) -> (code: Option<u32>)
    ensures
        code == direct_map().get(c),
{
    match c {
        'a' => Some(30), // KEY_A
        'b' => Some(48), // KEY_B
        'c' => Some(46), // KEY_C
        'd' => Some(32), // KEY_D
        'e' => Some(18), // KEY_E
        'f' => Some(33), // KEY_F
        'g' => Some(34), // KEY_G
        'h' => Some(35), // KEY_H
        'i' => Some(23), // KEY_I
        'j' => Some(36), // KEY_J
        'k' => Some(37), // KEY_K
        'l' => Some(38), // KEY_L
        'm' => Some(50), // KEY_M
        'n' => Some(49), // KEY_N
        'o' => Some(24), // KEY_O
        'p' => Some(25), // KEY_P
        'q' => Some(16), // KEY_Q
        'r' => Some(19), // KEY_R
        's' => Some(31), // KEY_S
        't' => Some(20), // KEY_T
        'u' => Some(KEY_U),
        'v' => Some(47), // KEY_V
        'w' => Some(17), // KEY_W
        'x' => Some(45), // KEY_X
        'y' => Some(21), // KEY_Y
        'z' => Some(44), // KEY_Z
        '1' => Some(2), // KEY_1
        '2' => Some(3), // KEY_2
        '3' => Some(4), // KEY_3
        '4' => Some(5), // KEY_4
        '5' => Some(6), // KEY_5
        '6' => Some(7), // KEY_6
        '7' => Some(8), // KEY_7
        '8' => Some(9), // KEY_8
        '9' => Some(10), // KEY_9
        '0' => Some(11), // KEY_0
        ' ' => Some(KEY_SPACE),
        '\n' => Some(28), // KEY_ENTER
        '\t' => Some(15), // KEY_TAB
        '-' => Some(12), // KEY_MINUS
        '=' => Some(13), // KEY_EQUAL
        '[' => Some(26), // KEY_LEFTBRACE
        ']' => Some(27), // KEY_RIGHTBRACE
        '\\' => Some(43), // KEY_BACKSLASH
        ';' => Some(39), // KEY_SEMICOLON
        '\'' => Some(40), // KEY_APOSTROPHE
        ',' => Some(51), // KEY_COMMA
        '.' => Some(52), // KEY_DOT
        '/' => Some(53), // KEY_SLASH
        '`' => Some(41), // KEY_GRAVE
        _ => None,
    }
}

/// Looks `c` up among the characters typed while Shift is held. The code is
/// that of the key pressed with Shift, not of Shift itself.
pub fn shifted_keycode(c: char) -> (code: Option<u32>)
    ensures
        code == shifted_map().get(c),
{
    match c {
        'A' => Some(30), // KEY_A
        'B' => Some(48), // KEY_B
        'C' => Some(46), // KEY_C
        'D' => Some(32), // KEY_D
        'E' => Some(18), // KEY_E
        'F' => Some(33), // KEY_F
        'G' => Some(34), // KEY_G
        'H' => Some(35), // KEY_H
        'I' => Some(23), // KEY_I
        'J' => Some(36), // KEY_J
        'K' => Some(37), // KEY_K
        'L' => Some(38), // KEY_L
        'M' => Some(50), // KEY_M
        'N' => Some(49), // KEY_N
        'O' => Some(24), // KEY_O
        'P' => Some(25), // KEY_P
        'Q' => Some(16), // KEY_Q
        'R' => Some(19), // KEY_R
        'S' => Some(31), // KEY_S
        'T' => Some(20), // KEY_T
        'U' => Some(KEY_U),
        'V' => Some(47), // KEY_V
        'W' => Some(17), // KEY_W
        'X' => Some(45), // KEY_X
        'Y' => Some(21), // KEY_Y
        'Z' => Some(44), // KEY_Z
        '!' => Some(2), // KEY_1
        '@' => Some(3), // KEY_2
        '#' => Some(4), // KEY_3
        '$' => Some(5), // KEY_4
        '%' => Some(6), // KEY_5
        '^' => Some(7), // KEY_6
        '&' => Some(8), // KEY_7
        '*' => Some(9), // KEY_8
        '(' => Some(10), // KEY_9
        ')' => Some(11), // KEY_0
        '_' => Some(12), // KEY_MINUS
        '+' => Some(13), // KEY_EQUAL
        '{' => Some(26), // KEY_LEFTBRACE
        '}' => Some(27), // KEY_RIGHTBRACE
        '|' => Some(43), // KEY_BACKSLASH
        ':' => Some(39), // KEY_SEMICOLON
        '"' => Some(40), // KEY_APOSTROPHE
        '<' => Some(51), // KEY_COMMA
        '>' => Some(52), // KEY_DOT
        '?' => Some(53), // KEY_SLASH
        '~' => Some(41), // KEY_GRAVE
        _ => None,
    }
}

/// Looks `c` up among the hexadecimal digits.
pub fn hex_digit_keycode(c: char) -> (code: Option<u32>)
    ensures
        code == hex_digit_map().get(c),
{
    match c {
        '0' => Some(11), // KEY_0
        '1' => Some(2), // KEY_1
        '2' => Some(3), // KEY_2
        '3' => Some(4), // KEY_3
        '4' => Some(5), // KEY_4
        '5' => Some(6), // KEY_5
        '6' => Some(7), // KEY_6
        '7' => Some(8), // KEY_7
        '8' => Some(9), // KEY_8
        '9' => Some(10), // KEY_9
        'a' => Some(30), // KEY_A
        'b' => Some(48), // KEY_B
        'c' => Some(46), // KEY_C
        'd' => Some(32), // KEY_D
        'e' => Some(18), // KEY_E
        'f' => Some(33), // KEY_F
        _ => None,
    }
}

/// The direct table holds the lower-case letters, the digits, the three
/// whitespace characters and the unshifted punctuation, and nothing else.
pub proof fn lemma_direct_keys(c: char)
    ensures
        direct_map().contains_key(c) <==> is_lowercase_letter(c) || is_digit(c)
            || is_whitespace_key(c) || is_unshifted_punctuation(c),
{
}

/// The shifted table holds the upper-case letters and the shifted symbols,
/// and nothing else.
pub proof fn lemma_shifted_keys(c: char)
    ensures
        shifted_map().contains_key(c) <==> is_uppercase_letter(c) || is_shifted_symbol(c),
{
}

/// No character is in both tables.
pub proof fn lemma_tables_disjoint()
    ensures
        direct_map().dom().disjoint(shifted_map().dom()),
{
    assert forall|c: char| !(direct_map().dom().contains(c) && shifted_map().dom().contains(c)) by {
        lemma_direct_keys(c);
        lemma_shifted_keys(c);
    }
}

/// A shifted character is typed on the key of its unshifted counterpart: the
/// counterpart is in the direct table, under the same key code.
pub proof fn lemma_shifted_key_is_base_key(c: char)
    requires
        shifted_map().contains_key(c),
    ensures
        direct_map().contains_key(unshifted(c)),
        direct_map()[unshifted(c)] == shifted_map()[c],
{
}

/// The digit table holds the sixteen lower-case hexadecimal digits, and
/// nothing else.
pub proof fn lemma_hex_digit_keys(c: char)
    ensures
        hex_digit_map().contains_key(c) <==> is_hex_digit(c),
{
}

/// The digit table adds no key of its own: each of its entries is an entry of
/// the direct table.
pub proof fn lemma_hex_digit_keys_are_direct()
    ensures
        hex_digit_map().submap_of(direct_map()),
{
}

} // verus!
