//! From text to key presses.
//!
//! Each character is resolved on its own, in a fixed order: a bare key press
//! where a key types it, Shift and a key where the shifted layer holds it, and
//! entry by code point for every other character. The presses of a text are
//! those of its characters, in the order of the text. No release is recorded.

use crate::hex::{
    hex_digits, hex_repr, hex_value, is_hex_digit, lemma_hex_repr, lemma_significant_digits_len,
};
use crate::keymap::{
    direct_keycode, direct_map, hex_digit_keycode, hex_digit_map, is_digit, is_lowercase_letter,
    is_shifted_symbol, is_unshifted_punctuation, is_uppercase_letter, is_whitespace_key,
    lemma_direct_keys, lemma_hex_digit_keys, lemma_shifted_key_is_base_key, lemma_shifted_keys,
    shifted_keycode, shifted_map, unshifted, KEY_LEFTCTRL, KEY_LEFTSHIFT, KEY_SPACE, KEY_U,
};
use vstd::arithmetic::power::pow;
use vstd::prelude::*;

verus! {

/// How one character is typed.
#[derive(Clone, Copy, Debug, PartialEq, Eq, Structural)]
pub enum Resolution {
    /// A bare press of the key with this code.
    Direct(u32),
    /// Shift, then the key with this code.
    Shifted(u32),
    /// No key types the character: it is entered by its code point.
    Unicode(char),
}

/// The way `c` is typed: the direct table is asked first, then the shifted
/// table, and what neither holds is entered by code point.
pub open spec fn resolution_of(c: char) -> Resolution {
    if direct_map().contains_key(c) {
        Resolution::Direct(direct_map()[c])
    } else if shifted_map().contains_key(c) {
        Resolution::Shifted(shifted_map()[c])
    } else {
        Resolution::Unicode(c)
    }
}

/// The key codes of a string of digits, one for each digit in order. A
/// character that is no hexadecimal digit has no key here and is left out.
pub open spec fn hex_keycodes(digits: Seq<char>) -> Seq<u32> {
    digits.filter_map(|d: char| hex_digit_map().get(d))
}

/// Entry of `c` by code point: Control, Shift and U, the code point in
/// hexadecimal, then Space.
pub open spec fn unicode_entry(c: char) -> Seq<u32> {
    seq![KEY_LEFTCTRL, KEY_LEFTSHIFT, KEY_U] + hex_keycodes(hex_repr(c as nat)) + seq![KEY_SPACE]
}

impl Resolution {
    /// The presses that carry this resolution out.
    pub open spec fn keycodes(self) -> Seq<u32> {
        match self {
            Resolution::Direct(code) => seq![code],
            Resolution::Shifted(code) => seq![KEY_LEFTSHIFT, code],
            Resolution::Unicode(c) => unicode_entry(c),
        }
    }

    /// Appends the presses of this resolution to `out`.
    pub fn press(self, out: &mut Vec<u32>)
        ensures
            final(out)@ == old(out)@ + self.keycodes(),
    {
        match self {
            Resolution::Direct(code) => {
                out.push(code);
            },
            Resolution::Shifted(code) => {
                out.push(KEY_LEFTSHIFT);
                out.push(code);
            },
            Resolution::Unicode(c) => {
                out.push(KEY_LEFTCTRL);
                out.push(KEY_LEFTSHIFT);
                out.push(KEY_U);
                let digits = hex_digits(c as u32);
                push_hex_keycodes(digits.as_slice(), out);
                out.push(KEY_SPACE);
            },
        }
    }
}

/// The presses that type `c`.
pub open spec fn char_keycodes(c: char) -> Seq<u32> {
    resolution_of(c).keycodes()
}

/// The presses that type `text`: those of its characters, one character after
/// the other.
pub open spec fn text_keycodes(text: Seq<char>) -> Seq<u32> {
    text.flat_map(|c: char| char_keycodes(c))
}

/// Decides how `c` is typed.
pub fn resolve(c: char) -> (r: Resolution)
    ensures
        r == resolution_of(c),
{
    match direct_keycode(c) {
        Some(code) => Resolution::Direct(code),
        None => match shifted_keycode(c) {
            Some(code) => Resolution::Shifted(code),
            None => Resolution::Unicode(c),
        },
    }
}

/// Appends the key code of each digit in `digits` to `out`, in order, and
/// passes over every character that is no hexadecimal digit.
pub fn push_hex_keycodes(digits: &[char], out: &mut Vec<u32>)
    ensures
        final(out)@ == old(out)@ + hex_keycodes(digits@),
{
    let n: usize = digits.len();
    for i in 0..n
        invariant
            n == digits@.len(),
            out@ == old(out)@ + hex_keycodes(digits@.take(i as int)),
    {
        proof {
            lemma_hex_keycodes_push(digits@.take(i as int), digits@[i as int]);
            assert(digits@.take(i + 1) == digits@.take(i as int).push(digits@[i as int]));
        }
        match hex_digit_keycode(digits[i]) {
            Some(code) => {
                out.push(code);
            },
            None => {},
        }
    }
    proof {
        assert(digits@.take(n as int) == digits@);
    }
}

/// The key presses that type `s`, in the order of its characters.
pub fn string_to_scancodes(s: &str) -> (codes: Vec<u32>)
    ensures
        codes@ == text_keycodes(s@),
{
    let mut codes: Vec<u32> = Vec::new();
    proof {
        lemma_text_keycodes_empty();
        assert(s@.take(0) == Seq::<char>::empty());
    }
    for c in chars: s.chars()
        invariant
            chars.seq() == s@,
            codes@ == text_keycodes(s@.take(chars.index() as int)),
    {
        proof {
            let done = s@.take(chars.index() as int);
            lemma_text_keycodes_push(done, c);
            assert(s@.take(chars.index() + 1) == done.push(c));
        }
        resolve(c).press(&mut codes);
    }
    proof {
        assert(s@.take(s@.len() as int) == s@);
    }
    codes
}

/// One more digit adds its key code at the end, or nothing where it has none.
pub proof fn lemma_hex_keycodes_push(digits: Seq<char>, d: char)
    ensures
        hex_keycodes(digits.push(d)) == match hex_digit_map().get(d) {
            Some(code) => hex_keycodes(digits).push(code),
            None => hex_keycodes(digits),
        },
{
    assert(digits.push(d).drop_last() == digits);
    assert(digits.push(d).last() == d);
}

/// Of a string of hexadecimal digits none is left out: there is one key code
/// for each digit, that of the digit's own key.
pub proof fn lemma_hex_keycodes_of_digits(digits: Seq<char>)
    requires
        forall|i: int| 0 <= i < digits.len() ==> is_hex_digit(#[trigger] digits[i]),
    ensures
        hex_keycodes(digits).len() == digits.len(),
        forall|i: int|
            0 <= i < digits.len() ==> #[trigger] hex_keycodes(digits)[i]
                == hex_digit_map()[digits[i]],
    decreases digits.len(),
{
    if digits.len() > 0 {
        let front = digits.drop_last();
        lemma_hex_keycodes_of_digits(front);
        lemma_hex_keycodes_push(front, digits.last());
        lemma_hex_digit_keys(digits.last());
        assert(front.push(digits.last()) == digits);
    }
}

/// The empty text needs no press.
pub proof fn lemma_text_keycodes_empty()
    ensures
        text_keycodes(Seq::empty()) == Seq::<u32>::empty(),
{
    let presses = Seq::<char>::empty().map_values(|c: char| char_keycodes(c));
    assert(presses.len() == 0);
}

/// A character added at the end of a text adds its presses at the end.
pub proof fn lemma_text_keycodes_push(text: Seq<char>, c: char)
    ensures
        text_keycodes(text.push(c)) == text_keycodes(text) + char_keycodes(c),
{
    let f = |c: char| char_keycodes(c);
    assert(text.push(c).map_values(f) == text.map_values(f).push(char_keycodes(c)));
    text.map_values(f).lemma_flatten_push(char_keycodes(c));
}

/// A text of one character is typed as that character is.
pub proof fn lemma_text_keycodes_single(c: char)
    ensures
        text_keycodes(seq![c]) == char_keycodes(c),
{
    lemma_text_keycodes_empty();
    lemma_text_keycodes_push(Seq::empty(), c);
    assert(Seq::<char>::empty().push(c) == seq![c]);
}

/// The presses follow the order of the text: those of `a + b` are those of
/// `a`, then those of `b`.
pub proof fn lemma_text_keycodes_concat(a: Seq<char>, b: Seq<char>)
    ensures
        text_keycodes(a + b) == text_keycodes(a) + text_keycodes(b),
    decreases b.len(),
{
    if b.len() == 0 {
        lemma_text_keycodes_empty();
        assert(a + b == a);
        assert(b == Seq::<char>::empty());
    } else {
        let front = b.drop_last();
        lemma_text_keycodes_concat(a, front);
        lemma_text_keycodes_push(a + front, b.last());
        lemma_text_keycodes_push(front, b.last());
        assert((a + front).push(b.last()) == a + b);
        assert(front.push(b.last()) == b);
    }
}

/// A lower-case letter, a digit, a whitespace character or an unshifted
/// punctuation mark is typed by one press, that of its key in the direct
/// table.
pub proof fn lemma_direct_char(c: char)
    requires
        is_lowercase_letter(c) || is_digit(c) || is_whitespace_key(c)
            || is_unshifted_punctuation(c),
    ensures
        direct_map().contains_key(c),
        text_keycodes(seq![c]) == seq![direct_map()[c]],
{
    lemma_direct_keys(c);
    lemma_text_keycodes_single(c);
}

/// An upper-case letter or a shifted symbol is typed by two presses: Shift,
/// then the one press that types its unshifted counterpart.
pub proof fn lemma_shifted_char(c: char)
    requires
        is_uppercase_letter(c) || is_shifted_symbol(c),
    ensures
        shifted_map().contains_key(c),
        text_keycodes(seq![unshifted(c)]) == seq![shifted_map()[c]],
        text_keycodes(seq![c]) == seq![KEY_LEFTSHIFT, shifted_map()[c]],
        text_keycodes(seq![c]) == seq![KEY_LEFTSHIFT] + text_keycodes(seq![unshifted(c)]),
{
    lemma_shifted_keys(c);
    lemma_direct_keys(c);
    lemma_shifted_key_is_base_key(c);
    lemma_text_keycodes_single(c);
    lemma_text_keycodes_single(unshifted(c));
}

/// A character in neither table is entered by code point: Control, Shift and
/// U; then one press for each digit of the code point's hexadecimal notation,
/// on the digit's own key; then Space. The notation denotes the code point,
/// has between one and six digits, and begins with `0` only for the
/// character of code point zero.
pub proof fn lemma_unmapped_char(c: char)
    requires
        !direct_map().contains_key(c),
        !shifted_map().contains_key(c),
    ensures
        ({
            let digits = hex_repr(c as nat);
            let presses = hex_keycodes(digits);
            &&& text_keycodes(seq![c]) == seq![KEY_LEFTCTRL, KEY_LEFTSHIFT, KEY_U] + presses
                + seq![KEY_SPACE]
            &&& presses.len() == digits.len()
            &&& forall|i: int|
                0 <= i < digits.len() ==> #[trigger] presses[i] == hex_digit_map()[digits[i]]
            &&& hex_value(digits) == c as nat
            &&& 1 <= digits.len() <= 6
            &&& digits[0] == '0' <==> c as nat == 0
        }),
{
    lemma_text_keycodes_single(c);
    lemma_hex_repr(c as nat);
    lemma_hex_keycodes_of_digits(hex_repr(c as nat));
    assert(pow(16, 6) == 0x1000000) by {
        reveal_with_fuel(pow, 7);
    }
    lemma_significant_digits_len(c as nat, 6);
}

/// One character takes at least one press and at most ten.
pub proof fn lemma_char_keycodes_len(c: char)
    ensures
        1 <= char_keycodes(c).len() <= 10,
{
    if !direct_map().contains_key(c) && !shifted_map().contains_key(c) {
        lemma_text_keycodes_single(c);
        lemma_unmapped_char(c);
    }
}

/// A text takes at least one press for each of its characters, and at most
/// ten.
pub proof fn lemma_text_keycodes_len(text: Seq<char>)
    ensures
        text.len() <= text_keycodes(text).len() <= 10 * text.len(),
    decreases text.len(),
{
    if text.len() == 0 {
        lemma_text_keycodes_empty();
        assert(text == Seq::<char>::empty());
    } else {
        let front = text.drop_last();
        lemma_text_keycodes_len(front);
        lemma_text_keycodes_push(front, text.last());
        lemma_char_keycodes_len(text.last());
        assert(front.push(text.last()) == text);
    }
}

/// The presses depend on the text alone: two runs on the same text give the
/// same presses.
pub proof fn lemma_same_text_same_keycodes(
    first_text: Seq<char>,
    second_text: Seq<char>,
    first_codes: Seq<u32>,
    second_codes: Seq<u32>,
)
    requires
        first_text == second_text,
        first_codes == text_keycodes(first_text),
        second_codes == text_keycodes(second_text),
    ensures
        first_codes == second_codes,
{
}

} // verus!
