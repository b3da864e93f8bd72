//! Numeric text entry: the keys a text box collected since the last frame are
//! applied to its text, keeping only what can make up a signed decimal number.

use vstd::prelude::*;

verus! {

/// The character code of '0'.
pub const ZERO: u8 = 48;

/// The character code of '9'.
pub const NINE: u8 = 57;

/// The character code of '.'.
pub const POINT: u8 = 46;

/// A key press as the text box sees it.
#[derive(Clone, Copy, Debug, PartialEq, Eq, Structural)]
pub enum Key {
    /// Removes the last character.
    Backspace,
    /// The key in the slash position, which types a minus sign on the
    /// layout this viewer is used with.
    Slash,
    /// Any other key, by its code truncated to a byte.
    Code(u8),
}

/// The state of a text box that the key filter reads and writes.
pub struct TextBox {
    /// The text shown in the box.
    pub text: Vec<char>,
    /// The keys pressed since they were last applied, oldest first.
    pub keys: Vec<Key>,
}

/// Whether a key code stands for a character that a number may hold:
/// a decimal digit or the decimal point.
pub open spec fn is_number_char(code: u8) -> bool {
    (ZERO <= code && code <= NINE) || code == POINT
}

/// The text after one key press.
pub open spec fn after_key(text: Seq<char>, key: Key) -> Seq<char> {
    match key {
        Key::Backspace => if text.len() > 0 {
            text.drop_last()
        } else {
            text
        },
        Key::Slash => text.push('-'),
        Key::Code(c) => if is_number_char(c) {
            text.push(c as char)
        } else {
            text
        },
    }
}

/// The text after the keys were pressed in order.
pub open spec fn after_keys(text: Seq<char>, keys: Seq<Key>) -> Seq<char>
    decreases keys.len(),
{
    if keys.len() == 0 {
        text
    } else {
        after_key(after_keys(text, keys.drop_last()), keys.last())
    }
}

/// Applies the pending keys to the text in order and clears them.
pub fn key_check(text_box: &mut TextBox)
    ensures
        final(text_box).text@ == after_keys(old(text_box).text@, old(text_box).keys@),
        final(text_box).keys@.len() == 0,
{
    let n = text_box.keys.len();
    let mut i: usize = 0;
    while i < n
        invariant
            n == text_box.keys@.len(),
            i <= n,
            text_box.keys@ == old(text_box).keys@,
            text_box.text@ == after_keys(old(text_box).text@, old(text_box).keys@.take(i as int)),
        decreases n - i,
    {
        let k = text_box.keys[i];
        match k {
            Key::Backspace => {
                text_box.text.pop();
            },
            Key::Slash => {
                text_box.text.push('-');
            },
            Key::Code(c) => {
                if (ZERO <= c && c <= NINE) || c == POINT {
                    text_box.text.push(c as char);
                }
            },
        }
        proof {
            let keys = old(text_box).keys@;
            assert(keys.take(i + 1).drop_last() == keys.take(i as int));
        }
        i = i + 1;
    }
    assert(old(text_box).keys@.take(n as int) == old(text_box).keys@);
    text_box.keys.clear();
}

} // verus!
