//! The two operations on the search text.

use crate::keys::KeyCode;
use vstd::prelude::*;

verus! {

/// `String::push`: appends `c` to the end of the text.
#[verifier::external_body]
pub(crate) fn push_char(text: &mut String, c: char)
    ensures
        final(text)@ == old(text)@.push(c),
{
    text.push(c)
}

/// `String::pop`: removes the last character of the text and returns it, or
/// returns `None` and changes nothing where the text is empty.
#[verifier::external_body]
pub(crate) fn pop_char(text: &mut String) -> (last: Option<char>)
    ensures
        old(text)@.len() == 0 ==> last.is_none() && final(text)@ == old(text)@,
        old(text)@.len() > 0 ==> last == Some(old(text)@.last()) && final(text)@ == old(
            text,
        )@.drop_last(),
{
    text.pop()
}

/// The text after a key was typed into it: a character is appended,
/// Backspace removes the last one, no other key changes it.
pub open spec fn typed_text(text: Seq<char>, key: KeyCode) -> Seq<char> {
    match key {
        KeyCode::Char(c) => text.push(c),
        KeyCode::Backspace => if text.len() > 0 {
            text.drop_last()
        } else {
            text
        },
        _ => text,
    }
}

/// Types `key` into `text`.
pub fn type_key(text: &mut String, key: KeyCode)
    ensures
        final(text)@ == typed_text(old(text)@, key),
{
    match key {
        KeyCode::Char(c) => push_char(text, c),
        KeyCode::Backspace => {
            let _ = pop_char(text);
        },
        _ => {},
    }
}

} // verus!
