//! The tag listener's decoding logic: the tag reader emulates a keyboard,
//! so scanned tags arrive as a stream of digit keystrokes closed by Enter.
//! Released digit keys accumulate in a buffer; releasing Enter emits the
//! buffered value as a `TagRead` tag and clears the buffer; every other key
//! is ignored.

use vstd::prelude::*;
use crate::model::{RawKeyEvent, Tag, EV_KEY, KEY_RELEASED, spec_is_key_released};

verus! {

/// The key code of the Enter key.
pub const KEY_ENTER: u16 = 28;

/// The digit a numeric key code stands for, if any: the Linux input
/// subsystem numbers the digit keys 2 ("1") through 10 ("9"), then
/// 11 ("0").
pub open spec fn spec_digit_for_code(key_code: u16) -> Option<char> {
    if key_code == 2 {
        Some('1')
    } else if key_code == 3 {
        Some('2')
    } else if key_code == 4 {
        Some('3')
    } else if key_code == 5 {
        Some('4')
    } else if key_code == 6 {
        Some('5')
    } else if key_code == 7 {
        Some('6')
    } else if key_code == 8 {
        Some('7')
    } else if key_code == 9 {
        Some('8')
    } else if key_code == 10 {
        Some('9')
    } else if key_code == 11 {
        Some('0')
    } else {
        None
    }
}

/// Relies on String's FromIterator impl: collecting characters yields the
/// string of exactly those characters, in order.
#[verifier::external_body]
fn chars_to_string(chars: &Vec<char>) -> (r: String)
    ensures
        r@ == chars@,
{
    chars.iter().collect()
}

/// Accumulator turning a raw keystroke stream into scanned tags.
pub struct TagReader {
    chars_read: Vec<char>,
}

impl TagReader {
    /// The digit characters read since the last emitted tag.
    pub closed spec fn buffer(self) -> Seq<char> {
        self.chars_read@
    }

    /// A fresh reader with an empty buffer.
    pub fn new() -> (r: Self)
        ensures
            r.buffer() == Seq::<char>::empty(),
    {
        TagReader { chars_read: Vec::new() }
    }

    /// Whether a raw event is a key-release transition.
    pub fn is_key_released(&self, event: RawKeyEvent) -> (r: bool)
        ensures
            r == spec_is_key_released(event),
    {
        event.event_type == EV_KEY && event.value == KEY_RELEASED
    }

    /// The digit a numeric key code stands for, if any.
    pub fn get_char(&self, key_code: u16) -> (r: Option<char>)
        ensures
            r == spec_digit_for_code(key_code),
    {
        match key_code {
            2 => Some('1'),
            3 => Some('2'),
            4 => Some('3'),
            5 => Some('4'),
            6 => Some('5'),
            7 => Some('6'),
            8 => Some('7'),
            9 => Some('8'),
            10 => Some('9'),
            11 => Some('0'),
            _ => None,
        }
    }

    /// Feeds one raw event into the reader.  On release of Enter the
    /// buffered digits come back as a tag and the buffer clears; on
    /// release of a digit key the digit is buffered; everything else,
    /// including every key press, leaves the reader unchanged.
    pub fn handle_event(&mut self, event: RawKeyEvent) -> (r: Option<Tag>)
        ensures
            !spec_is_key_released(event) ==> r is None && final(self).buffer() == old(
                self,
            ).buffer(),
            spec_is_key_released(event) && event.code == KEY_ENTER ==> (r matches Some(tag)
                && tag.value@ == old(self).buffer()) && final(self).buffer()
                == Seq::<char>::empty(),
            spec_is_key_released(event) && event.code != KEY_ENTER ==> r is None && (
            match spec_digit_for_code(event.code) {
                Some(c) => final(self).buffer() == old(self).buffer().push(c),
                None => final(self).buffer() == old(self).buffer(),
            }),
    {
        if !self.is_key_released(event) {
            return None;
        }
        if event.code == KEY_ENTER {
            let value = chars_to_string(&self.chars_read);
            self.chars_read.clear();
            Some(Tag { value })
        } else {
            match self.get_char(event.code) {
                Some(ch) => {
                    self.chars_read.push(ch);
                    None
                },
                None => None,
            }
        }
    }
}

} // verus!
