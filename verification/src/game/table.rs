//! The sixty-four characters that number the buttons and menu entries of a
//! panel: capital letters, small letters, digits, plus and slash.

use vstd::prelude::*;
use crate::text::chars_of;

verus! {

/// The character with a number.
pub open spec fn mark_of(i: int) -> char
    recommends
        0 <= i < 64,
{
    if i < 26 {
        ((65 + i) as u8) as char
    } else if i < 52 {
        ((97 + i - 26) as u8) as char
    } else if i < 62 {
        ((48 + i - 52) as u8) as char
    } else if i == 62 {
        '+'
    } else {
        '/'
    }
}

/// The number of a character, if it is one of the sixty-four.
pub open spec fn number_of(c: char) -> Option<usize> {
    if 'A' <= c <= 'Z' {
        Some((c as u32 - 65) as usize)
    } else if 'a' <= c <= 'z' {
        Some((c as u32 - 97 + 26) as usize)
    } else if '0' <= c <= '9' {
        Some((c as u32 - 48 + 52) as usize)
    } else if c == '+' {
        Some(62usize)
    } else if c == '/' {
        Some(63usize)
    } else {
        None
    }
}

/// Each of the sixty-four numbers is read back from its character, and a
/// character that has a number is the character of that number.
pub proof fn lemma_marks(i: int, c: char)
    ensures
        0 <= i < 64 ==> number_of(mark_of(i)) == Some(i as usize),
        number_of(c) matches Some(n) ==> n < 64 && mark_of(n as int) == c,
{
}

/// The character with a number.
pub fn mark(i: usize) -> (c: char)
    requires
        i < 64,
    ensures
        c == mark_of(i as int),
{
    if i < 26 {
        (65u8 + i as u8) as char
    } else if i < 52 {
        (97u8 + (i - 26) as u8) as char
    } else if i < 62 {
        (48u8 + (i - 52) as u8) as char
    } else if i == 62 {
        '+'
    } else {
        '/'
    }
}

/// The number of a character.
pub fn position(c: char) -> (r: Option<usize>)
    ensures
        r == number_of(c),
{
    if 'A' <= c && c <= 'Z' {
        Some((c as u32 - 65) as usize)
    } else if 'a' <= c && c <= 'z' {
        Some((c as u32 - 97 + 26) as usize)
    } else if '0' <= c && c <= '9' {
        Some((c as u32 - 48 + 52) as usize)
    } else if c == '+' {
        Some(62)
    } else if c == '/' {
        Some(63)
    } else {
        None
    }
}

/// The number that the first character of a text stands for.
pub open spec fn first_number(text: Seq<char>) -> Option<usize> {
    if text.len() == 0 {
        None
    } else {
        number_of(text[0])
    }
}

/// The number that the character after a leading `#` stands for.
pub open spec fn hash_number(text: Seq<char>) -> Option<usize> {
    if text.len() >= 2 && text[0] == '#' {
        number_of(text[1])
    } else {
        None
    }
}

/// Reads the number that the first character of a text stands for.
pub fn read_first(text: &str) -> (r: Option<usize>)
    ensures
        r == first_number(text@),
{
    let chars = chars_of(text);
    if chars.len() == 0 {
        None
    } else {
        position(chars[0])
    }
}

/// Reads the number that the character after a leading `#` stands for.
pub fn read_hash(text: &str) -> (r: Option<usize>)
    ensures
        r == hash_number(text@),
{
    let chars = chars_of(text);
    if chars.len() >= 2 && chars[0] == '#' {
        position(chars[1])
    } else {
        None
    }
}

} // verus!
