//! Translation of keyboard scan codes to characters.

use vstd::prelude::*;

verus! {

/// The character a make code stands for on the base layout: the digit
/// row, the three letter rows, enter, backspace and space; break codes
/// (0x80 and up) mean nothing, and any other make code shows as a
/// question mark.  Scan code 0 signals a keyboard error and has no
/// translation.
pub open spec fn spec_scancode_to_char(code: u8) -> Option<char> {
    if code >= 0x80 {
        None
    } else if code == 0x02 {
        Some('1')
    } else if code == 0x03 {
        Some('2')
    } else if code == 0x04 {
        Some('3')
    } else if code == 0x05 {
        Some('4')
    } else if code == 0x06 {
        Some('5')
    } else if code == 0x07 {
        Some('6')
    } else if code == 0x08 {
        Some('7')
    } else if code == 0x09 {
        Some('8')
    } else if code == 0x0a {
        Some('9')
    } else if code == 0x0b {
        Some('0')
    } else if code == 0x10 {
        Some('q')
    } else if code == 0x11 {
        Some('w')
    } else if code == 0x12 {
        Some('e')
    } else if code == 0x13 {
        Some('r')
    } else if code == 0x14 {
        Some('t')
    } else if code == 0x15 {
        Some('y')
    } else if code == 0x16 {
        Some('u')
    } else if code == 0x17 {
        Some('i')
    } else if code == 0x18 {
        Some('o')
    } else if code == 0x19 {
        Some('p')
    } else if code == 0x1c {
        Some('\n')
    } else if code == 0x0e {
        Some('\u{8}')
    } else if code == 0x1e {
        Some('a')
    } else if code == 0x1f {
        Some('s')
    } else if code == 0x20 {
        Some('d')
    } else if code == 0x21 {
        Some('f')
    } else if code == 0x22 {
        Some('g')
    } else if code == 0x23 {
        Some('h')
    } else if code == 0x24 {
        Some('j')
    } else if code == 0x25 {
        Some('k')
    } else if code == 0x26 {
        Some('l')
    } else if code == 0x2c {
        Some('z')
    } else if code == 0x2d {
        Some('x')
    } else if code == 0x2e {
        Some('c')
    } else if code == 0x2f {
        Some('v')
    } else if code == 0x30 {
        Some('b')
    } else if code == 0x31 {
        Some('n')
    } else if code == 0x32 {
        Some('m')
    } else if code == 0x39 {
        Some(' ')
    } else {
        Some('?')
    }
}

/// The character a make code stands for, or nothing for a break code.
/// Scan code 0 signals a keyboard error and is not accepted.
pub fn scancode_to_char(code: u8) -> (r: Option<char>)
    requires
        code != 0,
    ensures
        r == spec_scancode_to_char(code),
{
    match code {
        0x02 => Some('1'),
        0x03 => Some('2'),
        0x04 => Some('3'),
        0x05 => Some('4'),
        0x06 => Some('5'),
        0x07 => Some('6'),
        0x08 => Some('7'),
        0x09 => Some('8'),
        0x0a => Some('9'),
        0x0b => Some('0'),
        0x10 => Some('q'),
        0x11 => Some('w'),
        0x12 => Some('e'),
        0x13 => Some('r'),
        0x14 => Some('t'),
        0x15 => Some('y'),
        0x16 => Some('u'),
        0x17 => Some('i'),
        0x18 => Some('o'),
        0x19 => Some('p'),
        0x1c => Some('\n'),
        0x0e => Some('\u{8}'),
        0x1e => Some('a'),
        0x1f => Some('s'),
        0x20 => Some('d'),
        0x21 => Some('f'),
        0x22 => Some('g'),
        0x23 => Some('h'),
        0x24 => Some('j'),
        0x25 => Some('k'),
        0x26 => Some('l'),
        0x2c => Some('z'),
        0x2d => Some('x'),
        0x2e => Some('c'),
        0x2f => Some('v'),
        0x30 => Some('b'),
        0x31 => Some('n'),
        0x32 => Some('m'),
        0x39 => Some(' '),
        _ => {
            if code >= 0x80 {
                None
            } else {
                Some('?')
            }
        },
    }
}

} // verus!
