//! Point symbols.

use vstd::prelude::*;
use crate::error::InvalidArgument;

verus! {

/// The engine's index of the point symbol that a character names, for the
/// fourteen characters that name one.
pub open spec fn symbol_index(c: char) -> Option<int> {
    if c == '.' {
        Some(0)
    } else if c == '+' {
        Some(1)
    } else if c == 'x' {
        Some(2)
    } else if c == '*' {
        Some(3)
    } else if c == 's' {
        Some(4)
    } else if c == 'S' {
        Some(5)
    } else if c == 'o' {
        Some(6)
    } else if c == 'O' {
        Some(7)
    } else if c == 't' {
        Some(8)
    } else if c == 'T' {
        Some(9)
    } else if c == 'd' {
        Some(10)
    } else if c == 'D' {
        Some(11)
    } else if c == 'r' {
        Some(12)
    } else if c == 'R' {
        Some(13)
    } else {
        None
    }
}

/// Looks a point symbol up by its character.
pub fn char_to_symbol(c: char) -> (result: Result<i32, InvalidArgument>)
    ensures
        match result {
            Ok(index) => symbol_index(c) == Some(index as int),
            Err(e) => symbol_index(c) is None && e == InvalidArgument::InvalidSymbol(c),
        },
{
    match c {
        '.' => Ok(0),
        '+' => Ok(1),
        'x' => Ok(2),
        '*' => Ok(3),
        's' => Ok(4),
        'S' => Ok(5),
        'o' => Ok(6),
        'O' => Ok(7),
        't' => Ok(8),
        'T' => Ok(9),
        'd' => Ok(10),
        'D' => Ok(11),
        'r' => Ok(12),
        'R' => Ok(13),
        a => Err(InvalidArgument::InvalidSymbol(a)),
    }
}

} // verus!
