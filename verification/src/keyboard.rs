//! The normalized 16-key keypad alphabet, plus the distinguished exit
//! signal delivered by the host input collaborator.

use vstd::prelude::*;

verus! {

/// One key of the CHIP-8 keypad, laid out as
///
/// ```text
/// 1  2  3  C
/// 4  5  6  D
/// 7  8  9  E
/// A  0  B  F
/// ```
///
/// plus `Exit`, the host's request to stop the run loop. `Exit` is never a
/// valid keypad key: the key-comparison instructions ignore it.
#[derive(Clone, Copy, Debug, PartialEq, Eq, Structural)]
pub enum Key {
    Num0,
    Num1,
    Num2,
    Num3,
    Num4,
    Num5,
    Num6,
    Num7,
    Num8,
    Num9,
    A,
    B,
    C,
    D,
    E,
    F,
    Exit,
}

impl Key {
    /// The 4-bit numeric encoding of a keypad key; `Exit` encodes as 16,
    /// one past the keypad range.
    pub open spec fn spec_code(self) -> u8 {
        match self {
            Key::Num0 => 0,
            Key::Num1 => 1,
            Key::Num2 => 2,
            Key::Num3 => 3,
            Key::Num4 => 4,
            Key::Num5 => 5,
            Key::Num6 => 6,
            Key::Num7 => 7,
            Key::Num8 => 8,
            Key::Num9 => 9,
            Key::A => 10,
            Key::B => 11,
            Key::C => 12,
            Key::D => 13,
            Key::E => 14,
            Key::F => 15,
            Key::Exit => 16,
        }
    }

    /// Numeric code of this key.
    pub fn code(self) -> (r: u8)
        ensures
            r == self.spec_code(),
    {
        match self {
            Key::Num0 => 0,
            Key::Num1 => 1,
            Key::Num2 => 2,
            Key::Num3 => 3,
            Key::Num4 => 4,
            Key::Num5 => 5,
            Key::Num6 => 6,
            Key::Num7 => 7,
            Key::Num8 => 8,
            Key::Num9 => 9,
            Key::A => 10,
            Key::B => 11,
            Key::C => 12,
            Key::D => 13,
            Key::E => 14,
            Key::F => 15,
            Key::Exit => 16,
        }
    }

    /// Total, panic-free inverse of [`Key::code`]: `None` exactly on the
    /// values no key encodes to.
    pub fn from_code(value: u8) -> (r: Option<Key>)
        ensures
            match r {
                Some(k) => k.spec_code() == value,
                None => value > 16,
            },
    {
        match value {
            0 => Some(Key::Num0),
            1 => Some(Key::Num1),
            2 => Some(Key::Num2),
            3 => Some(Key::Num3),
            4 => Some(Key::Num4),
            5 => Some(Key::Num5),
            6 => Some(Key::Num6),
            7 => Some(Key::Num7),
            8 => Some(Key::Num8),
            9 => Some(Key::Num9),
            10 => Some(Key::A),
            11 => Some(Key::B),
            12 => Some(Key::C),
            13 => Some(Key::D),
            14 => Some(Key::E),
            15 => Some(Key::F),
            16 => Some(Key::Exit),
            _ => None,
        }
    }
}

/// Whether some pressed keypad key (never `Exit`) carries the code `code`.
pub open spec fn key_match(keys: Seq<Key>, code: u8) -> bool {
    exists|j: int| 0 <= j < keys.len() && keys[j] != Key::Exit && keys[j].spec_code() == code
}

/// The first pressed key that is not the exit signal, if any; the key a
/// blocking key-wait instruction accepts.
pub open spec fn first_non_exit(keys: Seq<Key>) -> Option<Key>
    decreases keys.len(),
{
    if keys.len() == 0 {
        None
    } else if keys[0] != Key::Exit {
        Some(keys[0])
    } else {
        first_non_exit(keys.skip(1))
    }
}

} // verus!
