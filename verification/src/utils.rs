//! Helpers on raw 2-byte instruction words: numeric and hexadecimal views.

use vstd::prelude::*;
use vstd::string::StringExecFns;

verus! {

/// The big-endian 16-bit value of two instruction bytes.
pub open spec fn spec_u16_of_be(b0: u8, b1: u8) -> u16 {
    ((b0 as u16) << 8) | (b1 as u16)
}

/// The uppercase hexadecimal digit for a nibble value.
pub open spec fn hex_digit(n: u8) -> char {
    if n == 0 {
        '0'
    } else if n == 1 {
        '1'
    } else if n == 2 {
        '2'
    } else if n == 3 {
        '3'
    } else if n == 4 {
        '4'
    } else if n == 5 {
        '5'
    } else if n == 6 {
        '6'
    } else if n == 7 {
        '7'
    } else if n == 8 {
        '8'
    } else if n == 9 {
        '9'
    } else if n == 10 {
        'A'
    } else if n == 11 {
        'B'
    } else if n == 12 {
        'C'
    } else if n == 13 {
        'D'
    } else if n == 14 {
        'E'
    } else {
        'F'
    }
}

/// The two uppercase hexadecimal digits of a byte.
pub open spec fn hex_of_byte(b: u8) -> Seq<char> {
    seq![hex_digit(b >> 4), hex_digit(b & 0x0F)]
}

/// Combine a raw 2-byte instruction into its big-endian 16-bit value.
pub fn inst_array_to_u16(inst: [u8; 2]) -> (r: u16)
    ensures
        r == spec_u16_of_be(inst[0], inst[1]),
{
    ((inst[0] as u16) << 8) | inst[1] as u16
}

/// The one-character string for a nibble's hexadecimal digit.
fn hex_digit_str(n: u8) -> (r: &'static str)
    requires
        n < 16,
    ensures
        r@ == seq![hex_digit(n)],
{
    match n {
        0 => {
            proof { reveal_strlit("0"); }
            "0"
        },
        1 => {
            proof { reveal_strlit("1"); }
            "1"
        },
        2 => {
            proof { reveal_strlit("2"); }
            "2"
        },
        3 => {
            proof { reveal_strlit("3"); }
            "3"
        },
        4 => {
            proof { reveal_strlit("4"); }
            "4"
        },
        5 => {
            proof { reveal_strlit("5"); }
            "5"
        },
        6 => {
            proof { reveal_strlit("6"); }
            "6"
        },
        7 => {
            proof { reveal_strlit("7"); }
            "7"
        },
        8 => {
            proof { reveal_strlit("8"); }
            "8"
        },
        9 => {
            proof { reveal_strlit("9"); }
            "9"
        },
        10 => {
            proof { reveal_strlit("A"); }
            "A"
        },
        11 => {
            proof { reveal_strlit("B"); }
            "B"
        },
        12 => {
            proof { reveal_strlit("C"); }
            "C"
        },
        13 => {
            proof { reveal_strlit("D"); }
            "D"
        },
        14 => {
            proof { reveal_strlit("E"); }
            "E"
        },
        _ => {
            proof { reveal_strlit("F"); }
            "F"
        },
    }
}

/// Render a raw 2-byte instruction as four uppercase hexadecimal digits.
pub fn format_instruction(inst: [u8; 2]) -> (r: String)
    ensures
        r@ == hex_of_byte(inst[0]) + hex_of_byte(inst[1]),
{
    let b0 = inst[0];
    let b1 = inst[1];
    assert(b0 >> 4 < 16 && (b0 & 0x0F) < 16 && b1 >> 4 < 16 && (b1 & 0x0F) < 16)
        by (bit_vector);
    let mut s = String::new();
    s.append(hex_digit_str(b0 >> 4));
    s.append(hex_digit_str(b0 & 0x0F));
    s.append(hex_digit_str(b1 >> 4));
    s.append(hex_digit_str(b1 & 0x0F));
    assert(s@ =~= hex_of_byte(inst[0]) + hex_of_byte(inst[1]));
    s
}

} // verus!
