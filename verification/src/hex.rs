//! Lowercase hexadecimal rendering of wire integers.
//!
//! Every code type renders to the hexadecimal digits of its original wire
//! integer; handles render zero-padded with a `0x` prefix.  These verified
//! formatters stand in for the formatting-trait implementations a plain
//! Rust crate would carry.

use vstd::prelude::*;

use crate::utf16::push_char;

verus! {

/// The lowercase hexadecimal digit of a value below 16.
pub open spec fn spec_hex_digit(n: int) -> char {
    if n == 0 {
        '0'
    } else if n == 1 {
        '1'
    } else if n == 2 {
        '2'
    } else if n == 3 {
        '3'
    } else if n == 4 {
        '4'
    } else if n == 5 {
        '5'
    } else if n == 6 {
        '6'
    } else if n == 7 {
        '7'
    } else if n == 8 {
        '8'
    } else if n == 9 {
        '9'
    } else if n == 10 {
        'a'
    } else if n == 11 {
        'b'
    } else if n == 12 {
        'c'
    } else if n == 13 {
        'd'
    } else if n == 14 {
        'e'
    } else {
        'f'
    }
}

/// The minimal lowercase hexadecimal digits of a value, most significant
/// first.
pub open spec fn spec_hex_digits(n: int) -> Seq<char>
    decreases n,
{
    if n < 16 {
        seq![spec_hex_digit(n)]
    } else {
        spec_hex_digits(n / 16) + seq![spec_hex_digit(n % 16)]
    }
}

/// The eight lowercase hexadecimal digits of a `u32`, most significant
/// first.
pub open spec fn spec_hex8(n: u32) -> Seq<char> {
    seq![
        spec_hex_digit((n as int / 0x10000000) % 16),
        spec_hex_digit((n as int / 0x1000000) % 16),
        spec_hex_digit((n as int / 0x100000) % 16),
        spec_hex_digit((n as int / 0x10000) % 16),
        spec_hex_digit((n as int / 0x1000) % 16),
        spec_hex_digit((n as int / 0x100) % 16),
        spec_hex_digit((n as int / 0x10) % 16),
        spec_hex_digit(n as int % 16),
    ]
}

/// One lowercase hexadecimal digit.
pub fn hex_digit(n: u8) -> (r: char)
    requires
        n < 16,
    ensures
        r == spec_hex_digit(n as int),
{
    if n == 0 {
        '0'
    } else if n == 1 {
        '1'
    } else if n == 2 {
        '2'
    } else if n == 3 {
        '3'
    } else if n == 4 {
        '4'
    } else if n == 5 {
        '5'
    } else if n == 6 {
        '6'
    } else if n == 7 {
        '7'
    } else if n == 8 {
        '8'
    } else if n == 9 {
        '9'
    } else if n == 10 {
        'a'
    } else if n == 11 {
        'b'
    } else if n == 12 {
        'c'
    } else if n == 13 {
        'd'
    } else if n == 14 {
        'e'
    } else {
        'f'
    }
}

/// The minimal lowercase hexadecimal rendering of a `u16`, as
/// `{:x}`-formatting would give it.
pub fn hex_u16_lower(n: u16) -> (r: String)
    ensures
        r@ == spec_hex_digits(n as int),
    decreases n,
{
    if n < 16 {
        let mut s = String::new();
        push_char(&mut s, hex_digit(n as u8));
        proof {
            assert(s@ =~= spec_hex_digits(n as int));
        }
        s
    } else {
        let mut s = hex_u16_lower(n / 16);
        push_char(&mut s, hex_digit((n % 16) as u8));
        proof {
            assert(s@ =~= spec_hex_digits(n as int));
        }
        s
    }
}

/// The lowercase hexadecimal rendering of a `u32`, zero-padded to eight
/// digits and prefixed with `0x`.
pub fn hex_u32_prefixed(n: u32) -> (r: String)
    ensures
        r@ == seq!['0', 'x'] + spec_hex8(n),
{
    let mut s = String::new();
    push_char(&mut s, '0');
    push_char(&mut s, 'x');
    push_char(&mut s, hex_digit(((n / 0x10000000) % 16) as u8));
    push_char(&mut s, hex_digit(((n / 0x1000000) % 16) as u8));
    push_char(&mut s, hex_digit(((n / 0x100000) % 16) as u8));
    push_char(&mut s, hex_digit(((n / 0x10000) % 16) as u8));
    push_char(&mut s, hex_digit(((n / 0x1000) % 16) as u8));
    push_char(&mut s, hex_digit(((n / 0x100) % 16) as u8));
    push_char(&mut s, hex_digit(((n / 0x10) % 16) as u8));
    push_char(&mut s, hex_digit((n % 16) as u8));
    proof {
        assert(s@ =~= seq!['0', 'x'] + spec_hex8(n));
    }
    s
}


/// The uppercase hexadecimal digit of a value below 16.
pub open spec fn spec_hex_digit_upper(n: int) -> char {
    if n == 10 {
        'A'
    } else if n == 11 {
        'B'
    } else if n == 12 {
        'C'
    } else if n == 13 {
        'D'
    } else if n == 14 {
        'E'
    } else if n == 15 {
        'F'
    } else {
        spec_hex_digit(n)
    }
}

/// The hexadecimal digit of a value below 16, in the requested case.
pub open spec fn spec_hex_digit_case(n: int, upper: bool) -> char {
    if upper {
        spec_hex_digit_upper(n)
    } else {
        spec_hex_digit(n)
    }
}

/// The hexadecimal digits of a value, zero-padded to `width` digits, in
/// the requested case.
pub open spec fn spec_hex_pad(n: int, width: nat, upper: bool) -> Seq<char>
    decreases width,
{
    if width == 0 {
        Seq::<char>::empty()
    } else {
        spec_hex_pad(n / 16, (width - 1) as nat, upper) + seq![spec_hex_digit_case(n % 16, upper)]
    }
}

/// One hexadecimal digit in the requested case.
pub fn hex_digit_case(n: u8, upper: bool) -> (r: char)
    requires
        n < 16,
    ensures
        r == spec_hex_digit_case(n as int, upper),
{
    if upper {
        if n == 10 {
            'A'
        } else if n == 11 {
            'B'
        } else if n == 12 {
            'C'
        } else if n == 13 {
            'D'
        } else if n == 14 {
            'E'
        } else if n == 15 {
            'F'
        } else {
            hex_digit(n)
        }
    } else {
        hex_digit(n)
    }
}

/// The hexadecimal rendering of a `u64`, zero-padded to `width` digits, in
/// the requested case.
pub fn hex_pad_u64(n: u64, width: u8, upper: bool) -> (r: String)
    ensures
        r@ == spec_hex_pad(n as int, width as nat, upper),
    decreases width,
{
    if width == 0 {
        String::new()
    } else {
        let mut s = hex_pad_u64(n / 16, width - 1, upper);
        push_char(&mut s, hex_digit_case((n % 16) as u8, upper));
        proof {
            assert((n as int) / 16 == (n / 16) as int);
            assert(s@ =~= spec_hex_pad(n as int, width as nat, upper));
        }
        s
    }
}

} // verus!
