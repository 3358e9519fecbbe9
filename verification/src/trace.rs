//! Rendering of the startup probe trace.
//!
//! Each probe line shows a byte-sized address in hexadecimal and a
//! raw byte in binary, `0x48 - 0b01001000` for example. The exact
//! framing is a debug convenience, not a contract surface, but the
//! renderer is pinned down character by character all the same.

use vstd::prelude::*;

verus! {

/// The hexadecimal digit for a value below 16.
pub open spec fn hex_char(n: int) -> char {
    if n == 0 {
        '0'
    } else if n == 1 {
        '1'
    } else if n == 2 {
        '2'
    } else if n == 3 {
        '3'
    } else if n == 4 {
        '4'
    } else if n == 5 {
        '5'
    } else if n == 6 {
        '6'
    } else if n == 7 {
        '7'
    } else if n == 8 {
        '8'
    } else if n == 9 {
        '9'
    } else if n == 10 {
        'A'
    } else if n == 11 {
        'B'
    } else if n == 12 {
        'C'
    } else if n == 13 {
        'D'
    } else if n == 14 {
        'E'
    } else {
        'F'
    }
}

/// The binary digit for one extracted bit.
pub open spec fn bin_char(b: int) -> char {
    if b == 1 {
        '1'
    } else {
        '0'
    }
}

/// Bit `i` of a byte value, bit 7 being the most significant.
pub open spec fn bit_of(v: int, i: int) -> int {
    (v / pow2_spec(i)) % 2
}

/// The powers of two a byte holds bits at.
pub open spec fn pow2_spec(i: int) -> int
    recommends
        0 <= i < 8,
{
    if i <= 0 {
        1
    } else if i == 1 {
        2
    } else if i == 2 {
        4
    } else if i == 3 {
        8
    } else if i == 4 {
        16
    } else if i == 5 {
        32
    } else if i == 6 {
        64
    } else {
        128
    }
}

/// The probe trace line for a register address and a raw byte: the
/// address in two hexadecimal digits, the byte in eight binary
/// digits.
pub open spec fn trace_spec(addr: int, value: int) -> Seq<char> {
    seq![
        '0',
        'x',
        hex_char(addr / 16),
        hex_char(addr % 16),
        ' ',
        '-',
        ' ',
        '0',
        'b',
        bin_char(bit_of(value, 7)),
        bin_char(bit_of(value, 6)),
        bin_char(bit_of(value, 5)),
        bin_char(bit_of(value, 4)),
        bin_char(bit_of(value, 3)),
        bin_char(bit_of(value, 2)),
        bin_char(bit_of(value, 1)),
        bin_char(bit_of(value, 0)),
    ]
}

/// The one-character string of a hexadecimal digit.
fn hex_digit_str(n: u8) -> (r: &'static str)
    requires
        n < 16,
    ensures
        r@.len() == 1,
        r@[0] == hex_char(n as int),
{
    proof {
        reveal_strlit("0");
        reveal_strlit("1");
        reveal_strlit("2");
        reveal_strlit("3");
        reveal_strlit("4");
        reveal_strlit("5");
        reveal_strlit("6");
        reveal_strlit("7");
        reveal_strlit("8");
        reveal_strlit("9");
        reveal_strlit("A");
        reveal_strlit("B");
        reveal_strlit("C");
        reveal_strlit("D");
        reveal_strlit("E");
        reveal_strlit("F");
    }
    if n == 0 {
        "0"
    } else if n == 1 {
        "1"
    } else if n == 2 {
        "2"
    } else if n == 3 {
        "3"
    } else if n == 4 {
        "4"
    } else if n == 5 {
        "5"
    } else if n == 6 {
        "6"
    } else if n == 7 {
        "7"
    } else if n == 8 {
        "8"
    } else if n == 9 {
        "9"
    } else if n == 10 {
        "A"
    } else if n == 11 {
        "B"
    } else if n == 12 {
        "C"
    } else if n == 13 {
        "D"
    } else if n == 14 {
        "E"
    } else {
        "F"
    }
}

/// The one-character string of a binary digit.
fn bin_digit_str(b: u8) -> (r: &'static str)
    requires
        b < 2,
    ensures
        r@.len() == 1,
        r@[0] == bin_char(b as int),
{
    proof {
        reveal_strlit("0");
        reveal_strlit("1");
    }
    if b == 1 {
        "1"
    } else {
        "0"
    }
}

/// Bit `i` of `value`, bit 7 being the most significant.
fn extract_bit(value: u8, i: u8) -> (b: u8)
    requires
        i < 8,
    ensures
        b as int == bit_of(value as int, i as int),
        b < 2,
{
    let divisor: u8 = if i == 0 {
        1
    } else if i == 1 {
        2
    } else if i == 2 {
        4
    } else if i == 3 {
        8
    } else if i == 4 {
        16
    } else if i == 5 {
        32
    } else if i == 6 {
        64
    } else {
        128
    };
    (value / divisor) % 2
}

/// Render one probe trace line: `addr` as two hexadecimal digits,
/// `value` as eight binary digits.
pub fn render_trace(addr: u8, value: u8) -> (r: String)
    ensures
        r@ == trace_spec(addr as int, value as int),
{
    let mut s = String::new();
    s.append("0x");
    s.append(hex_digit_str(addr / 16));
    s.append(hex_digit_str(addr % 16));
    s.append(" - 0b");
    proof {
        reveal_strlit("0x");
        reveal_strlit(" - 0b");
    }
    let mut i: u8 = 8;
    while i > 0
        invariant
            i <= 8,
            s@.len() == 9 + (8 - i),
            s@[0] == '0',
            s@[1] == 'x',
            s@[2] == hex_char(addr as int / 16),
            s@[3] == hex_char(addr as int % 16),
            s@[4] == ' ',
            s@[5] == '-',
            s@[6] == ' ',
            s@[7] == '0',
            s@[8] == 'b',
            forall|k: int| 8 < k < s@.len() ==> s@[k] == bin_char(bit_of(value as int, 16 - k)),
        decreases i,
    {
        i = i - 1;
        s.append(bin_digit_str(extract_bit(value, i)));
    }
    proof {
        assert(s@ =~= trace_spec(addr as int, value as int));
    }
    s
}

} // verus!
