use vstd::prelude::*;
use vstd::string::StringExecFns;

verus! {

/// The lowercase hexadecimal digit for one value below sixteen.
pub open spec fn hex_digit(n: u8) -> char
    recommends
        n < 16,
{
    if n == 0 {
        '0'
    } else if n == 1 {
        '1'
    } else if n == 2 {
        '2'
    } else if n == 3 {
        '3'
    } else if n == 4 {
        '4'
    } else if n == 5 {
        '5'
    } else if n == 6 {
        '6'
    } else if n == 7 {
        '7'
    } else if n == 8 {
        '8'
    } else if n == 9 {
        '9'
    } else if n == 10 {
        'a'
    } else if n == 11 {
        'b'
    } else if n == 12 {
        'c'
    } else if n == 13 {
        'd'
    } else if n == 14 {
        'e'
    } else {
        'f'
    }
}

/// The eight-digit, zero-padded, lowercase hexadecimal rendering of a
/// 32-bit checksum, most significant nibble first.
pub open spec fn hex32(x: u32) -> Seq<char> {
    seq![
        hex_digit(((x >> 28) & 0xf) as u8),
        hex_digit(((x >> 24) & 0xf) as u8),
        hex_digit(((x >> 20) & 0xf) as u8),
        hex_digit(((x >> 16) & 0xf) as u8),
        hex_digit(((x >> 12) & 0xf) as u8),
        hex_digit(((x >> 8) & 0xf) as u8),
        hex_digit(((x >> 4) & 0xf) as u8),
        hex_digit((x & 0xf) as u8),
    ]
}

fn hex_digit_str(n: u8) -> (r: &'static str)
    requires
        n < 16,
    ensures
        r@.len() == 1,
        r@[0] == hex_digit(n),
{
    if n == 0 {
        proof {
            reveal_strlit("0");
        }
        "0"
    } else if n == 1 {
        proof {
            reveal_strlit("1");
        }
        "1"
    } else if n == 2 {
        proof {
            reveal_strlit("2");
        }
        "2"
    } else if n == 3 {
        proof {
            reveal_strlit("3");
        }
        "3"
    } else if n == 4 {
        proof {
            reveal_strlit("4");
        }
        "4"
    } else if n == 5 {
        proof {
            reveal_strlit("5");
        }
        "5"
    } else if n == 6 {
        proof {
            reveal_strlit("6");
        }
        "6"
    } else if n == 7 {
        proof {
            reveal_strlit("7");
        }
        "7"
    } else if n == 8 {
        proof {
            reveal_strlit("8");
        }
        "8"
    } else if n == 9 {
        proof {
            reveal_strlit("9");
        }
        "9"
    } else if n == 10 {
        proof {
            reveal_strlit("a");
        }
        "a"
    } else if n == 11 {
        proof {
            reveal_strlit("b");
        }
        "b"
    } else if n == 12 {
        proof {
            reveal_strlit("c");
        }
        "c"
    } else if n == 13 {
        proof {
            reveal_strlit("d");
        }
        "d"
    } else if n == 14 {
        proof {
            reveal_strlit("e");
        }
        "e"
    } else {
        proof {
            reveal_strlit("f");
        }
        "f"
    }
}

/// Render a checksum as eight zero-padded lowercase hexadecimal digits.
pub fn checksum_hex(x: u32) -> (r: String)
    ensures
        r@ == hex32(x),
{
    proof {
        assert((x >> 28) & 0xf < 16 && (x >> 24) & 0xf < 16 && (x >> 20) & 0xf < 16 && (x >> 16)
            & 0xf < 16 && (x >> 12) & 0xf < 16 && (x >> 8) & 0xf < 16 && (x >> 4) & 0xf < 16 && x
            & 0xf < 16) by (bit_vector);
    }
    let mut s = String::new();
    s.append(hex_digit_str(((x >> 28) & 0xf) as u8));
    s.append(hex_digit_str(((x >> 24) & 0xf) as u8));
    s.append(hex_digit_str(((x >> 20) & 0xf) as u8));
    s.append(hex_digit_str(((x >> 16) & 0xf) as u8));
    s.append(hex_digit_str(((x >> 12) & 0xf) as u8));
    s.append(hex_digit_str(((x >> 8) & 0xf) as u8));
    s.append(hex_digit_str(((x >> 4) & 0xf) as u8));
    s.append(hex_digit_str((x & 0xf) as u8));
    proof {
        assert(s@ =~= hex32(x));
    }
    s
}

} // verus!
