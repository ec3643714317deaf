//! Rendering of numbers into the stable human-readable strings that the
//! analysis records carry.

use vstd::prelude::*;

verus! {

/// The decimal digit character for a value in `[0, 9]`.
pub open spec fn digit_char(d: int) -> char {
    if d == 0 {
        '0'
    } else if d == 1 {
        '1'
    } else if d == 2 {
        '2'
    } else if d == 3 {
        '3'
    } else if d == 4 {
        '4'
    } else if d == 5 {
        '5'
    } else if d == 6 {
        '6'
    } else if d == 7 {
        '7'
    } else if d == 8 {
        '8'
    } else {
        '9'
    }
}

/// The decimal rendering of a non-negative integer, most significant digit
/// first, without leading zeros.
pub open spec fn dec_rep(n: int) -> Seq<char>
    recommends
        n >= 0,
    decreases n,
{
    if n < 10 {
        seq![digit_char(n)]
    } else {
        dec_rep(n / 10).push(digit_char(n % 10))
    }
}

/// The decimal rendering of an integer, with a leading `-` when negative.
pub open spec fn dec_int_rep(n: int) -> Seq<char> {
    if n < 0 {
        seq!['-'] + dec_rep(-n)
    } else {
        dec_rep(n)
    }
}

fn digit_str(d: u8) -> (r: &'static str)
    requires
        d < 10,
    ensures
        r@ == seq![digit_char(d as int)],
{
    let r: &'static str = match d {
        0 => "0",
        1 => "1",
        2 => "2",
        3 => "3",
        4 => "4",
        5 => "5",
        6 => "6",
        7 => "7",
        8 => "8",
        _ => "9",
    };
    proof {
        reveal_strlit("0");
        reveal_strlit("1");
        reveal_strlit("2");
        reveal_strlit("3");
        reveal_strlit("4");
        reveal_strlit("5");
        reveal_strlit("6");
        reveal_strlit("7");
        reveal_strlit("8");
        reveal_strlit("9");
        assert(r@ =~= seq![digit_char(d as int)]);
    }
    r
}

/// Appends the decimal rendering of `n` to `out`.
pub fn push_dec_u64(out: &mut String, n: u64)
    ensures
        final(out)@ == old(out)@ + dec_rep(n as int),
    decreases n,
{
    if n >= 10 {
        push_dec_u64(out, n / 10);
        out.append(digit_str((n % 10) as u8));
        proof {
            assert(dec_rep(n as int) =~= dec_rep(n as int / 10) + seq![
                digit_char(n as int % 10),
            ]);
        }
    } else {
        out.append(digit_str(n as u8));
    }
}

/// The decimal rendering of a `u64` as a fresh string.
pub fn u64_to_dec(n: u64) -> (s: String)
    ensures
        s@ == dec_rep(n as int),
{
    let mut s = String::from_str("");
    proof {
        reveal_strlit("");
        assert(s@ =~= Seq::<char>::empty());
    }
    push_dec_u64(&mut s, n);
    proof {
        assert(Seq::<char>::empty() + dec_rep(n as int) =~= dec_rep(n as int));
    }
    s
}

/// The decimal rendering of an `i64` as a fresh string.
pub fn i64_to_dec(n: i64) -> (s: String)
    ensures
        s@ == dec_int_rep(n as int),
{
    if n >= 0 {
        u64_to_dec(n as u64)
    } else {
        let mag: u64 = ((-(n + 1)) as u64) + 1;
        assert(mag as int == -(n as int));
        let mut s = String::from_str("-");
        proof {
            reveal_strlit("-");
            assert(s@ =~= seq!['-']);
        }
        push_dec_u64(&mut s, mag);
        s
    }
}

/// The hexadecimal digit character for a value in `[0, 15]`, lower case.
pub open spec fn hex_digit_char(d: int) -> char {
    if d < 10 {
        digit_char(d)
    } else if d == 10 {
        'a'
    } else if d == 11 {
        'b'
    } else if d == 12 {
        'c'
    } else if d == 13 {
        'd'
    } else if d == 14 {
        'e'
    } else {
        'f'
    }
}

/// The eight hexadecimal digits of a 32-bit value, most significant first.
pub open spec fn hex32(n: u32) -> Seq<char> {
    seq![
        hex_digit_char((n / 0x1000_0000) as int % 16),
        hex_digit_char((n / 0x100_0000) as int % 16),
        hex_digit_char((n / 0x10_0000) as int % 16),
        hex_digit_char((n / 0x1_0000) as int % 16),
        hex_digit_char((n / 0x1000) as int % 16),
        hex_digit_char((n / 0x100) as int % 16),
        hex_digit_char((n / 0x10) as int % 16),
        hex_digit_char(n as int % 16),
    ]
}

fn hex_digit_str(d: u8) -> (r: &'static str)
    requires
        d < 16,
    ensures
        r@ == seq![hex_digit_char(d as int)],
{
    if d < 10 {
        digit_str(d)
    } else {
        let r: &'static str = match d {
            10 => "a",
            11 => "b",
            12 => "c",
            13 => "d",
            14 => "e",
            _ => "f",
        };
        proof {
            reveal_strlit("a");
            reveal_strlit("b");
            reveal_strlit("c");
            reveal_strlit("d");
            reveal_strlit("e");
            reveal_strlit("f");
            assert(r@ =~= seq![hex_digit_char(d as int)]);
        }
        r
    }
}

/// Renders a 32-bit value as `0x` followed by eight lower-case hex digits.
pub fn u32_to_hex(n: u32) -> (s: String)
    ensures
        s@ == seq!['0', 'x'] + hex32(n),
{
    let mut s = String::from_str("0x");
    proof {
        reveal_strlit("0x");
        assert(s@ =~= seq!['0', 'x']);
    }
    s.append(hex_digit_str(((n / 0x1000_0000) % 16) as u8));
    s.append(hex_digit_str(((n / 0x100_0000) % 16) as u8));
    s.append(hex_digit_str(((n / 0x10_0000) % 16) as u8));
    s.append(hex_digit_str(((n / 0x1_0000) % 16) as u8));
    s.append(hex_digit_str(((n / 0x1000) % 16) as u8));
    s.append(hex_digit_str(((n / 0x100) % 16) as u8));
    s.append(hex_digit_str(((n / 0x10) % 16) as u8));
    s.append(hex_digit_str((n % 16) as u8));
    proof {
        assert(s@ =~= seq!['0', 'x'] + hex32(n));
    }
    s
}

} // verus!
