//! Small verified text utilities shared by the color and rendering modules:
//! decimal rendering of bytes, hexadecimal digits, and character-wise string
//! comparison.

use vstd::prelude::*;
use vstd::string::StrSliceExecFns;
use vstd::string::StringExecFns;

verus! {

/// The character for a single decimal digit value.
pub open spec fn digit_char_spec(d: int) -> char {
    if d == 0 {
        '0'
    } else if d == 1 {
        '1'
    } else if d == 2 {
        '2'
    } else if d == 3 {
        '3'
    } else if d == 4 {
        '4'
    } else if d == 5 {
        '5'
    } else if d == 6 {
        '6'
    } else if d == 7 {
        '7'
    } else if d == 8 {
        '8'
    } else {
        '9'
    }
}

/// The decimal digit string of a non-negative integer, without leading zeros.
pub open spec fn dec_seq_spec(n: int) -> Seq<char>
    decreases n,
{
    if n < 10 {
        seq![digit_char_spec(n)]
    } else {
        dec_seq_spec(n / 10) + seq![digit_char_spec(n % 10)]
    }
}

/// The lowercase hexadecimal character for a digit value below sixteen.
pub open spec fn hex_char_spec(d: int) -> char {
    if d < 10 {
        digit_char_spec(d)
    } else if d == 10 {
        'a'
    } else if d == 11 {
        'b'
    } else if d == 12 {
        'c'
    } else if d == 13 {
        'd'
    } else if d == 14 {
        'e'
    } else {
        'f'
    }
}

/// Whether a character is a hexadecimal digit, in either case.
pub open spec fn is_hex_digit_spec(c: char) -> bool {
    hex_val_spec(c) < 16
}

/// The value of a hexadecimal digit character; sixteen for any other character.
pub open spec fn hex_val_spec(c: char) -> int {
    if c == '0' {
        0
    } else if c == '1' {
        1
    } else if c == '2' {
        2
    } else if c == '3' {
        3
    } else if c == '4' {
        4
    } else if c == '5' {
        5
    } else if c == '6' {
        6
    } else if c == '7' {
        7
    } else if c == '8' {
        8
    } else if c == '9' {
        9
    } else if c == 'a' || c == 'A' {
        10
    } else if c == 'b' || c == 'B' {
        11
    } else if c == 'c' || c == 'C' {
        12
    } else if c == 'd' || c == 'D' {
        13
    } else if c == 'e' || c == 'E' {
        14
    } else if c == 'f' || c == 'F' {
        15
    } else {
        16
    }
}

/// A lowercase hexadecimal digit evaluates back to the value it was made from.
pub proof fn lemma_hex_char_val(d: int)
    requires
        0 <= d < 16,
    ensures
        hex_val_spec(hex_char_spec(d)) == d,
        is_hex_digit_spec(hex_char_spec(d)),
{
}

/// Appends one decimal digit character to a string.
pub fn push_digit(s: &mut String, d: u8)
    requires
        d < 10,
    ensures
        final(s)@ == old(s)@ + seq![digit_char_spec(d as int)],
{
    proof {
        reveal_strlit("0");
        reveal_strlit("1");
        reveal_strlit("2");
        reveal_strlit("3");
        reveal_strlit("4");
        reveal_strlit("5");
        reveal_strlit("6");
        reveal_strlit("7");
        reveal_strlit("8");
        reveal_strlit("9");
    }
    match d {
        0 => s.append("0"),
        1 => s.append("1"),
        2 => s.append("2"),
        3 => s.append("3"),
        4 => s.append("4"),
        5 => s.append("5"),
        6 => s.append("6"),
        7 => s.append("7"),
        8 => s.append("8"),
        _ => s.append("9"),
    }
    proof {
        assert(final(s)@ =~= old(s)@ + seq![digit_char_spec(d as int)]);
    }
}

/// Appends the decimal digit string of a byte to a string.
pub fn push_dec(s: &mut String, n: u8)
    ensures
        final(s)@ == old(s)@ + dec_seq_spec(n as int),
{
    if n >= 100 {
        push_digit(s, n / 100);
        push_digit(s, (n / 10) % 10);
        push_digit(s, n % 10);
        proof {
            let ni = n as int;
            let q = ni / 10;
            vstd::arithmetic::div_mod::lemma_div_denominator(ni, 10, 10);
            assert(q / 10 == ni / 100);
            assert(dec_seq_spec(q) == dec_seq_spec(q / 10) + seq![digit_char_spec(q % 10)]);
            assert(dec_seq_spec(q / 10) == seq![digit_char_spec(q / 10)]);
            assert(dec_seq_spec(ni) == dec_seq_spec(q) + seq![digit_char_spec(ni % 10)]);
            assert(final(s)@ =~= old(s)@ + dec_seq_spec(n as int));
        }
    } else if n >= 10 {
        push_digit(s, n / 10);
        push_digit(s, n % 10);
        proof {
            let ni = n as int;
            assert(dec_seq_spec(ni / 10) == seq![digit_char_spec(ni / 10)]);
            assert(dec_seq_spec(ni) == dec_seq_spec(ni / 10) + seq![digit_char_spec(ni % 10)]);
            assert(final(s)@ =~= old(s)@ + dec_seq_spec(n as int));
        }
    } else {
        push_digit(s, n);
    }
}

/// The two lowercase hexadecimal digits of a byte value, high digit first.
pub open spec fn hex2_spec(n: int) -> Seq<char> {
    seq![hex_char_spec(n / 16), hex_char_spec(n % 16)]
}

/// Appends one lowercase hexadecimal digit character to a string.
pub fn push_hex_digit(s: &mut String, d: u8)
    requires
        d < 16,
    ensures
        final(s)@ == old(s)@ + seq![hex_char_spec(d as int)],
{
    if d < 10 {
        push_digit(s, d);
    } else {
        proof {
            reveal_strlit("a");
            reveal_strlit("b");
            reveal_strlit("c");
            reveal_strlit("d");
            reveal_strlit("e");
            reveal_strlit("f");
        }
        match d {
            10 => s.append("a"),
            11 => s.append("b"),
            12 => s.append("c"),
            13 => s.append("d"),
            14 => s.append("e"),
            _ => s.append("f"),
        }
        proof {
            assert(final(s)@ =~= old(s)@ + seq![hex_char_spec(d as int)]);
        }
    }
}

/// Appends the two-digit lowercase hexadecimal form of a byte to a string.
pub fn push_hex2(s: &mut String, n: u8)
    ensures
        final(s)@ == old(s)@ + hex2_spec(n as int),
{
    push_hex_digit(s, n / 16);
    push_hex_digit(s, n % 16);
    proof {
        assert(final(s)@ =~= old(s)@ + hex2_spec(n as int));
    }
}

/// Compares two string slices character by character.
pub fn str_eq(a: &str, b: &str) -> (r: bool)
    ensures
        r == (a@ == b@),
{
    let alen = a.unicode_len();
    let blen = b.unicode_len();
    if alen != blen {
        return false;
    }
    let mut i: usize = 0;
    while i < alen
        invariant
            i <= alen,
            alen == a@.len(),
            alen == b@.len(),
            forall|j: int| 0 <= j < i ==> a@[j] == b@[j],
        decreases alen - i,
    {
        if a.get_char(i) != b.get_char(i) {
            return false;
        }
        i = i + 1;
    }
    proof {
        assert(a@ =~= b@);
    }
    true
}

} // verus!
