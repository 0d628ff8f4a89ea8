//! Helpers for the configuration boundary: the default settings offered to a
//! command line, and decimal range validation for the indentation argument.

use vstd::prelude::*;
use vstd::string::StrSliceExecFns;
use vstd::string::StringExecFns;

use crate::color::hex_digit_val;
use crate::color::Color;
use crate::color::ColorValue;
use crate::text::dec_seq_spec;
use crate::text::hex_val_spec;
use crate::text::push_dec;
use crate::tree::default_palette_spec;

verus! {

/// Scanning digit characters left to right, accumulating a byte value, as
/// the standard library parses an unsigned integer: the first character that
/// is no decimal digit is an invalid-digit error, a step that would push the
/// accumulator past what a byte can hold is a too-large error, and an
/// exhausted string yields the accumulated value.
pub open spec fn scan_digits_spec(s: Seq<char>, acc: int) -> Result<int, Seq<char>>
    decreases s.len(),
{
    if s.len() == 0 {
        Ok(acc)
    } else if hex_val_spec(s[0]) >= 10 {
        Err("invalid digit found in string"@)
    } else if acc * 10 + hex_val_spec(s[0]) > 255 {
        Err("number too large to fit in target type"@)
    } else {
        scan_digits_spec(s.drop_first(), acc * 10 + hex_val_spec(s[0]))
    }
}

/// Reading a byte value from a string as the standard library does: an empty
/// string is an empty-input error, one optional leading `+` is skipped (a
/// bare `+` is an invalid digit), and the rest is scanned left to right.
pub open spec fn parse_byte_spec(s: Seq<char>) -> Result<int, Seq<char>> {
    if s.len() == 0 {
        Err("cannot parse integer from empty string"@)
    } else if s[0] == '+' && s.len() == 1 {
        Err("invalid digit found in string"@)
    } else if s[0] == '+' {
        scan_digits_spec(s.drop_first(), 0)
    } else {
        scan_digits_spec(s, 0)
    }
}

/// What validating a decimal argument against an inclusive byte range
/// yields: the parsed value when it lies in `min ..= max`, and otherwise the
/// error text naming what went wrong — the parse errors in the scan order
/// above, then a value over `max`, then a value under `min`.
pub open spec fn range_result_spec(s: Seq<char>, min: u8, max: u8) -> Result<u8, Seq<char>> {
    match parse_byte_spec(s) {
        Err(e) => Err(e),
        Ok(v) => if v > max {
            Err("exceeds maximum of "@ + dec_seq_spec(max as int))
        } else if v < min {
            Err("exceeds minimum of "@ + dec_seq_spec(min as int))
        } else {
            Ok(v as u8)
        },
    }
}

/// Validates a decimal integer argument against an inclusive range: the
/// value of `arg` — an optional leading `+` and decimal digits — when it
/// lies in `min ..= max`, an error naming what went wrong otherwise.
#[verifier::loop_isolation(false)]
pub fn range(arg: &str, min: u8, max: u8) -> (r: Result<u8, String>)
    ensures
        match r {
            Ok(v) => range_result_spec(arg@, min, max) == Ok::<u8, Seq<char>>(v),
            Err(e) => range_result_spec(arg@, min, max) == Err::<u8, Seq<char>>(e@),
        },
{
    let n = arg.unicode_len();
    if n == 0 {
        return Err(String::from_str("cannot parse integer from empty string"));
    }
    let start: usize = if arg.get_char(0) == '+' {
        1
    } else {
        0
    };
    if start == 1 && n == 1 {
        return Err(String::from_str("invalid digit found in string"));
    }
    proof {
        if start == 1 {
            assert(arg@.drop_first() =~= arg@.subrange(1, n as int));
        } else {
            assert(arg@ =~= arg@.subrange(0, n as int));
        }
        assert(parse_byte_spec(arg@) == scan_digits_spec(
            arg@.subrange(start as int, n as int),
            0,
        ));
    }
    let mut acc: u32 = 0;
    let mut i: usize = start;
    while i < n
        invariant
            start <= i <= n,
            acc <= 255,
            scan_digits_spec(arg@.subrange(i as int, n as int), acc as int) == scan_digits_spec(
                arg@.subrange(start as int, n as int),
                0,
            ),
        decreases n - i,
    {
        let c = arg.get_char(i);
        let d = hex_digit_val(c);
        proof {
            assert(arg@.subrange(i as int, n as int)[0] == arg@[i as int]);
        }
        if d >= 10 {
            return Err(String::from_str("invalid digit found in string"));
        }
        if acc * 10 + (d as u32) > 255 {
            return Err(String::from_str("number too large to fit in target type"));
        }
        proof {
            assert(arg@.subrange(i as int, n as int).drop_first() =~= arg@.subrange(
                i as int + 1,
                n as int,
            ));
        }
        acc = acc * 10 + (d as u32);
        i = i + 1;
    }
    proof {
        assert(arg@.subrange(n as int, n as int) =~= Seq::<char>::empty());
        assert(parse_byte_spec(arg@) == Ok::<int, Seq<char>>(acc as int));
    }
    let v = acc as u8;
    if v > max {
        let mut e = String::from_str("exceeds maximum of ");
        push_dec(&mut e, max);
        return Err(e);
    }
    if v < min {
        let mut e = String::from_str("exceeds minimum of ");
        push_dec(&mut e, min);
        return Err(e);
    }
    Ok(v)
}

/// The default palette wrapped as color values, in order: amber, orchid and
/// azure.
pub fn default_colors() -> (r: Vec<ColorValue>)
    ensures
        r@.len() == default_palette_spec().len(),
        forall|j: int| 0 <= j < r@.len() ==> r@[j].0 == default_palette_spec()[j],
{
    let mut v: Vec<ColorValue> = Vec::new();
    v.push(ColorValue(Color::Rgb { r: 0xff, g: 0xd7, b: 0x00 }));
    v.push(ColorValue(Color::Rgb { r: 0xda, g: 0x70, b: 0xd6 }));
    v.push(ColorValue(Color::Rgb { r: 0x17, g: 0x9f, b: 0xff }));
    v
}

/// The default indentation width, in character cells per nesting level.
pub fn default_indentation() -> (r: u8)
    ensures
        r == 2,
{
    2
}

} // verus!
