//! Builds the ANSI escape sequences that select and reset the foreground
//! color: `ESC [ 38 ; 5 ; index m` for one of the sixteen standard colors,
//! `ESC [ 38 ; 2 ; r ; g ; b m` for an RGB triple, and `ESC [ 39 m` to return
//! to the default foreground.

use vstd::prelude::*;
use vstd::string::StringExecFns;

use crate::color::ansi_index;
use crate::color::ansi_index_spec;
use crate::color::Color;
use crate::text::dec_seq_spec;
use crate::text::digit_char_spec;
use crate::text::push_dec;

verus! {

/// The parameter part of the escape sequence that selects a color: the
/// 256-color form for a named color, the direct form for an RGB triple.
pub open spec fn color_param_spec(c: Color) -> Seq<char> {
    match c {
        Color::Named(n) => "5;"@ + dec_seq_spec(ansi_index_spec(n) as int),
        Color::Rgb { r, g, b } => "2;"@ + dec_seq_spec(r as int) + ";"@ + dec_seq_spec(g as int)
            + ";"@ + dec_seq_spec(b as int),
    }
}

/// The escape sequence that makes `c` the foreground color.
pub open spec fn color_on_spec(c: Color) -> Seq<char> {
    "\u{1b}[38;"@ + color_param_spec(c) + "m"@
}

/// The escape sequence that resets the foreground color to the default.
pub open spec fn color_off_spec() -> Seq<char> {
    "\u{1b}[39m"@
}

/// The suffix of `s` after the first `m`, or empty when there is none: what
/// remains once the tail of an escape sequence has been skipped.
pub open spec fn drop_through_m_spec(s: Seq<char>) -> Seq<char>
    decreases s.len(),
{
    if s.len() == 0 {
        Seq::empty()
    } else if s[0] == 'm' {
        s.drop_first()
    } else {
        drop_through_m_spec(s.drop_first())
    }
}

proof fn lemma_drop_through_m_len(s: Seq<char>)
    ensures
        drop_through_m_spec(s).len() <= s.len(),
    decreases s.len(),
{
    if s.len() > 0 && s[0] != 'm' {
        lemma_drop_through_m_len(s.drop_first());
    }
}

/// `s` with every escape sequence — an escape character through the next
/// `m` — removed: the characters that remain visible in a terminal.
pub open spec fn strip_escapes_spec(s: Seq<char>) -> Seq<char>
    decreases s.len(),
    via strip_escapes_decreases
{
    if s.len() == 0 {
        Seq::empty()
    } else if s[0] == '\u{1b}' {
        strip_escapes_spec(drop_through_m_spec(s.drop_first()))
    } else {
        seq![s[0]] + strip_escapes_spec(s.drop_first())
    }
}

#[via_fn]
proof fn strip_escapes_decreases(s: Seq<char>) {
    if s.len() > 0 && s[0] == '\u{1b}' {
        lemma_drop_through_m_len(s.drop_first());
    }
}

/// Skipping through the first `m` of `x + m + rest` yields `rest` when `x`
/// holds no `m` of its own.
proof fn lemma_drop_through_m_concat(x: Seq<char>, rest: Seq<char>)
    requires
        forall|j: int| 0 <= j < x.len() ==> x[j] != 'm',
    ensures
        drop_through_m_spec(x + seq!['m'] + rest) == rest,
    decreases x.len(),
{
    let s = x + seq!['m'] + rest;
    if x.len() == 0 {
        assert(s[0] == 'm');
        assert(s.drop_first() =~= rest);
    } else {
        assert(s[0] == x[0]);
        assert(s.drop_first() =~= x.drop_first() + seq!['m'] + rest);
        lemma_drop_through_m_concat(x.drop_first(), rest);
    }
}

/// The digits of a decimal string are neither an escape character nor `m`.
proof fn lemma_dec_seq_chars(n: int)
    ensures
        forall|j: int|
            0 <= j < dec_seq_spec(n).len() ==> (dec_seq_spec(n)[j] != 'm' && dec_seq_spec(n)[j]
                != '\u{1b}'),
    decreases n,
{
    if n < 10 {
        assert(dec_seq_spec(n).len() == 1);
        assert(dec_seq_spec(n)[0] == digit_char_spec(n));
    } else {
        lemma_dec_seq_chars(n / 10);
        let a = dec_seq_spec(n / 10);
        let b = seq![digit_char_spec(n % 10)];
        assert(dec_seq_spec(n) == a + b);
        assert forall|j: int| 0 <= j < dec_seq_spec(n).len() implies (dec_seq_spec(n)[j] != 'm'
            && dec_seq_spec(n)[j] != '\u{1b}') by {
            if j < a.len() {
                assert(dec_seq_spec(n)[j] == a[j]);
            } else {
                assert(dec_seq_spec(n)[j] == b[j - a.len()]);
            }
        }
    }
}

/// The characters between the escape character and the closing `m` of a
/// color-selecting sequence hold no `m`, so the sequence ends at its own
/// closing `m`.
proof fn lemma_color_param_chars(c: Color)
    ensures
        forall|j: int|
            0 <= j < color_param_spec(c).len() ==> (color_param_spec(c)[j] != 'm'
                && color_param_spec(c)[j] != '\u{1b}'),
{
    reveal_strlit("5;");
    reveal_strlit("2;");
    reveal_strlit(";");
    match c {
        Color::Named(n) => {
            lemma_dec_seq_chars(ansi_index_spec(n) as int);
        },
        Color::Rgb { r, g, b } => {
            lemma_dec_seq_chars(r as int);
            lemma_dec_seq_chars(g as int);
            lemma_dec_seq_chars(b as int);
        },
    }
}

/// Stripping a string that opens with a color-selecting escape sequence
/// strips exactly that sequence first.
pub proof fn lemma_strip_color_on(c: Color, rest: Seq<char>)
    ensures
        strip_escapes_spec(color_on_spec(c) + rest) == strip_escapes_spec(rest),
{
    reveal_strlit("\u{1b}[38;");
    reveal_strlit("m");
    let s = color_on_spec(c) + rest;
    let x = seq!['[', '3', '8', ';'] + color_param_spec(c);
    assert(s[0] == '\u{1b}');
    assert(s.drop_first() =~= x + seq!['m'] + rest);
    lemma_color_param_chars(c);
    assert(forall|j: int| 0 <= j < x.len() ==> x[j] != 'm');
    lemma_drop_through_m_concat(x, rest);
}

/// Stripping a string that opens with the color-resetting escape sequence
/// strips exactly that sequence first.
pub proof fn lemma_strip_color_off(rest: Seq<char>)
    ensures
        strip_escapes_spec(color_off_spec() + rest) == strip_escapes_spec(rest),
{
    reveal_strlit("\u{1b}[39m");
    let s = color_off_spec() + rest;
    let x = seq!['[', '3', '9'];
    assert(s[0] == '\u{1b}');
    assert(s.drop_first() =~= x + seq!['m'] + rest);
    assert(forall|j: int| 0 <= j < x.len() ==> x[j] != 'm');
    lemma_drop_through_m_concat(x, rest);
}

/// Characters that are not the escape character pass through stripping
/// unchanged.
pub proof fn lemma_strip_plain(x: Seq<char>, rest: Seq<char>)
    requires
        forall|j: int| 0 <= j < x.len() ==> x[j] != '\u{1b}',
    ensures
        strip_escapes_spec(x + rest) == x + strip_escapes_spec(rest),
    decreases x.len(),
{
    let s = x + rest;
    if x.len() == 0 {
        assert(s =~= rest);
        assert(x + strip_escapes_spec(rest) =~= strip_escapes_spec(rest));
    } else {
        assert(s[0] == x[0]);
        assert(s.drop_first() =~= x.drop_first() + rest);
        lemma_strip_plain(x.drop_first(), rest);
        assert(seq![x[0]] + (x.drop_first() + strip_escapes_spec(rest)) =~= x
            + strip_escapes_spec(rest));
    }
}

/// Appends the escape sequence that selects `c` as the foreground color.
pub fn push_color_on(s: &mut String, c: &Color)
    ensures
        final(s)@ == old(s)@ + color_on_spec(*c),
{
    s.append("\u{1b}[38;");
    match *c {
        Color::Named(n) => {
            s.append("5;");
            push_dec(s, ansi_index(n));
        },
        Color::Rgb { r, g, b } => {
            s.append("2;");
            push_dec(s, r);
            s.append(";");
            push_dec(s, g);
            s.append(";");
            push_dec(s, b);
        },
    }
    s.append("m");
    proof {
        assert(final(s)@ =~= old(s)@ + color_on_spec(*c));
    }
}

/// Appends the escape sequence that resets the foreground color.
pub fn push_color_off(s: &mut String)
    ensures
        final(s)@ == old(s)@ + color_off_spec(),
{
    s.append("\u{1b}[39m");
}

} // verus!
