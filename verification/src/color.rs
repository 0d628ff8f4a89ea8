//! The color model for branch guide lines.
//!
//! A palette entry is either one of the sixteen standard terminal colors or
//! an RGB triple; the rendering layer translates either form into the ANSI
//! escape sequence that selects it as the foreground color.

use vstd::prelude::*;
use vstd::string::StrSliceExecFns;
use vstd::string::StringExecFns;

use crate::text::hex2_spec;
use crate::text::hex_val_spec;
use crate::text::is_hex_digit_spec;
use crate::text::lemma_hex_char_val;
use crate::text::push_hex2;
use crate::text::str_eq;

verus! {

/// One of the sixteen standard terminal foreground colors.
#[derive(Copy, Clone, Debug, PartialEq, Eq, Hash, Structural)]
pub enum NamedColor {
    Black,
    DarkGrey,
    Red,
    DarkRed,
    Green,
    DarkGreen,
    Yellow,
    DarkYellow,
    Blue,
    DarkBlue,
    Magenta,
    DarkMagenta,
    Cyan,
    DarkCyan,
    White,
    Grey,
}

/// A palette entry: a standard named color or a 24-bit RGB triple.
#[derive(Copy, Clone, Debug, PartialEq, Eq, Hash, Structural)]
pub enum Color {
    Named(NamedColor),
    Rgb { r: u8, g: u8, b: u8 },
}

/// The 256-color ANSI palette index of a named color.
pub open spec fn ansi_index_spec(c: NamedColor) -> u8 {
    match c {
        NamedColor::Black => 0,
        NamedColor::DarkGrey => 8,
        NamedColor::Red => 9,
        NamedColor::DarkRed => 1,
        NamedColor::Green => 10,
        NamedColor::DarkGreen => 2,
        NamedColor::Yellow => 11,
        NamedColor::DarkYellow => 3,
        NamedColor::Blue => 12,
        NamedColor::DarkBlue => 4,
        NamedColor::Magenta => 13,
        NamedColor::DarkMagenta => 5,
        NamedColor::Cyan => 14,
        NamedColor::DarkCyan => 6,
        NamedColor::White => 15,
        NamedColor::Grey => 7,
    }
}

/// Returns the 256-color ANSI palette index of a named color.
pub fn ansi_index(c: NamedColor) -> (v: u8)
    ensures
        v == ansi_index_spec(c),
{
    match c {
        NamedColor::Black => 0,
        NamedColor::DarkGrey => 8,
        NamedColor::Red => 9,
        NamedColor::DarkRed => 1,
        NamedColor::Green => 10,
        NamedColor::DarkGreen => 2,
        NamedColor::Yellow => 11,
        NamedColor::DarkYellow => 3,
        NamedColor::Blue => 12,
        NamedColor::DarkBlue => 4,
        NamedColor::Magenta => 13,
        NamedColor::DarkMagenta => 5,
        NamedColor::Cyan => 14,
        NamedColor::DarkCyan => 6,
        NamedColor::White => 15,
        NamedColor::Grey => 7,
    }
}

/// The textual name of a named color, as accepted on the command line.
pub open spec fn name_seq_spec(c: NamedColor) -> Seq<char> {
    match c {
        NamedColor::Black => "black"@,
        NamedColor::DarkGrey => "dark_grey"@,
        NamedColor::Red => "red"@,
        NamedColor::DarkRed => "dark_red"@,
        NamedColor::Green => "green"@,
        NamedColor::DarkGreen => "dark_green"@,
        NamedColor::Yellow => "yellow"@,
        NamedColor::DarkYellow => "dark_yellow"@,
        NamedColor::Blue => "blue"@,
        NamedColor::DarkBlue => "dark_blue"@,
        NamedColor::Magenta => "magenta"@,
        NamedColor::DarkMagenta => "dark_magenta"@,
        NamedColor::Cyan => "cyan"@,
        NamedColor::DarkCyan => "dark_cyan"@,
        NamedColor::White => "white"@,
        NamedColor::Grey => "grey"@,
    }
}

/// The textual form of a color: its name, or `#` followed by six lowercase
/// hexadecimal digits.
pub open spec fn color_text_spec(c: Color) -> Seq<char> {
    match c {
        Color::Named(n) => name_seq_spec(n),
        Color::Rgb { r, g, b } => "#"@ + hex2_spec(r as int) + hex2_spec(g as int) + hex2_spec(
            b as int,
        ),
    }
}

/// The color denoted by a string: an RGB triple for `#` followed by six
/// hexadecimal digits (either case), a named color for one of the sixteen
/// color names, and nothing otherwise.
pub open spec fn parse_color_spec(s: Seq<char>) -> Option<Color> {
    if s.len() == 7 && s[0] == '#' {
        if is_hex_digit_spec(s[1]) && is_hex_digit_spec(s[2]) && is_hex_digit_spec(s[3])
            && is_hex_digit_spec(s[4]) && is_hex_digit_spec(s[5]) && is_hex_digit_spec(s[6]) {
            Some(
                Color::Rgb {
                    r: (hex_val_spec(s[1]) * 16 + hex_val_spec(s[2])) as u8,
                    g: (hex_val_spec(s[3]) * 16 + hex_val_spec(s[4])) as u8,
                    b: (hex_val_spec(s[5]) * 16 + hex_val_spec(s[6])) as u8,
                },
            )
        } else {
            None
        }
    } else if s == "black"@ {
        Some(Color::Named(NamedColor::Black))
    } else if s == "dark_grey"@ {
        Some(Color::Named(NamedColor::DarkGrey))
    } else if s == "red"@ {
        Some(Color::Named(NamedColor::Red))
    } else if s == "dark_red"@ {
        Some(Color::Named(NamedColor::DarkRed))
    } else if s == "green"@ {
        Some(Color::Named(NamedColor::Green))
    } else if s == "dark_green"@ {
        Some(Color::Named(NamedColor::DarkGreen))
    } else if s == "yellow"@ {
        Some(Color::Named(NamedColor::Yellow))
    } else if s == "dark_yellow"@ {
        Some(Color::Named(NamedColor::DarkYellow))
    } else if s == "blue"@ {
        Some(Color::Named(NamedColor::Blue))
    } else if s == "dark_blue"@ {
        Some(Color::Named(NamedColor::DarkBlue))
    } else if s == "magenta"@ {
        Some(Color::Named(NamedColor::Magenta))
    } else if s == "dark_magenta"@ {
        Some(Color::Named(NamedColor::DarkMagenta))
    } else if s == "cyan"@ {
        Some(Color::Named(NamedColor::Cyan))
    } else if s == "dark_cyan"@ {
        Some(Color::Named(NamedColor::DarkCyan))
    } else if s == "white"@ {
        Some(Color::Named(NamedColor::White))
    } else if s == "grey"@ {
        Some(Color::Named(NamedColor::Grey))
    } else {
        None
    }
}

/// A color value as exchanged with the configuration layer: a [`Color`]
/// together with its textual form and the parser that reads one.
#[derive(Copy, Clone, Debug, PartialEq, Eq, Hash, Structural)]
pub struct ColorValue(pub Color);

impl ColorValue {
    /// Returns the textual form of this color value: the color's name, or
    /// `#` followed by six lowercase hexadecimal digits.
    pub fn to_string(&self) -> (r: String)
        ensures
            r@ == color_text_spec(self.0),
    {
        match self.0 {
            Color::Named(n) => match n {
                NamedColor::Black => String::from_str("black"),
                NamedColor::DarkGrey => String::from_str("dark_grey"),
                NamedColor::Red => String::from_str("red"),
                NamedColor::DarkRed => String::from_str("dark_red"),
                NamedColor::Green => String::from_str("green"),
                NamedColor::DarkGreen => String::from_str("dark_green"),
                NamedColor::Yellow => String::from_str("yellow"),
                NamedColor::DarkYellow => String::from_str("dark_yellow"),
                NamedColor::Blue => String::from_str("blue"),
                NamedColor::DarkBlue => String::from_str("dark_blue"),
                NamedColor::Magenta => String::from_str("magenta"),
                NamedColor::DarkMagenta => String::from_str("dark_magenta"),
                NamedColor::Cyan => String::from_str("cyan"),
                NamedColor::DarkCyan => String::from_str("dark_cyan"),
                NamedColor::White => String::from_str("white"),
                NamedColor::Grey => String::from_str("grey"),
            },
            Color::Rgb { r, g, b } => {
                let mut s = String::from_str("#");
                push_hex2(&mut s, r);
                push_hex2(&mut s, g);
                push_hex2(&mut s, b);
                proof {
                    assert(s@ =~= color_text_spec(self.0));
                }
                s
            },
        }
    }
}

/// Reads a color value from its textual form.
#[derive(Clone)]
pub struct ColorValueParser {}

impl ColorValueParser {
    /// Parses a color value: `#` followed by six hexadecimal digits yields an
    /// RGB triple, one of the sixteen color names yields that named color,
    /// and anything else yields nothing.
    pub fn parse(&self, value: &str) -> (r: Option<ColorValue>)
        ensures
            match r {
                Some(cv) => parse_color_spec(value@) == Some(cv.0),
                None => parse_color_spec(value@) is None,
            },
    {
        let n = value.unicode_len();
        if n == 7 && value.get_char(0) == '#' {
            let d1 = hex_digit_val(value.get_char(1));
            let d2 = hex_digit_val(value.get_char(2));
            let d3 = hex_digit_val(value.get_char(3));
            let d4 = hex_digit_val(value.get_char(4));
            let d5 = hex_digit_val(value.get_char(5));
            let d6 = hex_digit_val(value.get_char(6));
            if d1 < 16 && d2 < 16 && d3 < 16 && d4 < 16 && d5 < 16 && d6 < 16 {
                Some(
                    ColorValue(
                        Color::Rgb { r: d1 * 16 + d2, g: d3 * 16 + d4, b: d5 * 16 + d6 },
                    ),
                )
            } else {
                None
            }
        } else if str_eq(value, "black") {
            Some(ColorValue(Color::Named(NamedColor::Black)))
        } else if str_eq(value, "dark_grey") {
            Some(ColorValue(Color::Named(NamedColor::DarkGrey)))
        } else if str_eq(value, "red") {
            Some(ColorValue(Color::Named(NamedColor::Red)))
        } else if str_eq(value, "dark_red") {
            Some(ColorValue(Color::Named(NamedColor::DarkRed)))
        } else if str_eq(value, "green") {
            Some(ColorValue(Color::Named(NamedColor::Green)))
        } else if str_eq(value, "dark_green") {
            Some(ColorValue(Color::Named(NamedColor::DarkGreen)))
        } else if str_eq(value, "yellow") {
            Some(ColorValue(Color::Named(NamedColor::Yellow)))
        } else if str_eq(value, "dark_yellow") {
            Some(ColorValue(Color::Named(NamedColor::DarkYellow)))
        } else if str_eq(value, "blue") {
            Some(ColorValue(Color::Named(NamedColor::Blue)))
        } else if str_eq(value, "dark_blue") {
            Some(ColorValue(Color::Named(NamedColor::DarkBlue)))
        } else if str_eq(value, "magenta") {
            Some(ColorValue(Color::Named(NamedColor::Magenta)))
        } else if str_eq(value, "dark_magenta") {
            Some(ColorValue(Color::Named(NamedColor::DarkMagenta)))
        } else if str_eq(value, "cyan") {
            Some(ColorValue(Color::Named(NamedColor::Cyan)))
        } else if str_eq(value, "dark_cyan") {
            Some(ColorValue(Color::Named(NamedColor::DarkCyan)))
        } else if str_eq(value, "white") {
            Some(ColorValue(Color::Named(NamedColor::White)))
        } else if str_eq(value, "grey") {
            Some(ColorValue(Color::Named(NamedColor::Grey)))
        } else {
            None
        }
    }
}

/// The textual forms the parser offers for completion: the sixteen color
/// names followed by the hexadecimal placeholder pattern.
pub open spec fn possible_values_spec() -> Seq<Seq<char>> {
    seq![
        "black"@,
        "dark_grey"@,
        "red"@,
        "dark_red"@,
        "green"@,
        "dark_green"@,
        "yellow"@,
        "dark_yellow"@,
        "blue"@,
        "dark_blue"@,
        "magenta"@,
        "dark_magenta"@,
        "cyan"@,
        "dark_cyan"@,
        "white"@,
        "grey"@,
        "#rrggbb"@,
    ]
}

impl ColorValueParser {
    /// Lists the textual forms this parser accepts, for help output and
    /// completion: the sixteen color names and the `#rrggbb` pattern.
    pub fn possible_values(&self) -> (r: Vec<String>)
        ensures
            r@.len() == possible_values_spec().len(),
            forall|j: int| 0 <= j < r@.len() ==> r@[j]@ == possible_values_spec()[j],
    {
        let mut v: Vec<String> = Vec::new();
        v.push(String::from_str("black"));
        v.push(String::from_str("dark_grey"));
        v.push(String::from_str("red"));
        v.push(String::from_str("dark_red"));
        v.push(String::from_str("green"));
        v.push(String::from_str("dark_green"));
        v.push(String::from_str("yellow"));
        v.push(String::from_str("dark_yellow"));
        v.push(String::from_str("blue"));
        v.push(String::from_str("dark_blue"));
        v.push(String::from_str("magenta"));
        v.push(String::from_str("dark_magenta"));
        v.push(String::from_str("cyan"));
        v.push(String::from_str("dark_cyan"));
        v.push(String::from_str("white"));
        v.push(String::from_str("grey"));
        v.push(String::from_str("#rrggbb"));
        v
    }
}

/// Parsing the textual form of any color yields that color back: the sixteen
/// names and the lowercase six-digit hexadecimal form round-trip exactly.
#[verifier::rlimit(60)]
pub proof fn lemma_color_text_round_trip(c: Color)
    ensures
        parse_color_spec(color_text_spec(c)) == Some(c),
{
    reveal_strlit("#");
    reveal_strlit("black");
    reveal_strlit("dark_grey");
    reveal_strlit("red");
    reveal_strlit("dark_red");
    reveal_strlit("green");
    reveal_strlit("dark_green");
    reveal_strlit("yellow");
    reveal_strlit("dark_yellow");
    reveal_strlit("blue");
    reveal_strlit("dark_blue");
    reveal_strlit("magenta");
    reveal_strlit("dark_magenta");
    reveal_strlit("cyan");
    reveal_strlit("dark_cyan");
    reveal_strlit("white");
    reveal_strlit("grey");
    match c {
        Color::Named(n) => match n {
            NamedColor::Black => assert(parse_color_spec(color_text_spec(c)) == Some(c)),
            NamedColor::DarkGrey => assert(parse_color_spec(color_text_spec(c)) == Some(c)),
            NamedColor::Red => assert(parse_color_spec(color_text_spec(c)) == Some(c)),
            NamedColor::DarkRed => assert(parse_color_spec(color_text_spec(c)) == Some(c)),
            NamedColor::Green => {
                assert("green"@[0] == 'g' && "black"@[0] == 'b');
                assert("green"@ != "black"@);
                assert(parse_color_spec(color_text_spec(c)) == Some(c));
            },
            NamedColor::DarkGreen => assert(parse_color_spec(color_text_spec(c)) == Some(c)),
            NamedColor::Yellow => assert(parse_color_spec(color_text_spec(c)) == Some(c)),
            NamedColor::DarkYellow => assert(parse_color_spec(color_text_spec(c)) == Some(c)),
            NamedColor::Blue => assert(parse_color_spec(color_text_spec(c)) == Some(c)),
            NamedColor::DarkBlue => {
                assert("dark_blue"@[5] == 'b' && "dark_grey"@[5] == 'g');
                assert("dark_blue"@ != "dark_grey"@);
                assert(parse_color_spec(color_text_spec(c)) == Some(c));
            },
            NamedColor::Magenta => assert(parse_color_spec(color_text_spec(c)) == Some(c)),
            NamedColor::DarkMagenta => assert(parse_color_spec(color_text_spec(c)) == Some(c)),
            NamedColor::Cyan => {
                assert("cyan"@[0] == 'c' && "blue"@[0] == 'b');
                assert("cyan"@ != "blue"@);
                assert(parse_color_spec(color_text_spec(c)) == Some(c));
            },
            NamedColor::DarkCyan => {
                assert("dark_cyan"@[5] == 'c' && "dark_grey"@[5] == 'g' && "dark_blue"@[5]
                    == 'b');
                assert("dark_cyan"@ != "dark_grey"@ && "dark_cyan"@ != "dark_blue"@);
                assert(parse_color_spec(color_text_spec(c)) == Some(c));
            },
            NamedColor::White => {
                assert("white"@[0] == 'w' && "black"@[0] == 'b' && "green"@[0] == 'g');
                assert("white"@ != "black"@ && "white"@ != "green"@);
                assert(parse_color_spec(color_text_spec(c)) == Some(c));
            },
            NamedColor::Grey => {
                let s = "grey"@;
                assert(s.len() == 4);
                assert(s != "black"@);
                assert(s != "dark_grey"@);
                assert(s != "red"@);
                assert(s != "dark_red"@);
                assert(s != "green"@);
                assert(s != "dark_green"@);
                assert(s != "yellow"@);
                assert(s != "dark_yellow"@);
                assert(s[0] == 'g' && "blue"@[0] == 'b' && "cyan"@[0] == 'c');
                assert(s != "blue"@);
                assert(s != "dark_blue"@);
                assert(s != "magenta"@);
                assert(s != "dark_magenta"@);
                assert(s != "cyan"@);
                assert(s != "dark_cyan"@);
                assert(s != "white"@);
                assert(parse_color_spec(s) == Some(Color::Named(NamedColor::Grey)));
                assert(color_text_spec(c) == s);
            },
        },
        Color::Rgb { r, g, b } => {
            let s = color_text_spec(c);
            lemma_hex_char_val(r as int / 16);
            lemma_hex_char_val(r as int % 16);
            lemma_hex_char_val(g as int / 16);
            lemma_hex_char_val(g as int % 16);
            lemma_hex_char_val(b as int / 16);
            lemma_hex_char_val(b as int % 16);
            assert(s.len() == 7);
            assert(s[0] == '#');
            assert(s[1] == hex2_spec(r as int)[0]);
            assert(s[2] == hex2_spec(r as int)[1]);
            assert(s[3] == hex2_spec(g as int)[0]);
            assert(s[4] == hex2_spec(g as int)[1]);
            assert(s[5] == hex2_spec(b as int)[0]);
            assert(s[6] == hex2_spec(b as int)[1]);
            vstd::arithmetic::div_mod::lemma_fundamental_div_mod(r as int, 16);
            vstd::arithmetic::div_mod::lemma_fundamental_div_mod(g as int, 16);
            vstd::arithmetic::div_mod::lemma_fundamental_div_mod(b as int, 16);
            assert(hex_val_spec(s[1]) * 16 + hex_val_spec(s[2]) == r as int);
            assert(hex_val_spec(s[3]) * 16 + hex_val_spec(s[4]) == g as int);
            assert(hex_val_spec(s[5]) * 16 + hex_val_spec(s[6]) == b as int);
        },
    }
}

/// The value of a hexadecimal digit character, or sixteen for any other
/// character.
pub(crate) fn hex_digit_val(c: char) -> (r: u8)
    ensures
        r as int == hex_val_spec(c),
{
    match c {
        '0' => 0,
        '1' => 1,
        '2' => 2,
        '3' => 3,
        '4' => 4,
        '5' => 5,
        '6' => 6,
        '7' => 7,
        '8' => 8,
        '9' => 9,
        'a' | 'A' => 10,
        'b' | 'B' => 11,
        'c' | 'C' => 12,
        'd' | 'D' => 13,
        'e' | 'E' => 14,
        'f' | 'F' => 15,
        _ => 16,
    }
}

} // verus!
