use terminal_tree::Color;
use terminal_tree::ColorValue;
use terminal_tree::ColorValueParser;
use terminal_tree::NamedColor;

#[test]
fn parses_hex_rgb() {
    let parser = ColorValueParser {};
    let parsed = parser.parse("#179fff");
    assert_eq!(parsed, Some(ColorValue(Color::Rgb { r: 23, g: 159, b: 255 })));
}

#[test]
fn hex_rgb_round_trips_lowercase() {
    let parser = ColorValueParser {};
    let parsed = parser.parse("#179fff").unwrap();
    assert_eq!(parsed.to_string(), "#179fff");
    let upper = parser.parse("#ABCDEF").unwrap();
    assert_eq!(upper, ColorValue(Color::Rgb { r: 0xab, g: 0xcd, b: 0xef }));
    assert_eq!(upper.to_string(), "#abcdef");
}

#[test]
fn parses_named_color() {
    let parser = ColorValueParser {};
    assert_eq!(
        parser.parse("dark_blue"),
        Some(ColorValue(Color::Named(NamedColor::DarkBlue)))
    );
    assert_eq!(parser.parse("dark_blue").unwrap().to_string(), "dark_blue");
}

#[test]
fn every_name_round_trips() {
    let parser = ColorValueParser {};
    let names = [
        "black",
        "dark_grey",
        "red",
        "dark_red",
        "green",
        "dark_green",
        "yellow",
        "dark_yellow",
        "blue",
        "dark_blue",
        "magenta",
        "dark_magenta",
        "cyan",
        "dark_cyan",
        "white",
        "grey",
    ];
    for name in names {
        let parsed = parser.parse(name).unwrap();
        assert_eq!(parsed.to_string(), name);
    }
}

#[test]
fn rejects_malformed_values() {
    let parser = ColorValueParser {};
    assert_eq!(parser.parse(""), None);
    assert_eq!(parser.parse("mauve"), None);
    assert_eq!(parser.parse("#12345"), None);
    assert_eq!(parser.parse("#1234567"), None);
    assert_eq!(parser.parse("#17Zfff"), None);
    assert_eq!(parser.parse("DARK_BLUE"), None);
    assert_eq!(parser.parse("#rrggbb"), None);
}

#[test]
fn formats_default_rgb_values() {
    assert_eq!(ColorValue(Color::Rgb { r: 0xff, g: 0xd7, b: 0x00 }).to_string(), "#ffd700");
    assert_eq!(ColorValue(Color::Rgb { r: 0, g: 0, b: 0 }).to_string(), "#000000");
}

#[test]
fn lists_possible_values() {
    let parser = ColorValueParser {};
    let values = parser.possible_values();
    assert_eq!(values.len(), 17);
    assert_eq!(values[0], "black");
    assert_eq!(values[15], "grey");
    assert_eq!(values[16], "#rrggbb");
}
