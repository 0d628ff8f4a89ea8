use terminal_tree::Color;
use terminal_tree::NamedColor;
use terminal_tree::TreeBuilder;

#[test]
fn root_renders_bare() {
    let builder = TreeBuilder::default();
    let root = builder.branch(String::from("root"));
    assert_eq!(root.render(), "root");
}

#[test]
fn level_one_has_no_prefix() {
    let builder = TreeBuilder::default();
    let root = builder.branch(String::from("root"));
    let child = root.branch(String::from("child1"));
    assert_eq!(child.render(), "child1");
}

#[test]
fn level_two_has_one_colored_segment() {
    let builder = TreeBuilder::default();
    let root = builder.branch(String::from("root"));
    let child = root.branch(String::from("child1"));
    let grand = child.branch(String::from("grand1"));
    assert_eq!(grand.render(), "\u{1b}[38;2;255;215;0m\u{251c} \u{1b}[39mgrand1");
}

#[test]
fn level_three_cycles_to_second_color() {
    let builder = TreeBuilder::default();
    let b0 = builder.branch(String::from("a"));
    let b1 = b0.branch(String::from("b"));
    let b2 = b1.branch(String::from("c"));
    let b3 = b2.branch(String::from("d"));
    assert_eq!(
        b3.render(),
        "\u{1b}[38;2;255;215;0m\u{2502} \u{1b}[39m\u{1b}[38;2;218;112;214m\u{251c} \u{1b}[39md"
    );
}

#[test]
fn single_color_palette_repeats() {
    let builder = TreeBuilder::default().colors(vec![Color::Named(NamedColor::Red)]);
    let b0 = builder.branch(String::from("a"));
    let b1 = b0.branch(String::from("b"));
    let b2 = b1.branch(String::from("c"));
    let b3 = b2.branch(String::from("d"));
    assert_eq!(
        b3.render(),
        "\u{1b}[38;5;9m\u{2502} \u{1b}[39m\u{1b}[38;5;9m\u{251c} \u{1b}[39md"
    );
}

#[test]
fn empty_palette_renders_plain() {
    let builder = TreeBuilder::default().colors(vec![]);
    let b0 = builder.branch(String::from("a"));
    let b1 = b0.branch(String::from("b"));
    let b2 = b1.branch(String::from("c"));
    let b3 = b2.branch(String::from("d"));
    assert_eq!(b2.render(), "\u{251c} c");
    assert_eq!(b3.render(), "\u{2502} \u{251c} d");
}

#[test]
fn scenario_single_red_palette_minimum_width() {
    let builder = TreeBuilder::default()
        .colors(vec![Color::Named(NamedColor::Red)])
        .indentation(2);
    let root = builder.branch(String::from("root"));
    let child = root.branch(String::from("child1"));
    let grand = child.branch(String::from("grand1"));
    assert_eq!(root.render(), "root");
    assert_eq!(child.render(), "child1");
    assert_eq!(grand.render(), "\u{1b}[38;5;9m\u{251c} \u{1b}[39mgrand1");
}

#[test]
fn wider_indentation_fills_horizontally() {
    let builder = TreeBuilder::default().colors(vec![]).indentation(4);
    let b0 = builder.branch(String::from("a"));
    let b1 = b0.branch(String::from("b"));
    let b2 = b1.branch(String::from("c"));
    let b3 = b2.branch(String::from("d"));
    assert_eq!(b2.render(), "\u{251c}\u{2500}\u{2500} c");
    assert_eq!(b3.render(), "\u{2502}   \u{251c}\u{2500}\u{2500} d");
}

#[test]
fn indentation_below_minimum_is_clamped() {
    let builder = TreeBuilder::default().colors(vec![]).indentation(0);
    let b0 = builder.branch(String::from("a"));
    let b1 = b0.branch(String::from("b"));
    let b2 = b1.branch(String::from("c"));
    assert_eq!(b2.render(), "\u{251c} c");
}

#[test]
fn maximum_indentation_does_not_overflow() {
    let builder = TreeBuilder::default().colors(vec![]).indentation(255);
    let b0 = builder.branch(String::from("a"));
    let b1 = b0.branch(String::from("b"));
    let b2 = b1.branch(String::from("c"));
    let b3 = b2.branch(String::from("d"));
    let line = b2.render();
    assert_eq!(line.chars().count(), 255 + 1);
    let expected: String = std::iter::once('\u{251c}')
        .chain(std::iter::repeat('\u{2500}').take(253))
        .chain([' ', 'c'])
        .collect();
    assert_eq!(line, expected);
    assert_eq!(b3.render().chars().count(), 2 * 255 + 1);
}

#[test]
fn prefix_length_per_level_without_color() {
    let builder = TreeBuilder::default().colors(vec![]).indentation(3);
    let mut branch = builder.branch(String::from(""));
    for level in 1..7u32 {
        branch = branch.branch(String::from(""));
        let expected = ((level as usize).saturating_sub(1)) * 3;
        assert_eq!(branch.render().chars().count(), expected);
    }
}

#[test]
fn rendering_twice_is_byte_identical() {
    let builder = TreeBuilder::default();
    let b0 = builder.branch(String::from("a"));
    let b1 = b0.branch(String::from("b"));
    let b2 = b1.branch(String::from("c"));
    assert_eq!(b2.render(), b2.render());
}

#[test]
fn child_does_not_change_parent() {
    let builder = TreeBuilder::default();
    let b0 = builder.branch(String::from("a"));
    let b1 = b0.branch(String::from("b"));
    let b2 = b1.branch(String::from("c"));
    let before = b1.render();
    let other = b1.branch(String::from("sibling"));
    let _ = other.render();
    let _ = b2.render();
    assert_eq!(b1.render(), before);
    assert_eq!(b0.render(), "a");
}

#[test]
fn named_colors_use_their_ansi_indices() {
    let mapping = [
        (NamedColor::Black, 0),
        (NamedColor::DarkGrey, 8),
        (NamedColor::Red, 9),
        (NamedColor::DarkRed, 1),
        (NamedColor::Green, 10),
        (NamedColor::DarkGreen, 2),
        (NamedColor::Yellow, 11),
        (NamedColor::DarkYellow, 3),
        (NamedColor::Blue, 12),
        (NamedColor::DarkBlue, 4),
        (NamedColor::Magenta, 13),
        (NamedColor::DarkMagenta, 5),
        (NamedColor::Cyan, 14),
        (NamedColor::DarkCyan, 6),
        (NamedColor::White, 15),
        (NamedColor::Grey, 7),
    ];
    for (color, idx) in mapping {
        let builder = TreeBuilder::default().colors(vec![Color::Named(color)]);
        let b0 = builder.branch(String::from("a"));
        let b1 = b0.branch(String::from("b"));
        let b2 = b1.branch(String::from("c"));
        let expected = format!("\u{1b}[38;5;{idx}m\u{251c} \u{1b}[39mc");
        assert_eq!(b2.render(), expected);
    }
}

#[test]
fn tty_toggle_returns_builder_unchanged() {
    let builder = TreeBuilder::default().tty(true);
    let b0 = builder.branch(String::from("a"));
    let b1 = b0.branch(String::from("b"));
    let b2 = b1.branch(String::from("c"));
    assert_eq!(b2.render(), "\u{1b}[38;2;255;215;0m\u{251c} \u{1b}[39mc");
}
