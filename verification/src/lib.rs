//! Renders hierarchical data as indented, optionally colored lines of text,
//! using box-drawing connector glyphs in the style of the Unix `tree` utility.
//!
//! The caller drives traversal: it builds a [`TreeBuilder`] once, asks it for
//! a root [`TreeBranch`], and for each nested item asks the current branch for
//! a child branch one level deeper, rendering each branch as one line.

mod ansi;
mod cli;
mod color;
mod text;
mod tree;

pub use cli::default_colors;
pub use cli::default_indentation;
pub use cli::range;
pub use color::Color;
pub use color::ColorValue;
pub use color::ColorValueParser;
pub use color::NamedColor;
pub use tree::TreeBranch;
pub use tree::TreeBuilder;
