//! The tree-rendering core: a builder holding the render-wide settings and a
//! branch representing one position in the nesting hierarchy.
//!
//! A branch at level `L` renders as `L - 1` segments of `indentation` cells
//! each, one per ancestor level, followed by the item's text: a vertical
//! guide glyph padded with blanks for every ancestor but the innermost, and
//! the branch connector glyph padded with horizontal fill for the innermost.
//! Each segment is wrapped in the escape sequences for the palette color at
//! that ancestor's index, cycling through the palette; an empty palette
//! renders plain text with no escape sequences at all.

use vstd::prelude::*;
use vstd::string::StringExecFns;

use crate::ansi::color_off_spec;
use crate::ansi::color_on_spec;
use crate::ansi::lemma_strip_color_off;
use crate::ansi::lemma_strip_color_on;
use crate::ansi::lemma_strip_plain;
use crate::ansi::push_color_off;
use crate::ansi::push_color_on;
use crate::ansi::strip_escapes_spec;
use crate::color::Color;

verus! {

/// A sequence of `n` copies of the character `c`.
pub open spec fn fill_spec(c: char, n: int) -> Seq<char> {
    if n <= 0 {
        Seq::empty()
    } else {
        Seq::new(n as nat, |k: int| c)
    }
}

/// The characters of one ancestor segment, colors aside: the branch
/// connector with horizontal fill and a final blank for the innermost
/// ancestor, the vertical guide with blanks for every other one. A segment
/// spans exactly `w` character cells.
pub open spec fn segment_plain_spec(w: int, last: bool) -> Seq<char> {
    if last {
        "\u{251c}"@ + fill_spec('\u{2500}', w - 2) + " "@
    } else {
        "\u{2502}"@ + fill_spec(' ', w - 1)
    }
}

/// One ancestor segment as rendered: colored with the palette entry at
/// `(i - 1) mod K` for ancestor index `i` when the palette is non-empty,
/// plain otherwise.
pub open spec fn segment_spec(w: int, last: bool, p: Seq<Color>, i: int) -> Seq<char> {
    if p.len() == 0 {
        segment_plain_spec(w, last)
    } else {
        color_on_spec(p[(i - 1) % (p.len() as int)]) + segment_plain_spec(w, last)
            + color_off_spec()
    }
}

/// The first `k` ancestor segments of the prefix of a branch at `level`.
pub open spec fn prefix_upto_spec(k: int, level: int, w: int, p: Seq<Color>) -> Seq<char>
    decreases k,
{
    if k <= 0 {
        Seq::empty()
    } else {
        prefix_upto_spec(k - 1, level, w, p) + segment_spec(w, k == level - 1, p, k)
    }
}

/// The whole indentation prefix of a branch at `level`: one segment per
/// ancestor level `1 .. level - 1`, so the root and its immediate children
/// have none.
pub open spec fn prefix_spec(level: int, w: int, p: Seq<Color>) -> Seq<char> {
    prefix_upto_spec(level - 1, level, w, p)
}

/// The full rendered line of a branch: its indentation prefix followed by
/// the item's text.
pub open spec fn render_spec(level: int, item: Seq<char>, p: Seq<Color>, w: int) -> Seq<char> {
    prefix_spec(level, w, p) + item
}

/// The default palette: amber, orchid and azure, the guide-line colors
/// common in editor tree views.
pub open spec fn default_palette_spec() -> Seq<Color> {
    seq![
        Color::Rgb { r: 0xff, g: 0xd7, b: 0x00 },
        Color::Rgb { r: 0xda, g: 0x70, b: 0xd6 },
        Color::Rgb { r: 0x17, g: 0x9f, b: 0xff },
    ]
}

/// Holds the render-wide settings: the ordered color palette cycled across
/// ancestor levels and the character-cell width of one nesting level.
pub struct TreeBuilder {
    colors: Vec<Color>,
    indentation: u8,
}

/// Appends `n` copies of the single character in `piece` to `s`.
#[verifier::loop_isolation(false)]
fn push_repeat(s: &mut String, piece: &str, n: usize)
    requires
        piece@.len() == 1,
    ensures
        final(s)@ == old(s)@ + fill_spec(piece@[0], n as int),
{
    let mut j: usize = 0;
    while j < n
        invariant
            j <= n,
            s@ == old(s)@ + fill_spec(piece@[0], j as int),
        decreases n - j,
    {
        s.append(piece);
        j = j + 1;
        proof {
            assert(s@ =~= old(s)@ + fill_spec(piece@[0], j as int));
        }
    }
}

/// Appends one ancestor segment for ancestor index `i` to `s`.
fn push_segment(s: &mut String, width: u8, last: bool, colors: &Vec<Color>, i: usize)
    requires
        width >= 2,
        i >= 1,
    ensures
        final(s)@ == old(s)@ + segment_spec(width as int, last, colors@, i as int),
{
    proof {
        reveal_strlit("\u{251c}");
        reveal_strlit("\u{2502}");
        reveal_strlit("\u{2500}");
        reveal_strlit(" ");
    }
    if colors.len() > 0 {
        let idx = (i - 1) % colors.len();
        push_color_on(s, &colors[idx]);
        proof {
            assert((i - 1) as int % colors@.len() as int == (i as int - 1) % (
            colors@.len() as int));
        }
    }
    let ghost plain_start = s@;
    if last {
        s.append("\u{251c}");
        push_repeat(s, "\u{2500}", width as usize - 2);
        s.append(" ");
    } else {
        s.append("\u{2502}");
        push_repeat(s, " ", width as usize - 1);
    }
    proof {
        assert(s@ =~= plain_start + segment_plain_spec(width as int, last));
    }
    if colors.len() > 0 {
        push_color_off(s);
    }
    proof {
        assert(final(s)@ =~= old(s)@ + segment_spec(width as int, last, colors@, i as int));
    }
}

/// Appends the indentation prefix of a branch at `level` to `s`.
#[verifier::loop_isolation(false)]
fn push_prefix(s: &mut String, level: u8, width: u8, colors: &Vec<Color>)
    requires
        width >= 2,
    ensures
        final(s)@ == old(s)@ + prefix_spec(level as int, width as int, colors@),
{
    let mut i: usize = 1;
    while i < level as usize
        invariant
            1 <= i,
            level as usize >= 1 ==> i <= level as usize,
            level as usize == 0 ==> i == 1,
            s@ == old(s)@ + prefix_upto_spec(i - 1, level as int, width as int, colors@),
        decreases level as int - i,
    {
        push_segment(s, width, i == level as usize - 1, colors, i);
        proof {
            assert(s@ =~= old(s)@ + prefix_upto_spec(i as int, level as int, width as int,
            colors@));
        }
        i = i + 1;
    }
    proof {
        let w = width as int;
        let p = colors@;
        if level as usize == 0 {
            assert(prefix_upto_spec(0, level as int, w, p) == Seq::<char>::empty());
            assert(prefix_spec(level as int, w, p) == Seq::<char>::empty());
        } else {
            assert(i == level as usize);
        }
        assert(s@ =~= old(s)@ + prefix_spec(level as int, w, p));
    }
}

/// An uncolored segment spans exactly `w` character cells.
pub proof fn lemma_segment_plain_len(w: int, last: bool)
    requires
        2 <= w,
    ensures
        segment_plain_spec(w, last).len() == w,
{
    reveal_strlit("\u{251c}");
    reveal_strlit("\u{2502}");
    reveal_strlit(" ");
}

proof fn lemma_prefix_upto_len(k: int, level: int, w: int)
    requires
        2 <= w,
    ensures
        prefix_upto_spec(k, level, w, Seq::<Color>::empty()).len() == if k <= 0 {
            0int
        } else {
            k * w
        },
    decreases k,
{
    if k > 0 {
        lemma_prefix_upto_len(k - 1, level, w);
        lemma_segment_plain_len(w, k == level - 1);
        assert((k - 1) * w + w == k * w) by (nonlinear_arith);
    }
}

/// Prefix length: counted without color escape sequences — that is, under an
/// empty palette, which emits none — the indentation prefix of a branch at
/// `level` spans exactly `w` cells per ancestor level: `(level - 1) * w`
/// characters for `level >= 1`, and none at the root.
pub proof fn lemma_prefix_len(level: int, w: int)
    requires
        0 <= level,
        2 <= w,
    ensures
        prefix_spec(level, w, Seq::<Color>::empty()).len() == if level <= 1 {
            0int
        } else {
            (level - 1) * w
        },
{
    lemma_prefix_upto_len(level - 1, level, w);
}

/// The visible characters of an uncolored segment: the glyphs and fill, but
/// never an escape character.
proof fn lemma_segment_plain_chars(w: int, last: bool)
    requires
        2 <= w,
    ensures
        forall|j: int|
            0 <= j < segment_plain_spec(w, last).len() ==> segment_plain_spec(w, last)[j]
                != '\u{1b}',
{
    reveal_strlit("\u{251c}");
    reveal_strlit("\u{2502}");
    reveal_strlit(" ");
    let s = segment_plain_spec(w, last);
    if last {
        assert forall|j: int| 0 <= j < s.len() implies s[j] != '\u{1b}' by {
            if j == 0 {
                assert(s[j] == '\u{251c}');
            } else if j < 1 + (w - 2) {
                assert(s[j] == fill_spec('\u{2500}', w - 2)[j - 1]);
            } else {
                assert(s[j] == ' ');
            }
        }
    } else {
        assert forall|j: int| 0 <= j < s.len() implies s[j] != '\u{1b}' by {
            if j == 0 {
                assert(s[j] == '\u{2502}');
            } else {
                assert(s[j] == fill_spec(' ', w - 1)[j - 1]);
            }
        }
    }
}

/// Stripping the escape sequences from a rendered segment leaves exactly the
/// uncolored segment, whatever the palette.
proof fn lemma_strip_segment(w: int, last: bool, p: Seq<Color>, i: int, rest: Seq<char>)
    requires
        2 <= w,
    ensures
        strip_escapes_spec(segment_spec(w, last, p, i) + rest) == segment_plain_spec(w, last)
            + strip_escapes_spec(rest),
{
    lemma_segment_plain_chars(w, last);
    let plain = segment_plain_spec(w, last);
    if p.len() == 0 {
        lemma_strip_plain(plain, rest);
    } else {
        let c = p[(i - 1) % (p.len() as int)];
        assert(segment_spec(w, last, p, i) + rest =~= color_on_spec(c) + (plain + (
        color_off_spec() + rest)));
        lemma_strip_color_on(c, plain + (color_off_spec() + rest));
        lemma_strip_plain(plain, color_off_spec() + rest);
        lemma_strip_color_off(rest);
    }
}

proof fn lemma_strip_prefix_upto(k: int, level: int, w: int, p: Seq<Color>, rest: Seq<char>)
    requires
        2 <= w,
    ensures
        strip_escapes_spec(prefix_upto_spec(k, level, w, p) + rest) == prefix_upto_spec(
            k,
            level,
            w,
            Seq::<Color>::empty(),
        ) + strip_escapes_spec(rest),
    decreases k,
{
    if k <= 0 {
        assert(prefix_upto_spec(k, level, w, p) + rest =~= rest);
        assert(prefix_upto_spec(k, level, w, Seq::<Color>::empty()) + strip_escapes_spec(rest)
            =~= strip_escapes_spec(rest));
    } else {
        let seg = segment_spec(w, k == level - 1, p, k);
        assert(prefix_upto_spec(k, level, w, p) + rest =~= prefix_upto_spec(k - 1, level, w, p)
            + (seg + rest));
        lemma_strip_prefix_upto(k - 1, level, w, p, seg + rest);
        lemma_strip_segment(w, k == level - 1, p, k, rest);
        assert(prefix_upto_spec(k - 1, level, w, Seq::<Color>::empty()) + (segment_plain_spec(
            w,
            k == level - 1,
        ) + strip_escapes_spec(rest)) =~= prefix_upto_spec(k, level, w, Seq::<Color>::empty())
            + strip_escapes_spec(rest));
    }
}

/// Prefix length under any palette: with the color escape sequences
/// stripped away, the prefix of a branch at `level` is exactly the prefix an
/// empty palette renders, and it spans `w` character cells per ancestor
/// level — `(level - 1) * w` for `level >= 1`, none at the root.
pub proof fn lemma_prefix_visible_len(level: int, w: int, p: Seq<Color>)
    requires
        0 <= level,
        2 <= w,
    ensures
        strip_escapes_spec(prefix_spec(level, w, p)) == prefix_spec(
            level,
            w,
            Seq::<Color>::empty(),
        ),
        strip_escapes_spec(prefix_spec(level, w, p)).len() == if level <= 1 {
            0int
        } else {
            (level - 1) * w
        },
{
    lemma_strip_prefix_upto(level - 1, level, w, p, Seq::<char>::empty());
    assert(prefix_spec(level, w, p) + Seq::<char>::empty() =~= prefix_spec(level, w, p));
    assert(strip_escapes_spec(Seq::<char>::empty()) =~= Seq::<char>::empty());
    assert(prefix_spec(level, w, Seq::<Color>::empty()) + Seq::<char>::empty() =~= prefix_spec(
        level,
        w,
        Seq::<Color>::empty(),
    ));
    lemma_prefix_len(level, w);
}

/// Color cycling: with a non-empty palette of size `K`, the segment for
/// ancestor index `i` (1-based) is wrapped in the escape sequences for the
/// palette entry at `(i - 1) mod K` — also when `K` is 1 — and with an empty
/// palette the segment is emitted plain, with no escape sequences at all.
pub proof fn lemma_color_cycling(w: int, last: bool, p: Seq<Color>, i: int)
    ensures
        p.len() > 0 ==> segment_spec(w, last, p, i) == color_on_spec(
            p[(i - 1) % (p.len() as int)],
        ) + segment_plain_spec(w, last) + color_off_spec(),
        p.len() == 0 ==> segment_spec(w, last, p, i) == segment_plain_spec(w, last),
{
}

/// Determinism: a rendered line is a function of the level, the item text,
/// the palette and the indentation width alone, so two branches that agree
/// on all four render byte-identically, however and whenever each was made.
pub proof fn lemma_render_deterministic(a: TreeBranch, b: TreeBranch)
    requires
        a.level_of() == b.level_of(),
        a.item_text() == b.item_text(),
        a.palette() == b.palette(),
        a.indent_width() == b.indent_width(),
    ensures
        render_spec(a.level_of(), a.item_text(), a.palette(), a.indent_width()) == render_spec(
            b.level_of(),
            b.item_text(),
            b.palette(),
            b.indent_width(),
        ),
{
}

/// Statelessness: a child branch renders as a function of its parent's
/// palette and indentation width, the parent's level plus one, and the new
/// item alone — nothing else about the parent, its own item included,
/// reaches the child's line. The converse direction needs no lemma:
/// [`TreeBranch::branch`] borrows the parent shared and returns a branch
/// with its own copy of the configuration, so creating or rendering any
/// number of children leaves the parent's fields, and with them every later
/// render of the parent, exactly as they were.
pub proof fn lemma_child_render(parent: TreeBranch, child: TreeBranch)
    requires
        child.level_of() == parent.level_of() + 1,
        child.palette() == parent.palette(),
        child.indent_width() == parent.indent_width(),
    ensures
        render_spec(child.level_of(), child.item_text(), child.palette(), child.indent_width())
            == render_spec(
            parent.level_of() + 1,
            child.item_text(),
            parent.palette(),
            parent.indent_width(),
        ),
{
}

/// Copies a palette element by element.
fn copy_colors(v: &Vec<Color>) -> (r: Vec<Color>)
    ensures
        r@ == v@,
{
    let mut r: Vec<Color> = Vec::new();
    let mut i: usize = 0;
    while i < v.len()
        invariant
            i <= v.len(),
            r@ == v@.subrange(0, i as int),
        decreases v.len() - i,
    {
        r.push(v[i]);
        i = i + 1;
        proof {
            assert(r@ =~= v@.subrange(0, i as int));
        }
    }
    proof {
        assert(r@ =~= v@);
    }
    r
}

impl TreeBuilder {
    /// The ordered palette cycled across ancestor levels.
    pub closed spec fn palette(&self) -> Seq<Color> {
        self.colors@
    }

    /// The character-cell width of one nesting level.
    pub closed spec fn indent_width(&self) -> int {
        self.indentation as int
    }

    /// A well-formed configuration reserves at least the connector glyph and
    /// one separating cell per level.
    pub open spec fn wf(&self) -> bool {
        self.indent_width() >= 2
    }

    /// Replaces the color palette; an empty palette means uncolored output.
    pub fn colors(self, colors: Vec<Color>) -> (r: Self)
        ensures
            r.palette() == colors@,
            r.indent_width() == self.indent_width(),
    {
        TreeBuilder { colors, indentation: self.indentation }
    }

    /// Replaces the indentation width, clamping it to the minimum of two
    /// cells so that a segment can always hold its connector glyph and one
    /// separating cell.
    pub fn indentation(self, indentation: u8) -> (r: Self)
        ensures
            r.indent_width() == if indentation < 2 {
                2int
            } else {
                indentation as int
            },
            r.palette() == self.palette(),
            r.wf(),
    {
        TreeBuilder {
            colors: self.colors,
            indentation: if indentation < 2 {
                2
            } else {
                indentation
            },
        }
    }

    /// Relies on `crossterm::style::force_color_output`: forces colored
    /// terminal output on or off globally for text styled through crossterm,
    /// overriding its `NO_COLOR` detection. The builder itself is returned
    /// unchanged; this library's own rendering is unaffected by the toggle.
    #[verifier::external_body]
    pub fn tty(self, tty: bool) -> (r: Self)
        ensures
            r == self,
    {
        crossterm::style::force_color_output(tty);
        self
    }

    /// Produces a root branch at level zero wrapping `item`.
    pub fn branch(&self, item: String) -> (r: TreeBranch)
        requires
            self.wf(),
        ensures
            r.level_of() == 0,
            r.item_text() == item@,
            r.palette() == self.palette(),
            r.indent_width() == self.indent_width(),
            r.wf(),
    {
        TreeBranch {
            builder: TreeBuilder {
                colors: copy_colors(&self.colors),
                indentation: self.indentation,
            },
            level: 0,
            item,
        }
    }
}

impl Default for TreeBuilder {
    /// The zero-configuration settings: the default three-color palette and
    /// an indentation width of two cells.
    fn default() -> (r: Self)
        ensures
            r.palette() == default_palette_spec(),
            r.indent_width() == 2,
            r.wf(),
    {
        let mut colors: Vec<Color> = Vec::new();
        colors.push(Color::Rgb { r: 0xff, g: 0xd7, b: 0x00 });
        colors.push(Color::Rgb { r: 0xda, g: 0x70, b: 0xd6 });
        colors.push(Color::Rgb { r: 0x17, g: 0x9f, b: 0xff });
        proof {
            assert(colors@ =~= default_palette_spec());
        }
        TreeBuilder { colors, indentation: 2 }
    }
}

/// A render context bound to one nesting level and one display item; renders
/// as exactly one line of text.
pub struct TreeBranch {
    builder: TreeBuilder,
    level: u8,
    item: String,
}

impl TreeBranch {
    /// The nesting depth from the root; the root is at level zero.
    pub closed spec fn level_of(&self) -> int {
        self.level as int
    }

    /// The text of the wrapped display item.
    pub closed spec fn item_text(&self) -> Seq<char> {
        self.item@
    }

    /// The palette of the configuration this branch references.
    pub closed spec fn palette(&self) -> Seq<Color> {
        self.builder.palette()
    }

    /// The indentation width of the configuration this branch references.
    pub closed spec fn indent_width(&self) -> int {
        self.builder.indent_width()
    }

    /// A branch is well-formed when its configuration is.
    pub closed spec fn wf(&self) -> bool {
        self.builder.wf()
    }

    /// Returns the nesting depth of this branch.
    pub fn level(&self) -> (r: u8)
        ensures
            r as int == self.level_of(),
    {
        self.level
    }

    /// Produces a child branch one level deeper wrapping `item`, under the
    /// same configuration. The parent is read, never changed: later renders
    /// of the parent are exactly what they were before.
    pub fn branch(&self, item: String) -> (r: TreeBranch)
        requires
            self.wf(),
            self.level_of() < 255,
        ensures
            r.level_of() == self.level_of() + 1,
            r.item_text() == item@,
            r.palette() == self.palette(),
            r.indent_width() == self.indent_width(),
            r.wf(),
    {
        TreeBranch {
            builder: TreeBuilder {
                colors: copy_colors(&self.builder.colors),
                indentation: self.builder.indentation,
            },
            level: self.level + 1,
            item,
        }
    }

    /// Renders this branch as one line of text, without a line terminator:
    /// the indentation prefix for its level followed by the item's text.
    pub fn render(&self) -> (r: String)
        requires
            self.wf(),
        ensures
            r@ == render_spec(self.level_of(), self.item_text(), self.palette(), self.indent_width()),
    {
        let mut s = String::new();
        push_prefix(&mut s, self.level, self.builder.indentation, &self.builder.colors);
        s.append(self.item.as_str());
        s
    }
}

} // verus!
