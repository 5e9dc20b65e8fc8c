//! The bordered block of the song panel, drawn as lines of text.
//!
//! The block has a title in its top border and a horizontal separator
//! that meets the side borders a given number of rows above the bottom:
//!
//! ```text
//! ┌Song Info──────┐
//! │               │
//! ├───────────────┤
//! │               │
//! └───────────────┘
//! ```

use vstd::prelude::*;
use ratatui::text::Line;

verus! {

/// `n` copies of `c`.
pub open spec fn repeated(c: char, n: nat) -> Seq<char> {
    Seq::new(n, |_i: int| c)
}

/// `a - b`, or 0 where that is negative.
pub open spec fn sat_sub(a: nat, b: nat) -> nat {
    if a > b {
        (a - b) as nat
    } else {
        0
    }
}

/// A line that starts with `left`, ends with `right`, and holds `inner`
/// copies of `fill` between them.
pub open spec fn edge_line(left: char, fill: char, right: char, inner: nat) -> Seq<char> {
    seq![left] + repeated(fill, inner) + seq![right]
}

/// The top border: the title after the corner, then the border up to the
/// width of the block.
pub open spec fn top_line(title: Seq<char>, title_width: nat, width: nat) -> Seq<char> {
    seq!['┌'] + title + repeated('─', sat_sub(width, 2 + title_width)) + seq!['┐']
}

/// A row of the block between the borders.
pub open spec fn side_line(width: nat) -> Seq<char> {
    edge_line('│', ' ', '│', sat_sub(width, 2))
}

/// The separator row.
pub open spec fn separator_line(width: nat) -> Seq<char> {
    edge_line('├', '─', '┤', sat_sub(width, 2))
}

/// The bottom border.
pub open spec fn bottom_line(width: nat) -> Seq<char> {
    edge_line('└', '─', '┘', sat_sub(width, 2))
}

/// The lines of a block of `width` by `height` cells whose title reads
/// `title` and takes `title_width` cells, with its separator
/// `dist_from_bottom` rows above the bottom border: the top border, the
/// rows above the separator (as many as fit), the separator, the
/// `dist_from_bottom` rows below it, the bottom border.
pub open spec fn block_text(
    title: Seq<char>,
    title_width: nat,
    width: nat,
    height: nat,
    dist_from_bottom: nat,
) -> Seq<Seq<char>> {
    seq![top_line(title, title_width, width)] + Seq::new(
        sat_sub(height, dist_from_bottom + 3),
        |_i: int| side_line(width),
    ) + seq![separator_line(width)] + Seq::new(dist_from_bottom, |_i: int| side_line(width))
        + seq![bottom_line(width)]
}

/// How many terminal cells the title takes once it is a line of the interface.
pub uninterp spec fn line_width(title: Seq<char>) -> usize;

/// The title as a line of the interface reads it: the title split into
/// lines at every line feed and every carriage return followed by a line
/// feed, as `str::lines` splits, and the lines joined again; that is, the
/// title with those line breaks removed.
pub open spec fn without_line_breaks(title: Seq<char>) -> Seq<char>
    decreases title.len(),
{
    if title.len() == 0 {
        title
    } else if title[0] == '\n' {
        without_line_breaks(title.drop_first())
    } else if title[0] == '\r' && title.len() >= 2 && title[1] == '\n' {
        without_line_breaks(title.subrange(2, title.len() as int))
    } else {
        seq![title[0]] + without_line_breaks(title.drop_first())
    }
}

/// Calls `ratatui::text::Line::from(title)` and formats it with `Display`,
/// which writes the title's lines, as `str::lines` splits them, one after
/// another. Claimed of it: the text is the title with its line breaks
/// removed, as the documentation of `str::lines` defines line breaks.
#[verifier::external_body]
fn title_text(title: &str) -> (text: String)
    ensures
        text@ == without_line_breaks(title@),
{
    Line::from(title).to_string()
}

/// Calls `ratatui::text::Line::from(title)` and then `Line::width`.
/// Claimed of it: the width is a function of the title (`line_width`).
#[verifier::external_body]
fn title_width(title: &str) -> (cells: usize)
    ensures
        cells == line_width(title@),
{
    Line::from(title).width()
}

/// Appends `count` copies of the one character of `piece`.
fn push_repeated(line: &mut String, piece: &str, count: usize)
    requires
        piece@.len() == 1,
    ensures
        final(line)@ == old(line)@ + repeated(piece@[0], count as nat),
{
    let mut i: usize = 0;
    while i < count
        invariant
            i <= count,
            piece@.len() == 1,
            line@ == old(line)@ + repeated(piece@[0], i as nat),
        decreases count - i,
    {
        line.append(piece);
        assert(line@ =~= old(line)@ + repeated(piece@[0], (i + 1) as nat));
        i = i + 1;
    }
}

/// The line `left`, `inner` copies of `fill`, `right`.
fn bordered_line(left: &str, fill: &str, right: &str, inner: usize) -> (line: String)
    requires
        left@.len() == 1,
        fill@.len() == 1,
        right@.len() == 1,
    ensures
        line@ == edge_line(left@[0], fill@[0], right@[0], inner as nat),
{
    let mut line = String::new();
    line.append(left);
    push_repeated(&mut line, fill, inner);
    line.append(right);
    assert(line@ =~= edge_line(left@[0], fill@[0], right@[0], inner as nat));
    line
}

/// Pushes `count` copies of `line`.
fn push_lines(lines: &mut Vec<String>, line: &String, count: usize)
    ensures
        final(lines).deep_view() == old(lines).deep_view() + Seq::new(count as nat, |_i: int| line@),
{
    let mut i: usize = 0;
    while i < count
        invariant
            i <= count,
            lines.deep_view() == old(lines).deep_view() + Seq::new(i as nat, |_i: int| line@),
        decreases count - i,
    {
        let ghost before = lines.deep_view();
        lines.push(line.clone());
        assert(lines.deep_view() =~= before.push(line@));
        assert(lines.deep_view() =~= old(lines).deep_view() + Seq::new((i + 1) as nat, |_i: int| line@));
        i = i + 1;
    }
}

/// The lines of the block, from the title as it reads and the cells it takes.
pub fn block_lines(
    title: &str,
    title_width: usize,
    width: u16,
    height: u16,
    dist_from_bottom: usize,
) -> (lines: Vec<String>)
    ensures
        lines.deep_view() == block_text(
            title@,
            title_width as nat,
            width as nat,
            height as nat,
            dist_from_bottom as nat,
        ),
{
    proof {
        reveal_strlit("┌");
        reveal_strlit("┐");
        reveal_strlit("─");
        reveal_strlit("│");
        reveal_strlit(" ");
        reveal_strlit("├");
        reveal_strlit("┤");
        reveal_strlit("└");
        reveal_strlit("┘");
    }
    let w = width as usize;
    let h = height as usize;
    let inner: usize = if w > 2 { w - 2 } else { 0 };
    let title_fill: usize = if inner > title_width { inner - title_width } else { 0 };
    let upper_rows: usize = if h > dist_from_bottom && h - dist_from_bottom > 3 {
        h - dist_from_bottom - 3
    } else {
        0
    };

    let mut lines: Vec<String> = Vec::new();

    let mut top = String::new();
    top.append("┌");
    top.append(title);
    push_repeated(&mut top, "─", title_fill);
    top.append("┐");
    assert(top@ =~= top_line(title@, title_width as nat, width as nat));
    lines.push(top);

    let side = bordered_line("│", " ", "│", inner);
    push_lines(&mut lines, &side, upper_rows);
    let separator = bordered_line("├", "─", "┤", inner);
    let ghost before = lines.deep_view();
    lines.push(separator);
    assert(lines.deep_view() =~= before.push(separator_line(width as nat)));
    push_lines(&mut lines, &side, dist_from_bottom);
    let bottom = bordered_line("└", "─", "┘", inner);
    let ghost before = lines.deep_view();
    lines.push(bottom);
    assert(lines.deep_view() =~= before.push(bottom_line(width as nat)));
    assert(lines.deep_view() =~= block_text(
        title@,
        title_width as nat,
        width as nat,
        height as nat,
        dist_from_bottom as nat,
    ));
    lines
}

/// The lines of the bordered block with title `title` that fills `area`,
/// its separator `dist_from_bottom` rows above the bottom border.
pub fn connected_block_widget(title: &str, area: crate::layout::Rect, dist_from_bottom: usize) -> (lines:
    Vec<String>)
    ensures
        lines.deep_view() == block_text(
            without_line_breaks(title@),
            line_width(title@) as nat,
            area.width as nat,
            area.height as nat,
            dist_from_bottom as nat,
        ),
{
    let text = title_text(title);
    let cells = title_width(title);
    block_lines(text.as_str(), cells, area.width, area.height, dist_from_bottom)
}

/// The block has as many lines as the area is high, or the minimum of
/// `dist_from_bottom + 3` lines where the area is lower.
pub proof fn lemma_block_height(title: Seq<char>, title_width: nat, width: nat, height: nat, dist_from_bottom: nat)
    ensures
        block_text(title, title_width, width, height, dist_from_bottom).len() == if height
            > dist_from_bottom + 3 {
            height
        } else {
            dist_from_bottom + 3
        },
{
}

/// The separator stands `dist_from_bottom` rows above the bottom border,
/// and the bottom border is the last line.
pub proof fn lemma_separator_position(title: Seq<char>, title_width: nat, width: nat, height: nat, dist_from_bottom: nat)
    ensures
        ({
            let text = block_text(title, title_width, width, height, dist_from_bottom);
            &&& text[text.len() - dist_from_bottom - 2] == separator_line(width)
            &&& text[text.len() - 1] == bottom_line(width)
            &&& forall|i: int|
                text.len() - dist_from_bottom - 2 < i < text.len() - 1 ==> #[trigger] text[i]
                    == side_line(width)
        }),
{
}

/// The row pattern of the block, stated line by line: the top line starts
/// with the corner `┌`; every line strictly between the top border and the
/// separator, and every line between the separator and the bottom border,
/// is `│`, then `width - 2` spaces (none where the block is narrower), then
/// `│`; the separator is `├`, that many `─`, `┤`, and it is the only line
/// that starts with `├`; the last line is `└`, that many `─`, `┘`.
pub proof fn lemma_block_rows(title: Seq<char>, title_width: nat, width: nat, height: nat, dist_from_bottom: nat)
    ensures
        ({
            let text = block_text(title, title_width, width, height, dist_from_bottom);
            let inner: nat = if width > 2 { (width - 2) as nat } else { 0 };
            let blank = seq!['│'] + Seq::new(inner, |_j: int| ' ') + seq!['│'];
            let separator = text.len() - dist_from_bottom - 2;
            &&& text[0][0] == '┌'
            &&& forall|i: int| 0 < i < text.len() && i != separator && i != text.len() - 1
                ==> #[trigger] text[i] == blank
            &&& text[separator] == seq!['├'] + Seq::new(inner, |_j: int| '─') + seq!['┤']
            &&& text[text.len() - 1] == seq!['└'] + Seq::new(inner, |_j: int| '─') + seq!['┘']
            &&& forall|i: int| 0 <= i < text.len() ==> (#[trigger] text[i][0] == '├' <==> i == separator)
        }),
{
    let text = block_text(title, title_width, width, height, dist_from_bottom);
    let inner: nat = if width > 2 { (width - 2) as nat } else { 0 };
    let blank = seq!['│'] + Seq::new(inner, |_j: int| ' ') + seq!['│'];
    assert(side_line(width) =~= blank);
    assert(separator_line(width) =~= seq!['├'] + Seq::new(inner, |_j: int| '─') + seq!['┤']);
    assert(bottom_line(width) =~= seq!['└'] + Seq::new(inner, |_j: int| '─') + seq!['┘']);
    assert(top_line(title, title_width, width)[0] == '┌');
    assert(side_line(width)[0] == '│');
    assert(bottom_line(width)[0] == '└');
    assert(separator_line(width)[0] == '├');
}

/// Where the title takes one cell per character and fits inside the
/// corners, every line of the block is exactly as wide as the area.
pub proof fn lemma_block_fills_width(title: Seq<char>, title_width: nat, width: nat, height: nat, dist_from_bottom: nat)
    requires
        title.len() == title_width,
        width >= 2 + title_width,
    ensures
        forall|i: int|
            0 <= i < block_text(title, title_width, width, height, dist_from_bottom).len()
                ==> #[trigger] block_text(title, title_width, width, height, dist_from_bottom)[i].len()
                == width,
{
}

} // verus!
