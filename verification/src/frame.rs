//! What a widget draws, and what drawing does to a screen.
//!
//! A widget does not touch the terminal. It hands back a list of
//! [`DrawOp`]s, each of which writes into cells of the screen: text or a run
//! of one character in a single row, or blanks over whole rows. The terminal
//! backend carries them out in order; whatever falls outside the screen is
//! clipped there.
//!
//! The screen itself appears here only as a model: a map from the cells that
//! the terminal shows to what stands in them. [`paint`] says what a list of
//! strokes does to it, [`lemma_paint_twice`] that doing it twice changes
//! nothing further, and [`lemma_paint_covered`] that a cell which the strokes
//! cover keeps nothing of what stood there before.

use vstd::prelude::*;

verus! {

/// The colour pairing of a cell.
#[derive(Clone, Copy, Debug, PartialEq, Eq, Structural)]
pub enum Color {
    /// The terminal's own colours.
    Default,
    /// The pairing of the memory bar: its fill and its brackets.
    Bar,
    /// The pairing of the text beside the memory bar.
    Annotation,
}

/// How a cell is drawn.
#[derive(Clone, Copy, Debug, PartialEq, Eq, Structural)]
pub struct Style {
    pub color: Color,
    pub bold: bool,
}

/// One drawing step.
#[derive(Clone, Debug, PartialEq, Eq)]
pub enum DrawOp {
    /// The characters of `text`, the first at (`row`, `col`), from left to
    /// right.
    Text { row: u128, col: u128, text: String, style: Style },
    /// The character `glyph` in `len` cells, the first at (`row`, `col`),
    /// from left to right.
    Fill { row: u128, col: u128, len: u128, glyph: char, style: Style },
    /// A blank in every cell of the rows from `first` to `last`.
    Blank { first: u128, last: u128 },
}

/// A drawing step as a mathematical value.
pub enum Stroke {
    Text { row: int, col: int, text: Seq<char>, style: Style },
    Fill { row: int, col: int, len: nat, glyph: char, style: Style },
    Blank { first: int, last: int },
}

impl View for DrawOp {
    type V = Stroke;

    open spec fn view(&self) -> Stroke {
        match self {
            DrawOp::Text { row, col, text, style } => Stroke::Text {
                row: *row as int,
                col: *col as int,
                text: text@,
                style: *style,
            },
            DrawOp::Fill { row, col, len, glyph, style } => Stroke::Fill {
                row: *row as int,
                col: *col as int,
                len: *len as nat,
                glyph: *glyph,
                style: *style,
            },
            DrawOp::Blank { first, last } => Stroke::Blank {
                first: *first as int,
                last: *last as int,
            },
        }
    }
}

/// The strokes of a list of drawing steps, in the same order.
pub open spec fn strokes_of(ops: Seq<DrawOp>) -> Seq<Stroke> {
    ops.map_values(|op: DrawOp| op@)
}

/// The content of one cell of the screen.
pub struct Glyph {
    pub ch: char,
    pub style: Style,
}

/// A screen: the cells that the terminal shows, by row and column, each with
/// its content.
pub type Screen = Map<(int, int), Glyph>;

/// An empty cell: a space, with no colour and not bold.
pub open spec fn blank() -> Glyph {
    Glyph { ch: ' ', style: Style { color: Color::Default, bold: false } }
}

/// Whether a stroke writes the cell at (`row`, `col`).
pub open spec fn covers(stroke: Stroke, row: int, col: int) -> bool {
    match stroke {
        Stroke::Text { row: at, col: first, text, .. } => row == at && first <= col < first
            + text.len(),
        Stroke::Fill { row: at, col: first, len, .. } => row == at && first <= col < first + len,
        Stroke::Blank { first, last } => first <= row <= last,
    }
}

/// What a stroke writes into a cell that it covers, in column `col`.
pub open spec fn glyph_at(stroke: Stroke, col: int) -> Glyph {
    match stroke {
        Stroke::Text { col: first, text, style, .. } => Glyph { ch: text[col - first], style },
        Stroke::Fill { glyph, style, .. } => Glyph { ch: glyph, style },
        Stroke::Blank { .. } => blank(),
    }
}

/// The screen after one stroke: the cells that the stroke covers hold what it
/// writes, the others are as before. Cells that the screen does not have stay
/// out of it.
pub open spec fn paint_one(screen: Screen, stroke: Stroke) -> Screen {
    Map::new(
        |cell: (int, int)| screen.dom().contains(cell),
        |cell: (int, int)|
            if covers(stroke, cell.0, cell.1) {
                glyph_at(stroke, cell.1)
            } else {
                screen[cell]
            },
    )
}

/// The screen after the strokes of `frame`, carried out in order.
pub open spec fn paint(screen: Screen, frame: Seq<Stroke>) -> Screen
    decreases frame.len(),
{
    if frame.len() == 0 {
        screen
    } else {
        paint_one(paint(screen, frame.drop_last()), frame.last())
    }
}

/// What stands in the cell at (`row`, `col`) after the strokes of `frame`,
/// where `before` stood there: what the last stroke that covers the cell
/// wrote, and `before` where none does.
pub open spec fn shown(before: Glyph, frame: Seq<Stroke>, row: int, col: int) -> Glyph
    decreases frame.len(),
{
    if frame.len() == 0 {
        before
    } else if covers(frame.last(), row, col) {
        glyph_at(frame.last(), col)
    } else {
        shown(before, frame.drop_last(), row, col)
    }
}

/// Painting keeps the cells of the screen, and leaves in each what
/// [`shown`] says.
pub proof fn lemma_paint_cells(screen: Screen, frame: Seq<Stroke>)
    ensures
        paint(screen, frame).dom() == screen.dom(),
        forall|row: int, col: int|
            screen.dom().contains((row, col)) ==> #[trigger] paint(screen, frame)[(row, col)]
                == shown(screen[(row, col)], frame, row, col),
    decreases frame.len(),
{
    if frame.len() > 0 {
        lemma_paint_cells(screen, frame.drop_last());
        assert(paint(screen, frame).dom() =~= screen.dom());
    }
}

/// A cell that was painted shows the same after the same strokes again.
pub proof fn lemma_shown_twice(before: Glyph, frame: Seq<Stroke>, row: int, col: int)
    ensures
        shown(shown(before, frame, row, col), frame, row, col) == shown(before, frame, row, col),
    decreases frame.len(),
{
    if frame.len() > 0 && !covers(frame.last(), row, col) {
        lemma_shown_twice(before, frame.drop_last(), row, col);
    }
}

/// Drawing the same frame a second time leaves the screen as the first time
/// left it, whatever stood on the screen before.
pub proof fn lemma_paint_twice(screen: Screen, frame: Seq<Stroke>)
    ensures
        paint(paint(screen, frame), frame) == paint(screen, frame),
{
    let once = paint(screen, frame);
    let twice = paint(once, frame);
    lemma_paint_cells(screen, frame);
    lemma_paint_cells(once, frame);
    assert forall|cell: (int, int)| once.dom().contains(cell) implies twice[cell] == once[cell] by {
        lemma_shown_twice(screen[cell], frame, cell.0, cell.1);
        assert(once[(cell.0, cell.1)] == shown(screen[(cell.0, cell.1)], frame, cell.0, cell.1));
        assert(twice[(cell.0, cell.1)] == shown(once[(cell.0, cell.1)], frame, cell.0, cell.1));
    }
    assert(twice =~= once);
}

/// The last stroke that covers a cell decides what the cell shows.
pub proof fn lemma_shown_last(before: Glyph, frame: Seq<Stroke>, k: int, row: int, col: int)
    requires
        0 <= k < frame.len(),
        covers(frame[k], row, col),
        forall|j: int| k < j < frame.len() ==> !covers(#[trigger] frame[j], row, col),
    ensures
        shown(before, frame, row, col) == glyph_at(frame[k], col),
    decreases frame.len(),
{
    if k < frame.len() - 1 {
        assert(!covers(frame[frame.len() - 1], row, col));
        lemma_shown_last(before, frame.drop_last(), k, row, col);
    }
}

/// A cell that some stroke of the frame covers shows the same after the
/// frame, whatever stood in it before.
pub proof fn lemma_shown_covered(
    first: Glyph,
    second: Glyph,
    frame: Seq<Stroke>,
    k: int,
    row: int,
    col: int,
)
    requires
        0 <= k < frame.len(),
        covers(frame[k], row, col),
    ensures
        shown(first, frame, row, col) == shown(second, frame, row, col),
    decreases frame.len(),
{
    if !covers(frame.last(), row, col) {
        lemma_shown_covered(first, second, frame.drop_last(), k, row, col);
    }
}

/// A cell that no stroke of the frame covers is left as it was.
pub proof fn lemma_shown_uncovered(before: Glyph, frame: Seq<Stroke>, row: int, col: int)
    requires
        forall|j: int| 0 <= j < frame.len() ==> !covers(#[trigger] frame[j], row, col),
    ensures
        shown(before, frame, row, col) == before,
    decreases frame.len(),
{
    if frame.len() > 0 {
        assert(!covers(frame[frame.len() - 1], row, col));
        lemma_shown_uncovered(before, frame.drop_last(), row, col);
    }
}

/// Painted on two screens, a frame leaves the same in every cell that one of
/// its strokes covers: nothing of what stood there before is kept.
pub proof fn lemma_paint_covered(
    first: Screen,
    second: Screen,
    frame: Seq<Stroke>,
    k: int,
    row: int,
    col: int,
)
    requires
        first.dom().contains((row, col)),
        second.dom().contains((row, col)),
        0 <= k < frame.len(),
        covers(frame[k], row, col),
    ensures
        paint(first, frame)[(row, col)] == paint(second, frame)[(row, col)],
{
    lemma_paint_cells(first, frame);
    lemma_paint_cells(second, frame);
    lemma_shown_covered(first[(row, col)], second[(row, col)], frame, k, row, col);
}

/// A frame changes only the cells that its strokes cover: every other cell
/// of the screen is after the frame as it was before.
pub proof fn lemma_paint_uncovered(screen: Screen, frame: Seq<Stroke>, row: int, col: int)
    requires
        screen.dom().contains((row, col)),
        forall|j: int| 0 <= j < frame.len() ==> !covers(#[trigger] frame[j], row, col),
    ensures
        paint(screen, frame)[(row, col)] == screen[(row, col)],
{
    lemma_paint_cells(screen, frame);
    lemma_shown_uncovered(screen[(row, col)], frame, row, col);
}

/// Drawing one frame and then another is drawing the two as one.
pub proof fn lemma_paint_concat(screen: Screen, first: Seq<Stroke>, second: Seq<Stroke>)
    ensures
        paint(screen, first + second) == paint(paint(screen, first), second),
    decreases second.len(),
{
    if second.len() == 0 {
        assert(first + second =~= first);
    } else {
        lemma_paint_concat(screen, first, second.drop_last());
        assert((first + second).drop_last() =~= first + second.drop_last());
        assert((first + second).last() == second.last());
    }
}

} // verus!
