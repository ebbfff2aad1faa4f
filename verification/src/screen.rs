//! A model of the terminal screen, to say what the drawing commands do to
//! it. The model is a grid of cells with a cursor; a printed character fills
//! one cell and moves the cursor one column to the right. Wrapping at the
//! right edge and characters wider than one cell are outside the model.

use crate::ansi::Style;
use crate::metadata::MetadataView;
use crate::render::{advance_ops, header_ops, DrawOp, BAR_ROW};
use vstd::prelude::*;

verus! {

/// What one cell of the screen shows: a character, in a style.
pub type Glyph = (char, Style);

/// The cells that show something, by column and row.
pub type Cells = Map<(nat, nat), Glyph>;

/// The cells after `text` was written from `column` on, on `row`: each
/// character fills the next cell to the right.
pub open spec fn stamp(cells: Cells, column: nat, row: nat, text: Seq<char>, style: Style) -> Cells
    decreases text.len(),
{
    if text.len() == 0 {
        cells
    } else {
        stamp(cells, column, row, text.drop_last(), style).insert(
            ((column + text.len() - 1) as nat, row),
            (text.last(), style),
        )
    }
}

/// The screen: its cells and the place of the cursor.
#[verifier::ext_equal]
pub struct Screen {
    pub cells: Cells,
    pub cursor: (nat, nat),
}

impl Screen {
    /// The screen after one command.
    pub open spec fn apply(self, op: DrawOp) -> Screen {
        match op {
            DrawOp::ClearAll => Screen { cells: Map::empty(), cursor: self.cursor },
            DrawOp::MoveTo { column, row } => Screen { cells: self.cells, cursor: (column, row) },
            DrawOp::Print { text, style } => Screen {
                cells: stamp(self.cells, self.cursor.0, self.cursor.1, text, style),
                cursor: (self.cursor.0 + text.len(), self.cursor.1),
            },
        }
    }

    /// The screen after a list of commands, first to last.
    pub open spec fn paint(self, ops: Seq<DrawOp>) -> Screen
        decreases ops.len(),
    {
        if ops.len() == 0 {
            self
        } else {
            self.apply(ops.first()).paint(ops.drop_first())
        }
    }

    /// Whether every cell that shows something lies on one of the rows up
    /// to `limit`.
    pub open spec fn within_rows(self, limit: nat) -> bool {
        forall|place: (nat, nat)| #[trigger] self.cells.dom().contains(place) ==> place.1 <= limit
    }
}

/// Writing text changes nothing outside the cells that the text covers.
pub proof fn lemma_stamp_keeps_the_rest(
    cells: Cells,
    column: nat,
    row: nat,
    text: Seq<char>,
    style: Style,
    place: (nat, nat),
)
    requires
        !(place.1 == row && column <= place.0 < column + text.len()),
    ensures
        stamp(cells, column, row, text, style).dom().contains(place) == cells.dom().contains(
            place,
        ),
        stamp(cells, column, row, text, style)[place] == cells[place],
    decreases text.len(),
{
    if text.len() > 0 {
        lemma_stamp_keeps_the_rest(cells, column, row, text.drop_last(), style, place);
    }
}

/// Writing text puts each of its characters into its own cell, left to
/// right from the starting column.
pub proof fn lemma_stamp_fills_the_span(
    cells: Cells,
    column: nat,
    row: nat,
    text: Seq<char>,
    style: Style,
    at: int,
)
    requires
        0 <= at < text.len(),
    ensures
        stamp(cells, column, row, text, style).dom().contains(((column + at) as nat, row)),
        stamp(cells, column, row, text, style)[((column + at) as nat, row)] == (text[at], style),
    decreases text.len(),
{
    if at < text.len() - 1 {
        lemma_stamp_fills_the_span(cells, column, row, text.drop_last(), style, at);
    }
}

/// Painting a list with one more command is painting the list, then
/// applying the command.
pub proof fn lemma_paint_push(screen: Screen, ops: Seq<DrawOp>, op: DrawOp)
    ensures
        screen.paint(ops.push(op)) == screen.paint(ops).apply(op),
    decreases ops.len(),
{
    let longer = ops.push(op);
    if ops.len() == 0 {
        assert(longer.drop_first() =~= ops);
        assert(longer.first() == op);
        assert(screen.apply(op).paint(longer.drop_first()) == screen.apply(op));
    } else {
        assert(longer.first() == ops.first());
        assert(longer.drop_first() =~= ops.drop_first().push(op));
        lemma_paint_push(screen.apply(ops.first()), ops.drop_first(), op);
    }
}

/// Printing fills cells on the cursor's row only: a screen that shows
/// nothing below a row still shows nothing below it, if the cursor stands
/// on or above that row.
pub proof fn lemma_print_stays_on_its_row(
    screen: Screen,
    text: Seq<char>,
    style: Style,
    limit: nat,
)
    requires
        screen.within_rows(limit),
        screen.cursor.1 <= limit,
    ensures
        screen.apply(DrawOp::Print { text, style }).within_rows(limit),
{
    let after = screen.apply(DrawOp::Print { text, style });
    assert forall|place: (nat, nat)| #[trigger] after.cells.dom().contains(place) implies place.1
        <= limit by {
        if place.1 != screen.cursor.1 {
            lemma_stamp_keeps_the_rest(
                screen.cells,
                screen.cursor.0,
                screen.cursor.1,
                text,
                style,
                place,
            );
        }
    }
}

/// Printing one character fills the cell under the cursor and no other.
pub proof fn lemma_print_one_character(screen: Screen, text: Seq<char>, style: Style)
    requires
        text.len() == 1,
    ensures
        screen.apply(DrawOp::Print { text, style }).cells == screen.cells.insert(
            screen.cursor,
            (text[0], style),
        ),
{
    assert(text.drop_last().len() == 0);
    assert(stamp(screen.cells, screen.cursor.0, screen.cursor.1, text, style)
        == screen.cells.insert(screen.cursor, (text[0], style))) by {
        reveal_with_fuel(stamp, 2);
    }
}

/// Commands that begin by clearing the screen and placing the cursor leave
/// nothing of the screen they started on.
pub proof fn lemma_clear_and_move_forget(a: Screen, b: Screen, ops: Seq<DrawOp>)
    requires
        ops.len() >= 2,
        ops[0] is ClearAll,
        ops[1] is MoveTo,
    ensures
        a.paint(ops) == b.paint(ops),
{
    let rest = ops.drop_first();
    assert(rest.len() >= 1 && rest.first() == ops[1]);
    assert(a.paint(ops) == a.apply(ops[0]).paint(rest));
    assert(a.apply(ops[0]).paint(rest) == a.apply(ops[0]).apply(ops[1]).paint(
        rest.drop_first(),
    ));
    assert(b.paint(ops) == b.apply(ops[0]).paint(rest));
    assert(b.apply(ops[0]).paint(rest) == b.apply(ops[0]).apply(ops[1]).paint(
        rest.drop_first(),
    ));
    assert(a.apply(ops[0]).apply(ops[1]) =~= b.apply(ops[0]).apply(ops[1]));
}

/// The header comes out the same on every screen: it clears and redraws
/// from scratch.
pub proof fn lemma_header_forgets_the_screen(
    meta: MetadataView,
    bar_width: nat,
    a: Screen,
    b: Screen,
)
    ensures
        a.paint(header_ops(meta, bar_width)) == b.paint(header_ops(meta, bar_width)),
{
    lemma_clear_and_move_forget(a, b, header_ops(meta, bar_width));
}

/// Drawing the header twice shows what drawing it once shows.
pub proof fn lemma_header_is_idempotent(meta: MetadataView, bar_width: nat, screen: Screen)
    ensures
        screen.paint(header_ops(meta, bar_width)).paint(header_ops(meta, bar_width))
            == screen.paint(header_ops(meta, bar_width)),
{
    lemma_header_forgets_the_screen(
        meta,
        bar_width,
        screen.paint(header_ops(meta, bar_width)),
        screen,
    );
}

/// An advance fills the one cell it names with the fill glyph and leaves
/// every other cell as it was.
pub proof fn lemma_advance_fills_one_cell(screen: Screen, cell: nat)
    ensures
        screen.paint(advance_ops(cell)).cells == screen.cells.insert(
            (cell, BAR_ROW as nat),
            ('=', Style::Fill),
        ),
{
    reveal_strlit("=");
    let ops = advance_ops(cell);
    let empty = Seq::<DrawOp>::empty();
    lemma_paint_push(screen, empty, ops[0]);
    lemma_paint_push(screen, empty.push(ops[0]), ops[1]);
    assert(empty.push(ops[0]).push(ops[1]) =~= ops);
    lemma_print_one_character(screen.apply(ops[0]), "="@, Style::Fill);
}

/// Fills add up: a later advance never overwrites an earlier one, so after
/// two advances for different cells both cells are filled.
pub proof fn lemma_fills_accumulate(screen: Screen, first: nat, second: nat)
    requires
        first != second,
    ensures
        ({
            let after = screen.paint(advance_ops(first)).paint(advance_ops(second));
            let fill = ('=', Style::Fill);
            &&& after.cells.dom().contains((first, BAR_ROW as nat))
            &&& after.cells[(first, BAR_ROW as nat)] == fill
            &&& after.cells.dom().contains((second, BAR_ROW as nat))
            &&& after.cells[(second, BAR_ROW as nat)] == fill
        }),
{
    lemma_advance_fills_one_cell(screen, first);
    lemma_advance_fills_one_cell(screen.paint(advance_ops(first)), second);
}

/// The header frames an empty bar below the metadata block: the opening
/// bracket in the first column of the bar's row, the closing bracket just
/// past the last cell, nothing in the cells between them, and nothing
/// below the bar's row.
pub proof fn lemma_header_frames_empty_bar(meta: MetadataView, bar_width: nat, screen: Screen)
    ensures
        ({
            let shown = screen.paint(header_ops(meta, bar_width));
            let row = BAR_ROW as nat;
            &&& shown.cells.dom().contains((0nat, row))
            &&& shown.cells[(0nat, row)] == ('[', Style::Label)
            &&& shown.cells.dom().contains((bar_width + 1, row))
            &&& shown.cells[(bar_width + 1, row)] == (']', Style::Label)
            &&& forall|cell: nat|
                1 <= cell <= bar_width ==> !shown.cells.dom().contains((cell, row))
            &&& shown.within_rows(row)
        }),
{
    reveal_strlit("[");
    reveal_strlit("]");
    let ops = header_ops(meta, bar_width);
    let s1 = screen.apply(ops[0]);
    let s2 = s1.apply(ops[1]);
    let s3 = s2.apply(ops[2]);
    let s4 = s3.apply(ops[3]);
    let s5 = s4.apply(ops[4]);
    let s6 = s5.apply(ops[5]);
    let s7 = s6.apply(ops[6]);
    let s8 = s7.apply(ops[7]);
    let s9 = s8.apply(ops[8]);
    let s10 = s9.apply(ops[9]);
    let s11 = s10.apply(ops[10]);
    let s12 = s11.apply(ops[11]);
    let s13 = s12.apply(ops[12]);
    let s14 = s13.apply(ops[13]);
    let s15 = s14.apply(ops[14]);
    let s16 = s15.apply(ops[15]);
    let s17 = s16.apply(ops[16]);
    let none = Seq::<DrawOp>::empty();
    let five = none.push(ops[0]).push(ops[1]).push(ops[2]).push(ops[3]).push(ops[4]);
    let ten = five.push(ops[5]).push(ops[6]).push(ops[7]).push(ops[8]).push(ops[9]);
    let fifteen = ten.push(ops[10]).push(ops[11]).push(ops[12]).push(ops[13]).push(ops[14]);
    lemma_paint_push(screen, none, ops[0]);
    lemma_paint_push(screen, none.push(ops[0]), ops[1]);
    lemma_paint_push(screen, none.push(ops[0]).push(ops[1]), ops[2]);
    lemma_paint_push(screen, none.push(ops[0]).push(ops[1]).push(ops[2]), ops[3]);
    lemma_paint_push(screen, none.push(ops[0]).push(ops[1]).push(ops[2]).push(ops[3]), ops[4]);
    lemma_paint_push(screen, five, ops[5]);
    lemma_paint_push(screen, five.push(ops[5]), ops[6]);
    lemma_paint_push(screen, five.push(ops[5]).push(ops[6]), ops[7]);
    lemma_paint_push(screen, five.push(ops[5]).push(ops[6]).push(ops[7]), ops[8]);
    lemma_paint_push(screen, five.push(ops[5]).push(ops[6]).push(ops[7]).push(ops[8]), ops[9]);
    lemma_paint_push(screen, ten, ops[10]);
    lemma_paint_push(screen, ten.push(ops[10]), ops[11]);
    lemma_paint_push(screen, ten.push(ops[10]).push(ops[11]), ops[12]);
    lemma_paint_push(screen, ten.push(ops[10]).push(ops[11]).push(ops[12]), ops[13]);
    lemma_paint_push(
        screen,
        ten.push(ops[10]).push(ops[11]).push(ops[12]).push(ops[13]),
        ops[14],
    );
    lemma_paint_push(screen, fifteen, ops[15]);
    lemma_paint_push(screen, fifteen.push(ops[15]), ops[16]);
    assert(fifteen.push(ops[15]).push(ops[16]) =~= ops);
    assert(screen.paint(ops) == s17);
    assert(s1.cells =~= Map::<(nat, nat), Glyph>::empty());
    assert(s2.within_rows(2));
    lemma_print_stays_on_its_row(s2, ops[2]->Print_text, Style::Label, 2);
    lemma_print_stays_on_its_row(s4, ops[4]->Print_text, Style::Value, 2);
    lemma_print_stays_on_its_row(s6, ops[6]->Print_text, Style::Label, 2);
    lemma_print_stays_on_its_row(s8, ops[8]->Print_text, Style::Value, 2);
    lemma_print_stays_on_its_row(s10, ops[10]->Print_text, Style::Label, 2);
    lemma_print_stays_on_its_row(s12, ops[12]->Print_text, Style::Value, 2);
    assert(s14.within_rows(2));
    lemma_print_one_character(s14, "["@, Style::Label);
    lemma_print_one_character(s16, "]"@, Style::Label);
    assert(forall|cell: nat|
        1 <= cell <= bar_width ==> !s14.cells.dom().contains((cell, 3nat)));
}

/// The screen after the first `count` cells of the bar were filled, one
/// advance after the other.
pub open spec fn with_fills(screen: Screen, count: nat) -> Screen
    decreases count,
{
    if count == 0 {
        screen
    } else {
        with_fills(screen, (count - 1) as nat).paint(advance_ops(count))
    }
}

/// After the header and `count` advances the bar shows `count` filled
/// cells just right of the opening bracket, blank cells up to the closing
/// bracket, and both brackets in their places.
pub proof fn lemma_bar_fills_from_the_left(
    meta: MetadataView,
    bar_width: nat,
    screen: Screen,
    count: nat,
)
    requires
        count <= bar_width,
    ensures
        with_fills(screen.paint(header_ops(meta, bar_width)), count).cells.dom().contains(
            (0nat, BAR_ROW as nat),
        ),
        with_fills(screen.paint(header_ops(meta, bar_width)), count).cells[(0nat, BAR_ROW as nat)]
            == ('[', Style::Label),
        with_fills(screen.paint(header_ops(meta, bar_width)), count).cells.dom().contains(
            (bar_width + 1, BAR_ROW as nat),
        ),
        with_fills(screen.paint(header_ops(meta, bar_width)), count).cells[(
            bar_width + 1,
            BAR_ROW as nat,
        )] == (']', Style::Label),
        forall|cell: nat|
            1 <= cell <= count ==> with_fills(
                screen.paint(header_ops(meta, bar_width)),
                count,
            ).cells.dom().contains((cell, BAR_ROW as nat)),
        forall|cell: nat|
            1 <= cell <= count ==> with_fills(
                screen.paint(header_ops(meta, bar_width)),
                count,
            ).cells[(cell, BAR_ROW as nat)] == ('=', Style::Fill),
        forall|cell: nat|
            count < cell <= bar_width ==> !with_fills(
                screen.paint(header_ops(meta, bar_width)),
                count,
            ).cells.dom().contains((cell, BAR_ROW as nat)),
    decreases count,
{
    let header = screen.paint(header_ops(meta, bar_width));
    if count == 0 {
        lemma_header_frames_empty_bar(meta, bar_width, screen);
        assert(with_fills(header, 0) == header);
    } else {
        let before = with_fills(header, (count - 1) as nat);
        let shown = with_fills(header, count);
        let row = BAR_ROW as nat;
        lemma_bar_fills_from_the_left(meta, bar_width, screen, (count - 1) as nat);
        lemma_advance_fills_one_cell(before, count);
        assert(shown.cells == before.cells.insert((count, row), ('=', Style::Fill)));
        assert forall|cell: nat| 1 <= cell <= count implies shown.cells.dom().contains(
            (cell, row),
        ) by {
            if cell < count {
                assert(before.cells.dom().contains((cell, row)));
            }
        }
        assert forall|cell: nat| 1 <= cell <= count implies shown.cells[(cell, row)] == (
            '=',
            Style::Fill,
        ) by {
            if cell < count {
                assert(before.cells[(cell, row)] == ('=', Style::Fill));
            }
        }
        assert forall|cell: nat| count < cell <= bar_width implies !shown.cells.dom().contains(
            (cell, row),
        ) by {
            assert(!before.cells.dom().contains((cell, row)));
        }
    }
}

} // verus!
