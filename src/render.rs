use vstd::prelude::*;
use crate::color::Paint;
use crate::grid::{GridSpec, Layout};

verus! {

/// One straight stroke between two pixel points.
#[derive(Clone, Copy, Debug, PartialEq, Eq, Structural)]
pub struct Segment {
    pub x1: u64,
    pub y1: u64,
    pub x2: u64,
    pub y2: u64,
    pub stroke: Paint,
}

/// What was drawn for one row: its colour, the mask along the row and, for the
/// knit layout, the mask of horizontal ticks.
#[derive(Debug)]
pub struct RowSample {
    pub color: Paint,
    pub row_mask: Vec<bool>,
    pub col_mask: Vec<bool>,
}

/// Whether the samples fit the grid: one colour per column, one row sample per
/// row, masks of one position per column and colours that print.
pub open spec fn samples_fit(g: GridSpec, col_colors: Seq<Paint>, rows: Seq<RowSample>) -> bool {
    &&& col_colors.len() == g.columns
    &&& rows.len() == g.rows
    &&& forall|c: int| 0 <= c < col_colors.len() ==> (#[trigger] col_colors[c]).wf()
    &&& forall|r: int| 0 <= r < rows.len() ==> {
        &&& (#[trigger] rows[r]).color.wf()
        &&& rows[r].row_mask@.len() == g.columns
        &&& rows[r].col_mask@.len() == g.columns
    }
}

pub open spec fn seg(x1: int, y1: int, x2: int, y2: int, stroke: Paint) -> Segment {
    Segment { x1: x1 as u64, y1: y1 as u64, x2: x2 as u64, y2: y2 as u64, stroke }
}

/// The segments of the cell at (`row`, `col`).
///
/// Hatch: a set bit gives a diagonal, falling to the right with the column's
/// colour on even rows and falling to the left with the row's colour on odd rows.
/// Knit: a set row bit gives a vertical tick with the column's colour, except in
/// the last column; a set column bit gives a horizontal tick with the row's
/// colour, except in the last row.
pub open spec fn cell_segments(
    g: GridSpec,
    layout: Layout,
    col_colors: Seq<Paint>,
    rows: Seq<RowSample>,
    row: int,
    col: int,
) -> Seq<Segment> {
    let s = rows[row];
    let x = col * g.gap;
    let y = row * g.gap;
    let d = g.gap as int;
    match layout {
        Layout::Hatch => if s.row_mask@[col] {
            if row % 2 == 0 {
                seq![seg(x, y, x + d, y + d, col_colors[col])]
            } else {
                seq![seg(x + d, y, x, y + d, s.color)]
            }
        } else {
            seq![]
        },
        Layout::Knit => {
            let v = if col < g.columns - 1 && s.row_mask@[col] {
                seq![seg(x + d, y, x + d, y + d, col_colors[col])]
            } else {
                seq![]
            };
            let h = if row < g.rows - 1 && s.col_mask@[col] {
                seq![seg(x, y + d, x + d, y + d, s.color)]
            } else {
                seq![]
            };
            v + h
        },
    }
}

/// The segments of the first `n` cells of `row`, in column order.
pub open spec fn row_segments(
    g: GridSpec,
    layout: Layout,
    col_colors: Seq<Paint>,
    rows: Seq<RowSample>,
    row: int,
    n: nat,
) -> Seq<Segment>
    decreases n,
{
    if n == 0 {
        seq![]
    } else {
        row_segments(g, layout, col_colors, rows, row, (n - 1) as nat)
            + cell_segments(g, layout, col_colors, rows, row, n - 1)
    }
}

/// The segments of the first `n` rows, in row order.
pub open spec fn rows_segments(
    g: GridSpec,
    layout: Layout,
    col_colors: Seq<Paint>,
    rows: Seq<RowSample>,
    n: nat,
) -> Seq<Segment>
    decreases n,
{
    if n == 0 {
        seq![]
    } else {
        rows_segments(g, layout, col_colors, rows, (n - 1) as nat)
            + row_segments(g, layout, col_colors, rows, n - 1, g.columns as nat)
    }
}

/// Every segment of a picture, row by row and, within a row, column by column.
pub open spec fn picture(g: GridSpec, layout: Layout, col_colors: Seq<Paint>, rows: Seq<RowSample>) -> Seq<Segment> {
    rows_segments(g, layout, col_colors, rows, rows.len())
}

/// A vertical stroke stays left of the last column line and a horizontal one
/// above the last row line.
pub open spec fn stays_inside(g: GridSpec, s: Segment) -> bool {
    &&& s.x1 == s.x2 ==> s.x1 < g.columns * g.gap
    &&& s.y1 == s.y2 ==> s.y1 < g.rows * g.gap
}

/// The segments printable with their colours and lying inside the picture.
pub open spec fn segment_ok(g: GridSpec, s: Segment) -> bool {
    &&& s.stroke.wf()
    &&& stays_inside(g, s)
    &&& s.x1 <= g.width && s.x2 <= g.width
    &&& s.y1 <= g.height && s.y2 <= g.height
}

proof fn lemma_cell_ok(g: GridSpec, layout: Layout, col_colors: Seq<Paint>, rows: Seq<RowSample>, row: int, col: int)
    requires
        g.wf(),
        samples_fit(g, col_colors, rows),
        0 <= row < g.rows,
        0 <= col < g.columns,
    ensures
        forall|i: int| 0 <= i < cell_segments(g, layout, col_colors, rows, row, col).len()
            ==> segment_ok(g, #[trigger] cell_segments(g, layout, col_colors, rows, row, col)[i]),
{
    let gap = g.gap as int;
    assert((col + 1) * gap <= g.columns * gap) by (nonlinear_arith)
        requires col + 1 <= g.columns, gap > 0;
    assert((row + 1) * gap <= g.rows * gap) by (nonlinear_arith)
        requires row + 1 <= g.rows, gap > 0;
    assert(col * gap >= 0 && row * gap >= 0) by (nonlinear_arith)
        requires col >= 0, row >= 0, gap > 0;
    assert((col + 1) * gap == col * gap + gap) by (nonlinear_arith);
    assert((row + 1) * gap == row * gap + gap) by (nonlinear_arith);
    if col < g.columns - 1 {
        assert((col + 2) * gap <= g.columns * gap) by (nonlinear_arith)
            requires col + 2 <= g.columns, gap > 0;
        assert((col + 2) * gap == col * gap + gap + gap) by (nonlinear_arith);
    }
    if row < g.rows - 1 {
        assert((row + 2) * gap <= g.rows * gap) by (nonlinear_arith)
            requires row + 2 <= g.rows, gap > 0;
        assert((row + 2) * gap == row * gap + gap + gap) by (nonlinear_arith);
    }
    assert(rows[row].color.wf());
    assert(col_colors[col].wf());
}

/// `i * gap` as a pixel coordinate.
fn offset(i: u32, gap: u32) -> (r: u64)
    ensures
        r as int == i as int * gap as int,
        r as int + u32::MAX as int <= u64::MAX as int,
{
    assert(i as int * gap as int <= u32::MAX as int * u32::MAX as int) by (nonlinear_arith);
    assert(i as int * gap as int >= 0) by (nonlinear_arith);
    i as u64 * gap as u64
}

fn push_cell(
    out: &mut Vec<Segment>,
    g: &GridSpec,
    layout: Layout,
    col_colors: &Vec<Paint>,
    rows: &Vec<RowSample>,
    row: u32,
    col: u32,
)
    requires
        g.wf(),
        samples_fit(*g, col_colors@, rows@),
        row < g.rows,
        col < g.columns,
    ensures
        final(out)@ == old(out)@ + cell_segments(*g, layout, col_colors@, rows@, row as int, col as int),
{
    let s = &rows[row as usize];
    let x = offset(col, g.gap);
    let y = offset(row, g.gap);
    let d = g.gap as u64;
    let ghost before = out@;
    let ghost cell = cell_segments(*g, layout, col_colors@, rows@, row as int, col as int);
    match layout {
        Layout::Hatch => {
            if s.row_mask[col as usize] {
                if row % 2 == 0 {
                    out.push(Segment { x1: x, y1: y, x2: x + d, y2: y + d, stroke: col_colors[col as usize] });
                } else {
                    out.push(Segment { x1: x + d, y1: y, x2: x, y2: y + d, stroke: s.color });
                }
            }
        },
        Layout::Knit => {
            if col + 1 < g.columns && s.row_mask[col as usize] {
                out.push(Segment { x1: x + d, y1: y, x2: x + d, y2: y + d, stroke: col_colors[col as usize] });
            }
            if row + 1 < g.rows && s.col_mask[col as usize] {
                out.push(Segment { x1: x, y1: y + d, x2: x + d, y2: y + d, stroke: s.color });
            }
        },
    }
    assert(out@ =~= before + cell);
}

/// Renders a picture: the segments of every cell, row by row.
pub fn render(g: &GridSpec, layout: Layout, col_colors: &Vec<Paint>, rows: &Vec<RowSample>) -> (r: Vec<Segment>)
    requires
        g.wf(),
        samples_fit(*g, col_colors@, rows@),
    ensures
        r@ == picture(*g, layout, col_colors@, rows@),
        forall|i: int| 0 <= i < r@.len() ==> segment_ok(*g, #[trigger] r@[i]),
{
    let mut out: Vec<Segment> = Vec::new();
    let mut row: u32 = 0;
    while row < g.rows
        invariant
            g.wf(),
            samples_fit(*g, col_colors@, rows@),
            row <= g.rows,
            out@ == rows_segments(*g, layout, col_colors@, rows@, row as nat),
            forall|i: int| 0 <= i < out@.len() ==> segment_ok(*g, #[trigger] out@[i]),
        decreases g.rows - row,
    {
        let mut col: u32 = 0;
        while col < g.columns
            invariant
                g.wf(),
                samples_fit(*g, col_colors@, rows@),
                row < g.rows,
                col <= g.columns,
                out@ == rows_segments(*g, layout, col_colors@, rows@, row as nat)
                    + row_segments(*g, layout, col_colors@, rows@, row as int, col as nat),
                forall|i: int| 0 <= i < out@.len() ==> segment_ok(*g, #[trigger] out@[i]),
            decreases g.columns - col,
        {
            let ghost before = out@;
            proof { lemma_cell_ok(*g, layout, col_colors@, rows@, row as int, col as int); }
            push_cell(&mut out, g, layout, col_colors, rows, row, col);
            assert(out@ =~= rows_segments(*g, layout, col_colors@, rows@, row as nat)
                + row_segments(*g, layout, col_colors@, rows@, row as int, (col + 1) as nat));
            assert forall|i: int| 0 <= i < out@.len() implies segment_ok(*g, #[trigger] out@[i]) by {
                if i >= before.len() {
                    let cell = cell_segments(*g, layout, col_colors@, rows@, row as int, col as int);
                    assert(out@[i] == cell[i - before.len()]);
                }
            }
            col = col + 1;
        }
        assert(out@ =~= rows_segments(*g, layout, col_colors@, rows@, (row + 1) as nat));
        row = row + 1;
    }
    assert(rows@.len() == g.rows);
    out
}

} // verus!

verus! {

/// The number of set positions of a mask.
pub open spec fn count_true(s: Seq<bool>) -> nat
    decreases s.len(),
{
    if s.len() == 0 {
        0
    } else {
        count_true(s.drop_last()) + if s.last() { 1nat } else { 0nat }
    }
}

/// The columns that may carry a vertical knit tick: all but the last.
pub open spec fn tick_columns(g: GridSpec) -> nat {
    if g.columns > 0 { (g.columns - 1) as nat } else { 0 }
}

/// The strokes that the set bits of one row allow, after the boundary rule.
pub open spec fn row_bits(g: GridSpec, layout: Layout, s: RowSample, row: int) -> nat {
    match layout {
        Layout::Hatch => count_true(s.row_mask@),
        Layout::Knit => count_true(s.row_mask@.take(tick_columns(g) as int))
            + if row < g.rows - 1 { count_true(s.col_mask@) } else { 0nat },
    }
}

/// The strokes that the first `n` rows allow.
pub open spec fn bits_total(g: GridSpec, layout: Layout, rows: Seq<RowSample>, n: nat) -> nat
    decreases n,
{
    if n == 0 {
        0
    } else {
        bits_total(g, layout, rows, (n - 1) as nat) + row_bits(g, layout, rows[n - 1], n - 1)
    }
}

proof fn lemma_count_take(s: Seq<bool>, i: int)
    requires
        0 <= i < s.len(),
    ensures
        count_true(s.take(i + 1)) == count_true(s.take(i)) + if s[i] { 1nat } else { 0nat },
{
    assert(s.take(i + 1).drop_last() =~= s.take(i));
}

proof fn lemma_row_len(g: GridSpec, layout: Layout, col_colors: Seq<Paint>, rows: Seq<RowSample>, row: int, n: nat)
    requires
        samples_fit(g, col_colors, rows),
        0 <= row < rows.len(),
        n <= g.columns,
    ensures
        row_segments(g, layout, col_colors, rows, row, n).len() == match layout {
            Layout::Hatch => count_true(rows[row].row_mask@.take(n as int)),
            Layout::Knit => count_true(rows[row].row_mask@.take(if n < tick_columns(g) { n as int } else { tick_columns(g) as int }))
                + if row < g.rows - 1 { count_true(rows[row].col_mask@.take(n as int)) } else { 0nat },
        },
    decreases n,
{
    let rm = rows[row].row_mask@;
    let cm = rows[row].col_mask@;
    if n == 0 {
        assert(rm.take(0) =~= Seq::<bool>::empty());
        assert(cm.take(0) =~= Seq::<bool>::empty());
    } else {
        lemma_row_len(g, layout, col_colors, rows, row, (n - 1) as nat);
        lemma_count_take(rm, n - 1);
        lemma_count_take(cm, n - 1);
    }
}

proof fn lemma_rows_len(g: GridSpec, layout: Layout, col_colors: Seq<Paint>, rows: Seq<RowSample>, n: nat)
    requires
        samples_fit(g, col_colors, rows),
        n <= rows.len(),
    ensures
        rows_segments(g, layout, col_colors, rows, n).len() == bits_total(g, layout, rows, n),
    decreases n,
{
    if n > 0 {
        lemma_rows_len(g, layout, col_colors, rows, (n - 1) as nat);
        let row = n - 1;
        lemma_row_len(g, layout, col_colors, rows, row, g.columns as nat);
        assert(rows[row].row_mask@.take(g.columns as int) =~= rows[row].row_mask@);
        assert(rows[row].col_mask@.take(g.columns as int) =~= rows[row].col_mask@);
    }
}

/// A picture has one stroke for each set bit of its masks, leaving out the bits
/// that the knit layout drops at the last column and the last row.
pub proof fn stroke_count(g: GridSpec, layout: Layout, col_colors: Seq<Paint>, rows: Seq<RowSample>)
    requires
        samples_fit(g, col_colors, rows),
    ensures
        picture(g, layout, col_colors, rows).len() == bits_total(g, layout, rows, rows.len()),
{
    lemma_rows_len(g, layout, col_colors, rows, rows.len());
}

/// Whether two rows were drawn alike: same colour and the same masks.
pub open spec fn same_row(a: RowSample, b: RowSample) -> bool {
    a.color == b.color && a.row_mask@ == b.row_mask@ && a.col_mask@ == b.col_mask@
}

proof fn lemma_same_rows(
    g: GridSpec,
    layout: Layout,
    col_colors: Seq<Paint>,
    a: Seq<RowSample>,
    b: Seq<RowSample>,
    n: nat,
)
    requires
        a.len() == b.len(),
        n <= a.len(),
        forall|r: int| 0 <= r < a.len() ==> same_row(#[trigger] a[r], b[r]),
    ensures
        rows_segments(g, layout, col_colors, a, n) == rows_segments(g, layout, col_colors, b, n),
    decreases n,
{
    if n > 0 {
        lemma_same_rows(g, layout, col_colors, a, b, (n - 1) as nat);
        let row = n - 1;
        assert(same_row(a[row], b[row]));
        lemma_same_cells(g, layout, col_colors, a, b, row, g.columns as nat);
    }
}

proof fn lemma_same_cells(
    g: GridSpec,
    layout: Layout,
    col_colors: Seq<Paint>,
    a: Seq<RowSample>,
    b: Seq<RowSample>,
    row: int,
    n: nat,
)
    requires
        0 <= row < a.len(),
        a.len() == b.len(),
        same_row(a[row], b[row]),
    ensures
        row_segments(g, layout, col_colors, a, row, n) == row_segments(g, layout, col_colors, b, row, n),
    decreases n,
{
    if n > 0 {
        lemma_same_cells(g, layout, col_colors, a, b, row, (n - 1) as nat);
        assert(cell_segments(g, layout, col_colors, a, row, n - 1) == cell_segments(g, layout, col_colors, b, row, n - 1));
    }
}

/// A picture depends on its draws alone: rows drawn alike give the same segments.
pub proof fn same_draws_same_picture(
    g: GridSpec,
    layout: Layout,
    col_colors: Seq<Paint>,
    a: Seq<RowSample>,
    b: Seq<RowSample>,
)
    requires
        a.len() == b.len(),
        forall|r: int| 0 <= r < a.len() ==> same_row(#[trigger] a[r], b[r]),
    ensures
        picture(g, layout, col_colors, a) == picture(g, layout, col_colors, b),
{
    lemma_same_rows(g, layout, col_colors, a, b, a.len());
}

} // verus!
