use vstd::prelude::*;

verus! {

/// The two ways of drawing a picture.
#[derive(Clone, Copy, Debug, PartialEq, Eq, Structural)]
pub enum Layout {
    /// One diagonal stroke per set bit, its direction flipping from row to row.
    Hatch,
    /// Short vertical and horizontal ticks forming a lattice.
    Knit,
}

/// Pixel size of a picture, spacing of its lattice and the number of lattice cells.
#[derive(Clone, Copy, Debug, PartialEq, Eq, Structural)]
pub struct GridSpec {
    pub width: u32,
    pub height: u32,
    pub gap: u32,
    pub columns: u32,
    pub rows: u32,
}

/// `n / gap`, less one when `trim` holds, never below zero.
pub open spec fn cells(n: int, gap: int, trim: bool) -> int {
    if trim && n / gap > 0 { n / gap - 1 } else if trim { 0 } else { n / gap }
}

/// The hatch layout trims both counts; the knit layout keeps every column.
pub open spec fn trims_columns(layout: Layout) -> bool {
    layout == Layout::Hatch
}

impl GridSpec {
    pub open spec fn wf(self) -> bool {
        &&& self.gap > 0
        &&& self.columns as int * self.gap as int <= self.width as int
        &&& self.rows as int * self.gap as int <= self.height as int
    }

    /// The grid of a layout, its counts derived from the pixel size.
    pub fn new(width: u32, height: u32, gap: u32, layout: Layout) -> (r: GridSpec)
        requires
            gap > 0,
        ensures
            r.wf(),
            r.width == width && r.height == height && r.gap == gap,
            r.columns as int == cells(width as int, gap as int, trims_columns(layout)),
            r.rows as int == cells(height as int, gap as int, true),
    {
        let c = width / gap;
        let r = height / gap;
        let columns = if layout == Layout::Hatch && c > 0 { c - 1 } else if layout == Layout::Hatch { 0 } else { c };
        let rows = if r > 0 { r - 1 } else { 0 };
        proof {
            assert((width / gap) as int * gap as int <= width as int) by (nonlinear_arith)
                requires gap > 0;
            assert((height / gap) as int * gap as int <= height as int) by (nonlinear_arith)
                requires gap > 0;
            assert(columns as int * gap as int <= (width / gap) as int * gap as int) by (nonlinear_arith)
                requires columns <= width / gap;
            assert(rows as int * gap as int <= (height / gap) as int * gap as int) by (nonlinear_arith)
                requires rows <= height / gap;
        }
        GridSpec { width, height, gap, columns, rows }
    }
}

/// Every grid holds non-negative counts, each the pixel size over the gap or one less.
pub proof fn grid_counts(width: u32, height: u32, gap: u32, layout: Layout, g: GridSpec)
    requires
        gap > 0,
        g.width == width && g.height == height && g.gap == gap,
        g.columns as int == cells(width as int, gap as int, trims_columns(layout)),
        g.rows as int == cells(height as int, gap as int, true),
    ensures
        g.columns >= 0 && g.rows >= 0,
        g.columns == width / gap || g.columns == width / gap - 1,
        g.rows == height / gap || g.rows == height / gap - 1,
        layout == Layout::Hatch && width / gap > 0 ==> g.columns == width / gap - 1,
        layout == Layout::Knit ==> g.columns == width / gap,
        height / gap > 0 ==> g.rows == height / gap - 1,
{
}

} // verus!
