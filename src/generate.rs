use vstd::prelude::*;
use rand::rngs::StdRng;
use crate::color::{ColorPreset, Paint};
use crate::document::{caption_label, document, document_text, label_text};
use crate::grid::{GridSpec, Layout};
use crate::render::{picture, render, samples_fit, RowSample};
use crate::sample::{from_palette, random_mask, sample_mask, Palette};

verus! {

/// Whether a row was drawn from `palette` with masks of 64-bit draws.
pub open spec fn row_drawn(g: GridSpec, palette: Palette, s: RowSample) -> bool {
    &&& from_palette(s.color, palette)
    &&& exists|x: i64| s.row_mask@ == sample_mask(x, g.columns as nat)
    &&& exists|x: i64| s.col_mask@ == sample_mask(x, g.columns as nat)
}

/// Whether the draws of a whole picture come from `palette` and fit the grid.
pub open spec fn draws_fit(g: GridSpec, palette: Palette, col_colors: Seq<Paint>, rows: Seq<RowSample>) -> bool {
    &&& samples_fit(g, col_colors, rows)
    &&& forall|c: int| 0 <= c < col_colors.len() ==> from_palette(#[trigger] col_colors[c], palette)
    &&& forall|r: int| 0 <= r < rows.len() ==> row_drawn(g, palette, #[trigger] rows[r])
}

/// The caption of a picture: the preset's name and the build identifier, shown
/// only for a preset palette and a given build.
pub open spec fn caption_of(palette: Palette, build: Option<&str>) -> Option<Seq<char>> {
    match (palette, build) {
        (Palette::Preset(p), Some(b)) => Some(label_text(p, b@)),
        _ => None,
    }
}

/// Draws one colour per column.
pub fn draw_column_colors(rng: &mut StdRng, g: &GridSpec, palette: &Palette) -> (r: Vec<Paint>)
    ensures
        r@.len() == g.columns,
        forall|c: int| 0 <= c < r@.len() ==> from_palette(#[trigger] r@[c], *palette) && r@[c].wf(),
{
    let mut r: Vec<Paint> = Vec::new();
    let mut c: u32 = 0;
    while c < g.columns
        invariant
            c <= g.columns,
            r@.len() == c,
            forall|j: int| 0 <= j < r@.len() ==> from_palette(#[trigger] r@[j], *palette) && r@[j].wf(),
        decreases g.columns - c,
    {
        let p = palette.draw(rng);
        r.push(p);
        c = c + 1;
    }
    r
}

/// Draws one row: its colour, then the mask along the row, then the mask of
/// horizontal ticks.
pub fn draw_row(rng: &mut StdRng, g: &GridSpec, palette: &Palette) -> (r: RowSample)
    requires
        g.columns <= 64,
    ensures
        row_drawn(*g, *palette, r),
        r.color.wf(),
        r.row_mask@.len() == g.columns,
        r.col_mask@.len() == g.columns,
{
    let color = palette.draw(rng);
    let row_mask = random_mask(rng, g.columns as usize);
    let col_mask = random_mask(rng, g.columns as usize);
    RowSample { color, row_mask, col_mask }
}

/// Draws every row.
pub fn draw_rows(rng: &mut StdRng, g: &GridSpec, palette: &Palette) -> (r: Vec<RowSample>)
    requires
        g.columns <= 64,
    ensures
        r@.len() == g.rows,
        forall|i: int| 0 <= i < r@.len() ==> {
            &&& row_drawn(*g, *palette, #[trigger] r@[i])
            &&& r@[i].color.wf()
            &&& r@[i].row_mask@.len() == g.columns
            &&& r@[i].col_mask@.len() == g.columns
        },
{
    let mut r: Vec<RowSample> = Vec::new();
    let mut i: u32 = 0;
    while i < g.rows
        invariant
            g.columns <= 64,
            i <= g.rows,
            r@.len() == i,
            forall|j: int| 0 <= j < r@.len() ==> {
                &&& row_drawn(*g, *palette, #[trigger] r@[j])
                &&& r@[j].color.wf()
                &&& r@[j].row_mask@.len() == g.columns
                &&& r@[j].col_mask@.len() == g.columns
            },
        decreases g.rows - i,
    {
        let s = draw_row(rng, g, palette);
        r.push(s);
        i = i + 1;
    }
    r
}

/// Generates one picture: draws column colours and rows from `rng`, renders them
/// in `layout` and writes the document, captioned when the palette is a preset
/// and a build identifier is given.
pub fn generate(rng: &mut StdRng, g: &GridSpec, layout: Layout, palette: &Palette, build: Option<&str>) -> (r: String)
    requires
        g.wf(),
        g.columns <= 64,
    ensures
        exists|col_colors: Seq<Paint>, rows: Seq<RowSample>|
            draws_fit(*g, *palette, col_colors, rows)
            && r@ == document_text(*g, picture(*g, layout, col_colors, rows), caption_of(*palette, build)),
{
    let col_colors = draw_column_colors(rng, g, palette);
    let rows = draw_rows(rng, g, palette);
    assert(draws_fit(*g, *palette, col_colors@, rows@));
    let segs = render(g, layout, &col_colors, &rows);
    let r = match (palette, build) {
        (Palette::Preset(p), Some(b)) => {
            let label = caption_label(p, b);
            document(g, &segs, Some(label.as_str()))
        },
        _ => document(g, &segs, None),
    };
    assert(draws_fit(*g, *palette, col_colors@, rows@)
        && r@ == document_text(*g, picture(*g, layout, col_colors@, rows@), caption_of(*palette, build)));
    r
}

/// The build identifier shown in a caption; `head` when none is known.
pub open spec fn build_id(build: Option<&str>) -> Seq<char> {
    match build {
        Some(b) => b@,
        None => "head"@,
    }
}

/// Draws a preset, then generates a knit picture of HSL colours under it,
/// captioned with the preset's name and the build identifier.
pub fn generate_knit(rng: &mut StdRng, g: &GridSpec, build: Option<&str>) -> (r: (ColorPreset, String))
    requires
        g.wf(),
        g.columns <= 64,
    ensures
        exists|col_colors: Seq<Paint>, rows: Seq<RowSample>|
            draws_fit(*g, Palette::Preset(r.0), col_colors, rows)
            && r.1@ == document_text(*g, picture(*g, Layout::Knit, col_colors, rows), Some(label_text(r.0, build_id(build)))),
{
    let preset = ColorPreset::random(rng);
    let palette = Palette::Preset(preset);
    let id = match build {
        Some(b) => b,
        None => "head",
    };
    let doc = generate(rng, g, Layout::Knit, &palette, Some(id));
    (preset, doc)
}

} // verus!

