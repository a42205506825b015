use rand::rngs::StdRng;
use rand::SeedableRng;
use useless_svg::color::{Color, Paint, Rgb, ColorPreset};
use useless_svg::digest::etag;
use useless_svg::document::{caption_label, document};
use useless_svg::generate::{generate, generate_knit};
use useless_svg::grid::{GridSpec, Layout};
use useless_svg::render::{render, RowSample, Segment};
use useless_svg::sample::Palette;

fn grey(l: i16) -> Paint {
    Paint::Hsl(Color { hue: 0, saturation: 0, lightness: l })
}

fn full_rows(g: &GridSpec) -> Vec<RowSample> {
    (0..g.rows)
        .map(|r| RowSample {
            color: grey(r as i16),
            row_mask: vec![true; g.columns as usize],
            col_mask: vec![true; g.columns as usize],
        })
        .collect()
}

#[test]
fn knit_drops_last_column_and_row() {
    // 40 x 40 with gap 10: 4 columns, 3 rows.
    let g = GridSpec::new(40, 40, 10, Layout::Knit);
    assert_eq!((g.columns, g.rows), (4, 3));
    let colors: Vec<Paint> = (0..4).map(|c| grey(50 + c)).collect();
    let segs = render(&g, Layout::Knit, &colors, &full_rows(&g));
    // 3 vertical ticks per row over 3 rows, 4 horizontal ticks in each of the first 2 rows.
    assert_eq!(segs.len(), 9 + 8);
    for s in &segs {
        if s.x1 == s.x2 {
            assert!(s.x1 < 40);
        }
        if s.y1 == s.y2 {
            assert!(s.y1 < 30);
        }
    }
    assert_eq!(segs[0], Segment { x1: 10, y1: 0, x2: 10, y2: 10, stroke: grey(50) });
    assert_eq!(segs[1], Segment { x1: 0, y1: 10, x2: 10, y2: 10, stroke: grey(0) });
}

#[test]
fn knit_counts_only_set_bits() {
    let g = GridSpec::new(40, 40, 10, Layout::Knit);
    let colors: Vec<Paint> = (0..4).map(|c| grey(c)).collect();
    let rows = vec![
        RowSample { color: grey(1), row_mask: vec![true, false, false, true], col_mask: vec![false, true, false, false] },
        RowSample { color: grey(2), row_mask: vec![false; 4], col_mask: vec![false; 4] },
        RowSample { color: grey(3), row_mask: vec![true; 4], col_mask: vec![true; 4] },
    ];
    let segs = render(&g, Layout::Knit, &colors, &rows);
    // row 0: vertical at column 0 (column 3 is last), horizontal at column 1;
    // row 2 is last: verticals at columns 0..3 only.
    assert_eq!(segs.len(), 2 + 3);
}

#[test]
fn hatch_flips_direction_by_row() {
    let g = GridSpec::new(30, 30, 10, Layout::Hatch);
    assert_eq!((g.columns, g.rows), (2, 2));
    let colors = vec![grey(10), grey(20)];
    let rows = vec![
        RowSample { color: grey(1), row_mask: vec![false, true], col_mask: vec![false; 2] },
        RowSample { color: grey(2), row_mask: vec![true, false], col_mask: vec![false; 2] },
    ];
    let segs = render(&g, Layout::Hatch, &colors, &rows);
    assert_eq!(segs, vec![
        Segment { x1: 10, y1: 0, x2: 20, y2: 10, stroke: grey(20) },
        Segment { x1: 10, y1: 10, x2: 0, y2: 20, stroke: grey(2) },
    ]);
}

#[test]
fn document_without_caption() {
    let g = GridSpec::new(500, 250, 10, Layout::Hatch);
    let segs = vec![Segment { x1: 0, y1: 0, x2: 10, y2: 10, stroke: Paint::Rgb(Rgb { red: 255, green: 0, blue: 16 }) }];
    let doc = document(&g, &segs, None);
    assert_eq!(
        doc,
        "<svg width=\"500px\" height=\"250px\" xmlns=\"http://www.w3.org/2000/svg\">\
<path d=\"M 0 0 L 10 10\" stroke=\"#ff0010\" stroke-width=\"2\" /></svg>"
    );
}

#[test]
fn document_with_caption() {
    let g = GridSpec::new(640, 240, 10, Layout::Knit);
    let label = caption_label(&ColorPreset::Green, "abc123");
    assert_eq!(label, "green:abc123");
    let doc = document(&g, &Vec::new(), Some(label.as_str()));
    assert!(doc.starts_with("<svg viewBox=\"0 0 640 255\" xmlns=\"http://www.w3.org/2000/svg\">"));
    assert!(doc.contains("<text x=\"640\" y=\"240\" dominant-baseline=\"hanging\" text-anchor=\"end\""));
    assert!(doc.contains("font-size=\"15\""));
    assert!(doc.ends_with(">green:abc123</text></svg>"));
}

#[test]
fn hatch_picture_starts_with_pixel_size() {
    let g = GridSpec::new(500, 250, 10, Layout::Hatch);
    let mut rng = StdRng::seed_from_u64(42);
    let doc = generate(&mut rng, &g, Layout::Hatch, &Palette::Uniform, None);
    assert!(doc.starts_with("<svg width=\"500px\" height=\"250px\""));
    assert!(doc.ends_with("</svg>"));
    assert_eq!(doc.matches("<svg").count(), 1);
    assert_eq!(doc.matches("</svg>").count(), 1);
}

#[test]
fn same_seed_same_document() {
    let g = GridSpec::new(640, 240, 10, Layout::Knit);
    let mut a = StdRng::seed_from_u64(9);
    let mut b = StdRng::seed_from_u64(9);
    let (pa, da) = generate_knit(&mut a, &g, None);
    let (pb, db) = generate_knit(&mut b, &g, Some("head"));
    assert_eq!(pa, pb);
    assert_eq!(da, db);
    let mut c = StdRng::seed_from_u64(10);
    let (_, dc) = generate_knit(&mut c, &g, None);
    assert_ne!(da, dc);
}

#[test]
fn knit_picture_counts_match_masks() {
    let g = GridSpec::new(640, 240, 10, Layout::Knit);
    let mut rng = StdRng::seed_from_u64(1);
    let (preset, doc) = generate_knit(&mut rng, &g, Some("v1"));
    let tail = format!(">{}:v1</text></svg>", preset.name());
    assert!(doc.ends_with(&tail));
    let paths = doc.matches("<path ").count();
    // 63 vertical positions over 23 rows and 64 horizontal positions over 22 rows
    assert!(paths <= 63 * 23 + 64 * 22);
    assert!(paths > 0);
}

#[test]
fn etag_is_md5_hex() {
    assert_eq!(etag(""), "d41d8cd98f00b204e9800998ecf8427e");
    assert_eq!(etag("abc"), "900150983cd24fb0d6963f7d28e17f72");
}
