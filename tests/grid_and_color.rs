use useless_svg::color::{Color, ColorPreset, Paint, Rgb};
use useless_svg::grid::{GridSpec, Layout};

#[test]
fn hatch_grid_trims_both_counts() {
    let g = GridSpec::new(500, 250, 10, Layout::Hatch);
    assert_eq!(g.columns, 49);
    assert_eq!(g.rows, 24);
}

#[test]
fn knit_grid_keeps_every_column() {
    let g = GridSpec::new(640, 240, 10, Layout::Knit);
    assert_eq!(g.columns, 64);
    assert_eq!(g.rows, 23);
}

#[test]
fn grid_smaller_than_gap_has_no_cells() {
    let g = GridSpec::new(5, 5, 10, Layout::Hatch);
    assert_eq!(g.columns, 0);
    assert_eq!(g.rows, 0);
    let k = GridSpec::new(5, 5, 10, Layout::Knit);
    assert_eq!(k.columns, 0);
    assert_eq!(k.rows, 0);
}

#[test]
fn preset_table_covers_eight_presets() {
    let expected = [
        ColorPreset::Black,
        ColorPreset::Red,
        ColorPreset::Yellow,
        ColorPreset::Green,
        ColorPreset::Cyan,
        ColorPreset::Blue,
        ColorPreset::Purple,
        ColorPreset::Chaos,
    ];
    for (i, p) in expected.iter().enumerate() {
        assert_eq!(ColorPreset::from_index(i as u8), *p);
    }
    assert_eq!(ColorPreset::from_index(200), ColorPreset::Chaos);
}

#[test]
fn preset_ranges_and_names() {
    assert_eq!(ColorPreset::Red.hue_range(), (-30, 30));
    assert_eq!(ColorPreset::Purple.hue_range(), (330, 390));
    assert_eq!(ColorPreset::Chaos.hue_range(), (0, 360));
    assert_eq!(ColorPreset::Black.hue_range(), (0, 0));
    assert_eq!(ColorPreset::Black.saturation_range(), (0, 0));
    assert_eq!(ColorPreset::Green.saturation_range(), (0, 100));
    assert_eq!(ColorPreset::Cyan.name(), "cyan");
    assert_eq!(ColorPreset::Black.name(), "black");
}

#[test]
fn negative_hue_wraps_around() {
    let c = Color::from_draws(&ColorPreset::Red, -10, 40, 60);
    assert_eq!(c.hue, 350);
    assert_eq!(c.hsl(), "hsl(350,40%,60%)");
    let d = Color::from_draws(&ColorPreset::Red, 10, 0, 100);
    assert_eq!(d.hue, 10);
    assert_eq!(d.hsl(), "hsl(10,0%,100%)");
}

#[test]
fn rgb_hex_form() {
    let c = Rgb { red: 10, green: 255, blue: 0 };
    assert_eq!(c.hex(), "#0aff00");
    assert_eq!(Paint::Rgb(c).css(), "#0aff00");
    let h = Color { hue: 0, saturation: 0, lightness: 0 };
    assert_eq!(Paint::Hsl(h).css(), "hsl(0,0%,0%)");
}
