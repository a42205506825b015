use rand::rngs::StdRng;
use rand::SeedableRng;
use useless_svg::color::{Color, ColorPreset, Paint};
use useless_svg::sample::{be_bytes, mask_from_sample, random_mask, Palette};

#[test]
fn big_endian_bytes() {
    assert_eq!(be_bytes(0x0102_0304_0506_0708), vec![1, 2, 3, 4, 5, 6, 7, 8]);
    assert_eq!(be_bytes(-1), vec![255; 8]);
}

#[test]
fn mask_reads_most_significant_bit_first() {
    assert_eq!(mask_from_sample(i64::MIN, 3), vec![true, false, false]);
    assert_eq!(mask_from_sample(-1, 5), vec![true; 5]);
    let m = mask_from_sample(1, 64);
    assert_eq!(m.len(), 64);
    assert!(m[63]);
    assert_eq!(m.iter().filter(|b| **b).count(), 1);
    let n = mask_from_sample(0x0100_0000_0000_0000, 10);
    assert_eq!(n, vec![false, false, false, false, false, false, false, true, false, false]);
    assert_eq!(mask_from_sample(0x55, 0), Vec::<bool>::new());
}

#[test]
fn drawn_masks_have_the_column_count() {
    let mut rng = StdRng::seed_from_u64(3);
    for len in [0usize, 1, 7, 49, 64] {
        assert_eq!(random_mask(&mut rng, len).len(), len);
    }
}

fn in_band(hue: i16, preset: ColorPreset) -> bool {
    let (lo, hi) = preset.hue_range();
    (lo <= hue && hue <= hi) || (lo < 0 && lo + 360 <= hue && hue < 360)
}

#[test]
fn drawn_colours_stay_in_their_band() {
    let mut rng = StdRng::seed_from_u64(11);
    for i in 0..8u8 {
        let preset = ColorPreset::from_index(i);
        for _ in 0..200 {
            let c = Color::random(&mut rng, &preset);
            assert!(c.hue >= 0);
            assert!(in_band(c.hue, preset));
            assert!(c.lightness >= 0 && c.lightness <= 100);
            if preset == ColorPreset::Black {
                assert_eq!(c.saturation, 0);
                assert_eq!(c.hue, 0);
            }
        }
    }
}

#[test]
fn palette_gives_its_colour_model() {
    let mut rng = StdRng::seed_from_u64(5);
    assert!(matches!(Palette::Uniform.draw(&mut rng), Paint::Rgb(_)));
    assert!(matches!(Palette::Preset(ColorPreset::Blue).draw(&mut rng), Paint::Hsl(_)));
    let p = ColorPreset::random(&mut rng);
    assert!((0..8u8).any(|i| ColorPreset::from_index(i) == p));
}
