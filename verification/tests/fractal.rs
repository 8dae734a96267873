use newton_fractal::classifier::{classify, match_index, nearest_index};
use newton_fractal::encoder::{to_rgb, u32_to_decimal, write_ppm};
use newton_fractal::polynomial::Polynom;
use newton_fractal::raster::{counts_valid, render, sample_offsets};
use num::complex::Complex32;

#[test]
fn to_rgb_splits_channels() {
    assert_eq!(to_rgb(&0x123456), (0x12, 0x34, 0x56));
    assert_eq!(to_rgb(&0xFF0000), (0xFF, 0x00, 0x00));
    assert_eq!(to_rgb(&0x00FF00), (0x00, 0xFF, 0x00));
    assert_eq!(to_rgb(&0x0000FF), (0x00, 0x00, 0xFF));
}

#[test]
fn decimal_formatting_is_exact() {
    assert_eq!(u32_to_decimal(0), b"0".to_vec());
    assert_eq!(u32_to_decimal(7), b"7".to_vec());
    assert_eq!(u32_to_decimal(800), b"800".to_vec());
    assert_eq!(u32_to_decimal(4294967295), b"4294967295".to_vec());
}

#[test]
fn header_exactness() {
    let canv: Vec<u32> = vec![0xFF0000, 0x00FF00];
    let out = write_ppm(2, 1, &canv);
    let expected = b"P6\n2 1\n255\n\xFF\x00\x00\x00\xFF\x00".to_vec();
    assert_eq!(out, expected);
}

#[test]
fn polynomial_vanishes_at_its_roots() {
    let roots = vec![
        Complex32::new(-1.0, 0.0),
        Complex32::new(0.5, 0.25),
        Complex32::new(0.0, 1.0),
        Complex32::new(2.0, -3.0),
    ];
    let pol = Polynom::from_roots(&roots);
    assert_eq!(pol.cs.len(), roots.len() + 1);
    for r in roots.iter() {
        let v = pol.at(r);
        assert!(v.norm() < 1e-3, "polynomial does not vanish at root {}", r);
    }
}

#[test]
fn derivative_of_linear_is_constant_one() {
    let roots = vec![Complex32::new(3.0, -2.0)];
    let pol = Polynom::from_roots(&roots);
    let der = pol.derivative();
    assert_eq!(der.cs.len(), 1);
    assert_eq!(der.cs[0], Complex32::new(1.0, 0.0));
}

#[test]
fn derivative_drops_one_degree() {
    let roots = vec![
        Complex32::new(1.0, 0.0),
        Complex32::new(-1.0, 0.0),
        Complex32::new(0.0, 2.0),
    ];
    let pol = Polynom::from_roots(&roots);
    assert_eq!(pol.cs.len(), 4);
    let der = pol.derivative();
    assert_eq!(der.cs.len(), 3);
    // p = (x-1)(x+1)(x-2i) = x^3 - 2i x^2 - x + 2i, so p' = 3x^2 - 4i x - 1.
    assert_eq!(der.cs[0], Complex32::new(-1.0, 0.0));
    assert_eq!(der.cs[1], Complex32::new(0.0, -4.0));
    assert_eq!(der.cs[2], Complex32::new(3.0, 0.0));
}

#[test]
fn multiplying_by_constant_one_is_identity() {
    let roots = vec![Complex32::new(2.0, 1.0), Complex32::new(-1.0, 0.5)];
    let pol = Polynom::from_roots(&roots);
    let one = Polynom::from_roots(&vec![]);
    assert_eq!(one.cs.len(), 1);
    assert_eq!(one.cs[0], Complex32::new(1.0, 0.0));
    let left = Polynom::multiply(&pol, &one);
    let right = Polynom::multiply(&one, &pol);
    assert_eq!(left.cs, pol.cs);
    assert_eq!(right.cs, pol.cs);
}

#[test]
fn evaluation_computes_exact_values() {
    // (x - 2)(x + 2) = x^2 - 4, evaluated at 3: 9 - 4 = 5.
    let roots = vec![Complex32::new(2.0, 0.0), Complex32::new(-2.0, 0.0)];
    let pol = Polynom::from_roots(&roots);
    let v = pol.at(&Complex32::new(3.0, 0.0));
    assert_eq!(v, Complex32::new(5.0, 0.0));
}

#[test]
fn classify_exact_root_start_returns_its_index() {
    let roots = vec![Complex32::new(2.0, 0.0)];
    let pol = Polynom::from_roots(&roots);
    let der = pol.derivative();
    assert_eq!(classify(&pol, &der, &roots, &roots[0], 20), 0);

    let roots2 = vec![Complex32::new(2.0, 0.0), Complex32::new(-3.0, 0.0)];
    let pol2 = Polynom::from_roots(&roots2);
    let der2 = pol2.derivative();
    assert_eq!(classify(&pol2, &der2, &roots2, &roots2[1], 20), 1);
}

#[test]
fn classify_is_total_on_degenerate_points() {
    let roots = vec![Complex32::new(1.0, 0.0), Complex32::new(-1.0, 0.0)];
    let pol = Polynom::from_roots(&roots);
    let der = pol.derivative();
    // A NaN start stalls immediately; every distance comparison is false,
    // so the first root wins.
    let idx = classify(&pol, &der, &roots, &Complex32::new(f32::NAN, 0.0), 20);
    assert_eq!(idx, 0);
    // Any finite start yields a valid index.
    let idx2 = classify(&pol, &der, &roots, &Complex32::new(0.3, 0.7), 20);
    assert!(idx2 < roots.len());
}

#[test]
fn tie_break_prefers_first_root() {
    let roots = vec![Complex32::new(1.0, 0.0), Complex32::new(-1.0, 0.0)];
    let pol = Polynom::from_roots(&roots);
    let der = pol.derivative();
    // The derivative of x^2 - 1 is exactly zero at the origin: a stall, with
    // both roots at distance exactly 1. The first root must win, never the
    // second.
    assert_eq!(classify(&pol, &der, &roots, &Complex32::new(0.0, 0.0), 20), 0);
    // High up the imaginary axis the iteration never leaves it, and the two
    // roots stay exactly equidistant.
    assert_eq!(classify(&pol, &der, &roots, &Complex32::new(0.0, 1.0e6), 20), 0);
}

#[test]
fn fallback_picks_strictly_nearest_root() {
    let roots = vec![Complex32::new(10.0, 0.0), Complex32::new(0.25, 0.0)];
    let pol = Polynom::from_roots(&roots);
    let der = pol.derivative();
    // Zero iteration steps force the nearest-root fallback at the start point.
    assert_eq!(classify(&pol, &der, &roots, &Complex32::new(0.0, 0.0), 0), 1);
}

#[test]
fn match_index_finds_first_true() {
    assert_eq!(match_index(&vec![]), None);
    assert_eq!(match_index(&vec![false, false]), None);
    assert_eq!(match_index(&vec![false, true, true]), Some(1));
    assert_eq!(match_index(&vec![true, false]), Some(0));
}

#[test]
fn nearest_index_scans_with_strict_updates() {
    assert_eq!(nearest_index(&vec![vec![false, false], vec![false, false]]), 0);
    assert_eq!(nearest_index(&vec![vec![false, false], vec![true, false]]), 1);
    let m = vec![
        vec![false, false, false],
        vec![true, false, false],
        vec![false, false, false],
    ];
    assert_eq!(nearest_index(&m), 1);
}

#[test]
fn counts_validation() {
    assert!(counts_valid(1, 1));
    assert!(counts_valid(5, 5));
    assert!(counts_valid(3, 7));
    assert!(!counts_valid(0, 7));
    assert!(!counts_valid(5, 4));
}

#[test]
fn sample_offsets_use_floor_centering() {
    assert_eq!(sample_offsets(0, 0, 800, 600), (-400, -300));
    assert_eq!(sample_offsets(400, 300, 800, 600), (0, 0));
    assert_eq!(sample_offsets(799, 599, 800, 600), (399, 299));
    // Odd dimensions floor-divide, leaving the center slightly off midpoint.
    assert_eq!(sample_offsets(0, 0, 7, 5), (-3, -2));
}

#[test]
fn render_matches_per_pixel_classification() {
    let roots = vec![
        Complex32::new(-1.0, 0.0),
        Complex32::new(1.0, 1.0),
        Complex32::new(2.0, -2.0),
    ];
    let colors: Vec<u32> = vec![0x4a0b58, 0x39538e, 0x1fa0cf];
    let pol = Polynom::from_roots(&roots);
    let der = pol.derivative();
    let width = 8usize;
    let height = 6usize;
    let canvas = render(&pol, &der, &roots, &colors, width, height, 1, 20);
    assert_eq!(canvas.len(), width * height);
    for y in 0..height {
        for x in 0..width {
            let sample = Complex32::new((x as i32 - 4) as f32 / 1.0, (y as i32 - 3) as f32 / 1.0);
            let idx = classify(&pol, &der, &roots, &sample, 20);
            assert_eq!(canvas[y * width + x], colors[idx]);
        }
    }
}

#[test]
fn end_to_end_dimensions_and_header() {
    let half_sqrt3 = 3.0f32.sqrt() / 2.0;
    let roots = vec![
        Complex32::new(-1.0, 0.0),
        Complex32::new(half_sqrt3, 0.5),
        Complex32::new(half_sqrt3, -0.5),
        Complex32::new(0.0, 1.0),
        Complex32::new(0.0, -1.0),
    ];
    let colors: Vec<u32> = vec![0x4a0b58, 0x39538e, 0x1fa0cf, 0x56b861, 0x19858f];
    assert!(counts_valid(roots.len(), colors.len()));
    let pol = Polynom::from_roots(&roots);
    let der = pol.derivative();
    assert_eq!(pol.cs.len(), 6);
    assert_eq!(der.cs.len(), 5);

    // The exact image center of an 800x600 raster samples the origin.
    assert_eq!(sample_offsets(400, 300, 800, 600), (0, 0));
    let center = classify(&pol, &der, &roots, &Complex32::new(0.0, 0.0), 20);
    assert!(center < roots.len());

    // The serialized stream for the full raster: exact header bytes, then
    // exactly 800 * 600 * 3 pixel bytes.
    let canvas: Vec<u32> = vec![colors[center]; 800 * 600];
    let out = write_ppm(800, 600, &canvas);
    assert_eq!(&out[..15], b"P6\n800 600\n255\n");
    assert_eq!(out.len(), 15 + 800 * 600 * 3);
}
