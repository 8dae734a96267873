use vstd::prelude::*;

use crate::classifier::classify;
use crate::complex::sample_point;
use crate::encoder::Pixel;
use crate::polynomial::Polynom;
use vstd::arithmetic::mul::{
    lemma_mul_inequality, lemma_mul_is_commutative, lemma_mul_is_distributive_add_other_way,
};

verus! {

/// The startup count checks: there must be at least one root, and at least
/// as many palette entries as roots. Every other validity condition on the
/// configuration involves the floating-point root coordinates and stays
/// with the caller.
pub fn counts_valid(n_roots: usize, n_colors: usize) -> (ok: bool)
    ensures
        ok <==> (n_roots >= 1 && n_colors >= n_roots),
{
    n_roots >= 1 && n_colors >= n_roots
}

/// The integer offset of a pixel from the image center: the centering
/// subtracts the floor-divided half extents `width / 2` and `height / 2`,
/// so an odd dimension places the center slightly off midpoint.
pub fn sample_offsets(x: usize, y: usize, width: usize, height: usize) -> (o: (i32, i32))
    requires
        x < width <= i32::MAX,
        y < height <= i32::MAX,
    ensures
        o.0 == x - (width as int) / 2,
        o.1 == y - (height as int) / 2,
{
    let dx = x as i32 - (width / 2) as i32;
    let dy = y as i32 - (height / 2) as i32;
    (dx, dy)
}

/// Whether a pixel value is one of the first `n` palette entries.
pub open spec fn in_palette(p: Pixel, colors: Seq<Pixel>, n: int) -> bool {
    exists|i: int| 0 <= i < n && p == colors[i]
}

/// Fills the whole pixel buffer: for every pixel in row-major order, top
/// row first, maps the coordinates to a complex-plane sample, classifies it
/// under Newton's method, and records the color of the chosen root. The
/// buffer has exactly `width * height` entries, and every entry is the
/// palette color of some root.
pub fn render(
    pol: &Polynom,
    der: &Polynom,
    roots: &Vec<num::complex::Complex32>,
    colors: &Vec<Pixel>,
    width: usize,
    height: usize,
    pixels_per_unit: i32,
    max_steps: u32,
) -> (canvas: Vec<Pixel>)
    requires
        roots@.len() >= 1,
        colors@.len() >= roots@.len(),
        pol.cs@.len() <= u32::MAX,
        der.cs@.len() <= u32::MAX,
        width <= i32::MAX,
        height <= i32::MAX,
        width * height <= usize::MAX,
    ensures
        canvas@.len() == width * height,
        forall|k: int|
            0 <= k < canvas@.len() ==> #[trigger] in_palette(
                canvas@[k],
                colors@,
                roots@.len() as int,
            ),
{
    let mut canvas: Vec<Pixel> = Vec::new();
    for y in 0..height
        invariant
            canvas@.len() == y * width,
            roots@.len() >= 1,
            colors@.len() >= roots@.len(),
            pol.cs@.len() <= u32::MAX,
            der.cs@.len() <= u32::MAX,
            width <= i32::MAX,
            height <= i32::MAX,
            width * height <= usize::MAX,
            forall|k: int|
                0 <= k < canvas@.len() ==> #[trigger] in_palette(
                    canvas@[k],
                    colors@,
                    roots@.len() as int,
                ),
    {
        proof {
            lemma_mul_inequality(y + 1, height as int, width as int);
            lemma_mul_is_commutative(height as int, width as int);
            lemma_mul_is_distributive_add_other_way(width as int, y as int, 1);
        }
        for x in 0..width
            invariant
                canvas@.len() == y * width + x,
                y < height,
                roots@.len() >= 1,
                colors@.len() >= roots@.len(),
                pol.cs@.len() <= u32::MAX,
                der.cs@.len() <= u32::MAX,
                width <= i32::MAX,
                height <= i32::MAX,
                (y + 1) * width <= usize::MAX,
                (y + 1) * width == y * width + width,
                forall|k: int|
                    0 <= k < canvas@.len() ==> #[trigger] in_palette(
                        canvas@[k],
                        colors@,
                        roots@.len() as int,
                    ),
        {
            let (dx, dy) = sample_offsets(x, y, width, height);
            let p = sample_point(dx, dy, pixels_per_unit);
            let idx = classify(pol, der, roots, &p, max_steps);
            let color = colors[idx];
            canvas.push(color);
            proof {
                assert(in_palette(color, colors@, roots@.len() as int));
            }
        }
    }
    proof {
        lemma_mul_is_commutative(height as int, width as int);
    }
    canvas
}

} // verus!
