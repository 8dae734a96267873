use vstd::prelude::*;

verus! {

/// A packed 24-bit RGB color: red in bits 16..24, green in 8..16, blue in 0..8.
pub type Pixel = u32;

/// The decimal digits of `n` as ASCII bytes, most significant first.
pub open spec fn dec_digits(n: nat) -> Seq<u8>
    decreases n,
{
    if n < 10 {
        seq![(48 + n) as u8]
    } else {
        dec_digits(n / 10).push((48 + n % 10) as u8)
    }
}

/// The three bytes a pixel is emitted as: red, green, blue, high to low.
pub open spec fn pixel_bytes(p: Pixel) -> Seq<u8> {
    seq![((p >> 16) & 0xff) as u8, ((p >> 8) & 0xff) as u8, (p & 0xff) as u8]
}

/// The raster section of the stream: every pixel in order, three bytes each.
pub open spec fn raster_bytes(s: Seq<Pixel>) -> Seq<u8>
    decreases s.len(),
{
    if s.len() == 0 {
        Seq::empty()
    } else {
        raster_bytes(s.drop_last()) + pixel_bytes(s.last())
    }
}

/// The fixed binary pixel-map header: the magic line `P6`, the width and
/// height in ASCII decimal separated by one space, and the maximum channel
/// value `255`, each line closed by a single newline byte.
pub open spec fn ppm_header(width: u32, height: u32) -> Seq<u8> {
    seq![80u8, 54u8, 10u8]  // "P6\n"
     + dec_digits(width as nat) + seq![32u8]  // "<width> "
     + dec_digits(height as nat) + seq![10u8]  // "<height>\n"
     + seq![50u8, 53u8, 53u8, 10u8]  // "255\n"
}

/// The whole encoded stream: header, then the raster, no padding.
pub open spec fn ppm_bytes(width: u32, height: u32, pixels: Seq<Pixel>) -> Seq<u8> {
    ppm_header(width, height) + raster_bytes(pixels)
}

/// Splits a packed RGB pixel into its three color channels, high byte first.
pub fn to_rgb(p: &Pixel) -> (rgb: (u8, u8, u8))
    ensures
        rgb.0 == ((*p >> 16) & 0xff) as u8,
        rgb.1 == ((*p >> 8) & 0xff) as u8,
        rgb.2 == (*p & 0xff) as u8,
{
    let r: u8 = ((*p >> 16) & 0xff) as u8;
    let g: u8 = ((*p >> 8) & 0xff) as u8;
    let b: u8 = (*p & 0xff) as u8;
    (r, g, b)
}

/// Formats a number in ASCII decimal, most significant digit first.
pub fn u32_to_decimal(n: u32) -> (r: Vec<u8>)
    ensures
        r@ == dec_digits(n as nat),
    decreases n,
{
    if n < 10 {
        let mut v: Vec<u8> = Vec::new();
        v.push((48 + n) as u8);
        v
    } else {
        let mut v = u32_to_decimal(n / 10);
        v.push((48 + n % 10) as u8);
        v
    }
}

/// Serializes a pixel buffer of the given dimensions into the binary
/// pixel-map stream, byte for byte as `ppm_bytes` states it.
pub fn write_ppm(width: u32, height: u32, canv: &Vec<Pixel>) -> (out: Vec<u8>)
    requires
        canv@.len() == width * height,
    ensures
        out@ == ppm_bytes(width, height, canv@),
{
    let mut out: Vec<u8> = Vec::new();
    out.push(80);
    out.push(54);
    out.push(10);
    let mut wd = u32_to_decimal(width);
    out.append(&mut wd);
    out.push(32);
    let mut hd = u32_to_decimal(height);
    out.append(&mut hd);
    out.push(10);
    out.push(50);
    out.push(53);
    out.push(53);
    out.push(10);
    assert(out@ =~= ppm_header(width, height));
    for k in 0..canv.len()
        invariant
            out@ == ppm_header(width, height) + raster_bytes(canv@.take(k as int)),
    {
        let (r, g, b) = to_rgb(&canv[k]);
        out.push(r);
        out.push(g);
        out.push(b);
        proof {
            assert(canv@.take(k + 1).drop_last() =~= canv@.take(k as int));
            assert(canv@.take(k + 1).last() == canv@[k as int]);
            assert(out@ =~= ppm_header(width, height) + raster_bytes(canv@.take(k + 1)));
        }
    }
    proof {
        assert(canv@.take(canv@.len() as int) =~= canv@);
    }
    out
}

} // verus!
