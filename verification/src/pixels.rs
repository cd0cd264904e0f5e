//! Conversion of a back end's image into the four-bytes-per-pixel layout
//! that the texture upload expects: blue, green, red, alpha.

use vstd::prelude::*;

verus! {

/// The largest of three channel values.
pub open spec fn spec_max3(a: u8, b: u8, c: u8) -> u8 {
    if a >= b && a >= c {
        a
    } else if b >= c {
        b
    } else {
        c
    }
}

/// Computes [`spec_max3`].
pub fn max3(a: u8, b: u8, c: u8) -> (m: u8)
    ensures
        m == spec_max3(a, b, c),
        m >= a && m >= b && m >= c,
        m == a || m == b || m == c,
{
    if a >= b && a >= c {
        a
    } else if b >= c {
        b
    } else {
        c
    }
}

/// Byte `i` of the pixels made from a coverage mask: the coverage of pixel
/// `i / 4`, whatever the channel.
pub open spec fn mask_byte(coverage: Seq<u8>, i: int) -> u8 {
    coverage[i / 4]
}

/// A coverage mask as pixels: each value fills the four channels of its pixel.
pub open spec fn mask_pixels(coverage: Seq<u8>) -> Seq<u8> {
    Seq::new(4 * coverage.len(), |i: int| mask_byte(coverage, i))
}

/// Byte `i` of the pixels made from coverage triples. The triple of pixel
/// `i / 4` holds red, green, blue; with `bgr` its first and third value
/// change places first. The pixel then holds the third, second and first
/// value and, as alpha, the largest of the three.
pub open spec fn subpixel_byte(coverage: Seq<u8>, bgr: bool, i: int) -> u8 {
    let t = 3 * (i / 4);
    let first = if bgr { coverage[t + 2] } else { coverage[t] };
    let third = if bgr { coverage[t] } else { coverage[t + 2] };
    if i % 4 == 0 {
        third
    } else if i % 4 == 1 {
        coverage[t + 1]
    } else if i % 4 == 2 {
        first
    } else {
        spec_max3(coverage[t], coverage[t + 1], coverage[t + 2])
    }
}

/// Coverage triples as pixels, one pixel for each complete triple.
pub open spec fn subpixel_pixels(coverage: Seq<u8>, bgr: bool) -> Seq<u8> {
    Seq::new(4 * (coverage.len() / 3), |i: int| subpixel_byte(coverage, bgr, i))
}

/// Byte `i` of the reordered color image. The source pixel `i / 4` holds
/// red, green, blue, alpha; with `bgr` its first and third value change
/// places first. The pixel then holds the third, second and first value and
/// the source's alpha.
pub open spec fn color_byte(source: Seq<u8>, bgr: bool, i: int) -> u8 {
    let p = 4 * (i / 4);
    if i % 4 == 0 {
        if bgr { source[p] } else { source[p + 2] }
    } else if i % 4 == 1 {
        source[p + 1]
    } else if i % 4 == 2 {
        if bgr { source[p + 2] } else { source[p] }
    } else {
        source[p + 3]
    }
}

/// A color image with its channels reordered, one pixel for each complete
/// group of four source bytes.
pub open spec fn color_pixels(source: Seq<u8>, bgr: bool) -> Seq<u8> {
    Seq::new(4 * (source.len() / 4), |i: int| color_byte(source, bgr, i))
}

/// Byte `i` of the pixels made from a sub-pixel mask of four bytes for each
/// pixel. The source pixel `i / 4` holds the coverage of red, green and blue
/// and a fourth byte that is not read; with `bgr` its first and third value
/// change places first. The pixel then holds the third, second and first
/// value and, as alpha, the largest of the three.
pub open spec fn subpixel_mask_byte(source: Seq<u8>, bgr: bool, i: int) -> u8 {
    let p = 4 * (i / 4);
    if i % 4 == 0 {
        if bgr { source[p] } else { source[p + 2] }
    } else if i % 4 == 1 {
        source[p + 1]
    } else if i % 4 == 2 {
        if bgr { source[p + 2] } else { source[p] }
    } else {
        spec_max3(source[p], source[p + 1], source[p + 2])
    }
}

/// A sub-pixel mask as pixels, one pixel for each complete group of four
/// source bytes.
pub open spec fn subpixel_mask_pixels(source: Seq<u8>, bgr: bool) -> Seq<u8> {
    Seq::new(4 * (source.len() / 4), |i: int| subpixel_mask_byte(source, bgr, i))
}

/// Turns a sub-pixel mask of four bytes for each pixel into pixels,
/// honoring the reversed channel order.
pub fn subpixel_mask_to_bgra(source: &Vec<u8>, bgr: bool) -> (out: Vec<u8>)
    ensures
        out@ == subpixel_mask_pixels(source@, bgr),
{
    let mut out: Vec<u8> = Vec::new();
    let count: usize = source.len() / 4;
    let mut p: usize = 0;
    while p < count
        invariant
            p <= count,
            count == source.len() / 4,
            out@.len() == 4 * p,
            forall|i: int|
                0 <= i < out@.len() ==> out@[i] == subpixel_mask_byte(source@, bgr, i),
        decreases count - p,
    {
        let s: usize = 4 * p;
        let first: u8 = if bgr { source[s + 2] } else { source[s] };
        let second: u8 = source[s + 1];
        let third: u8 = if bgr { source[s] } else { source[s + 2] };
        let alpha: u8 = max3(third, second, first);
        out.push(third);
        out.push(second);
        out.push(first);
        out.push(alpha);
        p = p + 1;
    }
    assert(out@ =~= subpixel_mask_pixels(source@, bgr));
    out
}

/// The alpha of a pixel made from a sub-pixel mask is no smaller than any of
/// its three color channels and equals one of them.
pub proof fn lemma_subpixel_mask_alpha_is_envelope(source: Seq<u8>, bgr: bool, p: int)
    requires
        0 <= p < source.len() / 4,
    ensures
        ({
            let px = subpixel_mask_pixels(source, bgr);
            &&& px.len() == 4 * (source.len() / 4)
            &&& px[4 * p + 3] >= px[4 * p]
            &&& px[4 * p + 3] >= px[4 * p + 1]
            &&& px[4 * p + 3] >= px[4 * p + 2]
            &&& (px[4 * p + 3] == px[4 * p] || px[4 * p + 3] == px[4 * p + 1] || px[4 * p + 3]
                == px[4 * p + 2])
        }),
{
}

/// Replicates each coverage value into the four channels of its pixel.
pub fn mask_to_bgra(coverage: &Vec<u8>) -> (out: Vec<u8>)
    ensures
        out@ == mask_pixels(coverage@),
{
    let mut out: Vec<u8> = Vec::new();
    let mut p: usize = 0;
    while p < coverage.len()
        invariant
            p <= coverage.len(),
            out@.len() == 4 * p,
            forall|i: int| 0 <= i < out@.len() ==> out@[i] == mask_byte(coverage@, i),
        decreases coverage.len() - p,
    {
        let alpha: u8 = coverage[p];
        out.push(alpha);
        out.push(alpha);
        out.push(alpha);
        out.push(alpha);
        p = p + 1;
    }
    assert(out@ =~= mask_pixels(coverage@));
    out
}

/// Turns coverage triples into pixels, honoring the reversed channel order.
pub fn subpixel_to_bgra(coverage: &Vec<u8>, bgr: bool) -> (out: Vec<u8>)
    ensures
        out@ == subpixel_pixels(coverage@, bgr),
{
    let mut out: Vec<u8> = Vec::new();
    let count: usize = coverage.len() / 3;
    let mut p: usize = 0;
    while p < count
        invariant
            p <= count,
            count == coverage.len() / 3,
            out@.len() == 4 * p,
            forall|i: int| 0 <= i < out@.len() ==> out@[i] == subpixel_byte(coverage@, bgr, i),
        decreases count - p,
    {
        let t: usize = 3 * p;
        let first: u8 = if bgr { coverage[t + 2] } else { coverage[t] };
        let second: u8 = coverage[t + 1];
        let third: u8 = if bgr { coverage[t] } else { coverage[t + 2] };
        let alpha: u8 = max3(third, second, first);
        out.push(third);
        out.push(second);
        out.push(first);
        out.push(alpha);
        p = p + 1;
    }
    assert(out@ =~= subpixel_pixels(coverage@, bgr));
    out
}

/// Reorders the channels of a color image, keeping each pixel's alpha.
pub fn color_to_bgra(source: &Vec<u8>, bgr: bool) -> (out: Vec<u8>)
    ensures
        out@ == color_pixels(source@, bgr),
{
    let mut out: Vec<u8> = Vec::new();
    let count: usize = source.len() / 4;
    let mut p: usize = 0;
    while p < count
        invariant
            p <= count,
            count == source.len() / 4,
            out@.len() == 4 * p,
            forall|i: int| 0 <= i < out@.len() ==> out@[i] == color_byte(source@, bgr, i),
        decreases count - p,
    {
        let s: usize = 4 * p;
        let first: u8 = if bgr { source[s + 2] } else { source[s] };
        let third: u8 = if bgr { source[s] } else { source[s + 2] };
        out.push(third);
        out.push(source[s + 1]);
        out.push(first);
        out.push(source[s + 3]);
        p = p + 1;
    }
    assert(out@ =~= color_pixels(source@, bgr));
    out
}

/// A mask of `n` values becomes `4 * n` bytes, and the four channels of a
/// pixel all hold that pixel's coverage.
pub proof fn lemma_mask_pixels(coverage: Seq<u8>, p: int)
    requires
        0 <= p < coverage.len(),
    ensures
        mask_pixels(coverage).len() == 4 * coverage.len(),
        mask_pixels(coverage)[4 * p] == coverage[p],
        mask_pixels(coverage)[4 * p + 1] == coverage[p],
        mask_pixels(coverage)[4 * p + 2] == coverage[p],
        mask_pixels(coverage)[4 * p + 3] == coverage[p],
{
}

/// The alpha of a pixel made from a coverage triple is no smaller than any
/// of its three color channels and equals one of them, with or without the
/// reversed channel order.
pub proof fn lemma_subpixel_alpha_is_envelope(coverage: Seq<u8>, bgr: bool, p: int)
    requires
        0 <= p < coverage.len() / 3,
    ensures
        ({
            let px = subpixel_pixels(coverage, bgr);
            &&& px[4 * p + 3] >= px[4 * p]
            &&& px[4 * p + 3] >= px[4 * p + 1]
            &&& px[4 * p + 3] >= px[4 * p + 2]
            &&& (px[4 * p + 3] == px[4 * p] || px[4 * p + 3] == px[4 * p + 1] || px[4 * p + 3]
                == px[4 * p + 2])
        }),
{
}

/// Rendering the same coverage with the reversed channel order exchanges the
/// first and the third channel of every pixel and leaves the second channel
/// and the alpha as they are.
pub proof fn lemma_bgr_swaps_first_and_third(coverage: Seq<u8>, p: int)
    requires
        0 <= p < coverage.len() / 3,
    ensures
        subpixel_pixels(coverage, true).len() == subpixel_pixels(coverage, false).len(),
        subpixel_pixels(coverage, true)[4 * p] == subpixel_pixels(coverage, false)[4 * p + 2],
        subpixel_pixels(coverage, true)[4 * p + 2] == subpixel_pixels(coverage, false)[4 * p],
        subpixel_pixels(coverage, true)[4 * p + 1] == subpixel_pixels(coverage, false)[4 * p + 1],
        subpixel_pixels(coverage, true)[4 * p + 3] == subpixel_pixels(coverage, false)[4 * p + 3],
        subpixel_pixels(coverage, false)[4 * p] == coverage[3 * p + 2],
        subpixel_pixels(coverage, false)[4 * p + 1] == coverage[3 * p + 1],
        subpixel_pixels(coverage, false)[4 * p + 2] == coverage[3 * p],
{
}

/// Reordering a color image keeps every pixel's alpha and second channel,
/// and puts the source's third channel first unless the order is reversed.
pub proof fn lemma_color_pixels(source: Seq<u8>, bgr: bool, p: int)
    requires
        0 <= p < source.len() / 4,
    ensures
        color_pixels(source, bgr).len() == 4 * (source.len() / 4),
        color_pixels(source, bgr)[4 * p + 3] == source[4 * p + 3],
        color_pixels(source, bgr)[4 * p + 1] == source[4 * p + 1],
        color_pixels(source, false)[4 * p] == source[4 * p + 2],
        color_pixels(source, false)[4 * p + 2] == source[4 * p],
        color_pixels(source, true)[4 * p] == source[4 * p],
        color_pixels(source, true)[4 * p + 2] == source[4 * p + 2],
{
}

} // verus!
