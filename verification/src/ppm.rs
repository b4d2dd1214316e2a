//! The text of a plain PPM picture, as bytes.

use vstd::prelude::*;

verus! {

/// The byte of a space.
pub const SPACE: u8 = 32;

/// The byte of a line feed.
pub const NEWLINE: u8 = 10;

/// The decimal digits of `n` in ASCII, the most significant first.
pub open spec fn decimal(n: nat) -> Seq<u8>
    decreases n,
{
    if n < 10 {
        seq![(48 + n) as u8]
    } else {
        decimal(n / 10).push((48 + n % 10) as u8)
    }
}

/// The three samples of a pixel in decimal, a space after each.
pub open spec fn pixel_text(pixel: (u8, u8, u8)) -> Seq<u8> {
    decimal(pixel.0 as nat).push(SPACE) + decimal(pixel.1 as nat).push(SPACE) + decimal(
        pixel.2 as nat,
    ).push(SPACE)
}

/// The texts of the pixels, one after the other.
pub open spec fn pixels_text(pixels: Seq<(u8, u8, u8)>) -> Seq<u8>
    decreases pixels.len(),
{
    if pixels.len() == 0 {
        Seq::empty()
    } else {
        pixels_text(pixels.drop_last()) + pixel_text(pixels.last())
    }
}

/// The three lines that open a picture: the magic number `P3`, the width and
/// the height, and the greatest sample, 255.
pub open spec fn header_text(width: nat, height: nat) -> Seq<u8> {
    seq![80u8, 51u8, NEWLINE] + decimal(width).push(SPACE) + decimal(height).push(NEWLINE)
        + seq![50u8, 53u8, 53u8, NEWLINE]
}

/// The whole picture: the header, the pixels on one line, and a line feed.
pub open spec fn picture_text(width: nat, height: nat, pixels: Seq<(u8, u8, u8)>) -> Seq<u8> {
    header_text(width, height) + pixels_text(pixels).push(NEWLINE)
}

/// Appends the decimal digits of `n`.
pub fn push_decimal(out: &mut Vec<u8>, n: usize)
    ensures
        final(out)@ == old(out)@ + decimal(n as nat),
    decreases n,
{
    if n >= 10 {
        push_decimal(out, n / 10);
    }
    let digit: u8 = (48 + n % 10) as u8;
    out.push(digit);
    proof {
        assert(final(out)@ =~= old(out)@ + decimal(n as nat));
    }
}

/// Appends the text of one pixel.
pub fn push_pixel(out: &mut Vec<u8>, pixel: (u8, u8, u8))
    ensures
        final(out)@ == old(out)@ + pixel_text(pixel),
{
    push_decimal(out, pixel.0 as usize);
    out.push(SPACE);
    push_decimal(out, pixel.1 as usize);
    out.push(SPACE);
    push_decimal(out, pixel.2 as usize);
    out.push(SPACE);
    proof {
        assert(final(out)@ =~= old(out)@ + pixel_text(pixel));
    }
}

/// The text of a picture of the given size with the given pixels.
pub fn to_ppm_format(width: usize, height: usize, pixels: &Vec<(u8, u8, u8)>) -> (r: Vec<u8>)
    ensures
        r@ == picture_text(width as nat, height as nat, pixels@),
{
    let mut out: Vec<u8> = Vec::new();
    out.push(80);
    out.push(51);
    out.push(NEWLINE);
    push_decimal(&mut out, width);
    out.push(SPACE);
    push_decimal(&mut out, height);
    out.push(NEWLINE);
    out.push(50);
    out.push(53);
    out.push(53);
    out.push(NEWLINE);
    assert(out@ =~= header_text(width as nat, height as nat));
    let mut i: usize = 0;
    while i < pixels.len()
        invariant
            i <= pixels.len(),
            out@ == header_text(width as nat, height as nat) + pixels_text(pixels@.take(i as int)),
        decreases pixels.len() - i,
    {
        push_pixel(&mut out, pixels[i]);
        proof {
            let before = pixels@.take(i as int);
            let after = pixels@.take(i + 1);
            assert(after.drop_last() =~= before);
            assert(after.last() == pixels@[i as int]);
            assert(out@ =~= header_text(width as nat, height as nat) + pixels_text(after));
        }
        i += 1;
    }
    out.push(NEWLINE);
    proof {
        assert(pixels@.take(pixels@.len() as int) =~= pixels@);
        assert(out@ =~= picture_text(width as nat, height as nat, pixels@));
    }
    out
}

} // verus!
