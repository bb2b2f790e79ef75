//! The plain-text portable pixmap the renderer writes: a header with the
//! image size and the largest channel value, then one `R G B` line per pixel.
use vstd::prelude::*;

verus! {

/// The ASCII digits of `n` in base ten, most significant first.
pub open spec fn decimal(n: nat) -> Seq<u8>
    decreases n,
{
    if n < 10 {
        seq![(48 + n) as u8]
    } else {
        decimal(n / 10).push((48 + n % 10) as u8)
    }
}

/// The text of a header: the magic token of the plain-text format, the width
/// and the height on one line, then the largest channel value on the next.
pub open spec fn header_text(width: nat, height: nat) -> Seq<u8> {
    seq![80u8, 51u8, 32u8] + decimal(width) + seq![32u8] + decimal(height) + seq![10u8, 50u8, 53u8, 53u8, 10u8]
}

/// The text of one pixel: its three channels in decimal, separated by spaces.
pub open spec fn pixel_text(r: nat, g: nat, b: nat) -> Seq<u8> {
    decimal(r) + seq![32u8] + decimal(g) + seq![32u8] + decimal(b)
}

/// Appends the decimal digits of `n`.
fn push_decimal(out: &mut Vec<u8>, n: u32)
    ensures
        final(out)@ == old(out)@ + decimal(n as nat),
    decreases n,
{
    if n >= 10 {
        push_decimal(out, n / 10);
    }
    let digit: u8 = (48 + n % 10) as u8;
    out.push(digit);
    proof {
        assert(old(out)@ + decimal(n as nat) =~= final(out)@);
    }
}

/// The header of an image of `width` by `height` pixels whose channels run
/// from 0 to 255.
pub fn ppm_header(width: u32, height: u32) -> (r: Vec<u8>)
    ensures
        r@ == header_text(width as nat, height as nat),
{
    let mut out: Vec<u8> = Vec::new();
    out.push(80u8);
    out.push(51u8);
    out.push(32u8);
    push_decimal(&mut out, width);
    out.push(32u8);
    push_decimal(&mut out, height);
    out.push(10u8);
    out.push(50u8);
    out.push(53u8);
    out.push(53u8);
    out.push(10u8);
    assert(out@ =~= header_text(width as nat, height as nat));
    out
}

/// The line of one pixel, without its line break: `R G B` in decimal.
pub fn format_color(r: u8, g: u8, b: u8) -> (out: Vec<u8>)
    ensures
        out@ == pixel_text(r as nat, g as nat, b as nat),
{
    let mut out: Vec<u8> = Vec::new();
    push_decimal(&mut out, r as u32);
    out.push(32u8);
    push_decimal(&mut out, g as u32);
    out.push(32u8);
    push_decimal(&mut out, b as u32);
    assert(out@ =~= pixel_text(r as nat, g as nat, b as nat));
    out
}

} // verus!
