use vstd::prelude::*;

verus! {

/// The ASCII decimal digits of `n`, most significant first, without leading zeros.
pub open spec fn decimal(n: nat) -> Seq<u8>
    decreases n,
{
    if n < 10 {
        seq![(48 + n) as u8]
    } else {
        decimal(n / 10).push((48 + n % 10) as u8)
    }
}

/// The header of a plain-text image of `width` by `height` pixels with
/// channel values up to 255: `P3`, then the size and the maximum on one line.
pub open spec fn header_text(width: nat, height: nat) -> Seq<u8> {
    seq![80u8, 51u8, 10u8] + decimal(width) + seq![32u8] + decimal(height) + seq![32u8, 50u8, 53u8, 53u8, 10u8]
}

/// One pixel of a plain-text image: its three channels, separated by spaces,
/// on a line of their own.
pub open spec fn pixel_text(r: nat, g: nat, b: nat) -> Seq<u8> {
    decimal(r) + seq![32u8] + decimal(g) + seq![32u8] + decimal(b) + seq![10u8]
}

/// Appends the decimal digits of `n` to `out`.
pub fn push_decimal(out: &mut Vec<u8>, n: u64)
    ensures
        final(out)@ == old(out)@ + decimal(n as nat),
    decreases n,
{
    if n >= 10 {
        push_decimal(out, n / 10);
    }
    let digit: u8 = (n % 10) as u8;
    out.push(48 + digit);
    assert(final(out)@ =~= old(out)@ + decimal(n as nat));
}

/// The header line of a plain-text image of `width` by `height` pixels.
pub fn ppm_header(width: u32, height: u32) -> (r: Vec<u8>)
    ensures
        r@ == header_text(width as nat, height as nat),
{
    let mut out: Vec<u8> = Vec::new();
    out.push(80);
    out.push(51);
    out.push(10);
    push_decimal(&mut out, width as u64);
    out.push(32);
    push_decimal(&mut out, height as u64);
    out.push(32);
    out.push(50);
    out.push(53);
    out.push(53);
    out.push(10);
    assert(out@ =~= header_text(width as nat, height as nat));
    out
}

/// The line that holds one pixel with channel values `r`, `g` and `b`.
pub fn pixel_line(r: u8, g: u8, b: u8) -> (line: Vec<u8>)
    ensures
        line@ == pixel_text(r as nat, g as nat, b as nat),
{
    let mut out: Vec<u8> = Vec::new();
    push_decimal(&mut out, r as u64);
    out.push(32);
    push_decimal(&mut out, g as u64);
    out.push(32);
    push_decimal(&mut out, b as u64);
    out.push(10);
    assert(out@ =~= pixel_text(r as nat, g as nat, b as nat));
    out
}

} // verus!
