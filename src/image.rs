use vstd::prelude::*;

verus! {

/// The ASCII digit for `d < 10`.
pub open spec fn digit(d: nat) -> u8 {
    (48 + d) as u8
}

/// The decimal numeral of `n`, most significant digit first, with no
/// leading zero.
pub open spec fn decimal(n: nat) -> Seq<u8>
    decreases n,
{
    if n < 10 {
        seq![digit(n)]
    } else {
        decimal(n / 10).push(digit(n % 10))
    }
}

/// The header of a plain-text RGB image (PPM): its magic line, then the
/// width and height on one line, then the largest channel value, 255.
pub open spec fn header_text(width: nat, height: nat) -> Seq<u8> {
    seq![80u8, 51u8, 10u8] + decimal(width) + seq![32u8] + decimal(height) + seq![
        10u8,
        50u8,
        53u8,
        53u8,
        10u8,
    ]
}

/// One pixel line: the three channels separated by spaces.
pub open spec fn pixel_text(r: nat, g: nat, b: nat) -> Seq<u8> {
    decimal(r) + seq![32u8] + decimal(g) + seq![32u8] + decimal(b) + seq![10u8]
}

/// Appends the decimal numeral of `n` to `out`.
pub fn push_decimal(out: &mut Vec<u8>, n: u64)
    ensures
        final(out)@ == old(out)@ + decimal(n as nat),
{
    let mut digits: Vec<u8> = Vec::new();
    let mut m: u64 = n;
    // `digits` holds the low digits of `n`, least significant first.
    while m >= 10
        invariant
            decimal(n as nat) == decimal(m as nat) + digits@.reverse(),
        decreases m,
    {
        let d: u64 = m % 10;
        proof {
            let ghost q = (m / 10) as nat;
            assert(decimal(m as nat) == decimal(q).push(digit(d as nat)));
            assert(decimal(m as nat) + digits@.reverse() =~= decimal(q) + digits@.push(
                (48 + d) as u8,
            ).reverse());
        }
        digits.push((48 + d) as u8);
        m = m / 10;
    }
    assert(decimal(m as nat) == seq![digit(m as nat)]);
    out.push((48 + m) as u8);
    let mut k: usize = digits.len();
    while k > 0
        invariant
            k <= digits@.len(),
            decimal(n as nat) == seq![digit(m as nat)] + digits@.reverse(),
            out@ == old(out)@ + seq![digit(m as nat)] + digits@.subrange(
                k as int,
                digits@.len() as int,
            ).reverse(),
        decreases k,
    {
        k = k - 1;
        proof {
            assert(digits@.subrange(k as int, digits@.len() as int).reverse() =~= digits@.subrange(
                k + 1,
                digits@.len() as int,
            ).reverse().push(digits@[k as int]));
        }
        out.push(digits[k]);
        assert(out@ =~= old(out)@ + seq![digit(m as nat)] + digits@.subrange(
            k as int,
            digits@.len() as int,
        ).reverse());
    }
    assert(digits@.subrange(0, digits@.len() as int) =~= digits@);
}

/// The header of a plain-text RGB image of `width` by `height` pixels.
pub fn header(width: u32, height: u32) -> (r: Vec<u8>)
    ensures
        r@ == header_text(width as nat, height as nat),
{
    let mut out: Vec<u8> = Vec::new();
    out.push(80u8);
    out.push(51u8);
    out.push(10u8);
    push_decimal(&mut out, width as u64);
    out.push(32u8);
    push_decimal(&mut out, height as u64);
    out.push(10u8);
    out.push(50u8);
    out.push(53u8);
    out.push(53u8);
    out.push(10u8);
    assert(out@ =~= header_text(width as nat, height as nat));
    out
}

/// The line of one pixel, from its three channel values.
pub fn pixel_line(r: u16, g: u16, b: u16) -> (line: Vec<u8>)
    ensures
        line@ == pixel_text(r as nat, g as nat, b as nat),
{
    let mut out: Vec<u8> = Vec::new();
    push_decimal(&mut out, r as u64);
    out.push(32u8);
    push_decimal(&mut out, g as u64);
    out.push(32u8);
    push_decimal(&mut out, b as u64);
    out.push(10u8);
    assert(out@ =~= pixel_text(r as nat, g as nat, b as nat));
    out
}

/// The pixel written in place `k` of an image `width` pixels wide and
/// `height` high, as (column, row) with row 0 at the bottom: rows go from the
/// top down, and each row from left to right.
pub fn scan_position(width: u32, height: u32, k: u64) -> (r: (u32, u32))
    requires
        width > 0,
        k < width as int * height as int,
    ensures
        r.0 == k as int % width as int,
        r.1 == height as int - 1 - k as int / width as int,
        r.0 < width,
        r.1 < height,
{
    let w: u64 = width as u64;
    let h: u64 = height as u64;
    assert(k / w < h) by (nonlinear_arith)
        requires
            w > 0,
            k < w * h,
    ;
    let column: u64 = k % w;
    let row: u64 = h - 1 - k / w;
    (column as u32, row as u32)
}

} // verus!
