//! The wallpaper file-naming convention.
//!
//! The wallpaper for desktop `name` on a surface of size `width`x`height` is
//! the file `<dir>/<name>-<width>x<height>.png` inside the managed directory,
//! with the dimensions in decimal.  Paths are built as plain bytes; the
//! desktop name is used exactly as the names property spells it.

use vstd::prelude::*;

verus! {

/// The ASCII decimal digits of `n`, most significant first, no sign and no
/// leading zeros (a lone `0` for zero).
pub open spec fn dec_digits(n: nat) -> Seq<u8>
    decreases n,
{
    if n < 10 {
        seq![(48 + n) as u8]
    } else {
        dec_digits(n / 10).push((48 + n % 10) as u8)
    }
}

/// Render a dimension in decimal.
pub fn dec_of(n: u16) -> (r: Vec<u8>)
    ensures
        r@ == dec_digits(n as nat),
    decreases n,
{
    if n < 10 {
        let mut v: Vec<u8> = Vec::new();
        v.push(48 + n as u8);
        proof {
            assert(v@ =~= dec_digits(n as nat));
        }
        v
    } else {
        let mut v = dec_of(n / 10);
        v.push(48 + (n % 10) as u8);
        v
    }
}

/// The path of the wallpaper file for desktop `name` at size
/// `width`x`height` inside directory `dir`: `<dir>/<name>-<width>x<height>.png`.
/// The byte constants are `/`, `-`, `x` and `.png`.
pub open spec fn wallpaper_path_spec(dir: Seq<u8>, name: Seq<u8>, width: u16, height: u16) -> Seq<
    u8,
> {
    dir + seq![47u8] + name + seq![45u8] + dec_digits(width as nat) + seq![120u8] + dec_digits(
        height as nat,
    ) + seq![46u8, 112u8, 110u8, 103u8]
}

/// Build the wallpaper file path for a desktop name and the surface geometry
/// the resolution is running with.
pub fn wallpaper_path(dir: &Vec<u8>, name: &Vec<u8>, width: u16, height: u16) -> (r: Vec<u8>)
    ensures
        r@ == wallpaper_path_spec(dir@, name@, width, height),
{
    let mut r: Vec<u8> = Vec::new();
    r.extend_from_slice(dir.as_slice());
    r.push(47);
    r.extend_from_slice(name.as_slice());
    r.push(45);
    let w = dec_of(width);
    r.extend_from_slice(w.as_slice());
    r.push(120);
    let h = dec_of(height);
    r.extend_from_slice(h.as_slice());
    r.push(46);
    r.push(112);
    r.push(110);
    r.push(103);
    proof {
        assert(r@ =~= wallpaper_path_spec(dir@, name@, width, height));
    }
    r
}

} // verus!
