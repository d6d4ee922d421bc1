use vstd::prelude::*;

verus! {

/// One whole (a full saturation or value) in the thousandths that colour
/// components are given in.
pub const UNIT: i64 = 1000;

/// A full turn of hue in thousandths of a degree.
pub const FULL_TURN: i64 = 360_000;

/// One sixth of a turn of hue (a colour sector) in thousandths of a degree.
pub const SECTOR: i64 = 60_000;

/// Common denominator of the unrounded channel intensities: a value and a
/// saturation in thousandths and the position inside a sector.
pub const INTENSITY_ONE: u64 = 60_000_000_000;

/// An 8-bit RGB colour.
#[derive(Debug, Clone, Copy, PartialEq, Eq, Structural)]
pub struct Rgb {
    pub r: u8,
    pub g: u8,
    pub b: u8,
}

/// The hue brought into `[0, FULL_TURN)`.
pub open spec fn wrap_hue(h: int) -> int {
    h % (FULL_TURN as int)
}

/// A component in thousandths, held to `[0, UNIT]`.
pub open spec fn clamp_unit(x: int) -> int {
    if x < 0 {
        0
    } else if x > UNIT {
        UNIT as int
    } else {
        x
    }
}

/// How far the secondary channel has risen at wrapped hue `h`, in
/// thousandths of a degree: `SECTOR * (1 - |(h / 60°) mod 2 - 1|)`.
pub open spec fn rise(h: int) -> int {
    let p = h % (2 * SECTOR as int);
    if p >= SECTOR {
        2 * SECTOR - p
    } else {
        p
    }
}

/// An intensity over `INTENSITY_ONE` scaled to 0..=255, rounded half up.
pub open spec fn level(q: int) -> int {
    (255 * q + INTENSITY_ONE / 2) / (INTENSITY_ONE as int)
}

/// The RGB colour of hue `h` (thousandths of a degree, any sign) with
/// saturation `s` and value `v` (thousandths, held to `[0, 1]`), by the
/// standard sector decomposition: chroma `c = v*s`, secondary
/// `x = c * (1 - |(h/60°) mod 2 - 1|)`, offset `m = v - c`.
pub open spec fn hsv_color(h: int, s: int, v: int) -> Rgb {
    let hw = wrap_hue(h);
    let s = clamp_unit(s);
    let v = clamp_unit(v);
    let c = v * s * SECTOR;
    let x = v * s * rise(hw);
    let m = v * (UNIT - s) * SECTOR;
    let sector = hw / (SECTOR as int);
    let (r, g, b) = if sector == 0 {
        (c, x, 0)
    } else if sector == 1 {
        (x, c, 0)
    } else if sector == 2 {
        (0, c, x)
    } else if sector == 3 {
        (0, x, c)
    } else if sector == 4 {
        (x, 0, c)
    } else {
        (c, 0, x)
    };
    Rgb { r: level(r + m) as u8, g: level(g + m) as u8, b: level(b + m) as u8 }
}

fn clamp_component(x: i64) -> (r: u64)
    ensures
        r == clamp_unit(x as int),
{
    if x < 0 {
        0
    } else if x > UNIT {
        UNIT as u64
    } else {
        x as u64
    }
}

fn to_level(q: u64) -> (r: u8)
    requires
        q <= INTENSITY_ONE,
    ensures
        r == level(q as int),
        r as int == level(q as int),
{
    assert(255 * q + INTENSITY_ONE / 2 <= 256 * INTENSITY_ONE) by (nonlinear_arith)
        requires q <= INTENSITY_ONE;
    let n: u64 = 255 * q + INTENSITY_ONE / 2;
    let l: u64 = n / INTENSITY_ONE;
    assert(l <= 255) by (nonlinear_arith)
        requires l == n / INTENSITY_ONE, n <= 256 * INTENSITY_ONE - INTENSITY_ONE / 2;
    l as u8
}

/// Converts a colour given as hue, saturation and value into 8-bit RGB.
///
/// The hue is in thousandths of a degree and wraps into `[0°, 360°)`, so
/// `-30°` and `330°` give the same colour. Saturation and value are in
/// thousandths of one; a component outside `[0, 1]` counts as the nearest
/// bound. Each channel is rounded to the nearest step of 1/255.
pub fn hsv_to_rgb(h: i64, s: i64, v: i64) -> (r: Rgb)
    ensures
        r == hsv_color(h as int, s as int, v as int),
{
    let hw: i64 = match h.checked_rem_euclid(FULL_TURN) {
        Some(w) => w,
        None => 0,
    };
    let s = clamp_component(s);
    let v = clamp_component(v);
    let p: i64 = hw % (2 * SECTOR);
    let rise: u64 = if p >= SECTOR {
        (2 * SECTOR - p) as u64
    } else {
        p as u64
    };
    assert(0 <= rise <= SECTOR);
    assert(v * s <= UNIT * UNIT) by (nonlinear_arith)
        requires v <= UNIT, s <= UNIT;
    assert(v * s * SECTOR <= INTENSITY_ONE) by (nonlinear_arith)
        requires v * s <= UNIT * UNIT;
    assert(v * s * rise <= v * s * SECTOR) by (nonlinear_arith)
        requires rise <= SECTOR;
    assert(v * (UNIT - s) * SECTOR + v * s * SECTOR == v * UNIT * SECTOR) by (nonlinear_arith);
    assert(v * UNIT * SECTOR <= INTENSITY_ONE) by (nonlinear_arith)
        requires v <= UNIT;
    let c: u64 = v * s * (SECTOR as u64);
    let x: u64 = v * s * rise;
    let m: u64 = v * (UNIT as u64 - s) * (SECTOR as u64);
    let sector: i64 = hw / SECTOR;
    let (r, g, b): (u64, u64, u64) = if sector == 0 {
        (c, x, 0)
    } else if sector == 1 {
        (x, c, 0)
    } else if sector == 2 {
        (0, c, x)
    } else if sector == 3 {
        (0, x, c)
    } else if sector == 4 {
        (x, 0, c)
    } else {
        (c, 0, x)
    };
    Rgb { r: to_level(r + m), g: to_level(g + m), b: to_level(b + m) }
}

/// Hue is read modulo a full turn: a hue and the same hue one turn further
/// (so `-30°` and `330°`) give the same colour.
pub proof fn lemma_hue_wraps(h: int, s: int, v: int)
    ensures
        hsv_color(h, s, v) == hsv_color(h + FULL_TURN, s, v),
{
    vstd::arithmetic::div_mod::lemma_mod_add_multiples_vanish(h, FULL_TURN as int);
}

/// With no saturation every hue gives the same grey: each channel is the
/// value scaled to 255, rounded half up.
pub proof fn lemma_unsaturated_is_grey(h: int, v: int)
    ensures
        ({
            let grey = ((255 * clamp_unit(v) + 500) / 1000) as u8;
            hsv_color(h, 0, v) == Rgb { r: grey, g: grey, b: grey }
        }),
{
    let cv = clamp_unit(v);
    let q = cv * UNIT * SECTOR;
    let hw = wrap_hue(h);
    assert(cv * 0 * SECTOR == 0);
    assert(cv * 0 * rise(hw) == 0);
    assert(cv * (UNIT - 0) * SECTOR == q);
    assert(255 * q + INTENSITY_ONE / 2 == (255 * cv + 500) * 60_000_000) by (nonlinear_arith)
        requires q == cv * UNIT * SECTOR;
    vstd::arithmetic::div_mod::lemma_div_multiples_vanish_fancy(
        255 * cv + 500,
        1000,
        60_000_000,
    );
    assert(level(q) == (255 * cv + 500) / 1000) by (nonlinear_arith)
        requires
            255 * q + INTENSITY_ONE / 2 == (255 * cv + 500) * 60_000_000,
            (255 * cv + 500) * 60_000_000 / (60_000_000int * 1000) == (255 * cv + 500) / 1000;
}

} // verus!
