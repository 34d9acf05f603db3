//! Decimal rendering and parsing of integers, and a fixed-point decimal
//! type with ten-thousandths resolution that carries every fractional
//! tunable of the pipeline.

use vstd::prelude::*;

verus! {

pub const DIGIT_ZERO: u8 = 48;

pub const MINUS: u8 = 45;

pub const DOT: u8 = 46;

/// Resolution of [`Decimal`]: one unit is one ten-thousandth.
pub const DECIMAL_SCALE: i64 = 10000;

pub open spec fn is_digit(b: u8) -> bool {
    DIGIT_ZERO <= b <= 57
}

/// Decimal digits of `n`, most significant first, no sign, no padding.
pub open spec fn spec_digits(n: nat) -> Seq<u8>
    decreases n,
{
    if n < 10 {
        seq![(DIGIT_ZERO + n) as u8]
    } else {
        spec_digits(n / 10) + seq![(DIGIT_ZERO + n % 10) as u8]
    }
}

/// Decimal rendering of `v`, with a leading minus sign when negative.
pub open spec fn spec_int_bytes(v: int) -> Seq<u8> {
    if v < 0 {
        seq![MINUS] + spec_digits((-v) as nat)
    } else {
        spec_digits(v as nat)
    }
}

/// The lowest `w` decimal digits of `n`, left-padded with zeros.
pub open spec fn spec_pad_digits(n: nat, w: nat) -> Seq<u8>
    decreases w,
{
    if w == 0 {
        Seq::empty()
    } else {
        spec_pad_digits(n / 10, (w - 1) as nat) + seq![(DIGIT_ZERO + n % 10) as u8]
    }
}

/// Decimal digits of `n`.
pub fn u64_digits(n: u64) -> (r: Vec<u8>)
    ensures
        r@ == spec_digits(n as nat),
    decreases n,
{
    if n < 10 {
        let mut v: Vec<u8> = Vec::new();
        v.push(DIGIT_ZERO + (n as u8));
        proof {
            assert(v@ =~= spec_digits(n as nat));
        }
        v
    } else {
        let mut v = u64_digits(n / 10);
        v.push(DIGIT_ZERO + ((n % 10) as u8));
        proof {
            assert(v@ =~= spec_digits((n / 10) as nat) + seq![(DIGIT_ZERO + n as nat % 10) as u8]);
        }
        v
    }
}

/// The lowest `w` decimal digits of `n`, left-padded with zeros.
pub fn u64_pad_digits(n: u64, w: u64) -> (r: Vec<u8>)
    ensures
        r@ == spec_pad_digits(n as nat, w as nat),
    decreases w,
{
    if w == 0 {
        let v: Vec<u8> = Vec::new();
        proof {
            assert(v@ =~= spec_pad_digits(n as nat, 0));
        }
        v
    } else {
        let mut v = u64_pad_digits(n / 10, w - 1);
        v.push(DIGIT_ZERO + ((n % 10) as u8));
        proof {
            assert(v@ =~= spec_pad_digits((n / 10) as nat, (w - 1) as nat) + seq![
                (DIGIT_ZERO + n as nat % 10) as u8,
            ]);
        }
        v
    }
}

/// Magnitude of `v` as an unsigned value, correct also at the minimum.
pub fn i64_magnitude(v: i64) -> (r: u64)
    ensures
        v >= 0 ==> r == v,
        v < 0 ==> r == -(v as int),
{
    if v >= 0 {
        v as u64
    } else {
        ((-(v + 1)) as u64) + 1
    }
}

/// Decimal rendering of `v`, with a leading minus sign when negative.
pub fn i64_to_bytes(v: i64) -> (r: Vec<u8>)
    ensures
        r@ == spec_int_bytes(v as int),
{
    let m = i64_magnitude(v);
    if v >= 0 {
        u64_digits(m)
    } else {
        let mut out: Vec<u8> = Vec::new();
        out.push(MINUS);
        let mut d = u64_digits(m);
        out.append(&mut d);
        proof {
            assert(out@ =~= seq![MINUS] + spec_digits((-(v as int)) as nat));
        }
        out
    }
}

/// Decimal rendering of `v`.
pub fn i32_to_bytes(v: i32) -> (r: Vec<u8>)
    ensures
        r@ == spec_int_bytes(v as int),
{
    i64_to_bytes(v as i64)
}

/// A fixed-point decimal number held in ten-thousandths. It stands in
/// for every fractional tunable and measurement of the pipeline, with
/// exact arithmetic and rendering.
#[derive(Clone, Copy, PartialEq, Eq, Structural, Debug)]
pub struct Decimal {
    pub scaled: i64,
}

/// Fractional part of a magnitude in ten-thousandths, rendered to four
/// digits with the trailing zeros, and nothing else, trimmed.
pub open spec fn spec_frac_bytes(frac: nat) -> Seq<u8>
    recommends
        0 < frac < 10000,
{
    if frac % 10 != 0 {
        spec_pad_digits(frac, 4)
    } else if frac % 100 != 0 {
        spec_pad_digits(frac / 10, 3)
    } else if frac % 1000 != 0 {
        spec_pad_digits(frac / 100, 2)
    } else {
        spec_pad_digits(frac / 1000, 1)
    }
}

/// Rendering of a decimal value: a whole value shows one zero decimal
/// digit; a fractional value shows up to four digits with trailing
/// zeros trimmed.
pub open spec fn spec_decimal_bytes(scaled: int) -> Seq<u8> {
    if scaled < 0 {
        seq![MINUS] + spec_decimal_mag_bytes((-scaled) as nat)
    } else {
        spec_decimal_mag_bytes(scaled as nat)
    }
}

pub open spec fn spec_decimal_mag_bytes(mag: nat) -> Seq<u8> {
    let ip = mag / 10000;
    let frac = mag % 10000;
    if frac == 0 {
        spec_digits(ip) + seq![DOT, DIGIT_ZERO]
    } else {
        spec_digits(ip) + seq![DOT] + spec_frac_bytes(frac)
    }
}

impl Decimal {
    /// The value `scaled / 10000`.
    pub fn from_scaled(scaled: i64) -> (r: Decimal)
        ensures
            r.scaled == scaled,
    {
        Decimal { scaled }
    }

    /// The whole number `v`.
    pub fn from_int(v: i32) -> (r: Decimal)
        ensures
            r.scaled == v * 10000,
    {
        Decimal { scaled: (v as i64) * 10000 }
    }

    /// The value zero.
    pub fn zero() -> (r: Decimal)
        ensures
            r.scaled == 0,
    {
        Decimal { scaled: 0 }
    }

    /// True when the value has no fractional part.
    pub fn is_whole(&self) -> (r: bool)
        ensures
            r == (self.scaled % 10000 == 0),
    {
        self.scaled % 10000 == 0
    }

    /// Rendering for the generated script, as `spec_decimal_bytes`
    /// describes.
    pub fn render(&self) -> (r: Vec<u8>)
        ensures
            r@ == spec_decimal_bytes(self.scaled as int),
    {
        let m = i64_magnitude(self.scaled);
        let mag = render_magnitude(m);
        if self.scaled < 0 {
            let mut out: Vec<u8> = Vec::new();
            out.push(MINUS);
            let mut magv = mag;
            out.append(&mut magv);
            proof {
                assert(out@ =~= seq![MINUS] + spec_decimal_mag_bytes((-(self.scaled as int)) as nat));
            }
            out
        } else {
            mag
        }
    }
}

/// Rendering of a non-negative decimal magnitude in ten-thousandths.
fn render_magnitude(m: u64) -> (r: Vec<u8>)
    ensures
        r@ == spec_decimal_mag_bytes(m as nat),
{
    let ip = m / 10000;
    let frac = m % 10000;
    let mut out = u64_digits(ip);
    out.push(DOT);
    if frac == 0 {
        out.push(DIGIT_ZERO);
        proof {
            assert(out@ =~= spec_digits(m as nat / 10000) + seq![DOT, DIGIT_ZERO]);
        }
        out
    } else {
        let mut f = if frac % 10 != 0 {
            u64_pad_digits(frac, 4)
        } else if frac % 100 != 0 {
            u64_pad_digits(frac / 10, 3)
        } else if frac % 1000 != 0 {
            u64_pad_digits(frac / 100, 2)
        } else {
            u64_pad_digits(frac / 1000, 1)
        };
        out.append(&mut f);
        proof {
            assert(out@ =~= spec_digits(m as nat / 10000) + seq![DOT] + spec_frac_bytes(
                m as nat % 10000,
            ));
        }
        out
    }
}

} // verus!
