//! Sharpen stage parameters.

use vstd::prelude::*;
use crate::numfmt::Decimal;

verus! {

/// Sharpening method options.
#[derive(Clone, Copy, PartialEq, Eq, Structural, Debug)]
pub enum SharpenMethod {
    LSFmod,
    CAS,
}

impl SharpenMethod {
    pub open spec fn spec_name(self) -> Seq<char> {
        match self {
            SharpenMethod::LSFmod => "LSFmod"@,
            SharpenMethod::CAS => "CAS"@,
        }
    }

    /// The method's name in the scripting environment.
    pub fn as_str(&self) -> (r: &'static str)
        ensures
            r@ == self.spec_name(),
    {
        match self {
            SharpenMethod::LSFmod => "LSFmod",
            SharpenMethod::CAS => "CAS",
        }
    }
}

/// Parameters for the sharpening stage.
#[derive(Clone, Copy, Debug)]
pub struct SharpenParameters {
    /// Whether this stage is enabled.
    pub enabled: bool,
    /// Sharpening method to use.
    pub method: SharpenMethod,
    /// Overall sharpening strength.
    pub strength: i32,
    /// Overshoot limiting for bright edges.
    pub overshoot: i32,
    /// Undershoot limiting for dark edges.
    pub undershoot: i32,
    /// Edge detection threshold for soft-edge handling.
    pub soft_edge: i32,
    /// Sharpening amount for the CAS method.
    pub cas_sharpness: Decimal,
}

/// What the default parameter set holds: disabled, with the documented
/// per-field defaults.
pub open spec fn sharpen_default(r: SharpenParameters) -> bool {
    &&& r.enabled == false
    &&& r.method == SharpenMethod::LSFmod
    &&& r.strength == 100
    &&& r.overshoot == 1
    &&& r.undershoot == 1
    &&& r.soft_edge == 0
    &&& r.cas_sharpness.scaled == 5000
}

impl Default for SharpenParameters {
    /// A disabled sharpening stage with the documented defaults.
    fn default() -> (r: Self)
        ensures
            sharpen_default(r),
    {
        SharpenParameters {
            enabled: false,
            method: SharpenMethod::LSFmod,
            strength: 100,
            overshoot: 1,
            undershoot: 1,
            soft_edge: 0,
            cas_sharpness: Decimal { scaled: 5000 },
        }
    }
}

} // verus!
