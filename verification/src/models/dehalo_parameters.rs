//! Dehalo stage parameters: removal of halo artifacts around edges.

use vstd::prelude::*;
use crate::numfmt::Decimal;

verus! {

/// Dehalo method options.
#[derive(Clone, Copy, PartialEq, Eq, Structural, Debug)]
pub enum DehaloMethod {
    DehaloAlpha,
    FineDehalo,
    Yahr,
}

impl DehaloMethod {
    pub open spec fn spec_name(self) -> Seq<char> {
        match self {
            DehaloMethod::DehaloAlpha => "DeHalo_alpha"@,
            DehaloMethod::FineDehalo => "FineDehalo"@,
            DehaloMethod::Yahr => "YAHR"@,
        }
    }

    /// The method's name in the scripting environment.
    pub fn as_str(&self) -> (r: &'static str)
        ensures
            r@ == self.spec_name(),
    {
        match self {
            DehaloMethod::DehaloAlpha => "DeHalo_alpha",
            DehaloMethod::FineDehalo => "FineDehalo",
            DehaloMethod::Yahr => "YAHR",
        }
    }
}

/// Parameters for the dehalo stage.
#[derive(Clone, Copy, Debug)]
pub struct DehaloParameters {
    /// Whether this stage is enabled.
    pub enabled: bool,
    /// Dehalo method to use.
    pub method: DehaloMethod,
    /// Horizontal radius for halo detection.
    pub rx: Decimal,
    /// Vertical radius for halo detection.
    pub ry: Decimal,
    /// Dark halo removal strength.
    pub dark_str: Decimal,
    /// Bright halo removal strength.
    pub bright_str: Decimal,
    /// Low threshold for the halo mask.
    pub low_threshold: i32,
    /// High threshold for the halo mask.
    pub high_threshold: i32,
    /// Blur amount for the YAHR method.
    pub yahr_blur: i32,
    /// Processing depth for the YAHR method.
    pub yahr_depth: i32,
}

/// What the default parameter set holds: disabled, with the documented
/// per-field defaults.
pub open spec fn dehalo_default(r: DehaloParameters) -> bool {
    &&& r.enabled == false
    &&& r.method == DehaloMethod::DehaloAlpha
    &&& r.rx.scaled == 20000
    &&& r.ry.scaled == 20000
    &&& r.dark_str.scaled == 10000
    &&& r.bright_str.scaled == 10000
    &&& r.low_threshold == 50
    &&& r.high_threshold == 100
    &&& r.yahr_blur == 2
    &&& r.yahr_depth == 32
}

impl Default for DehaloParameters {
    /// A disabled dehalo stage with the documented defaults.
    fn default() -> (r: Self)
        ensures
            dehalo_default(r),
    {
        DehaloParameters {
            enabled: false,
            method: DehaloMethod::DehaloAlpha,
            rx: Decimal { scaled: 20000 },
            ry: Decimal { scaled: 20000 },
            dark_str: Decimal { scaled: 10000 },
            bright_str: Decimal { scaled: 10000 },
            low_threshold: 50,
            high_threshold: 100,
            yahr_blur: 2,
            yahr_depth: 32,
        }
    }
}

} // verus!
