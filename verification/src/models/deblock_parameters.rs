//! Deblock stage parameters: removal of block artifacts from
//! compressed sources.

use vstd::prelude::*;

verus! {

/// Deblocking method options.
#[derive(Clone, Copy, PartialEq, Eq, Structural, Debug)]
pub enum DeblockMethod {
    DeblockQed,
    Deblock,
}

impl DeblockMethod {
    pub open spec fn spec_name(self) -> Seq<char> {
        match self {
            DeblockMethod::DeblockQed => "Deblock_QED"@,
            DeblockMethod::Deblock => "Deblock"@,
        }
    }

    /// The method's name in the scripting environment.
    pub fn as_str(&self) -> (r: &'static str)
        ensures
            r@ == self.spec_name(),
    {
        match self {
            DeblockMethod::DeblockQed => "Deblock_QED",
            DeblockMethod::Deblock => "Deblock",
        }
    }
}

/// Parameters for the deblocking stage.
#[derive(Clone, Copy, Debug)]
pub struct DeblockParameters {
    /// Whether this stage is enabled.
    pub enabled: bool,
    /// Deblocking method to use.
    pub method: DeblockMethod,
    /// Strength for edges.
    pub quant1: i32,
    /// Strength for non-edges.
    pub quant2: i32,
    /// Analysis plane offset for edges.
    pub a_offset1: i32,
    /// Analysis plane offset for non-edges.
    pub a_offset2: i32,
    /// Block size.
    pub block_size: i32,
    /// Overlap amount.
    pub overlap: i32,
}

/// What the default parameter set holds: disabled, with the documented
/// per-field defaults.
pub open spec fn deblock_default(r: DeblockParameters) -> bool {
    &&& r.enabled == false
    &&& r.method == DeblockMethod::DeblockQed
    &&& r.quant1 == 24
    &&& r.quant2 == 26
    &&& r.a_offset1 == 1
    &&& r.a_offset2 == 1
    &&& r.block_size == 8
    &&& r.overlap == 4
}

impl Default for DeblockParameters {
    /// A disabled deblocking stage with the documented defaults.
    fn default() -> (r: Self)
        ensures
            deblock_default(r),
    {
        DeblockParameters {
            enabled: false,
            method: DeblockMethod::DeblockQed,
            quant1: 24,
            quant2: 26,
            a_offset1: 1,
            a_offset2: 1,
            block_size: 8,
            overlap: 4,
        }
    }
}

} // verus!
