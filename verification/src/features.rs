//! Architecture extensions a decoder accepts.
use vstd::prelude::*;

verus! {

/// An optional architecture extension that gates a set of encodings.
#[derive(Clone, Copy, PartialEq, Eq, Debug, Structural)]
pub enum Feature {
    Sve,
    Sve2,
    Sve2p1,
    Sme,
    Sme2,
    Bf16,
    Fp8,
    Lut,
    SmeB16b16,
    SmeF16f16,
    SmeF8f16,
    SmeF8f32,
    SmeMop4,
}

/// The bit that stands for `f` in a [`FeatureSet`].
pub open spec fn feature_flag(f: Feature) -> u32 {
    match f {
        Feature::Sve => 0x1,
        Feature::Sve2 => 0x2,
        Feature::Sve2p1 => 0x4,
        Feature::Sme => 0x8,
        Feature::Sme2 => 0x10,
        Feature::Bf16 => 0x20,
        Feature::Fp8 => 0x40,
        Feature::Lut => 0x80,
        Feature::SmeB16b16 => 0x100,
        Feature::SmeF16f16 => 0x200,
        Feature::SmeF8f16 => 0x400,
        Feature::SmeF8f32 => 0x800,
        Feature::SmeMop4 => 0x1000,
    }
}

fn flag(f: Feature) -> (b: u32)
    ensures
        b == feature_flag(f),
{
    match f {
        Feature::Sve => 0x1,
        Feature::Sve2 => 0x2,
        Feature::Sve2p1 => 0x4,
        Feature::Sme => 0x8,
        Feature::Sme2 => 0x10,
        Feature::Bf16 => 0x20,
        Feature::Fp8 => 0x40,
        Feature::Lut => 0x80,
        Feature::SmeB16b16 => 0x100,
        Feature::SmeF16f16 => 0x200,
        Feature::SmeF8f16 => 0x400,
        Feature::SmeF8f32 => 0x800,
        Feature::SmeMop4 => 0x1000,
    }
}

/// The set of every extension.
pub open spec fn all_features() -> FeatureSet {
    FeatureSet { bits: 0x1fff }
}

/// The empty set of extensions.
pub open spec fn base_features() -> FeatureSet {
    FeatureSet { bits: 0 }
}

/// A set of accepted extensions.
#[derive(Clone, Copy, PartialEq, Eq, Debug, Structural)]
pub struct FeatureSet {
    pub bits: u32,
}

impl FeatureSet {
    /// Every extension this decoder knows.
    pub fn all() -> (r: FeatureSet)
        ensures
            r == all_features(),
    {
        FeatureSet { bits: 0x1fff }
    }

    /// The base architecture only: no optional extension is accepted.
    pub fn base() -> (r: FeatureSet)
        ensures
            r == base_features(),
    {
        FeatureSet { bits: 0 }
    }

    /// Whether `f` belongs to the set.
    pub open spec fn contains(self, f: Feature) -> bool {
        self.bits & feature_flag(f) != 0
    }

    /// `true` iff `f` is accepted.
    pub fn has(&self, f: Feature) -> (r: bool)
        ensures
            r == self.contains(f),
    {
        self.bits & flag(f) != 0
    }
}

/// `ALL` accepts every extension and `BASE` accepts none.
pub proof fn lemma_all_and_base(f: Feature)
    ensures
        all_features().contains(f),
        !base_features().contains(f),
{
    let a: u32 = 0x1fff;
    let z: u32 = 0;
    assert(a & 0x1 != 0 && a & 0x2 != 0 && a & 0x4 != 0 && a & 0x8 != 0 && a & 0x10 != 0
        && a & 0x20 != 0 && a & 0x40 != 0 && a & 0x80 != 0 && a & 0x100 != 0 && a & 0x200 != 0
        && a & 0x400 != 0 && a & 0x800 != 0 && a & 0x1000 != 0) by (bit_vector)
        requires
            a == 0x1fff,
    ;
    assert(z & 0x1 == 0 && z & 0x2 == 0 && z & 0x4 == 0 && z & 0x8 == 0 && z & 0x10 == 0
        && z & 0x20 == 0 && z & 0x40 == 0 && z & 0x80 == 0 && z & 0x100 == 0 && z & 0x200 == 0
        && z & 0x400 == 0 && z & 0x800 == 0 && z & 0x1000 == 0) by (bit_vector)
        requires
            z == 0,
    ;
}

impl Default for FeatureSet {
    /// The default accepts every extension.
    fn default() -> (r: FeatureSet)
        ensures
            r == all_features(),
    {
        FeatureSet::all()
    }
}

} // verus!
