use vstd::prelude::*;

verus! {

/// Danger-rating scale used by avalanche centers, ordered from no rating to
/// extreme. Serialized downstream by ordinal.
#[derive(Clone, Copy, Debug, PartialEq, Eq, Structural)]
pub enum DangerRating {
    NoRating,
    Low,
    Moderate,
    Considerable,
    High,
    Extreme,
}

/// Destructive-size range of an avalanche problem.
#[derive(Clone, Copy, Debug, PartialEq, Eq, Structural)]
pub enum Size {
    SmallLarge,
    LargeVeryLarge,
    VeryLargeHistoric,
}

/// Likelihood of an avalanche problem.
#[derive(Clone, Copy, Debug, PartialEq, Eq, Structural)]
pub enum Likelihood {
    Unspecified,
    Unlikely,
    Possible,
    Likely,
    VeryLikely,
    Certain,
}

/// Closed vocabulary of avalanche problem types.
#[derive(Clone, Copy, Debug, PartialEq, Eq, Structural)]
pub enum ProblemTypes {
    Unspecified,
    WindSlab,
    StormSlab,
    PersistentSlab,
    LooseDry,
    PersistentWeakLayer,
    CorniceFall,
    Glide,
    WetSnow,
}

/// Ordinal of a size variant, as serialized on the wire.
pub open spec fn size_ordinal(s: Size) -> u32 {
    match s {
        Size::SmallLarge => 0,
        Size::LargeVeryLarge => 1,
        Size::VeryLargeHistoric => 2,
    }
}

/// Ordinal of a likelihood variant, as serialized on the wire.
pub open spec fn likelihood_ordinal(l: Likelihood) -> u32 {
    match l {
        Likelihood::Unspecified => 0,
        Likelihood::Unlikely => 1,
        Likelihood::Possible => 2,
        Likelihood::Likely => 3,
        Likelihood::VeryLikely => 4,
        Likelihood::Certain => 5,
    }
}

/// Ordinal of a problem-type variant, as serialized on the wire.
pub open spec fn problem_type_ordinal(p: ProblemTypes) -> u32 {
    match p {
        ProblemTypes::Unspecified => 0,
        ProblemTypes::WindSlab => 1,
        ProblemTypes::StormSlab => 2,
        ProblemTypes::PersistentSlab => 3,
        ProblemTypes::LooseDry => 4,
        ProblemTypes::PersistentWeakLayer => 5,
        ProblemTypes::CorniceFall => 6,
        ProblemTypes::Glide => 7,
        ProblemTypes::WetSnow => 8,
    }
}

impl Size {
    /// The wire ordinal of this size range.
    pub fn ordinal(&self) -> (r: u32)
        ensures
            r == size_ordinal(*self),
    {
        match self {
            Size::SmallLarge => 0,
            Size::LargeVeryLarge => 1,
            Size::VeryLargeHistoric => 2,
        }
    }
}

impl Likelihood {
    /// The wire ordinal of this likelihood.
    pub fn ordinal(&self) -> (r: u32)
        ensures
            r == likelihood_ordinal(*self),
    {
        match self {
            Likelihood::Unspecified => 0,
            Likelihood::Unlikely => 1,
            Likelihood::Possible => 2,
            Likelihood::Likely => 3,
            Likelihood::VeryLikely => 4,
            Likelihood::Certain => 5,
        }
    }
}

impl ProblemTypes {
    /// The wire ordinal of this problem type.
    pub fn ordinal(&self) -> (r: u32)
        ensures
            r == problem_type_ordinal(*self),
    {
        match self {
            ProblemTypes::Unspecified => 0,
            ProblemTypes::WindSlab => 1,
            ProblemTypes::StormSlab => 2,
            ProblemTypes::PersistentSlab => 3,
            ProblemTypes::LooseDry => 4,
            ProblemTypes::PersistentWeakLayer => 5,
            ProblemTypes::CorniceFall => 6,
            ProblemTypes::Glide => 7,
            ProblemTypes::WetSnow => 8,
        }
    }
}

/// Aspect exposure flags, one bit per compass octant.
pub const ASPECT_NORTH: u32 = 0x01;

pub const ASPECT_NORTHWEST: u32 = 0x02;

pub const ASPECT_WEST: u32 = 0x04;

pub const ASPECT_SOUTHWEST: u32 = 0x08;

pub const ASPECT_SOUTH: u32 = 0x10;

pub const ASPECT_SOUTHEAST: u32 = 0x20;

pub const ASPECT_EAST: u32 = 0x40;

pub const ASPECT_NORTHEAST: u32 = 0x80;

/// Elevation exposure flags, one bit per treeline band.
pub const ELEVATION_BELOW_TREELINE: u32 = 0x01;

pub const ELEVATION_AT_TREELINE: u32 = 0x02;

pub const ELEVATION_ABOVE_TREELINE: u32 = 0x04;

} // verus!
