use vstd::prelude::*;

verus! {

/// A version of the native hosting library. Each version exports every entry
/// point of the versions before it (with the exceptions noted on the delegate
/// kinds), so the versions form a ladder.
#[allow(non_camel_case_types)]
#[derive(Clone, Copy, Debug, PartialEq, Eq, Structural, Hash)]
pub enum Tier {
    NetCore1_0,
    NetCore2_0,
    NetCore2_1,
    NetCore3_0,
    Net5_0,
    Net8_0,
}

impl Tier {
    /// Position of the version on the ladder.
    pub open spec fn spec_rank(self) -> u8 {
        match self {
            Tier::NetCore1_0 => 0,
            Tier::NetCore2_0 => 1,
            Tier::NetCore2_1 => 2,
            Tier::NetCore3_0 => 3,
            Tier::Net5_0 => 4,
            Tier::Net8_0 => 5,
        }
    }

    #[verifier::when_used_as_spec(spec_rank)]
    pub fn rank(self) -> (r: u8)
        ensures
            r == self.spec_rank(),
    {
        match self {
            Tier::NetCore1_0 => 0,
            Tier::NetCore2_0 => 1,
            Tier::NetCore2_1 => 2,
            Tier::NetCore3_0 => 3,
            Tier::Net5_0 => 4,
            Tier::Net8_0 => 5,
        }
    }

    /// Whether a library of this version has everything that `other` introduced.
    pub open spec fn spec_includes(self, other: Tier) -> bool {
        self.spec_rank() >= other.spec_rank()
    }

    #[verifier::when_used_as_spec(spec_includes)]
    pub fn includes(self, other: Tier) -> (r: bool)
        ensures
            r == self.spec_includes(other),
    {
        self.rank() >= other.rank()
    }
}

} // verus!
