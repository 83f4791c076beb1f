use vstd::prelude::*;

verus! {

/// How much gztool writes to its standard output.
#[derive(Debug, Clone, Copy, PartialEq, Eq, Structural)]
pub enum VerbosityLevel {
    /// Nothing is written (gztool's `VERBOSITY_NONE`).
    Silent,
    Normal,
    Excessive,
    Maniac,
    Crazy,
    Nuts,
}

/// The value of gztool's `VERBOSITY_LEVEL` enumeration for each level.
pub open spec fn verbosity_value(level: VerbosityLevel) -> u32 {
    match level {
        VerbosityLevel::Silent => 0,
        VerbosityLevel::Normal => 1,
        VerbosityLevel::Excessive => 2,
        VerbosityLevel::Maniac => 3,
        VerbosityLevel::Crazy => 4,
        VerbosityLevel::Nuts => 5,
    }
}

impl From<VerbosityLevel> for u32 {
    fn from(value: VerbosityLevel) -> (v: u32)
        ensures
            value == VerbosityLevel::Silent ==> v == 0,
            value == VerbosityLevel::Normal ==> v == 1,
            value == VerbosityLevel::Excessive ==> v == 2,
            value == VerbosityLevel::Maniac ==> v == 3,
            value == VerbosityLevel::Crazy ==> v == 4,
            value == VerbosityLevel::Nuts ==> v == 5,
    {
        match value {
            VerbosityLevel::Silent => 0,
            VerbosityLevel::Normal => 1,
            VerbosityLevel::Excessive => 2,
            VerbosityLevel::Maniac => 3,
            VerbosityLevel::Crazy => 4,
            VerbosityLevel::Nuts => 5,
        }
    }
}

impl vstd::std_specs::convert::FromSpecImpl<VerbosityLevel> for u32 {
    open spec fn obeys_from_spec() -> bool {
        true
    }

    open spec fn from_spec(v: VerbosityLevel) -> u32 {
        verbosity_value(v)
    }
}

/// Distinct levels have distinct values, and every value is at most 5.
pub proof fn lemma_verbosity_value_injective(a: VerbosityLevel, b: VerbosityLevel)
    ensures
        verbosity_value(a) == verbosity_value(b) ==> a == b,
        verbosity_value(a) <= 5,
{
}

} // verus!
