//! The thermal policies of the platform.

use vstd::prelude::*;
use vstd::std_specs::convert::FromSpecImpl;

verus! {

/// A thermal policy. Each has its own set of fan curves.
#[derive(Debug, Clone, Copy, PartialEq, Eq, Hash, Structural)]
pub enum PlatformPolicy {
    Balanced,
    Performance,
    Quiet,
}

impl PlatformPolicy {
    /// The policy's number on the platform.
    pub open spec fn spec_code(self) -> u8 {
        match self {
            PlatformPolicy::Balanced => 0,
            PlatformPolicy::Performance => 1,
            PlatformPolicy::Quiet => 2,
        }
    }

    /// The policy for a number; numbers without a policy mean `Balanced`.
    pub open spec fn spec_from_code(code: u8) -> PlatformPolicy {
        match code {
            1 => PlatformPolicy::Performance,
            2 => PlatformPolicy::Quiet,
            _ => PlatformPolicy::Balanced,
        }
    }

    /// The policy that follows this one when stepping through them.
    pub open spec fn spec_next(self) -> PlatformPolicy {
        match self {
            PlatformPolicy::Balanced => PlatformPolicy::Performance,
            PlatformPolicy::Performance => PlatformPolicy::Quiet,
            PlatformPolicy::Quiet => PlatformPolicy::Balanced,
        }
    }

    pub fn next(&self) -> (policy: Self)
        ensures
            policy == self.spec_next(),
            policy.spec_code() == (self.spec_code() + 1) % 3,
    {
        match self {
            PlatformPolicy::Balanced => PlatformPolicy::Performance,
            PlatformPolicy::Performance => PlatformPolicy::Quiet,
            PlatformPolicy::Quiet => PlatformPolicy::Balanced,
        }
    }

    /// All policies in the order of their numbers.
    pub fn list() -> (all: [PlatformPolicy; 3])
        ensures
            all@ == seq![
                PlatformPolicy::Balanced,
                PlatformPolicy::Performance,
                PlatformPolicy::Quiet,
            ],
    {
        let all: [PlatformPolicy; 3] = [
            PlatformPolicy::Balanced,
            PlatformPolicy::Performance,
            PlatformPolicy::Quiet,
        ];
        assert(all@ =~= seq![
            PlatformPolicy::Balanced,
            PlatformPolicy::Performance,
            PlatformPolicy::Quiet,
        ]);
        all
    }
}

impl Default for PlatformPolicy {
    fn default() -> (policy: Self)
        ensures
            policy == PlatformPolicy::Balanced,
    {
        PlatformPolicy::Balanced
    }
}

impl From<u8> for PlatformPolicy {
    fn from(code: u8) -> (policy: Self) {
        match code {
            1 => PlatformPolicy::Performance,
            2 => PlatformPolicy::Quiet,
            _ => PlatformPolicy::Balanced,
        }
    }
}

impl FromSpecImpl<u8> for PlatformPolicy {
    open spec fn obeys_from_spec() -> bool {
        true
    }

    open spec fn from_spec(code: u8) -> Self {
        PlatformPolicy::spec_from_code(code)
    }
}

impl From<PlatformPolicy> for u8 {
    fn from(policy: PlatformPolicy) -> (code: u8) {
        match policy {
            PlatformPolicy::Balanced => 0,
            PlatformPolicy::Performance => 1,
            PlatformPolicy::Quiet => 2,
        }
    }
}

impl FromSpecImpl<PlatformPolicy> for u8 {
    open spec fn obeys_from_spec() -> bool {
        true
    }

    open spec fn from_spec(policy: PlatformPolicy) -> u8 {
        policy.spec_code()
    }
}

} // verus!
