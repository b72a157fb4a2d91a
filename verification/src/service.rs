//! What the answers of the service manager say of a unit.

use vstd::prelude::*;

use crate::fan_attr::{contains, spec_contains};

verus! {

/// `inactive`
pub open spec fn spec_word_inactive() -> Seq<u8> {
    seq![0x69u8, 0x6eu8, 0x61u8, 0x63u8, 0x74u8, 0x69u8, 0x76u8, 0x65u8]
}

/// `failed`
pub open spec fn spec_word_failed() -> Seq<u8> {
    seq![0x66u8, 0x61u8, 0x69u8, 0x6cu8, 0x65u8, 0x64u8]
}

/// `enabled`
pub open spec fn spec_word_enabled() -> Seq<u8> {
    seq![0x65u8, 0x6eu8, 0x61u8, 0x62u8, 0x6cu8, 0x65u8, 0x64u8]
}

/// What is wrong with a service, if anything.
#[derive(Debug, Clone, Copy, PartialEq, Eq, Structural)]
pub enum ServiceProblem {
    /// The unit is not set to start with the system.
    NotEnabled,
    /// The unit does not run.
    NotRunning,
}

/// Whether the answer to the question whether a unit is active says that it
/// is: it holds neither `inactive` nor `failed`.
pub fn unit_active(answer: &[u8]) -> (active: bool)
    ensures
        active == (!spec_contains(answer@, spec_word_inactive()) && !spec_contains(
            answer@,
            spec_word_failed(),
        )),
{
    let inactive: [u8; 8] = [0x69, 0x6e, 0x61, 0x63, 0x74, 0x69, 0x76, 0x65];
    let failed: [u8; 6] = [0x66, 0x61, 0x69, 0x6c, 0x65, 0x64];
    assert(inactive@ =~= spec_word_inactive());
    assert(failed@ =~= spec_word_failed());
    !contains(answer, inactive.as_slice()) && !contains(answer, failed.as_slice())
}

/// Whether the answer to the question whether a unit is enabled says that
/// it is: it holds `enabled`.
pub fn unit_enabled(answer: &[u8]) -> (enabled: bool)
    ensures
        enabled == spec_contains(answer@, spec_word_enabled()),
{
    let word: [u8; 7] = [0x65, 0x6e, 0x61, 0x62, 0x6c, 0x65, 0x64];
    assert(word@ =~= spec_word_enabled());
    contains(answer, word.as_slice())
}

/// What is wrong with a service. Whether the service that belongs to this
/// library is enabled is not looked at: only any other service must be.
pub fn service_problem(own_service: bool, enabled: bool, active: bool) -> (problem: Option<
    ServiceProblem,
>)
    ensures
        problem == if !own_service && !enabled {
            Some(ServiceProblem::NotEnabled)
        } else if !active {
            Some(ServiceProblem::NotRunning)
        } else {
            None::<ServiceProblem>
        },
{
    if !own_service && !enabled {
        Some(ServiceProblem::NotEnabled)
    } else if !active {
        Some(ServiceProblem::NotRunning)
    } else {
        None
    }
}

} // verus!
