//! Fans as text: their names, and the parser that reads one.

use vstd::prelude::*;

use crate::error::ProfileError;
use crate::fan_attr::FanCurvePU;
use crate::text::{
    spec_ascii_lower, spec_is_whitespace, spec_trim, spec_trim_end, spec_trim_start, str_eq,
    to_ascii_lowercase, trim,
};

verus! {

/// The fan that a text names, once it is in small letters and has no
/// space around it.
pub open spec fn spec_fan_from_name(name: Seq<char>) -> Result<FanCurvePU, ProfileError> {
    if name == "cpu"@ {
        Ok(FanCurvePU::CPU)
    } else if name == "gpu"@ {
        Ok(FanCurvePU::GPU)
    } else if name == "mid"@ {
        Ok(FanCurvePU::MID)
    } else {
        Err(ProfileError::ParseProfileName)
    }
}

impl FanCurvePU {
    /// The fan's name.
    pub open spec fn spec_name(self) -> Seq<char> {
        match self {
            FanCurvePU::CPU => "cpu"@,
            FanCurvePU::GPU => "gpu"@,
            FanCurvePU::MID => "mid"@,
        }
    }

    /// The fan's name: `cpu`, `gpu` or `mid`.
    pub fn name(&self) -> (name: &'static str)
        ensures
            name@ == self.spec_name(),
    {
        match self {
            FanCurvePU::CPU => "cpu",
            FanCurvePU::GPU => "gpu",
            FanCurvePU::MID => "mid",
        }
    }

    /// The character that stands for the fan in attribute names.
    pub fn to_char(&self) -> (c: char)
        ensures
            c as u8 == self.spec_digit(),
    {
        match self {
            FanCurvePU::CPU => '1',
            FanCurvePU::GPU => '2',
            FanCurvePU::MID => '3',
        }
    }

    /// Reads a fan from a name that is in small letters and has no space
    /// around it.
    pub fn from_name(name: &str) -> (res: Result<FanCurvePU, ProfileError>)
        ensures
            res == spec_fan_from_name(name@),
    {
        if str_eq(name, "cpu") {
            Ok(FanCurvePU::CPU)
        } else if str_eq(name, "gpu") {
            Ok(FanCurvePU::GPU)
        } else if str_eq(name, "mid") {
            Ok(FanCurvePU::MID)
        } else {
            Err(ProfileError::ParseProfileName)
        }
    }

    /// Reads a fan from its name in any mix of cases, with or without space
    /// around it.
    pub fn from_str(fan: &str) -> (res: Result<FanCurvePU, ProfileError>)
        ensures
            res == spec_fan_from_name(spec_trim(spec_ascii_lower(fan@))),
    {
        let lower = to_ascii_lowercase(fan);
        let name = trim(lower.as_str());
        FanCurvePU::from_name(name)
    }
}

/// A fan's name leads back to the fan, also with capital letters in it;
/// white space has no part in a fan's name.
pub proof fn lemma_fan_names(fan: FanCurvePU)
    ensures
        spec_fan_from_name(fan.spec_name()) == Ok::<FanCurvePU, ProfileError>(fan),
        spec_trim(fan.spec_name()) == fan.spec_name(),
        spec_ascii_lower(fan.spec_name()) == fan.spec_name(),
        spec_fan_from_name(spec_trim(spec_ascii_lower(fan.spec_name()))) == Ok::<
            FanCurvePU,
            ProfileError,
        >(fan),
{
    reveal_strlit("cpu");
    reveal_strlit("gpu");
    reveal_strlit("mid");
    let name = fan.spec_name();
    assert(name.len() == 3);
    if name == "cpu"@ {
        assert(name[0] == 'c');
    }
    if name == "gpu"@ {
        assert(name[0] == 'g');
    }
    if name == "mid"@ {
        assert(name[0] == 'm');
    }
    assert(!spec_is_whitespace(name[0]) && !spec_is_whitespace(name[2]));
    assert(name.last() == name[2]);
    assert(spec_trim_start(name) == name);
    assert(spec_trim_end(name) == name);
    assert(spec_ascii_lower(name) =~= name);
}

} // verus!
