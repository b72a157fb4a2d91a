//! Lighting parameters as text: the display names of the modes, and the
//! parsers for colours, speeds, directions and zones.

use vstd::prelude::*;
use vstd::string::StringSliceAdditionalSpecFns;

use crate::aura::{AuraEffect, AuraModeNum, AuraZone, Colour, Direction, Speed};
use crate::error::AuraError;
use crate::text::{spec_ascii_lower, spec_to_lowercase, str_eq, to_ascii_lowercase, to_lowercase};

verus! {

impl AuraModeNum {
    /// The mode's display name.
    pub open spec fn spec_name(self) -> Seq<char> {
        match self {
            AuraModeNum::Static => "Static"@,
            AuraModeNum::Breathe => "Breathe"@,
            AuraModeNum::Strobe => "Strobe"@,
            AuraModeNum::Rainbow => "Rainbow"@,
            AuraModeNum::Star => "Stars"@,
            AuraModeNum::Rain => "Rain"@,
            AuraModeNum::Highlight => "Highlight"@,
            AuraModeNum::Laser => "Laser"@,
            AuraModeNum::Ripple => "Ripple"@,
            AuraModeNum::Pulse => "Pulse"@,
            AuraModeNum::Comet => "Comet"@,
            AuraModeNum::Flash => "Flash"@,
        }
    }

    /// The mode with a display name; a text that is no display name means
    /// `Static`.
    pub open spec fn spec_from_name(name: Seq<char>) -> AuraModeNum {
        if name == "Breathe"@ {
            AuraModeNum::Breathe
        } else if name == "Strobe"@ {
            AuraModeNum::Strobe
        } else if name == "Rainbow"@ {
            AuraModeNum::Rainbow
        } else if name == "Stars"@ {
            AuraModeNum::Star
        } else if name == "Rain"@ {
            AuraModeNum::Rain
        } else if name == "Highlight"@ {
            AuraModeNum::Highlight
        } else if name == "Laser"@ {
            AuraModeNum::Laser
        } else if name == "Ripple"@ {
            AuraModeNum::Ripple
        } else if name == "Pulse"@ {
            AuraModeNum::Pulse
        } else if name == "Comet"@ {
            AuraModeNum::Comet
        } else if name == "Flash"@ {
            AuraModeNum::Flash
        } else {
            AuraModeNum::Static
        }
    }

    /// The mode that `name` is the display name of; nothing for a text that
    /// is no mode's display name.
    pub open spec fn spec_try_from_name(name: Seq<char>) -> Option<AuraModeNum> {
        if name == "Static"@ {
            Some(AuraModeNum::Static)
        } else if AuraModeNum::spec_from_name(name) != AuraModeNum::Static {
            Some(AuraModeNum::spec_from_name(name))
        } else {
            None
        }
    }

    /// The mode's display name.
    pub fn name(&self) -> (name: &'static str)
        ensures
            name@ == self.spec_name(),
    {
        match self {
            AuraModeNum::Static => "Static",
            AuraModeNum::Breathe => "Breathe",
            AuraModeNum::Strobe => "Strobe",
            AuraModeNum::Rainbow => "Rainbow",
            AuraModeNum::Star => "Stars",
            AuraModeNum::Rain => "Rain",
            AuraModeNum::Highlight => "Highlight",
            AuraModeNum::Laser => "Laser",
            AuraModeNum::Ripple => "Ripple",
            AuraModeNum::Pulse => "Pulse",
            AuraModeNum::Comet => "Comet",
            AuraModeNum::Flash => "Flash",
        }
    }

    /// The mode with this display name; `Static` for any other text.
    pub fn from_name(name: &str) -> (mode: Self)
        ensures
            mode == AuraModeNum::spec_from_name(name@),
    {
        if str_eq(name, "Breathe") {
            AuraModeNum::Breathe
        } else if str_eq(name, "Strobe") {
            AuraModeNum::Strobe
        } else if str_eq(name, "Rainbow") {
            AuraModeNum::Rainbow
        } else if str_eq(name, "Stars") {
            AuraModeNum::Star
        } else if str_eq(name, "Rain") {
            AuraModeNum::Rain
        } else if str_eq(name, "Highlight") {
            AuraModeNum::Highlight
        } else if str_eq(name, "Laser") {
            AuraModeNum::Laser
        } else if str_eq(name, "Ripple") {
            AuraModeNum::Ripple
        } else if str_eq(name, "Pulse") {
            AuraModeNum::Pulse
        } else if str_eq(name, "Comet") {
            AuraModeNum::Comet
        } else if str_eq(name, "Flash") {
            AuraModeNum::Flash
        } else {
            AuraModeNum::Static
        }
    }
}

impl AuraModeNum {
    /// The mode with this display name. A text that is no mode's display
    /// name is refused.
    pub fn try_from_name(name: &str) -> (mode: Option<Self>)
        ensures
            mode == AuraModeNum::spec_try_from_name(name@),
    {
        if str_eq(name, "Static") {
            return Some(AuraModeNum::Static);
        }
        match AuraModeNum::from_name(name) {
            AuraModeNum::Static => None,
            mode => Some(mode),
        }
    }
}

impl AuraEffect {
    /// The display name of the effect's mode.
    pub fn mode_name(&self) -> (name: &'static str)
        ensures
            name@ == self.mode.spec_name(),
    {
        self.mode.name()
    }
}

/// Modes and their display names correspond one to one: a mode's name leads
/// back to the mode, two modes with one name are one mode, and a text leads
/// to a mode exactly when it is that mode's name.
pub proof fn lemma_mode_names(mode: AuraModeNum, other: AuraModeNum, text: Seq<char>)
    ensures
        AuraModeNum::spec_from_name(mode.spec_name()) == mode,
        AuraModeNum::spec_try_from_name(mode.spec_name()) == Some(mode),
        mode.spec_name() == other.spec_name() ==> mode == other,
        AuraModeNum::spec_try_from_name(text) == Some(mode) <==> text == mode.spec_name(),
{
    reveal_strlit("Static");
    reveal_strlit("Breathe");
    reveal_strlit("Strobe");
    reveal_strlit("Rainbow");
    reveal_strlit("Stars");
    reveal_strlit("Rain");
    reveal_strlit("Highlight");
    reveal_strlit("Laser");
    reveal_strlit("Ripple");
    reveal_strlit("Pulse");
    reveal_strlit("Comet");
    reveal_strlit("Flash");
    let a = mode.spec_name();
    let b = other.spec_name();
    assert(a.len() >= 4 && b.len() >= 4);
    if a == b {
        assert(a.len() == b.len());
        assert(a[0] == b[0]);
        assert(a[1] == b[1]);
        assert(a[2] == b[2]);
        assert(a[3] == b[3]);
    }
    let back = AuraModeNum::spec_from_name(a);
    assert(back.spec_name() == a || back == AuraModeNum::Static);
    if back != mode {
        let c = back.spec_name();
        assert(c.len() >= 4);
        if c == a {
            assert(a[0] == c[0]);
            assert(a[1] == c[1]);
            assert(a[2] == c[2]);
            assert(a[3] == c[3]);
            assert(a.len() == c.len());
        }
    }
}

/// The speed that a text in small letters names.
pub open spec fn spec_speed_from_lower(lower: Seq<char>) -> Result<Speed, AuraError> {
    if lower == "low"@ {
        Ok(Speed::Low)
    } else if lower == "med"@ {
        Ok(Speed::Med)
    } else if lower == "high"@ {
        Ok(Speed::High)
    } else {
        Err(AuraError::ParseSpeed)
    }
}

/// The direction that a text in small letters names.
pub open spec fn spec_direction_from_lower(lower: Seq<char>) -> Result<Direction, AuraError> {
    if lower == "right"@ {
        Ok(Direction::Right)
    } else if lower == "up"@ {
        Ok(Direction::Up)
    } else if lower == "down"@ {
        Ok(Direction::Down)
    } else if lower == "left"@ {
        Ok(Direction::Left)
    } else {
        Err(AuraError::ParseDirection)
    }
}

/// The zone that a text in small letters names, by number or by word.
pub open spec fn spec_zone_from_lower(lower: Seq<char>) -> Result<AuraZone, AuraError> {
    if lower == "0"@ || lower == "none"@ {
        Ok(AuraZone::NoZone)
    } else if lower == "1"@ || lower == "one"@ {
        Ok(AuraZone::Key1)
    } else if lower == "2"@ || lower == "two"@ {
        Ok(AuraZone::Key2)
    } else if lower == "3"@ || lower == "three"@ {
        Ok(AuraZone::Key3)
    } else if lower == "4"@ || lower == "four"@ {
        Ok(AuraZone::Key4)
    } else if lower == "5"@ || lower == "logo"@ {
        Ok(AuraZone::Logo)
    } else if lower == "6"@ || lower == "lightbar-left"@ {
        Ok(AuraZone::BarLeft)
    } else if lower == "7"@ || lower == "lightbar-right"@ {
        Ok(AuraZone::BarRight)
    } else {
        Err(AuraError::ParseSpeed)
    }
}

impl Speed {
    /// Reads a speed from a text that is in small letters already.
    pub fn from_lowercase(lower: &str) -> (res: Result<Speed, AuraError>)
        ensures
            res == spec_speed_from_lower(lower@),
    {
        if str_eq(lower, "low") {
            Ok(Speed::Low)
        } else if str_eq(lower, "med") {
            Ok(Speed::Med)
        } else if str_eq(lower, "high") {
            Ok(Speed::High)
        } else {
            Err(AuraError::ParseSpeed)
        }
    }

    /// Reads a speed from `low`, `med` or `high` in any mix of cases.
    pub fn from_str(s: &str) -> (res: Result<Speed, AuraError>)
        ensures
            res == spec_speed_from_lower(spec_to_lowercase(s@)),
    {
        let lower = to_lowercase(s);
        Speed::from_lowercase(lower.as_str())
    }
}

impl Direction {
    /// Reads a direction from a text that is in small letters already.
    pub fn from_lowercase(lower: &str) -> (res: Result<Direction, AuraError>)
        ensures
            res == spec_direction_from_lower(lower@),
    {
        if str_eq(lower, "right") {
            Ok(Direction::Right)
        } else if str_eq(lower, "up") {
            Ok(Direction::Up)
        } else if str_eq(lower, "down") {
            Ok(Direction::Down)
        } else if str_eq(lower, "left") {
            Ok(Direction::Left)
        } else {
            Err(AuraError::ParseDirection)
        }
    }

    /// Reads a direction from `right`, `up`, `down` or `left` in any mix of
    /// cases.
    pub fn from_str(s: &str) -> (res: Result<Direction, AuraError>)
        ensures
            res == spec_direction_from_lower(spec_to_lowercase(s@)),
    {
        let lower = to_lowercase(s);
        Direction::from_lowercase(lower.as_str())
    }
}

impl AuraZone {
    /// Reads a zone from a text that is in small letters already.
    pub fn from_lowercase(lower: &str) -> (res: Result<AuraZone, AuraError>)
        ensures
            res == spec_zone_from_lower(lower@),
    {
        if str_eq(lower, "0") || str_eq(lower, "none") {
            Ok(AuraZone::NoZone)
        } else if str_eq(lower, "1") || str_eq(lower, "one") {
            Ok(AuraZone::Key1)
        } else if str_eq(lower, "2") || str_eq(lower, "two") {
            Ok(AuraZone::Key2)
        } else if str_eq(lower, "3") || str_eq(lower, "three") {
            Ok(AuraZone::Key3)
        } else if str_eq(lower, "4") || str_eq(lower, "four") {
            Ok(AuraZone::Key4)
        } else if str_eq(lower, "5") || str_eq(lower, "logo") {
            Ok(AuraZone::Logo)
        } else if str_eq(lower, "6") || str_eq(lower, "lightbar-left") {
            Ok(AuraZone::BarLeft)
        } else if str_eq(lower, "7") || str_eq(lower, "lightbar-right") {
            Ok(AuraZone::BarRight)
        } else {
            Err(AuraError::ParseSpeed)
        }
    }

    /// Reads a zone from its number or its word in any mix of cases. A text
    /// that names no zone gives the error of a bad speed.
    pub fn from_str(s: &str) -> (res: Result<AuraZone, AuraError>)
        ensures
            res == spec_zone_from_lower(spec_ascii_lower(spec_to_lowercase(s@))),
    {
        let lower = to_lowercase(s);
        let lower = to_ascii_lowercase(lower.as_str());
        AuraZone::from_lowercase(lower.as_str())
    }
}

/// The value of a hexadecimal digit given as a byte of text.
pub open spec fn spec_hex_digit(b: u8) -> Option<u8> {
    if 0x30 <= b <= 0x39 {
        Some((b - 0x30) as u8)
    } else if 0x61 <= b <= 0x66 {
        Some((b - 0x61 + 10) as u8)
    } else if 0x41 <= b <= 0x46 {
        Some((b - 0x41 + 10) as u8)
    } else {
        None
    }
}

/// The value of two bytes of text read as a hexadecimal number: two digits,
/// or a plus sign and one digit.
pub open spec fn spec_hex_pair(hi: u8, lo: u8) -> Option<u8> {
    if hi == 0x2b {
        spec_hex_digit(lo)
    } else {
        match (spec_hex_digit(hi), spec_hex_digit(lo)) {
            (Some(h), Some(l)) => Some((h * 16 + l) as u8),
            _ => None,
        }
    }
}

/// The colour that the first six bytes of a text give, two bytes each for
/// red, green and blue. What follows the sixth byte is not looked at.
pub open spec fn spec_parse_colour(text: Seq<u8>) -> Result<Colour, AuraError> {
    if text.len() < 6 {
        Err(AuraError::ParseColour)
    } else {
        match (
            spec_hex_pair(text[0], text[1]),
            spec_hex_pair(text[2], text[3]),
            spec_hex_pair(text[4], text[5]),
        ) {
            (Some(r), Some(g), Some(b)) => Ok(Colour { r, g, b }),
            _ => Err(AuraError::ParseColour),
        }
    }
}

fn hex_digit(b: u8) -> (value: Option<u8>)
    ensures
        value == spec_hex_digit(b),
        value matches Some(v) ==> v < 16,
{
    if 0x30 <= b && b <= 0x39 {
        Some(b - 0x30)
    } else if 0x61 <= b && b <= 0x66 {
        Some(b - 0x61 + 10)
    } else if 0x41 <= b && b <= 0x46 {
        Some(b - 0x41 + 10)
    } else {
        None
    }
}

fn hex_pair(hi: u8, lo: u8) -> (value: Option<u8>)
    ensures
        value == spec_hex_pair(hi, lo),
{
    if hi == 0x2b {
        return hex_digit(lo);
    }
    match (hex_digit(hi), hex_digit(lo)) {
        (Some(h), Some(l)) => Some(h * 16 + l),
        _ => None,
    }
}

impl Colour {
    /// Reads a colour from the bytes of a text such as `ff11dd`.
    pub fn from_bytes(text: &[u8]) -> (res: Result<Colour, AuraError>)
        ensures
            res == spec_parse_colour(text@),
    {
        if text.len() < 6 {
            return Err(AuraError::ParseColour);
        }
        let r = hex_pair(text[0], text[1]);
        let g = hex_pair(text[2], text[3]);
        let b = hex_pair(text[4], text[5]);
        match (r, g, b) {
            (Some(r), Some(g), Some(b)) => Ok(Colour { r, g, b }),
            _ => Err(AuraError::ParseColour),
        }
    }

    /// Reads a colour from a text such as `ff11dd`.
    pub fn from_str(s: &str) -> (res: Result<Colour, AuraError>)
        ensures
            res == spec_parse_colour(s.spec_bytes()),
    {
        Colour::from_bytes(s.as_bytes())
    }
}

} // verus!
