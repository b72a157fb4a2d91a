//! Error values of the library, one closed enum per component.

use vstd::prelude::*;

verus! {

/// What can go wrong with matrix display data.
#[derive(Debug, Clone, Copy, PartialEq, Eq, Structural)]
pub enum AnimeError {
    /// The byte count of a buffer does not match its device variant.
    DataBufferLength,
    /// The device variant has no layout for the requested operation.
    NotSupported,
}

impl AnimeError {
    /// A short description for messages.
    pub fn describe(&self) -> (s: &'static str)
        ensures
            s@ == match *self {
                AnimeError::DataBufferLength => "The data buffer was incorrect length for the device"@,
                AnimeError::NotSupported => "The device or feature is not supported"@,
            },
    {
        match self {
            AnimeError::DataBufferLength => "The data buffer was incorrect length for the device",
            AnimeError::NotSupported => "The device or feature is not supported",
        }
    }
}

/// What can go wrong when lighting parameters are read from text.
#[derive(Debug, Clone, Copy, PartialEq, Eq, Structural)]
pub enum AuraError {
    /// The text is not a colour of six hexadecimal digits.
    ParseColour,
    /// The text names no speed; also given for a text that names no zone.
    ParseSpeed,
    /// The text names no direction.
    ParseDirection,
}

/// What can go wrong with fan curves.
#[derive(Debug, Clone, Copy, PartialEq, Eq, Structural)]
pub enum ProfileError {
    /// The text names no fan.
    ParseProfileName,
    /// The platform has no fan curve device.
    NotSupported,
}

} // verus!
