//! Output formats and the encoding profile each one asks for.

use vstd::prelude::*;

verus! {

/// Audio container or codec of the written file.
#[derive(Clone, Copy, Debug, PartialEq, Eq, Structural)]
pub enum Format {
    ALAC,
    FLAC,
    M4A,
    MP3,
    WAV,
    WMA,
}

/// The encoding profile that the transcoder is configured with.
#[derive(Clone, Copy, Debug, PartialEq, Eq, Structural)]
pub enum ProfileKind {
    Alac,
    Flac,
    M4a,
    Mp3,
    Wma,
}

impl Format {
    /// The decision table from format to encoding profile. WAV is what the
    /// synthesizer emits, so it is the one format without a profile.
    pub open spec fn profile(self) -> Option<ProfileKind> {
        match self {
            Format::ALAC => Some(ProfileKind::Alac),
            Format::FLAC => Some(ProfileKind::Flac),
            Format::M4A => Some(ProfileKind::M4a),
            Format::MP3 => Some(ProfileKind::Mp3),
            Format::WAV => None,
            Format::WMA => Some(ProfileKind::Wma),
        }
    }
}

impl ProfileKind {
    /// The format that a profile of this kind encodes to.
    pub open spec fn format(self) -> Format {
        match self {
            ProfileKind::Alac => Format::ALAC,
            ProfileKind::Flac => Format::FLAC,
            ProfileKind::M4a => Format::M4A,
            ProfileKind::Mp3 => Format::MP3,
            ProfileKind::Wma => Format::WMA,
        }
    }
}

impl Default for Format {
    /// The format used when none is asked for.
    fn default() -> (r: Format)
        ensures
            r == Format::WAV,
    {
        Format::WAV
    }
}

/// Picks the encoding profile for `format`, or `None` where the synthesized
/// stream is written as it is.
pub fn choose_profile(format: &Format) -> (r: Option<ProfileKind>)
    ensures
        r == format.profile(),
        r is None <==> *format == Format::WAV,
        r matches Some(kind) ==> kind.format() == *format,
{
    match format {
        Format::ALAC => Some(ProfileKind::Alac),
        Format::FLAC => Some(ProfileKind::Flac),
        Format::M4A => Some(ProfileKind::M4a),
        Format::MP3 => Some(ProfileKind::Mp3),
        Format::WAV => None,
        Format::WMA => Some(ProfileKind::Wma),
    }
}

} // verus!
