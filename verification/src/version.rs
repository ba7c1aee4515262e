//! The application version record.

use crate::error::DecodeError;
use vstd::prelude::*;

verus! {

/// Fewest bytes a version payload can have: one per component.
pub const VERSION_MIN_LEN: usize = 3;

/// Version of the application that answered.
#[derive(Clone, Copy, Debug, PartialEq, Eq)]
pub struct Version {
    /// Version Major
    pub major: u8,
    /// Version Minor
    pub minor: u8,
    /// Version Patch
    pub patch: u8,
    /// Flag byte, where the payload has one after the three components
    pub flag: Option<u8>,
}

impl Version {
    /// The version a payload spells: its first three bytes are major, minor
    /// and patch, a fourth byte is the flag, and anything after is ignored.
    /// A payload of fewer than three bytes spells none.
    pub open spec fn spec_decode(payload: Seq<u8>) -> Result<Version, DecodeError> {
        if payload.len() < VERSION_MIN_LEN {
            Err(DecodeError::Malformed)
        } else {
            Ok(
                Version {
                    major: payload[0],
                    minor: payload[1],
                    patch: payload[2],
                    flag: if payload.len() > VERSION_MIN_LEN {
                        Some(payload[3])
                    } else {
                        None
                    },
                },
            )
        }
    }

    /// Decodes the payload of a version reply.
    pub fn decode(payload: &[u8]) -> (version: Result<Version, DecodeError>)
        ensures
            version == Version::spec_decode(payload@),
            payload@.len() < VERSION_MIN_LEN ==> version == Err::<Version, DecodeError>(
                DecodeError::Malformed,
            ),
            payload@.len() >= VERSION_MIN_LEN ==> version is Ok,
    {
        if payload.len() < VERSION_MIN_LEN {
            return Err(DecodeError::Malformed);
        }
        let flag = if payload.len() > VERSION_MIN_LEN {
            Some(payload[3])
        } else {
            None
        };
        Ok(Version { major: payload[0], minor: payload[1], patch: payload[2], flag })
    }
}

/// A payload shorter than three bytes spells no version record.
pub proof fn lemma_short_version_is_malformed(payload: Seq<u8>)
    requires
        payload.len() < VERSION_MIN_LEN,
    ensures
        Version::spec_decode(payload) == Err::<Version, DecodeError>(DecodeError::Malformed),
{
}

} // verus!
