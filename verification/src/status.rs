//! The status word that ends every reply.

use vstd::prelude::*;

verus! {

/// The status word a device sends when a command succeeded.
pub const NO_ERROR: u16 = 0x9000;

/// A status word, kept by its numeric value so that codes without a known
/// name stay distinct from each other.
#[derive(Clone, Copy, Debug, PartialEq, Eq, Structural)]
pub struct StatusCode(pub u16);

/// The value of two bytes read as a big-endian word.
pub open spec fn be_word(hi: u8, lo: u8) -> u16 {
    (hi as int * 256 + lo as int) as u16
}

impl StatusCode {
    /// The status word made of two bytes, the high byte first.
    pub open spec fn spec_from_bytes(hi: u8, lo: u8) -> StatusCode {
        StatusCode(be_word(hi, lo))
    }

    /// Whether this is the one status word that reports success.
    pub open spec fn spec_is_success(self) -> bool {
        self.0 == NO_ERROR
    }

    /// The bytes this status word is sent as, the high byte first.
    pub open spec fn spec_to_bytes(self) -> Seq<u8> {
        seq![(self.0 / 256) as u8, (self.0 % 256) as u8]
    }

    /// Reads a status word from its two bytes.
    pub fn from_bytes(hi: u8, lo: u8) -> (status: StatusCode)
        ensures
            status == StatusCode::spec_from_bytes(hi, lo),
    {
        let hi_word: u16 = hi as u16;
        let lo_word: u16 = lo as u16;
        StatusCode(hi_word * 256 + lo_word)
    }

    /// Tells whether the device reported success.
    #[verifier::when_used_as_spec(spec_is_success)]
    pub fn is_success(self) -> (ok: bool)
        ensures
            ok == self.spec_is_success(),
    {
        self.0 == NO_ERROR
    }

    /// The numeric value of the status word.
    pub fn raw(self) -> (code: u16)
        ensures
            code == self.0,
    {
        self.0
    }
}

} // verus!
