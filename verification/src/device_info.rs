//! The device info record.

use crate::error::DecodeError;
use crate::layout::{copy_bytes, read_three_fields, spec_three_fields};
use crate::text::{ascii_chars, is_ascii_bytes, lemma_ascii_is_text, utf8_text};
use vstd::prelude::*;
use vstd::utf8::{decode_utf8, valid_utf8};

verus! {

/// Number of bytes of the target identifier that opens the payload.
pub const TARGET_ID_LEN: usize = 4;

/// Fewest bytes a device info payload can have: the target identifier and
/// the length bytes of three empty fields.
pub const DEVICE_INFO_MIN_LEN: usize = 7;

/// What a device says about itself.
#[derive(Debug, PartialEq, Eq)]
pub struct DeviceInfo {
    /// Target ID
    pub target_id: [u8; 4],
    /// Secure Element Version
    pub se_version: String,
    /// Device Flag
    pub flag: Vec<u8>,
    /// MCU Version
    pub mcu_version: String,
}

/// A device info record as plain values.
pub struct DeviceInfoView {
    pub target_id: Seq<u8>,
    pub se_version: Seq<char>,
    pub flag: Seq<u8>,
    pub mcu_version: Seq<char>,
}

impl View for DeviceInfo {
    type V = DeviceInfoView;

    open spec fn view(&self) -> DeviceInfoView {
        DeviceInfoView {
            target_id: self.target_id@,
            se_version: self.se_version@,
            flag: self.flag@,
            mcu_version: self.mcu_version@,
        }
    }
}

impl Clone for DeviceInfo {
    fn clone(&self) -> (copy: DeviceInfo)
        ensures
            copy@ == self@,
    {
        DeviceInfo {
            target_id: self.target_id,
            se_version: self.se_version.clone(),
            flag: copy_bytes(self.flag.as_slice()),
            mcu_version: self.mcu_version.clone(),
        }
    }
}

/// The bytes without their last one where that is a NUL, else unchanged.
pub open spec fn spec_strip_nul(bytes: Seq<u8>) -> Seq<u8> {
    if bytes.len() > 0 && bytes.last() == 0 {
        bytes.drop_last()
    } else {
        bytes
    }
}

/// Drops one trailing NUL byte, if there is one.
pub fn strip_nul(bytes: Vec<u8>) -> (stripped: Vec<u8>)
    ensures
        stripped@ == spec_strip_nul(bytes@),
{
    let mut bytes = bytes;
    let n: usize = bytes.len();
    if n > 0 && bytes[n - 1] == 0 {
        bytes.pop();
    }
    bytes
}

impl DeviceInfo {
    /// The record a payload spells. The payload opens with the four bytes
    /// of the target identifier, followed by three length-prefixed fields:
    /// the secure element version, the flags and the MCU version. Both
    /// versions are UTF-8 text, and one NUL that ends the MCU version is
    /// not part of it. Bytes after the third field are ignored.
    pub open spec fn spec_decode(payload: Seq<u8>) -> Result<DeviceInfoView, DecodeError> {
        match spec_three_fields(payload, TARGET_ID_LEN as int) {
            Some((se_version, flag, mcu_version)) => {
                if valid_utf8(se_version) && valid_utf8(spec_strip_nul(mcu_version)) {
                    Ok(
                        DeviceInfoView {
                            target_id: payload.subrange(0, TARGET_ID_LEN as int),
                            se_version: decode_utf8(se_version),
                            flag,
                            mcu_version: decode_utf8(spec_strip_nul(mcu_version)),
                        },
                    )
                } else {
                    Err(DecodeError::Malformed)
                }
            },
            None => Err(DecodeError::Malformed),
        }
    }

    /// Decodes the payload of a device info reply.
    pub fn decode(payload: &[u8]) -> (info: Result<DeviceInfo, DecodeError>)
        ensures
            match info {
                Ok(record) => DeviceInfo::spec_decode(payload@) == Ok::<
                    DeviceInfoView,
                    DecodeError,
                >(record@),
                Err(e) => DeviceInfo::spec_decode(payload@) == Err::<DeviceInfoView, DecodeError>(
                    e,
                ),
            },
            payload@.len() < DEVICE_INFO_MIN_LEN ==> info == Err::<DeviceInfo, DecodeError>(
                DecodeError::Malformed,
            ),
    {
        let (se_version_bytes, flag, mcu_version_bytes) = match read_three_fields(
            payload,
            TARGET_ID_LEN,
        ) {
            Some(fields) => fields,
            None => { return Err(DecodeError::Malformed); },
        };
        let se_version = match utf8_text(se_version_bytes) {
            Some(text) => text,
            None => { return Err(DecodeError::Malformed); },
        };
        let mcu_version = match utf8_text(strip_nul(mcu_version_bytes)) {
            Some(text) => text,
            None => { return Err(DecodeError::Malformed); },
        };
        let target_id: [u8; 4] = [payload[0], payload[1], payload[2], payload[3]];
        assert(target_id@ =~= payload@.subrange(0, TARGET_ID_LEN as int));
        Ok(DeviceInfo { target_id, se_version, flag, mcu_version })
    }
}

/// A payload shorter than the target identifier and three length bytes
/// spells no device info record.
pub proof fn lemma_short_device_info_is_malformed(payload: Seq<u8>)
    requires
        payload.len() < DEVICE_INFO_MIN_LEN,
    ensures
        DeviceInfo::spec_decode(payload) == Err::<DeviceInfoView, DecodeError>(
            DecodeError::Malformed,
        ),
{
}

/// A payload that holds its three fields spells a record whenever both
/// version fields are ASCII, and each character of a version is then one
/// byte of its field.
pub proof fn lemma_ascii_device_info_decodes(payload: Seq<u8>)
    requires
        spec_three_fields(payload, TARGET_ID_LEN as int) matches Some((se_version, _, mcu_version))
            && is_ascii_bytes(se_version) && is_ascii_bytes(spec_strip_nul(mcu_version)),
    ensures
        spec_three_fields(payload, TARGET_ID_LEN as int) matches Some(
            (se_version, flag, mcu_version),
        ) && DeviceInfo::spec_decode(payload) == Ok::<DeviceInfoView, DecodeError>(
            (DeviceInfoView {
                target_id: payload.subrange(0, TARGET_ID_LEN as int),
                se_version: ascii_chars(se_version),
                flag,
                mcu_version: ascii_chars(spec_strip_nul(mcu_version)),
            }),
        ),
{
    let (se_version, _, mcu_version) = spec_three_fields(payload, TARGET_ID_LEN as int).unwrap();
    lemma_ascii_is_text(se_version);
    lemma_ascii_is_text(spec_strip_nul(mcu_version));
}

} // verus!
