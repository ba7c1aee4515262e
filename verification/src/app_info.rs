//! The application info record.

use crate::error::DecodeError;
use crate::layout::{read_three_fields, spec_three_fields};
use crate::text::{ascii_chars, is_ascii_bytes, lemma_ascii_is_text, utf8_text};
use vstd::prelude::*;
use vstd::utf8::{decode_utf8, valid_utf8};

verus! {

/// The format identifier that opens every application info payload.
pub const APP_INFO_FORMAT: u8 = 1;

/// Fewest bytes an application info payload can have: the format
/// identifier and the length bytes of three empty fields.
pub const APP_INFO_MIN_LEN: usize = 4;

/// Bit of the flags byte that is set in recovery mode.
pub const FLAG_RECOVERY: u8 = 0x01;

/// Bit of the flags byte that is set when the MCU code is signed.
pub const FLAG_SIGNED_MCU_CODE: u8 = 0x02;

/// Bit of the flags byte that is set once the device is onboarded.
pub const FLAG_ONBOARDED: u8 = 0x04;

/// Bit of the flags byte that is set once the PIN has been validated.
pub const FLAG_PIN_VALIDATED: u8 = 0x80;

/// What the running application says about itself.
#[derive(Debug, PartialEq, Eq)]
pub struct AppInfo {
    /// Name of the application
    pub app_name: String,
    /// App version
    pub app_version: String,
    /// Flag length
    pub flag_len: u8,
    /// Flag value
    pub flags_value: u8,
    /// Flag Recovery
    pub flag_recovery: bool,
    /// Flag Signed MCU code
    pub flag_signed_mcu_code: bool,
    /// Flag Onboarded
    pub flag_onboarded: bool,
    /// Flag Pin Validated
    pub flag_pin_validated: bool,
}

/// An application info record as plain values.
pub struct AppInfoView {
    pub app_name: Seq<char>,
    pub app_version: Seq<char>,
    pub flag_len: u8,
    pub flags_value: u8,
    pub flag_recovery: bool,
    pub flag_signed_mcu_code: bool,
    pub flag_onboarded: bool,
    pub flag_pin_validated: bool,
}

impl View for AppInfo {
    type V = AppInfoView;

    open spec fn view(&self) -> AppInfoView {
        AppInfoView {
            app_name: self.app_name@,
            app_version: self.app_version@,
            flag_len: self.flag_len,
            flags_value: self.flags_value,
            flag_recovery: self.flag_recovery,
            flag_signed_mcu_code: self.flag_signed_mcu_code,
            flag_onboarded: self.flag_onboarded,
            flag_pin_validated: self.flag_pin_validated,
        }
    }
}

impl Clone for AppInfo {
    fn clone(&self) -> (copy: AppInfo)
        ensures
            copy@ == self@,
    {
        AppInfo {
            app_name: self.app_name.clone(),
            app_version: self.app_version.clone(),
            flag_len: self.flag_len,
            flags_value: self.flags_value,
            flag_recovery: self.flag_recovery,
            flag_signed_mcu_code: self.flag_signed_mcu_code,
            flag_onboarded: self.flag_onboarded,
            flag_pin_validated: self.flag_pin_validated,
        }
    }
}

/// The flags byte of a flags field: its first byte, or zero where the field
/// is empty.
pub open spec fn spec_flags_value(flags: Seq<u8>) -> u8 {
    if flags.len() > 0 {
        flags[0]
    } else {
        0
    }
}

/// Whether a flags byte has any bit of a mask set.
pub open spec fn spec_has_flag(flags_value: u8, mask: u8) -> bool {
    flags_value & mask != 0
}

/// Tests a flags byte against a mask.
pub fn has_flag(flags_value: u8, mask: u8) -> (set: bool)
    ensures
        set == spec_has_flag(flags_value, mask),
{
    flags_value & mask != 0
}

/// The record made of a name, a version and a flags field: the flags byte
/// is the first byte of the field, and each named flag is one bit of it.
pub open spec fn spec_record(name: Seq<char>, version: Seq<char>, flags: Seq<u8>) -> AppInfoView {
    AppInfoView {
        app_name: name,
        app_version: version,
        flag_len: flags.len() as u8,
        flags_value: spec_flags_value(flags),
        flag_recovery: spec_has_flag(spec_flags_value(flags), FLAG_RECOVERY),
        flag_signed_mcu_code: spec_has_flag(spec_flags_value(flags), FLAG_SIGNED_MCU_CODE),
        flag_onboarded: spec_has_flag(spec_flags_value(flags), FLAG_ONBOARDED),
        flag_pin_validated: spec_has_flag(spec_flags_value(flags), FLAG_PIN_VALIDATED),
    }
}

impl AppInfo {
    /// The record a payload spells. The payload opens with the format
    /// identifier, which must be 1, followed by three length-prefixed
    /// fields: the application name, its version and the flags. Name and
    /// version are UTF-8 text. The first byte of the flags field is the
    /// flags byte, from which the four named flags are read. Bytes after
    /// the third field are ignored.
    pub open spec fn spec_decode(payload: Seq<u8>) -> Result<AppInfoView, DecodeError> {
        if payload.len() < 1 || payload[0] != APP_INFO_FORMAT {
            Err(DecodeError::Malformed)
        } else {
            match spec_three_fields(payload, 1) {
                Some((name, version, flags)) => {
                    if valid_utf8(name) && valid_utf8(version) {
                        Ok(spec_record(decode_utf8(name), decode_utf8(version), flags))
                    } else {
                        Err(DecodeError::Malformed)
                    }
                },
                None => Err(DecodeError::Malformed),
            }
        }
    }

    /// Decodes the payload of an application info reply.
    pub fn decode(payload: &[u8]) -> (info: Result<AppInfo, DecodeError>)
        ensures
            match info {
                Ok(record) => AppInfo::spec_decode(payload@) == Ok::<AppInfoView, DecodeError>(
                    record@,
                ),
                Err(e) => AppInfo::spec_decode(payload@) == Err::<AppInfoView, DecodeError>(e),
            },
            payload@.len() < APP_INFO_MIN_LEN ==> info == Err::<AppInfo, DecodeError>(
                DecodeError::Malformed,
            ),
    {
        if payload.len() < 1 || payload[0] != APP_INFO_FORMAT {
            return Err(DecodeError::Malformed);
        }
        let (name_bytes, version_bytes, flags) = match read_three_fields(payload, 1) {
            Some(fields) => fields,
            None => { return Err(DecodeError::Malformed); },
        };
        let app_name = match utf8_text(name_bytes) {
            Some(text) => text,
            None => { return Err(DecodeError::Malformed); },
        };
        let app_version = match utf8_text(version_bytes) {
            Some(text) => text,
            None => { return Err(DecodeError::Malformed); },
        };
        let flag_len: u8 = flags.len() as u8;
        let flags_value: u8 = if flags.len() > 0 {
            flags[0]
        } else {
            0
        };
        Ok(
            AppInfo {
                app_name,
                app_version,
                flag_len,
                flags_value,
                flag_recovery: has_flag(flags_value, FLAG_RECOVERY),
                flag_signed_mcu_code: has_flag(flags_value, FLAG_SIGNED_MCU_CODE),
                flag_onboarded: has_flag(flags_value, FLAG_ONBOARDED),
                flag_pin_validated: has_flag(flags_value, FLAG_PIN_VALIDATED),
            },
        )
    }
}

/// A payload shorter than the format identifier and three length bytes
/// spells no application info record.
pub proof fn lemma_short_app_info_is_malformed(payload: Seq<u8>)
    requires
        payload.len() < APP_INFO_MIN_LEN,
    ensures
        AppInfo::spec_decode(payload) == Err::<AppInfoView, DecodeError>(DecodeError::Malformed),
{
}

/// A payload that opens with the format identifier and holds its three
/// fields spells a record whenever name and version are ASCII, and each
/// character of either is then one byte of its field.
pub proof fn lemma_ascii_app_info_decodes(payload: Seq<u8>)
    requires
        payload.len() >= 1,
        payload[0] == APP_INFO_FORMAT,
        spec_three_fields(payload, 1) matches Some((name, version, _)) && is_ascii_bytes(name)
            && is_ascii_bytes(version),
    ensures
        spec_three_fields(payload, 1) matches Some((name, version, flags)) && AppInfo::spec_decode(
            payload,
        ) == Ok::<AppInfoView, DecodeError>(
            spec_record(ascii_chars(name), ascii_chars(version), flags),
        ),
{
    let (name, version, _) = spec_three_fields(payload, 1).unwrap();
    lemma_ascii_is_text(name);
    lemma_ascii_is_text(version);
}

} // verus!
