//! The logical commands and the header bytes each one is sent with.

use vstd::prelude::*;

verus! {

/// Instruction code of the application version query.
pub const INS_GET_VERSION: u8 = 0x00;

/// Instruction class of the application info query.
pub const CLA_APP_INFO: u8 = 0xb0;

/// Instruction code of the application info query.
pub const INS_APP_INFO: u8 = 0x01;

/// Instruction class of the device info query.
pub const CLA_DEVICE_INFO: u8 = 0xe0;

/// Instruction code of the device info query.
pub const INS_DEVICE_INFO: u8 = 0x01;

/// A request that can be put to the device.
#[derive(Clone, Copy, Debug, PartialEq, Eq, Structural)]
pub enum Commands {
    /// Fetch device info
    DeviceInfo,
    /// Fetch application info
    AppInfo,
    /// Fetch application version
    AppVersion {
        /// Application APDU class
        cla: u8,
    },
}

impl Commands {
    /// The instruction class byte this command is framed with.
    pub open spec fn spec_class(self) -> u8 {
        match self {
            Commands::DeviceInfo => CLA_DEVICE_INFO,
            Commands::AppInfo => CLA_APP_INFO,
            Commands::AppVersion { cla } => cla,
        }
    }

    /// The instruction code byte this command is framed with.
    pub open spec fn spec_instruction(self) -> u8 {
        match self {
            Commands::DeviceInfo => INS_DEVICE_INFO,
            Commands::AppInfo => INS_APP_INFO,
            Commands::AppVersion { .. } => INS_GET_VERSION,
        }
    }

    /// The data bytes this command is framed with: none of the commands
    /// carries any.
    pub open spec fn spec_payload(self) -> Seq<u8> {
        Seq::empty()
    }

    /// Computes the instruction class byte.
    #[verifier::when_used_as_spec(spec_class)]
    pub fn class(self) -> (cla: u8)
        ensures
            cla == self.spec_class(),
    {
        match self {
            Commands::DeviceInfo => CLA_DEVICE_INFO,
            Commands::AppInfo => CLA_APP_INFO,
            Commands::AppVersion { cla } => cla,
        }
    }

    /// Computes the instruction code byte.
    #[verifier::when_used_as_spec(spec_instruction)]
    pub fn instruction(self) -> (ins: u8)
        ensures
            ins == self.spec_instruction(),
    {
        match self {
            Commands::DeviceInfo => INS_DEVICE_INFO,
            Commands::AppInfo => INS_APP_INFO,
            Commands::AppVersion { .. } => INS_GET_VERSION,
        }
    }

    /// Computes the data bytes, which are always empty.
    pub fn payload(self) -> (data: Vec<u8>)
        ensures
            data@ == self.spec_payload(),
    {
        Vec::new()
    }
}

} // verus!
