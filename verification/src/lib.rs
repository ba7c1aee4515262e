//! Command/response protocol layer for talking to a hardware wallet.
//!
//! A logical command is framed into a binary command, handed to a transport,
//! and the raw reply is checked for its status word and decoded into a typed
//! record. Every step is a verified function with a contract over byte
//! sequences.

pub mod apdu;
pub mod app_info;
pub mod command;
pub mod device_info;
pub mod error;
pub mod exchange;
pub mod frame;
pub mod layout;
pub mod status;
pub mod text;
pub mod version;
