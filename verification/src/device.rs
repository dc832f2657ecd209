//! Discovery of connected decks, independent of the USB transport.

use vstd::prelude::*;

verus! {

/// Errors raised while discovering or talking to a deck.
#[derive(Debug)]
pub enum DeviceError {
    /// No supported device is currently connected.
    NotFound,
    /// The underlying USB/HID transport failed.
    Transport(String),
}

/// Static description of a connected, supported deck.
#[derive(Debug, Clone)]
pub struct DeviceInfo {
    /// Human-readable model name.
    pub model: String,
    /// USB vendor id.
    pub vid: u16,
    /// USB product id.
    pub pid: u16,
    /// Number of physical keys.
    pub keys: u8,
    /// Number of rotary encoders / knobs.
    pub encoders: u8,
    /// Whether the keys are individually addressable LCD screens.
    pub has_key_screens: bool,
}

/// Enumerate every connected, supported deck.
///
/// The transport is not wired in yet, so the list is always empty; the
/// `Result` keeps callers written against the final contract.
pub fn list_devices() -> (r: Result<Vec<DeviceInfo>, DeviceError>)
    ensures
        r matches Ok(v) && v@.len() == 0,
{
    Ok(Vec::new())
}

} // verus!
