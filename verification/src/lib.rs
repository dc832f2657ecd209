//! Verified core of a Linux driver application for Soomfon / Mirabox / Ajazz
//! stream decks: the device registry, the decoding of raw input reports, the
//! user configuration model, hotkey resolution, action planning, the session's
//! drawing and dispatch decisions, and key rendering.

use vstd::prelude::*;

pub mod action;
pub mod config;
pub mod device;
pub mod input;
pub mod keyboard;
pub mod kind;
pub mod render;
pub mod session;

pub use action::{Action, ActionError, ActionStep};
pub use config::{Button, Config, Page, Profile, CURRENT_VERSION};
pub use device::{list_devices, DeviceError, DeviceInfo};
pub use input::{process_input, DecodeError, DeviceInput, InputEvent};
pub use keyboard::{parse_combo, KeyboardError};
pub use kind::Kind;
pub use session::{button_paint, key_downs, page_paints, pressed_action, KeyPaint};

verus! {

/// Version of the application, surfaced in the UI.
pub const VERSION: &'static str = "0.1.0";

/// A snapshot of the application state, sent to the frontend.
#[derive(Debug, Clone)]
pub struct Status {
    /// Application version.
    pub version: String,
    /// Currently connected, supported decks.
    pub devices: Vec<DeviceSummary>,
}

/// A frontend-friendly summary of a connected deck.
#[derive(Debug, Clone)]
pub struct DeviceSummary {
    /// Human-readable model name.
    pub model: String,
    /// Number of physical keys.
    pub keys: u8,
}

/// Whether `summaries` lists, in order, the model and key count of each of
/// `infos`.
pub open spec fn summarizes(summaries: Seq<DeviceSummary>, infos: Seq<DeviceInfo>) -> bool {
    &&& summaries.len() == infos.len()
    &&& forall|i: int|
        0 <= i < infos.len() ==> #[trigger] summaries[i].model == infos[i].model
            && summaries[i].keys == infos[i].keys
}

/// The frontend summary of each deck, in order.
pub fn summarize_devices(infos: &[DeviceInfo]) -> (r: Vec<DeviceSummary>)
    ensures
        summarizes(r@, infos@),
{
    let mut out: Vec<DeviceSummary> = Vec::new();
    let mut i: usize = 0;
    while i < infos.len()
        invariant
            i <= infos@.len(),
            summarizes(out@, infos@.subrange(0, i as int)),
        decreases infos@.len() - i,
    {
        out.push(DeviceSummary { model: infos[i].model.clone(), keys: infos[i].keys });
        i = i + 1;
    }
    assert(infos@.subrange(0, infos@.len() as int) =~= infos@);
    out
}

/// Build a [`Status`] snapshot from the current hardware state. A failed
/// enumeration reports no devices.
pub fn status() -> (s: Status)
    ensures
        s.version@ == VERSION@,
        s.version@.len() > 0,
        s.devices@.len() == 0,
{
    let infos = match list_devices() {
        Ok(infos) => infos,
        Err(_) => Vec::new(),
    };
    let devices = summarize_devices(infos.as_slice());
    proof {
        reveal_strlit("0.1.0");
    }
    Status { version: VERSION.to_owned(), devices }
}

} // verus!
