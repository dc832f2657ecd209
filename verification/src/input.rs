//! Decoding raw device reports into high-level input events.
//!
//! The raw byte values come straight from the OEM firmware and are shared
//! across the whole AKP03 / N3 / Soomfon family, so this logic is model
//! independent.

use vstd::prelude::*;

verus! {

/// Number of keys a button snapshot reports.
pub const KEYS_IN_SNAPSHOT: usize = 9;
/// Number of encoders a twist or press snapshot reports.
pub const ENCODERS_IN_SNAPSHOT: usize = 3;

/// A high-level input event from a deck, decoupled from the USB transport.
#[derive(Debug, Clone, Copy, PartialEq, Eq, Structural)]
pub enum InputEvent {
    /// A key was pressed down. The key is 0-based, row-major across the grid.
    KeyDown(u8),
    /// A key was released.
    KeyUp(u8),
    /// An encoder was pressed in.
    EncoderDown(u8),
    /// An encoder was released.
    EncoderUp(u8),
    /// An encoder was rotated by a signed number of steps (positive is
    /// clockwise).
    EncoderTwist(u8, i8),
}

/// One decoded report: a full snapshot of the keys, of the encoder presses,
/// or of the encoder rotations it describes.
#[derive(Debug, Clone, PartialEq, Eq)]
pub enum DeviceInput {
    /// Pressed state of every key.
    ButtonStateChange(Vec<bool>),
    /// Pressed state of every encoder.
    EncoderStateChange(Vec<bool>),
    /// Rotation step of every encoder.
    EncoderTwist(Vec<i8>),
}

/// A report that this device family never sends.
#[derive(Debug, Clone, Copy, PartialEq, Eq, Structural)]
pub enum DecodeError {
    /// The device sent unexpected data.
    BadData,
}

/// Whether `input` is a key report (the empty snapshot `0`, the six LCD keys
/// `1..=6`, or the three plain keys `0x25`, `0x30`, `0x31`).
pub open spec fn is_button_report(input: u8) -> bool {
    input == 0 || (1 <= input <= 6) || input == 0x25 || input == 0x30 || input == 0x31
}

/// Whether `input` is an encoder rotation report.
pub open spec fn is_twist_report(input: u8) -> bool {
    input == 0x90 || input == 0x91 || input == 0x50 || input == 0x51 || input == 0x60
        || input == 0x61
}

/// Whether `input` is an encoder press report.
pub open spec fn is_encoder_press_report(input: u8) -> bool {
    0x33 <= input <= 0x35
}

/// The 0-based key slot a key report names, if any: the LCD keys `1..=6`
/// are slots 0 to 5 and the plain keys `0x25`, `0x30`, `0x31` are slots 6,
/// 7 and 8.
pub open spec fn key_slot(input: u8) -> Option<int> {
    if 1 <= input <= 6 {
        Some(input - 1)
    } else if input == 0x25 {
        Some(6)
    } else if input == 0x30 {
        Some(7)
    } else if input == 0x31 {
        Some(8)
    } else {
        None
    }
}

/// The encoder and the step a rotation report names, if any.
pub open spec fn twist_step(input: u8) -> Option<(int, i8)> {
    if input == 0x90 {
        Some((0, -1i8))
    } else if input == 0x91 {
        Some((0, 1i8))
    } else if input == 0x50 {
        Some((1, -1i8))
    } else if input == 0x51 {
        Some((1, 1i8))
    } else if input == 0x60 {
        Some((2, -1i8))
    } else if input == 0x61 {
        Some((2, 1i8))
    } else {
        None
    }
}

/// The encoder a press report names, if any. The middle encoder reports as
/// `0x35` and the last as `0x34`.
pub open spec fn encoder_slot(input: u8) -> Option<int> {
    if input == 0x33 {
        Some(0)
    } else if input == 0x35 {
        Some(1)
    } else if input == 0x34 {
        Some(2)
    } else {
        None
    }
}

/// The key snapshot of a report: only the named key can be pressed, and it
/// is pressed iff `state` is non-zero.
pub open spec fn button_snapshot(input: u8, state: u8) -> Seq<bool> {
    Seq::new(KEYS_IN_SNAPSHOT as nat, |i: int| key_slot(input) == Some(i) && state != 0)
}

/// The rotation snapshot of a report: only the named encoder moves.
pub open spec fn twist_snapshot(input: u8) -> Seq<i8> {
    Seq::new(
        ENCODERS_IN_SNAPSHOT as nat,
        |i: int|
            match twist_step(input) {
                Some((e, d)) => if e == i {
                    d
                } else {
                    0i8
                },
                None => 0i8,
            },
    )
}

/// The encoder press snapshot of a report: only the named encoder can be
/// pressed, and it is pressed iff `state` is non-zero.
pub open spec fn encoder_press_snapshot(input: u8, state: u8) -> Seq<bool> {
    Seq::new(
        ENCODERS_IN_SNAPSHOT as nat,
        |i: int| encoder_slot(input) == Some(i) && state != 0,
    )
}

/// Decode a single raw `(input, state)` report.
///
/// The transport calls this for every report it reads and diffs the result
/// against the previous state to emit press / release / twist updates.
pub fn process_input(input: u8, state: u8) -> (r: Result<DeviceInput, DecodeError>)
    ensures
        is_button_report(input) ==> (r matches Ok(DeviceInput::ButtonStateChange(v)) && v@
            == button_snapshot(input, state)),
        is_twist_report(input) ==> (r matches Ok(DeviceInput::EncoderTwist(v)) && v@
            == twist_snapshot(input)),
        is_encoder_press_report(input) ==> (r matches Ok(DeviceInput::EncoderStateChange(v))
            && v@ == encoder_press_snapshot(input, state)),
        !is_button_report(input) && !is_twist_report(input) && !is_encoder_press_report(input)
            ==> r == Err::<DeviceInput, DecodeError>(DecodeError::BadData),
{
    if input == 0 || (1 <= input && input <= 6) || input == 0x25 || input == 0x30 || input
        == 0x31 {
        Ok(DeviceInput::ButtonStateChange(read_buttons(input, state)))
    } else if input == 0x90 || input == 0x91 || input == 0x50 || input == 0x51 || input == 0x60
        || input == 0x61 {
        Ok(DeviceInput::EncoderTwist(read_twist(input)))
    } else if 0x33 <= input && input <= 0x35 {
        Ok(DeviceInput::EncoderStateChange(read_encoder_press(input, state)))
    } else {
        Err(DecodeError::BadData)
    }
}

/// Build the full key pressed/released snapshot for a button report.
///
/// `input == 0` is the firmware's "nothing pressed" snapshot.
pub fn read_buttons(input: u8, state: u8) -> (keys: Vec<bool>)
    ensures
        keys@ == button_snapshot(input, state),
{
    let mut keys: Vec<bool> = Vec::new();
    let mut i: usize = 0;
    while i < KEYS_IN_SNAPSHOT
        invariant
            i <= KEYS_IN_SNAPSHOT,
            keys@.len() == i,
            forall|j: int| 0 <= j < i ==> #[trigger] keys@[j] == false,
        decreases KEYS_IN_SNAPSHOT - i,
    {
        keys.push(false);
        i = i + 1;
    }
    let pressed: Option<usize> = if 1 <= input && input <= 6 {
        Some(input as usize)
    } else if input == 0x25 {
        Some(7)
    } else if input == 0x30 {
        Some(8)
    } else if input == 0x31 {
        Some(9)
    } else {
        None
    };
    if let Some(one_based) = pressed {
        keys.set(one_based - 1, state != 0);
    }
    assert(keys@ =~= button_snapshot(input, state));
    keys
}

/// Decode a single-step encoder rotation into a per-encoder delta vector.
pub fn read_twist(input: u8) -> (values: Vec<i8>)
    ensures
        values@ == twist_snapshot(input),
{
    let mut values: Vec<i8> = Vec::new();
    let mut i: usize = 0;
    while i < ENCODERS_IN_SNAPSHOT
        invariant
            i <= ENCODERS_IN_SNAPSHOT,
            values@.len() == i,
            forall|j: int| 0 <= j < i ==> #[trigger] values@[j] == 0i8,
        decreases ENCODERS_IN_SNAPSHOT - i,
    {
        values.push(0i8);
        i = i + 1;
    }
    let step: Option<(usize, i8)> = if input == 0x90 {
        Some((0, -1))
    } else if input == 0x91 {
        Some((0, 1))
    } else if input == 0x50 {
        Some((1, -1))
    } else if input == 0x51 {
        Some((1, 1))
    } else if input == 0x60 {
        Some((2, -1))
    } else if input == 0x61 {
        Some((2, 1))
    } else {
        None
    };
    if let Some((encoder, delta)) = step {
        values.set(encoder, delta);
    }
    assert(values@ =~= twist_snapshot(input));
    values
}

/// Decode an encoder push/release into a per-encoder pressed-state vector.
pub fn read_encoder_press(input: u8, state: u8) -> (states: Vec<bool>)
    ensures
        states@ == encoder_press_snapshot(input, state),
{
    let mut states: Vec<bool> = Vec::new();
    let mut i: usize = 0;
    while i < ENCODERS_IN_SNAPSHOT
        invariant
            i <= ENCODERS_IN_SNAPSHOT,
            states@.len() == i,
            forall|j: int| 0 <= j < i ==> #[trigger] states@[j] == false,
        decreases ENCODERS_IN_SNAPSHOT - i,
    {
        states.push(false);
        i = i + 1;
    }
    let encoder: Option<usize> = if input == 0x33 {
        Some(0)
    } else if input == 0x35 {
        Some(1)
    } else if input == 0x34 {
        Some(2)
    } else {
        None
    };
    if let Some(e) = encoder {
        states.set(e, state != 0);
    }
    assert(states@ =~= encoder_press_snapshot(input, state));
    states
}

/// A key report marks at most one key as pressed, and the empty report
/// `0` marks none.
pub proof fn law_button_snapshot_at_most_one(input: u8, state: u8, i: int, j: int)
    requires
        0 <= i < KEYS_IN_SNAPSHOT,
        0 <= j < KEYS_IN_SNAPSHOT,
        button_snapshot(input, state)[i],
        button_snapshot(input, state)[j],
    ensures
        i == j,
        input != 0,
{
}

/// A rotation report moves exactly one encoder by exactly one step.
pub proof fn law_twist_moves_one_encoder(input: u8)
    requires
        is_twist_report(input),
    ensures
        exists|e: int|
            0 <= e < ENCODERS_IN_SNAPSHOT && (#[trigger] twist_snapshot(input)[e] == 1i8
                || twist_snapshot(input)[e] == -1i8) && forall|k: int|
                0 <= k < ENCODERS_IN_SNAPSHOT && k != e ==> #[trigger] twist_snapshot(input)[k]
                    == 0i8,
{
    let (e, d) = twist_step(input).unwrap();
    assert(twist_snapshot(input)[e] == d);
}

/// Key reports name keys row-major: report `n` in `1..=6` presses LCD key
/// `n - 1`, and the plain-key reports `0x25`, `0x30`, `0x31` press keys 6, 7
/// and 8; a pressed report marks that key and no other, and a release (state
/// 0) marks none.
pub proof fn law_key_reports_are_row_major(n: u8, state: u8, i: int)
    requires
        0 <= i < KEYS_IN_SNAPSHOT,
    ensures
        1 <= n <= 6 ==> button_snapshot(n, state)[i] == (state != 0 && i == n - 1),
        n == 0x25 ==> button_snapshot(n, state)[i] == (state != 0 && i == 6),
        n == 0x30 ==> button_snapshot(n, state)[i] == (state != 0 && i == 7),
        n == 0x31 ==> button_snapshot(n, state)[i] == (state != 0 && i == 8),
        n == 0 ==> !button_snapshot(n, state)[i],
        button_snapshot(n, state).len() == 9,
{
}

/// Encoder reports: `0x90`/`0x91` turn the first encoder down/up by one
/// step, `0x50`/`0x51` the second and `0x60`/`0x61` the third; presses
/// `0x33`, `0x35`, `0x34` are the first, second and third encoder.
pub proof fn law_encoder_reports(n: u8, state: u8, i: int)
    requires
        0 <= i < ENCODERS_IN_SNAPSHOT,
    ensures
        n == 0x90 ==> twist_snapshot(n)[i] == (if i == 0 { -1i8 } else { 0i8 }),
        n == 0x91 ==> twist_snapshot(n)[i] == (if i == 0 { 1i8 } else { 0i8 }),
        n == 0x50 ==> twist_snapshot(n)[i] == (if i == 1 { -1i8 } else { 0i8 }),
        n == 0x51 ==> twist_snapshot(n)[i] == (if i == 1 { 1i8 } else { 0i8 }),
        n == 0x60 ==> twist_snapshot(n)[i] == (if i == 2 { -1i8 } else { 0i8 }),
        n == 0x61 ==> twist_snapshot(n)[i] == (if i == 2 { 1i8 } else { 0i8 }),
        n == 0x33 ==> encoder_press_snapshot(n, state)[i] == (state != 0 && i == 0),
        n == 0x35 ==> encoder_press_snapshot(n, state)[i] == (state != 0 && i == 1),
        n == 0x34 ==> encoder_press_snapshot(n, state)[i] == (state != 0 && i == 2),
        twist_snapshot(n).len() == 3,
        encoder_press_snapshot(n, state).len() == 3,
{
}

} // verus!
