//! Binary protocol decoder: turns one raw (code, state) HID input report
//! into a logical input event. Unknown or malformed reports degrade to a
//! no-op event, never to an error.

use vstd::prelude::*;
use crate::error::DeviceError;

verus! {

/// Number of logical keys a button-state report covers: the 15 display keys
/// plus the two top physical buttons.
pub const KEY_COUNT_N1: usize = 17;

/// Number of encoders tracked by press-toggle state.
pub const ENCODER_COUNT_N1: usize = 1;

/// Heartbeat sentinel code; together with `HEARTBEAT_STATE` it marks the
/// periodic non-input status frame.
pub const HEARTBEAT_CODE: u8 = 0xcc;
pub const HEARTBEAT_STATE: u8 = 0xff;

/// One decoded logical input event.
#[derive(Debug, Clone)]
pub enum DeviceInput {
    /// Nothing usable was decoded.
    NoData,
    /// Full per-key boolean vector; true = pressed.
    ButtonStateChange(Vec<bool>),
    /// Full per-encoder press-toggle vector.
    EncoderStateChange(Vec<bool>),
    /// Per-encoder twist deltas.
    EncoderTwist(Vec<i8>),
}

/// Persistent encoder press-toggle state, one boolean per encoder. Flipped
/// only when an encoder-press report arrives; persists across reports.
#[derive(Debug, Clone)]
pub struct EncoderStates {
    pub states: Vec<bool>,
}

impl EncoderStates {
    /// Well-formed toggle state covers exactly the tracked encoders.
    pub open spec fn wf(self) -> bool {
        self.states@.len() == ENCODER_COUNT_N1
    }

    /// Fresh toggle state: every encoder starts released.
    pub fn new() -> (r: EncoderStates)
        ensures
            r.wf(),
            forall|i: int| 0 <= i < r.states@.len() ==> !(#[trigger] r.states@[i]),
    {
        let mut states: Vec<bool> = Vec::new();
        states.push(false);
        EncoderStates { states }
    }
}

/// True for codes that address a key: the contiguous display-key range plus
/// the two reserved top-button codes.
pub open spec fn is_button_code(code: u8) -> bool {
    (1 <= code <= 0x0f) || code == 0x1e || code == 0x1f
}

/// The 1-based logical key index a button code addresses: display keys map
/// to their own value, the two top buttons to the two indices above them.
pub open spec fn button_logical_index(code: u8) -> int {
    if 1 <= code <= 0x0f {
        code as int
    } else if code == 0x1e {
        16
    } else {
        17
    }
}

/// The per-key vector a button report decodes to: every position false
/// except the one addressed by the code, which carries the report's state.
pub open spec fn button_vector(code: u8, state: u8) -> Seq<bool> {
    Seq::new(KEY_COUNT_N1 as nat, |i: int| i + 1 == button_logical_index(code) && state != 0)
}

/// True for the two encoder-twist codes.
pub open spec fn is_twist_code(code: u8) -> bool {
    code == 0x32 || code == 0x33
}

/// Twist delta for a twist code: one code turns left, the other right.
pub open spec fn twist_delta(code: u8) -> i8 {
    if code == 0x32 {
        -1i8
    } else {
        1i8
    }
}

/// The encoder-press code.
pub const ENCODER_PRESS_CODE: u8 = 0x23;

/// State byte that marks an encoder as pressed.
pub const ENCODER_PRESSED_STATE: u8 = 0x01;

/// Reads the per-key booleans out of a raw button-state buffer: byte 0 is a
/// report tag, bytes 1..=key_count carry one key each, non-zero = pressed.
pub fn read_button_states(states: &Vec<u8>, key_count: usize) -> (r: Vec<bool>)
    requires
        key_count + 1 <= states@.len(),
    ensures
        r@.len() == key_count,
        forall|i: int| 0 <= i < key_count ==> (#[trigger] r@[i]) == (states@[i + 1] != 0),
{
    let mut bools: Vec<bool> = Vec::new();
    for i in 0..key_count
        invariant
            key_count + 1 <= states@.len(),
            bools@.len() == i,
            forall|j: int| 0 <= j < i ==> (#[trigger] bools@[j]) == (states@[j + 1] != 0),
    {
        bools.push(states[i + 1] != 0);
    }
    bools
}

/// Decodes a button report: a full per-key vector with only the addressed
/// key carrying the report's state. Rejects codes outside the key ranges.
pub fn read_button_press_n1(input: u8, state: u8) -> (r: Result<DeviceInput, DeviceError>)
    ensures
        is_button_code(input) ==> (r matches Ok(DeviceInput::ButtonStateChange(v)) && v@
            == button_vector(input, state)),
        !is_button_code(input) ==> r matches Err(DeviceError::BadData),
{
    let mut button_states: Vec<u8> = Vec::new();
    button_states.push(0x01);
    let mut i: usize = 0;
    while i < KEY_COUNT_N1 + 1
        invariant
            i <= KEY_COUNT_N1 + 1,
            button_states@.len() == i + 1,
            button_states@[0] == 1u8,
            forall|j: int| 1 <= j <= i ==> (#[trigger] button_states@[j]) == 0u8,
        decreases KEY_COUNT_N1 + 1 - i,
    {
        button_states.push(0u8);
        i = i + 1;
    }

    let pressed_index: usize = match input {
        1..=0x0f => input as usize,
        0x1e => 16,
        0x1f => 17,
        _ => {
            return Err(DeviceError::BadData);
        },
    };

    button_states.set(pressed_index, state);
    assert(pressed_index as int == button_logical_index(input));

    let decoded = read_button_states(&button_states, KEY_COUNT_N1);
    assert(decoded@ =~= button_vector(input, state));
    Ok(DeviceInput::ButtonStateChange(decoded))
}

/// Decodes an encoder-twist report: delta -1 or +1 on encoder index 0.
/// Rejects codes that are not twist codes.
pub fn read_encoder_value_n1(input: u8) -> (r: Result<DeviceInput, DeviceError>)
    ensures
        is_twist_code(input) ==> (r matches Ok(DeviceInput::EncoderTwist(d)) && d@.len()
            == ENCODER_COUNT_N1 && d@[0] == twist_delta(input)),
        !is_twist_code(input) ==> r matches Err(DeviceError::BadData),
{
    let value: i8 = match input {
        0x32 => -1,
        0x33 => 1,
        _ => {
            return Err(DeviceError::BadData);
        },
    };

    let mut encoder_values: Vec<i8> = Vec::new();
    encoder_values.push(value);
    Ok(DeviceInput::EncoderTwist(encoder_values))
}

/// Decodes an encoder-press report: flips the persistent toggle for encoder
/// 0 to "pressed" exactly when the state byte is the pressed value, and
/// emits the full current toggle vector.
pub fn read_encoder_press_n1(enc: &mut EncoderStates, state: u8) -> (r: Result<
    DeviceInput,
    DeviceError,
>)
    requires
        old(enc).wf(),
    ensures
        final(enc).wf(),
        final(enc).states@ == old(enc).states@.update(0, state == ENCODER_PRESSED_STATE),
        r matches Ok(DeviceInput::EncoderStateChange(v)) && v@ == final(enc).states@,
{
    let pressed = state == ENCODER_PRESSED_STATE;
    enc.states.set(0, pressed);
    let snapshot = enc.states.clone();
    assert(snapshot@ =~= enc.states@);
    Ok(DeviceInput::EncoderStateChange(snapshot))
}

/// Decodes one raw (code, state) input report into a logical event, updating
/// the persistent encoder toggles when the report is an encoder press.
///
/// The heartbeat sentinel and every unknown report decode to a no-op: the
/// decoder never surfaces unknown input as an error.
pub fn process_input_n1(enc: &mut EncoderStates, input: u8, state: u8) -> (r: DeviceInput)
    requires
        old(enc).wf(),
    ensures
        final(enc).wf(),
        input == HEARTBEAT_CODE && state == HEARTBEAT_STATE ==> r is NoData && final(enc).states@
            == old(enc).states@,
        is_button_code(input) ==> (r matches DeviceInput::ButtonStateChange(v) && v@
            == button_vector(input, state)) && final(enc).states@ == old(enc).states@,
        is_twist_code(input) ==> (r matches DeviceInput::EncoderTwist(d) && d@.len()
            == ENCODER_COUNT_N1 && d@[0] == twist_delta(input)) && final(enc).states@ == old(
            enc,
        ).states@,
        input == ENCODER_PRESS_CODE ==> (r matches DeviceInput::EncoderStateChange(v) && v@
            == final(enc).states@) && final(enc).states@ == old(enc).states@.update(
            0,
            state == ENCODER_PRESSED_STATE,
        ),
        !(is_button_code(input) || is_twist_code(input) || input == ENCODER_PRESS_CODE) ==> r
            is NoData && final(enc).states@ == old(enc).states@,
{
    if input == HEARTBEAT_CODE && state == HEARTBEAT_STATE {
        return DeviceInput::NoData;
    }

    let decoded = match input {
        1..=0x0f | 0x1e | 0x1f => read_button_press_n1(input, state),
        0x32 | 0x33 => read_encoder_value_n1(input),
        0x23 => read_encoder_press_n1(enc, state),
        _ => Err(DeviceError::BadData),
    };

    match decoded {
        Ok(ev) => ev,
        Err(_) => DeviceInput::NoData,
    }
}

/// A decoded button vector has the report's full key count, is all-false
/// when the state byte is zero, and otherwise is true exactly at the one
/// position the code addresses.
pub proof fn lemma_button_vector_single(code: u8, state: u8)
    requires
        is_button_code(code),
    ensures
        button_vector(code, state).len() == KEY_COUNT_N1,
        1 <= button_logical_index(code) <= KEY_COUNT_N1,
        state == 0 ==> forall|i: int|
            0 <= i < KEY_COUNT_N1 ==> !(#[trigger] button_vector(code, state)[i]),
        state != 0 ==> button_vector(code, state)[button_logical_index(code) - 1],
        state != 0 ==> forall|i: int|
            0 <= i < KEY_COUNT_N1 && i != button_logical_index(code) - 1 ==> !(
            #[trigger] button_vector(code, state)[i]),
{
}

} // verus!
