//! Decoding of the frames that the ECU sends on the CAN bus.
//!
//! The oil temperature frame carries, in bytes 6 and 7 and big-endian, the
//! temperature in tenths of a kelvin.

use vstd::prelude::*;

use crate::constants::canbus_config::{OIL_PRESSURE_CAN_ID, OIL_TEMP_CAN_ID, STANDARD_ID_MAX};

verus! {

/// A CAN frame identifier: standard (eleven bits) or extended (29 bits).
#[derive(Clone, Copy, Debug, PartialEq, Eq, Structural)]
pub enum CanId {
    Standard(u16),
    Extended(u32),
}

/// `embedded_can::StandardId::new`, read back with `StandardId::as_raw`: the
/// identifier is accepted exactly when it fits in eleven bits, and then keeps its value.
#[verifier::external_body]
fn standard_id_new(raw: u16) -> (res: Option<u16>)
    ensures
        res == (if raw <= 0x7FF { Some(raw) } else { None::<u16> }),
{
    match embedded_can::StandardId::new(raw) {
        Some(id) => Some(id.as_raw()),
        None => None,
    }
}

/// The standard identifier `raw`, if it fits in eleven bits.
pub fn standard_can_id(raw: u16) -> (res: Option<CanId>)
    ensures
        res == (if raw <= STANDARD_ID_MAX { Some(CanId::Standard(raw)) } else { None::<CanId> }),
{
    match standard_id_new(raw) {
        Some(checked) => Some(CanId::Standard(checked)),
        None => None,
    }
}

/// Identifier of the oil temperature frame.
pub fn oil_temp_can_id() -> (id: CanId)
    ensures
        id == CanId::Standard(OIL_TEMP_CAN_ID),
{
    standard_can_id(OIL_TEMP_CAN_ID).unwrap()
}

/// Identifier of the oil pressure frame.
pub fn oil_pressure_can_id() -> (id: CanId)
    ensures
        id == CanId::Standard(OIL_PRESSURE_CAN_ID),
{
    standard_can_id(OIL_PRESSURE_CAN_ID).unwrap()
}

/// The big-endian 16-bit number made of the bytes `hi` and `lo`.
pub open spec fn be_u16(hi: u8, lo: u8) -> nat {
    (hi as nat) * 256 + (lo as nat)
}

/// The raw temperature, in tenths of a kelvin, that bytes 6 and 7 of an oil
/// temperature frame carry.
pub open spec fn oil_temp_raw(data: Seq<u8>) -> nat
    recommends
        data.len() >= 8,
{
    be_u16(data[6], data[7])
}

/// Degrees Fahrenheit, in whole degrees, for a raw reading in tenths of a
/// kelvin: whole kelvin, then Celsius, then Fahrenheit, each step rounding down.
pub open spec fn fahrenheit_of_raw(raw: nat) -> int {
    ((raw / 10) - 273) * 9 / 5 + 32
}

/// Whether the frame `id`/`data` can be decoded without the Celsius step going
/// below zero: an oil temperature frame must not read below 273 K.
pub open spec fn frame_decodable(id: CanId, data: Seq<u8>) -> bool {
    id == CanId::Standard(OIL_TEMP_CAN_ID) && data.len() >= 8 ==> oil_temp_raw(data) >= 2730
}

/// The big-endian 16-bit number made of `hi` and `lo` (`u16::from_be_bytes`).
pub fn from_be_bytes(hi: u8, lo: u8) -> (res: u16)
    ensures
        res == be_u16(hi, lo),
{
    (hi as u16) * 256 + (lo as u16)
}

/// Converts a raw reading in tenths of a kelvin to whole degrees Fahrenheit.
pub fn raw_to_fahrenheit(raw_temp: u16) -> (fahrenheit: u16)
    requires
        raw_temp >= 2730,
    ensures
        fahrenheit == fahrenheit_of_raw(raw_temp as nat),
        5 * (fahrenheit - 32) <= 9 * (raw_temp / 10 - 273) < 5 * (fahrenheit - 32) + 5,
{
    let kelvin = raw_temp / 10;
    let celsius = kelvin - 273;
    (celsius * 9 / 5) + 32
}

/// What the reader does with a received frame or a failed receive.
#[derive(Clone, Copy, Debug, PartialEq, Eq, Structural)]
pub enum ReaderAction {
    /// Publish this oil temperature, in degrees Fahrenheit.
    StoreOilTemp(u16),
    /// Report an oil temperature frame too short to hold a reading.
    WarnInvalidOilTempFrame,
    /// Nothing to do for this frame.
    Ignore,
    /// No frame was waiting: let other tasks run.
    Yield,
    /// The controller reported an error: report it and let other tasks run.
    WarnReceiveErrorAndYield,
}

/// The result of one receive from the CAN controller.
pub enum ReceiveOutcome<'a> {
    /// A frame arrived.
    Frame { id: CanId, data: &'a [u8] },
    /// No frame was waiting.
    NoMessage,
    /// The controller reported another error.
    Failed,
}

/// The action for a received frame.
pub open spec fn frame_action(id: CanId, data: Seq<u8>) -> ReaderAction {
    if id == CanId::Standard(OIL_TEMP_CAN_ID) {
        if data.len() >= 8 {
            ReaderAction::StoreOilTemp(fahrenheit_of_raw(oil_temp_raw(data)) as u16)
        } else {
            ReaderAction::WarnInvalidOilTempFrame
        }
    } else {
        ReaderAction::Ignore
    }
}

/// Whether the outcome can be handled without the Celsius step going below zero.
pub open spec fn outcome_decodable(outcome: ReceiveOutcome<'_>) -> bool {
    match outcome {
        ReceiveOutcome::Frame { id, data } => frame_decodable(id, data@),
        _ => true,
    }
}

/// The action for the result of one receive.
pub open spec fn reader_action(outcome: ReceiveOutcome<'_>) -> ReaderAction {
    match outcome {
        ReceiveOutcome::Frame { id, data } => frame_action(id, data@),
        ReceiveOutcome::NoMessage => ReaderAction::Yield,
        ReceiveOutcome::Failed => ReaderAction::WarnReceiveErrorAndYield,
    }
}

/// Decodes the oil temperature, in degrees Fahrenheit, from the data of an oil
/// temperature frame; `None` when the frame is shorter than eight bytes.
pub fn decode_oil_temp(data: &[u8]) -> (res: Option<u16>)
    requires
        data@.len() >= 8 ==> oil_temp_raw(data@) >= 2730,
    ensures
        res == (if data@.len() >= 8 {
            Some(fahrenheit_of_raw(oil_temp_raw(data@)) as u16)
        } else {
            None::<u16>
        }),
        data@.len() < 8 ==> res is None,
        data@.len() >= 8 ==> (match res {
            Some(f) => {
                let celsius = ((data@[6] as int) * 256 + (data@[7] as int)) / 10 - 273;
                5 * (f - 32) <= 9 * celsius < 5 * (f - 32) + 5
            },
            None => false,
        }),
{
    if data.len() >= 8 {
        let raw_temp = from_be_bytes(data[6], data[7]);
        Some(raw_to_fahrenheit(raw_temp))
    } else {
        None
    }
}

/// Decides what to do with the frame `id`/`data`.
pub fn handle_frame(id: CanId, data: &[u8]) -> (action: ReaderAction)
    requires
        frame_decodable(id, data@),
    ensures
        action == frame_action(id, data@),
        id != CanId::Standard(0x3E0) ==> action == ReaderAction::Ignore,
        id == CanId::Standard(0x3E0) && data@.len() < 8 ==> action == ReaderAction::WarnInvalidOilTempFrame,
        id == CanId::Standard(0x3E0) && data@.len() >= 8 ==> (match action {
            ReaderAction::StoreOilTemp(f) => {
                let celsius = ((data@[6] as int) * 256 + (data@[7] as int)) / 10 - 273;
                5 * (f - 32) <= 9 * celsius < 5 * (f - 32) + 5
            },
            _ => false,
        }),
{
    proof {
        if id == CanId::Standard(0x3E0) && data@.len() >= 8 {
            lemma_fahrenheit_formula(oil_temp_raw(data@));
        }
    }
    if id == oil_temp_can_id() {
        match decode_oil_temp(data) {
            Some(fahrenheit) => ReaderAction::StoreOilTemp(fahrenheit),
            None => ReaderAction::WarnInvalidOilTempFrame,
        }
    } else if id == oil_pressure_can_id() {
        // The oil pressure frame is not decoded yet.
        ReaderAction::Ignore
    } else {
        ReaderAction::Ignore
    }
}

/// Whether `outcome` can be handled: an oil temperature frame of eight bytes
/// or more must not read below 273 K, where the Celsius step would go below zero.
pub fn outcome_is_decodable(outcome: &ReceiveOutcome<'_>) -> (res: bool)
    ensures
        res == outcome_decodable(*outcome),
        (match *outcome {
            ReceiveOutcome::Frame { id, data } =>
                if id == CanId::Standard(0x3E0) && data@.len() >= 8 {
                    res == ((data@[6] as int) * 256 + (data@[7] as int) >= 2730)
                } else {
                    res
                },
            _ => res,
        }),
{
    match outcome {
        ReceiveOutcome::Frame { id, data } => {
            if *id == oil_temp_can_id() && data.len() >= 8 {
                from_be_bytes(data[6], data[7]) >= 2730
            } else {
                true
            }
        },
        _ => true,
    }
}

/// Decides what the reader does after one receive from the CAN controller.
pub fn reader_step(outcome: &ReceiveOutcome<'_>) -> (action: ReaderAction)
    requires
        outcome_decodable(*outcome),
    ensures
        action == reader_action(*outcome),
        (match *outcome {
            ReceiveOutcome::Frame { id, data } => {
                &&& id != CanId::Standard(0x3E0) ==> action == ReaderAction::Ignore
                &&& id == CanId::Standard(0x3E0) && data@.len() < 8 ==> action
                    == ReaderAction::WarnInvalidOilTempFrame
                &&& id == CanId::Standard(0x3E0) && data@.len() >= 8 ==> (match action {
                    ReaderAction::StoreOilTemp(f) => {
                        let celsius = ((data@[6] as int) * 256 + (data@[7] as int)) / 10 - 273;
                        5 * (f - 32) <= 9 * celsius < 5 * (f - 32) + 5
                    },
                    _ => false,
                })
            },
            ReceiveOutcome::NoMessage => action == ReaderAction::Yield,
            ReceiveOutcome::Failed => action == ReaderAction::WarnReceiveErrorAndYield,
        }),
{
    match outcome {
        ReceiveOutcome::Frame { id, data } => handle_frame(*id, data),
        ReceiveOutcome::NoMessage => ReaderAction::Yield,
        ReceiveOutcome::Failed => ReaderAction::WarnReceiveErrorAndYield,
    }
}

/// The oil temperature published before any frame has arrived.
pub const INITIAL_OIL_TEMP_F: u16 = 0;

/// The published oil temperature after `action`, when it was `stored` before.
pub open spec fn stored_after_action(stored: u16, action: ReaderAction) -> u16 {
    match action {
        ReaderAction::StoreOilTemp(fahrenheit) => fahrenheit,
        _ => stored,
    }
}

/// The published oil temperature after `action`, when it was `stored` before:
/// the new reading for a store, the old value for every other action.
pub fn next_oil_temp(stored: u16, action: ReaderAction) -> (res: u16)
    ensures
        res == stored_after_action(stored, action),
        action matches ReaderAction::StoreOilTemp(f) ==> res == f,
        !(action is StoreOilTemp) ==> res == stored,
{
    match action {
        ReaderAction::StoreOilTemp(fahrenheit) => fahrenheit,
        _ => stored,
    }
}

/// The published oil temperature after the reader has handled `outcomes`, in
/// order, from the start.
pub open spec fn stored_after(outcomes: Seq<ReceiveOutcome<'_>>) -> u16
    decreases outcomes.len(),
{
    if outcomes.len() == 0 {
        INITIAL_OIL_TEMP_F
    } else {
        stored_after_action(stored_after(outcomes.drop_last()), reader_action(outcomes.last()))
    }
}

/// Whether `outcome` is an oil temperature frame that carries a reading.
pub open spec fn is_temp_reading(outcome: ReceiveOutcome<'_>) -> bool {
    match outcome {
        ReceiveOutcome::Frame { id, data } => id == CanId::Standard(OIL_TEMP_CAN_ID) && data@.len() >= 8,
        _ => false,
    }
}

/// The temperature, in degrees Fahrenheit, that a reading frame carries.
pub open spec fn reading_of(outcome: ReceiveOutcome<'_>) -> u16 {
    match outcome {
        ReceiveOutcome::Frame { data, .. } => fahrenheit_of_raw(oil_temp_raw(data@)) as u16,
        _ => INITIAL_OIL_TEMP_F,
    }
}

/// The published oil temperature is always that of the most recent oil
/// temperature frame that carried a reading, or the initial value while no such
/// frame has arrived.
pub proof fn lemma_stored_temp_is_latest_reading(outcomes: Seq<ReceiveOutcome<'_>>)
    ensures
        (forall|i: int| 0 <= i < outcomes.len() ==> !is_temp_reading(#[trigger] outcomes[i]))
            ==> stored_after(outcomes) == INITIAL_OIL_TEMP_F,
        forall|i: int|
            0 <= i < outcomes.len() && is_temp_reading(#[trigger] outcomes[i])
                && (forall|j: int| i < j < outcomes.len() ==> !is_temp_reading(#[trigger] outcomes[j]))
                ==> stored_after(outcomes) == reading_of(outcomes[i]),
    decreases outcomes.len(),
{
    if outcomes.len() > 0 {
        let prefix = outcomes.drop_last();
        lemma_stored_temp_is_latest_reading(prefix);
        let n = outcomes.len() - 1;
        assert forall|i: int| 0 <= i < prefix.len() implies prefix[i] == outcomes[i] by {}
        if (forall|i: int| 0 <= i < outcomes.len() ==> !is_temp_reading(#[trigger] outcomes[i])) {
            assert(!is_temp_reading(outcomes[n]));
            assert forall|i: int| 0 <= i < prefix.len() implies !is_temp_reading(#[trigger] prefix[i]) by {
                assert(prefix[i] == outcomes[i]);
            }
        }
        assert forall|i: int|
            0 <= i < outcomes.len() && is_temp_reading(#[trigger] outcomes[i])
                && (forall|j: int| i < j < outcomes.len() ==> !is_temp_reading(#[trigger] outcomes[j]))
            implies stored_after(outcomes) == reading_of(outcomes[i]) by {
            if i == n {
            } else {
                assert(!is_temp_reading(outcomes[n]));
                assert(prefix[i] == outcomes[i]);
                assert forall|j: int| i < j < prefix.len() implies !is_temp_reading(#[trigger] prefix[j]) by {
                    assert(prefix[j] == outcomes[j]);
                }
            }
        }
    }
}

/// Whether `outcome` is an oil temperature frame of eight bytes or more whose
/// reading is at least 273 K (2730 tenths of a kelvin).
pub open spec fn is_valid_temp_frame(outcome: ReceiveOutcome<'_>) -> bool {
    match outcome {
        ReceiveOutcome::Frame { id, data } =>
            id == CanId::Standard(OIL_TEMP_CAN_ID) && data@.len() >= 8 && oil_temp_raw(data@) >= 2730,
        _ => false,
    }
}

/// For every history the reader task can go through (every handled outcome is
/// decodable, as `reader_step` requires), the published oil temperature after
/// each step is the Fahrenheit value of the most recent valid oil temperature
/// frame, or the initial 0 while no such frame has arrived.
pub proof fn lemma_reader_publishes_latest_valid_reading(outcomes: Seq<ReceiveOutcome<'_>>)
    requires
        forall|i: int| 0 <= i < outcomes.len() ==> outcome_decodable(#[trigger] outcomes[i]),
    ensures
        (forall|i: int| 0 <= i < outcomes.len() ==> !is_valid_temp_frame(#[trigger] outcomes[i]))
            ==> stored_after(outcomes) == INITIAL_OIL_TEMP_F,
        forall|i: int|
            0 <= i < outcomes.len() && is_valid_temp_frame(#[trigger] outcomes[i])
                && (forall|j: int| i < j < outcomes.len() ==> !is_valid_temp_frame(#[trigger] outcomes[j]))
                ==> stored_after(outcomes) == reading_of(outcomes[i]),
{
    assert forall|i: int| 0 <= i < outcomes.len() implies
        is_temp_reading(#[trigger] outcomes[i]) == is_valid_temp_frame(outcomes[i]) by {
        assert(outcome_decodable(outcomes[i]));
    }
    lemma_stored_temp_is_latest_reading(outcomes);
}

/// The conversion is Fahrenheit = Celsius * 9 / 5 + 32 rounded down, with
/// Celsius = whole kelvin - 273: for every reading of at least 273 K, the result
/// `f` satisfies 5 (f - 32) <= 9 c < 5 (f - 32) + 5.
pub proof fn lemma_fahrenheit_formula(raw: nat)
    requires
        raw >= 2730,
    ensures
        5 * (fahrenheit_of_raw(raw) - 32) <= 9 * (raw / 10 - 273) < 5 * (fahrenheit_of_raw(raw) - 32) + 5,
{
}

/// Warmer oil never reads colder: the conversion is monotonic, and each whole
/// kelvin adds nine fifths of a degree Fahrenheit, up to rounding.
pub proof fn lemma_fahrenheit_monotonic(a: nat, b: nat)
    requires
        2730 <= a <= b,
    ensures
        fahrenheit_of_raw(a) <= fahrenheit_of_raw(b),
        5 * (fahrenheit_of_raw(b) - fahrenheit_of_raw(a)) <= 9 * (b / 10 - a / 10) + 4,
        9 * (b / 10 - a / 10) <= 5 * (fahrenheit_of_raw(b) - fahrenheit_of_raw(a)) + 4,
{
    lemma_fahrenheit_formula(a);
    lemma_fahrenheit_formula(b);
}

/// An outcome can be handled exactly unless it is an oil temperature frame of
/// eight bytes or more whose big-endian bytes 6 and 7 read below 2730; there is
/// no upper bound on the reading.
pub proof fn lemma_decodable_on_bytes(outcome: ReceiveOutcome<'_>)
    ensures
        outcome_decodable(outcome) <==> (match outcome {
            ReceiveOutcome::Frame { id, data } =>
                id == CanId::Standard(0x3E0) && data@.len() >= 8
                    ==> (data@[6] as int) * 256 + (data@[7] as int) >= 2730,
            _ => true,
        }),
{
}

/// A frame with any identifier other than the oil temperature one never
/// changes the published temperature.
pub proof fn lemma_other_frames_ignored(id: CanId, data: Seq<u8>)
    requires
        id != CanId::Standard(OIL_TEMP_CAN_ID),
    ensures
        frame_action(id, data) == ReaderAction::Ignore,
{
}

/// Every decodable oil temperature reading is published as a value that fits
/// the `u16` store, within the range the 16-bit raw field allows.
pub proof fn lemma_fahrenheit_range(raw: nat)
    requires
        2730 <= raw <= 0xFFFF,
    ensures
        32 <= fahrenheit_of_raw(raw) <= 11336,
{
}

} // verus!
