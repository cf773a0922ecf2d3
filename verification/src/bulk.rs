//! Telemetry codec: the fixed binary record served by the bulk characteristic.

use vstd::prelude::*;

verus! {

/// Number of fields in one telemetry record.
pub const FIELD_COUNT: usize = 14;

/// Length in bytes of one telemetry record: fourteen 32-bit fields.
pub const RECORD_LEN: usize = 56;

/// One telemetry sample, field by field in wire order.
#[derive(Debug, Clone, Copy, PartialEq, Eq, Structural)]
pub struct PinecilBulkData {
    pub live_temp: u32,
    pub set_point: u32,
    pub voltage: u32,
    pub handle_temp: u32,
    pub power_level: u32,
    pub power_source: u32,
    pub tip_resistance: u32,
    pub uptime: u32,
    pub last_movement: u32,
    pub max_tip_temp: u32,
    pub tip_voltage: u32,
    pub hall_sensor: u32,
    pub operating_mode: u32,
    pub power: u32,
}

/// Why a byte buffer could not be decoded.
#[derive(Debug, Clone, Copy, PartialEq, Eq, Structural)]
pub enum DecodeError {
    /// The telemetry record does not have the fixed 14 x u32 layout.
    MalformedRecord,
    /// The device-ID value is not exactly four bytes long.
    MalformedIdentity,
    /// The firmware build string is not valid UTF-8.
    EncodingError,
}

/// The unsigned value of the four bytes of `bytes` that start at `at`, least
/// significant byte first.
pub open spec fn le_u32(bytes: Seq<u8>, at: int) -> u32 {
    (bytes[at] + bytes[at + 1] * 0x100 + bytes[at + 2] * 0x1_0000 + bytes[at + 3] * 0x100_0000) as u32
}

/// The sample that a 56-byte record stands for: fourteen consecutive
/// little-endian words in field order.
pub open spec fn record_of(bytes: Seq<u8>) -> PinecilBulkData {
    PinecilBulkData {
        live_temp: le_u32(bytes, 0),
        set_point: le_u32(bytes, 4),
        voltage: le_u32(bytes, 8),
        handle_temp: le_u32(bytes, 12),
        power_level: le_u32(bytes, 16),
        power_source: le_u32(bytes, 20),
        tip_resistance: le_u32(bytes, 24),
        uptime: le_u32(bytes, 28),
        last_movement: le_u32(bytes, 32),
        max_tip_temp: le_u32(bytes, 36),
        tip_voltage: le_u32(bytes, 40),
        hall_sensor: le_u32(bytes, 44),
        operating_mode: le_u32(bytes, 48),
        power: le_u32(bytes, 52),
    }
}

/// `bincode::ErrorKind`, the error of `bincode::deserialize`. Opaque here: it
/// is only handed on.
#[verifier::external_type_specification]
#[verifier::external_body]
pub struct ExBincodeErrorKind(bincode::ErrorKind);

/// `bincode::deserialize` at the type `[u32; 14]`. Trusted: with bincode's
/// default configuration (fixed-width integers, little-endian, trailing bytes
/// allowed, no size limit) the call reads fourteen consecutive 4-byte words
/// from the front of `bytes`, and fails exactly when fewer than 56 bytes are
/// there to read.
#[verifier::external_body]
fn deserialize_words(bytes: &[u8]) -> (r: Result<[u32; 14], Box<bincode::ErrorKind>>)
    ensures
        bytes@.len() < 56 ==> r is Err,
        bytes@.len() >= 56 ==> r is Ok,
        r matches Ok(words) ==> forall|i: int| 0 <= i < 14 ==> words@[i] == le_u32(bytes@, 4 * i),
{
    bincode::deserialize::<[u32; 14]>(bytes)
}

/// Decodes one telemetry record. A buffer of any length other than 56 is
/// rejected whole; a buffer of 56 bytes always decodes, to the sample whose
/// fields are its fourteen little-endian words in order.
pub fn decode(bytes: &[u8]) -> (r: Result<PinecilBulkData, DecodeError>)
    ensures
        bytes@.len() == 56 ==> r == Ok::<PinecilBulkData, DecodeError>(record_of(bytes@)),
        bytes@.len() != 56 ==> r == Err::<PinecilBulkData, DecodeError>(DecodeError::MalformedRecord),
{
    if bytes.len() != RECORD_LEN {
        return Err(DecodeError::MalformedRecord);
    }
    match deserialize_words(bytes) {
        Ok(words) => Ok(
            PinecilBulkData {
                live_temp: words[0],
                set_point: words[1],
                voltage: words[2],
                handle_temp: words[3],
                power_level: words[4],
                power_source: words[5],
                tip_resistance: words[6],
                uptime: words[7],
                last_movement: words[8],
                max_tip_temp: words[9],
                tip_voltage: words[10],
                hall_sensor: words[11],
                operating_mode: words[12],
                power: words[13],
            },
        ),
        Err(_) => Err(DecodeError::MalformedRecord),
    }
}

} // verus!
