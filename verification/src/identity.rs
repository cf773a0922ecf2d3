//! Device identity: the firmware build string and the device ID, read once
//! per connection and used to tag outgoing messages.

use crate::bulk::{le_u32, DecodeError};
use vstd::arithmetic::div_mod::lemma_fundamental_div_mod_converse;
use vstd::prelude::*;
use vstd::slice::slice_to_vec;
use vstd::string::StringExecFns;
use vstd::utf8::{decode_utf8, valid_utf8};

verus! {

/// Length in bytes of the device-ID value.
pub const DEVICE_ID_LEN: usize = 4;

/// The upper-case hexadecimal digit for a value below sixteen.
pub open spec fn hex_digit(n: int) -> char {
    if n < 10 {
        (n + 48) as char
    } else {
        (n + 55) as char
    }
}

/// The value of an upper-case hexadecimal digit.
pub open spec fn hex_digit_value(c: char) -> int {
    if c as int <= 57 {
        c as int - 48
    } else {
        c as int - 55
    }
}

/// Whether a character is one of `0`-`9`, `A`-`F`.
pub open spec fn is_upper_hex(c: char) -> bool {
    48 <= c as int <= 57 || 65 <= c as int <= 70
}

/// The device-ID string of a 32-bit value: eight upper-case hexadecimal
/// digits, most significant first, padded with zeros on the left.
pub open spec fn device_id_text(v: u32) -> Seq<char> {
    seq![
        hex_digit(v as int / 0x1000_0000 % 16),
        hex_digit(v as int / 0x100_0000 % 16),
        hex_digit(v as int / 0x10_0000 % 16),
        hex_digit(v as int / 0x1_0000 % 16),
        hex_digit(v as int / 0x1000 % 16),
        hex_digit(v as int / 0x100 % 16),
        hex_digit(v as int / 0x10 % 16),
        hex_digit(v as int % 16),
    ]
}

/// The number that a string of hexadecimal digits denotes.
pub open spec fn hex_value(text: Seq<char>) -> int
    decreases text.len(),
{
    if text.len() == 0 {
        0
    } else {
        hex_value(text.drop_last()) * 16 + hex_digit_value(text.last())
    }
}

/// The four bytes of a 32-bit value, least significant first.
pub open spec fn le_bytes(v: u32) -> Seq<u8> {
    seq![
        (v as int % 0x100) as u8,
        (v as int / 0x100 % 0x100) as u8,
        (v as int / 0x1_0000 % 0x100) as u8,
        (v as int / 0x100_0000 % 0x100) as u8,
    ]
}

/// The identity strings that the two characteristic values stand for, or the
/// reason why they stand for none. The build string is examined first.
pub open spec fn identity_of(build: Seq<u8>, device_id: Seq<u8>) -> Result<
    (Seq<char>, Seq<char>),
    DecodeError,
> {
    if !valid_utf8(build) {
        Err(DecodeError::EncodingError)
    } else if device_id.len() != 4 {
        Err(DecodeError::MalformedIdentity)
    } else {
        Ok((decode_utf8(build), device_id_text(le_u32(device_id, 0))))
    }
}

/// `std::string::FromUtf8Error`, the error of `String::from_utf8`. Opaque
/// here: it is only handed on.
#[verifier::external_type_specification]
#[verifier::external_body]
pub struct ExFromUtf8Error(std::string::FromUtf8Error);

/// `String::from_utf8`. Trusted: the call succeeds exactly on well-formed
/// UTF-8, and the string it returns is the text that the bytes encode.
#[verifier::external_body]
fn string_from_utf8(bytes: Vec<u8>) -> (r: Result<String, std::string::FromUtf8Error>)
    ensures
        r is Ok <==> valid_utf8(bytes@),
        r matches Ok(text) ==> text@ == decode_utf8(bytes@),
{
    String::from_utf8(bytes)
}

fn hex_digit_str(n: u32) -> (s: &'static str)
    requires
        n < 16,
    ensures
        s@ == seq![hex_digit(n as int)],
{
    proof {
        reveal_strlit("0");
        reveal_strlit("1");
        reveal_strlit("2");
        reveal_strlit("3");
        reveal_strlit("4");
        reveal_strlit("5");
        reveal_strlit("6");
        reveal_strlit("7");
        reveal_strlit("8");
        reveal_strlit("9");
        reveal_strlit("A");
        reveal_strlit("B");
        reveal_strlit("C");
        reveal_strlit("D");
        reveal_strlit("E");
        reveal_strlit("F");
    }
    let s = match n {
        0 => "0",
        1 => "1",
        2 => "2",
        3 => "3",
        4 => "4",
        5 => "5",
        6 => "6",
        7 => "7",
        8 => "8",
        9 => "9",
        10 => "A",
        11 => "B",
        12 => "C",
        13 => "D",
        14 => "E",
        _ => "F",
    };
    assert(s@ =~= seq![hex_digit(n as int)]);
    s
}

/// Renders a 32-bit value as its device-ID string.
pub fn render_device_id(v: u32) -> (text: String)
    ensures
        text@ == device_id_text(v),
{
    let mut text = String::new();
    text.append(hex_digit_str(v / 0x1000_0000 % 16));
    text.append(hex_digit_str(v / 0x100_0000 % 16));
    text.append(hex_digit_str(v / 0x10_0000 % 16));
    text.append(hex_digit_str(v / 0x1_0000 % 16));
    text.append(hex_digit_str(v / 0x1000 % 16));
    text.append(hex_digit_str(v / 0x100 % 16));
    text.append(hex_digit_str(v / 0x10 % 16));
    text.append(hex_digit_str(v % 16));
    assert(text@ =~= device_id_text(v));
    text
}

/// Reads four bytes as a little-endian 32-bit value.
pub fn read_le_u32(bytes: &[u8]) -> (v: u32)
    requires
        bytes@.len() == 4,
    ensures
        v == le_u32(bytes@, 0),
{
    let b0: u32 = bytes[0] as u32;
    let b1: u32 = bytes[1] as u32;
    let b2: u32 = bytes[2] as u32;
    let b3: u32 = bytes[3] as u32;
    b0 + b1 * 0x100 + b2 * 0x1_0000 + b3 * 0x100_0000
}

/// Decodes the two identity values of a device. The build string must be
/// valid UTF-8, else `EncodingError`; the device ID must be exactly four
/// bytes, else `MalformedIdentity`, and is rendered as the eight upper-case
/// hexadecimal digits of the little-endian value it encodes.
pub fn decode_identity(build: &[u8], device_id: &[u8]) -> (r: Result<(String, String), DecodeError>)
    ensures
        match r {
            Ok((build_text, id_text)) => identity_of(build@, device_id@) == Ok::<
                (Seq<char>, Seq<char>),
                DecodeError,
            >((build_text@, id_text@)),
            Err(e) => identity_of(build@, device_id@) == Err::<(Seq<char>, Seq<char>), DecodeError>(e),
        },
{
    let build_text = match string_from_utf8(slice_to_vec(build)) {
        Ok(text) => text,
        Err(_) => {
            return Err(DecodeError::EncodingError);
        },
    };
    if device_id.len() != DEVICE_ID_LEN {
        return Err(DecodeError::MalformedIdentity);
    }
    let id_text = render_device_id(read_le_u32(device_id));
    Ok((build_text, id_text))
}

/// Every character of a device-ID string is an upper-case hexadecimal digit,
/// and there are exactly eight of them.
pub proof fn lemma_device_id_text_shape(v: u32)
    ensures
        device_id_text(v).len() == 8,
        forall|i: int| 0 <= i < 8 ==> is_upper_hex(#[trigger] device_id_text(v)[i]),
{
}

/// Reading a device-ID string as a hexadecimal number gives back the value
/// that was rendered.
pub proof fn lemma_hex_value_of_device_id_text(v: u32)
    ensures
        hex_value(device_id_text(v)) == v,
{
    let t = device_id_text(v);
    let t7 = t.drop_last();
    let t6 = t7.drop_last();
    let t5 = t6.drop_last();
    let t4 = t5.drop_last();
    let t3 = t4.drop_last();
    let t2 = t3.drop_last();
    let t1 = t2.drop_last();
    let t0 = t1.drop_last();
    assert(t0.len() == 0);
    assert(hex_value(t0) == 0);
    assert(hex_value(t1) == v as int / 0x1000_0000 % 16);
    assert(hex_value(t2) == v as int / 0x100_0000);
    assert(hex_value(t3) == v as int / 0x10_0000);
    assert(hex_value(t4) == v as int / 0x1_0000);
    assert(hex_value(t5) == v as int / 0x1000);
    assert(hex_value(t6) == v as int / 0x100);
    assert(hex_value(t7) == v as int / 0x10);
}

/// Writing out the little-endian value of four bytes gives back those bytes.
pub proof fn lemma_le_bytes_of_le_u32(bytes: Seq<u8>)
    requires
        bytes.len() == 4,
    ensures
        le_bytes(le_u32(bytes, 0)) == bytes,
{
    let b0 = bytes[0] as int;
    let b1 = bytes[1] as int;
    let b2 = bytes[2] as int;
    let b3 = bytes[3] as int;
    let v = b0 + b1 * 0x100 + b2 * 0x1_0000 + b3 * 0x100_0000;
    assert(le_u32(bytes, 0) as int == v);
    lemma_fundamental_div_mod_converse(v, 0x100, b1 + b2 * 0x100 + b3 * 0x1_0000, b0);
    lemma_fundamental_div_mod_converse(v / 0x100, 0x100, b2 + b3 * 0x100, b1);
    lemma_fundamental_div_mod_converse(v, 0x1_0000, b2 + b3 * 0x100, b0 + b1 * 0x100);
    lemma_fundamental_div_mod_converse(v / 0x1_0000, 0x100, b3, b2);
    lemma_fundamental_div_mod_converse(v, 0x100_0000, b3, b0 + b1 * 0x100 + b2 * 0x1_0000);
    lemma_fundamental_div_mod_converse(v / 0x100_0000, 0x100, 0, b3);
    assert(le_bytes(le_u32(bytes, 0)) =~= bytes);
}

/// The device-ID string round-trips: for any four device-ID bytes, the
/// rendered string has eight upper-case hexadecimal digits, and parsing it
/// back to a 32-bit value and writing that value out little-endian
/// reproduces the four bytes.
pub proof fn lemma_device_id_round_trip(device_id: Seq<u8>)
    requires
        device_id.len() == 4,
    ensures
        ({
            let text = device_id_text(le_u32(device_id, 0));
            &&& text.len() == 8
            &&& forall|i: int| 0 <= i < 8 ==> is_upper_hex(#[trigger] text[i])
            &&& 0 <= hex_value(text) <= u32::MAX
            &&& le_bytes(hex_value(text) as u32) == device_id
        }),
{
    let v = le_u32(device_id, 0);
    lemma_device_id_text_shape(v);
    lemma_hex_value_of_device_id_text(v);
    lemma_le_bytes_of_le_u32(device_id);
}

} // verus!
