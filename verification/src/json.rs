//! The JSON this crate takes from `serde_json`, and what `serde_json`'s
//! compact writer makes of it.
use vstd::prelude::*;
use vstd::utf8::encode_utf8;
use crate::decimal::decimal;

verus! {

/// A lowercase hexadecimal digit.
pub open spec fn hex_digit(d: int) -> u8 {
    if d < 10 {
        (48 + d) as u8
    } else {
        (87 + d) as u8
    }
}

/// How `serde_json` writes one byte of a string's UTF-8 encoding: `"` and
/// `\` and the control bytes are escaped (the short forms `\b \t \n \f \r`
/// where there is one, `\u00xx` otherwise); every other byte as it is.
pub open spec fn escape_byte(b: u8) -> Seq<u8> {
    if b == 0x22 {
        seq![0x5cu8, 0x22u8]
    } else if b == 0x5c {
        seq![0x5cu8, 0x5cu8]
    } else if b == 0x08 {
        seq![0x5cu8, 0x62u8]
    } else if b == 0x09 {
        seq![0x5cu8, 0x74u8]
    } else if b == 0x0a {
        seq![0x5cu8, 0x6eu8]
    } else if b == 0x0c {
        seq![0x5cu8, 0x66u8]
    } else if b == 0x0d {
        seq![0x5cu8, 0x72u8]
    } else if b < 0x20 {
        seq![0x5cu8, 0x75u8, 0x30u8, 0x30u8, hex_digit(b as int / 16), hex_digit(b as int % 16)]
    } else {
        seq![b]
    }
}

/// The escaped form of every byte of `s`, in order.
pub open spec fn escape_bytes(s: Seq<u8>) -> Seq<u8>
    decreases s.len(),
{
    if s.len() == 0 {
        Seq::empty()
    } else {
        escape_byte(s[0]) + escape_bytes(s.drop_first())
    }
}

/// The JSON text of the string `s`: quoted, with its bytes escaped.
pub open spec fn json_string(s: Seq<char>) -> Seq<u8> {
    seq![0x22u8] + escape_bytes(encode_utf8(s)) + seq![0x22u8]
}

/// The compact JSON text of an object with the one entry `key: value`.
pub open spec fn json_object_entry(key: Seq<char>, value: Seq<char>) -> Seq<u8> {
    seq![0x7bu8] + json_string(key) + seq![0x3au8] + json_string(value) + seq![0x7du8]
}

/// The numbers of `bytes` in decimal, separated by commas.
pub open spec fn comma_decimals(bytes: Seq<u8>) -> Seq<u8>
    decreases bytes.len(),
{
    if bytes.len() == 0 {
        Seq::empty()
    } else if bytes.len() == 1 {
        decimal(bytes[0] as nat)
    } else {
        comma_decimals(bytes.drop_last()) + seq![0x2cu8] + decimal(bytes.last() as nat)
    }
}

/// The compact JSON text of a byte vector: an array of numbers.
pub open spec fn json_byte_array(bytes: Seq<u8>) -> Seq<u8> {
    seq![0x5bu8] + comma_decimals(bytes) + seq![0x5du8]
}

/// Serialises the one-entry object `{key: value}` with
/// `serde_json::to_vec`, handing it the pair as a one-entry map (the form
/// `serde_json`'s own object value takes). The compact writer writes `{`,
/// the key, `:`, the value and `}`, each string quoted and escaped byte by
/// byte (`format_escaped_str`). Writing strings into a `Vec` cannot fail,
/// so the `unwrap` never panics.
#[verifier::external_body]
pub(crate) fn encode_string_entry(key: &str, value: &str) -> (v: Vec<u8>)
    ensures
        v@ == json_object_entry(key@, value@),
{
    serde_json::to_vec(&std::collections::BTreeMap::from([(key, value)])).unwrap()
}

/// Serialises `bytes` with `serde_json::to_vec`, as a sequence: `[`, the
/// numbers in decimal (`itoa`) separated by `,`, then `]`. Writing `u8`
/// values into a `Vec` cannot fail.
#[verifier::external_body]
pub(crate) fn encode_json_byte_array(bytes: &Vec<u8>) -> (v: Vec<u8>)
    ensures
        v@ == json_byte_array(bytes@),
{
    serde_json::to_vec(bytes).unwrap()
}

} // verus!
