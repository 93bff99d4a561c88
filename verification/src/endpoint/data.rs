//! Endpoint data: one value of an endpoint, and its encoding as a single
//! option whose kind tells the form of the value.
use vstd::prelude::*;
use vstd::utf8::{decode_utf8, encode_utf8, valid_utf8};

use crate::endpoint::iot_option_kinds::{
    VALUE_BOOL_FALSE, VALUE_BOOL_TRUE, VALUE_FLOAT, VALUE_INT, VALUE_RAW, VALUE_RGB, VALUE_STRING,
};
use crate::endpoint::kinds::{lowercased, to_lower};
use crate::endpoint::value::{
    raw_as_slice, select_endpoint_value, text_as_str, utf8_text, value_selection, EpValue,
    ValueModel,
};
use crate::error::{CoreError, IotError};
use crate::wire::{
    bits_of_i32, byte_of, i32_of_bits, lemma_i32_bits, lemma_le_u32_bytes, lemma_overwrite_append,
    lemma_u16_bytes, lemma_u32_bytes, overwrite, read_i32_le, read_u16_le, read_u32_le, u16_at,
    u16_bytes, u32_at, u32_bytes, write_bytes, write_header, write_i32_le, write_u32_le,
};

verus! {

/// Endpoint data: the value measured at, or set for, one endpoint.
#[derive(Debug, PartialEq)]
pub struct EpData {
    /// Measurement value.
    pub value: EpValue,
}

/// A colour as one number, laid out as `0x00RRGGBB`.
pub open spec fn rgb_word(r: u8, g: u8, b: u8) -> u32 {
    (65536 * (r as int) + 256 * (g as int) + (b as int)) as u32
}

/// The payload of a value's option.
pub open spec fn value_payload(v: ValueModel) -> Seq<u8> {
    match v {
        ValueModel::Bool(_) => Seq::<u8>::empty(),
        ValueModel::Float32(bits) => u32_bytes(bits),
        ValueModel::Int32(i) => u32_bytes(bits_of_i32(i)),
        ValueModel::Text(t) => encode_utf8(t),
        ValueModel::Bytes(b) => b,
        ValueModel::Rgb(r, g, b) => u32_bytes(rgb_word(r, g, b)),
    }
}

/// The option kind under which a value is encoded.
pub open spec fn value_option_kind(v: ValueModel) -> u16 {
    match v {
        ValueModel::Bool(false) => VALUE_BOOL_FALSE,
        ValueModel::Bool(true) => VALUE_BOOL_TRUE,
        ValueModel::Float32(_) => VALUE_FLOAT,
        ValueModel::Int32(_) => VALUE_INT,
        ValueModel::Text(_) => VALUE_STRING,
        ValueModel::Bytes(_) => VALUE_RAW,
        ValueModel::Rgb(_, _, _) => VALUE_RGB,
    }
}

/// The encoding of a value: option kind, payload length, payload.
pub open spec fn value_bytes(v: ValueModel) -> Seq<u8> {
    u16_bytes(value_option_kind(v)) + u16_bytes(value_payload(v).len() as u16) + value_payload(v)
}

/// The text that a payload holds.
#[verifier::opaque]
pub open spec fn parse_text(payload: Seq<u8>) -> Result<ValueModel, IotError> {
    if payload.len() > 64 {
        Err(IotError::Overrun)
    } else if !valid_utf8(payload) {
        Err(IotError::Core(CoreError::InvalidOption))
    } else {
        Ok(ValueModel::Text(decode_utf8(payload)))
    }
}

/// The value that the payload of an option of the given kind holds.
pub open spec fn parse_body(kind: u16, payload: Seq<u8>) -> Result<ValueModel, IotError> {
    if kind == VALUE_BOOL_FALSE {
        Ok(ValueModel::Bool(false))
    } else if kind == VALUE_BOOL_TRUE {
        Ok(ValueModel::Bool(true))
    } else if kind == VALUE_STRING {
        parse_text(payload)
    } else if kind == VALUE_RAW {
        if payload.len() > 64 {
            Err(IotError::Overrun)
        } else {
            Ok(ValueModel::Bytes(payload))
        }
    } else if payload.len() < 4 {
        Err(IotError::Core(CoreError::InvalidOption))
    } else if kind == VALUE_FLOAT {
        Ok(ValueModel::Float32(u32_at(payload, 0)))
    } else if kind == VALUE_INT {
        Ok(ValueModel::Int32(i32_of_bits(u32_at(payload, 0))))
    } else if kind == VALUE_RGB {
        Ok(ValueModel::Rgb(payload[2], payload[1], payload[0]))
    } else {
        Err(IotError::Core(CoreError::InvalidOption))
    }
}

/// What decoding finds at the start of `s`: a value and the number of
/// bytes it takes, or the reason why there is none. An option kind that
/// is no value, and input shorter than the header and the payload length
/// it gives, are an `InvalidOption`.
pub open spec fn parse_value(s: Seq<u8>) -> Result<(ValueModel, nat), IotError> {
    if s.len() < 4 {
        Err(IotError::Core(CoreError::InvalidOption))
    } else {
        let kind = u16_at(s, 0);
        let len = u16_at(s, 2) as int;
        if kind < VALUE_BOOL_FALSE || kind > VALUE_RGB || s.len() < 4 + len {
            Err(IotError::Core(CoreError::InvalidOption))
        } else {
            match parse_body(kind, s.subrange(4, 4 + len)) {
                Ok(v) => Ok((v, (4 + len) as nat)),
                Err(e) => Err(e),
            }
        }
    }
}

/// The text value that a payload encodes; a payload of more than 64
/// bytes is an `Overrun`, one that is not UTF-8 an `InvalidOption`.
fn decode_text(payload: &[u8]) -> (r: Result<EpValue, IotError>)
    ensures
        match parse_text(payload@) {
            Ok(m) => (r matches Ok(v) && v@ == m),
            Err(e) => r == Err::<EpValue, IotError>(e),
        },
{
    reveal(parse_text);
    if payload.len() > 64 {
        return Err(IotError::Overrun);
    }
    match utf8_text(payload) {
        None => Err(IotError::Core(CoreError::InvalidOption)),
        Some(s) => {
            proof {
                vstd::utf8::encode_utf8_decode_utf8(s@);
            }
            match EpValue::from_text(s) {
                Ok(v) => Ok(v),
                Err(_) => Err(IotError::Core(CoreError::InvalidOption)),
            }
        },
    }
}

/// The colour that a number laid out as `0x00RRGGBB` holds.
fn decode_rgb(u: u32) -> (r: EpValue)
    ensures
        r@ == ValueModel::Rgb(byte_of(u as int, 2), byte_of(u as int, 1), byte_of(u as int, 0)),
{
    let r = #[verifier::truncate]
    ((u >> 16) as u8);
    let g = #[verifier::truncate]
    ((u >> 8) as u8);
    let b = #[verifier::truncate]
    (u as u8);
    assert(r == (u / 65536) % 256 && g == (u / 256) % 256 && b == u % 256) by (bit_vector)
        requires
            r == (u >> 16) as u8,
            g == (u >> 8) as u8,
            b == u as u8,
    ;
    EpValue::Rgb(r, g, b)
}

impl Clone for EpData {
    fn clone(&self) -> (r: EpData)
        ensures
            r.value@ == self.value@,
    {
        EpData { value: self.value.clone() }
    }
}

impl EpData {
    pub fn new(value: EpValue) -> (r: EpData)
        ensures
            r.value == value,
    {
        EpData { value }
    }

    /// Number of bytes that [`EpData::encode`] writes. There are 68 at
    /// most, as every value fits its capacity.
    pub fn encode_len(&self) -> (r: usize)
        ensures
            r == value_bytes(self.value@).len(),
            4 <= r <= 68,
            self.value@.wf(),
    {
        match &self.value {
            EpValue::Bool(_) => 4,
            EpValue::Float32(_) => 8,
            EpValue::Int32(_) => 8,
            EpValue::Text(v) => {
                let b = text_as_str(v).as_bytes();
                4 + b.len()
            },
            EpValue::Bytes(v) => 4 + raw_as_slice(v).len(),
            EpValue::Rgb(_, _, _) => 8,
        }
    }

    /// Writes the value to the start of `buff` and returns the number of
    /// bytes written. A buffer that is too short is left as it is and
    /// reported as `BufferLength`.
    pub fn encode(&self, buff: &mut [u8]) -> (r: Result<usize, IotError>)
        ensures
            old(buff)@.len() >= value_bytes(self.value@).len() ==> r == Ok::<usize, IotError>(
                value_bytes(self.value@).len() as usize,
            ) && final(buff)@ == overwrite(old(buff)@, 0, value_bytes(self.value@)),
            old(buff)@.len() < value_bytes(self.value@).len() ==> r == Err::<usize, IotError>(
                IotError::Core(CoreError::BufferLength),
            ) && final(buff)@ == old(buff)@,
    {
        self.encode_at(buff, 0)
    }

    /// Writes the value into `buff` from offset `at` on and returns the
    /// number of bytes written. Where too few bytes are left from `at`
    /// on, the buffer is left as it is and `BufferLength` reported.
    pub fn encode_at(&self, buff: &mut [u8], at: usize) -> (r: Result<usize, IotError>)
        ensures
            at + value_bytes(self.value@).len() <= old(buff)@.len() ==> r == Ok::<usize, IotError>(
                value_bytes(self.value@).len() as usize,
            ) && final(buff)@ == overwrite(old(buff)@, at as int, value_bytes(self.value@)),
            at + value_bytes(self.value@).len() > old(buff)@.len() ==> r == Err::<usize, IotError>(
                IotError::Core(CoreError::BufferLength),
            ) && final(buff)@ == old(buff)@,
    {
        let n = self.encode_len();
        if buff.len() < n || buff.len() - n < at {
            return Err(IotError::Core(CoreError::BufferLength));
        }
        let ghost header = u16_bytes(value_option_kind(self.value@)) + u16_bytes(
            value_payload(self.value@).len() as u16,
        );
        proof {
            lemma_overwrite_append(old(buff)@, at as int, header, value_payload(self.value@));
        }
        match &self.value {
            EpValue::Bool(v) => {
                if *v {
                    write_header(buff, at, VALUE_BOOL_TRUE, 0);
                } else {
                    write_header(buff, at, VALUE_BOOL_FALSE, 0);
                }
                assert(header + value_payload(self.value@) == header);
                assert(buff@ == overwrite(buff@, at + 4, Seq::<u8>::empty()));
            },
            EpValue::Float32(v) => {
                write_header(buff, at, VALUE_FLOAT, 4);
                write_u32_le(buff, at + 4, *v);
            },
            EpValue::Int32(v) => {
                write_header(buff, at, VALUE_INT, 4);
                write_i32_le(buff, at + 4, *v);
            },
            EpValue::Text(v) => {
                let b = text_as_str(v).as_bytes();
                write_header(buff, at, VALUE_STRING, b.len() as u16);
                write_bytes(buff, at + 4, b);
            },
            EpValue::Bytes(v) => {
                let b = raw_as_slice(v);
                write_header(buff, at, VALUE_RAW, b.len() as u16);
                write_bytes(buff, at + 4, b);
            },
            EpValue::Rgb(r, g, b) => {
                let (r, g, b) = (*r, *g, *b);
                let u: u32 = (r as u32) << 16 | (g as u32) << 8 | (b as u32);
                assert(u == 65536 * (r as u32) + 256 * (g as u32) + (b as u32)) by (bit_vector)
                    requires
                        u == (r as u32) << 16 | (g as u32) << 8 | (b as u32),
                ;
                write_header(buff, at, VALUE_RGB, 4);
                write_u32_le(buff, at + 4, u);
            },
        }
        assert(buff@ == overwrite(old(buff)@, at as int, value_bytes(self.value@)));
        Ok(n)
    }

    /// Reads a value from the start of `buff` and returns it with the
    /// number of bytes it took. An unknown option kind, a payload cut
    /// short and a text that is not UTF-8 are an `InvalidOption`; a text
    /// or raw data of more than 64 bytes is an `Overrun`.
    pub fn decode(buff: &[u8]) -> (r: Result<(EpData, usize), IotError>)
        ensures
            match parse_value(buff@) {
                Ok((m, n)) => (r matches Ok((d, k)) && d.value@ == m && k == n),
                Err(e) => r == Err::<(EpData, usize), IotError>(e),
            },
    {
        if buff.len() < 4 {
            return Err(IotError::Core(CoreError::InvalidOption));
        }
        let kind = read_u16_le(buff, 0);
        let len = read_u16_le(buff, 2) as usize;
        if kind < VALUE_BOOL_FALSE || kind > VALUE_RGB || buff.len() - 4 < len {
            return Err(IotError::Core(CoreError::InvalidOption));
        }
        let payload = vstd::slice::slice_subrange(buff, 4, 4 + len);
        let value = if kind == VALUE_BOOL_FALSE {
            EpValue::Bool(false)
        } else if kind == VALUE_BOOL_TRUE {
            EpValue::Bool(true)
        } else if kind == VALUE_STRING {
            match decode_text(payload) {
                Ok(v) => v,
                Err(e) => {
                    return Err(e);
                },
            }
        } else if kind == VALUE_RAW {
            match EpValue::from_bytes(payload) {
                Ok(v) => v,
                Err(e) => {
                    return Err(e);
                },
            }
        } else if len < 4 {
            return Err(IotError::Core(CoreError::InvalidOption));
        } else if kind == VALUE_FLOAT {
            EpValue::Float32(read_u32_le(payload, 0))
        } else if kind == VALUE_INT {
            EpValue::Int32(read_i32_le(payload, 0))
        } else {
            proof {
                lemma_le_u32_bytes(payload@[0], payload@[1], payload@[2], payload@[3]);
            }
            decode_rgb(read_u32_le(payload, 0))
        };
        Ok((EpData { value }, len + 4))
    }
}

/// Parses a value of the command line: `true` and `false` in any letter
/// case are booleans; what parses as a floating point number is one,
/// given here by its bit pattern in `float_bits`; anything else is text,
/// which may be 64 bytes long.
pub fn parse_endpoint_data(src: &str, float_bits: Option<u32>) -> (r: Result<EpData, IotError>)
    ensures
        match r {
            Ok(d) => Some(d.value@) == value_selection(src@, lowercased(src@), float_bits),
            Err(e) => e == IotError::Overrun && value_selection(src@, lowercased(src@), float_bits)
                is None,
        },
{
    let lower = to_lower(src);
    match select_endpoint_value(src, &lower, float_bits) {
        Ok(value) => Ok(EpData::new(value)),
        Err(e) => Err(e),
    }
}

/// An encoded value is its payload and four bytes of header.
pub proof fn lemma_value_bytes_len(v: ValueModel)
    requires
        v.wf(),
    ensures
        value_bytes(v).len() == 4 + value_payload(v).len(),
        value_payload(v).len() <= 64,
{
}

/// Where the parts of an encoded value lie in the bytes that start with it.
proof fn lemma_value_layout(v: ValueModel, rest: Seq<u8>)
    requires
        v.wf(),
    ensures
        ({
            let s = value_bytes(v) + rest;
            let payload = value_payload(v);
            &&& s.len() >= 4 + payload.len()
            &&& payload.len() <= 64
            &&& u16_at(s, 0) == value_option_kind(v)
            &&& u16_at(s, 2) == payload.len()
            &&& s.subrange(4, 4 + payload.len() as int) == payload
            &&& forall|i: int| 0 <= i < payload.len() ==> s[4 + i] == payload[i]
        }),
{
    let payload = value_payload(v);
    let s = value_bytes(v) + rest;
    lemma_u16_bytes(value_option_kind(v));
    lemma_u16_bytes(payload.len() as u16);
    assert(s.subrange(4, 4 + payload.len() as int) == payload);
}

/// The payload of a value holds that value.
proof fn lemma_body_round_trip(v: ValueModel)
    requires
        v.wf(),
    ensures
        parse_body(value_option_kind(v), value_payload(v)) == Ok::<ValueModel, IotError>(v),
{
    match v {
        ValueModel::Float32(bits) => {
            lemma_u32_bytes(bits);
        },
        ValueModel::Int32(i) => {
            lemma_u32_bytes(bits_of_i32(i));
            lemma_i32_bits(i);
        },
        ValueModel::Text(t) => {
            reveal(parse_text);
            vstd::utf8::encode_utf8_valid_utf8(t);
            vstd::utf8::encode_utf8_decode_utf8(t);
        },
        _ => {},
    }
}

/// Decoding what was encoded gives the value back and takes as many
/// bytes as encoding wrote, whatever follows the encoding.
pub proof fn lemma_value_round_trip(v: ValueModel, rest: Seq<u8>)
    requires
        v.wf(),
    ensures
        parse_value(value_bytes(v) + rest) == Ok::<(ValueModel, nat), IotError>(
            (v, value_bytes(v).len()),
        ),
{
    lemma_value_layout(v, rest);
    lemma_body_round_trip(v);
    let s = value_bytes(v) + rest;
    let payload = value_payload(v);
    let kind = value_option_kind(v);
    assert(s.len() >= 4);
    assert(u16_at(s, 0) == kind);
    assert(VALUE_BOOL_FALSE <= kind <= VALUE_RGB);
    assert(u16_at(s, 2) as int == payload.len());
    assert(s.subrange(4, 4 + u16_at(s, 2) as int) == payload);
    assert(parse_body(kind, payload) == Ok::<ValueModel, IotError>(v));
    assert(value_bytes(v).len() == 4 + payload.len());
}

} // verus!
