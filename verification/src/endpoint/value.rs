//! Endpoint values: a closed set of typed forms, with text and raw bytes
//! held in fixed-capacity collections of the `heapless` crate.
use vstd::prelude::*;
use vstd::string::StringExecFns;
use vstd::utf8::{encode_utf8, valid_utf8};

use crate::error::IotError;

verus! {

/// `heapless::Vec`, a vector of fixed capacity. Nothing of its inside is
/// known here; what it holds is told by the functions that read it.
#[verifier::external_type_specification]
#[verifier::external_body]
#[verifier::reject_recursive_types(T)]
pub struct ExBoundedVec<T, const N: usize>(heapless::Vec<T, N>);

/// `heapless::String`, a string of fixed capacity. Nothing of its inside
/// is known here; what it holds is told by the functions that read it.
#[verifier::external_type_specification]
#[verifier::external_body]
pub struct ExBoundedString<const N: usize>(heapless::String<N>);

/// The bytes that a raw value holds, in order.
pub uninterp spec fn raw_contents(v: heapless::Vec<u8, 64>) -> Seq<u8>;

/// The characters that a text value holds, in order.
pub uninterp spec fn text_contents(s: heapless::String<64>) -> Seq<char>;

/// `heapless::Vec::from_slice`: a vector with the bytes of the slice, in
/// order, where they fit the capacity of 64; else the error, and no vector.
#[verifier::external_body]
pub(crate) fn raw_from_slice(data: &[u8]) -> (r: Result<heapless::Vec<u8, 64>, ()>)
    ensures
        match r {
            Ok(v) => data@.len() <= 64 && raw_contents(v) == data@,
            Err(_) => data@.len() > 64,
        },
{
    heapless::Vec::from_slice(data)
}

/// `heapless::Vec::as_slice`: the bytes that the vector holds, which are
/// never more than its capacity.
#[verifier::external_body]
pub(crate) fn raw_as_slice(v: &heapless::Vec<u8, 64>) -> (r: &[u8])
    ensures
        r@ == raw_contents(*v),
        r@.len() <= 64,
{
    v.as_slice()
}

/// `FromStr` of `heapless::String`: a string with the characters of the
/// text where its UTF-8 form fits the capacity of 64 bytes; else the
/// error, and no string.
#[verifier::external_body]
pub(crate) fn text_from_str(s: &str) -> (r: Result<heapless::String<64>, ()>)
    ensures
        match r {
            Ok(t) => encode_utf8(s@).len() <= 64 && text_contents(t) == s@,
            Err(_) => encode_utf8(s@).len() > 64,
        },
{
    <heapless::String<64> as core::str::FromStr>::from_str(s)
}

/// `heapless::String::as_str`: the text that the string holds, whose
/// UTF-8 form is never longer than the capacity.
#[verifier::external_body]
pub(crate) fn text_as_str(t: &heapless::String<64>) -> (r: &str)
    ensures
        r@ == text_contents(*t),
        encode_utf8(r@).len() <= 64,
{
    t.as_str()
}

/// `core::str::from_utf8`: the text that the bytes encode, if they are
/// valid UTF-8, and nothing if they are not.
#[verifier::external_body]
pub(crate) fn utf8_text(data: &[u8]) -> (r: Option<&str>)
    ensures
        r is Some <==> valid_utf8(data@),
        r matches Some(s) ==> encode_utf8(s@) == data@,
{
    core::str::from_utf8(data).ok()
}

/// The value of an endpoint.
#[derive(Debug, PartialEq)]
pub enum EpValue {
    /// Boolean value.
    Bool(bool),
    /// 32-bit integer value.
    Int32(i32),
    /// 32-bit floating point value, held as its IEEE 754 bit pattern.
    Float32(u32),
    /// Text of at most 64 bytes in UTF-8.
    Text(heapless::String<64>),
    /// Raw data of at most 64 bytes.
    Bytes(heapless::Vec<u8, 64>),
    /// Colour as red, green and blue.
    Rgb(u8, u8, u8),
}

/// What an [`EpValue`] holds, as plain values.
pub enum ValueModel {
    Bool(bool),
    Int32(i32),
    Float32(u32),
    Text(Seq<char>),
    Bytes(Seq<u8>),
    Rgb(u8, u8, u8),
}

impl ValueModel {
    /// Texts and raw data fit the capacity of 64 bytes.
    pub open spec fn wf(self) -> bool {
        match self {
            ValueModel::Text(t) => encode_utf8(t).len() <= 64,
            ValueModel::Bytes(b) => b.len() <= 64,
            _ => true,
        }
    }
}

impl View for EpValue {
    type V = ValueModel;

    open spec fn view(&self) -> ValueModel {
        match self {
            EpValue::Bool(b) => ValueModel::Bool(*b),
            EpValue::Int32(i) => ValueModel::Int32(*i),
            EpValue::Float32(f) => ValueModel::Float32(*f),
            EpValue::Text(t) => ValueModel::Text(text_contents(*t)),
            EpValue::Bytes(b) => ValueModel::Bytes(raw_contents(*b)),
            EpValue::Rgb(r, g, b) => ValueModel::Rgb(*r, *g, *b),
        }
    }
}

impl Clone for EpValue {
    fn clone(&self) -> (r: EpValue)
        ensures
            r@ == self@,
    {
        match self {
            EpValue::Bool(b) => EpValue::Bool(*b),
            EpValue::Int32(i) => EpValue::Int32(*i),
            EpValue::Float32(f) => EpValue::Float32(*f),
            EpValue::Text(t) => match text_from_str(text_as_str(t)) {
                Ok(c) => EpValue::Text(c),
                Err(_) => vstd::pervasive::unreached(),
            },
            EpValue::Bytes(b) => match raw_from_slice(raw_as_slice(b)) {
                Ok(c) => EpValue::Bytes(c),
                Err(_) => vstd::pervasive::unreached(),
            },
            EpValue::Rgb(r, g, b) => EpValue::Rgb(*r, *g, *b),
        }
    }
}

impl EpValue {
    /// A boolean value.
    pub fn from_bool(v: bool) -> (r: EpValue)
        ensures
            r@ == ValueModel::Bool(v),
    {
        EpValue::Bool(v)
    }

    /// An integer value.
    pub fn from_i32(v: i32) -> (r: EpValue)
        ensures
            r@ == ValueModel::Int32(v),
    {
        EpValue::Int32(v)
    }

    /// A floating point value, given by its IEEE 754 bit pattern.
    pub fn from_f32_bits(bits: u32) -> (r: EpValue)
        ensures
            r@ == ValueModel::Float32(bits),
    {
        EpValue::Float32(bits)
    }

    /// A text value. A text of more than 64 bytes is an `Overrun`.
    pub fn from_text(v: &str) -> (r: Result<EpValue, IotError>)
        ensures
            encode_utf8(v@).len() <= 64 ==> (r matches Ok(e) && e@ == ValueModel::Text(v@)),
            encode_utf8(v@).len() > 64 ==> r == Err::<EpValue, IotError>(IotError::Overrun),
    {
        match text_from_str(v) {
            Ok(t) => Ok(EpValue::Text(t)),
            Err(_) => Err(IotError::Overrun),
        }
    }

    /// A raw value. Data of more than 64 bytes is an `Overrun`.
    pub fn from_bytes(v: &[u8]) -> (r: Result<EpValue, IotError>)
        ensures
            v@.len() <= 64 ==> (r matches Ok(e) && e@ == ValueModel::Bytes(v@)),
            v@.len() > 64 ==> r == Err::<EpValue, IotError>(IotError::Overrun),
    {
        match raw_from_slice(v) {
            Ok(b) => Ok(EpValue::Bytes(b)),
            Err(_) => Err(IotError::Overrun),
        }
    }

    /// A colour value.
    pub fn from_rgb(red: u8, green: u8, blue: u8) -> (r: EpValue)
        ensures
            r@ == ValueModel::Rgb(red, green, blue),
    {
        EpValue::Rgb(red, green, blue)
    }
}

/// The value that a text of the command line stands for: `true` and
/// `false` in any letter case are booleans; what parses as a floating
/// point number is one, given here by its bit pattern in `float_bits`;
/// anything else is text. `lower` is the lower-case form of `src`.
pub fn select_endpoint_value(src: &str, lower: &String, float_bits: Option<u32>) -> (r: Result<
    EpValue,
    IotError,
>)
    ensures
        match r {
            Ok(v) => Some(v@) == value_selection(src@, lower@, float_bits),
            Err(e) => e == IotError::Overrun && value_selection(src@, lower@, float_bits) is None,
        },
{
    let t = String::from_str("true");
    let f = String::from_str("false");
    if *lower == t {
        Ok(EpValue::Bool(true))
    } else if *lower == f {
        Ok(EpValue::Bool(false))
    } else {
        match float_bits {
            Some(bits) => Ok(EpValue::Float32(bits)),
            None => EpValue::from_text(src),
        }
    }
}

/// The choice that [`select_endpoint_value`] makes; `None` where the text
/// fits no value.
pub open spec fn value_selection(src: Seq<char>, lower: Seq<char>, float_bits: Option<u32>) -> Option<
    ValueModel,
> {
    if lower == "true"@ {
        Some(ValueModel::Bool(true))
    } else if lower == "false"@ {
        Some(ValueModel::Bool(false))
    } else {
        match float_bits {
            Some(bits) => Some(ValueModel::Float32(bits)),
            None => if encode_utf8(src).len() <= 64 {
                Some(ValueModel::Text(src))
            } else {
                None
            },
        }
    }
}

} // verus!
