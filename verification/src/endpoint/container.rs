//! The two bodies built from endpoints: [`IotInfo`], the descriptors of a
//! service, and [`IotData`], the values measured at them. Both are held
//! in fixed-capacity vectors of the `heapless` crate.
use vstd::prelude::*;

use crate::endpoint::data::{parse_value, value_bytes, EpData};
use crate::endpoint::desc::{parse_descriptor, EpDescriptor};
use crate::endpoint::list::{lemma_concat_push, lemma_parse_many_room};
use crate::endpoint::value::ValueModel;
use crate::endpoint::{
    decode_data, decode_descriptors, descriptors_bytes, encode_data, encode_descriptors,
    lemma_descriptors_bytes_len, lemma_values_bytes_prefix, parse_descriptors, parse_values,
    value_models, values_bytes,
};
use crate::error::{CoreError, IotError};
use crate::wire::overwrite;

verus! {

/// Most descriptors of an information object, and most values of a
/// data object.
pub const CONTAINER_CAPACITY: usize = 8;

/// The descriptors that a vector of the information object holds, in
/// order.
pub uninterp spec fn info_contents(v: heapless::Vec<EpDescriptor, 8>) -> Seq<EpDescriptor>;

/// The values that a vector of the data object holds, in order.
pub uninterp spec fn data_contents(v: heapless::Vec<EpData, 8>) -> Seq<ValueModel>;

/// `heapless::Vec::from_slice`: a vector with copies of the items of the
/// slice, in order, where they fit the capacity of 8; else the error,
/// and no vector.
#[verifier::external_body]
fn descriptors_from_slice(items: &[EpDescriptor]) -> (r: Result<heapless::Vec<EpDescriptor, 8>, ()>)
    ensures
        match r {
            Ok(v) => items@.len() <= 8 && info_contents(v) == items@,
            Err(_) => items@.len() > 8,
        },
{
    heapless::Vec::from_slice(items)
}

/// `heapless::Vec::as_slice`: the items that the vector holds, which are
/// never more than its capacity.
#[verifier::external_body]
fn descriptors_as_slice(v: &heapless::Vec<EpDescriptor, 8>) -> (r: &[EpDescriptor])
    ensures
        r@ == info_contents(*v),
        r@.len() <= 8,
{
    v.as_slice()
}

/// `heapless::Vec::from_slice`: a vector with clones of the items of
/// the slice, in order, where they fit the capacity of 8; else the
/// error, and no vector. A clone of an item holds what the item holds.
#[verifier::external_body]
fn data_from_slice(items: &[EpData]) -> (r: Result<heapless::Vec<EpData, 8>, ()>)
    ensures
        match r {
            Ok(v) => items@.len() <= 8 && data_contents(v) == value_models(items@),
            Err(_) => items@.len() > 8,
        },
{
    heapless::Vec::from_slice(items)
}

/// `heapless::Vec::as_slice`: the items that the vector holds, which are
/// never more than its capacity.
#[verifier::external_body]
fn data_as_slice(v: &heapless::Vec<EpData, 8>) -> (r: &[EpData])
    ensures
        value_models(r@) == data_contents(*v),
        r@.len() <= 8,
{
    v.as_slice()
}

/// IoT information object: the endpoint descriptors of a service, at
/// most `N` of them. It is the body of the service's primary page.
#[derive(Debug)]
pub struct IotInfo<const N: usize> {
    pub descriptors: heapless::Vec<EpDescriptor, N>,
}

impl View for IotInfo<8> {
    type V = Seq<EpDescriptor>;

    open spec fn view(&self) -> Seq<EpDescriptor> {
        info_contents(self.descriptors)
    }
}

impl IotInfo<8> {
    /// Create a new [`IotInfo`] object with the provided descriptors;
    /// more than eight are refused.
    pub fn new(descriptors: &[EpDescriptor]) -> (r: Result<Self, ()>)
        ensures
            match r {
                Ok(info) => descriptors@.len() <= 8 && info@ == descriptors@,
                Err(_) => descriptors@.len() > 8,
            },
    {
        match descriptors_from_slice(descriptors) {
            Ok(v) => Ok(IotInfo { descriptors: v }),
            Err(_) => Err(()),
        }
    }

    /// The descriptors, in order; there are eight at most.
    pub fn as_slice(&self) -> (r: &[EpDescriptor])
        ensures
            r@ == self@,
            r@.len() <= 8,
    {
        descriptors_as_slice(&self.descriptors)
    }

    /// Number of bytes that [`IotInfo::encode`] writes.
    pub fn encode_len(&self) -> (r: usize)
        ensures
            r == descriptors_bytes(self@).len(),
            r <= 64,
    {
        proof {
            lemma_descriptors_bytes_len(self@);
        }
        8 * self.as_slice().len()
    }

    /// Writes the descriptors to the start of `buff` and returns the
    /// number of bytes written. A buffer that cannot hold them all is
    /// left as it is and reported as `BufferLength`.
    pub fn encode(&self, buff: &mut [u8]) -> (r: Result<usize, IotError>)
        ensures
            descriptors_bytes(self@).len() <= old(buff)@.len() ==> r == Ok::<usize, IotError>(
                descriptors_bytes(self@).len() as usize,
            ) && final(buff)@ == overwrite(old(buff)@, 0, descriptors_bytes(self@)),
            descriptors_bytes(self@).len() > old(buff)@.len() ==> r == Err::<usize, IotError>(
                IotError::Core(CoreError::BufferLength),
            ) && final(buff)@ == old(buff)@,
    {
        encode_descriptors(self.as_slice(), buff)
    }

    /// Reads descriptors until `buff` is exhausted, and returns them with
    /// the number of bytes read. More than eight descriptors are an
    /// `Overrun`; input that does not decode is an `InvalidOption`.
    pub fn decode(buff: &[u8]) -> (r: Result<(Self, usize), IotError>)
        ensures
            match parse_descriptors(buff@, 8) {
                Ok(ds) => (r matches Ok((info, n)) && info@ == ds && n == buff@.len()),
                Err(e) => r matches Err(f) && f == e,
            },
    {
        let list = decode_descriptors(buff, CONTAINER_CAPACITY)?;
        proof {
            lemma_parse_many_room(buff@, 8, |b: Seq<u8>| parse_descriptor(b));
        }
        match descriptors_from_slice(list.as_slice()) {
            Ok(v) => Ok((IotInfo { descriptors: v }, buff.len())),
            Err(_) => Err(IotError::Overrun),
        }
    }
}

impl Default for IotInfo<8> {
    fn default() -> (r: Self)
        ensures
            r@ == Seq::<EpDescriptor>::empty(),
    {
        let none: [EpDescriptor; 0] = [];
        match descriptors_from_slice(none.as_slice()) {
            Ok(v) => IotInfo { descriptors: v },
            Err(_) => vstd::pervasive::unreached(),
        }
    }
}

/// IoT data object: the values measured at the endpoints of a service,
/// at most `N` of them, in the order of the service's descriptors. It is
/// the body of a data object.
#[derive(Debug)]
pub struct IotData<const N: usize> {
    /// Measurement values (these must correspond with service endpoints).
    pub data: heapless::Vec<EpData, N>,
}

impl View for IotData<8> {
    type V = Seq<ValueModel>;

    open spec fn view(&self) -> Seq<ValueModel> {
        data_contents(self.data)
    }
}

impl IotData<8> {
    /// A data object with copies of the given values; more than eight
    /// are refused.
    pub fn new(data: &[EpData]) -> (r: Result<Self, ()>)
        ensures
            match r {
                Ok(d) => data@.len() <= 8 && d@ == value_models(data@),
                Err(_) => data@.len() > 8,
            },
    {
        match data_from_slice(data) {
            Ok(v) => Ok(IotData { data: v }),
            Err(_) => Err(()),
        }
    }

    /// The data, in order; there are eight items at most.
    pub fn as_slice(&self) -> (r: &[EpData])
        ensures
            value_models(r@) == self@,
            r@.len() <= 8,
    {
        data_as_slice(&self.data)
    }

    /// Number of bytes that [`IotData::encode`] writes.
    pub fn encode_len(&self) -> (r: usize)
        ensures
            r == values_bytes(self@).len(),
            r <= 544,
    {
        let items = self.as_slice();
        let count = items.len();
        let ghost models = value_models(items@);
        let mut need: usize = 0;
        let mut k: usize = 0;
        assert(models.subrange(0, 0) == Seq::<ValueModel>::empty());
        while k < count
            invariant
                count == items@.len(),
                count <= 8,
                models == value_models(items@),
                k <= count,
                need == values_bytes(models.subrange(0, k as int)).len(),
                need <= 68 * k,
            decreases count - k,
        {
            proof {
                lemma_concat_push(
                    models.subrange(0, k as int),
                    models[k as int],
                    |v: ValueModel| value_bytes(v),
                );
                assert(models.subrange(0, k as int).push(models[k as int]) == models.subrange(
                    0,
                    k + 1,
                ));
            }
            let n = items[k].encode_len();
            assert(models[k as int] == items@[k as int].value@);
            need = need + n;
            k = k + 1;
        }
        assert(models.subrange(0, count as int) == models);
        need
    }

    /// Writes the values to the start of `buff` and returns the number of
    /// bytes written. A buffer that cannot hold them all is left as it is
    /// and reported as `BufferLength`.
    pub fn encode(&self, buff: &mut [u8]) -> (r: Result<usize, IotError>)
        ensures
            values_bytes(self@).len() <= old(buff)@.len() ==> r == Ok::<usize, IotError>(
                values_bytes(self@).len() as usize,
            ) && final(buff)@ == overwrite(old(buff)@, 0, values_bytes(self@)),
            values_bytes(self@).len() > old(buff)@.len() ==> r == Err::<usize, IotError>(
                IotError::Core(CoreError::BufferLength),
            ) && final(buff)@ == old(buff)@,
    {
        encode_data(self.as_slice(), buff)
    }

    /// Reads values until `buff` is exhausted, and returns them with the
    /// number of bytes read. More than eight values are an `Overrun`;
    /// input that does not decode is reported with the error of its item.
    pub fn decode(buff: &[u8]) -> (r: Result<(Self, usize), IotError>)
        ensures
            match parse_values(buff@, 8) {
                Ok(vs) => (r matches Ok((d, n)) && d@ == vs && n == buff@.len()),
                Err(e) => r matches Err(f) && f == e,
            },
    {
        let list = decode_data(buff, CONTAINER_CAPACITY)?;
        proof {
            lemma_parse_many_room(buff@, 8, |b: Seq<u8>| parse_value(b));
            assert(value_models(list@).len() == list@.len());
        }
        match data_from_slice(list.as_slice()) {
            Ok(v) => Ok((IotData { data: v }, buff.len())),
            Err(_) => Err(IotError::Overrun),
        }
    }
}

impl Default for IotData<8> {
    fn default() -> (r: Self)
        ensures
            r@ == Seq::<ValueModel>::empty(),
    {
        let none: [EpData; 0] = [];
        match data_from_slice(none.as_slice()) {
            Ok(v) => IotData { data: v },
            Err(_) => vstd::pervasive::unreached(),
        }
    }
}

} // verus!
