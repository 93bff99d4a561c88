//! The endpoint data model: kinds, descriptors and values, and the two
//! bodies built from them, [`IotInfo`] and [`IotData`].
use vstd::prelude::*;

pub mod container;
pub mod data;
pub mod desc;
pub mod iot_option_kinds;
pub mod kinds;
pub mod list;
pub mod value;

pub use container::{IotData, IotInfo};
pub use data::{parse_endpoint_data, EpData};
pub use desc::{parse_endpoint_descriptor, EpDescriptor, EpFlags};
pub use kinds::{parse_endpoint_kind, select_endpoint_kind, EpKind};
pub use value::{select_endpoint_value, EpValue, ValueModel};

use crate::endpoint::data::{lemma_value_round_trip, parse_value, value_bytes};
use crate::endpoint::desc::{
    descriptor_bytes, descriptor_canonical, lemma_descriptor_round_trip, parse_descriptor,
};
use crate::endpoint::list::{
    concat_bytes, inverts, lemma_concat_push, lemma_list_round_trip, lemma_prepend_nothing,
    lemma_prepend_push, parse_many, prepend,
};
use crate::error::{CoreError, IotError};
use crate::wire::{lemma_overwrite_append, overwrite};

verus! {

/// The encoding of a list of descriptors.
pub open spec fn descriptors_bytes(ds: Seq<EpDescriptor>) -> Seq<u8> {
    concat_bytes(ds, |d: EpDescriptor| descriptor_bytes(d))
}

/// The descriptors that decoding finds in `s`, at most `room` of them.
pub open spec fn parse_descriptors(s: Seq<u8>, room: nat) -> Result<Seq<EpDescriptor>, IotError> {
    parse_many(s, room, |b: Seq<u8>| parse_descriptor(b))
}

/// The encoding of a list of values.
pub open spec fn values_bytes(vs: Seq<ValueModel>) -> Seq<u8> {
    concat_bytes(vs, |v: ValueModel| value_bytes(v))
}

/// The values that decoding finds in `s`, at most `room` of them.
pub open spec fn parse_values(s: Seq<u8>, room: nat) -> Result<Seq<ValueModel>, IotError> {
    parse_many(s, room, |b: Seq<u8>| parse_value(b))
}

/// The values that a list of endpoint data holds.
pub open spec fn value_models(data: Seq<EpData>) -> Seq<ValueModel> {
    data.map_values(|d: EpData| d.value@)
}

/// A list of descriptors takes eight bytes for each.
pub proof fn lemma_descriptors_bytes_len(ds: Seq<EpDescriptor>)
    ensures
        descriptors_bytes(ds).len() == 8 * ds.len(),
    decreases ds.len(),
{
    if ds.len() > 0 {
        lemma_descriptors_bytes_len(ds.drop_last());
    }
}

/// The encoding of the first `n` values is no longer than that of all.
pub proof fn lemma_values_bytes_prefix(vs: Seq<ValueModel>, n: int)
    requires
        0 <= n <= vs.len(),
    ensures
        values_bytes(vs.subrange(0, n)).len() <= values_bytes(vs).len(),
    decreases vs.len() - n,
{
    if n < vs.len() {
        lemma_values_bytes_prefix(vs, n + 1);
        let longer = vs.subrange(0, n + 1);
        assert(longer.drop_last() == vs.subrange(0, n));
    } else {
        assert(vs.subrange(0, n) == vs);
    }
}

/// Writes the descriptors to the start of `buff`, one after the other,
/// and returns the number of bytes written. A buffer that cannot hold
/// them all is left as it is and reported as `BufferLength`.
pub fn encode_descriptors(items: &[EpDescriptor], buff: &mut [u8]) -> (r: Result<usize, IotError>)
    ensures
        descriptors_bytes(items@).len() <= old(buff)@.len() ==> r == Ok::<usize, IotError>(
            descriptors_bytes(items@).len() as usize,
        ) && final(buff)@ == overwrite(old(buff)@, 0, descriptors_bytes(items@)),
        descriptors_bytes(items@).len() > old(buff)@.len() ==> r == Err::<usize, IotError>(
            IotError::Core(CoreError::BufferLength),
        ) && final(buff)@ == old(buff)@,
{
    let count = items.len();
    let total = buff.len();
    proof {
        lemma_descriptors_bytes_len(items@);
    }
    if count > total / 8 {
        return Err(IotError::Core(CoreError::BufferLength));
    }
    let mut i: usize = 0;
    assert(items@.subrange(0, 0) == Seq::<EpDescriptor>::empty());
    assert(buff@ == overwrite(old(buff)@, 0, Seq::<u8>::empty()));
    while i < count
        invariant
            count == items@.len(),
            total == buff@.len(),
            total == old(buff)@.len(),
            8 * count <= total,
            i <= count,
            buff@ == overwrite(old(buff)@, 0, descriptors_bytes(items@.subrange(0, i as int))),
        decreases count - i,
    {
        let ghost done = items@.subrange(0, i as int);
        proof {
            lemma_descriptors_bytes_len(done);
            lemma_concat_push(done, items@[i as int], |d: EpDescriptor| descriptor_bytes(d));
            assert(done.push(items@[i as int]) == items@.subrange(0, i + 1));
            lemma_overwrite_append(
                old(buff)@,
                0,
                descriptors_bytes(done),
                descriptor_bytes(items@[i as int]),
            );
        }
        let _ = items[i].encode_at(buff, 8 * i);
        i = i + 1;
    }
    assert(items@.subrange(0, count as int) == items@);
    Ok(8 * count)
}

/// Reads descriptors from `buff` until it is exhausted. Input that does
/// not decode is reported with the error of the item that failed; more
/// than `room` descriptors are an `Overrun`.
pub fn decode_descriptors(buff: &[u8], room: usize) -> (r: Result<Vec<EpDescriptor>, IotError>)
    ensures
        match parse_descriptors(buff@, room as nat) {
            Ok(ds) => (r matches Ok(v) && v@ == ds),
            Err(e) => r == Err::<Vec<EpDescriptor>, IotError>(e),
        },
{
    let total = buff.len();
    let mut out: Vec<EpDescriptor> = Vec::new();
    let mut index: usize = 0;
    assert(buff@.subrange(0, total as int) == buff@);
    while index < total
        invariant
            total == buff@.len(),
            index <= total,
            out@.len() <= room,
            parse_descriptors(buff@, room as nat) == prepend(
                out@,
                parse_descriptors(
                    buff@.subrange(index as int, total as int),
                    (room - out@.len()) as nat,
                ),
            ),
        decreases total - index,
    {
        let ghost rest = buff@.subrange(index as int, total as int);
        let tail = vstd::slice::slice_subrange(buff, index, total);
        match EpDescriptor::decode(tail) {
            Err(e) => {
                return Err(e);
            },
            Ok((d, n)) => {
                if out.len() >= room {
                    return Err(IotError::Overrun);
                }
                proof {
                    assert(rest.subrange(n as int, rest.len() as int) == buff@.subrange(
                        index + n,
                        total as int,
                    ));
                    lemma_prepend_push(
                        out@,
                        d,
                        parse_descriptors(
                            buff@.subrange(index + n, total as int),
                            (room - out@.len() - 1) as nat,
                        ),
                    );
                }
                out.push(d);
                index = index + n;
            },
        }
    }
    proof {
        lemma_prepend_nothing(out@);
    }
    Ok(out)
}

/// Writes the values to the start of `buff`, one after the other, and
/// returns the number of bytes written. A buffer that cannot hold them
/// all is left as it is and reported as `BufferLength`.
pub fn encode_data(items: &[EpData], buff: &mut [u8]) -> (r: Result<usize, IotError>)
    ensures
        values_bytes(value_models(items@)).len() <= old(buff)@.len() ==> r == Ok::<usize, IotError>(
            values_bytes(value_models(items@)).len() as usize,
        ) && final(buff)@ == overwrite(old(buff)@, 0, values_bytes(value_models(items@))),
        values_bytes(value_models(items@)).len() > old(buff)@.len() ==> r == Err::<usize, IotError>(
            IotError::Core(CoreError::BufferLength),
        ) && final(buff)@ == old(buff)@,
{
    let count = items.len();
    let total = buff.len();
    let ghost models = value_models(items@);
    // The length of the whole, found before anything is written.
    let mut need: usize = 0;
    let mut k: usize = 0;
    assert(models.subrange(0, 0) == Seq::<ValueModel>::empty());
    while k < count
        invariant
            count == items@.len(),
            models == value_models(items@),
            k <= count,
            need == values_bytes(models.subrange(0, k as int)).len(),
            need <= total,
            total == old(buff)@.len(),
            buff@ == old(buff)@,
        decreases count - k,
    {
        proof {
            lemma_concat_push(models.subrange(0, k as int), models[k as int], |v: ValueModel| value_bytes(v));
            assert(models.subrange(0, k as int).push(models[k as int]) == models.subrange(0, k + 1));
            lemma_values_bytes_prefix(models, k + 1);
        }
        let n = items[k].encode_len();
        assert(models[k as int] == items@[k as int].value@);
        if n > total - need {
            return Err(IotError::Core(CoreError::BufferLength));
        }
        need = need + n;
        k = k + 1;
    }
    assert(models.subrange(0, count as int) == models);
    let mut i: usize = 0;
    let mut index: usize = 0;
    assert(buff@ == overwrite(old(buff)@, 0, Seq::<u8>::empty()));
    while i < count
        invariant
            count == items@.len(),
            models == value_models(items@),
            total == buff@.len(),
            total == old(buff)@.len(),
            values_bytes(models).len() <= total,
            i <= count,
            index == values_bytes(models.subrange(0, i as int)).len(),
            buff@ == overwrite(old(buff)@, 0, values_bytes(models.subrange(0, i as int))),
        decreases count - i,
    {
        let ghost done = models.subrange(0, i as int);
        proof {
            lemma_concat_push(done, models[i as int], |v: ValueModel| value_bytes(v));
            assert(done.push(models[i as int]) == models.subrange(0, i + 1));
            lemma_values_bytes_prefix(models, i + 1);
            lemma_overwrite_append(old(buff)@, 0, values_bytes(done), value_bytes(models[i as int]));
        }
        assert(models[i as int] == items@[i as int].value@);
        match items[i].encode_at(buff, index) {
            Ok(n) => {
                index = index + n;
            },
            Err(e) => {
                return Err(e);
            },
        }
        i = i + 1;
    }
    Ok(index)
}

/// Reads values from `buff` until it is exhausted. Input that does not
/// decode is reported with the error of the item that failed; more than
/// `room` values are an `Overrun`.
pub fn decode_data(buff: &[u8], room: usize) -> (r: Result<Vec<EpData>, IotError>)
    ensures
        match parse_values(buff@, room as nat) {
            Ok(vs) => (r matches Ok(v) && value_models(v@) == vs),
            Err(e) => r == Err::<Vec<EpData>, IotError>(e),
        },
{
    let total = buff.len();
    let mut out: Vec<EpData> = Vec::new();
    let mut index: usize = 0;
    assert(buff@.subrange(0, total as int) == buff@);
    assert(value_models(out@) == Seq::<ValueModel>::empty());
    while index < total
        invariant
            total == buff@.len(),
            index <= total,
            out@.len() <= room,
            parse_values(buff@, room as nat) == prepend(
                value_models(out@),
                parse_values(buff@.subrange(index as int, total as int), (room - out@.len()) as nat),
            ),
        decreases total - index,
    {
        let ghost rest = buff@.subrange(index as int, total as int);
        let tail = vstd::slice::slice_subrange(buff, index, total);
        match EpData::decode(tail) {
            Err(e) => {
                return Err(e);
            },
            Ok((d, n)) => {
                if out.len() >= room {
                    return Err(IotError::Overrun);
                }
                proof {
                    assert(rest.subrange(n as int, rest.len() as int) == buff@.subrange(
                        index + n,
                        total as int,
                    ));
                    lemma_prepend_push(
                        value_models(out@),
                        d.value@,
                        parse_values(
                            buff@.subrange(index + n, total as int),
                            (room - out@.len() - 1) as nat,
                        ),
                    );
                    assert(value_models(out@.push(d)) == value_models(out@).push(d.value@));
                }
                out.push(d);
                index = index + n;
            },
        }
    }
    proof {
        lemma_prepend_nothing(value_models(out@));
    }
    Ok(out)
}

/// Decoding the encoding of a list of descriptors gives the list back,
/// where the room suffices.
pub proof fn lemma_descriptors_round_trip(ds: Seq<EpDescriptor>, room: nat)
    requires
        ds.len() <= room,
        forall|i: int| 0 <= i < ds.len() ==> descriptor_canonical(#[trigger] ds[i]),
    ensures
        parse_descriptors(descriptors_bytes(ds), room) == Ok::<Seq<EpDescriptor>, IotError>(ds),
{
    let enc = |d: EpDescriptor| descriptor_bytes(d);
    let dec = |b: Seq<u8>| parse_descriptor(b);
    assert forall|i: int| 0 <= i < ds.len() implies inverts(#[trigger] ds[i], enc, dec) by {
        assert forall|rest: Seq<u8>| #[trigger]
            dec(enc(ds[i]) + rest) == Ok::<(EpDescriptor, nat), IotError>(
                (ds[i], enc(ds[i]).len()),
            ) by {
            lemma_descriptor_round_trip(ds[i], rest);
        }
    }
    lemma_list_round_trip(ds, room, enc, dec);
}

/// Decoding the encoding of a list of values gives the list back, where
/// the room suffices.
pub proof fn lemma_values_round_trip(vs: Seq<ValueModel>, room: nat)
    requires
        vs.len() <= room,
        forall|i: int| 0 <= i < vs.len() ==> (#[trigger] vs[i]).wf(),
    ensures
        parse_values(values_bytes(vs), room) == Ok::<Seq<ValueModel>, IotError>(vs),
{
    let enc = |v: ValueModel| value_bytes(v);
    let dec = |b: Seq<u8>| parse_value(b);
    assert forall|i: int| 0 <= i < vs.len() implies inverts(#[trigger] vs[i], enc, dec) by {
        assert forall|rest: Seq<u8>| #[trigger]
            dec(enc(vs[i]) + rest) == Ok::<(ValueModel, nat), IotError>((vs[i], enc(vs[i]).len())) by {
            lemma_value_round_trip(vs[i], rest);
        }
    }
    lemma_list_round_trip(vs, room, enc, dec);
}

} // verus!
