//! Lists of options on the wire: the encoding of a list is the
//! concatenation of the encodings of its items, and decoding takes items
//! until the input is exhausted.
use vstd::prelude::*;

use crate::error::{CoreError, IotError};

verus! {

/// The encodings of the items, one after the other.
pub open spec fn concat_bytes<V>(items: Seq<V>, enc: spec_fn(V) -> Seq<u8>) -> Seq<u8>
    decreases items.len(),
{
    if items.len() == 0 {
        Seq::<u8>::empty()
    } else {
        concat_bytes(items.drop_last(), enc) + enc(items.last())
    }
}

/// `items` followed by what `rest` holds, or the error of `rest`.
pub open spec fn prepend<V>(items: Seq<V>, rest: Result<Seq<V>, IotError>) -> Result<
    Seq<V>,
    IotError,
> {
    match rest {
        Ok(more) => Ok(items + more),
        Err(e) => Err(e),
    }
}

/// The items that decoding finds in `s`, taking one after the other with
/// `dec` until nothing is left. The first item that cannot be decoded
/// ends it with that item's error; an item beyond `room` ends it with
/// `Overrun`.
pub open spec fn parse_many<V>(
    s: Seq<u8>,
    room: nat,
    dec: spec_fn(Seq<u8>) -> Result<(V, nat), IotError>,
) -> Result<Seq<V>, IotError>
    decreases s.len(),
{
    if s.len() == 0 {
        Ok(Seq::<V>::empty())
    } else {
        match dec(s) {
            Err(e) => Err(e),
            Ok((item, n)) => if n == 0 || n > s.len() {
                Err(IotError::Core(CoreError::InvalidOption))
            } else if room == 0 {
                Err(IotError::Overrun)
            } else {
                prepend(seq![item], parse_many(s.subrange(n as int, s.len() as int), (room - 1) as nat, dec))
            },
        }
    }
}

/// Whether `dec` undoes `enc` on an item, whatever follows its encoding,
/// and the encoding is not empty.
pub open spec fn inverts<V>(
    item: V,
    enc: spec_fn(V) -> Seq<u8>,
    dec: spec_fn(Seq<u8>) -> Result<(V, nat), IotError>,
) -> bool {
    &&& enc(item).len() > 0
    &&& forall|rest: Seq<u8>| #[trigger]
        dec(enc(item) + rest) == Ok::<(V, nat), IotError>((item, enc(item).len()))
}

/// Putting an item in front of the rest and the items before it in front
/// of that is putting the items with it at their end in front of the rest.
pub proof fn lemma_prepend_push<V>(items: Seq<V>, item: V, rest: Result<Seq<V>, IotError>)
    ensures
        prepend(items, prepend(seq![item], rest)) == prepend(items.push(item), rest),
{
    match rest {
        Ok(more) => {
            assert(items + (seq![item] + more) == items.push(item) + more);
        },
        Err(_) => {},
    }
}

/// Putting items in front of nothing gives the items.
pub proof fn lemma_prepend_nothing<V>(items: Seq<V>)
    ensures
        prepend(items, Ok::<Seq<V>, IotError>(Seq::<V>::empty())) == Ok::<Seq<V>, IotError>(items),
{
    assert(items + Seq::<V>::empty() == items);
}

/// What decoding finds is never more than the room allows.
pub proof fn lemma_parse_many_room<V>(
    s: Seq<u8>,
    room: nat,
    dec: spec_fn(Seq<u8>) -> Result<(V, nat), IotError>,
)
    ensures
        parse_many(s, room, dec) matches Ok(items) ==> items.len() <= room,
    decreases s.len(),
{
    if s.len() > 0 {
        match dec(s) {
            Err(_) => {},
            Ok((_, n)) => {
                if !(n == 0 || n > s.len()) && room > 0 {
                    lemma_parse_many_room(s.subrange(n as int, s.len() as int), (room - 1) as nat, dec);
                }
            },
        }
    }
}

/// The encoding of a list with one more item in front.
pub proof fn lemma_concat_front<V>(item: V, items: Seq<V>, enc: spec_fn(V) -> Seq<u8>)
    ensures
        concat_bytes(seq![item] + items, enc) == enc(item) + concat_bytes(items, enc),
    decreases items.len(),
{
    let all = seq![item] + items;
    if items.len() == 0 {
        assert(all.drop_last() == Seq::<V>::empty());
        assert(concat_bytes(all.drop_last(), enc) == Seq::<u8>::empty());
        assert(concat_bytes(all, enc) == Seq::<u8>::empty() + enc(item));
        assert(enc(item) + concat_bytes(items, enc) == concat_bytes(all, enc));
    } else {
        assert(all.drop_last() == seq![item] + items.drop_last());
        assert(all.last() == items.last());
        lemma_concat_front(item, items.drop_last(), enc);
        assert(concat_bytes(all, enc) == (enc(item) + concat_bytes(items.drop_last(), enc)) + enc(
            items.last(),
        ));
        assert(concat_bytes(all, enc) == enc(item) + concat_bytes(items, enc));
    }
}

/// The encoding of a list with one more item at the end.
pub proof fn lemma_concat_push<V>(items: Seq<V>, item: V, enc: spec_fn(V) -> Seq<u8>)
    ensures
        concat_bytes(items.push(item), enc) == concat_bytes(items, enc) + enc(item),
{
    assert(items.push(item).drop_last() == items);
}

/// Decoding the encoding of a list gives the list back, where each item
/// by itself is decoded as it was encoded and the list fits the room.
pub proof fn lemma_list_round_trip<V>(
    items: Seq<V>,
    room: nat,
    enc: spec_fn(V) -> Seq<u8>,
    dec: spec_fn(Seq<u8>) -> Result<(V, nat), IotError>,
)
    requires
        items.len() <= room,
        forall|i: int| 0 <= i < items.len() ==> inverts(#[trigger] items[i], enc, dec),
    ensures
        parse_many(concat_bytes(items, enc), room, dec) == Ok::<Seq<V>, IotError>(items),
    decreases items.len(),
{
    if items.len() == 0 {
        assert(items == Seq::<V>::empty());
    } else {
        let first = items[0];
        let tail = items.drop_first();
        assert(items == seq![first] + tail);
        lemma_concat_front(first, tail, enc);
        let s = concat_bytes(items, enc);
        let rest = concat_bytes(tail, enc);
        assert(s == enc(first) + rest);
        assert(inverts(first, enc, dec));
        assert(dec(enc(first) + rest) == Ok::<(V, nat), IotError>((first, enc(first).len())));
        assert(s.subrange(enc(first).len() as int, s.len() as int) == rest);
        assert forall|i: int| 0 <= i < tail.len() implies inverts(#[trigger] tail[i], enc, dec) by {
            assert(tail[i] == items[i + 1]);
        }
        lemma_list_round_trip(tail, (room - 1) as nat, enc, dec);
    }
}

} // verus!
