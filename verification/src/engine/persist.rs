//! Byte forms: identifiers, signatures and keys as the byte strings that
//! the wire layer and the stores use, and the pointer to the last
//! published object as a store keeps it.
use vstd::prelude::*;

use crate::engine::store::ObjectInfo;
use crate::engine::types::{Id, PrivateKey, PublicKey, SecretKey, Signature};
use crate::wire::{
    le_bytes, le_value, lemma_le_bytes_len, lemma_overwrite_append, lemma_u128_bytes,
    lemma_u16_bytes, read_u128_le, read_u16_le, u16_at, u16_bytes, write_u128_le, write_u16_le,
    zeroed,
};

verus! {

/// Two words as 32 bytes, each word lowest byte first.
pub open spec fn bytes_of_2(lo: u128, hi: u128) -> Seq<u8> {
    le_bytes(lo as nat, 16) + le_bytes(hi as nat, 16)
}

/// Four words as 64 bytes, each word lowest byte first.
pub open spec fn bytes_of_4(w0: u128, w1: u128, w2: u128, w3: u128) -> Seq<u8> {
    bytes_of_2(w0, w1) + bytes_of_2(w2, w3)
}

/// The word that sixteen bytes from `at` on hold.
pub open spec fn word_at(s: Seq<u8>, at: int) -> u128 {
    le_value(s.subrange(at, at + 16)) as u128
}

/// Two words as 32 bytes.
pub fn pack_2(lo: u128, hi: u128) -> (r: Vec<u8>)
    ensures
        r@ == bytes_of_2(lo, hi),
        r@.len() == 32,
{
    let mut out = zeroed(32);
    proof {
        lemma_le_bytes_len(lo as nat, 16);
        lemma_le_bytes_len(hi as nat, 16);
        lemma_overwrite_append(out@, 0, le_bytes(lo as nat, 16), le_bytes(hi as nat, 16));
    }
    write_u128_le(out.as_mut_slice(), 0, lo);
    write_u128_le(out.as_mut_slice(), 16, hi);
    assert(out@ =~= bytes_of_2(lo, hi));
    out
}

/// Four words as 64 bytes.
pub fn pack_4(w0: u128, w1: u128, w2: u128, w3: u128) -> (r: Vec<u8>)
    ensures
        r@ == bytes_of_4(w0, w1, w2, w3),
        r@.len() == 64,
{
    let mut out = pack_2(w0, w1);
    let mut high = pack_2(w2, w3);
    out.append(&mut high);
    out
}

/// The words of a byte string hold what was put into them.
pub proof fn lemma_words_round_trip(w0: u128, w1: u128, w2: u128, w3: u128, before: Seq<u8>, after: Seq<u8>)
    ensures
        ({
            let s = before + bytes_of_4(w0, w1, w2, w3) + after;
            let at = before.len() as int;
            &&& word_at(s, at) == w0
            &&& word_at(s, at + 16) == w1
            &&& word_at(s, at + 32) == w2
            &&& word_at(s, at + 48) == w3
        }),
        ({
            let s = before + bytes_of_2(w0, w1) + after;
            let at = before.len() as int;
            &&& word_at(s, at) == w0
            &&& word_at(s, at + 16) == w1
        }),
{
    lemma_u128_bytes(w0);
    lemma_u128_bytes(w1);
    lemma_u128_bytes(w2);
    lemma_u128_bytes(w3);
    let s = before + bytes_of_4(w0, w1, w2, w3) + after;
    let at = before.len() as int;
    assert(s.subrange(at, at + 16) =~= le_bytes(w0 as nat, 16));
    assert(s.subrange(at + 16, at + 32) =~= le_bytes(w1 as nat, 16));
    assert(s.subrange(at + 32, at + 48) =~= le_bytes(w2 as nat, 16));
    assert(s.subrange(at + 48, at + 64) =~= le_bytes(w3 as nat, 16));
    let t = before + bytes_of_2(w0, w1) + after;
    assert(t.subrange(at, at + 16) =~= le_bytes(w0 as nat, 16));
    assert(t.subrange(at + 16, at + 32) =~= le_bytes(w1 as nat, 16));
}

impl Id {
    /// The identifier as 32 bytes.
    pub open spec fn spec_bytes(&self) -> Seq<u8> {
        bytes_of_2(self.lo, self.hi)
    }

    /// The identifier that 32 bytes from `at` on are.
    pub open spec fn at(s: Seq<u8>, at: int) -> Id {
        Id { lo: word_at(s, at), hi: word_at(s, at + 16) }
    }

    /// The identifier as 32 bytes.
    pub fn to_bytes(&self) -> (r: Vec<u8>)
        ensures
            r@ == self.spec_bytes(),
            r@.len() == 32,
    {
        pack_2(self.lo, self.hi)
    }

    /// The identifier that 32 bytes are; any other number of bytes is
    /// none.
    pub fn from_bytes(b: &[u8]) -> (r: Option<Id>)
        ensures
            r == (if b@.len() == 32 {
                Some(Id::at(b@, 0))
            } else {
                None
            }),
    {
        if b.len() != 32 {
            return None;
        }
        Some(Id { lo: read_u128_le(b, 0), hi: read_u128_le(b, 16) })
    }
}

impl PublicKey {
    /// The key as 32 bytes.
    pub open spec fn spec_bytes(&self) -> Seq<u8> {
        bytes_of_2(self.lo, self.hi)
    }

    /// The key as 32 bytes.
    pub fn to_bytes(&self) -> (r: Vec<u8>)
        ensures
            r@ == self.spec_bytes(),
            r@.len() == 32,
    {
        pack_2(self.lo, self.hi)
    }

    /// The key that 32 bytes are; any other number of bytes is none.
    pub fn from_bytes(b: &[u8]) -> (r: Option<PublicKey>)
        ensures
            r == (if b@.len() == 32 {
                Some(PublicKey { lo: word_at(b@, 0), hi: word_at(b@, 16) })
            } else {
                None
            }),
    {
        if b.len() != 32 {
            return None;
        }
        Some(PublicKey { lo: read_u128_le(b, 0), hi: read_u128_le(b, 16) })
    }
}

impl SecretKey {
    /// The key as 32 bytes.
    pub open spec fn spec_bytes(&self) -> Seq<u8> {
        bytes_of_2(self.lo, self.hi)
    }

    /// The key as 32 bytes.
    pub fn to_bytes(&self) -> (r: Vec<u8>)
        ensures
            r@ == self.spec_bytes(),
            r@.len() == 32,
    {
        pack_2(self.lo, self.hi)
    }

    /// The key that 32 bytes are; any other number of bytes is none.
    pub fn from_bytes(b: &[u8]) -> (r: Option<SecretKey>)
        ensures
            r == (if b@.len() == 32 {
                Some(SecretKey { lo: word_at(b@, 0), hi: word_at(b@, 16) })
            } else {
                None
            }),
    {
        if b.len() != 32 {
            return None;
        }
        Some(SecretKey { lo: read_u128_le(b, 0), hi: read_u128_le(b, 16) })
    }
}

impl Signature {
    /// The signature as 64 bytes.
    pub open spec fn spec_bytes(&self) -> Seq<u8> {
        bytes_of_4(self.w0, self.w1, self.w2, self.w3)
    }

    /// The signature that 64 bytes from `at` on are.
    pub open spec fn at(s: Seq<u8>, at: int) -> Signature {
        Signature {
            w0: word_at(s, at),
            w1: word_at(s, at + 16),
            w2: word_at(s, at + 32),
            w3: word_at(s, at + 48),
        }
    }

    /// The signature as 64 bytes.
    pub fn to_bytes(&self) -> (r: Vec<u8>)
        ensures
            r@ == self.spec_bytes(),
            r@.len() == 64,
    {
        pack_4(self.w0, self.w1, self.w2, self.w3)
    }

    /// The signature that 64 bytes are; any other number of bytes is
    /// none.
    pub fn from_bytes(b: &[u8]) -> (r: Option<Signature>)
        ensures
            r == (if b@.len() == 64 {
                Some(Signature::at(b@, 0))
            } else {
                None
            }),
    {
        if b.len() != 64 {
            return None;
        }
        Some(
            Signature {
                w0: read_u128_le(b, 0),
                w1: read_u128_le(b, 16),
                w2: read_u128_le(b, 32),
                w3: read_u128_le(b, 48),
            },
        )
    }
}

impl PrivateKey {
    /// The key as 64 bytes.
    pub open spec fn spec_bytes(&self) -> Seq<u8> {
        bytes_of_4(self.w0, self.w1, self.w2, self.w3)
    }

    /// The key as 64 bytes.
    pub fn to_bytes(&self) -> (r: Vec<u8>)
        ensures
            r@ == self.spec_bytes(),
            r@.len() == 64,
    {
        pack_4(self.w0, self.w1, self.w2, self.w3)
    }

    /// The key that 64 bytes are; any other number of bytes is none.
    pub fn from_bytes(b: &[u8]) -> (r: Option<PrivateKey>)
        ensures
            r == (if b@.len() == 64 {
                Some(
                    PrivateKey {
                        w0: word_at(b@, 0),
                        w1: word_at(b@, 16),
                        w2: word_at(b@, 32),
                        w3: word_at(b@, 48),
                    },
                )
            } else {
                None
            }),
    {
        if b.len() != 64 {
            return None;
        }
        Some(
            PrivateKey {
                w0: read_u128_le(b, 0),
                w1: read_u128_le(b, 16),
                w2: read_u128_le(b, 32),
                w3: read_u128_le(b, 48),
            },
        )
    }
}

/// Length of the pointer to the last object as a store keeps it.
pub const OBJECT_INFO_LEN: usize = 68;

impl ObjectInfo {
    /// The pointer as a store keeps it: the index of the primary page
    /// and the index of the object, each 16-bit little-endian, and the
    /// signature.
    pub open spec fn spec_bytes(&self) -> Seq<u8> {
        u16_bytes(self.page_index) + u16_bytes(self.block_index) + self.sig.spec_bytes()
    }

    /// The pointer that 68 bytes are.
    pub open spec fn parse(s: Seq<u8>) -> Option<ObjectInfo> {
        if s.len() == 68 {
            Some(
                ObjectInfo {
                    page_index: u16_at(s, 0),
                    block_index: u16_at(s, 2),
                    sig: Signature::at(s, 4),
                },
            )
        } else {
            None
        }
    }

    /// The pointer as a store keeps it.
    pub fn encode(&self) -> (r: Vec<u8>)
        ensures
            r@ == self.spec_bytes(),
            r@.len() == 68,
    {
        let mut out = zeroed(4);
        write_u16_le(out.as_mut_slice(), 0, self.page_index);
        write_u16_le(out.as_mut_slice(), 2, self.block_index);
        assert(out@ =~= u16_bytes(self.page_index) + u16_bytes(self.block_index));
        let mut sig = self.sig.to_bytes();
        out.append(&mut sig);
        out
    }

    /// The pointer that a store kept; anything but 68 bytes is none.
    pub fn decode(b: &[u8]) -> (r: Option<ObjectInfo>)
        ensures
            r == ObjectInfo::parse(b@),
    {
        if b.len() != OBJECT_INFO_LEN {
            return None;
        }
        Some(
            ObjectInfo {
                page_index: read_u16_le(b, 0),
                block_index: read_u16_le(b, 2),
                sig: Signature {
                    w0: read_u128_le(b, 4),
                    w1: read_u128_le(b, 20),
                    w2: read_u128_le(b, 36),
                    w3: read_u128_le(b, 52),
                },
            },
        )
    }
}

/// An identifier is the one that its bytes are.
pub proof fn lemma_id_round_trip(id: Id)
    ensures
        id.spec_bytes().len() == 32,
        Id::at(id.spec_bytes(), 0) == id,
{
    lemma_words_round_trip(id.lo, id.hi, 0, 0, Seq::empty(), Seq::empty());
    lemma_le_bytes_len(id.lo as nat, 16);
    lemma_le_bytes_len(id.hi as nat, 16);
    assert(Seq::<u8>::empty() + id.spec_bytes() + Seq::<u8>::empty() =~= id.spec_bytes());
}

/// A signature is the one that its bytes are.
pub proof fn lemma_signature_round_trip(sig: Signature)
    ensures
        sig.spec_bytes().len() == 64,
        Signature::at(sig.spec_bytes(), 0) == sig,
{
    lemma_words_round_trip(sig.w0, sig.w1, sig.w2, sig.w3, Seq::empty(), Seq::empty());
    lemma_le_bytes_len(sig.w0 as nat, 16);
    lemma_le_bytes_len(sig.w1 as nat, 16);
    lemma_le_bytes_len(sig.w2 as nat, 16);
    lemma_le_bytes_len(sig.w3 as nat, 16);
    assert(Seq::<u8>::empty() + sig.spec_bytes() + Seq::<u8>::empty() =~= sig.spec_bytes());
}

/// The pointer to the last object is the one that a store reads back
/// from what it kept.
pub proof fn lemma_object_info_round_trip(info: ObjectInfo)
    ensures
        ObjectInfo::parse(info.spec_bytes()) == Some::<ObjectInfo>(info),
{
    let head = u16_bytes(info.page_index) + u16_bytes(info.block_index);
    let s = info.spec_bytes();
    lemma_u16_bytes(info.page_index);
    lemma_u16_bytes(info.block_index);
    lemma_le_bytes_len(info.sig.w0 as nat, 16);
    lemma_le_bytes_len(info.sig.w1 as nat, 16);
    lemma_le_bytes_len(info.sig.w2 as nat, 16);
    lemma_le_bytes_len(info.sig.w3 as nat, 16);
    lemma_words_round_trip(info.sig.w0, info.sig.w1, info.sig.w2, info.sig.w3, head, Seq::empty());
    assert(head + info.sig.spec_bytes() + Seq::<u8>::empty() =~= s);
    assert(u16_at(s, 0) == info.page_index);
    assert(u16_at(s, 2) == info.block_index);
}

} // verus!
