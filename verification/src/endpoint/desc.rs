//! Endpoint descriptors and their encoding as a single option.
use vstd::prelude::*;

use crate::endpoint::iot_option_kinds::{ENDPOINT_DESCRIPTOR, ENDPOINT_DESCRIPTOR_LEN};
use crate::endpoint::kinds::{
    kind_of_code, kind_selection, lowercased, parse_endpoint_kind, parsed_u16, EpKind,
};
use crate::error::{CoreError, IotError};
use crate::wire::{lemma_u16_bytes, overwrite, read_u16_le, u16_at, u16_bytes, write_u16_le};

verus! {

/// Access flags of an endpoint: a set over read (bit 0) and write (bit 1).
#[derive(Debug, Clone, Copy, PartialEq, Eq, Structural)]
pub struct EpFlags {
    bits: u16,
}

impl EpFlags {
    /// The endpoint can be read.
    pub fn r() -> (r: EpFlags)
        ensures
            r.spec_bits() == 1,
    {
        EpFlags { bits: 1 }
    }

    /// The endpoint can be written.
    pub fn w() -> (r: EpFlags)
        ensures
            r.spec_bits() == 2,
    {
        EpFlags { bits: 2 }
    }

    /// The endpoint can be read and written.
    pub fn rw() -> (r: EpFlags)
        ensures
            r.spec_bits() == 3,
    {
        EpFlags { bits: 3 }
    }

    /// The flags as a number.
    pub closed spec fn spec_bits(&self) -> u16 {
        self.bits
    }

    /// Only the two known bits are set.
    pub open spec fn wf(&self) -> bool {
        self.spec_bits() < 4
    }

    /// The flags with the given bits, without the unknown ones.
    pub closed spec fn truncated(raw: u16) -> EpFlags {
        EpFlags { bits: raw % 4 }
    }

    /// No flag.
    pub fn empty() -> (r: EpFlags)
        ensures
            r.spec_bits() == 0,
    {
        EpFlags { bits: 0 }
    }

    /// Every flag.
    pub fn all() -> (r: EpFlags)
        ensures
            r.spec_bits() == 3,
    {
        EpFlags { bits: 3 }
    }

    /// The flags as a number.
    pub fn bits(&self) -> (r: u16)
        ensures
            r == self.spec_bits(),
    {
        self.bits
    }

    /// The flags with exactly the given bits, if all of them are known.
    pub fn from_bits(raw: u16) -> (r: Option<EpFlags>)
        ensures
            raw < 4 ==> (r matches Some(f) && f.spec_bits() == raw),
            raw >= 4 ==> r is None,
    {
        if raw < 4 {
            Some(EpFlags { bits: raw })
        } else {
            None
        }
    }

    /// The flags with the given bits, unknown bits dropped.
    pub fn from_bits_truncate(raw: u16) -> (r: EpFlags)
        ensures
            r == EpFlags::truncated(raw),
            r.wf(),
    {
        assert(raw & 3 == raw % 4) by (bit_vector);
        EpFlags { bits: raw & 3 }
    }

    /// Whether no flag is set.
    pub fn is_empty(&self) -> (r: bool)
        ensures
            r == (self.spec_bits() == 0),
    {
        self.bits == 0
    }

    /// Whether every flag of `other` is set in `self`.
    pub fn contains(&self, other: EpFlags) -> (r: bool)
        ensures
            r == (self.spec_bits() & other.spec_bits() == other.spec_bits()),
    {
        self.bits & other.bits == other.bits
    }

    /// Unknown bits are dropped and known bits kept: the low two bits.
    pub proof fn lemma_truncated(raw: u16)
        ensures
            EpFlags::truncated(raw).spec_bits() == raw % 4,
            EpFlags::truncated(raw).wf(),
    {
    }

    /// Flags are equal when their bits are.
    pub proof fn lemma_bits_equal(a: EpFlags, b: EpFlags)
        requires
            a.spec_bits() == b.spec_bits(),
        ensures
            a == b,
    {
    }
}

/// An endpoint descriptor: the kind of an endpoint and how it can be
/// accessed.
#[derive(Debug, Clone, Copy, PartialEq, Eq, Structural)]
pub struct EpDescriptor {
    /// Endpoint kind.
    pub kind: EpKind,
    /// Endpoint flags.
    pub flags: EpFlags,
}

/// Length of an encoded descriptor: header and payload.
pub const DESCRIPTOR_ENCODED_LEN: usize = 8;

/// The encoding of a descriptor: option kind, payload length 4, the code
/// of the endpoint kind and the flags, each 16-bit little-endian.
pub open spec fn descriptor_bytes(d: EpDescriptor) -> Seq<u8> {
    u16_bytes(ENDPOINT_DESCRIPTOR) + u16_bytes(4) + u16_bytes(d.kind.spec_code()) + u16_bytes(
        d.flags.spec_bits(),
    )
}

/// What decoding finds at the start of `s`: a descriptor and the number
/// of bytes it takes, or the reason why there is none.
pub open spec fn parse_descriptor(s: Seq<u8>) -> Result<(EpDescriptor, nat), IotError> {
    if s.len() < 4 {
        Err(IotError::Core(CoreError::InvalidOption))
    } else if u16_at(s, 0) != ENDPOINT_DESCRIPTOR {
        Err(IotError::Core(CoreError::InvalidOption))
    } else if u16_at(s, 2) < 4 || s.len() < 4 + u16_at(s, 2) {
        Err(IotError::Core(CoreError::InvalidOption))
    } else {
        Ok(
            (
                EpDescriptor {
                    kind: kind_of_code(u16_at(s, 4)),
                    flags: EpFlags::truncated(u16_at(s, 6)),
                },
                (4 + u16_at(s, 2)) as nat,
            ),
        )
    }
}

impl EpDescriptor {
    pub fn new(kind: EpKind, flags: EpFlags) -> (r: EpDescriptor)
        ensures
            r.kind == kind,
            r.flags == flags,
    {
        EpDescriptor { kind, flags }
    }

    /// Number of bytes that [`EpDescriptor::encode`] writes.
    pub fn encode_len(&self) -> (r: usize)
        ensures
            r == 8,
            r == descriptor_bytes(*self).len(),
    {
        DESCRIPTOR_ENCODED_LEN
    }

    /// Writes the descriptor to the start of `data` and returns the
    /// number of bytes written. A buffer of fewer than eight bytes is
    /// left as it is and reported as `BufferLength`.
    pub fn encode(&self, data: &mut [u8]) -> (r: Result<usize, IotError>)
        ensures
            old(data)@.len() >= 8 ==> r == Ok::<usize, IotError>(8) && final(data)@ == overwrite(
                old(data)@,
                0,
                descriptor_bytes(*self),
            ),
            old(data)@.len() < 8 ==> r == Err::<usize, IotError>(
                IotError::Core(CoreError::BufferLength),
            ) && final(data)@ == old(data)@,
    {
        self.encode_at(data, 0)
    }

    /// Writes the descriptor into `data` from offset `at` on and returns
    /// the number of bytes written. Where fewer than eight bytes are left
    /// from `at` on, the buffer is left as it is and `BufferLength` reported.
    pub fn encode_at(&self, data: &mut [u8], at: usize) -> (r: Result<usize, IotError>)
        ensures
            at + 8 <= old(data)@.len() ==> r == Ok::<usize, IotError>(8) && final(data)@
                == overwrite(old(data)@, at as int, descriptor_bytes(*self)),
            at + 8 > old(data)@.len() ==> r == Err::<usize, IotError>(
                IotError::Core(CoreError::BufferLength),
            ) && final(data)@ == old(data)@,
    {
        if data.len() < DESCRIPTOR_ENCODED_LEN || data.len() - DESCRIPTOR_ENCODED_LEN < at {
            return Err(IotError::Core(CoreError::BufferLength));
        }
        write_u16_le(data, at, ENDPOINT_DESCRIPTOR);
        write_u16_le(data, at + 2, ENDPOINT_DESCRIPTOR_LEN as u16);
        write_u16_le(data, at + 4, self.kind.code());
        write_u16_le(data, at + 6, self.flags.bits());
        assert(data@ == overwrite(old(data)@, at as int, descriptor_bytes(*self)));
        Ok(DESCRIPTOR_ENCODED_LEN)
    }

    /// Reads a descriptor from the start of `buff` and returns it with
    /// the number of bytes it took. Input that is cut short or starts
    /// with another option kind is an `InvalidOption`.
    pub fn decode(buff: &[u8]) -> (r: Result<(EpDescriptor, usize), IotError>)
        ensures
            match parse_descriptor(buff@) {
                Ok((d, n)) => r == Ok::<(EpDescriptor, usize), IotError>((d, n as usize)),
                Err(e) => r == Err::<(EpDescriptor, usize), IotError>(e),
            },
    {
        if buff.len() < 4 {
            return Err(IotError::Core(CoreError::InvalidOption));
        }
        let option_kind = read_u16_le(buff, 0);
        if option_kind != ENDPOINT_DESCRIPTOR {
            return Err(IotError::Core(CoreError::InvalidOption));
        }
        let len = read_u16_le(buff, 2) as usize;
        if len < ENDPOINT_DESCRIPTOR_LEN || buff.len() - 4 < len {
            return Err(IotError::Core(CoreError::InvalidOption));
        }
        let kind = EpKind::from_code(read_u16_le(buff, 4));
        let flags = EpFlags::from_bits_truncate(read_u16_le(buff, 6));
        Ok((EpDescriptor { kind, flags }, len + 4))
    }
}

/// Parses a descriptor from the text of an endpoint kind; it has no flags.
pub fn parse_endpoint_descriptor(src: &str) -> (r: Result<EpDescriptor, IotError>)
    ensures
        match kind_selection(lowercased(lowercased(src@)), parsed_u16(lowercased(src@))) {
            Ok(k) => (r matches Ok(d) && d.kind == k && d.flags.spec_bits() == 0),
            Err(e) => r == Err::<EpDescriptor, IotError>(e),
        },
{
    match parse_endpoint_kind(src) {
        Ok(kind) => Ok(EpDescriptor::new(kind, EpFlags::empty())),
        Err(e) => Err(e),
    }
}

/// Whether decoding gives this descriptor back: its flags hold known bits
/// only, and its kind is not an unknown one under the code of a known one.
pub open spec fn descriptor_canonical(d: EpDescriptor) -> bool {
    &&& d.flags.wf()
    &&& !(d.kind matches EpKind::Unknown(v) && 1 <= v <= 7)
}

/// An encoded descriptor is eight bytes long.
pub proof fn lemma_descriptor_bytes_len(d: EpDescriptor)
    ensures
        descriptor_bytes(d).len() == 8,
{
}

/// Decoding what was encoded gives the descriptor back and takes as many
/// bytes as encoding wrote, whatever follows the encoding.
pub proof fn lemma_descriptor_round_trip(d: EpDescriptor, rest: Seq<u8>)
    requires
        descriptor_canonical(d),
    ensures
        parse_descriptor(descriptor_bytes(d) + rest) == Ok::<(EpDescriptor, nat), IotError>(
            (d, descriptor_bytes(d).len()),
        ),
{
    let s = descriptor_bytes(d) + rest;
    lemma_u16_bytes(ENDPOINT_DESCRIPTOR);
    lemma_u16_bytes(4);
    lemma_u16_bytes(d.kind.spec_code());
    lemma_u16_bytes(d.flags.spec_bits());
    assert(s.len() >= 8);
    assert(u16_at(s, 0) == ENDPOINT_DESCRIPTOR);
    assert(u16_at(s, 2) == 4);
    assert(u16_at(s, 4) == d.kind.spec_code());
    assert(u16_at(s, 6) == d.flags.spec_bits());
    EpFlags::lemma_bits_equal(EpFlags::truncated(d.flags.spec_bits()), d.flags);
}

} // verus!
