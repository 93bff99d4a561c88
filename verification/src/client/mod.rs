//! What a client of the service daemon computes before it asks the
//! daemon: the bodies of the pages and objects to be made, and the
//! inputs of the hashes under which a service is registered by name.
use vstd::prelude::*;

pub mod options;

pub use options::{
    CreateOptions, DiscoverOptions, MetaOptions, NsRegisterOptions, NsSearchOptions, PublishOptions,
    ServiceIdentifier,
};

use crate::endpoint::kinds::EpKind;
use crate::wire::u16_bytes;

verus! {

/// The bytes that are hashed to register or to search a service by an
/// endpoint kind: the code of the kind, 16-bit little-endian.
pub fn kind_hash_input(kind: &EpKind) -> (r: [u8; 2])
    ensures
        r@ == u16_bytes(kind.spec_code()),
{
    let v = kind.code();
    let lo = #[verifier::truncate]
    (v as u8);
    let hi = #[verifier::truncate]
    ((v >> 8) as u8);
    assert(lo == v % 256 && hi == (v / 256) % 256) by (bit_vector)
        requires
            lo == v as u8,
            hi == (v >> 8) as u8,
    ;
    let r = [lo, hi];
    assert(r@ =~= u16_bytes(kind.spec_code()));
    r
}

/// The inputs of the hashes for every endpoint of a service, in order.
pub fn kind_hash_inputs(endpoints: &[crate::endpoint::EpDescriptor]) -> (r: Vec<[u8; 2]>)
    ensures
        r@.len() == endpoints@.len(),
        forall|i: int|
            0 <= i < r@.len() ==> (#[trigger] r@[i])@ == u16_bytes(endpoints@[i].kind.spec_code()),
{
    let n = endpoints.len();
    let mut out: Vec<[u8; 2]> = Vec::new();
    let mut i: usize = 0;
    while i < n
        invariant
            n == endpoints@.len(),
            i <= n,
            out@.len() == i,
            forall|j: int|
                0 <= j < i ==> (#[trigger] out@[j])@ == u16_bytes(endpoints@[j].kind.spec_code()),
        decreases n - i,
    {
        out.push(kind_hash_input(&endpoints[i].kind));
        i = i + 1;
    }
    out
}

} // verus!
