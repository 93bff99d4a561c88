//! IoT service engine: endpoint model, option codec, peer bookkeeping and
//! the protocol decisions of a publishing node.
use vstd::prelude::*;

pub mod client;
pub mod endpoint;
pub mod engine;
pub mod error;
pub mod service;
pub mod wire;

use crate::endpoint::desc::{
    descriptor_bytes, descriptor_canonical, lemma_descriptor_round_trip, parse_descriptor,
};
use crate::endpoint::{EpDescriptor, IotInfo};

verus! {

/// IoT application marker object.
pub struct IoT;

/// Whether `d` occurs in `list`.
pub open spec fn holds(list: Seq<EpDescriptor>, d: EpDescriptor) -> bool {
    exists|i: int| 0 <= i < list.len() && list[i] == d
}

/// Whether one of the descriptors that decoding takes from `s`, one
/// after the other until the input ends or does not decode, is in `list`.
pub open spec fn decodes_one_of(list: Seq<EpDescriptor>, s: Seq<u8>) -> bool
    decreases s.len(),
{
    if s.len() == 0 {
        false
    } else {
        match parse_descriptor(s) {
            Err(_) => false,
            Ok((d, n)) => holds(list, d) || (0 < n <= s.len() && decodes_one_of(
                list,
                s.subrange(n as int, s.len() as int),
            )),
        }
    }
}

/// Whether a service with the given descriptors matches a discovery
/// request: an empty request matches every service, another one matches
/// where it names a descriptor that the service has.
pub open spec fn filter_matches(list: Seq<EpDescriptor>, req: Seq<u8>) -> bool {
    req.len() == 0 || decodes_one_of(list, req)
}

/// Whether `d` occurs among the descriptors.
pub fn contains_descriptor(list: &[EpDescriptor], d: &EpDescriptor) -> (r: bool)
    ensures
        r == holds(list@, *d),
{
    let n = list.len();
    let mut i: usize = 0;
    while i < n
        invariant
            n == list@.len(),
            i <= n,
            forall|j: int| 0 <= j < i ==> list@[j] != *d,
        decreases n - i,
    {
        if list[i] == *d {
            return true;
        }
        i = i + 1;
    }
    false
}

impl IoT {
    /// Identifier of the IoT application.
    pub const APPLICATION_ID: u16 = 1;

    /// Helper to match our service against a discovery request.
    pub fn matches(body: &IotInfo<8>, req: &[u8]) -> (r: bool)
        ensures
            r == filter_matches(body@, req@),
    {
        let total = req.len();
        if total == 0 {
            return true;
        }
        let list = body.as_slice();
        let mut index: usize = 0;
        assert(req@.subrange(0, total as int) == req@);
        while index < total
            invariant
                total == req@.len(),
                index <= total,
                list@ == body@,
                decodes_one_of(body@, req@) == decodes_one_of(
                    body@,
                    req@.subrange(index as int, total as int),
                ),
            decreases total - index,
        {
            let ghost rest = req@.subrange(index as int, total as int);
            match EpDescriptor::decode(vstd::slice::slice_subrange(req, index, total)) {
                Err(_) => {
                    return false;
                },
                Ok((d, n)) => {
                    if contains_descriptor(list, &d) {
                        return true;
                    }
                    assert(rest.subrange(n as int, rest.len() as int) == req@.subrange(
                        index + n,
                        total as int,
                    ));
                    index = index + n;
                },
            }
        }
        false
    }
}

/// A request that names a descriptor of the service matches the
/// service.
pub proof fn lemma_named_descriptor_matches(list: Seq<EpDescriptor>, d: EpDescriptor)
    requires
        holds(list, d),
        descriptor_canonical(d),
    ensures
        filter_matches(list, descriptor_bytes(d)),
{
    lemma_descriptor_round_trip(d, Seq::empty());
    assert(descriptor_bytes(d) + Seq::<u8>::empty() == descriptor_bytes(d));
}

/// An empty request matches every service.
pub proof fn lemma_empty_request_matches(list: Seq<EpDescriptor>)
    ensures
        filter_matches(list, Seq::<u8>::empty()),
{
}

} // verus!
