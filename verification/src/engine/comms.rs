//! Communications: sending and receiving datagrams, whatever carries
//! them.
use vstd::prelude::*;

use core::convert::Infallible;

verus! {

/// A datagram endpoint, as the engine uses it. What it has taken for
/// sending is described by two logs. A send that succeeds adds the
/// datagram to its log; one that fails adds nothing.
pub trait Communications {
    /// Address for directing packets.
    type Address: Copy;

    /// Communication error type.
    type Error;

    /// Whether no operation of this kind of communications ever fails.
    /// A kind that does not say so may fail.
    open spec fn infallible() -> bool {
        false
    }

    /// The datagrams taken for sending to one address, oldest first.
    /// An implementation that does not say what they are leaves them
    /// undetermined, and nothing is known of it.
    open spec fn sent(&self) -> Seq<(Self::Address, Seq<u8>)> {
        arbitrary()
    }

    /// The datagrams taken for broadcast, oldest first.
    open spec fn broadcasts(&self) -> Seq<Seq<u8>> {
        arbitrary()
    }

    /// Receive a datagram if one is waiting: its length and where it
    /// came from; it lies at the start of `buff`. Never blocks.
    fn recv(&mut self, buff: &mut [u8]) -> (r: Result<Option<(usize, Self::Address)>, Self::Error>)
        ensures
            Self::infallible() ==> r is Ok,
            r matches Ok(Some((n, _))) ==> n <= old(buff)@.len(),
            final(buff)@.len() == old(buff)@.len(),
            final(self).sent() == old(self).sent(),
            final(self).broadcasts() == old(self).broadcasts(),
    ;

    /// Send data to the specified address.
    fn send(&mut self, to: &Self::Address, data: &[u8]) -> (r: Result<(), Self::Error>)
        ensures
            Self::infallible() ==> r is Ok,
            r is Ok ==> final(self).sent() == old(self).sent().push((*to, data@)),
            r is Err ==> final(self).sent() == old(self).sent(),
            final(self).broadcasts() == old(self).broadcasts(),
    ;

    /// Broadcast data to the local segment.
    fn broadcast(&mut self, data: &[u8]) -> (r: Result<(), Self::Error>)
        ensures
            Self::infallible() ==> r is Ok,
            r is Ok ==> final(self).broadcasts() == old(self).broadcasts().push(data@),
            r is Err ==> final(self).broadcasts() == old(self).broadcasts(),
            final(self).sent() == old(self).sent(),
    ;
}

/// Communications that go nowhere: what is sent is kept for inspection,
/// and nothing is ever received. Addresses are small numbers.
pub struct MockComms {
    /// Datagrams sent, each with its address, oldest first.
    pub tx: Vec<(u8, Vec<u8>)>,
    /// Datagrams broadcast, oldest first.
    pub bc: Vec<Vec<u8>>,
}

/// The datagrams of a list, each as its address and its bytes.
pub open spec fn datagrams(tx: Seq<(u8, Vec<u8>)>) -> Seq<(u8, Seq<u8>)> {
    tx.map_values(|e: (u8, Vec<u8>)| (e.0, e.1@))
}

/// The datagrams of a list, each as its bytes.
pub open spec fn payloads(bc: Seq<Vec<u8>>) -> Seq<Seq<u8>> {
    bc.map_values(|e: Vec<u8>| e@)
}

impl Default for MockComms {
    fn default() -> (r: MockComms)
        ensures
            r.tx@.len() == 0,
            r.bc@.len() == 0,
    {
        MockComms { tx: Vec::new(), bc: Vec::new() }
    }
}

impl Communications for MockComms {
    type Address = u8;

    type Error = Infallible;

    open spec fn infallible() -> bool {
        true
    }

    open spec fn sent(&self) -> Seq<(u8, Seq<u8>)> {
        datagrams(self.tx@)
    }

    open spec fn broadcasts(&self) -> Seq<Seq<u8>> {
        payloads(self.bc@)
    }

    fn recv(&mut self, buff: &mut [u8]) -> (r: Result<Option<(usize, u8)>, Infallible>)
        ensures
            r == Ok::<Option<(usize, u8)>, Infallible>(None),
            final(buff)@ == old(buff)@,
    {
        Ok(None)
    }

    fn send(&mut self, to: &u8, data: &[u8]) -> (r: Result<(), Infallible>)
        ensures
            r is Ok,
    {
        let raw = vstd::slice::slice_to_vec(data);
        self.tx.push((*to, raw));
        assert(datagrams(self.tx@) == datagrams(old(self).tx@).push((*to, data@)));
        Ok(())
    }

    fn broadcast(&mut self, data: &[u8]) -> (r: Result<(), Infallible>)
        ensures
            r is Ok,
    {
        let raw = vstd::slice::slice_to_vec(data);
        self.bc.push(raw);
        assert(payloads(self.bc@) == payloads(old(self).bc@).push(data@));
        Ok(())
    }
}

} // verus!
