//! What the host asks of the engine: to publish, to subscribe, to look
//! for services, and to announce its own.
use vstd::prelude::*;

use crate::engine::comms::Communications;
use crate::engine::store::{lists_peers, ObjectInfo, Peer, Store, SubscribeState};
use crate::engine::types::{
    Common, Flags, Id, Keys, NetRequest, NetRequestBody, RequestId, Signature,
};
use crate::engine::{next_request_id, Engine, EngineError, EngineEvent, Service};

verus! {

/// Whether the datagram is due to the peer: it is a subscriber and its
/// address is known.
pub open spec fn is_due<A>(p: Peer<A>) -> bool {
    p.subscriber && p.addr is Some
}

/// The datagrams that forwarding `raw` to the peers of `list` takes for
/// sending, in the order of the list: one for each subscriber with a
/// known address, but for those that `okay` marks as failed.
pub open spec fn forwards<A>(list: Seq<(Id, Peer<A>)>, okay: Seq<bool>, raw: Seq<u8>) -> Seq<
    (A, Seq<u8>),
>
    recommends
        okay.len() == list.len(),
    decreases list.len(),
{
    if list.len() == 0 {
        Seq::empty()
    } else {
        let before = forwards(list.drop_last(), okay.drop_last(), raw);
        let p = list.last().1;
        if is_due(p) && okay.last() {
            before.push((p.addr->Some_0, raw))
        } else {
            before
        }
    }
}

/// The marks of `n` peers that were all reached.
pub open spec fn all_reached(n: nat) -> Seq<bool> {
    Seq::new(n, |i: int| true)
}

/// A peer record with a subscription asked for under a request.
pub open spec fn as_subscribing<A>(p: Peer<A>, req_id: RequestId) -> Peer<A> {
    Peer {
        keys: p.keys,
        addr: p.addr,
        subscriber: p.subscriber,
        subscribed: SubscribeState::Subscribing(req_id),
    }
}

/// The request that the engine of a service makes: to a peer whose
/// address is not known it attaches its public key, and asks for the
/// peer's.
pub open spec fn request_for(svc: Service, req_id: RequestId, data: NetRequestBody, known: bool) -> NetRequest {
    NetRequest {
        common: Common {
            from: svc.id,
            id: req_id,
            flags: Flags { pub_key_request: !known, no_persist: false },
            public_key: if known {
                None
            } else {
                Some(svc.public_key)
            },
        },
        data,
    }
}

/// What a store holds for an engine that starts: the keys of its
/// service, if it ran before, and the pointer to its last object.
#[derive(Debug, Clone, Copy, PartialEq, Eq, Structural)]
pub struct Resume {
    /// The identity to go on with; without one, keys are made anew.
    pub keys: Option<Keys>,
    /// The object from which the chain goes on; without one, the chain
    /// starts with the primary page.
    pub last: Option<ObjectInfo>,
}

impl<Addr: Copy, Comms: Communications<Address = Addr>, Stor: Store<Address = Addr>, const N: usize> Engine<
    Comms,
    Stor,
    N,
> {
    /// Reads from a store what an engine needs to go on where it left
    /// off. With it the host builds the service and issues the primary
    /// page, for [`Engine::new`].
    pub fn resume(store: &Stor) -> (r: Result<Resume, EngineError<Comms::Error, Stor::Error>>)
        requires
            store.valid(),
        ensures
            r matches Ok(found) ==> found.keys == store.ident() && found.last == store.last(),
            r matches Err(e) ==> e is Store,
            Stor::infallible() ==> r is Ok,
    {
        let keys = match store.get_ident() {
            Ok(k) => k,
            Err(e) => {
                return Err(EngineError::Store(e));
            },
        };
        let last = match store.get_last() {
            Ok(l) => l,
            Err(e) => {
                return Err(EngineError::Store(e));
            },
        };
        Ok(Resume { keys, last })
    }

    /// Keeps the keys of a service that was made anew.
    pub fn keep_identity(store: &mut Stor, keys: &Keys) -> (r: Result<
        (),
        EngineError<Comms::Error, Stor::Error>,
    >)
        requires
            old(store).valid(),
        ensures
            final(store).valid(),
            r is Ok ==> final(store).ident() == Some(*keys),
            r is Ok ==> final(store).last() == old(store).last(),
            r is Ok ==> final(store).peer_map() == old(store).peer_map(),
            r is Ok ==> final(store).page_map() == old(store).page_map(),
            r matches Err(e) ==> e is Store,
            Stor::infallible() ==> r is Ok,
    {
        match store.set_ident(keys) {
            Ok(()) => Ok(()),
            Err(e) => Err(EngineError::Store(e)),
        }
    }

    /// Creates the engine of a service from the service's primary page,
    /// which the host has issued: the page is kept in the store and the
    /// chain of objects starts from it. A page of more than `N` bytes is
    /// `Unsupported`.
    pub fn new(svc: Service, primary: ObjectInfo, page: &[u8], comms: Comms, store: Stor) -> (r:
        Result<Self, EngineError<Comms::Error, Stor::Error>>)
        requires
            store.valid(),
        ensures
            match r {
                Ok(e) => {
                    &&& e.wf()
                    &&& e.spec_service() == svc
                    &&& e.spec_pri() == primary.sig
                    &&& e.spec_req_id() == 0
                    &&& e.spec_comms() == comms
                    &&& e.spec_store().last() == Some(primary)
                    &&& e.spec_store().page_map() == store.page_map().insert(primary.sig, page@)
                    &&& e.spec_store().peer_map() == store.peer_map()
                    &&& e.spec_store().ident() == store.ident()
                    &&& page@.len() <= N
                },
                Err(e) => if page@.len() > N {
                    e is Unsupported
                } else {
                    e is Store
                },
            },
            Stor::infallible() ==> (r is Ok <==> page@.len() <= N),
    {
        if page.len() > N {
            return Err(EngineError::Unsupported);
        }
        let mut store = store;
        match store.set_last(&primary) {
            Ok(()) => {},
            Err(e) => {
                return Err(EngineError::Store(e));
            },
        }
        match store.store_page(&primary.sig, page) {
            Ok(()) => {},
            Err(e) => {
                return Err(EngineError::Store(e));
            },
        }
        Ok(Engine { svc, pri: primary.sig, req_id: 0, comms, store })
    }

    /// Takes a primary page that the host has issued anew: the page is
    /// kept in the store and the chain of objects goes on from it. A page
    /// of more than `N` bytes is `Unsupported`, and nothing changes.
    pub fn set_primary(&mut self, primary: ObjectInfo, page: &[u8]) -> (r: Result<
        Signature,
        EngineError<Comms::Error, Stor::Error>,
    >)
        requires
            old(self).wf(),
        ensures
            final(self).wf(),
            final(self).spec_service() == old(self).spec_service(),
            final(self).spec_req_id() == old(self).spec_req_id(),
            final(self).spec_comms() == old(self).spec_comms(),
            match r {
                Ok(sig) => {
                    &&& sig == primary.sig
                    &&& final(self).spec_pri() == primary.sig
                    &&& final(self).spec_store().last() == Some(primary)
                    &&& final(self).spec_store().page_map() == old(self).spec_store().page_map().insert(
                        primary.sig,
                        page@,
                    )
                    &&& final(self).spec_store().peer_map() == old(self).spec_store().peer_map()
                    &&& final(self).spec_store().ident() == old(self).spec_store().ident()
                    &&& page@.len() <= N
                },
                Err(e) => final(self).spec_pri() == old(self).spec_pri() && (if page@.len() > N {
                    e is Unsupported && final(self).spec_store() == old(self).spec_store()
                } else {
                    e is Store
                }),
            },
            Stor::infallible() ==> (r is Ok <==> page@.len() <= N),
    {
        if page.len() > N {
            return Err(EngineError::Unsupported);
        }
        match self.store.set_last(&primary) {
            Ok(()) => {},
            Err(e) => {
                return Err(EngineError::Store(e));
            },
        }
        match self.store.store_page(&primary.sig, page) {
            Ok(()) => {},
            Err(e) => {
                return Err(EngineError::Store(e));
            },
        }
        self.pri = primary.sig;
        Ok(primary.sig)
    }

    /// The pointer to the last published object, from whose signature
    /// the next object is chained.
    pub fn last(&self) -> (r: Result<Option<ObjectInfo>, EngineError<Comms::Error, Stor::Error>>)
        requires
            self.wf(),
        ensures
            r matches Ok(i) ==> i == self.spec_store().last(),
            r matches Err(e) ==> e is Store,
            Stor::infallible() ==> r is Ok,
    {
        match self.store.get_last() {
            Ok(i) => Ok(i),
            Err(e) => Err(EngineError::Store(e)),
        }
    }

    /// Sends `raw` to every peer of `list` that is a subscriber with a
    /// known address, and goes on where a send fails.
    fn forward(&mut self, list: &Vec<(Id, Peer<Addr>)>, raw: &[u8]) -> (okay: Ghost<Seq<bool>>)
        requires
            old(self).wf(),
        ensures
            final(self).wf(),
            final(self).spec_service() == old(self).spec_service(),
            final(self).spec_pri() == old(self).spec_pri(),
            final(self).spec_req_id() == old(self).spec_req_id(),
            final(self).spec_store() == old(self).spec_store(),
            final(self).spec_comms().broadcasts() == old(self).spec_comms().broadcasts(),
            okay@.len() == list@.len(),
            final(self).spec_comms().sent() == old(self).spec_comms().sent() + forwards(
                list@,
                okay@,
                raw@,
            ),
            Comms::infallible() ==> okay@ == all_reached(list@.len()),
    {
        let n = list.len();
        let mut i: usize = 0;
        let ghost mut okay: Seq<bool> = Seq::empty();
        assert(list@.subrange(0, 0) == Seq::<(Id, Peer<Addr>)>::empty());
        assert(self.comms.sent() + Seq::<(Addr, Seq<u8>)>::empty() == self.comms.sent());
        while i < n
            invariant
                n == list@.len(),
                i <= n,
                self.wf(),
                self.spec_service() == old(self).spec_service(),
                self.spec_pri() == old(self).spec_pri(),
                self.spec_req_id() == old(self).spec_req_id(),
                self.spec_store() == old(self).spec_store(),
                self.spec_comms().broadcasts() == old(self).spec_comms().broadcasts(),
                okay.len() == i,
                Comms::infallible() ==> okay == all_reached(i as nat),
                self.spec_comms().sent() == old(self).spec_comms().sent() + forwards(
                    list@.subrange(0, i as int),
                    okay,
                    raw@,
                ),
            decreases n - i,
        {
            let ghost before = self.comms.sent();
            let ghost done = forwards(list@.subrange(0, i as int), okay, raw@);
            let peer = list[i].1;
            let mut sent_ok = true;
            if peer.subscriber {
                if let Some(addr) = peer.addr {
                    if self.comms.send(&addr, raw).is_err() {
                        sent_ok = false;
                    }
                }
            }
            proof {
                let longer = list@.subrange(0, i + 1);
                assert(longer.drop_last() == list@.subrange(0, i as int));
                assert(okay.push(sent_ok).drop_last() == okay);
                okay = okay.push(sent_ok);
                if is_due(peer) && sent_ok {
                    assert(self.comms.sent() == (old(self).spec_comms().sent() + done).push(
                        (peer.addr->Some_0, raw@),
                    ));
                    assert(self.comms.sent() == old(self).spec_comms().sent() + done.push(
                        (peer.addr->Some_0, raw@),
                    ));
                }
            }
            i = i + 1;
        }
        assert(list@.subrange(0, n as int) == list@);
        Ghost(okay)
    }

    /// Publishes a data object that the host has issued: the object is
    /// the last of the chain from now on, it is kept in the store under
    /// its signature, and its raw bytes are sent to every subscriber
    /// whose address is known. A subscriber that cannot be reached does
    /// not keep the others from being served, nor the call from
    /// succeeding. Returns the signature of the object. An object of
    /// more than `N` bytes is `Unsupported`, and nothing changes.
    pub fn publish(&mut self, info: ObjectInfo, raw: &[u8]) -> (r: Result<
        Signature,
        EngineError<Comms::Error, Stor::Error>,
    >)
        requires
            old(self).wf(),
        ensures
            final(self).wf(),
            final(self).spec_service() == old(self).spec_service(),
            final(self).spec_pri() == old(self).spec_pri(),
            final(self).spec_req_id() == old(self).spec_req_id(),
            final(self).spec_comms().broadcasts() == old(self).spec_comms().broadcasts(),
            match r {
                Ok(sig) => {
                    &&& sig == info.sig
                    &&& final(self).spec_store().last() == Some(info)
                    &&& final(self).spec_store().page_map() == old(self).spec_store().page_map().insert(
                        info.sig,
                        raw@,
                    )
                    &&& final(self).spec_store().page_map().contains_key(sig)
                    &&& final(self).spec_store().peer_map() == old(self).spec_store().peer_map()
                    &&& final(self).spec_store().ident() == old(self).spec_store().ident()
                    &&& exists|list: Seq<(Id, Peer<Addr>)>, okay: Seq<bool>|
                        {
                            &&& lists_peers(list, old(self).spec_store().peer_map())
                            &&& okay.len() == list.len()
                            &&& final(self).spec_comms().sent() == old(self).spec_comms().sent()
                                + #[trigger] forwards(list, okay, raw@)
                            &&& Comms::infallible() ==> okay == all_reached(list.len())
                        }
                    &&& raw@.len() <= N
                },
                Err(e) => final(self).spec_comms() == old(self).spec_comms() && (if raw@.len() > N {
                    e is Unsupported && final(self).spec_store() == old(self).spec_store()
                } else {
                    e is Store
                }),
            },
            Stor::infallible() ==> (r is Ok <==> raw@.len() <= N),
    {
        if raw.len() > N {
            return Err(EngineError::Unsupported);
        }
        match self.store.set_last(&info) {
            Ok(()) => {},
            Err(e) => {
                return Err(EngineError::Store(e));
            },
        }
        match self.store.store_page(&info.sig, raw) {
            Ok(()) => {},
            Err(e) => {
                return Err(EngineError::Store(e));
            },
        }
        let list = self.store.peers();
        let okay = self.forward(&list, raw);
        Ok(info.sig)
    }

    /// Hands raw bytes to communications for sending to one address.
    pub fn send(&mut self, to: &Addr, raw: &[u8]) -> (r: Result<
        (),
        EngineError<Comms::Error, Stor::Error>,
    >)
        requires
            old(self).wf(),
        ensures
            final(self).wf(),
            final(self).spec_service() == old(self).spec_service(),
            final(self).spec_pri() == old(self).spec_pri(),
            final(self).spec_req_id() == old(self).spec_req_id(),
            final(self).spec_store() == old(self).spec_store(),
            final(self).spec_comms().broadcasts() == old(self).spec_comms().broadcasts(),
            r is Ok ==> final(self).spec_comms().sent() == old(self).spec_comms().sent().push(
                (*to, raw@),
            ),
            r matches Err(e) ==> e is Comms && final(self).spec_comms().sent() == old(
                self,
            ).spec_comms().sent(),
            Comms::infallible() ==> r is Ok,
    {
        match self.comms.send(to, raw) {
            Ok(()) => Ok(()),
            Err(e) => Err(EngineError::Comms(e)),
        }
    }

    /// Asks communications for a datagram that is waiting: its length and
    /// where it came from; it lies at the start of `buff`. Never blocks.
    pub fn recv(&mut self, buff: &mut [u8]) -> (r: Result<
        Option<(usize, Addr)>,
        EngineError<Comms::Error, Stor::Error>,
    >)
        requires
            old(self).wf(),
        ensures
            final(self).wf(),
            final(self).spec_service() == old(self).spec_service(),
            final(self).spec_pri() == old(self).spec_pri(),
            final(self).spec_req_id() == old(self).spec_req_id(),
            final(self).spec_store() == old(self).spec_store(),
            final(self).spec_comms().sent() == old(self).spec_comms().sent(),
            final(self).spec_comms().broadcasts() == old(self).spec_comms().broadcasts(),
            final(buff)@.len() == old(buff)@.len(),
            r matches Ok(Some((n, _))) ==> n <= old(buff)@.len(),
            r matches Err(e) ==> e is Comms,
            Comms::infallible() ==> r is Ok,
    {
        match self.comms.recv(buff) {
            Ok(d) => Ok(d),
            Err(e) => Err(EngineError::Comms(e)),
        }
    }

    /// Hands raw bytes to communications for broadcast.
    pub fn broadcast(&mut self, raw: &[u8]) -> (r: Result<
        (),
        EngineError<Comms::Error, Stor::Error>,
    >)
        requires
            old(self).wf(),
        ensures
            final(self).wf(),
            final(self).spec_service() == old(self).spec_service(),
            final(self).spec_pri() == old(self).spec_pri(),
            final(self).spec_req_id() == old(self).spec_req_id(),
            final(self).spec_store() == old(self).spec_store(),
            final(self).spec_comms().sent() == old(self).spec_comms().sent(),
            r is Ok ==> final(self).spec_comms().broadcasts() == old(self).spec_comms().broadcasts().push(
                raw@,
            ),
            r matches Err(e) ==> e is Comms && final(self).spec_comms().broadcasts() == old(
                self,
            ).spec_comms().broadcasts(),
            Comms::infallible() ==> r is Ok,
    {
        match self.comms.broadcast(raw) {
            Ok(()) => Ok(()),
            Err(e) => Err(EngineError::Comms(e)),
        }
    }

    /// Makes the request by which services on the local segment are
    /// looked for: it carries the engine's public key and asks for the
    /// public key of whoever answers, and what is learnt from it is not
    /// meant to be kept. The request's identifier is the next one; the
    /// host encodes the request and hands it to [`Engine::broadcast`].
    pub fn discover(&mut self, body: &[u8], opts: &[Vec<u8>]) -> (r: NetRequest)
        ensures
            final(self).spec_service() == old(self).spec_service(),
            final(self).spec_pri() == old(self).spec_pri(),
            final(self).spec_store() == old(self).spec_store(),
            final(self).spec_comms() == old(self).spec_comms(),
            final(self).spec_req_id() == next_request_id(old(self).spec_req_id()),
            r.common == (Common {
                from: old(self).spec_id(),
                id: next_request_id(old(self).spec_req_id()),
                flags: Flags { pub_key_request: true, no_persist: true },
                public_key: Some(old(self).spec_service().public_key),
            }),
            r.data matches NetRequestBody::Discover(b, o) && b@ == body@ && o@.len() == opts@.len()
                && forall|i: int| 0 <= i < o@.len() ==> (#[trigger] o@[i])@ == opts@[i]@,
    {
        let req_id = self.next_req_id();
        let mut options: Vec<Vec<u8>> = Vec::new();
        let n = opts.len();
        let mut i: usize = 0;
        while i < n
            invariant
                n == opts@.len(),
                i <= n,
                options@.len() == i,
                forall|j: int| 0 <= j < i ==> (#[trigger] options@[j])@ == opts@[j]@,
            decreases n - i,
        {
            options.push(vstd::slice::slice_to_vec(opts[i].as_slice()));
            i = i + 1;
        }
        NetRequest {
            common: Common {
                from: self.svc.id,
                id: req_id,
                flags: Flags { pub_key_request: true, no_persist: true },
                public_key: Some(self.svc.public_key),
            },
            data: NetRequestBody::Discover(vstd::slice::slice_to_vec(body), options),
        }
    }

    /// Sends the primary page to `addr`, and returns its signature.
    /// Where the store does not hold the page any more, nothing is sent
    /// and `None` returned: the host issues the page anew and hands it
    /// to [`Engine::set_primary`].
    pub fn register(&mut self, addr: &Addr) -> (r: Result<
        Option<Signature>,
        EngineError<Comms::Error, Stor::Error>,
    >)
        requires
            old(self).wf(),
        ensures
            final(self).wf(),
            final(self).spec_service() == old(self).spec_service(),
            final(self).spec_pri() == old(self).spec_pri(),
            final(self).spec_req_id() == old(self).spec_req_id(),
            final(self).spec_store() == old(self).spec_store(),
            final(self).spec_comms().broadcasts() == old(self).spec_comms().broadcasts(),
            match r {
                Ok(Some(sig)) => {
                    let pages = old(self).spec_store().page_map();
                    &&& sig == old(self).spec_pri()
                    &&& pages.contains_key(sig)
                    &&& final(self).spec_comms().sent() == old(self).spec_comms().sent().push(
                        (*addr, pages[sig]),
                    )
                },
                Ok(None) => {
                    &&& !old(self).spec_store().page_map().contains_key(old(self).spec_pri())
                    &&& final(self).spec_comms().sent() == old(self).spec_comms().sent()
                },
                Err(e) => (e is Store || e is Comms) && final(self).spec_comms().sent() == old(
                    self,
                ).spec_comms().sent(),
            },
            (Stor::infallible() && Comms::infallible()) ==> r is Ok,
    {
        let page = match self.store.fetch_page(&self.pri) {
            Ok(Some(p)) => p,
            Ok(None) => {
                return Ok(None);
            },
            Err(e) => {
                return Err(EngineError::Store(e));
            },
        };
        match self.comms.send(addr, page.as_slice()) {
            Ok(()) => Ok(Some(self.pri)),
            Err(e) => Err(EngineError::Comms(e)),
        }
    }

    /// Housekeeping between datagrams. There is none to do so far.
    pub fn update(&mut self) -> (r: Result<EngineEvent, EngineError<Comms::Error, Stor::Error>>)
        ensures
            r matches Ok(EngineEvent::Idle),
            *final(self) == *old(self),
    {
        Ok(EngineEvent::Idle)
    }
}

} // verus!
