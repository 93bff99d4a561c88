//! The service engine: the decisions of a publishing node, from what it
//! receives and what its host asks of it to what it keeps, what it
//! sends and what it reports.
//!
//! Objects are signed, encoded and parsed by the host's wire layer; the
//! engine takes them parsed and hands back what is to be encoded.
use vstd::prelude::*;

pub mod assoc;
pub mod comms;
pub mod inbound;
pub mod memory;
pub mod outbound;
pub mod page;
pub mod persist;
pub mod request;
pub mod response;
pub mod store;
pub mod types;

pub use comms::{Communications, MockComms};
pub use inbound::Handled;
pub use memory::MemoryStore;
pub use store::{ObjectInfo, Peer, Store, StoreFlags, SubscribeState};
pub use types::{
    Common, Flags, Id, Inbound, Keys, NetRequest, NetRequestBody, NetResponse, NetResponseBody,
    Page, PageInfo, PrivateKey, PublicKey, RequestId, SecretKey, Signature, Status,
};

use crate::endpoint::IotInfo;

use crate::error::CoreError;

verus! {

/// Errors of the engine, by the part that raised them.
#[derive(Debug, PartialEq)]
pub enum EngineError<CommsError, StoreError> {
    /// The wire layer failed.
    Core(CoreError),
    /// Communications failed.
    Comms(CommsError),
    /// The store failed.
    Store(StoreError),
    /// An object of a kind that the engine does not handle.
    Unhandled,
    /// Something that the engine does not support.
    Unsupported,
}

/// What the engine reports to its host.
#[derive(Debug, Clone, Copy, PartialEq, Eq, Structural)]
pub enum EngineEvent {
    /// Nothing to report.
    Idle,
    /// A service was discovered.
    Discover(Id),
    /// A peer subscribed to this service.
    SubscribeFrom(Id),
    /// A peer unsubscribed from this service.
    UnsubscribeFrom(Id),
    /// A peer accepted the subscription of this engine.
    SubscribedTo(Id),
    /// A peer ended the subscription of this engine.
    UnsubscribedTo(Id),
    /// Data of a service that this engine is subscribed to arrived.
    ReceivedData(Id, Signature),
}

/// What the engine answers to what it received.
#[derive(Debug, Clone, PartialEq, Eq)]
pub enum EngineResponse {
    /// No answer.
    Nothing,
    /// A response, to be encoded by the wire layer.
    Net(NetResponseBody),
    /// A page, as its raw bytes.
    Page(Vec<u8>),
}

/// What an [`EngineResponse`] holds, as plain values.
pub enum ResponseModel {
    Nothing,
    Net(NetResponseBody),
    Page(Seq<u8>),
}

impl View for EngineResponse {
    type V = ResponseModel;

    open spec fn view(&self) -> ResponseModel {
        match self {
            EngineResponse::Nothing => ResponseModel::Nothing,
            EngineResponse::Net(b) => ResponseModel::Net(*b),
            EngineResponse::Page(p) => ResponseModel::Page(p@),
        }
    }
}

/// The service that an engine runs, as far as the engine's decisions
/// depend on it.
pub struct Service {
    /// Identifier of the service.
    pub id: Id,
    /// Public key of the service.
    pub public_key: PublicKey,
    /// Whether the bodies of the service's pages are encrypted.
    pub encrypted: bool,
    /// The endpoints of the service.
    pub body: IotInfo<8>,
    /// The public options of the service, each in its encoded form.
    pub public_options: Vec<Vec<u8>>,
}

/// The engine of one service: its state between calls.
pub struct Engine<Comms, Stor, const N: usize> {
    svc: Service,
    pri: Signature,
    req_id: u16,
    comms: Comms,
    store: Stor,
}

impl<Addr: Copy, Comms: Communications<Address = Addr>, Stor: Store<Address = Addr>, const N: usize> Engine<
    Comms,
    Stor,
    N,
> {
    /// The engine's store is in order.
    pub closed spec fn wf(&self) -> bool {
        self.store.valid()
    }

    /// Identifier of the engine's service.
    pub open spec fn spec_id(&self) -> Id {
        self.spec_service().id
    }

    /// Signature of the primary page that the engine last issued.
    pub closed spec fn spec_pri(&self) -> Signature {
        self.pri
    }

    /// Identifier of the request that the engine last made.
    pub closed spec fn spec_req_id(&self) -> u16 {
        self.req_id
    }

    /// The engine's store.
    pub closed spec fn spec_store(&self) -> Stor {
        self.store
    }

    /// The engine's communications.
    pub closed spec fn spec_comms(&self) -> Comms {
        self.comms
    }

    /// The engine's service.
    pub closed spec fn spec_service(&self) -> Service {
        self.svc
    }

    /// Identifier of the engine's service.
    pub fn id(&self) -> (r: Id)
        ensures
            r == self.spec_id(),
    {
        self.svc.id
    }

    /// The engine's communications.
    pub fn comms(&self) -> (r: &Comms)
        ensures
            *r == self.spec_comms(),
    {
        &self.comms
    }

    /// The engine's store.
    pub fn store(&self) -> (r: &Stor)
        ensures
            *r == self.spec_store(),
    {
        &self.store
    }

    /// Signature of the primary page that the engine last issued.
    pub fn primary(&self) -> (r: Signature)
        ensures
            r == self.spec_pri(),
    {
        self.pri
    }

    /// Identifier of the request that the engine last made.
    pub fn req_id(&self) -> (r: u16)
        ensures
            r == self.spec_req_id(),
    {
        self.req_id
    }

    /// Takes the next request identifier; after the largest comes zero.
    fn next_req_id(&mut self) -> (r: u16)
        ensures
            r == next_request_id(old(self).spec_req_id()),
            final(self).spec_req_id() == r,
            final(self).spec_store() == old(self).spec_store(),
            final(self).spec_comms() == old(self).spec_comms(),
            final(self).spec_service() == old(self).spec_service(),
            final(self).spec_pri() == old(self).spec_pri(),
    {
        self.req_id = self.req_id.wrapping_add(1);
        self.req_id
    }
}

/// The record of a peer in a table, or a fresh one where it has none.
pub open spec fn peer_or_fresh<A>(peers: Map<Id, Peer<A>>, id: Id) -> Peer<A> {
    if peers.contains_key(id) {
        peers[id]
    } else {
        Peer::fresh()
    }
}

/// A peer record with a public key and an address learnt.
pub open spec fn with_key<A>(p: Peer<A>, key: PublicKey, addr: A) -> Peer<A> {
    Peer {
        keys: Keys { pub_key: Some(key), pri_key: p.keys.pri_key, sec_key: p.keys.sec_key },
        addr: Some(addr),
        subscriber: p.subscriber,
        subscribed: p.subscribed,
    }
}

/// The peer table after a message was heard from `addr`: a public key
/// that the message carries is kept for its sender, with the address.
pub open spec fn heard<A>(peers: Map<Id, Peer<A>>, common: Common, addr: A) -> Map<Id, Peer<A>> {
    match common.public_key {
        Some(key) => peers.insert(common.from, with_key(peer_or_fresh(peers, common.from), key, addr)),
        None => peers,
    }
}

/// The request identifier that follows `id`; after the largest comes zero.
pub open spec fn next_request_id(id: u16) -> u16 {
    if id == u16::MAX {
        0
    } else {
        (id + 1) as u16
    }
}

impl<Addr: Copy, Comms: Communications<Address = Addr>, Stor: Store<Address = Addr>, const N: usize> Engine<
    Comms,
    Stor,
    N,
> {
    /// Whether everything but the store is as in `before`.
    pub open spec fn keeps_config(&self, before: &Self) -> bool {
        &&& self.spec_service() == before.spec_service()
        &&& self.spec_pri() == before.spec_pri()
        &&& self.spec_req_id() == before.spec_req_id()
        &&& self.spec_comms() == before.spec_comms()
    }

    /// Whether the store holds what it held in `before`, but for peers.
    pub open spec fn keeps_pages(&self, before: &Self) -> bool {
        &&& self.spec_store().ident() == before.spec_store().ident()
        &&& self.spec_store().last() == before.spec_store().last()
        &&& self.spec_store().page_map() == before.spec_store().page_map()
    }

    /// The record of a peer, or a fresh one where the store has none.
    fn load_peer(&self, id: &Id) -> (r: Result<Peer<Addr>, EngineError<Comms::Error, Stor::Error>>)
        requires
            self.wf(),
        ensures
            r matches Ok(p) ==> p == peer_or_fresh(self.spec_store().peer_map(), *id),
            r matches Err(e) ==> e is Store,
            Stor::infallible() ==> r is Ok,
    {
        match self.store.get_peer(id) {
            Ok(Some(p)) => Ok(p),
            Ok(None) => Ok(Peer::new()),
            Err(e) => Err(EngineError::Store(e)),
        }
    }

    /// Keeps the record of a peer.
    fn save_peer(&mut self, id: &Id, peer: Peer<Addr>) -> (r: Result<
        (),
        EngineError<Comms::Error, Stor::Error>,
    >)
        requires
            old(self).wf(),
        ensures
            final(self).wf(),
            final(self).keeps_config(old(self)),
            r is Ok ==> final(self).keeps_pages(old(self)),
            r is Ok ==> final(self).spec_store().peer_map() == old(self).spec_store().peer_map().insert(
                *id,
                peer,
            ),
            r matches Err(e) ==> e is Store,
            Stor::infallible() ==> r is Ok,
    {
        match self.store.update_peer(id, peer) {
            Ok(()) => Ok(()),
            Err(e) => Err(EngineError::Store(e)),
        }
    }

    /// Keeps the public key that a message carries, with the address
    /// that the message came from, for the sender of the message.
    fn learn(&mut self, from: &Addr, common: &Common) -> (r: Result<
        (),
        EngineError<Comms::Error, Stor::Error>,
    >)
        requires
            old(self).wf(),
        ensures
            final(self).wf(),
            final(self).keeps_config(old(self)),
            r is Ok ==> final(self).keeps_pages(old(self)),
            r is Ok ==> final(self).spec_store().peer_map() == heard(
                old(self).spec_store().peer_map(),
                *common,
                *from,
            ),
            r matches Err(e) ==> e is Store,
            Stor::infallible() ==> r is Ok,
    {
        match common.public_key {
            Some(key) => {
                let p = self.load_peer(&common.from)?;
                let keys = Keys { pub_key: Some(key), pri_key: p.keys.pri_key, sec_key: p.keys.sec_key };
                self.save_peer(
                    &common.from,
                    Peer { keys, addr: Some(*from), subscriber: p.subscriber, subscribed: p.subscribed },
                )
            },
            None => Ok(()),
        }
    }
}

} // verus!
