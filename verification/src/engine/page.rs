//! What a page of a peer changes: a primary page announces a service,
//! a data object is taken where its service is subscribed to.
use vstd::prelude::*;

use crate::engine::comms::Communications;
use crate::engine::store::{Peer, Store};
use crate::engine::types::{Id, Keys, NetResponseBody, Page, PageInfo, PublicKey, Status};
use crate::engine::{peer_or_fresh, Engine, EngineError, EngineEvent, EngineResponse, ResponseModel};

verus! {

/// A peer record with a public key learnt.
pub open spec fn with_public_key<A>(p: Peer<A>, key: PublicKey) -> Peer<A> {
    Peer {
        keys: Keys { pub_key: Some(key), pri_key: p.keys.pri_key, sec_key: p.keys.sec_key },
        addr: p.addr,
        subscriber: p.subscriber,
        subscribed: p.subscribed,
    }
}

/// The peer table after a page: a primary page sets the public key of
/// its service, whether the service was known or not.
pub open spec fn page_peers<A>(peers: Map<Id, Peer<A>>, page: Page) -> Map<Id, Peer<A>> {
    match page.info {
        PageInfo::Primary(key) => peers.insert(
            page.id,
            with_public_key(peer_or_fresh(peers, page.id), key),
        ),
        _ => peers,
    }
}

/// Whether a page is taken: a primary page always, a data object where
/// its service is known and subscribed to.
pub open spec fn page_accepted<A>(peers: Map<Id, Peer<A>>, page: Page) -> bool {
    match page.info {
        PageInfo::Primary(_) => true,
        PageInfo::Data => peers.contains_key(page.id) && peers[page.id].spec_subscribed(),
        PageInfo::Unsupported => false,
    }
}

/// What the engine reports for a page.
pub open spec fn page_event<A>(peers: Map<Id, Peer<A>>, page: Page) -> EngineEvent {
    if !page_accepted(peers, page) {
        EngineEvent::Idle
    } else {
        match page.info {
            PageInfo::Primary(_) => EngineEvent::Discover(page.id),
            _ => EngineEvent::ReceivedData(page.id, page.signature),
        }
    }
}

/// The status that the engine answers to a page.
pub open spec fn page_status<A>(peers: Map<Id, Peer<A>>, page: Page) -> Status {
    if page_accepted(peers, page) {
        Status::Success
    } else {
        Status::InvalidRequest
    }
}

/// A page changes no subscription of the engine to any peer.
pub proof fn lemma_page_keeps_subscriptions<A>(peers: Map<Id, Peer<A>>, page: Page, id: Id)
    ensures
        peer_or_fresh(page_peers(peers, page), id).subscribed == peer_or_fresh(peers, id).subscribed,
{
}

impl<Addr: Copy, Comms: Communications<Address = Addr>, Stor: Store<Address = Addr>, const N: usize> Engine<
    Comms,
    Stor,
    N,
> {
    /// Handles a page or data object that came from `from`. The answer
    /// is a status: `Success` where the page is taken, `InvalidRequest`
    /// where it is not.
    pub fn handle_page(&mut self, from: &Addr, page: &Page) -> (r: Result<
        (EngineResponse, EngineEvent),
        EngineError<Comms::Error, Stor::Error>,
    >)
        requires
            old(self).wf(),
        ensures
            final(self).wf(),
            final(self).keeps_config(old(self)),
            r matches Ok((answer, evt)) ==> {
                let peers = old(self).spec_store().peer_map();
                &&& final(self).keeps_pages(old(self))
                &&& final(self).spec_store().peer_map() == page_peers(peers, *page)
                &&& evt == page_event(peers, *page)
                &&& answer@ == ResponseModel::Net(NetResponseBody::Status(page_status(peers, *page)))
            },
            r matches Err(e) ==> e is Store,
            Stor::infallible() ==> r is Ok,
    {
        let peer = match self.store.get_peer(&page.id) {
            Ok(p) => p,
            Err(e) => {
                return Err(EngineError::Store(e));
            },
        };
        let (status, evt) = match (peer, page.info) {
            (_, PageInfo::Primary(key)) => {
                let p = self.load_peer(&page.id)?;
                let keys = Keys { pub_key: Some(key), pri_key: p.keys.pri_key, sec_key: p.keys.sec_key };
                self.save_peer(
                    &page.id,
                    Peer { keys, addr: p.addr, subscriber: p.subscriber, subscribed: p.subscribed },
                )?;
                (Status::Success, EngineEvent::Discover(page.id))
            },
            (Some(p), PageInfo::Data) => {
                if p.subscribed() {
                    (Status::Success, EngineEvent::ReceivedData(page.id, page.signature))
                } else {
                    (Status::InvalidRequest, EngineEvent::Idle)
                }
            },
            _ => (Status::InvalidRequest, EngineEvent::Idle),
        };
        Ok((EngineResponse::Net(NetResponseBody::Status(status)), evt))
    }
}

} // verus!
