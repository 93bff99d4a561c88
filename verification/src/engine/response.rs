//! What a response of a peer changes: the state of the subscription to
//! that peer, by the request that the response answers.
use vstd::prelude::*;

use crate::engine::comms::Communications;
use crate::engine::store::{Peer, Store, SubscribeState};
use crate::engine::types::{Id, NetResponse, NetResponseBody, RequestId, Status};
use crate::engine::{heard, peer_or_fresh, Engine, EngineError, EngineEvent, EngineResponse};

verus! {

/// The subscription state after a response: a subscription asked for
/// under the response's request identifier is in place where the peer
/// agreed and dropped where it did not; an end of subscription asked for
/// under that identifier has come where the peer agreed. Any other
/// response leaves the state as it is.
pub open spec fn response_state(prior: SubscribeState, id: RequestId, data: NetResponseBody) -> SubscribeState {
    match (prior, data) {
        (SubscribeState::Subscribing(r), NetResponseBody::Status(st)) => if r == id {
            if st == Status::Success {
                SubscribeState::Subscribed
            } else {
                SubscribeState::Unsubscribed
            }
        } else {
            prior
        },
        (SubscribeState::Unsubscribing(r), NetResponseBody::Status(st)) => if r == id && st
            == Status::Success {
            SubscribeState::Unsubscribed
        } else {
            prior
        },
        _ => prior,
    }
}

/// What the engine reports for a response of peer `from`.
pub open spec fn response_event(prior: SubscribeState, from: Id, id: RequestId, data: NetResponseBody) -> EngineEvent {
    match (prior, data) {
        (SubscribeState::Subscribing(r), NetResponseBody::Status(st)) => if r == id && st
            == Status::Success {
            EngineEvent::SubscribedTo(from)
        } else {
            EngineEvent::Idle
        },
        (SubscribeState::Unsubscribing(r), NetResponseBody::Status(st)) => if r == id && st
            == Status::Success {
            EngineEvent::UnsubscribedTo(from)
        } else {
            EngineEvent::Idle
        },
        _ => EngineEvent::Idle,
    }
}

/// The subscription state after a response and what is reported for it.
pub fn correlate(prior: SubscribeState, from: Id, id: RequestId, data: NetResponseBody) -> (r: (
    SubscribeState,
    EngineEvent,
))
    ensures
        r.0 == response_state(prior, id, data),
        r.1 == response_event(prior, from, id, data),
{
    match (prior, data) {
        (SubscribeState::Subscribing(r), NetResponseBody::Status(st)) => {
            if r == id {
                if st == Status::Success {
                    (SubscribeState::Subscribed, EngineEvent::SubscribedTo(from))
                } else {
                    (SubscribeState::Unsubscribed, EngineEvent::Idle)
                }
            } else {
                (prior, EngineEvent::Idle)
            }
        },
        (SubscribeState::Unsubscribing(r), NetResponseBody::Status(st)) => {
            if r == id && st == Status::Success {
                (SubscribeState::Unsubscribed, EngineEvent::UnsubscribedTo(from))
            } else {
                (prior, EngineEvent::Idle)
            }
        },
        _ => (prior, EngineEvent::Idle),
    }
}

/// One step of a subscription: from none to asked for, from asked for
/// to in place, from in place to its end asked for, from there to none;
/// or no step at all.
pub open spec fn advances(a: SubscribeState, b: SubscribeState) -> bool {
    ||| a == b
    ||| (a is Unsubscribed && b is Subscribing)
    ||| (a is Subscribing && b is Subscribed)
    ||| (a is Subscribed && b is Unsubscribing)
    ||| (a is Unsubscribing && b is Unsubscribed)
}

/// Whether a response refuses a subscription that was asked for under
/// its request identifier.
pub open spec fn refuses_subscription(prior: SubscribeState, id: RequestId, data: NetResponseBody) -> bool {
    match (prior, data) {
        (SubscribeState::Subscribing(r), NetResponseBody::Status(st)) => r == id && st
            != Status::Success,
        _ => false,
    }
}

/// A response moves a subscription by one step at most, unless it
/// refuses a subscription that was asked for, which drops it.
pub proof fn lemma_response_advances(prior: SubscribeState, id: RequestId, data: NetResponseBody)
    requires
        !refuses_subscription(prior, id, data),
    ensures
        advances(prior, response_state(prior, id, data)),
{
}

/// A response that refuses a subscription asked for drops it; this is
/// the one change of state that is no step forward.
pub proof fn lemma_refusal_drops(r: RequestId, st: Status)
    requires
        st != Status::Success,
    ensures
        response_state(SubscribeState::Subscribing(r), r, NetResponseBody::Status(st))
            == SubscribeState::Unsubscribed,
{
}

/// A peer record with another subscription state.
pub open spec fn with_state<A>(p: Peer<A>, state: SubscribeState) -> Peer<A> {
    Peer { keys: p.keys, addr: p.addr, subscriber: p.subscriber, subscribed: state }
}

/// The peer table after a response that came from `addr`. A response of
/// a peer that is not known changes nothing.
pub open spec fn response_peers<A>(peers: Map<Id, Peer<A>>, addr: A, resp: NetResponse) -> Map<
    Id,
    Peer<A>,
> {
    let from = resp.common.from;
    if !peers.contains_key(from) {
        peers
    } else {
        let known = heard(peers, resp.common, addr);
        let next = response_state(peers[from].subscribed, resp.common.id, resp.data);
        if next == peers[from].subscribed {
            known
        } else {
            known.insert(from, with_state(known[from], next))
        }
    }
}

/// A response moves the subscription to every peer by one step at
/// most, unless it refuses a subscription that was asked for.
pub proof fn lemma_response_peers_advance<A>(peers: Map<Id, Peer<A>>, addr: A, resp: NetResponse, id: Id)
    requires
        !(peers.contains_key(resp.common.from) && refuses_subscription(
            peers[resp.common.from].subscribed,
            resp.common.id,
            resp.data,
        )),
    ensures
        advances(
            peer_or_fresh(peers, id).subscribed,
            peer_or_fresh(response_peers(peers, addr, resp), id).subscribed,
        ),
{
    let from = resp.common.from;
    if peers.contains_key(from) {
        lemma_response_advances(peers[from].subscribed, resp.common.id, resp.data);
    }
}

impl<Addr: Copy, Comms: Communications<Address = Addr>, Stor: Store<Address = Addr>, const N: usize> Engine<
    Comms,
    Stor,
    N,
> {
    /// Handles a response that came from `from`: keeps the public key
    /// that it carries, and moves the subscription to its sender on. A
    /// response of a peer that is not known is passed over. A response
    /// that is no status is `Unsupported`. There is never an answer.
    pub fn handle_resp(&mut self, from: &Addr, resp: &NetResponse) -> (r: Result<
        (EngineResponse, EngineEvent),
        EngineError<Comms::Error, Stor::Error>,
    >)
        requires
            old(self).wf(),
        ensures
            final(self).wf(),
            final(self).keeps_config(old(self)),
            r matches Ok((answer, evt)) ==> {
                let peers = old(self).spec_store().peer_map();
                let sender = resp.common.from;
                &&& final(self).keeps_pages(old(self))
                &&& answer@ is Nothing
                &&& final(self).spec_store().peer_map() == response_peers(peers, *from, *resp)
                &&& evt == (if peers.contains_key(sender) {
                    response_event(peers[sender].subscribed, sender, resp.common.id, resp.data)
                } else {
                    EngineEvent::Idle
                })
                &&& (resp.data is Status || !peers.contains_key(sender))
            },
            r matches Err(e) ==> (e is Store || (e is Unsupported && resp.data is Unsupported)),
            r matches Err(e) ==> (e is Unsupported ==> {
                let peers = old(self).spec_store().peer_map();
                &&& peers.contains_key(resp.common.from)
                &&& final(self).keeps_pages(old(self))
                &&& final(self).spec_store().peer_map() == response_peers(peers, *from, *resp)
            }),
            Stor::infallible() ==> (r is Err <==> old(self).spec_store().peer_map().contains_key(
                resp.common.from,
            ) && resp.data is Unsupported),
            r matches Err(e) ==> (Stor::infallible() ==> e is Unsupported),
    {
        let sender = resp.common.from;
        let peer = match self.store.get_peer(&sender) {
            Ok(Some(p)) => p,
            Ok(None) => {
                return Ok((EngineResponse::Nothing, EngineEvent::Idle));
            },
            Err(e) => {
                return Err(EngineError::Store(e));
            },
        };
        self.learn(from, &resp.common)?;
        if let NetResponseBody::Unsupported = resp.data {
            return Err(EngineError::Unsupported);
        }
        let (next, evt) = correlate(peer.subscribed, sender, resp.common.id, resp.data);
        if next != peer.subscribed {
            let p = self.load_peer(&sender)?;
            self.save_peer(
                &sender,
                Peer { keys: p.keys, addr: p.addr, subscriber: p.subscriber, subscribed: next },
            )?;
        }
        Ok((EngineResponse::Nothing, evt))
    }
}

} // verus!
