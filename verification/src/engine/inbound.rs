//! The dispatch of what was received, and the requests that go out to
//! one peer.
use vstd::prelude::*;
use vstd::std_specs::cmp::PartialEqSpec;

use crate::engine::comms::Communications;
use crate::engine::outbound::{as_subscribing, request_for};
use crate::engine::page::{page_event, page_peers, page_status};
use crate::engine::request::{request_event, request_peers, request_response};
use crate::engine::response::{response_event, response_peers};
use crate::engine::store::{lists_peers, Peer, Store, SubscribeState};
use crate::engine::types::{
    Common, Flags, Id, Inbound, NetRequest, NetRequestBody, NetResponse, NetResponseBody, Page,
    RequestId, Status,
};
use crate::engine::{
    next_request_id, peer_or_fresh, Engine, EngineError, EngineEvent, EngineResponse, ResponseModel,
    Service,
};

verus! {

/// What handling an object came to.
#[derive(Debug)]
pub struct Handled {
    /// What is reported to the host.
    pub event: EngineEvent,
    /// The answer that was decided on. A page has been sent already.
    pub response: EngineResponse,
    /// The response that the host encodes and sends to where the object
    /// came from, if the answer is one.
    pub reply: Option<NetResponse>,
}

/// The request identifier that an answer refers to: that of a message,
/// the index of a page.
pub open spec fn inbound_index(obj: Inbound) -> u16 {
    match obj {
        Inbound::Request(r) => r.common.id,
        Inbound::Response(r) => r.common.id,
        Inbound::Page(p) => p.index,
        Inbound::Block(p) => p.index,
        Inbound::Unsupported(_) => 0,
    }
}

/// Whether an object obliges the answer to carry the public key: it is
/// a request with the flag that asks for it.
pub open spec fn key_requested(obj: Inbound) -> bool {
    obj matches Inbound::Request(r) && r.common.flags.pub_key_request
}

/// The response that goes back for an answer, if the answer is one.
pub open spec fn reply_for(svc: Service, obj: Inbound, answer: ResponseModel) -> Option<NetResponse> {
    match answer {
        ResponseModel::Net(body) => Some(
            NetResponse {
                common: Common {
                    from: svc.id,
                    id: inbound_index(obj),
                    flags: Flags { pub_key_request: false, no_persist: false },
                    public_key: if key_requested(obj) {
                        Some(svc.public_key)
                    } else {
                        None
                    },
                },
                data: body,
            },
        ),
        _ => None,
    }
}

/// Whether handling an object fails for a reason of its own: it is of a
/// kind that the engine does not handle, or a response of a known peer
/// that is no status. An object of the engine's own service is dropped
/// before that.
pub open spec fn refused<A>(peers: Map<Id, Peer<A>>, own: Id, obj: Inbound) -> bool {
    obj.spec_sender() != own && (match obj {
        Inbound::Unsupported(_) => true,
        Inbound::Response(resp) => peers.contains_key(resp.common.from) && resp.data is Unsupported,
        _ => false,
    })
}

/// The datagrams taken for sending after an answer: a page goes to
/// where the object came from, anything else adds nothing.
pub open spec fn sent_after<A>(sent: Seq<(A, Seq<u8>)>, from: A, answer: ResponseModel) -> Seq<
    (A, Seq<u8>),
> {
    match answer {
        ResponseModel::Page(raw) => sent.push((from, raw)),
        _ => sent,
    }
}

/// Whether a step of the engine of service `svc` on the object `obj`
/// that came from `from` led from the peer table `peers` to the table
/// `after`, with `event` reported and `response` as the answer, where
/// `primary` is the primary page as the store has it.
///
/// An object of the service itself, and one of a kind that the engine
/// does not handle, change nothing and are not answered. Any other
/// changes the peer table as its kind says. What is reported and
/// answered is what its kind says, too, with two exceptions: a
/// discovery request may stay without answer where the page could not
/// be fetched, and where the page that is the answer could not be sent,
/// nothing is reported and nothing counts as answered.
pub open spec fn stepped<A>(
    svc: Service,
    primary: Option<Seq<u8>>,
    peers: Map<Id, Peer<A>>,
    after: Map<Id, Peer<A>>,
    from: A,
    obj: Inbound,
    event: EngineEvent,
    response: ResponseModel,
) -> bool {
    if obj.spec_sender() == svc.id {
        after == peers && event == EngineEvent::Idle && response is Nothing
    } else {
        match obj {
            Inbound::Request(req) => {
                &&& after == request_peers(peers, svc.id, from, req)
                &&& {
                    ||| (event == request_event(svc.id, req) && (response == request_response(
                        svc,
                        primary,
                        req.data,
                    ) || (req.data is Discover && response is Nothing)))
                    ||| (event == EngineEvent::Idle && response is Nothing && request_response(
                        svc,
                        primary,
                        req.data,
                    ) is Page)
                }
            },
            Inbound::Response(resp) => {
                &&& after == response_peers(peers, from, resp)
                &&& response is Nothing
                &&& event == (if peers.contains_key(resp.common.from) {
                    response_event(
                        peers[resp.common.from].subscribed,
                        resp.common.from,
                        resp.common.id,
                        resp.data,
                    )
                } else {
                    EngineEvent::Idle
                })
            },
            Inbound::Page(page) => {
                &&& after == page_peers(peers, page)
                &&& event == page_event(peers, page)
                &&& response == ResponseModel::Net(NetResponseBody::Status(page_status(peers, page)))
            },
            Inbound::Block(page) => {
                &&& after == page_peers(peers, page)
                &&& event == page_event(peers, page)
                &&& response == ResponseModel::Net(NetResponseBody::Status(page_status(peers, page)))
            },
            Inbound::Unsupported(_) => after == peers && event == EngineEvent::Idle && response
                is Nothing,
        }
    }
}

/// What is received is answered with one datagram at most: a page that
/// is sent at once, or a response that the host sends, never both.
pub proof fn lemma_one_answer_at_most<A>(
    svc: Service,
    obj: Inbound,
    answer: ResponseModel,
    sent: Seq<(A, Seq<u8>)>,
    from: A,
)
    ensures
        sent_after(sent, from, answer).len() + (if reply_for(svc, obj, answer) is Some {
            1nat
        } else {
            0nat
        }) <= sent.len() + 1,
        answer is Nothing ==> sent_after(sent, from, answer) == sent && reply_for(svc, obj, answer)
            is None,
{
}

impl<Addr: Copy, Comms: Communications<Address = Addr>, Stor: Store<Address = Addr>, const N: usize> Engine<
    Comms,
    Stor,
    N,
> {
    /// Handles an object that came from `from`, which the host's wire
    /// layer has parsed and found genuine. An object of the engine's own
    /// service is dropped: nothing changes and nothing is reported. Any
    /// other is handled by its kind; a page that is the answer is sent
    /// back at once, a response that is the answer is handed to the host
    /// in `reply`. An object of a kind that the engine does not handle
    /// is `Unhandled`.
    pub fn handle(&mut self, from: Addr, obj: &Inbound) -> (r: Result<
        Handled,
        EngineError<Comms::Error, Stor::Error>,
    >)
        requires
            old(self).wf(),
        ensures
            final(self).wf(),
            final(self).spec_service() == old(self).spec_service(),
            final(self).spec_pri() == old(self).spec_pri(),
            final(self).spec_req_id() == old(self).spec_req_id(),
            final(self).spec_comms().broadcasts() == old(self).spec_comms().broadcasts(),
            obj.spec_sender() == old(self).spec_id() ==> {
                &&& r matches Ok(h)
                &&& h.event == EngineEvent::Idle
                &&& h.response@ is Nothing
                &&& h.reply is None
                &&& *final(self) == *old(self)
            },
            r matches Ok(h) ==> {
                &&& final(self).keeps_pages(old(self))
                &&& h.reply == reply_for(old(self).spec_service(), *obj, h.response@)
                &&& final(self).spec_comms().sent() == sent_after(
                    old(self).spec_comms().sent(),
                    from,
                    h.response@,
                )
            },
            r matches Ok(h) ==> (obj.spec_sender() != old(self).spec_id() ==> {
                let peers = old(self).spec_store().peer_map();
                let own = old(self).spec_id();
                match *obj {
                    Inbound::Request(req) => {
                        &&& final(self).spec_store().peer_map() == request_peers(peers, own, from, req)
                        &&& h.event == request_event(own, req)
                        &&& (h.response@ == request_response(
                            old(self).spec_service(),
                            old(self).spec_store().page_map().get(old(self).spec_pri()),
                            req.data,
                        ) || (req.data is Discover && h.response@ is Nothing))
                    },
                    Inbound::Response(resp) => {
                        &&& final(self).spec_store().peer_map() == response_peers(peers, from, resp)
                        &&& h.response@ is Nothing
                        &&& h.event == (if peers.contains_key(resp.common.from) {
                            response_event(
                                peers[resp.common.from].subscribed,
                                resp.common.from,
                                resp.common.id,
                                resp.data,
                            )
                        } else {
                            EngineEvent::Idle
                        })
                    },
                    Inbound::Page(page) => {
                        &&& final(self).spec_store().peer_map() == page_peers(peers, page)
                        &&& h.event == page_event(peers, page)
                        &&& h.response@ == ResponseModel::Net(
                            NetResponseBody::Status(page_status(peers, page)),
                        )
                    },
                    Inbound::Block(page) => {
                        &&& final(self).spec_store().peer_map() == page_peers(peers, page)
                        &&& h.event == page_event(peers, page)
                        &&& h.response@ == ResponseModel::Net(
                            NetResponseBody::Status(page_status(peers, page)),
                        )
                    },
                    Inbound::Unsupported(_) => false,
                }
            }),
            r matches Err(e) ==> {
                &&& obj.spec_sender() != old(self).spec_id()
                &&& (e is Store || e is Comms || (e is Unsupported && obj is Response) || (e
                    is Unhandled && obj is Unsupported))
                &&& final(self).spec_comms().sent() == old(self).spec_comms().sent()
            },
            r matches Err(e) ==> {
                let peers = old(self).spec_store().peer_map();
                &&& (e is Comms ==> (*obj matches Inbound::Request(req) && final(self).keeps_pages(
                    old(self),
                ) && final(self).spec_store().peer_map() == request_peers(
                    peers,
                    old(self).spec_id(),
                    from,
                    req,
                ) && request_response(
                    old(self).spec_service(),
                    old(self).spec_store().page_map().get(old(self).spec_pri()),
                    req.data,
                ) is Page))
                &&& (e is Unsupported ==> (*obj matches Inbound::Response(resp)
                    && final(self).keeps_pages(old(self)) && final(self).spec_store().peer_map()
                    == response_peers(peers, from, resp) && peers.contains_key(resp.common.from)
                    && resp.data is Unsupported))
                &&& (e is Unhandled ==> *final(self) == *old(self))
                &&& (Comms::infallible() ==> !(e is Comms))
            },
            (Stor::infallible() && Comms::infallible()) ==> (r is Err <==> refused(
                old(self).spec_store().peer_map(),
                old(self).spec_id(),
                *obj,
            )),
            r matches Err(e) ==> (Stor::infallible() ==> !(e is Store)),
            r matches Ok(h) ==> ((Stor::infallible() && obj.spec_sender() != old(self).spec_id())
                ==> (obj matches Inbound::Request(req) ==> h.response@ == request_response(
                old(self).spec_service(),
                old(self).spec_store().page_map().get(old(self).spec_pri()),
                req.data,
            ))),
    {
        if obj.sender() == self.svc.id {
            return Ok(
                Handled { event: EngineEvent::Idle, response: EngineResponse::Nothing, reply: None },
            );
        }
        let (req_id, requested) = match obj {
            Inbound::Request(r) => (r.common.id, r.common.flags.pub_key_request),
            Inbound::Response(r) => (r.common.id, false),
            Inbound::Page(p) => (p.index, false),
            Inbound::Block(p) => (p.index, false),
            Inbound::Unsupported(_) => (0, false),
        };
        let (response, event) = match obj {
            Inbound::Request(req) => self.handle_req(&from, req)?,
            Inbound::Response(resp) => self.handle_resp(&from, resp)?,
            Inbound::Page(page) => self.handle_page(&from, page)?,
            Inbound::Block(page) => self.handle_page(&from, page)?,
            Inbound::Unsupported(_) => {
                return Err(EngineError::Unhandled);
            },
        };
        let reply = match &response {
            EngineResponse::Net(body) => Some(
                NetResponse {
                    common: Common {
                        from: self.svc.id,
                        id: req_id,
                        flags: Flags::empty(),
                        public_key: if requested {
                            Some(self.svc.public_key)
                        } else {
                            None
                        },
                    },
                    data: *body,
                },
            ),
            EngineResponse::Page(raw) => {
                match self.comms.send(&from, raw.as_slice()) {
                    Ok(()) => {},
                    Err(e) => {
                        return Err(EngineError::Comms(e));
                    },
                }
                None
            },
            EngineResponse::Nothing => None,
        };
        Ok(Handled { event, response, reply })
    }

    /// One step of the engine. Where a datagram was waiting, `received`
    /// holds where it came from and what the wire layer has parsed from
    /// it, and the step is to handle it; where none was, the step is the
    /// housekeeping, which reports nothing.
    ///
    /// What goes wrong with one datagram does not stop the engine: an
    /// object that the engine does not handle and an answer that could
    /// not be sent are passed over, and nothing is reported for them.
    /// Only an error of the store is passed on.
    pub fn tick(&mut self, received: Option<(Addr, Inbound)>) -> (r: Result<
        Handled,
        EngineError<Comms::Error, Stor::Error>,
    >)
        requires
            old(self).wf(),
        ensures
            final(self).wf(),
            final(self).spec_service() == old(self).spec_service(),
            final(self).spec_pri() == old(self).spec_pri(),
            final(self).spec_req_id() == old(self).spec_req_id(),
            final(self).spec_comms().broadcasts() == old(self).spec_comms().broadcasts(),
            r matches Err(e) ==> e is Store,
            Stor::infallible() ==> r is Ok,
            received is None ==> {
                &&& r matches Ok(h)
                &&& h.event == EngineEvent::Idle
                &&& h.response@ is Nothing
                &&& h.reply is None
                &&& *final(self) == *old(self)
            },
            received matches Some((from, obj)) ==> {
                &&& (obj.spec_sender() == old(self).spec_id() ==> r is Ok && *final(self) == *old(self))
                &&& (r matches Ok(h) ==> {
                    &&& final(self).keeps_pages(old(self))
                    &&& stepped(
                        old(self).spec_service(),
                        old(self).spec_store().page_map().get(old(self).spec_pri()),
                        old(self).spec_store().peer_map(),
                        final(self).spec_store().peer_map(),
                        from,
                        obj,
                        h.event,
                        h.response@,
                    )
                    &&& h.reply == reply_for(old(self).spec_service(), obj, h.response@)
                    &&& final(self).spec_comms().sent() == sent_after(
                        old(self).spec_comms().sent(),
                        from,
                        h.response@,
                    )
                })
                &&& (r matches Ok(h) ==> ((Comms::infallible() && obj.spec_sender() != old(
                    self,
                ).spec_id()) ==> (obj matches Inbound::Request(req) ==> h.event == request_event(
                    old(self).spec_id(),
                    req,
                ) && (Stor::infallible() ==> h.response@ == request_response(
                    old(self).spec_service(),
                    old(self).spec_store().page_map().get(old(self).spec_pri()),
                    req.data,
                )))))
                &&& (r is Err ==> final(self).spec_comms().sent() == old(self).spec_comms().sent())
            },
    {
        match received {
            Some((from, obj)) => match self.handle(from, &obj) {
                Ok(h) => Ok(h),
                Err(EngineError::Store(e)) => Err(EngineError::Store(e)),
                Err(_) => Ok(
                    Handled { event: EngineEvent::Idle, response: EngineResponse::Nothing, reply: None },
                ),
            },
            None => match self.update() {
                Ok(event) => Ok(Handled { event, response: EngineResponse::Nothing, reply: None }),
                Err(e) => Err(e),
            },
        }
    }

    /// What the store holds of a peer.
    pub fn get_peer(&self, id: &Id) -> (r: Result<
        Option<Peer<Addr>>,
        EngineError<Comms::Error, Stor::Error>,
    >)
        requires
            self.wf(),
        ensures
            r matches Ok(p) ==> p == self.spec_store().peer_map().get(*id),
            r matches Err(e) ==> e is Store,
            Stor::infallible() ==> r is Ok,
    {
        match self.store.get_peer(id) {
            Ok(p) => Ok(p),
            Err(e) => Err(EngineError::Store(e)),
        }
    }

    /// Sets what the store holds of a peer.
    pub fn update_peer(&mut self, id: &Id, peer: Peer<Addr>) -> (r: Result<
        (),
        EngineError<Comms::Error, Stor::Error>,
    >)
        requires
            old(self).wf(),
        ensures
            final(self).wf(),
            final(self).keeps_config(old(self)),
            r is Ok ==> final(self).keeps_pages(old(self)),
            r is Ok ==> final(self).spec_store().peer_map() == old(self).spec_store().peer_map().insert(
                *id,
                peer,
            ),
            r matches Err(e) ==> e is Store,
            Stor::infallible() ==> r is Ok,
    {
        self.save_peer(id, peer)
    }

    /// The page that the store holds under a signature.
    pub fn fetch_page(&self, sig: &crate::engine::types::Signature) -> (r: Result<
        Option<Vec<u8>>,
        EngineError<Comms::Error, Stor::Error>,
    >)
        requires
            self.wf(),
        ensures
            r matches Ok(p) ==> (match p {
                Some(raw) => self.spec_store().page_map().contains_key(*sig) && raw@
                    == self.spec_store().page_map()[*sig],
                None => !self.spec_store().page_map().contains_key(*sig),
            }),
            r matches Err(e) ==> e is Store,
            Stor::infallible() ==> r is Ok,
    {
        match self.store.fetch_page(sig) {
            Ok(p) => Ok(p),
            Err(e) => Err(EngineError::Store(e)),
        }
    }
}

/// Whether some peer of the table was last heard at `addr`, by the
/// equality of the address type.
pub open spec fn address_known<A: PartialEq>(peers: Map<Id, Peer<A>>, addr: A) -> bool {
    exists|id: Id| #[trigger]
        peers.contains_key(id) && peers[id].addr is Some && peers[id].addr->Some_0.eq_spec(&addr)
}

impl<
    Addr: Copy + PartialEq,
    Comms: Communications<Address = Addr>,
    Stor: Store<Address = Addr>,
    const N: usize,
> Engine<Comms, Stor, N> {
    /// Whether some peer was last heard at `addr`.
    fn known_address(&self, addr: &Addr) -> (r: bool)
        requires
            self.wf(),
        ensures
            Addr::obeys_eq_spec() ==> r == address_known(self.spec_store().peer_map(), *addr),
    {
        let list = self.store.peers();
        let n = list.len();
        let mut i: usize = 0;
        while i < n
            invariant
                n == list@.len(),
                i <= n,
                lists_peers(list@, self.spec_store().peer_map()),
                Addr::obeys_eq_spec() ==> forall|j: int|
                    0 <= j < i ==> !((#[trigger] list@[j]).1.addr is Some && list@[j].1.addr->Some_0.eq_spec(
                        addr,
                    )),
            decreases n - i,
        {
            if let Some(a) = list[i].1.addr {
                if a == *addr {
                    assert(self.spec_store().peer_map().contains_key(list@[i as int].0));
                    return true;
                }
            }
            i = i + 1;
        }
        proof {
            if Addr::obeys_eq_spec() {
                let peers = self.spec_store().peer_map();
                assert forall|id: Id| #[trigger] peers.contains_key(id) implies !(peers[id].addr
                    is Some && peers[id].addr->Some_0.eq_spec(addr)) by {
                    let j = choose|j: int| 0 <= j < list@.len() && #[trigger] list@[j].0 == id;
                    assert(peers[list@[j].0] == list@[j].1);
                }
            }
        }
        false
    }

    /// Makes a request to the peer at `addr`. Where no peer is known at
    /// that address, the request carries the engine's public key and
    /// asks for the peer's.
    pub fn request(&self, addr: &Addr, req_id: RequestId, data: NetRequestBody) -> (r: NetRequest)
        requires
            self.wf(),
        ensures
            Addr::obeys_eq_spec() ==> r == request_for(
                self.spec_service(),
                req_id,
                data,
                address_known(self.spec_store().peer_map(), *addr),
            ),
            r.data == data,
            r.common.id == req_id,
            r.common.from == self.spec_id(),
            r.common.flags.pub_key_request == r.common.public_key is Some,
            r.common.public_key matches Some(k) ==> k == self.spec_service().public_key,
    {
        let known = self.known_address(addr);
        NetRequest {
            common: Common {
                from: self.svc.id,
                id: req_id,
                flags: Flags { pub_key_request: !known, no_persist: false },
                public_key: if known {
                    None
                } else {
                    Some(self.svc.public_key)
                },
            },
            data,
        }
    }

    /// Starts a subscription to the service `id` at `addr`: takes the
    /// next request identifier, notes for the peer that a subscription
    /// is asked for under it, and makes the request, which the host
    /// encodes and hands to [`Engine::send`]. The subscription is in
    /// place when the peer's response has been handled.
    pub fn subscribe(&mut self, id: Id, addr: Addr) -> (r: Result<
        NetRequest,
        EngineError<Comms::Error, Stor::Error>,
    >)
        requires
            old(self).wf(),
        ensures
            final(self).wf(),
            final(self).spec_service() == old(self).spec_service(),
            final(self).spec_pri() == old(self).spec_pri(),
            final(self).spec_comms() == old(self).spec_comms(),
            final(self).spec_req_id() == next_request_id(old(self).spec_req_id()),
            match r {
                Ok(req) => {
                    let req_id = next_request_id(old(self).spec_req_id());
                    let peers = old(self).spec_store().peer_map();
                    &&& final(self).keeps_pages(old(self))
                    &&& final(self).spec_store().peer_map() == peers.insert(
                        id,
                        as_subscribing(peer_or_fresh(peers, id), req_id),
                    )
                    &&& req.data == NetRequestBody::Subscribe(id)
                    &&& req.common.id == req_id
                    &&& req.common.from == old(self).spec_id()
                    &&& (Addr::obeys_eq_spec() ==> req == request_for(
                        old(self).spec_service(),
                        req_id,
                        NetRequestBody::Subscribe(id),
                        address_known(final(self).spec_store().peer_map(), addr),
                    ))
                },
                Err(e) => e is Store,
            },
            Stor::infallible() ==> r is Ok,
    {
        let req_id = self.next_req_id();
        let p = self.load_peer(&id)?;
        self.save_peer(
            &id,
            Peer {
                keys: p.keys,
                addr: p.addr,
                subscriber: p.subscriber,
                subscribed: SubscribeState::Subscribing(req_id),
            },
        )?;
        Ok(self.request(&addr, req_id, NetRequestBody::Subscribe(id)))
    }
}

/// Asking for a subscription is a step forward where there was none.
pub proof fn lemma_subscribe_advances<A>(p: Peer<A>, req_id: RequestId)
    requires
        p.subscribed is Unsubscribed,
    ensures
        crate::engine::response::advances(p.subscribed, as_subscribing(p, req_id).subscribed),
{
}

/// A subscription that was asked for is in place once the peer agrees
/// under the same request, this is reported, and data of the peer is
/// taken from then on.
pub proof fn lemma_subscription_completes<A>(
    peers: Map<Id, Peer<A>>,
    id: Id,
    req_id: RequestId,
    addr: A,
    resp: NetResponse,
    data: Page,
)
    requires
        resp.common.from == id,
        resp.common.id == req_id,
        resp.data == NetResponseBody::Status(Status::Success),
        data.id == id,
        data.info is Data,
    ensures
        ({
            let asked = peers.insert(id, as_subscribing(peer_or_fresh(peers, id), req_id));
            let agreed = response_peers(asked, addr, resp);
            &&& agreed.contains_key(id)
            &&& agreed[id].subscribed == SubscribeState::Subscribed
            &&& response_event(asked[id].subscribed, id, req_id, resp.data) == EngineEvent::SubscribedTo(
                id,
            )
            &&& page_event(agreed, data) == EngineEvent::ReceivedData(id, data.signature)
        }),
{
}

/// A peer that asks to subscribe to the engine's service is a
/// subscriber at the address it was heard at from then on, and one that
/// asks to unsubscribe is none; both are reported and agreed to.
pub proof fn lemma_subscriber_flows<A>(peers: Map<Id, Peer<A>>, svc: Service, addr: A, req: NetRequest)
    requires
        req.data == NetRequestBody::Subscribe(svc.id) || req.data == NetRequestBody::Unsubscribe(
            svc.id,
        ),
    ensures
        ({
            let after = request_peers(peers, svc.id, addr, req);
            let from = req.common.from;
            &&& after.contains_key(from)
            &&& request_response(svc, None, req.data) == ResponseModel::Net(
                NetResponseBody::Status(Status::Success),
            )
            &&& (req.data is Subscribe ==> after[from].subscriber && after[from].addr == Some(addr)
                && request_event(svc.id, req) == EngineEvent::SubscribeFrom(from))
            &&& (req.data is Unsubscribe ==> !after[from].subscriber && request_event(svc.id, req)
                == EngineEvent::UnsubscribeFrom(from))
        }),
{
}

} // verus!
