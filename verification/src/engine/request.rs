//! What the engine answers to a request, and what a request changes.
use vstd::prelude::*;

use crate::engine::store::Peer;
use crate::engine::types::{bytes_equal, Id, NetRequest, NetRequestBody, NetResponseBody, Status};
use crate::engine::comms::Communications;
use crate::engine::store::Store;
use crate::engine::{
    heard, peer_or_fresh, Engine, EngineError, EngineEvent, EngineResponse, ResponseModel, Service,
};
use crate::{filter_matches, IoT};

verus! {

/// The encoded options of a list.
pub open spec fn option_views(list: Seq<Vec<u8>>) -> Seq<Seq<u8>> {
    list.map_values(|o: Vec<u8>| o@)
}

/// Whether some option of `filter` is one of `public`.
pub open spec fn options_meet(filter: Seq<Seq<u8>>, public: Seq<Seq<u8>>) -> bool {
    exists|i: int, j: int|
        0 <= i < filter.len() && 0 <= j < public.len() && #[trigger] filter[i] == #[trigger] public[j]
}

/// Whether `option` is one of `public`.
pub fn has_option(public: &Vec<Vec<u8>>, option: &Vec<u8>) -> (r: bool)
    ensures
        r == exists|j: int| 0 <= j < public@.len() && #[trigger] public@[j]@ == option@,
{
    let n = public.len();
    let mut j: usize = 0;
    while j < n
        invariant
            n == public@.len(),
            j <= n,
            forall|k: int| 0 <= k < j ==> public@[k]@ != option@,
        decreases n - j,
    {
        if bytes_equal(public[j].as_slice(), option.as_slice()) {
            return true;
        }
        j = j + 1;
    }
    false
}

/// Whether some option of `filter` is one of `public`.
pub fn any_option(filter: &Vec<Vec<u8>>, public: &Vec<Vec<u8>>) -> (r: bool)
    ensures
        r == options_meet(option_views(filter@), option_views(public@)),
{
    let n = filter.len();
    let mut i: usize = 0;
    while i < n
        invariant
            n == filter@.len(),
            i <= n,
            forall|a: int, b: int|
                0 <= a < i && 0 <= b < public@.len() ==> #[trigger] filter@[a]@
                    != #[trigger] public@[b]@,
        decreases n - i,
    {
        if has_option(public, &filter[i]) {
            proof {
                let j = choose|j: int| 0 <= j < public@.len() && #[trigger] public@[j]@ == filter@[i as int]@;
                assert(option_views(filter@)[i as int] == option_views(public@)[j]);
            }
            return true;
        }
        i = i + 1;
    }
    proof {
        let f = option_views(filter@);
        let p = option_views(public@);
        assert forall|a: int, b: int| 0 <= a < f.len() && 0 <= b < p.len() implies #[trigger] f[a]
            != #[trigger] p[b] by {
            assert(filter@[a]@ != public@[b]@);
        }
    }
    false
}

/// Whether a service answers a discovery request: it is not encrypted
/// and the request's body matches its endpoints, or an option of the
/// request is one of its public options.
pub open spec fn discovery_matches(svc: Service, body: Seq<u8>, options: Seq<Seq<u8>>) -> bool {
    (!svc.encrypted && filter_matches(svc.body@, body)) || options_meet(
        options,
        option_views(svc.public_options@),
    )
}

/// Whether the service answers a discovery request.
pub fn matches_discovery(svc: &Service, body: &Vec<u8>, options: &Vec<Vec<u8>>) -> (r: bool)
    ensures
        r == discovery_matches(*svc, body@, option_views(options@)),
{
    let by_body = if svc.encrypted {
        false
    } else {
        IoT::matches(&svc.body, body.as_slice())
    };
    if by_body {
        true
    } else {
        any_option(options, &svc.public_options)
    }
}

/// The answer to a discovery request: the primary page where the
/// request matches and the page could be fetched, else none.
pub fn discovery_response<E>(matched: bool, fetched: Result<Option<Vec<u8>>, E>) -> (r:
    EngineResponse)
    ensures
        r@ == (match fetched {
            Ok(Some(page)) => if matched {
                ResponseModel::Page(page@)
            } else {
                ResponseModel::Nothing
            },
            _ => ResponseModel::Nothing,
        }),
{
    if !matched {
        return EngineResponse::Nothing;
    }
    match fetched {
        Ok(Some(page)) => EngineResponse::Page(page),
        _ => EngineResponse::Nothing,
    }
}

/// The answer to a query for this service: the primary page, or
/// `InvalidRequest` where there is none.
pub fn query_response(fetched: Option<Vec<u8>>) -> (r: EngineResponse)
    ensures
        r@ == (match fetched {
            Some(page) => ResponseModel::Page(page@),
            None => ResponseModel::Net(NetResponseBody::Status(Status::InvalidRequest)),
        }),
{
    match fetched {
        Some(page) => EngineResponse::Page(page),
        None => EngineResponse::Net(NetResponseBody::Status(Status::InvalidRequest)),
    }
}

/// What the engine of service `own` answers to a request, where
/// `primary` is its primary page as the store has it.
pub open spec fn request_response(svc: Service, primary: Option<Seq<u8>>, data: NetRequestBody) -> ResponseModel {
    match data {
        NetRequestBody::Hello => ResponseModel::Net(NetResponseBody::Status(Status::Success)),
        NetRequestBody::Ping => ResponseModel::Net(NetResponseBody::Status(Status::Success)),
        NetRequestBody::Discover(body, options) => match primary {
            Some(page) => if discovery_matches(svc, body@, option_views(options@)) {
                ResponseModel::Page(page)
            } else {
                ResponseModel::Nothing
            },
            None => ResponseModel::Nothing,
        },
        NetRequestBody::Query(id) => if id == svc.id {
            match primary {
                Some(page) => ResponseModel::Page(page),
                None => ResponseModel::Net(NetResponseBody::Status(Status::InvalidRequest)),
            }
        } else {
            ResponseModel::Net(NetResponseBody::Status(Status::InvalidRequest))
        },
        NetRequestBody::Subscribe(id) => if id == svc.id {
            ResponseModel::Net(NetResponseBody::Status(Status::Success))
        } else {
            ResponseModel::Net(NetResponseBody::Status(Status::InvalidRequest))
        },
        NetRequestBody::Unsubscribe(id) => if id == svc.id {
            ResponseModel::Net(NetResponseBody::Status(Status::Success))
        } else {
            ResponseModel::Net(NetResponseBody::Status(Status::InvalidRequest))
        },
        NetRequestBody::Unsupported => ResponseModel::Net(
            NetResponseBody::Status(Status::InvalidRequest),
        ),
    }
}

/// What the engine of service `own` reports for a request.
pub open spec fn request_event(own: Id, req: NetRequest) -> EngineEvent {
    match req.data {
        NetRequestBody::Subscribe(id) => if id == own {
            EngineEvent::SubscribeFrom(req.common.from)
        } else {
            EngineEvent::Idle
        },
        NetRequestBody::Unsubscribe(id) => if id == own {
            EngineEvent::UnsubscribeFrom(req.common.from)
        } else {
            EngineEvent::Idle
        },
        _ => EngineEvent::Idle,
    }
}

/// A peer record marked as a subscriber heard at `addr`.
pub open spec fn as_subscriber<A>(p: Peer<A>, addr: A) -> Peer<A> {
    Peer { keys: p.keys, addr: Some(addr), subscriber: true, subscribed: p.subscribed }
}

/// A peer record marked as no subscriber.
pub open spec fn as_no_subscriber<A>(p: Peer<A>) -> Peer<A> {
    Peer { keys: p.keys, addr: p.addr, subscriber: false, subscribed: p.subscribed }
}

/// The peer table of the engine of service `own` after a request that
/// came from `addr`.
pub open spec fn request_peers<A>(peers: Map<Id, Peer<A>>, own: Id, addr: A, req: NetRequest) -> Map<
    Id,
    Peer<A>,
> {
    let known = heard(peers, req.common, addr);
    let from = req.common.from;
    match req.data {
        NetRequestBody::Subscribe(id) => if id == own {
            known.insert(from, as_subscriber(peer_or_fresh(known, from), addr))
        } else {
            known
        },
        NetRequestBody::Unsubscribe(id) => if id == own {
            known.insert(from, as_no_subscriber(peer_or_fresh(known, from)))
        } else {
            known
        },
        _ => known,
    }
}

/// A request changes no subscription of the engine to any peer.
pub proof fn lemma_request_keeps_subscriptions<A>(
    peers: Map<Id, Peer<A>>,
    own: Id,
    addr: A,
    req: NetRequest,
    id: Id,
)
    ensures
        peer_or_fresh(request_peers(peers, own, addr, req), id).subscribed == peer_or_fresh(
            peers,
            id,
        ).subscribed,
{
}

impl<Addr: Copy, Comms: Communications<Address = Addr>, Stor: Store<Address = Addr>, const N: usize> Engine<
    Comms,
    Stor,
    N,
> {
    /// Handles a request that came from `from`: keeps what it tells of
    /// its sender, and decides on the answer and on what to report.
    ///
    /// A discovery request is answered with the primary page where it
    /// matches, and not at all where it does not or the page cannot be
    /// fetched. Errors of the store are passed on.
    pub fn handle_req(&mut self, from: &Addr, req: &NetRequest) -> (r: Result<
        (EngineResponse, EngineEvent),
        EngineError<Comms::Error, Stor::Error>,
    >)
        requires
            old(self).wf(),
        ensures
            final(self).wf(),
            final(self).keeps_config(old(self)),
            r matches Ok((resp, evt)) ==> {
                &&& final(self).keeps_pages(old(self))
                &&& final(self).spec_store().peer_map() == request_peers(
                    old(self).spec_store().peer_map(),
                    old(self).spec_id(),
                    *from,
                    *req,
                )
                &&& evt == request_event(old(self).spec_id(), *req)
                &&& (resp@ == request_response(
                    old(self).spec_service(),
                    old(self).spec_store().page_map().get(old(self).spec_pri()),
                    req.data,
                ) || (req.data is Discover && resp@ is Nothing))
                &&& (Stor::infallible() ==> resp@ == request_response(
                    old(self).spec_service(),
                    old(self).spec_store().page_map().get(old(self).spec_pri()),
                    req.data,
                ))
            },
            r matches Err(e) ==> e is Store,
            Stor::infallible() ==> r is Ok,
    {
        self.learn(from, &req.common)?;
        let sender = req.common.from;
        match &req.data {
            NetRequestBody::Hello => Ok(
                (EngineResponse::Net(NetResponseBody::Status(Status::Success)), EngineEvent::Idle),
            ),
            NetRequestBody::Ping => Ok(
                (EngineResponse::Net(NetResponseBody::Status(Status::Success)), EngineEvent::Idle),
            ),
            NetRequestBody::Discover(body, options) => {
                let matched = matches_discovery(&self.svc, body, options);
                let fetched = if matched {
                    self.store.fetch_page(&self.pri)
                } else {
                    Ok(None)
                };
                Ok((discovery_response(matched, fetched), EngineEvent::Idle))
            },
            NetRequestBody::Query(id) => {
                if *id == self.svc.id {
                    match self.store.fetch_page(&self.pri) {
                        Ok(fetched) => Ok((query_response(fetched), EngineEvent::Idle)),
                        Err(e) => Err(EngineError::Store(e)),
                    }
                } else {
                    Ok(
                        (
                            EngineResponse::Net(NetResponseBody::Status(Status::InvalidRequest)),
                            EngineEvent::Idle,
                        ),
                    )
                }
            },
            NetRequestBody::Subscribe(id) => {
                if *id == self.svc.id {
                    let p = self.load_peer(&sender)?;
                    self.save_peer(
                        &sender,
                        Peer { keys: p.keys, addr: Some(*from), subscriber: true, subscribed: p.subscribed },
                    )?;
                    Ok(
                        (
                            EngineResponse::Net(NetResponseBody::Status(Status::Success)),
                            EngineEvent::SubscribeFrom(sender),
                        ),
                    )
                } else {
                    Ok(
                        (
                            EngineResponse::Net(NetResponseBody::Status(Status::InvalidRequest)),
                            EngineEvent::Idle,
                        ),
                    )
                }
            },
            NetRequestBody::Unsubscribe(id) => {
                if *id == self.svc.id {
                    let p = self.load_peer(&sender)?;
                    self.save_peer(
                        &sender,
                        Peer { keys: p.keys, addr: p.addr, subscriber: false, subscribed: p.subscribed },
                    )?;
                    Ok(
                        (
                            EngineResponse::Net(NetResponseBody::Status(Status::Success)),
                            EngineEvent::UnsubscribeFrom(sender),
                        ),
                    )
                } else {
                    Ok(
                        (
                            EngineResponse::Net(NetResponseBody::Status(Status::InvalidRequest)),
                            EngineEvent::Idle,
                        ),
                    )
                }
            },
            NetRequestBody::Unsupported => Ok(
                (
                    EngineResponse::Net(NetResponseBody::Status(Status::InvalidRequest)),
                    EngineEvent::Idle,
                ),
            ),
        }
    }
}

} // verus!
