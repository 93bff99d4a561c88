//! The store: home of the identity keys, the pointer to the last
//! published object, the peer table and the page cache.
use vstd::prelude::*;

use crate::engine::types::{Id, Keys, RequestId, Signature};

verus! {

/// What a store can keep, as a set of features.
#[derive(Debug, Clone, Copy, PartialEq, Eq, Structural)]
pub struct StoreFlags {
    /// Identity keys are kept.
    pub keys: bool,
    /// The pointer to the last object is kept.
    pub sigs: bool,
    /// Pages are kept.
    pub pages: bool,
}

impl StoreFlags {
    /// Every feature.
    pub fn all() -> (r: StoreFlags)
        ensures
            r == (StoreFlags { keys: true, sigs: true, pages: true }),
    {
        StoreFlags { keys: true, sigs: true, pages: true }
    }
}

/// Pointer to the last published object, from which the chain goes on.
#[derive(Debug, Clone, Copy, PartialEq, Eq, Structural)]
pub struct ObjectInfo {
    pub page_index: u16,
    pub block_index: u16,
    pub sig: Signature,
}

/// Whether, and how far, this engine is subscribed to a peer.
#[derive(Debug, Clone, Copy, PartialEq, Eq, Structural)]
pub enum SubscribeState {
    /// No subscription, and none asked for.
    Unsubscribed,
    Subscribing(RequestId),
    Subscribed,
    Unsubscribing(RequestId),
}

/// What is known of a peer.
#[derive(Debug, Clone, Copy, PartialEq, Eq)]
pub struct Peer<Addr> {
    /// Keys of the peer, as far as known.
    pub keys: Keys,
    /// Address at which the peer was last heard, if any.
    pub addr: Option<Addr>,
    /// Whether the peer is subscribed to this service.
    pub subscriber: bool,
    /// Whether this engine is subscribed to the peer's service.
    pub subscribed: SubscribeState,
}

impl<Addr> Peer<Addr> {
    /// A peer of which nothing is known yet.
    pub open spec fn fresh() -> Peer<Addr> {
        Peer {
            keys: Keys { pub_key: None, pri_key: None, sec_key: None },
            addr: None,
            subscriber: false,
            subscribed: SubscribeState::Unsubscribed,
        }
    }

    /// A peer of which nothing is known yet.
    pub fn new() -> (r: Peer<Addr>)
        ensures
            r == Peer::<Addr>::fresh(),
    {
        Peer {
            keys: Keys::empty(),
            addr: None,
            subscriber: false,
            subscribed: SubscribeState::Unsubscribed,
        }
    }

    /// Whether data of this peer is accepted: a subscription is asked
    /// for or in place.
    pub open spec fn spec_subscribed(&self) -> bool {
        self.subscribed is Subscribing || self.subscribed is Subscribed
    }

    /// Whether data of this peer is accepted: a subscription is asked
    /// for or in place.
    pub fn subscribed(&self) -> (r: bool)
        ensures
            r == self.spec_subscribed(),
    {
        match self.subscribed {
            SubscribeState::Subscribing(_) => true,
            SubscribeState::Subscribed => true,
            _ => false,
        }
    }
}

impl<Addr> Default for Peer<Addr> {
    fn default() -> (r: Peer<Addr>)
        ensures
            r == Peer::<Addr>::fresh(),
    {
        Peer::new()
    }
}

/// A store, as the engine uses it. What it holds is described by four
/// maps; each operation that succeeds reads or changes them as stated,
/// and one that fails promises nothing but its error. An implementation
/// that does not say what the maps are leaves them undetermined, and
/// nothing is known of it.
pub trait Store {
    /// Peer address type.
    type Address: Copy;

    /// Storage error type.
    type Error;

    /// Whether the store is in order, as every store is that was made by
    /// its constructor and changed by these operations only.
    open spec fn valid(&self) -> bool {
        arbitrary()
    }

    /// Whether no operation of this kind of store ever fails. A kind of
    /// store that does not say so may fail.
    open spec fn infallible() -> bool {
        false
    }

    /// The identity keys that are kept.
    open spec fn ident(&self) -> Option<Keys> {
        arbitrary()
    }

    /// The pointer to the last object that is kept.
    open spec fn last(&self) -> Option<ObjectInfo> {
        arbitrary()
    }

    /// The peer table.
    open spec fn peer_map(&self) -> Map<Id, Peer<Self::Address>> {
        arbitrary()
    }

    /// The page cache: raw object bytes by signature.
    open spec fn page_map(&self) -> Map<Signature, Seq<u8>> {
        arbitrary()
    }

    /// What this store keeps.
    fn features(&self) -> StoreFlags;

    /// Fetch the keys of this service.
    fn get_ident(&self) -> (r: Result<Option<Keys>, Self::Error>)
        requires
            self.valid(),
        ensures
            Self::infallible() ==> r is Ok,
            r matches Ok(k) ==> k == self.ident(),
    ;

    /// Set the keys of this service.
    fn set_ident(&mut self, keys: &Keys) -> (r: Result<(), Self::Error>)
        requires
            old(self).valid(),
        ensures
            Self::infallible() ==> r is Ok,
            final(self).valid(),
            r is Ok ==> final(self).ident() == Some(*keys),
            r is Ok ==> final(self).last() == old(self).last(),
            r is Ok ==> final(self).peer_map() == old(self).peer_map(),
            r is Ok ==> final(self).page_map() == old(self).page_map(),
    ;

    /// Fetch the pointer to the last object.
    fn get_last(&self) -> (r: Result<Option<ObjectInfo>, Self::Error>)
        requires
            self.valid(),
        ensures
            Self::infallible() ==> r is Ok,
            r matches Ok(i) ==> i == self.last(),
    ;

    /// Update the pointer to the last object.
    fn set_last(&mut self, info: &ObjectInfo) -> (r: Result<(), Self::Error>)
        requires
            old(self).valid(),
        ensures
            Self::infallible() ==> r is Ok,
            final(self).valid(),
            r is Ok ==> final(self).last() == Some(*info),
            r is Ok ==> final(self).ident() == old(self).ident(),
            r is Ok ==> final(self).peer_map() == old(self).peer_map(),
            r is Ok ==> final(self).page_map() == old(self).page_map(),
    ;

    /// Fetch what is known of a peer.
    fn get_peer(&self, id: &Id) -> (r: Result<Option<Peer<Self::Address>>, Self::Error>)
        requires
            self.valid(),
        ensures
            Self::infallible() ==> r is Ok,
            r matches Ok(p) ==> p == self.peer_map().get(*id),
    ;

    /// Set what is known of a peer, whether it was known before or not.
    fn update_peer(&mut self, id: &Id, peer: Peer<Self::Address>) -> (r: Result<(), Self::Error>)
        requires
            old(self).valid(),
        ensures
            Self::infallible() ==> r is Ok,
            final(self).valid(),
            r is Ok ==> final(self).peer_map() == old(self).peer_map().insert(*id, peer),
            r is Ok ==> final(self).ident() == old(self).ident(),
            r is Ok ==> final(self).last() == old(self).last(),
            r is Ok ==> final(self).page_map() == old(self).page_map(),
    ;

    /// All peers, each once, in an order that the store chooses.
    fn peers(&self) -> (r: Vec<(Id, Peer<Self::Address>)>)
        requires
            self.valid(),
        ensures
            lists_peers(r@, self.peer_map()),
    ;

    /// Keep a page under its signature.
    fn store_page(&mut self, sig: &Signature, page: &[u8]) -> (r: Result<(), Self::Error>)
        requires
            old(self).valid(),
        ensures
            Self::infallible() ==> r is Ok,
            final(self).valid(),
            r is Ok ==> final(self).page_map() == old(self).page_map().insert(*sig, page@),
            r is Ok ==> final(self).ident() == old(self).ident(),
            r is Ok ==> final(self).last() == old(self).last(),
            r is Ok ==> final(self).peer_map() == old(self).peer_map(),
    ;

    /// Fetch the page kept under a signature.
    fn fetch_page(&self, sig: &Signature) -> (r: Result<Option<Vec<u8>>, Self::Error>)
        requires
            self.valid(),
        ensures
            Self::infallible() ==> r is Ok,
            r matches Ok(p) ==> (match p {
                Some(raw) => self.page_map().contains_key(*sig) && raw@ == self.page_map()[*sig],
                None => !self.page_map().contains_key(*sig),
            }),
    ;

    /// The keys of a peer, by which what it sends is checked.
    fn keys(&self, id: &Id) -> (r: Option<Keys>)
        requires
            self.valid(),
        ensures
            r == (match self.peer_map().get(*id) {
                Some(p) => Some(p.keys),
                None => None,
            }),
    ;
}

/// Whether a list holds exactly the entries of a peer table, each once.
pub open spec fn lists_peers<Addr>(list: Seq<(Id, Peer<Addr>)>, table: Map<Id, Peer<Addr>>) -> bool {
    &&& forall|i: int|
        0 <= i < list.len() ==> table.contains_key(#[trigger] list[i].0) && table[list[i].0]
            == list[i].1
    &&& forall|i: int, j: int| 0 <= i < j < list.len() ==> list[i].0 != list[j].0
    &&& forall|id: Id|
        table.contains_key(id) ==> exists|i: int| 0 <= i < list.len() && #[trigger] list[i].0 == id
}

/// Keeping a page under its signature twice is keeping it once.
pub proof fn lemma_store_page_idempotent(pages: Map<Signature, Seq<u8>>, sig: Signature, page: Seq<u8>)
    ensures
        pages.insert(sig, page).insert(sig, page) == pages.insert(sig, page),
        pages.insert(sig, page).contains_key(sig),
        pages.insert(sig, page)[sig] == page,
{
    assert(pages.insert(sig, page).insert(sig, page) =~= pages.insert(sig, page));
}

} // verus!
