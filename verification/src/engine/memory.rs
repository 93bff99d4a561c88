//! A store that keeps everything in memory.
use vstd::prelude::*;

use core::convert::Infallible;

use crate::engine::assoc::{
    assoc_map, distinct_keys, has_key, lemma_assoc_keys, lemma_assoc_lookup, lemma_assoc_push,
    lemma_assoc_update,
};
use crate::engine::store::{ObjectInfo, Peer, Store, StoreFlags};
use crate::engine::types::{Id, Keys, Signature};

verus! {

/// A store in memory. Peers and pages are kept as lists in which no
/// identifier and no signature occurs twice.
pub struct MemoryStore<Addr: Copy> {
    our_keys: Option<Keys>,
    last_sig: Option<ObjectInfo>,
    peers: Vec<(Id, Peer<Addr>)>,
    pages: Vec<(Signature, Vec<u8>)>,
}

/// The pages of a list, each as its signature and its bytes.
pub open spec fn page_entries(pages: Seq<(Signature, Vec<u8>)>) -> Seq<(Signature, Seq<u8>)> {
    pages.map_values(|e: (Signature, Vec<u8>)| (e.0, e.1@))
}

impl<Addr: Copy> MemoryStore<Addr> {
    /// A store that holds nothing.
    pub fn new() -> (r: Self)
        ensures
            r.valid(),
            r.ident() is None,
            r.last() is None,
            r.peer_map() == Map::<Id, Peer<Addr>>::empty(),
            r.page_map() == Map::<Signature, Seq<u8>>::empty(),
    {
        let r = MemoryStore { our_keys: None, last_sig: None, peers: Vec::new(), pages: Vec::new() };
        assert(page_entries(r.pages@) == Seq::<(Signature, Seq<u8>)>::empty());
        r
    }

    /// Position of the peer with the given identifier, if it is known.
    fn find_peer(&self, id: &Id) -> (r: Option<usize>)
        ensures
            match r {
                Some(i) => i < self.peers@.len() && self.peers@[i as int].0 == *id,
                None => !has_key(self.peers@, *id),
            },
    {
        let n = self.peers.len();
        let mut i: usize = 0;
        while i < n
            invariant
                n == self.peers@.len(),
                i <= n,
                forall|j: int| 0 <= j < i ==> self.peers@[j].0 != *id,
            decreases n - i,
        {
            if self.peers[i].0 == *id {
                return Some(i);
            }
            i = i + 1;
        }
        None
    }

    /// Position of the page with the given signature, if it is kept.
    fn find_page(&self, sig: &Signature) -> (r: Option<usize>)
        ensures
            match r {
                Some(i) => i < self.pages@.len() && self.pages@[i as int].0 == *sig,
                None => !has_key(page_entries(self.pages@), *sig),
            },
    {
        let n = self.pages.len();
        let mut i: usize = 0;
        while i < n
            invariant
                n == self.pages@.len(),
                i <= n,
                forall|j: int| 0 <= j < i ==> self.pages@[j].0 != *sig,
            decreases n - i,
        {
            if self.pages[i].0 == *sig {
                return Some(i);
            }
            i = i + 1;
        }
        assert forall|j: int| 0 <= j < page_entries(self.pages@).len() implies page_entries(
            self.pages@,
        )[j].0 != *sig by {
            assert(self.pages@[j].0 != *sig);
        }
        None
    }
}

impl<Addr: Copy> Store for MemoryStore<Addr> {
    type Address = Addr;

    type Error = Infallible;

    open spec fn infallible() -> bool {
        true
    }

    closed spec fn valid(&self) -> bool {
        &&& distinct_keys(self.peers@)
        &&& distinct_keys(page_entries(self.pages@))
    }

    closed spec fn ident(&self) -> Option<Keys> {
        self.our_keys
    }

    closed spec fn last(&self) -> Option<ObjectInfo> {
        self.last_sig
    }

    closed spec fn peer_map(&self) -> Map<Id, Peer<Addr>> {
        assoc_map(self.peers@)
    }

    closed spec fn page_map(&self) -> Map<Signature, Seq<u8>> {
        assoc_map(page_entries(self.pages@))
    }

    fn features(&self) -> (r: StoreFlags)
        ensures
            r == (StoreFlags { keys: true, sigs: true, pages: true }),
    {
        StoreFlags::all()
    }

    fn get_ident(&self) -> (r: Result<Option<Keys>, Infallible>)
        ensures
            r is Ok,
    {
        Ok(self.our_keys)
    }

    fn set_ident(&mut self, keys: &Keys) -> (r: Result<(), Infallible>)
        ensures
            r is Ok,
    {
        self.our_keys = Some(*keys);
        Ok(())
    }

    fn get_last(&self) -> (r: Result<Option<ObjectInfo>, Infallible>)
        ensures
            r is Ok,
    {
        Ok(self.last_sig)
    }

    fn set_last(&mut self, info: &ObjectInfo) -> (r: Result<(), Infallible>)
        ensures
            r is Ok,
    {
        self.last_sig = Some(*info);
        Ok(())
    }

    fn get_peer(&self, id: &Id) -> (r: Result<Option<Peer<Addr>>, Infallible>)
        ensures
            r is Ok,
    {
        proof {
            lemma_assoc_keys(self.peers@, *id);
        }
        match self.find_peer(id) {
            Some(i) => {
                proof {
                    lemma_assoc_lookup(self.peers@, i as int);
                }
                Ok(Some(self.peers[i].1))
            },
            None => Ok(None),
        }
    }

    fn update_peer(&mut self, id: &Id, peer: Peer<Addr>) -> (r: Result<(), Infallible>)
        ensures
            r is Ok,
    {
        match self.find_peer(id) {
            Some(i) => {
                proof {
                    lemma_assoc_update(self.peers@, i as int, peer);
                }
                self.peers.set(i, (*id, peer));
            },
            None => {
                proof {
                    lemma_assoc_push(self.peers@, *id, peer);
                }
                self.peers.push((*id, peer));
            },
        }
        Ok(())
    }

    fn peers(&self) -> (r: Vec<(Id, Peer<Addr>)>) {
        proof {
            assert forall|i: int| 0 <= i < self.peers@.len() implies assoc_map(
                self.peers@,
            ).contains_key(#[trigger] self.peers@[i].0) && assoc_map(self.peers@)[self.peers@[i].0]
                == self.peers@[i].1 by {
                lemma_assoc_lookup(self.peers@, i);
            }
            assert forall|id: Id| assoc_map(self.peers@).contains_key(id) implies exists|i: int|
                0 <= i < self.peers@.len() && #[trigger] self.peers@[i].0 == id by {
                lemma_assoc_keys(self.peers@, id);
            }
        }
        let n = self.peers.len();
        let mut out: Vec<(Id, Peer<Addr>)> = Vec::new();
        let mut i: usize = 0;
        while i < n
            invariant
                n == self.peers@.len(),
                i <= n,
                out@ == self.peers@.subrange(0, i as int),
            decreases n - i,
        {
            out.push(self.peers[i]);
            i = i + 1;
        }
        assert(out@ == self.peers@);
        out
    }

    fn store_page(&mut self, sig: &Signature, page: &[u8]) -> (r: Result<(), Infallible>)
        ensures
            r is Ok,
    {
        let raw = vstd::slice::slice_to_vec(page);
        let ghost before = page_entries(self.pages@);
        match self.find_page(sig) {
            Some(i) => {
                proof {
                    lemma_assoc_update(before, i as int, page@);
                }
                self.pages.set(i, (*sig, raw));
                assert(page_entries(self.pages@) == before.update(i as int, (*sig, page@)));
            },
            None => {
                proof {
                    lemma_assoc_push(before, *sig, page@);
                }
                self.pages.push((*sig, raw));
                assert(page_entries(self.pages@) == before.push((*sig, page@)));
            },
        }
        Ok(())
    }

    fn fetch_page(&self, sig: &Signature) -> (r: Result<Option<Vec<u8>>, Infallible>)
        ensures
            r is Ok,
    {
        proof {
            lemma_assoc_keys(page_entries(self.pages@), *sig);
        }
        match self.find_page(sig) {
            Some(i) => {
                proof {
                    lemma_assoc_lookup(page_entries(self.pages@), i as int);
                }
                Ok(Some(self.pages[i].1.clone()))
            },
            None => Ok(None),
        }
    }

    fn keys(&self, id: &Id) -> (r: Option<Keys>) {
        proof {
            lemma_assoc_keys(self.peers@, *id);
        }
        match self.find_peer(id) {
            Some(i) => {
                proof {
                    lemma_assoc_lookup(self.peers@, i as int);
                }
                Some(self.peers[i].1.keys)
            },
            None => None,
        }
    }
}

} // verus!
