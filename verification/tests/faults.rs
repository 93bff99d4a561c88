use dsf_iot::endpoint::IotInfo;
use dsf_iot::engine::{
    Common, Communications, Engine, EngineError, EngineEvent, EngineResponse, Flags, Id, Inbound,
    Keys, MemoryStore, MockComms, NetRequest, NetRequestBody, ObjectInfo, Peer, PublicKey, Service,
    Signature, Store, StoreFlags,
};

/// Communications that lose every datagram to the addresses below 100.
#[derive(Default)]
struct Lossy {
    inner: MockComms,
}

impl Communications for Lossy {
    type Address = u8;

    type Error = &'static str;

    fn recv(&mut self, _buff: &mut [u8]) -> Result<Option<(usize, u8)>, &'static str> {
        Err("nothing to hear")
    }

    fn send(&mut self, to: &u8, data: &[u8]) -> Result<(), &'static str> {
        if *to < 100 {
            return Err("unreachable");
        }
        self.inner.send(to, data).map_err(|_| "mock")
    }

    fn broadcast(&mut self, _data: &[u8]) -> Result<(), &'static str> {
        Err("no segment")
    }
}

/// A store that fails on every page, and works as a memory store else.
struct NoPages {
    inner: MemoryStore<u8>,
    fail_peers: bool,
}

impl Store for NoPages {
    type Address = u8;

    type Error = &'static str;

    fn features(&self) -> StoreFlags {
        StoreFlags { keys: true, sigs: true, pages: false }
    }

    fn get_ident(&self) -> Result<Option<Keys>, &'static str> {
        Ok(self.inner.get_ident().unwrap())
    }

    fn set_ident(&mut self, keys: &Keys) -> Result<(), &'static str> {
        Ok(self.inner.set_ident(keys).unwrap())
    }

    fn get_last(&self) -> Result<Option<ObjectInfo>, &'static str> {
        Ok(self.inner.get_last().unwrap())
    }

    fn set_last(&mut self, info: &ObjectInfo) -> Result<(), &'static str> {
        Ok(self.inner.set_last(info).unwrap())
    }

    fn get_peer(&self, id: &Id) -> Result<Option<Peer<u8>>, &'static str> {
        if self.fail_peers {
            return Err("no peers");
        }
        Ok(self.inner.get_peer(id).unwrap())
    }

    fn update_peer(&mut self, id: &Id, peer: Peer<u8>) -> Result<(), &'static str> {
        if self.fail_peers {
            return Err("no peers");
        }
        Ok(self.inner.update_peer(id, peer).unwrap())
    }

    fn peers(&self) -> Vec<(Id, Peer<u8>)> {
        self.inner.peers()
    }

    fn store_page(&mut self, _sig: &Signature, page: &[u8]) -> Result<(), &'static str> {
        if page.is_empty() {
            Ok(())
        } else {
            Err("no pages")
        }
    }

    fn fetch_page(&self, _sig: &Signature) -> Result<Option<Vec<u8>>, &'static str> {
        Err("no pages")
    }

    fn keys(&self, id: &Id) -> Option<Keys> {
        self.inner.keys(id)
    }
}

fn id(n: u128) -> Id {
    Id { lo: n, hi: 0 }
}

fn sig(n: u128) -> Signature {
    Signature { w0: n, w1: 0, w2: 0, w3: 0 }
}

fn service() -> Service {
    Service {
        id: id(1),
        public_key: PublicKey { lo: 1, hi: 1 },
        encrypted: false,
        body: IotInfo::<8>::default(),
        public_options: vec![],
    }
}

fn request(from: Id, data: NetRequestBody) -> NetRequest {
    NetRequest { common: Common { from, id: 1, flags: Flags::empty(), public_key: None }, data }
}

fn subscriber(addr: u8) -> Peer<u8> {
    let mut p = Peer::new();
    p.subscriber = true;
    p.addr = Some(addr);
    p
}

#[test]
fn publish_goes_on_past_unreachable_subscribers() {
    let primary = ObjectInfo { page_index: 0, block_index: 0, sig: sig(1) };
    let mut e = Engine::<Lossy, MemoryStore<u8>, 64>::new(
        service(),
        primary,
        &[1],
        Lossy::default(),
        MemoryStore::new(),
    )
    .unwrap();
    e.update_peer(&id(10), subscriber(10)).unwrap();
    e.update_peer(&id(20), subscriber(200)).unwrap();
    e.update_peer(&id(30), subscriber(30)).unwrap();

    let next = ObjectInfo { page_index: 0, block_index: 1, sig: sig(2) };
    assert_eq!(e.publish(next, &[7, 7]), Ok(sig(2)));
    assert_eq!(e.comms().inner.tx, vec![(200u8, vec![7u8, 7])]);
    assert_eq!(e.fetch_page(&sig(2)).unwrap(), Some(vec![7, 7]));
}

#[test]
fn errors_of_communications_are_passed_on() {
    let primary = ObjectInfo { page_index: 0, block_index: 0, sig: sig(1) };
    let mut e = Engine::<Lossy, MemoryStore<u8>, 64>::new(
        service(),
        primary,
        &[1],
        Lossy::default(),
        MemoryStore::new(),
    )
    .unwrap();
    assert_eq!(e.send(&5, &[1]), Err(EngineError::Comms("unreachable")));
    assert_eq!(e.broadcast(&[1]), Err(EngineError::Comms("no segment")));
    assert_eq!(e.recv(&mut [0u8; 4]), Err(EngineError::Comms("nothing to hear")));
    assert_eq!(e.register(&5), Err(EngineError::Comms("unreachable")));
    assert_eq!(e.register(&150), Ok(Some(sig(1))));

    // The page that answers a query cannot be sent.
    let query = Inbound::Request(request(id(9), NetRequestBody::Query(id(1))));
    assert_eq!(e.handle(5, &query).err(), Some(EngineError::Comms("unreachable")));
    let h = e.handle(150, &query).unwrap();
    assert_eq!(h.response, EngineResponse::Page(vec![1]));
}

#[test]
fn errors_of_the_store_are_passed_on() {
    let primary = ObjectInfo { page_index: 0, block_index: 0, sig: sig(1) };
    let store = NoPages { inner: MemoryStore::new(), fail_peers: false };
    let made = Engine::<MockComms, NoPages, 64>::new(
        service(),
        primary,
        &[1],
        MockComms::default(),
        store,
    );
    assert_eq!(made.err(), Some(EngineError::Store("no pages")));

    let store = NoPages { inner: MemoryStore::new(), fail_peers: false };
    let mut e =
        Engine::<MockComms, NoPages, 64>::new(service(), primary, &[], MockComms::default(), store)
            .unwrap();
    assert_eq!(e.store().features().pages, false);

    // A query fails with the store; a discovery is merely not answered.
    let query = request(id(9), NetRequestBody::Query(id(1)));
    assert_eq!(e.handle_req(&1, &query).err(), Some(EngineError::Store("no pages")));
    let discover = request(id(9), NetRequestBody::Discover(vec![], vec![]));
    assert_eq!(
        e.handle_req(&1, &discover),
        Ok((EngineResponse::Nothing, EngineEvent::Idle))
    );
    assert_eq!(e.register(&1), Err(EngineError::Store("no pages")));
    let next = ObjectInfo { page_index: 0, block_index: 1, sig: sig(2) };
    assert_eq!(e.publish(next, &[1]), Err(EngineError::Store("no pages")));
    assert!(e.comms().tx.is_empty());
}

#[test]
fn a_failing_peer_table_fails_what_needs_it() {
    let primary = ObjectInfo { page_index: 0, block_index: 0, sig: sig(1) };
    let store = NoPages { inner: MemoryStore::new(), fail_peers: true };
    let mut e =
        Engine::<MockComms, NoPages, 64>::new(service(), primary, &[], MockComms::default(), store)
            .unwrap();
    let subscribe = request(id(9), NetRequestBody::Subscribe(id(1)));
    assert_eq!(e.handle_req(&1, &subscribe).err(), Some(EngineError::Store("no peers")));
    assert_eq!(e.subscribe(id(9), 1).err(), Some(EngineError::Store("no peers")));
    assert_eq!(e.get_peer(&id(9)), Err(EngineError::Store("no peers")));
    // What needs no peer goes on.
    let ping = request(id(9), NetRequestBody::Ping);
    assert!(e.handle_req(&1, &ping).is_ok());
}

#[test]
fn tick_passes_over_what_goes_wrong_with_one_datagram() {
    let primary = ObjectInfo { page_index: 0, block_index: 0, sig: sig(1) };
    let mut e = Engine::<Lossy, MemoryStore<u8>, 64>::new(
        service(),
        primary,
        &[1],
        Lossy::default(),
        MemoryStore::new(),
    )
    .unwrap();
    // An object of a kind that is not handled.
    let h = e.tick(Some((5, Inbound::Unsupported(id(9))))).unwrap();
    assert_eq!(h.event, EngineEvent::Idle);
    assert_eq!(h.reply, None);
    // An answer that cannot be sent.
    let query = Inbound::Request(request(id(9), NetRequestBody::Query(id(1))));
    let h = e.tick(Some((5, query))).unwrap();
    assert_eq!(h.event, EngineEvent::Idle);
    assert_eq!(h.response, EngineResponse::Nothing);
    // The engine goes on.
    assert_eq!(e.tick(None).unwrap().event, EngineEvent::Idle);

    // An error of the store is passed on.
    let store = NoPages { inner: MemoryStore::new(), fail_peers: true };
    let mut e =
        Engine::<MockComms, NoPages, 64>::new(service(), primary, &[], MockComms::default(), store)
            .unwrap();
    let subscribe = Inbound::Request(request(id(9), NetRequestBody::Subscribe(id(1))));
    assert_eq!(e.tick(Some((1, subscribe))).err(), Some(EngineError::Store("no peers")));
}

#[test]
fn resume_finds_what_the_store_kept() {
    type E = Engine<MockComms, MemoryStore<u8>, 64>;
    let mut store = MemoryStore::<u8>::new();
    let found = E::resume(&store).unwrap();
    assert_eq!(found.keys, None);
    assert_eq!(found.last, None);

    let mut keys = Keys::empty();
    keys.pub_key = Some(PublicKey { lo: 3, hi: 4 });
    E::keep_identity(&mut store, &keys).unwrap();
    let primary = ObjectInfo { page_index: 2, block_index: 0, sig: sig(1) };
    let e = E::new(service(), primary, &[1], MockComms::default(), store).unwrap();
    let found = E::resume(e.store()).unwrap();
    assert_eq!(found.keys, Some(keys));
    assert_eq!(found.last, Some(primary));
}
