use dsf_iot::endpoint::data::EpData;
use dsf_iot::endpoint::desc::{EpDescriptor, EpFlags};
use dsf_iot::endpoint::kinds::EpKind;
use dsf_iot::endpoint::value::EpValue;
use dsf_iot::endpoint::{decode_data, encode_descriptors, IotData, IotInfo};
use dsf_iot::engine::response::correlate;
use dsf_iot::engine::{
    Common, Communications, Engine, EngineError, EngineEvent, EngineResponse, Flags, Id, Inbound,
    Keys, MemoryStore, MockComms, NetRequest, NetRequestBody, NetResponse, NetResponseBody,
    ObjectInfo, Page, PageInfo, Peer, PublicKey, Service, Signature, Status, Store, StoreFlags,
    SubscribeState,
};
use dsf_iot::engine::SubscribeState::{Subscribed, Subscribing, Unsubscribed, Unsubscribing};
use dsf_iot::IoT;

type TestEngine = Engine<MockComms, MemoryStore<u8>, 512>;

fn id(n: u128) -> Id {
    Id { lo: n, hi: !n }
}

fn key(n: u128) -> PublicKey {
    PublicKey { lo: n, hi: n + 1 }
}

fn sig(n: u128) -> Signature {
    Signature { w0: n, w1: n + 1, w2: n + 2, w3: n + 3 }
}

fn peer_id() -> Id {
    id(0x50)
}

fn engine_id() -> Id {
    id(0xe0)
}

fn primary_page() -> Vec<u8> {
    (0u8..100).collect()
}

fn descriptors() -> Vec<EpDescriptor> {
    vec![
        EpDescriptor::new(EpKind::Temperature, EpFlags::r()),
        EpDescriptor::new(EpKind::Pressure, EpFlags::r()),
        EpDescriptor::new(EpKind::Humidity, EpFlags::r()),
    ]
}

fn service(own: Id, encrypted: bool, public_options: Vec<Vec<u8>>) -> Service {
    Service {
        id: own,
        public_key: key(0xe1),
        encrypted,
        body: IotInfo::<8>::new(&descriptors()).unwrap(),
        public_options,
    }
}

fn engine_for(own: Id, peer: Id, encrypted: bool, public_options: Vec<Vec<u8>>) -> TestEngine {
    // Memory store with pre-filled peer keys.
    let mut s = MemoryStore::<u8>::new();
    let mut known = Peer::new();
    known.keys.pub_key = Some(key(0x51));
    s.update_peer(&peer, known).unwrap();

    let primary = ObjectInfo { page_index: 0, block_index: 0, sig: sig(1) };
    Engine::new(
        service(own, encrypted, public_options),
        primary,
        &primary_page(),
        MockComms::default(),
        s,
    )
    .expect("Failed to create engine")
}

// Setup an engine instance for testing
fn setup() -> (Id, TestEngine) {
    (peer_id(), engine_for(engine_id(), peer_id(), false, vec![]))
}

fn request(from: Id, req_id: u16, data: NetRequestBody) -> NetRequest {
    NetRequest {
        common: Common { from, id: req_id, flags: Flags::empty(), public_key: None },
        data,
    }
}

fn response(from: Id, req_id: u16, data: NetResponseBody) -> NetResponse {
    NetResponse {
        common: Common { from, id: req_id, flags: Flags::empty(), public_key: None },
        data,
    }
}

fn status(s: Status) -> EngineResponse {
    EngineResponse::Net(NetResponseBody::Status(s))
}

fn stored(e: &TestEngine, p: &Id) -> Option<Peer<u8>> {
    e.store().get_peer(p).unwrap()
}

#[test]
fn test_handle_reqs() {
    // Create peer for sending requests
    let (p, mut e) = setup();
    let from = 1;

    let tests = [
        (NetRequestBody::Hello, NetResponseBody::Status(Status::Success)),
        (NetRequestBody::Ping, NetResponseBody::Status(Status::Success)),
    ];

    for t in &tests {
        // Generate full request object
        let req = request(p, 1, t.0.clone());

        // Pass to engine
        let (resp, _evt) = e.handle_req(&from, &req).expect("Failed to handle message");

        // Check response
        assert_eq!(resp, EngineResponse::Net(t.1), "Unexpected response for request: {:#?}", req);
    }
}

#[test]
fn test_handle_subscribe() {
    let (p, mut e) = setup();
    let from = 1;

    // Build subscribe request and execute
    let req = request(p, 1, NetRequestBody::Subscribe(e.id()));
    let (resp, evt) = e.handle_req(&from, &req).expect("Failed to handle message");

    // Check response
    assert_eq!(resp, status(Status::Success));

    // Check subscriber state
    assert_eq!(stored(&e, &p).map(|p| p.subscriber), Some(true));
    assert_eq!(stored(&e, &p).map(|p| p.addr), Some(Some(from)));
    assert_eq!(evt, EngineEvent::SubscribeFrom(p));
}

#[test]
fn test_handle_unsubscribe() {
    let (p, mut e) = setup();
    let from = 1;

    let mut known = stored(&e, &p).unwrap();
    known.subscriber = true;
    e.update_peer(&p, known).unwrap();

    // Build subscribe request and execute
    let req = request(p, 1, NetRequestBody::Unsubscribe(e.id()));
    let (resp, evt) = e.handle_req(&from, &req).expect("Failed to handle message");

    // Check response
    assert_eq!(resp, status(Status::Success));

    // Check subscriber state
    assert_eq!(stored(&e, &p).map(|p| p.subscriber), Some(false));
    assert_eq!(evt, EngineEvent::UnsubscribeFrom(p));
}

#[test]
fn test_handle_discover() {
    let (p, mut e) = setup();
    let from = 1;

    // Build net request and execute
    let ep_filter = [EpDescriptor::new(EpKind::Temperature, EpFlags::r())];
    let mut body = [0u8; 128];
    let n = encode_descriptors(&ep_filter, &mut body).unwrap();
    let req = request(p, 1, NetRequestBody::Discover(body[..n].to_vec(), vec![]));
    let (resp, _evt) = e.handle_req(&from, &req).expect("Failed to handle message");

    // Check response
    assert_eq!(resp, EngineResponse::Page(e.fetch_page(&e.primary()).unwrap().unwrap()));
    assert_eq!(resp, EngineResponse::Page(primary_page()));
}

#[test]
fn test_publish() {
    let (p, mut e) = setup();
    let from = 1;

    // Setup peer as subscriber
    let mut known = stored(&e, &p).unwrap();
    known.subscriber = true;
    known.addr = Some(from);
    e.update_peer(&p, known).unwrap();

    // Build object for publishing
    let endpoint_data = IotData::<8>::new(&[
        EpData::new(EpValue::Float32(27.3f32.to_bits())),
        EpData::new(EpValue::Float32(1016.2f32.to_bits())),
        EpData::new(EpValue::Float32(59.6f32.to_bits())),
    ])
    .unwrap();
    let mut raw = [0u8; 512];
    let n = endpoint_data.encode(&mut raw).unwrap();
    let info = ObjectInfo { page_index: 0, block_index: 1, sig: sig(2) };

    // Call publish operation
    assert_eq!(e.publish(info, &raw[..n]).expect("Publishing error"), sig(2));

    // Check outgoing data
    assert_eq!(e.comms().tx.len(), 1);
    let d = e.comms().tx.last().unwrap();
    assert_eq!(d.0, from);

    // Translate back to IoT data and check
    let values = decode_data(&d.1, 8).expect("Failed to parse object");
    assert_eq!(values, endpoint_data.as_slice());
    assert_eq!(
        values.iter().map(|d| d.value.clone()).collect::<Vec<_>>(),
        vec![
            EpValue::Float32(27.3f32.to_bits()),
            EpValue::Float32(1016.2f32.to_bits()),
            EpValue::Float32(59.6f32.to_bits()),
        ]
    );

    // The object can be fetched by its signature, and is the last of the chain.
    assert_eq!(e.fetch_page(&sig(2)).unwrap(), Some(raw[..n].to_vec()));
    assert_eq!(e.last().unwrap(), Some(info));
}

#[test]
fn test_subscribe() {
    let (p, mut e) = setup();
    let from = 1;

    // Setup peer with a known address
    let mut known = stored(&e, &p).unwrap();
    known.addr = Some(from);
    e.update_peer(&p, known).unwrap();

    // Call subscribe operation
    let req = e.subscribe(p, from).expect("Subscribing error");

    // Check peer state
    assert_eq!(
        stored(&e, &p).map(|p| p.subscribed),
        Some(SubscribeState::Subscribing(e.req_id()))
    );

    // Check outgoing request
    let expected = request(e.id(), e.req_id(), NetRequestBody::Subscribe(p));
    assert_eq!(req, expected, "Request mismatch");

    // Hand the request over for sending, as the host does once it is encoded
    e.send(&from, &[0xde, 0xad]).unwrap();
    let d = e.comms().tx.last().expect("No outgoing data found");
    assert_eq!(d.0, from, "outgoing address mismatch");

    // Respond with subscribe ok
    let resp = response(p, e.req_id(), NetResponseBody::Status(Status::Success));
    let (answer, evt) = e.handle_resp(&from, &resp).expect("Response handling failed");
    assert_eq!(answer, EngineResponse::Nothing);
    assert_eq!(evt, EngineEvent::SubscribedTo(p));

    // Check peer state is now subscribed
    assert_eq!(stored(&e, &p).map(|p| p.subscribed), Some(SubscribeState::Subscribed));

    // Test receiving data
    let page = Page { id: p, signature: sig(7), index: 3, info: PageInfo::Data };
    let (answer, evt) = e.handle_page(&from, &page).expect("Failed to handle page");
    assert_eq!(answer, status(Status::Success));
    assert_eq!(evt, EngineEvent::ReceivedData(p, sig(7)));
}

/// Moves what one engine decided on to the other, in place of a socket
/// and of the wire layer between the two.
fn deliver(to: &mut TestEngine, from: u8, obj: Inbound) -> (EngineEvent, Option<NetResponse>) {
    let h = to.tick(Some((from, obj))).unwrap();
    (h.event, h.reply)
}

#[test]
fn integration() {
    // Create a pair of engines, at the addresses 1 and 2
    let mut e1 = engine_for(id(0x111), id(0x999), false, vec![]);
    let mut e2 = engine_for(id(0x222), id(0x999), false, vec![]);

    // Tick engines to get started
    assert_eq!(e1.tick(None).unwrap().event, EngineEvent::Idle);
    assert_eq!(e2.tick(None).unwrap().event, EngineEvent::Idle);

    // Attempt local service discovery
    let ep_filter = [EpDescriptor::new(EpKind::Temperature, EpFlags::r())];
    let mut body = [0u8; 128];
    let n = encode_descriptors(&ep_filter, &mut body).unwrap();
    let discover = e1.discover(&body[..n], &[]);
    e1.broadcast(&[1, 2, 3]).unwrap();
    assert_eq!(e1.comms().bc, vec![vec![1u8, 2, 3]]);

    // The second engine answers with its primary page, sent at once
    let (evt, reply) = deliver(&mut e2, 1, Inbound::Request(discover));
    assert_eq!(evt, EngineEvent::Idle);
    assert_eq!(reply, None);
    assert_eq!(e2.comms().tx, vec![(1u8, primary_page())]);

    // The first engine learns of the second from that page
    let announced =
        Page { id: e2.id(), signature: e2.primary(), index: 0, info: PageInfo::Primary(key(0xe1)) };
    let (evt, _) = deliver(&mut e1, 2, Inbound::Page(announced));
    assert_eq!(evt, EngineEvent::Discover(e2.id()));

    // Attempt subscription
    let subscribe = e1.subscribe(e2.id(), 2).unwrap();

    // Tick to update subscription state
    let (evt, reply) = deliver(&mut e2, 1, Inbound::Request(subscribe));
    assert_eq!(evt, EngineEvent::SubscribeFrom(e1.id()));
    let (evt, _) = deliver(&mut e1, 2, Inbound::Response(reply.unwrap()));
    assert_eq!(evt, EngineEvent::SubscribedTo(e2.id()));

    // Publishing data
    let data = IotData::<8>::new(&[
        EpData::new(EpValue::Float32(27.3f32.to_bits())),
        EpData::new(EpValue::Float32(1016.2f32.to_bits())),
        EpData::new(EpValue::Float32(59.6f32.to_bits())),
    ])
    .unwrap();
    let mut raw = [0u8; 128];
    let n = data.encode(&mut raw).unwrap();
    let info = ObjectInfo { page_index: 0, block_index: 1, sig: sig(9) };
    let signature = e2.publish(info, &raw[..n]).unwrap();
    assert_eq!(e2.comms().tx.last(), Some(&(1u8, raw[..n].to_vec())));

    // Tick to update publish state
    let object = Page { id: e2.id(), signature, index: 1, info: PageInfo::Data };
    let (evt, _) = deliver(&mut e1, 2, Inbound::Block(object));
    assert_eq!(evt, EngineEvent::ReceivedData(e2.id(), signature));
}

#[test]
fn hello_and_ping_are_answered_with_the_request_id() {
    let (p, mut e) = setup();
    for body in [NetRequestBody::Hello, NetRequestBody::Ping] {
        let h = e.handle(1, &Inbound::Request(request(p, 1, body))).unwrap();
        assert_eq!(h.event, EngineEvent::Idle);
        assert_eq!(h.response, status(Status::Success));
        assert_eq!(
            h.reply,
            Some(response(e.id(), 1, NetResponseBody::Status(Status::Success)))
        );
    }
    assert!(e.comms().tx.is_empty());
}

#[test]
fn key_request_obliges_the_reply_to_carry_the_key() {
    let (p, mut e) = setup();
    let mut req = request(p, 77, NetRequestBody::Ping);
    req.common.flags.pub_key_request = true;
    req.common.public_key = Some(key(0x77));
    let h = e.handle(4, &Inbound::Request(req)).unwrap();
    let reply = h.reply.unwrap();
    assert_eq!(reply.common.id, 77);
    assert_eq!(reply.common.from, e.id());
    assert_eq!(reply.common.public_key, Some(key(0xe1)));
    // The key and the address of the sender were learnt.
    let known = stored(&e, &p).unwrap();
    assert_eq!(known.keys.pub_key, Some(key(0x77)));
    assert_eq!(known.addr, Some(4));
}

#[test]
fn own_objects_are_dropped() {
    let (_p, mut e) = setup();
    let own = e.id();
    let mut req = request(own, 5, NetRequestBody::Subscribe(own));
    req.common.public_key = Some(key(3));
    let objects = [
        Inbound::Request(req),
        Inbound::Response(response(own, 5, NetResponseBody::Status(Status::Success))),
        Inbound::Page(Page { id: own, signature: sig(4), index: 0, info: PageInfo::Primary(key(1)) }),
        Inbound::Block(Page { id: own, signature: sig(4), index: 1, info: PageInfo::Data }),
        Inbound::Unsupported(own),
    ];
    for obj in &objects {
        let h = e.handle(9, obj).unwrap();
        assert_eq!(h.event, EngineEvent::Idle);
        assert_eq!(h.response, EngineResponse::Nothing);
        assert_eq!(h.reply, None);
    }
    assert_eq!(stored(&e, &own), None);
    assert!(e.comms().tx.is_empty());
    assert_eq!(e.store().peers().len(), 1);
}

#[test]
fn unsupported_objects_are_unhandled() {
    let (p, mut e) = setup();
    assert_eq!(e.handle(1, &Inbound::Unsupported(p)).err(), Some(EngineError::Unhandled));
}

#[test]
fn subscribe_to_another_service_is_invalid() {
    let (p, mut e) = setup();
    for body in [
        NetRequestBody::Subscribe(id(1)),
        NetRequestBody::Unsubscribe(id(1)),
        NetRequestBody::Query(id(1)),
        NetRequestBody::Unsupported,
    ] {
        let (resp, evt) = e.handle_req(&1, &request(p, 1, body)).unwrap();
        assert_eq!(resp, status(Status::InvalidRequest));
        assert_eq!(evt, EngineEvent::Idle);
    }
    assert_eq!(stored(&e, &p).map(|p| p.subscriber), Some(false));
}

#[test]
fn query_returns_the_primary_page() {
    let (p, mut e) = setup();
    let h = e.handle(6, &Inbound::Request(request(p, 2, NetRequestBody::Query(e.id())))).unwrap();
    assert_eq!(h.response, EngineResponse::Page(primary_page()));
    assert_eq!(h.reply, None);
    assert_eq!(e.comms().tx, vec![(6u8, primary_page())]);
}

#[test]
fn discover_matches_permissively() {
    let option = vec![0x10u8, 0x00, 0x01];
    let encode = |list: &[EpDescriptor]| {
        let mut body = [0u8; 64];
        let n = encode_descriptors(list, &mut body).unwrap();
        body[..n].to_vec()
    };
    let hit = encode(&[EpDescriptor::new(EpKind::Humidity, EpFlags::r())]);
    let miss = encode(&[
        EpDescriptor::new(EpKind::Humidity, EpFlags::w()),
        EpDescriptor::new(EpKind::Colour, EpFlags::r()),
    ]);
    let second = encode(&[
        EpDescriptor::new(EpKind::Colour, EpFlags::r()),
        EpDescriptor::new(EpKind::Pressure, EpFlags::r()),
    ]);
    let mut broken = miss.clone();
    broken.extend_from_slice(&[0xff, 0xff, 0x00]);
    broken.extend_from_slice(&hit);

    let (p, mut e) = (peer_id(), engine_for(engine_id(), peer_id(), false, vec![option.clone()]));
    let page = EngineResponse::Page(primary_page());
    let cases = [
        (vec![], vec![], page.clone()),
        (hit.clone(), vec![], page.clone()),
        (second, vec![], page.clone()),
        (miss.clone(), vec![], EngineResponse::Nothing),
        (broken, vec![], EngineResponse::Nothing),
        (miss.clone(), vec![vec![1u8], option.clone()], page.clone()),
        (miss.clone(), vec![vec![1u8]], EngineResponse::Nothing),
    ];
    for (body, options, expected) in cases {
        let req = request(p, 1, NetRequestBody::Discover(body, options));
        let (resp, evt) = e.handle_req(&1, &req).unwrap();
        assert_eq!(resp, expected);
        assert_eq!(evt, EngineEvent::Idle);
    }

    // An encrypted service matches by its public options only.
    let mut private = engine_for(engine_id(), peer_id(), true, vec![option.clone()]);
    let req = request(p, 1, NetRequestBody::Discover(hit.clone(), vec![]));
    assert_eq!(private.handle_req(&1, &req).unwrap().0, EngineResponse::Nothing);
    let req = request(p, 1, NetRequestBody::Discover(hit, vec![option]));
    assert_eq!(private.handle_req(&1, &req).unwrap().0, page);
}

#[test]
fn matches_decodes_until_the_input_fails() {
    let info = IotInfo::<8>::new(&descriptors()).unwrap();
    let mut body = [0u8; 16];
    encode_descriptors(
        &[
            EpDescriptor::new(EpKind::State, EpFlags::r()),
            EpDescriptor::new(EpKind::Temperature, EpFlags::r()),
        ],
        &mut body,
    )
    .unwrap();
    assert!(IoT::matches(&info, &[]));
    assert!(IoT::matches(&info, &body));
    assert!(!IoT::matches(&info, &body[..8]));
    assert!(!IoT::matches(&info, &body[..15]));
    assert!(!IoT::matches(&info, &[0, 0, 0, 0]));
    assert_eq!(IoT::APPLICATION_ID, 1);
}

#[test]
fn subscription_state_moves_as_the_table_says() {
    let p = peer_id();
    let ok = NetResponseBody::Status(Status::Success);
    let no = NetResponseBody::Status(Status::InvalidRequest);
    let cases = [
        (Subscribing(4), 4, ok, Subscribed, EngineEvent::SubscribedTo(p)),
        (Subscribing(4), 4, no, Unsubscribed, EngineEvent::Idle),
        (Subscribing(4), 5, ok, Subscribing(4), EngineEvent::Idle),
        (Unsubscribing(8), 8, ok, Unsubscribed, EngineEvent::UnsubscribedTo(p)),
        (Unsubscribing(8), 8, no, Unsubscribing(8), EngineEvent::Idle),
        (Unsubscribing(8), 9, ok, Unsubscribing(8), EngineEvent::Idle),
        (Subscribed, 1, ok, Subscribed, EngineEvent::Idle),
        (Unsubscribed, 1, ok, Unsubscribed, EngineEvent::Idle),
        (Subscribing(4), 4, NetResponseBody::Unsupported, Subscribing(4), EngineEvent::Idle),
    ];
    for (prior, req_id, data, next, evt) in cases {
        assert_eq!(correlate(prior, p, req_id, data), (next, evt));
    }
}

#[test]
fn responses_move_the_stored_subscription() {
    let (p, mut e) = setup();
    let mut known = stored(&e, &p).unwrap();
    known.subscribed = SubscribeState::Unsubscribing(12);
    e.update_peer(&p, known).unwrap();

    let mut resp = response(p, 12, NetResponseBody::Status(Status::Success));
    resp.common.public_key = Some(key(0x99));
    let (answer, evt) = e.handle_resp(&3, &resp).unwrap();
    assert_eq!(answer, EngineResponse::Nothing);
    assert_eq!(evt, EngineEvent::UnsubscribedTo(p));
    let after = stored(&e, &p).unwrap();
    assert_eq!(after.subscribed, SubscribeState::Unsubscribed);
    assert_eq!(after.keys.pub_key, Some(key(0x99)));
    assert_eq!(after.addr, Some(3));

    // A refused subscription is dropped.
    let req = e.subscribe(p, 3).unwrap();
    let refusal = response(p, req.common.id, NetResponseBody::Status(Status::InvalidRequest));
    assert_eq!(e.handle_resp(&3, &refusal).unwrap().1, EngineEvent::Idle);
    assert_eq!(stored(&e, &p).unwrap().subscribed, SubscribeState::Unsubscribed);

    // A response of an unknown peer changes nothing.
    let stranger = response(id(0x404), 1, NetResponseBody::Status(Status::Success));
    assert_eq!(
        e.handle_resp(&3, &stranger).unwrap(),
        (EngineResponse::Nothing, EngineEvent::Idle)
    );
    assert_eq!(stored(&e, &id(0x404)), None);

    // A response that is no status is not supported.
    let odd = response(p, 1, NetResponseBody::Unsupported);
    assert_eq!(e.handle_resp(&3, &odd).err(), Some(EngineError::Unsupported));
}

#[test]
fn pages_announce_and_data_needs_a_subscription() {
    let (p, mut e) = setup();
    let stranger = id(0x31);

    // Data of a known peer that is not subscribed to.
    let data = Page { id: p, signature: sig(5), index: 2, info: PageInfo::Data };
    assert_eq!(
        e.handle_page(&1, &data).unwrap(),
        (status(Status::InvalidRequest), EngineEvent::Idle)
    );
    // Data of an unknown peer.
    let lost = Page { id: stranger, signature: sig(5), index: 2, info: PageInfo::Data };
    assert_eq!(
        e.handle_page(&1, &lost).unwrap(),
        (status(Status::InvalidRequest), EngineEvent::Idle)
    );
    // A primary page of an unknown peer creates its record.
    let primary = Page { id: stranger, signature: sig(6), index: 0, info: PageInfo::Primary(key(8)) };
    let h = e.handle(1, &Inbound::Page(primary)).unwrap();
    assert_eq!(h.event, EngineEvent::Discover(stranger));
    assert_eq!(h.reply, Some(response(e.id(), 0, NetResponseBody::Status(Status::Success))));
    let known = stored(&e, &stranger).unwrap();
    assert_eq!(known.keys.pub_key, Some(key(8)));
    assert_eq!(known.addr, None);
    assert!(!known.subscribed());
    // Any other page.
    let other = Page { id: p, signature: sig(6), index: 0, info: PageInfo::Unsupported };
    assert_eq!(
        e.handle_page(&1, &other).unwrap(),
        (status(Status::InvalidRequest), EngineEvent::Idle)
    );
    // Data while the subscription is asked for is taken already.
    let req = e.subscribe(p, 1).unwrap();
    assert_eq!(req.common.id, 1);
    assert_eq!(
        e.handle_page(&1, &data).unwrap().1,
        EngineEvent::ReceivedData(p, sig(5))
    );
}

#[test]
fn requests_to_unknown_addresses_exchange_keys() {
    let (p, mut e) = setup();
    // No peer is known at address 7.
    let req = e.subscribe(p, 7).unwrap();
    assert_eq!(req.common.flags, Flags { pub_key_request: true, no_persist: false });
    assert_eq!(req.common.public_key, Some(key(0xe1)));
    assert_eq!(req.common.id, 1);
    // Once the peer is known there, keys are exchanged no more.
    let mut known = stored(&e, &p).unwrap();
    known.addr = Some(7);
    e.update_peer(&p, known).unwrap();
    let again = e.request(&7, 40, NetRequestBody::Ping);
    assert_eq!(again, request(e.id(), 40, NetRequestBody::Ping));
}

#[test]
fn discover_request_asks_for_keys_and_counts_up() {
    let (_p, mut e) = setup();
    let first = e.discover(&[1, 2], &[vec![3u8, 4]]);
    assert_eq!(
        first,
        NetRequest {
            common: Common {
                from: e.id(),
                id: 1,
                flags: Flags { pub_key_request: true, no_persist: true },
                public_key: Some(key(0xe1)),
            },
            data: NetRequestBody::Discover(vec![1, 2], vec![vec![3, 4]]),
        }
    );
    assert_eq!(e.discover(&[], &[]).common.id, 2);
    assert_eq!(e.req_id(), 2);
}

#[test]
fn request_ids_wrap() {
    let (_p, mut e) = setup();
    let mut last = 0;
    for _ in 0..65535u32 {
        last = e.discover(&[], &[]).common.id;
    }
    assert_eq!(last, 65535);
    assert_eq!(e.discover(&[], &[]).common.id, 0);
    assert_eq!(e.discover(&[], &[]).common.id, 1);
}

#[test]
fn publish_serves_each_subscriber_once() {
    let (p, mut e) = setup();
    let peers = [
        (p, true, Some(1u8)),
        (id(2), true, None),
        (id(3), false, Some(3)),
        (id(4), true, Some(4)),
    ];
    for (peer, subscriber, addr) in peers {
        let mut known = Peer::new();
        known.subscriber = subscriber;
        known.addr = addr;
        e.update_peer(&peer, known).unwrap();
    }
    let first = ObjectInfo { page_index: 0, block_index: 1, sig: sig(0x10) };
    let second = ObjectInfo { page_index: 0, block_index: 2, sig: sig(0x20) };
    assert_eq!(e.last().unwrap().map(|i| i.sig), Some(e.primary()));
    assert_eq!(e.publish(first, &[1, 1]).unwrap(), sig(0x10));
    assert_eq!(e.last().unwrap(), Some(first));
    assert_eq!(e.publish(second, &[2, 2, 2]).unwrap(), sig(0x20));
    assert_eq!(e.last().unwrap(), Some(second));

    let mut sent = e.comms().tx.clone();
    sent.sort();
    assert_eq!(
        sent,
        vec![(1u8, vec![1u8, 1]), (1, vec![2, 2, 2]), (4, vec![1, 1]), (4, vec![2, 2, 2])]
    );
    assert_eq!(e.fetch_page(&sig(0x10)).unwrap(), Some(vec![1, 1]));
    assert_eq!(e.fetch_page(&sig(0x20)).unwrap(), Some(vec![2, 2, 2]));
    assert_eq!(e.fetch_page(&e.primary()).unwrap(), Some(primary_page()));
    assert_eq!(e.fetch_page(&sig(0x30)).unwrap(), None);
}

#[test]
fn register_sends_the_primary_page() {
    let (_p, mut e) = setup();
    assert_eq!(e.register(&5).unwrap(), Some(e.primary()));
    assert_eq!(e.comms().tx, vec![(5u8, primary_page())]);

    // A primary page issued anew replaces the old one.
    let renewed = ObjectInfo { page_index: 1, block_index: 0, sig: sig(0x44) };
    assert_eq!(e.set_primary(renewed, &[4, 4]).unwrap(), sig(0x44));
    assert_eq!(e.primary(), sig(0x44));
    assert_eq!(e.last().unwrap(), Some(renewed));
    assert_eq!(e.register(&6).unwrap(), Some(sig(0x44)));
    assert_eq!(e.comms().tx.last(), Some(&(6u8, vec![4u8, 4])));
}

#[test]
fn memory_store_keeps_what_it_is_given() {
    let mut s = MemoryStore::<u8>::new();
    assert_eq!(s.features(), StoreFlags::all());
    assert_eq!(s.get_ident().unwrap(), None);
    assert_eq!(s.get_last().unwrap(), None);
    let mut keys = Keys::empty();
    keys.pub_key = Some(key(1));
    s.set_ident(&keys).unwrap();
    assert_eq!(s.get_ident().unwrap(), Some(keys));

    let a = id(1);
    let b = id(2);
    let mut pa = Peer::new();
    pa.keys = keys;
    s.update_peer(&a, pa).unwrap();
    s.update_peer(&b, Peer::default()).unwrap();
    pa.subscriber = true;
    s.update_peer(&a, pa).unwrap();
    assert_eq!(s.get_peer(&a).unwrap(), Some(pa));
    assert_eq!(s.get_peer(&b).unwrap(), Some(Peer::new()));
    assert_eq!(s.get_peer(&id(3)).unwrap(), None);
    assert_eq!(s.peers(), vec![(a, pa), (b, Peer::new())]);
    assert_eq!(s.keys(&a), Some(keys));
    assert_eq!(s.keys(&id(3)), None);

    // Storing a page twice is storing it once.
    s.store_page(&sig(1), &[1, 2, 3]).unwrap();
    s.store_page(&sig(1), &[1, 2, 3]).unwrap();
    s.store_page(&sig(2), &[]).unwrap();
    assert_eq!(s.fetch_page(&sig(1)).unwrap(), Some(vec![1, 2, 3]));
    assert_eq!(s.fetch_page(&sig(2)).unwrap(), Some(vec![]));
    assert_eq!(s.fetch_page(&sig(3)).unwrap(), None);
}

#[test]
fn mock_comms_records_and_never_receives() {
    let mut c = MockComms::default();
    let mut buff = [0u8; 4];
    assert_eq!(c.recv(&mut buff).unwrap(), None);
    c.send(&3, &[1, 2]).unwrap();
    c.broadcast(&[9]).unwrap();
    c.send(&4, &[]).unwrap();
    assert_eq!(c.tx, vec![(3u8, vec![1u8, 2]), (4, vec![])]);
    assert_eq!(c.bc, vec![vec![9u8]]);
}

#[test]
fn byte_forms_are_little_endian_words() {
    let bytes: Vec<u8> = (0u8..64).collect();
    let s = Signature::from_bytes(&bytes).unwrap();
    assert_eq!(s.w0, 0x0f0e0d0c_0b0a0908_07060504_03020100);
    assert_eq!(s.w3, 0x3f3e3d3c_3b3a3938_37363534_33323130);
    assert_eq!(s.to_bytes(), bytes);
    assert_eq!(Signature::from_bytes(&bytes[..63]), None);

    let i = Id::from_bytes(&bytes[..32]).unwrap();
    assert_eq!(i, Id { lo: s.w0, hi: s.w1 });
    assert_eq!(i.to_bytes(), &bytes[..32]);
    assert_eq!(Id::from_bytes(&bytes[..33]), None);

    let k = PublicKey::from_bytes(&bytes[32..]).unwrap();
    assert_eq!(k, PublicKey { lo: s.w2, hi: s.w3 });
    assert_eq!(k.to_bytes(), &bytes[32..]);
    assert_eq!(PublicKey::from_bytes(&[]), None);
}

#[test]
fn last_object_pointer_layout() {
    let info = ObjectInfo { page_index: 0x0102, block_index: 0xfffe, sig: sig(0x10) };
    let raw = info.encode();
    assert_eq!(raw.len(), 68);
    assert_eq!(&raw[..4], &[0x02, 0x01, 0xfe, 0xff]);
    assert_eq!(&raw[4..], &sig(0x10).to_bytes()[..]);
    assert_eq!(&raw[4..8], &[0x10, 0, 0, 0]);
    assert_eq!(raw[20], 0x11);
    assert_eq!(ObjectInfo::decode(&raw), Some(info));
    assert_eq!(ObjectInfo::decode(&raw[..67]), None);
    assert_eq!(ObjectInfo::decode(&[]), None);
}

#[test]
fn objects_larger_than_the_buffer_are_unsupported() {
    type Small = Engine<MockComms, MemoryStore<u8>, 4>;
    let info = ObjectInfo { page_index: 0, block_index: 0, sig: sig(1) };
    let made = Small::new(
        service(engine_id(), false, vec![]),
        info,
        &[0u8; 5],
        MockComms::default(),
        MemoryStore::new(),
    );
    assert_eq!(made.err(), Some(EngineError::Unsupported));

    let mut e = Small::new(
        service(engine_id(), false, vec![]),
        info,
        &[0u8; 4],
        MockComms::default(),
        MemoryStore::new(),
    )
    .unwrap();
    let next = ObjectInfo { page_index: 0, block_index: 1, sig: sig(2) };
    assert_eq!(e.publish(next, &[1u8; 5]).err(), Some(EngineError::Unsupported));
    assert_eq!(e.set_primary(next, &[1u8; 5]).err(), Some(EngineError::Unsupported));
    assert_eq!(e.last().unwrap(), Some(info));
    assert_eq!(e.fetch_page(&sig(2)).unwrap(), None);
    assert_eq!(e.primary(), sig(1));
    assert_eq!(e.publish(next, &[1u8; 4]).unwrap(), sig(2));
}

#[test]
fn tick_handles_what_was_received_or_idles() {
    let (p, mut e) = setup();
    let idle = e.tick(None).unwrap();
    assert_eq!(idle.event, EngineEvent::Idle);
    assert_eq!(idle.response, EngineResponse::Nothing);
    assert_eq!(idle.reply, None);

    let req = request(p, 3, NetRequestBody::Subscribe(e.id()));
    let h = e.tick(Some((2, Inbound::Request(req)))).unwrap();
    assert_eq!(h.event, EngineEvent::SubscribeFrom(p));
    assert_eq!(h.reply, Some(response(e.id(), 3, NetResponseBody::Status(Status::Success))));
    assert_eq!(stored(&e, &p).map(|p| (p.subscriber, p.addr)), Some((true, Some(2))));

    let mut buff = [0u8; 8];
    assert_eq!(e.recv(&mut buff).unwrap(), None);
    assert_eq!(e.update().unwrap(), EngineEvent::Idle);
}
