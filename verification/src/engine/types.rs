//! Plain values that the engine works on: identifiers, signatures, keys
//! and the messages that peers exchange. Byte strings of fixed width are
//! held as 128-bit words, lowest bytes first.
use vstd::prelude::*;

verus! {

/// Identifier of a service: the hash of its public key, 32 bytes.
#[derive(Debug, Clone, Copy, PartialEq, Eq, Hash, Structural)]
pub struct Id {
    pub lo: u128,
    pub hi: u128,
}

/// Signature of an object, 64 bytes. It is also the address under which
/// the object is kept.
#[derive(Debug, Clone, Copy, PartialEq, Eq, Hash, Structural)]
pub struct Signature {
    pub w0: u128,
    pub w1: u128,
    pub w2: u128,
    pub w3: u128,
}

/// Public signing key, 32 bytes.
#[derive(Debug, Clone, Copy, PartialEq, Eq, Structural)]
pub struct PublicKey {
    pub lo: u128,
    pub hi: u128,
}

/// Private signing key, 64 bytes.
#[derive(Debug, Clone, Copy, PartialEq, Eq, Structural)]
pub struct PrivateKey {
    pub w0: u128,
    pub w1: u128,
    pub w2: u128,
    pub w3: u128,
}

/// Symmetric secret key, 32 bytes.
#[derive(Debug, Clone, Copy, PartialEq, Eq, Structural)]
pub struct SecretKey {
    pub lo: u128,
    pub hi: u128,
}

/// The keys held for a service: its own, or what is known of a peer's.
#[derive(Debug, Clone, Copy, PartialEq, Eq, Structural)]
pub struct Keys {
    pub pub_key: Option<PublicKey>,
    pub pri_key: Option<PrivateKey>,
    pub sec_key: Option<SecretKey>,
}

impl Keys {
    /// No key at all.
    pub fn empty() -> (r: Keys)
        ensures
            r == (Keys { pub_key: None, pri_key: None, sec_key: None }),
    {
        Keys { pub_key: None, pri_key: None, sec_key: None }
    }
}

/// Identifier of a request, by which its response is found. It wraps.
pub type RequestId = u16;

/// The flags of an object that the engine honours.
#[derive(Debug, Clone, Copy, PartialEq, Eq, Structural)]
pub struct Flags {
    /// The sender asks the receiver to attach its public key.
    pub pub_key_request: bool,
    /// What is learnt from the object should be treated as transient.
    pub no_persist: bool,
}

impl Flags {
    /// No flag set.
    pub fn empty() -> (r: Flags)
        ensures
            r == (Flags { pub_key_request: false, no_persist: false }),
    {
        Flags { pub_key_request: false, no_persist: false }
    }
}

/// Outcome that a response reports.
#[derive(Debug, Clone, Copy, PartialEq, Eq, Structural)]
pub enum Status {
    /// The request was carried out.
    Success,
    InvalidRequest,
    Failed,
}

/// What every message carries: who sent it, the request it belongs to,
/// its flags, and the sender's public key where it is attached.
#[derive(Debug, Clone, Copy, PartialEq, Eq, Structural)]
pub struct Common {
    pub from: Id,
    pub id: RequestId,
    pub flags: Flags,
    pub public_key: Option<PublicKey>,
}

/// What a request asks for.
#[derive(Debug, Clone, PartialEq, Eq)]
pub enum NetRequestBody {
    Hello,
    Ping,
    /// Ask services to announce themselves: a body of encoded endpoint
    /// descriptors and a list of encoded options to filter by.
    Discover(Vec<u8>, Vec<Vec<u8>>),
    /// Ask for the primary page of a service.
    Query(Id),
    /// Ask to be sent what a service publishes.
    Subscribe(Id),
    /// Ask to be sent no more of what a service publishes.
    Unsubscribe(Id),
    /// Any other request, none of which the engine serves.
    Unsupported,
}

/// A request of a peer.
#[derive(Debug, Clone, PartialEq, Eq)]
pub struct NetRequest {
    pub common: Common,
    pub data: NetRequestBody,
}

/// What a response holds.
#[derive(Debug, Clone, Copy, PartialEq, Eq, Structural)]
pub enum NetResponseBody {
    Status(Status),
    /// Any other response, none of which the engine reads.
    Unsupported,
}

/// A response of a peer.
#[derive(Debug, Clone, Copy, PartialEq, Eq, Structural)]
pub struct NetResponse {
    pub common: Common,
    pub data: NetResponseBody,
}

/// What a page is, as far as the engine tells pages apart.
#[derive(Debug, Clone, Copy, PartialEq, Eq, Structural)]
pub enum PageInfo {
    /// The primary page of a service, with the service's public key.
    Primary(PublicKey),
    /// A data object.
    Data,
    /// Any other page.
    Unsupported,
}

/// A page or data object that was received and found genuine.
#[derive(Debug, Clone, Copy, PartialEq, Eq, Structural)]
pub struct Page {
    /// The service that the page belongs to.
    pub id: Id,
    /// The signature of the page.
    pub signature: Signature,
    /// The index of the page in the service's chain.
    pub index: u16,
    pub info: PageInfo,
}

/// An object that was received, parsed and found genuine.
#[derive(Debug, Clone, PartialEq, Eq)]
pub enum Inbound {
    Request(NetRequest),
    Response(NetResponse),
    Page(Page),
    Block(Page),
    /// An object of a kind that the engine does not handle, by its sender.
    Unsupported(Id),
}

impl Inbound {
    /// The service that the object comes from.
    pub open spec fn spec_sender(&self) -> Id {
        match self {
            Inbound::Request(r) => r.common.from,
            Inbound::Response(r) => r.common.from,
            Inbound::Page(p) => p.id,
            Inbound::Block(p) => p.id,
            Inbound::Unsupported(id) => *id,
        }
    }

    /// The service that the object comes from.
    pub fn sender(&self) -> (r: Id)
        ensures
            r == self.spec_sender(),
    {
        match self {
            Inbound::Request(r) => r.common.from,
            Inbound::Response(r) => r.common.from,
            Inbound::Page(p) => p.id,
            Inbound::Block(p) => p.id,
            Inbound::Unsupported(id) => *id,
        }
    }
}

/// Whether two byte strings are equal.
pub fn bytes_equal(a: &[u8], b: &[u8]) -> (r: bool)
    ensures
        r == (a@ == b@),
{
    if a.len() != b.len() {
        return false;
    }
    let n = a.len();
    let mut i: usize = 0;
    while i < n
        invariant
            n == a@.len(),
            n == b@.len(),
            i <= n,
            forall|j: int| 0 <= j < i ==> a@[j] == b@[j],
        decreases n - i,
    {
        if a[i] != b[i] {
            return false;
        }
        i = i + 1;
    }
    assert(a@ =~= b@);
    true
}

} // verus!
