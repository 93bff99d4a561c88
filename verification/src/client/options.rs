//! Options of the client's commands, as plain values.
use vstd::prelude::*;

use crate::endpoint::desc::EpFlags;
use crate::endpoint::kinds::EpKind;

use crate::endpoint::{
    descriptors_bytes, encode_descriptors, lemma_descriptors_bytes_len, value_models, values_bytes,
    EpData, EpDescriptor, IotData,
};
use crate::engine::types::Id;
use crate::error::{CoreError, IotError};
use crate::wire::zeroed;

verus! {

/// How a service is named: by its identifier, or by its index in the
/// daemon's list.
#[derive(Debug, Clone, Copy, PartialEq, Eq, Structural)]
pub struct ServiceIdentifier {
    pub id: Option<Id>,
    pub index: Option<usize>,
}

/// Options for creating a service.
#[derive(Debug, Clone)]
pub struct CreateOptions {
    /// Service endpoint information.
    pub endpoints: Vec<EpDescriptor>,
    /// Service metadata, as keys and values.
    pub meta: Vec<(String, String)>,
    /// Indicate the service should be public (unencrypted).
    pub public: bool,
    /// Indicate the service should be registered and replicated
    /// following creation.
    pub register: bool,
}

/// Options for publishing data of a service.
#[derive(Debug, Clone)]
pub struct PublishOptions {
    pub service: ServiceIdentifier,
    /// Measurement values (these must correspond with service endpoints).
    pub data: Vec<EpData>,
    /// Measurement metadata, as keys and values.
    pub meta: Vec<(String, String)>,
}

/// IoT metadata of the command line. It holds nothing so far.
#[derive(Debug, Clone, Copy, PartialEq, Eq, Structural)]
pub struct MetaOptions {}

/// Options for looking for services on the local network.
#[derive(Debug, Clone)]
pub struct DiscoverOptions {
    /// Endpoints for filtering.
    pub endpoints: Vec<EpKind>,
    /// Options for filtering, each in its encoded form.
    pub options: Vec<Vec<u8>>,
}

/// Options for registering a service with a name service.
#[derive(Debug, Clone)]
pub struct NsRegisterOptions {
    pub ns: ServiceIdentifier,
    /// IoT service to be registered.
    pub target: Id,
    /// Name for registration.
    pub name: String,
}

/// Options for searching a service with a name service.
#[derive(Debug, Clone)]
pub struct NsSearchOptions {
    pub ns: ServiceIdentifier,
    /// Service name filter.
    pub name: Option<String>,
    /// Endpoint filter.
    pub endpoint: Option<EpKind>,
    /// Option filter, in its encoded form.
    pub options: Option<Vec<u8>>,
}

/// The descriptors that a discovery filter of endpoint kinds stands
/// for: one for each kind, without flags.
pub open spec fn filter_kinds(ds: Seq<EpDescriptor>, kinds: Seq<EpKind>) -> bool {
    &&& ds.len() == kinds.len()
    &&& forall|i: int|
        0 <= i < ds.len() ==> (#[trigger] ds[i]).kind == kinds[i] && ds[i].flags.spec_bits() == 0
}

impl Default for CreateOptions {
    fn default() -> (r: CreateOptions)
        ensures
            r.endpoints@.len() == 0,
            r.meta@.len() == 0,
            !r.public,
            r.register,
    {
        CreateOptions { endpoints: Vec::new(), meta: Vec::new(), public: false, register: true }
    }
}

impl CreateOptions {
    /// The body of the primary page of the service to be created: its
    /// endpoint descriptors, encoded one after the other.
    pub fn encode_body(&self) -> (r: Result<Vec<u8>, IotError>)
        ensures
            match r {
                Ok(body) => body@ == descriptors_bytes(self.endpoints@),
                Err(e) => e == IotError::Core(CoreError::BufferLength) && descriptors_bytes(
                    self.endpoints@,
                ).len() > usize::MAX,
            },
    {
        proof {
            lemma_descriptors_bytes_len(self.endpoints@);
        }
        let n = match self.endpoints.len().checked_mul(8) {
            Some(n) => n,
            None => {
                return Err(IotError::Core(CoreError::BufferLength));
            },
        };
        let mut body = zeroed(n);
        let ghost blank = body@;
        match encode_descriptors(self.endpoints.as_slice(), body.as_mut_slice()) {
            Ok(_) => {
                assert(body@ =~= descriptors_bytes(self.endpoints@));
                Ok(body)
            },
            Err(e) => Err(e),
        }
    }
}

impl PublishOptions {
    /// The body of the data object to be published: the values, encoded
    /// one after the other. More than eight values are an `Overrun`.
    pub fn encode_body(&self) -> (r: Result<Vec<u8>, IotError>)
        ensures
            match r {
                Ok(body) => self.data@.len() <= 8 && body@ == values_bytes(value_models(self.data@)),
                Err(e) => e == IotError::Overrun && self.data@.len() > 8,
            },
    {
        let data = match IotData::<8>::new(self.data.as_slice()) {
            Ok(d) => d,
            Err(_) => {
                return Err(IotError::Overrun);
            },
        };
        let n = data.encode_len();
        let mut body = zeroed(n);
        match data.encode(body.as_mut_slice()) {
            Ok(_) => {
                assert(body@ =~= values_bytes(value_models(self.data@)));
                Ok(body)
            },
            Err(e) => Err(e),
        }
    }
}

impl DiscoverOptions {
    /// The body of the discovery request: a descriptor without flags for
    /// each endpoint kind to filter by, encoded one after the other.
    pub fn encode_body(&self) -> (r: Result<Vec<u8>, IotError>)
        ensures
            match r {
                Ok(body) => exists|ds: Seq<EpDescriptor>|
                    filter_kinds(ds, self.endpoints@) && body@ == #[trigger] descriptors_bytes(ds),
                Err(e) => e == IotError::Core(CoreError::BufferLength) && 8 * self.endpoints@.len()
                    > usize::MAX,
            },
    {
        let n = self.endpoints.len();
        let mut eps: Vec<EpDescriptor> = Vec::new();
        let mut i: usize = 0;
        while i < n
            invariant
                n == self.endpoints@.len(),
                i <= n,
                filter_kinds(eps@, self.endpoints@.subrange(0, i as int)),
            decreases n - i,
        {
            eps.push(EpDescriptor::new(self.endpoints[i], EpFlags::empty()));
            i = i + 1;
        }
        assert(self.endpoints@.subrange(0, n as int) == self.endpoints@);
        let create = CreateOptions { endpoints: eps, meta: Vec::new(), public: false, register: false };
        proof {
            lemma_descriptors_bytes_len(create.endpoints@);
        }
        create.encode_body()
    }
}

} // verus!
