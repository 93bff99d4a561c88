//! An IoT service as a client sees it: its identifier and its endpoints,
//! read from the body of its primary page.
use vstd::prelude::*;

use crate::endpoint::{
    decode_descriptors, descriptors_bytes, encode_descriptors, parse_descriptors, EpDescriptor,
};
use crate::engine::types::{Id, SecretKey};
use crate::error::{CoreError, IotError};
use crate::wire::overwrite;

verus! {

/// Identifier of the page kind of an IoT service page.
pub const IOT_SERVICE_PAGE_KIND: u16 = 1;

/// Identifier of the page kind of an IoT data object.
pub const IOT_DATA_PAGE_KIND: u16 = 2;

/// An IoT service.
#[derive(Debug, Clone)]
pub struct IotService {
    pub id: Id,
    /// The key by which the service's pages are read, if they are
    /// encrypted and the key is known.
    pub secret_key: Option<SecretKey>,
    /// Service endpoint information.
    pub endpoints: Vec<EpDescriptor>,
    /// Service metadata, as keys and values.
    pub meta: Vec<(String, String)>,
}

impl IotService {
    /// Create a new IoT service instance.
    pub fn new(id: Id, endpoints: Vec<EpDescriptor>, meta: Vec<(String, String)>) -> (r: IotService)
        ensures
            r.id == id,
            r.secret_key is None,
            r.endpoints == endpoints,
            r.meta == meta,
    {
        IotService { id, secret_key: None, endpoints, meta }
    }

    /// Reads a service from its primary page, of which the wire layer
    /// has checked the signature and, where a secret key was given,
    /// decrypted the body. A body that is still encrypted cannot be
    /// read: `NoSecretKey`. A body that does not decode is reported with
    /// the error of the descriptor that failed.
    pub fn decode_page(id: Id, encrypted: bool, body: &[u8], secret_key: Option<SecretKey>) -> (r:
        Result<IotService, IotError>)
        ensures
            match r {
                Ok(s) => {
                    &&& !encrypted
                    &&& parse_descriptors(body@, usize::MAX as nat) == Ok::<
                        Seq<EpDescriptor>,
                        IotError,
                    >(s.endpoints@)
                    &&& s.id == id
                    &&& s.secret_key == secret_key
                    &&& s.meta@.len() == 0
                },
                Err(e) => if encrypted {
                    e == IotError::NoSecretKey
                } else {
                    parse_descriptors(body@, usize::MAX as nat) == Err::<Seq<EpDescriptor>, IotError>(e)
                },
            },
    {
        if encrypted {
            return Err(IotError::NoSecretKey);
        }
        let endpoints = IotService::decode_body(body)?;
        Ok(IotService { id, secret_key, endpoints, meta: Vec::new() })
    }

    /// Writes the endpoints to the start of `buff`, one after the other,
    /// and returns the number of bytes written. A buffer that cannot
    /// hold them all is left as it is and reported as `BufferLength`.
    pub fn encode_body(endpoints: &[EpDescriptor], buff: &mut [u8]) -> (r: Result<usize, IotError>)
        ensures
            descriptors_bytes(endpoints@).len() <= old(buff)@.len() ==> r == Ok::<usize, IotError>(
                descriptors_bytes(endpoints@).len() as usize,
            ) && final(buff)@ == overwrite(old(buff)@, 0, descriptors_bytes(endpoints@)),
            descriptors_bytes(endpoints@).len() > old(buff)@.len() ==> r == Err::<usize, IotError>(
                IotError::Core(CoreError::BufferLength),
            ) && final(buff)@ == old(buff)@,
    {
        encode_descriptors(endpoints, buff)
    }

    /// Reads endpoints from `buff` until it is exhausted.
    pub fn decode_body(buff: &[u8]) -> (r: Result<Vec<EpDescriptor>, IotError>)
        ensures
            match parse_descriptors(buff@, usize::MAX as nat) {
                Ok(ds) => (r matches Ok(v) && v@ == ds),
                Err(e) => r == Err::<Vec<EpDescriptor>, IotError>(e),
            },
    {
        decode_descriptors(buff, usize::MAX)
    }
}

} // verus!
