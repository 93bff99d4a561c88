//! Error values of the library.
use vstd::prelude::*;

verus! {

/// Errors raised by the wire-level layer: the option codec and the
/// object handling that the engine relies on.
#[derive(Debug, Clone, Copy, PartialEq, Eq, Structural)]
pub enum CoreError {
    /// An option kind that is not known here, or a payload cut short.
    InvalidOption,
    /// The output buffer cannot hold the encoded item.
    BufferLength,
}

/// Errors of the IoT layer.
#[derive(Debug, Clone, Copy, PartialEq, Eq, Structural)]
pub enum IotError {
    /// An error of the wire-level layer, passed on unchanged.
    Core(CoreError),
    /// The service body is encrypted and no secret key was given.
    NoSecretKey,
    /// An object that should carry a body has none.
    NoBody,
    /// A text names no endpoint kind and is no numeric code either.
    UnrecognisedEndpoint,
    /// A bounded collection cannot hold what was handed to it.
    Overrun,
}

impl IotError {
    /// The message that belongs to this error.
    pub fn message(&self) -> (r: &'static str)
        ensures
            r@ == self.message_text(),
    {
        match self {
            IotError::Core(CoreError::InvalidOption) => "core error: invalid option",
            IotError::Core(CoreError::BufferLength) => "core error: buffer length",
            IotError::NoSecretKey => "No secret key for service",
            IotError::NoBody => "IoT object missing body",
            IotError::UnrecognisedEndpoint => "Unrecognised endpoint kind",
            IotError::Overrun => "Overrun in static vector",
        }
    }

    /// The text of [`IotError::message`].
    pub open spec fn message_text(&self) -> Seq<char> {
        match self {
            IotError::Core(CoreError::InvalidOption) => "core error: invalid option"@,
            IotError::Core(CoreError::BufferLength) => "core error: buffer length"@,
            IotError::NoSecretKey => "No secret key for service"@,
            IotError::NoBody => "IoT object missing body"@,
            IotError::UnrecognisedEndpoint => "Unrecognised endpoint kind"@,
            IotError::Overrun => "Overrun in static vector"@,
        }
    }
}

impl From<CoreError> for IotError {
    fn from(e: CoreError) -> (r: IotError) {
        IotError::Core(e)
    }
}

impl vstd::std_specs::convert::FromSpecImpl<CoreError> for IotError {
    open spec fn obeys_from_spec() -> bool {
        true
    }

    open spec fn from_spec(e: CoreError) -> IotError {
        IotError::Core(e)
    }
}

} // verus!
