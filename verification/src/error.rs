//! The crate's error type.
use crate::channel::ChannelLayoutError;
use crate::ogg::OggOpusError;
use crate::slice_ext::BoundsError;
use vstd::prelude::*;
use vstd::std_specs::convert::FromSpecImpl;

verus! {

/// `std::io::Error`, carried through unchanged.
#[verifier::external_type_specification]
#[verifier::external_body]
pub struct ExIoError(std::io::Error);

/// `ogg::OggReadError`, carried through unchanged.
#[verifier::external_type_specification]
#[verifier::external_body]
pub struct ExOggReadError(ogg::OggReadError);

/// An error that has occured during decoding.
#[derive(Debug)]
pub enum Error {
    /// An error in an underlying I/O operation.
    Io(std::io::Error),
    /// The Ogg container itself could not be read.
    Ogg(ogg::OggReadError),
    /// The Opus stream within the Ogg container could not be read.
    OggOpus(OggOpusError),
    /// A channel mapping was malformed.
    ChannelLayout(ChannelLayoutError),
    /// A header ended early.
    Bounds(BoundsError),
}

/// A specialized `Result` type for Opus decoding.
pub type Result<T> = core::result::Result<T, Error>;

impl Error {
    /// A description of the error.
    pub fn description(&self) -> (r: &'static str)
        ensures
            r@ == "Opus decoding error"@,
    {
        "Opus decoding error"
    }
}

impl From<std::io::Error> for Error {
    fn from(from: std::io::Error) -> (r: Error) {
        Error::Io(from)
    }
}

impl FromSpecImpl<std::io::Error> for Error {
    open spec fn obeys_from_spec() -> bool {
        true
    }

    open spec fn from_spec(v: std::io::Error) -> Error {
        Error::Io(v)
    }
}

impl From<ogg::OggReadError> for Error {
    fn from(from: ogg::OggReadError) -> (r: Error) {
        Error::Ogg(from)
    }
}

impl FromSpecImpl<ogg::OggReadError> for Error {
    open spec fn obeys_from_spec() -> bool {
        true
    }

    open spec fn from_spec(v: ogg::OggReadError) -> Error {
        Error::Ogg(v)
    }
}

impl From<OggOpusError> for Error {
    fn from(from: OggOpusError) -> (r: Error) {
        Error::OggOpus(from)
    }
}

impl FromSpecImpl<OggOpusError> for Error {
    open spec fn obeys_from_spec() -> bool {
        true
    }

    open spec fn from_spec(v: OggOpusError) -> Error {
        Error::OggOpus(v)
    }
}

impl From<ChannelLayoutError> for Error {
    fn from(from: ChannelLayoutError) -> (r: Error) {
        Error::ChannelLayout(from)
    }
}

impl FromSpecImpl<ChannelLayoutError> for Error {
    open spec fn obeys_from_spec() -> bool {
        true
    }

    open spec fn from_spec(v: ChannelLayoutError) -> Error {
        Error::ChannelLayout(v)
    }
}

impl From<BoundsError> for Error {
    fn from(from: BoundsError) -> (r: Error) {
        Error::Bounds(from)
    }
}

impl FromSpecImpl<BoundsError> for Error {
    open spec fn obeys_from_spec() -> bool {
        true
    }

    open spec fn from_spec(v: BoundsError) -> Error {
        Error::Bounds(v)
    }
}

} // verus!
