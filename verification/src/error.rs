//! Errors of the chip emulator's operations.

use vstd::prelude::*;

verus! {

/// The standard library's I/O error, carried through unopened.
#[verifier::external_type_specification]
#[verifier::external_body]
pub struct ExIoError(std::io::Error);

/// Error types for chip emulator operations.
///
/// File parsing errors of the loader have their own type; they reach this
/// one as `Other` with their message.
#[derive(Debug)]
pub enum Ym2149Error {
    /// I/O error from the file system or a device.
    Io(std::io::Error),
    /// Invalid configuration.
    ConfigError(String),
    /// Any other error, by its message.
    Other(String),
}

impl From<String> for Ym2149Error {
    /// A message becomes `Other`.
    fn from(msg: String) -> (r: Self) {
        Ym2149Error::Other(msg)
    }
}

impl vstd::std_specs::convert::FromSpecImpl<String> for Ym2149Error {
    open spec fn obeys_from_spec() -> bool {
        true
    }

    open spec fn from_spec(v: String) -> Self {
        Ym2149Error::Other(v)
    }
}

impl From<std::io::Error> for Ym2149Error {
    /// An I/O error becomes `Io`.
    fn from(e: std::io::Error) -> (r: Self) {
        Ym2149Error::Io(e)
    }
}

impl vstd::std_specs::convert::FromSpecImpl<std::io::Error> for Ym2149Error {
    open spec fn obeys_from_spec() -> bool {
        true
    }

    open spec fn from_spec(v: std::io::Error) -> Self {
        Ym2149Error::Io(v)
    }
}

} // verus!
