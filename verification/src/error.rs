//! The two kinds of failure that a copy can end in.

use vstd::prelude::*;
use vstd::std_specs::convert::FromSpecImpl;

verus! {

/// The error type of `std::io`, carried through as it came.
#[verifier::external_type_specification]
#[verifier::external_body]
pub struct ExIoError(std::io::Error);

/// The kinds of `std::io` errors.
#[verifier::external_type_specification]
pub struct ExIoErrorKind(std::io::ErrorKind);

/// The error type of `http_io`, carried through as it came.
#[verifier::external_type_specification]
#[verifier::external_body]
pub struct ExHttpError(http_io::error::Error);

/// `std::io::Error::from` makes an error of the given kind; nothing is
/// claimed of the error here.
pub assume_specification[ <std::io::Error as std::convert::From<std::io::ErrorKind>>::from ](
    kind: std::io::ErrorKind,
) -> (e: std::io::Error)
;

/// Why a copy failed. No failure is recovered from: each one ends the copy.
#[derive(Debug)]
pub enum CopyError {
    /// The transport or the remote side failed.
    Http(http_io::error::Error),
    /// The local file system failed.
    Io(std::io::Error),
}

impl From<std::io::Error> for CopyError {
    fn from(e: std::io::Error) -> (r: CopyError) {
        CopyError::Io(e)
    }
}

impl FromSpecImpl<std::io::Error> for CopyError {
    open spec fn obeys_from_spec() -> bool {
        true
    }

    open spec fn from_spec(e: std::io::Error) -> CopyError {
        CopyError::Io(e)
    }
}

impl From<http_io::error::Error> for CopyError {
    fn from(e: http_io::error::Error) -> (r: CopyError) {
        CopyError::Http(e)
    }
}

impl FromSpecImpl<http_io::error::Error> for CopyError {
    open spec fn obeys_from_spec() -> bool {
        true
    }

    open spec fn from_spec(e: http_io::error::Error) -> CopyError {
        CopyError::Http(e)
    }
}

} // verus!
