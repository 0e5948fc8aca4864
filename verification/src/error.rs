//! The one way an inspection fails: the operating system refused access.

use vstd::prelude::*;
use vstd::std_specs::convert::FromSpecImpl;

verus! {

/// `std::io::Error`, carried through unread.
#[verifier::external_type_specification]
#[verifier::external_body]
pub struct ExIoError(std::io::Error);

/// Why a path or a directory could not be inspected.
///
/// Every failure of the operating system (the path is missing, permission is
/// denied, a directory was expected) is the same kind here; the wrapped value
/// tells them apart.
#[derive(Debug)]
pub enum Error {
    Io(std::io::Error),
}

impl From<std::io::Error> for Error {
    fn from(source: std::io::Error) -> (e: Error) {
        Error::Io(source)
    }
}

impl FromSpecImpl<std::io::Error> for Error {
    open spec fn obeys_from_spec() -> bool {
        true
    }

    open spec fn from_spec(source: std::io::Error) -> Error {
        Error::Io(source)
    }
}

} // verus!
