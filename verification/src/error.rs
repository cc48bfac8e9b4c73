//! The library's error type.

use vstd::prelude::*;

verus! {

/// What the library reports when an input cannot be handled.
#[derive(Debug, PartialEq)]
pub enum Error {
    Custom(String),
}

impl From<String> for Error {
    fn from(s: String) -> (r: Error) {
        Error::Custom(s)
    }
}

impl vstd::std_specs::convert::FromSpecImpl<String> for Error {
    open spec fn obeys_from_spec() -> bool {
        true
    }

    open spec fn from_spec(s: String) -> Error {
        Error::Custom(s)
    }
}

} // verus!
