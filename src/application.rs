use vstd::prelude::*;
use crate::error::Error as DomainError;

verus! {

/// Why a run could not be set up.
#[derive(Debug, Clone)]
pub enum Error {
    ExternalError(String),
    OperationFailed(String),
    Domain(DomainError),
    Unexpected,
}

impl From<DomainError> for Error {
    fn from(e: DomainError) -> (r: Error)
        ensures
            r == Error::Domain(e),
    {
        Error::Domain(e)
    }
}

impl vstd::std_specs::convert::FromSpecImpl<DomainError> for Error {
    open spec fn obeys_from_spec() -> bool {
        true
    }

    open spec fn from_spec(e: DomainError) -> Error {
        Error::Domain(e)
    }
}

} // verus!
