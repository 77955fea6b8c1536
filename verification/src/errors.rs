use vstd::prelude::*;

verus! {

/// Why a row could not be converted into a customer entity.
#[derive(Clone, Copy, Debug, PartialEq, Eq, Structural)]
pub enum MappingFault {
    /// The row carried no identifier, which violates the store's contract.
    MissingId,
}

/// Every failure a request can end in.
#[derive(Clone, Copy, Debug, PartialEq, Eq, Structural)]
pub enum Error {
    /// Malformed input: a non-numeric identifier or an unreadable body.
    BadRequest,
    /// The addressed row does not exist.
    NotFound,
    /// A row violated the entity invariant while being mapped.
    Mapping(MappingFault),
    /// The backing store failed (connectivity, constraint violation).
    Store,
}

/// The HTTP status each failure kind translates to.
pub open spec fn spec_status(e: Error) -> u16 {
    match e {
        Error::BadRequest => 400,
        Error::NotFound => 404,
        Error::Mapping(_) => 500,
        Error::Store => 500,
    }
}

/// The short diagnostic body that accompanies each failure kind.
pub open spec fn spec_message(e: Error) -> Seq<char> {
    match e {
        Error::BadRequest => "bad request"@,
        Error::NotFound => ""@,
        Error::Mapping(_) => "internal error"@,
        Error::Store => "internal error"@,
    }
}

/// Translates a failure kind to its HTTP status code.
pub fn status_code(e: &Error) -> (code: u16)
    ensures
        code == spec_status(*e),
{
    match e {
        Error::BadRequest => 400,
        Error::NotFound => 404,
        Error::Mapping(_) => 500,
        Error::Store => 500,
    }
}

/// Translates a failure kind to its response body text; the not-found
/// response carries an empty body.
pub fn error_message(e: &Error) -> (m: &'static str)
    ensures
        m@ == spec_message(*e),
{
    match e {
        Error::BadRequest => "bad request",
        Error::NotFound => "",
        Error::Mapping(_) => "internal error",
        Error::Store => "internal error",
    }
}

} // verus!
