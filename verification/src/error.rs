//! The ways in which an operation on a secret can fail.
use vstd::prelude::*;

verus! {

/// Why an operation could not be carried out.
#[derive(Clone, Copy, Debug, PartialEq, Eq, Structural)]
pub enum AppError {
    /// A guess was submitted for a secret that somebody has already solved.
    AlreadyGuessed,
    /// The secret store failed, or answered with something that does not fit
    /// the request.
    MongoDbError,
    /// No secret has the identifier that was asked for.
    NotFound,
}

} // verus!
