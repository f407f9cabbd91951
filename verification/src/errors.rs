//! The failure taxonomy of the customer onboarding transaction.

use vstd::prelude::*;

verus! {

/// Everything that can make an onboarding request fail.
///
/// - `Validation`: the input payload is malformed (a reference key is
///   blank); detected before any transaction is opened.
/// - `ReferenceResolution`: a find-or-create query on the country or
///   city table failed; the transaction is rolled back.
/// - `ConstraintViolation`: an insert broke a database constraint (for
///   example a `store_id` with no matching store); rolled back.
/// - `Transaction`: commit or rollback itself failed; the request must
///   be treated as failed by the caller.
#[derive(Clone, Copy, Debug, PartialEq, Eq, Structural)]
pub enum OnboardError {
    Validation,
    ReferenceResolution,
    ConstraintViolation,
    Transaction,
}

impl OnboardError {
    /// A human-readable message for the failure envelope.
    pub fn describe(&self) -> (r: String)
        ensures
            *self is Validation ==> r@ == "Country and city names must not be blank"@,
            *self is ReferenceResolution ==> r@ == "Error while resolving country or city"@,
            *self is ConstraintViolation ==> r@ == "Insert violated a database constraint"@,
            *self is Transaction ==> r@ == "Transaction could not be committed"@,
    {
        match self {
            OnboardError::Validation => "Country and city names must not be blank".to_owned(),
            OnboardError::ReferenceResolution => "Error while resolving country or city".to_owned(),
            OnboardError::ConstraintViolation => "Insert violated a database constraint".to_owned(),
            OnboardError::Transaction => "Transaction could not be committed".to_owned(),
        }
    }
}

} // verus!
