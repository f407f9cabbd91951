//! The generic response envelope that every endpoint wraps its payload in.

use vstd::prelude::*;

verus! {

/// Envelope around a payload `data` of type `T` and a human-readable
/// `message` of type `U`. The `status` field is `"success"` for a
/// successful outcome and `"error"` for a failed one.
pub struct GenericResponse<T, U> {
    pub status: String,
    pub data: T,
    pub message: U,
}

impl<T, U> GenericResponse<T, U> {
    /// A success envelope: status is exactly `"success"`, payload and
    /// message are carried through unchanged.
    pub fn success(data: T, message: U) -> (r: Self)
        ensures
            r.status@ == "success"@,
            r.data == data,
            r.message == message,
    {
        Self { status: "success".to_owned(), message, data }
    }

    /// An error envelope: status is exactly `"error"`, payload and
    /// message are carried through unchanged.
    pub fn error(data: T, message: U) -> (r: Self)
        ensures
            r.status@ == "error"@,
            r.data == data,
            r.message == message,
    {
        Self { status: "error".to_owned(), message, data }
    }

    /// Whether this envelope reports success.
    pub fn is_success(&self) -> (r: bool)
        ensures
            r == (self.status@ == "success"@),
    {
        self.status == "success".to_owned()
    }
}

} // verus!
