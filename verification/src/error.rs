use vstd::prelude::*;

verus! {

/// What can go wrong while a response is put together.
#[derive(Debug, Clone, Copy, PartialEq, Eq, Structural)]
pub enum WebError {
    /// A status code, a header name or a header value cannot stand in an
    /// HTTP response, or the header map takes no further entry.
    EncodeResponse,
}

impl WebError {
    /// The text shown for this error.
    pub fn message(&self) -> (r: String)
        ensures
            r@ == "Response could not be encoded"@,
    {
        match self {
            WebError::EncodeResponse => "Response could not be encoded".to_owned(),
        }
    }
}

} // verus!
