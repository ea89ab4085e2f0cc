use vstd::prelude::*;

verus! {

/// The classified failures of one summarization call, surfaced as a typed
/// result so that the caller can decide whether to recover, log, or abort.
#[derive(Clone, Copy, Debug, PartialEq, Eq)]
pub enum SummarizeError {
    /// The required `api_key` setting was absent or null.
    ConfigMissing,
    /// The credential could not be encoded as an HTTP header value.
    HeaderConstruction,
    /// The connection or send failed.
    Transport,
    /// The endpoint answered with a status outside the success range;
    /// carries that status code.
    HttpStatus(u16),
    /// The status was a success, but the body was not JSON or lacked the
    /// expected field.
    ResponseFormat,
}

} // verus!
