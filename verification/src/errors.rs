use vstd::prelude::*;

verus! {

/// The failures an endpoint execution can end in. Every failure is terminal
/// for the single execution attempt that produced it: nothing is retried or
/// swallowed, and each variant carries enough of the offending input for the
/// caller to diagnose the failure.
#[derive(Debug, Clone, PartialEq)]
pub enum ClientError {
    /// The client's base URL is not a valid absolute URL, or cannot take
    /// path segments. Carries the offending base string.
    UrlParseError { url: String },
    /// The endpoint value could not be serialized into the request
    /// encoding. Carries a description of the underlying encoding failure.
    DataParseError { message: String },
    /// The client failed to carry out the request. Produced by client
    /// implementations and passed through execution unchanged.
    RequestError { message: String },
    /// The raw response bytes are not valid text in the response encoding's
    /// character encoding. Carries the underlying cause and the exact raw
    /// bytes.
    ResponseConversionError { message: String, content: Vec<u8> },
    /// An endpoint's transform hook rejected the response text. Available to
    /// transform implementations for surfacing failures embedded in an
    /// otherwise successful response.
    ResponseTransformError { message: String },
    /// The transformed response text could not be decoded into the
    /// endpoint's result type. Carries the underlying cause and the exact
    /// text that failed to decode.
    ResponseParseError { message: String, content: String },
}

} // verus!
