use crate::client::Client;
use crate::client::Request;
use crate::enums::RequestMethod;
use crate::enums::RequestType;
use crate::enums::ResponseType;
use crate::errors::ClientError;
use crate::json::json_ok;
use crate::json::string_to_value;
use crate::json::value_to_string;
use crate::urls::build_url;
use vstd::prelude::*;
use vstd::string::*;
use vstd::utf8::*;

verus! {

/// True when serialized request text is the encoding's representation of
/// null or of an empty object. Such a body carries no meaningful content
/// and is normalized away before transport.
pub open spec fn blank_body(s: Seq<char>) -> bool {
    s == "null"@ || s == "{}"@
}

/// Turns serialized request text into the transmitted body bytes. Text that
/// the encoding judges to carry no meaningful content — the representation
/// of null or of an empty object — becomes the empty byte sequence; any
/// other text is transmitted as exactly its UTF-8 bytes.
pub fn encode_body(text: String) -> (body: Vec<u8>)
    ensures
        blank_body(text@) ==> body@ == Seq::<u8>::empty(),
        !blank_body(text@) ==> body@ == encode_utf8(text@),
{
    let null_text: String = String::from_str("null");
    let empty_object: String = String::from_str("{}");
    if text.eq(&null_text) || text.eq(&empty_object) {
        Vec::new()
    } else {
        text.as_str().as_bytes_vec()
    }
}

/// Relies on `String::from_utf8`: converts bytes to text exactly when they
/// are a valid UTF-8 encoding, returning the text they encode; on failure
/// returns a description of the fault and the offending bytes unchanged.
#[verifier::external_body]
fn bytes_to_string(bytes: Vec<u8>) -> (r: Result<String, (String, Vec<u8>)>)
    ensures
        r is Ok <==> valid_utf8(bytes@),
        r matches Ok(s) ==> encode_utf8(s@) == bytes@,
        r matches Err(p) ==> p.1@ == bytes@,
{
    match String::from_utf8(bytes) {
        Ok(s) => Ok(s),
        Err(e) => {
            let message = e.utf8_error().to_string();
            Err((message, e.into_bytes()))
        },
    }
}

/// A type that can be constructed purely from a decoded response value,
/// with no side channel: the shape every endpoint result type must have.
pub trait FromValue: Sized {
    /// Constructs the result from a decoded response value, or describes
    /// why the value does not have the result's shape.
    fn from_value(v: serde_json::Value) -> Result<Self, String>;
}

/// Represents a remote HTTP endpoint which can be executed using a
/// [`Client`].
///
/// An endpoint consists of an `action`, combined with the base URL of a
/// client to form a fully qualified URL, a `method` determining the HTTP
/// verb used, the `data` and optional `query` pairs sent along, and a
/// `Result` type that a non-empty response is decoded into.
///
/// Implementations can override the default [`transform`][Self::transform]
/// in order to operate on the raw response content before decoding — most
/// often to strip an envelope that a remote API wraps all responses in, or
/// to detect errors embedded in an otherwise successful response and
/// escalate them as failures.
///
/// None of the methods an implementation supplies perform any request
/// themselves; all effects are confined to [`execute`][Self::execute], and
/// an endpoint value is free of mutable state. Since the hook methods are
/// the implementor's, nothing is assumed about what they return: the
/// pipeline stages ([`build_url`], [`encode_body`], [`response_text`],
/// [`decode_transformed`]) each state exactly what they make of whatever
/// value a hook produced.
pub trait Endpoint: Sized {
    /// The type that the raw response from executing this endpoint is
    /// decoded into.
    type Result: FromValue;

    /// How the endpoint's request data is serialized into a request body.
    const REQUEST_BODY_TYPE: RequestType;

    /// How raw response bytes are interpreted before decoding.
    const RESPONSE_BODY_TYPE: ResponseType;

    /// The relative URL path that represents the location of this endpoint.
    /// Combined with the base URL from a [`Client`] to create the fully
    /// qualified URL.
    fn action(&self) -> String;

    /// The HTTP method to be used when executing this endpoint.
    fn method(&self) -> RequestMethod;

    /// Optional query parameters to add to the request, in order.
    fn query(&self) -> Vec<(String, serde_json::Value)> {
        Vec::new()
    }

    /// The request data of this endpoint value, serialized by
    /// [`execute`][Self::execute] into the request body.
    fn data(&self) -> serde_json::Value;

    /// Can be overridden by implementations in order to operate on the raw
    /// response from executing this endpoint prior to decoding the final
    /// result. Defaults to returning the response text unchanged.
    fn transform(&self, res: String) -> Result<String, ClientError> {
        Ok(res)
    }

    /// Executes this endpoint using the given [`Client`]: builds the fully
    /// qualified URL from the client's base and the endpoint's action,
    /// serializes the endpoint's data into body bytes, performs exactly one
    /// client call, and parses the outcome into the endpoint's result.
    fn execute<C: Client>(&self, client: &C) -> Result<Option<Self::Result>, ClientError> {
        let base = client.base();
        let action = self.action();
        let url = match build_url(base.as_str(), action.as_str()) {
            Ok(u) => u,
            Err(e) => {
                return Err(e);
            },
        };
        let method = self.method();
        let query = self.query();
        let body = match Self::REQUEST_BODY_TYPE {
            RequestType::JSON => {
                match value_to_string(&self.data()) {
                    Ok(text) => encode_body(text),
                    Err(message) => {
                        return Err(ClientError::DataParseError { message });
                    },
                }
            },
        };
        let res = client.execute(Request { url, method, query, body });
        let text = match Self::RESPONSE_BODY_TYPE {
            ResponseType::JSON => {
                match response_text(res) {
                    Ok(Some(t)) => t,
                    Ok(None) => {
                        return Ok(None);
                    },
                    Err(e) => {
                        return Err(e);
                    },
                }
            },
        };
        decode_transformed::<Self::Result>(self.transform(text))
    }
}

/// Converts the raw outcome of a client call into the response text that
/// decoding works on. A client failure passes through unchanged. An empty
/// response has no text: the result is absent and nothing is decoded.
/// Otherwise the bytes must be valid text — returned exactly as the text
/// they encode — and a failure to read them as text carries those exact
/// bytes for inspection.
pub fn response_text(res: Result<Vec<u8>, ClientError>) -> (r: Result<Option<String>, ClientError>)
    ensures
        res matches Err(e) ==> (r matches Err(e2) && e2 == e),
        res matches Ok(body) ==> (body@.len() == 0 ==> (r matches Ok(v) && v is None)),
        res matches Ok(body) ==> (body@.len() > 0 && valid_utf8(body@) ==> (r matches Ok(v) && (
        v matches Some(t) && encode_utf8(t@) == body@))),
        res matches Ok(body) ==> (body@.len() > 0 && !valid_utf8(body@) ==> (r matches Err(e) && (
        e matches ClientError::ResponseConversionError { content, .. } && content@ == body@))),
{
    match res {
        Err(e) => Err(e),
        Ok(body) => {
            if body.len() == 0 {
                Ok(None)
            } else {
                match bytes_to_string(body) {
                    Err(p) => {
                        let (message, content) = p;
                        Err(ClientError::ResponseConversionError { message, content })
                    },
                    Ok(text) => Ok(Some(text)),
                }
            }
        },
    }
}

/// Decodes what an endpoint's transform hook made of the response text. A
/// hook failure is surfaced unchanged, and nothing is decoded. Empty text
/// is an absent result — a hook that returns the empty string deliberately
/// suppresses decoding. Any other text is decoded into the endpoint's
/// result type; a failure carries the exact text that would not decode.
pub fn decode_transformed<R: FromValue>(transformed: Result<String, ClientError>) -> (r: Result<
    Option<R>,
    ClientError,
>)
    ensures
        transformed matches Err(e) ==> (r matches Err(e2) && e2 == e),
        transformed matches Ok(t) ==> (t@.len() == 0 ==> (r matches Ok(v) && v is None)),
        transformed matches Ok(t) ==> (t@.len() > 0 && !json_ok(t@) ==> (r matches Err(e) && (
        e matches ClientError::ResponseParseError { content, .. } && content@ == t@))),
        transformed matches Ok(t) ==> (t@.len() > 0 && json_ok(t@) ==> ((r matches Ok(v)
            && v is Some) || (r matches Err(e) && (e matches ClientError::ResponseParseError {
            content,
            ..
        } && content@ == t@)))),
{
    match transformed {
        Err(e) => Err(e),
        Ok(text) => {
            if text.as_str().is_empty() {
                Ok(None)
            } else {
                match string_to_value(text.as_str()) {
                    Err(message) => Err(
                        ClientError::ResponseParseError { message, content: text },
                    ),
                    Ok(v) => match R::from_value(v) {
                        Ok(value) => Ok(Some(value)),
                        Err(message) => Err(
                            ClientError::ResponseParseError { message, content: text },
                        ),
                    },
                }
            }
        },
    }
}

/// Represents an empty endpoint result.
#[derive(Debug)]
pub struct EmptyEndpointResult {}

impl FromValue for EmptyEndpointResult {
    /// An empty result has no fields to fill: any decoded object yields
    /// it, and anything else does not have its shape.
    fn from_value(v: serde_json::Value) -> Result<Self, String> {
        if v.is_object() {
            Ok(EmptyEndpointResult {  })
        } else {
            Err(String::from_str("expected an object"))
        }
    }
}

} // verus!
