use vstd::prelude::*;

verus! {

/// The HTTP verb used when a client executes an endpoint.
#[derive(Debug, Clone, Copy, PartialEq, Eq, Structural)]
pub enum RequestMethod {
    DELETE,
    GET,
    HEAD,
    LIST,
    POST,
    PUT,
}

/// How an endpoint value is serialized into a request body. Only a single
/// structured text encoding is supported.
#[derive(Debug, Clone, Copy, PartialEq, Eq, Structural)]
pub enum RequestType {
    JSON,
}

/// How raw response bytes are interpreted before being decoded into an
/// endpoint's result type. Only a single structured text encoding is
/// supported.
#[derive(Debug, Clone, Copy, PartialEq, Eq, Structural)]
pub enum ResponseType {
    JSON,
}

} // verus!
