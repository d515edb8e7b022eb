use crate::enums::RequestMethod;
use crate::errors::ClientError;
use vstd::prelude::*;

verus! {

/// A fully assembled request, ready to be handed to a [`Client`]: the
/// absolute request URL, the HTTP verb, the ordered query pairs, and the
/// request body bytes. Built once per execution and not retained afterward.
pub struct Request {
    pub url: String,
    pub method: RequestMethod,
    pub query: Vec<(String, serde_json::Value)>,
    pub body: Vec<u8>,
}

/// The collaborator that physically performs a network request. This crate
/// never implements it; callers supply an implementation and the execution
/// pipeline consumes it.
///
/// Nothing is assumed of an implementation beyond its signatures: execution
/// states what it returns for every value a client can hand back.
pub trait Client {
    /// The base URL that endpoint actions are resolved against.
    fn base(&self) -> String;

    /// Performs the request described by `req`, returning the raw response
    /// bytes, or a failure that execution passes through unchanged.
    fn execute(&self, req: Request) -> Result<Vec<u8>, ClientError>;
}

} // verus!
