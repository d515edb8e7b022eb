use rustify::client::Client;
use rustify::client::Request;
use rustify::endpoint::EmptyEndpointResult;
use rustify::endpoint::Endpoint;
use rustify::endpoint::FromValue;
use rustify::enums::RequestMethod;
use rustify::enums::RequestType;
use rustify::enums::ResponseType;
use rustify::errors::ClientError;
use std::cell::RefCell;

/// A client that records the request it is handed and answers with a
/// configured outcome.
struct FakeClient {
    base: String,
    response: Result<Vec<u8>, ClientError>,
    seen: RefCell<Vec<Request>>,
}

impl FakeClient {
    fn new(base: &str, response: Result<Vec<u8>, ClientError>) -> Self {
        FakeClient { base: base.to_string(), response, seen: RefCell::new(Vec::new()) }
    }
}

impl Client for FakeClient {
    fn base(&self) -> String {
        self.base.clone()
    }

    fn execute(&self, req: Request) -> Result<Vec<u8>, ClientError> {
        self.seen.borrow_mut().push(req);
        self.response.clone()
    }
}

/// An endpoint with no meaningful fields: its data serializes to null.
struct PlainEndpoint {
    action: String,
}

impl Endpoint for PlainEndpoint {
    type Result = EmptyEndpointResult;

    const REQUEST_BODY_TYPE: RequestType = RequestType::JSON;
    const RESPONSE_BODY_TYPE: ResponseType = ResponseType::JSON;

    fn action(&self) -> String {
        self.action.clone()
    }

    fn method(&self) -> RequestMethod {
        RequestMethod::GET
    }

    fn data(&self) -> serde_json::Value {
        serde_json::Value::Null
    }
}

/// A result type with a single integer field.
#[derive(Debug, PartialEq)]
struct ValueResult {
    value: i64,
}

impl FromValue for ValueResult {
    fn from_value(v: serde_json::Value) -> Result<Self, String> {
        match v.get("value").and_then(|n| n.as_i64()) {
            Some(n) => Ok(ValueResult { value: n }),
            None => Err("missing integer field value".to_string()),
        }
    }
}

/// An endpoint whose data is an object with one string field.
struct DataEndpoint {
    data: String,
}

impl Endpoint for DataEndpoint {
    type Result = ValueResult;

    const REQUEST_BODY_TYPE: RequestType = RequestType::JSON;
    const RESPONSE_BODY_TYPE: ResponseType = ResponseType::JSON;

    fn action(&self) -> String {
        "submit".to_string()
    }

    fn method(&self) -> RequestMethod {
        RequestMethod::POST
    }

    fn data(&self) -> serde_json::Value {
        let mut map = serde_json::Map::new();
        map.insert("data".to_string(), serde_json::Value::String(self.data.clone()));
        serde_json::Value::Object(map)
    }
}

/// An endpoint whose transform hook blanks the response text.
struct BlankingEndpoint;

impl Endpoint for BlankingEndpoint {
    type Result = ValueResult;

    const REQUEST_BODY_TYPE: RequestType = RequestType::JSON;
    const RESPONSE_BODY_TYPE: ResponseType = ResponseType::JSON;

    fn action(&self) -> String {
        "blank".to_string()
    }

    fn method(&self) -> RequestMethod {
        RequestMethod::GET
    }

    fn data(&self) -> serde_json::Value {
        serde_json::Value::Null
    }

    fn transform(&self, _res: String) -> Result<String, ClientError> {
        Ok(String::new())
    }
}

/// An endpoint whose transform hook rejects the response.
struct RejectingEndpoint;

impl Endpoint for RejectingEndpoint {
    type Result = ValueResult;

    const REQUEST_BODY_TYPE: RequestType = RequestType::JSON;
    const RESPONSE_BODY_TYPE: ResponseType = ResponseType::JSON;

    fn action(&self) -> String {
        "reject".to_string()
    }

    fn method(&self) -> RequestMethod {
        RequestMethod::GET
    }

    fn data(&self) -> serde_json::Value {
        serde_json::Value::Null
    }

    fn transform(&self, _res: String) -> Result<String, ClientError> {
        Err(ClientError::ResponseTransformError { message: "embedded error".to_string() })
    }
}

#[test]
fn get_request_url_and_empty_body() {
    let client = FakeClient::new("http://host", Ok(Vec::new()));
    let endpoint = PlainEndpoint { action: "a/b".to_string() };
    let result = endpoint.execute(&client).unwrap();
    assert!(result.is_none());
    let seen = client.seen.borrow();
    assert_eq!(seen.len(), 1);
    assert_eq!(seen[0].url, "http://host/a/b");
    assert_eq!(seen[0].method, RequestMethod::GET);
    assert!(seen[0].body.is_empty());
    assert!(seen[0].query.is_empty());
}

#[test]
fn leading_and_trailing_separators_do_not_corrupt_url() {
    let client = FakeClient::new("http://host/v1", Ok(Vec::new()));
    let endpoint = PlainEndpoint { action: "/a//b/".to_string() };
    endpoint.execute(&client).unwrap();
    let seen = client.seen.borrow();
    assert_eq!(seen[0].url, "http://host/v1/a/b");
}

#[test]
fn null_body_is_normalized_to_empty() {
    let client = FakeClient::new("http://host", Ok(Vec::new()));
    let endpoint = PlainEndpoint { action: "a".to_string() };
    endpoint.execute(&client).unwrap();
    let seen = client.seen.borrow();
    assert_eq!(seen[0].body, Vec::<u8>::new());
}

#[test]
fn object_body_is_transmitted_verbatim() {
    let client = FakeClient::new("http://host", Ok(Vec::new()));
    let endpoint = DataEndpoint { data: "hello".to_string() };
    endpoint.execute(&client).unwrap();
    let seen = client.seen.borrow();
    assert_eq!(seen[0].url, "http://host/submit");
    assert_eq!(seen[0].method, RequestMethod::POST);
    assert_eq!(seen[0].body, b"{\"data\":\"hello\"}".to_vec());
}

#[test]
fn empty_response_is_absent_result() {
    let client = FakeClient::new("http://host", Ok(Vec::new()));
    let endpoint = DataEndpoint { data: "x".to_string() };
    let result = endpoint.execute(&client).unwrap();
    assert!(result.is_none());
}

#[test]
fn response_is_decoded_into_result_type() {
    let client = FakeClient::new("http://host", Ok(b"{\"value\":42}".to_vec()));
    let endpoint = DataEndpoint { data: "x".to_string() };
    let result = endpoint.execute(&client).unwrap();
    assert_eq!(result, Some(ValueResult { value: 42 }));
}

#[test]
fn invalid_text_yields_conversion_error_with_bytes() {
    let client = FakeClient::new("http://host", Ok(vec![0xff, 0xfe, 0x20]));
    let endpoint = DataEndpoint { data: "x".to_string() };
    let err = endpoint.execute(&client).unwrap_err();
    match err {
        ClientError::ResponseConversionError { content, .. } => {
            assert_eq!(content, vec![0xff, 0xfe, 0x20]);
        },
        other => panic!("expected a response conversion error, got {:?}", other),
    }
}

#[test]
fn blanking_transform_suppresses_decoding() {
    let client = FakeClient::new("http://host", Ok(b"{\"value\":42}".to_vec()));
    let endpoint = BlankingEndpoint;
    let result = endpoint.execute(&client).unwrap();
    assert!(result.is_none());
}

#[test]
fn rejecting_transform_surfaces_its_exact_failure() {
    let client = FakeClient::new("http://host", Ok(b"{\"value\":42}".to_vec()));
    let endpoint = RejectingEndpoint;
    let err = endpoint.execute(&client).unwrap_err();
    assert_eq!(
        err,
        ClientError::ResponseTransformError { message: "embedded error".to_string() }
    );
}

#[test]
fn malformed_base_yields_url_parse_error() {
    let client = FakeClient::new("not a url", Ok(Vec::new()));
    let endpoint = PlainEndpoint { action: "a".to_string() };
    let err = endpoint.execute(&client).unwrap_err();
    assert_eq!(err, ClientError::UrlParseError { url: "not a url".to_string() });
    assert!(client.seen.borrow().is_empty());
}

#[test]
fn cannot_be_a_base_yields_url_parse_error() {
    let client = FakeClient::new("mailto:someone@host", Ok(Vec::new()));
    let endpoint = PlainEndpoint { action: "a".to_string() };
    let err = endpoint.execute(&client).unwrap_err();
    assert_eq!(err, ClientError::UrlParseError { url: "mailto:someone@host".to_string() });
}

#[test]
fn client_failure_passes_through_unchanged() {
    let failure = ClientError::RequestError { message: "connection refused".to_string() };
    let client = FakeClient::new("http://host", Err(failure.clone()));
    let endpoint = PlainEndpoint { action: "a".to_string() };
    let err = endpoint.execute(&client).unwrap_err();
    assert_eq!(err, failure);
}

#[test]
fn undecodable_response_yields_parse_error_with_text() {
    let client = FakeClient::new("http://host", Ok(b"not json".to_vec()));
    let endpoint = DataEndpoint { data: "x".to_string() };
    let err = endpoint.execute(&client).unwrap_err();
    match err {
        ClientError::ResponseParseError { content, .. } => {
            assert_eq!(content, "not json");
        },
        other => panic!("expected a response parse error, got {:?}", other),
    }
}

#[test]
fn response_of_wrong_shape_yields_parse_error_with_text() {
    let client = FakeClient::new("http://host", Ok(b"{\"other\":1}".to_vec()));
    let endpoint = DataEndpoint { data: "x".to_string() };
    let err = endpoint.execute(&client).unwrap_err();
    match err {
        ClientError::ResponseParseError { message, content } => {
            assert_eq!(content, "{\"other\":1}");
            assert_eq!(message, "missing integer field value");
        },
        other => panic!("expected a response parse error, got {:?}", other),
    }
}

/// An endpoint contributing query pairs, in order.
struct QueryEndpoint;

impl Endpoint for QueryEndpoint {
    type Result = EmptyEndpointResult;

    const REQUEST_BODY_TYPE: RequestType = RequestType::JSON;
    const RESPONSE_BODY_TYPE: ResponseType = ResponseType::JSON;

    fn action(&self) -> String {
        "search".to_string()
    }

    fn method(&self) -> RequestMethod {
        RequestMethod::GET
    }

    fn data(&self) -> serde_json::Value {
        serde_json::Value::Null
    }

    fn query(&self) -> Vec<(String, serde_json::Value)> {
        vec![
            ("b".to_string(), serde_json::Value::String("2".to_string())),
            ("a".to_string(), serde_json::Value::Bool(true)),
        ]
    }
}

#[test]
fn query_pairs_are_handed_to_client_in_order() {
    let client = FakeClient::new("http://host", Ok(Vec::new()));
    let endpoint = QueryEndpoint;
    endpoint.execute(&client).unwrap();
    let seen = client.seen.borrow();
    assert_eq!(seen[0].query.len(), 2);
    assert_eq!(seen[0].query[0].0, "b");
    assert_eq!(seen[0].query[0].1, serde_json::Value::String("2".to_string()));
    assert_eq!(seen[0].query[1].0, "a");
    assert_eq!(seen[0].query[1].1, serde_json::Value::Bool(true));
}

#[test]
fn empty_object_response_decodes_to_empty_result() {
    let client = FakeClient::new("http://host", Ok(b"{}".to_vec()));
    let endpoint = PlainEndpoint { action: "a".to_string() };
    let result = endpoint.execute(&client).unwrap();
    assert!(result.is_some());
}

#[test]
fn non_object_response_fails_empty_result() {
    let client = FakeClient::new("http://host", Ok(b"[1,2]".to_vec()));
    let endpoint = PlainEndpoint { action: "a".to_string() };
    let err = endpoint.execute(&client).unwrap_err();
    assert!(matches!(err, ClientError::ResponseParseError { .. }));
}
