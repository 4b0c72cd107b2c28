use typed_http::classify::{classify_transport_failure, TransportFailure};
use typed_http::envelope::{
    settle_body, settle_envelope, settle_transport_error, settle_transport_failure, LogEvent,
    Settled,
};
use typed_http::request::{
    endpoint_path, payload_placement, plan_call, HttpRequest, PayloadPlacement,
};
use typed_http::routes::RouteTable;
use typed_http::types::{RequestError, RequestMethod, Response, UnexpectedHttpError};

#[derive(Debug, PartialEq)]
struct User {
    id: u64,
    name: String,
}

#[derive(Debug, PartialEq)]
enum UserError {
    NotFound,
}

#[derive(Debug, PartialEq)]
struct Oops(String);

impl From<anyhow::Error> for Oops {
    fn from(e: anyhow::Error) -> Self {
        Oops(e.to_string())
    }
}

#[allow(dead_code)]
struct GetUser {
    id: u64,
}

impl HttpRequest<User, UserError, Oops> for GetUser {
    fn endpoint() -> String {
        endpoint_path(None, "/users")
    }

    fn method() -> RequestMethod {
        RequestMethod::GET
    }
}

struct CreateUser;

impl HttpRequest<User, UserError, Oops> for CreateUser {
    fn endpoint() -> String {
        endpoint_path(Some("api"), "users")
    }

    fn method() -> RequestMethod {
        RequestMethod::POST
    }
}

fn quiet() -> TransportFailure {
    TransportFailure {
        status: None,
        timeout: false,
        connect: false,
        redirect: false,
        decode: false,
        builder: false,
    }
}

fn json_error(text: &str) -> serde_json::Error {
    serde_json::from_str::<serde_json::Value>(text).unwrap_err()
}

#[test]
fn success_envelope_gives_inner_ok() {
    let r = settle_envelope::<u32, String, String>(Response::Success(5));
    assert_eq!(r, Settled { result: Ok(Ok(5)), log: None });
}

#[test]
fn declared_error_envelope_gives_inner_err_unlogged() {
    let r = settle_envelope::<u32, String, String>(Response::Error("bad".to_string()));
    assert_eq!(r.result, Ok(Err("bad".to_string())));
    assert_eq!(r.log, None);
}

#[test]
fn unexpected_envelope_gives_api_failure_logged_once() {
    let r = settle_envelope::<u32, String, String>(Response::UnexpectedError("boom".to_string()));
    assert_eq!(r.result, Err(UnexpectedHttpError::Api("boom".to_string())));
    assert_eq!(r.log, Some(LogEvent::ApiUnexpected));
}

#[test]
fn malformed_body_is_deserialize_failure() {
    let r = settle_body::<u32, String, String>(Err(json_error("{\"type\": ")));
    assert_eq!(r.result, Err(UnexpectedHttpError::Request(RequestError::Deserialize)));
    assert_eq!(r.log, Some(LogEvent::DecodeFailure));
}

#[test]
fn decoded_body_settles_as_its_envelope() {
    let r = settle_body::<u32, String, String>(Ok(Response::Success(9)));
    assert_eq!(r, Settled { result: Ok(Ok(9)), log: None });
}

#[test]
fn json_error_converts_to_deserialize() {
    let e: UnexpectedHttpError<String> = UnexpectedHttpError::from(json_error("nope"));
    assert_eq!(e, UnexpectedHttpError::Request(RequestError::Deserialize));
}

#[test]
fn status_outranks_timeout() {
    let f = TransportFailure { status: Some(504), timeout: true, connect: true, ..quiet() };
    assert_eq!(classify_transport_failure(&f), RequestError::Http(504));
}

#[test]
fn classification_follows_priority() {
    let all = TransportFailure {
        status: None,
        timeout: true,
        connect: true,
        redirect: true,
        decode: true,
        builder: true,
    };
    assert_eq!(classify_transport_failure(&all), RequestError::Timeout);
    assert_eq!(classify_transport_failure(&TransportFailure { timeout: false, ..all }), RequestError::Connect);
    let f = TransportFailure { redirect: true, decode: true, builder: true, ..quiet() };
    assert_eq!(classify_transport_failure(&f), RequestError::Redirect);
    let f = TransportFailure { decode: true, builder: true, ..quiet() };
    assert_eq!(classify_transport_failure(&f), RequestError::Decode);
    let f = TransportFailure { builder: true, ..quiet() };
    assert_eq!(classify_transport_failure(&f), RequestError::Builder);
    assert_eq!(classify_transport_failure(&quiet()), RequestError::Unknown);
}

#[test]
fn transport_failure_settles_as_logged_request_failure() {
    let f = TransportFailure { connect: true, ..quiet() };
    let r = settle_transport_failure::<u32, String, String>(&f);
    assert_eq!(r.result, Err(UnexpectedHttpError::Request(RequestError::Connect)));
    assert_eq!(r.log, Some(LogEvent::TransportFailure));
}

#[test]
fn reqwest_builder_error_is_builder() {
    let e = reqwest::Client::new().get("not a url").build().unwrap_err();
    let r = settle_transport_error::<u32, String, String>(e);
    assert_eq!(r.result, Err(UnexpectedHttpError::Request(RequestError::Builder)));
    let e = reqwest::Client::new().get("not a url").build().unwrap_err();
    let u: UnexpectedHttpError<String> = UnexpectedHttpError::from(e);
    assert_eq!(u, UnexpectedHttpError::Request(RequestError::Builder));
}

#[test]
fn get_goes_in_query_others_in_body() {
    assert_eq!(payload_placement(RequestMethod::GET), PayloadPlacement::Query);
    assert_eq!(payload_placement(RequestMethod::POST), PayloadPlacement::Body);
    assert_eq!(payload_placement(RequestMethod::PUT), PayloadPlacement::Body);
    assert_eq!(payload_placement(RequestMethod::DELETE), PayloadPlacement::Body);
}

#[test]
fn endpoint_with_and_without_prefix() {
    assert_eq!(endpoint_path(Some("api"), "users"), "/api/users");
    assert_eq!(endpoint_path(None, "/users"), "/users");
}

#[test]
fn plan_joins_endpoint_onto_base() {
    let p = plan_call("http://example.com/v1/", "/users", RequestMethod::PUT).unwrap();
    assert_eq!(p.url, "http://example.com/users");
    assert_eq!(p.method, RequestMethod::PUT);
    assert_eq!(p.placement, PayloadPlacement::Body);
    let p = plan_call("http://example.com/v1/", "users", RequestMethod::GET).unwrap();
    assert_eq!(p.url, "http://example.com/v1/users");
    assert_eq!(p.placement, PayloadPlacement::Query);
}

#[test]
fn plan_with_bad_base_is_builder_failure() {
    assert_eq!(plan_call("not a url", "/users", RequestMethod::GET), Err(RequestError::Builder));
}

#[test]
fn plan_from_request_contract() {
    let p = plan_call("http://example.com", &CreateUser::endpoint(), CreateUser::method()).unwrap();
    assert_eq!(p.url, "http://example.com/api/users");
    assert_eq!(p.method, RequestMethod::POST);
    assert_eq!(p.placement, PayloadPlacement::Body);
}

#[test]
fn colliding_routes_are_refused() {
    let mut t = RouteTable::new();
    assert!(t.register("/users", RequestMethod::GET).is_ok());
    assert!(t.register("/users", RequestMethod::POST).is_ok());
    assert!(t.register("/items", RequestMethod::GET).is_ok());
    let c = t.register("/users", RequestMethod::GET).unwrap_err();
    assert_eq!(c.path, "/users");
    assert_eq!(c.method, RequestMethod::GET);
    assert_eq!(t.len(), 3);
    assert!(t.contains("/users", RequestMethod::GET));
    assert!(!t.contains("/users", RequestMethod::DELETE));
    let routes = t.routes();
    assert_eq!(routes[0], ("/users".to_string(), RequestMethod::GET));
    assert_eq!(routes[2], ("/items".to_string(), RequestMethod::GET));
}

#[test]
fn handler_failure_becomes_unexpected_envelope() {
    let r: Response<u32, String, Oops> = Response::from(anyhow::Error::msg("db down"));
    assert_eq!(r, Response::UnexpectedError(Oops("db down".to_string())));
}

#[test]
fn get_user_scenario() {
    let p = plan_call("http://example.com/", &GetUser::endpoint(), GetUser::method()).unwrap();
    assert_eq!(p.url, "http://example.com/users");
    assert_eq!(p.method, RequestMethod::GET);
    assert_eq!(p.placement, PayloadPlacement::Query);

    let r = settle_envelope::<User, UserError, Oops>(Response::Error(UserError::NotFound));
    assert_eq!(r.result, Ok(Err(UserError::NotFound)));

    let user = User { id: 7, name: "Ann".to_string() };
    let r = settle_envelope::<User, UserError, Oops>(Response::Success(user));
    assert_eq!(r.result, Ok(Ok(User { id: 7, name: "Ann".to_string() })));

    let refused = TransportFailure { connect: true, ..quiet() };
    let r = settle_transport_failure::<User, UserError, Oops>(&refused);
    assert_eq!(r.result, Err(UnexpectedHttpError::Request(RequestError::Connect)));
}
