use vstd::prelude::*;
use vstd::string::StringExecFns;
use crate::types::{RequestError, RequestMethod};

verus! {

/// The route contract of a request type: the endpoint it is sent to and the
/// method it is sent with. `O`, `E` and `U` are the success, declared-error
/// and unexpected-error payload types of its response envelope. Both are
/// fixed per request type, never computed from a request value.
pub trait HttpRequest<O, E, U>: Sized {
    fn endpoint() -> String;

    fn method() -> RequestMethod;
}

/// Marks a request type that can only be dispatched with the auth
/// capability `A`.
pub trait AuthenticatedHttpRequest<A> {}

/// The endpoint of a route: `/prefix/path` under a group prefix, else the
/// path itself.
pub open spec fn endpoint_of(prefix: Option<Seq<char>>, path: Seq<char>) -> Seq<char> {
    match prefix {
        Some(p) => seq!['/'] + p + seq!['/'] + path,
        None => path,
    }
}

/// Builds the endpoint of a route from its group prefix and its path.
pub fn endpoint_path(prefix: Option<&str>, path: &str) -> (r: String)
    ensures
        r@ == endpoint_of(
            match prefix {
                Some(p) => Some(p@),
                None => None,
            },
            path@,
        ),
{
    match prefix {
        Some(p) => {
            let mut s = String::from_str("/");
            s.append(p);
            s.append("/");
            s.append(path);
            proof {
                reveal_strlit("/");
                assert(s@ =~= seq!['/'] + p@ + seq!['/'] + path@);
            }
            s
        },
        None => String::from_str(path),
    }
}

/// Where the encoded request value travels.
#[derive(Clone, Copy, Debug, PartialEq, Eq, Structural)]
pub enum PayloadPlacement {
    Query,
    Body,
}

/// GET carries the request value as query parameters; every other method
/// carries it as the body.
pub open spec fn placement_of(method: RequestMethod) -> PayloadPlacement {
    match method {
        RequestMethod::GET => PayloadPlacement::Query,
        _ => PayloadPlacement::Body,
    }
}

/// Decides where the request value is encoded for a method.
pub fn payload_placement(method: RequestMethod) -> (r: PayloadPlacement)
    ensures
        r == placement_of(method),
        method == RequestMethod::GET ==> r == PayloadPlacement::Query,
        method == RequestMethod::POST ==> r == PayloadPlacement::Body,
        method == RequestMethod::PUT ==> r == PayloadPlacement::Body,
        method == RequestMethod::DELETE ==> r == PayloadPlacement::Body,
{
    match method {
        RequestMethod::GET => PayloadPlacement::Query,
        _ => PayloadPlacement::Body,
    }
}

/// The URL that resolving `endpoint` against the base URL `base` gives, or
/// `None` where `base` is no absolute URL or the endpoint cannot be joined.
pub uninterp spec fn joined_url(base: Seq<char>, endpoint: Seq<char>) -> Option<Seq<char>>;

/// Relies on url::Url::join (after url::Url::parse of the base): the text of
/// the resolved URL, which depends on the two strings alone.
#[verifier::external_body]
fn join_url(base: &str, endpoint: &str) -> (r: Option<String>)
    ensures
        match r {
            Some(u) => joined_url(base@, endpoint@) == Some(u@),
            None => joined_url(base@, endpoint@) is None,
        },
{
    match url::Url::parse(base) {
        Ok(b) => match b.join(endpoint) {
            Ok(u) => Some(u.to_string()),
            Err(_) => None,
        },
        Err(_) => None,
    }
}

/// Everything the transport needs to issue one call, apart from the encoded
/// request value and credentials.
#[derive(Clone, Debug, PartialEq, Eq)]
pub struct RequestPlan {
    pub url: String,
    pub method: RequestMethod,
    pub placement: PayloadPlacement,
}

/// Whether `r` is the plan for sending to `endpoint` under `base` with
/// `method`: a resolved URL gives a plan, an unresolvable one a `Builder`
/// failure.
pub open spec fn is_plan_for(
    r: Result<RequestPlan, RequestError>,
    base: Seq<char>,
    endpoint: Seq<char>,
    method: RequestMethod,
) -> bool {
    match joined_url(base, endpoint) {
        Some(u) => r is Ok && r->Ok_0.url@ == u && r->Ok_0.method == method
            && r->Ok_0.placement == placement_of(method),
        None => r == Err::<RequestPlan, RequestError>(RequestError::Builder),
    }
}

/// A request type is always planned the same way under one base URL: two
/// plans for its endpoint and method agree on success, URL, method and
/// placement, whatever request values they were made for.
pub proof fn lemma_plans_agree(
    r1: Result<RequestPlan, RequestError>,
    r2: Result<RequestPlan, RequestError>,
    base: Seq<char>,
    endpoint: Seq<char>,
    method: RequestMethod,
)
    requires
        is_plan_for(r1, base, endpoint, method),
        is_plan_for(r2, base, endpoint, method),
    ensures
        r1 is Ok <==> r2 is Ok,
        r1 is Err ==> r1 == r2,
        r1 is Ok ==> r1->Ok_0.url@ == r2->Ok_0.url@ && r1->Ok_0.method == r2->Ok_0.method
            && r1->Ok_0.placement == r2->Ok_0.placement,
{
}

/// Plans a call to `endpoint` under `base_url` with `method`.
pub fn plan_call(base_url: &str, endpoint: &str, method: RequestMethod) -> (r: Result<
    RequestPlan,
    RequestError,
>)
    ensures
        is_plan_for(r, base_url@, endpoint@, method),
{
    match join_url(base_url, endpoint) {
        Some(url) => Ok(RequestPlan { url, method, placement: payload_placement(method) }),
        None => Err(RequestError::Builder),
    }
}

} // verus!
