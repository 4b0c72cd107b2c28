use vstd::prelude::*;
use vstd::std_specs::convert::FromSpecImpl;
use crate::types::{RequestError, UnexpectedHttpError};

verus! {

/// What can be observed about a failed transport call, as plain values.
#[derive(Clone, Copy, Debug, PartialEq, Eq, Structural)]
pub struct TransportFailure {
    pub status: Option<u16>,
    pub timeout: bool,
    pub connect: bool,
    pub redirect: bool,
    pub decode: bool,
    pub builder: bool,
}

/// The kind of a transport failure: the first signal that holds, in the
/// order status, timeout, connect, redirect, decode, builder.
pub open spec fn failure_kind(f: TransportFailure) -> RequestError {
    match f.status {
        Some(code) => RequestError::Http(code),
        None => if f.timeout {
            RequestError::Timeout
        } else if f.connect {
            RequestError::Connect
        } else if f.redirect {
            RequestError::Redirect
        } else if f.decode {
            RequestError::Decode
        } else if f.builder {
            RequestError::Builder
        } else {
            RequestError::Unknown
        },
    }
}

/// Classifies a transport failure into exactly one kind.
pub fn classify_transport_failure(f: &TransportFailure) -> (r: RequestError)
    ensures
        r == failure_kind(*f),
{
    if let Some(code) = f.status {
        RequestError::Http(code)
    } else if f.timeout {
        RequestError::Timeout
    } else if f.connect {
        RequestError::Connect
    } else if f.redirect {
        RequestError::Redirect
    } else if f.decode {
        RequestError::Decode
    } else if f.builder {
        RequestError::Builder
    } else {
        RequestError::Unknown
    }
}

/// A failure that carries an HTTP status is classified by that status,
/// whatever else it looks like (a timeout, a refused connection, ...).
pub proof fn lemma_status_outranks_other_signals(f: TransportFailure)
    requires
        f.status is Some,
    ensures
        failure_kind(f) == RequestError::Http(f.status->Some_0),
        failure_kind(f) != RequestError::Timeout,
        failure_kind(f) != RequestError::Connect,
{
}

/// A transport failure is `Unknown` exactly when it shows none of the
/// signals, and is never classified as a decoding failure of the envelope,
/// which is decided at a later stage.
pub proof fn lemma_classification_is_total(f: TransportFailure)
    ensures
        failure_kind(f) == RequestError::Unknown <==> (f.status is None && !f.timeout
            && !f.connect && !f.redirect && !f.decode && !f.builder),
        failure_kind(f) != RequestError::Deserialize,
{
}

#[verifier::external_type_specification]
#[verifier::external_body]
pub struct ExJsonError(serde_json::Error);

/// A body that does not decode as the expected shape is a `Deserialize`
/// failure.
impl<T> From<serde_json::Error> for UnexpectedHttpError<T> {
    fn from(value: serde_json::Error) -> (r: Self) {
        UnexpectedHttpError::Request(RequestError::Deserialize)
    }
}

impl<T> FromSpecImpl<serde_json::Error> for UnexpectedHttpError<T> {
    open spec fn obeys_from_spec() -> bool {
        true
    }

    open spec fn from_spec(v: serde_json::Error) -> Self {
        UnexpectedHttpError::Request(RequestError::Deserialize)
    }
}

#[verifier::external_type_specification]
#[verifier::external_body]
pub struct ExReqwestError(reqwest::Error);

#[verifier::external_type_specification]
#[verifier::external_body]
pub struct ExStatusCode(reqwest::StatusCode);

/// The status that `reqwest::Error::status` reports of an error.
pub uninterp spec fn status_of(e: reqwest::Error) -> Option<reqwest::StatusCode>;

/// What `reqwest::Error::is_timeout` reports of an error.
pub uninterp spec fn timeout_of(e: reqwest::Error) -> bool;

/// What `reqwest::Error::is_connect` reports of an error.
pub uninterp spec fn connect_of(e: reqwest::Error) -> bool;

/// What `reqwest::Error::is_redirect` reports of an error.
pub uninterp spec fn redirect_of(e: reqwest::Error) -> bool;

/// What `reqwest::Error::is_decode` reports of an error.
pub uninterp spec fn decode_of(e: reqwest::Error) -> bool;

/// What `reqwest::Error::is_builder` reports of an error.
pub uninterp spec fn builder_of(e: reqwest::Error) -> bool;

/// The number that `StatusCode::as_u16` gives for a status.
pub uninterp spec fn code_of(s: reqwest::StatusCode) -> u16;

/// Relies on reqwest::Error::status: the status of the response that the
/// error came from, if any; it depends on the error alone.
pub assume_specification[ reqwest::Error::status ](e: &reqwest::Error) -> (r: Option<
    reqwest::StatusCode,
>)
    ensures
        r == status_of(*e),
;

/// Relies on reqwest::Error::is_timeout: whether a timeout caused the error,
/// read from the error's source chain alone.
pub assume_specification[ reqwest::Error::is_timeout ](e: &reqwest::Error) -> (r: bool)
    ensures
        r == timeout_of(*e),
;

/// Relies on reqwest::Error::is_connect: whether connecting failed, read from
/// the error's source chain alone.
pub assume_specification[ reqwest::Error::is_connect ](e: &reqwest::Error) -> (r: bool)
    ensures
        r == connect_of(*e),
;

/// Relies on reqwest::Error::is_redirect: whether the redirect policy failed.
pub assume_specification[ reqwest::Error::is_redirect ](e: &reqwest::Error) -> (r: bool)
    ensures
        r == redirect_of(*e),
;

/// Relies on reqwest::Error::is_decode: whether decoding the body failed.
pub assume_specification[ reqwest::Error::is_decode ](e: &reqwest::Error) -> (r: bool)
    ensures
        r == decode_of(*e),
;

/// Relies on reqwest::Error::is_builder: whether building the request failed.
pub assume_specification[ reqwest::Error::is_builder ](e: &reqwest::Error) -> (r: bool)
    ensures
        r == builder_of(*e),
;

/// Relies on http's StatusCode::as_u16: the numeric status code.
pub assume_specification[ reqwest::StatusCode::as_u16 ](s: &reqwest::StatusCode) -> (r: u16)
    ensures
        r == code_of(*s),
;

/// The signals that a transport error shows.
pub open spec fn signals_of(e: reqwest::Error) -> TransportFailure {
    TransportFailure {
        status: match status_of(e) {
            Some(s) => Some(code_of(s)),
            None => None,
        },
        timeout: timeout_of(e),
        connect: connect_of(e),
        redirect: redirect_of(e),
        decode: decode_of(e),
        builder: builder_of(e),
    }
}

/// Reads the observable signals of a transport error.
pub fn observe_transport_error(e: &reqwest::Error) -> (r: TransportFailure)
    ensures
        r == signals_of(*e),
{
    let status = match e.status() {
        Some(code) => Some(code.as_u16()),
        None => None,
    };
    TransportFailure {
        status,
        timeout: e.is_timeout(),
        connect: e.is_connect(),
        redirect: e.is_redirect(),
        decode: e.is_decode(),
        builder: e.is_builder(),
    }
}

/// A transport error becomes a `Request` failure of the kind that its
/// observable signals classify to.
impl<T> From<reqwest::Error> for UnexpectedHttpError<T> {
    fn from(value: reqwest::Error) -> (r: Self) {
        let observed = observe_transport_error(&value);
        UnexpectedHttpError::Request(classify_transport_failure(&observed))
    }
}

impl<T> FromSpecImpl<reqwest::Error> for UnexpectedHttpError<T> {
    open spec fn obeys_from_spec() -> bool {
        true
    }

    open spec fn from_spec(v: reqwest::Error) -> Self {
        UnexpectedHttpError::Request(failure_kind(signals_of(v)))
    }
}

} // verus!
