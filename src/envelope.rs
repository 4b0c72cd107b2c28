use vstd::prelude::*;
use vstd::std_specs::convert::{FromSpec, FromSpecImpl};
use crate::classify::{
    classify_transport_failure, failure_kind, signals_of, TransportFailure,
};
use crate::types::{RequestError, Response, UnexpectedHttpError};

verus! {

/// A diagnostic that the caller must write at error severity.
#[derive(Clone, Copy, Debug, PartialEq, Eq, Structural)]
pub enum LogEvent {
    /// The transport failed; the raw transport error is the detail.
    TransportFailure,
    /// The body did not decode as the envelope; the raw body and the decode
    /// error are the detail.
    DecodeFailure,
    /// The remote side answered with its unexpected-error payload.
    ApiUnexpected,
}

/// The outcome of one dispatch, with the one diagnostic it calls for, if any.
#[derive(Debug, PartialEq, Eq)]
pub struct Settled<O, E, U> {
    pub result: Result<Result<O, E>, UnexpectedHttpError<U>>,
    pub log: Option<LogEvent>,
}

/// The outcome that a decoded envelope gives: success and declared error are
/// normal results and go unlogged; an unexpected-error payload is an `Api`
/// failure that is logged once.
pub open spec fn envelope_outcome<O, E, U>(env: Response<O, E, U>) -> Settled<O, E, U> {
    match env {
        Response::Success(v) => Settled { result: Ok(Ok(v)), log: None },
        Response::Error(v) => Settled { result: Ok(Err(v)), log: None },
        Response::UnexpectedError(v) => Settled {
            result: Err(UnexpectedHttpError::Api(v)),
            log: Some(LogEvent::ApiUnexpected),
        },
    }
}

/// Turns a decoded envelope into the typed outcome of the dispatch.
pub fn settle_envelope<O, E, U>(env: Response<O, E, U>) -> (r: Settled<O, E, U>)
    ensures
        r == envelope_outcome(env),
{
    match env {
        Response::Success(v) => Settled { result: Ok(Ok(v)), log: None },
        Response::Error(v) => Settled { result: Ok(Err(v)), log: None },
        Response::UnexpectedError(v) => Settled {
            result: Err(UnexpectedHttpError::Api(v)),
            log: Some(LogEvent::ApiUnexpected),
        },
    }
}

/// Turns the result of decoding a response body into the typed outcome of
/// the dispatch: a body that is not an envelope is a logged `Deserialize`
/// failure.
pub fn settle_body<O, E, U>(decoded: Result<Response<O, E, U>, serde_json::Error>) -> (r: Settled<
    O,
    E,
    U,
>)
    ensures
        match decoded {
            Ok(env) => r == envelope_outcome(env),
            Err(_) => r == (Settled::<O, E, U> {
                result: Err(UnexpectedHttpError::Request(RequestError::Deserialize)),
                log: Some(LogEvent::DecodeFailure),
            }),
        },
{
    match decoded {
        Ok(env) => settle_envelope(env),
        Err(e) => Settled { result: Err(UnexpectedHttpError::from(e)), log: Some(LogEvent::DecodeFailure) },
    }
}

/// The outcome of a failed transport call: a logged `Request` failure of
/// the kind that its observed signals classify to.
pub fn settle_transport_failure<O, E, U>(f: &TransportFailure) -> (r: Settled<O, E, U>)
    ensures
        r == (Settled::<O, E, U> {
            result: Err(UnexpectedHttpError::Request(failure_kind(*f))),
            log: Some(LogEvent::TransportFailure),
        }),
{
    Settled {
        result: Err(UnexpectedHttpError::Request(classify_transport_failure(f))),
        log: Some(LogEvent::TransportFailure),
    }
}

/// Turns a failed transport call into the typed outcome of the dispatch.
pub fn settle_transport_error<O, E, U>(e: reqwest::Error) -> (r: Settled<O, E, U>)
    ensures
        r == (Settled::<O, E, U> {
            result: Err(UnexpectedHttpError::Request(failure_kind(signals_of(e)))),
            log: Some(LogEvent::TransportFailure),
        }),
{
    Settled { result: Err(UnexpectedHttpError::from(e)), log: Some(LogEvent::TransportFailure) }
}

#[verifier::external_type_specification]
#[verifier::external_body]
pub struct ExAnyhowError(anyhow::Error);

/// A handler failure becomes the envelope's unexpected-error variant.
impl<T, E, U: From<anyhow::Error>> From<anyhow::Error> for Response<T, E, U> {
    fn from(value: anyhow::Error) -> (r: Self) {
        Response::UnexpectedError(U::from(value))
    }
}

impl<T, E, U: From<anyhow::Error>> FromSpecImpl<anyhow::Error> for Response<T, E, U> {
    open spec fn obeys_from_spec() -> bool {
        <U as FromSpec<anyhow::Error>>::obeys_from_spec()
    }

    open spec fn from_spec(v: anyhow::Error) -> Self {
        Response::UnexpectedError(<U as FromSpec<anyhow::Error>>::from_spec(v))
    }
}

} // verus!
