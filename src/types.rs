use vstd::prelude::*;

verus! {

/// The HTTP method a request type is bound to.
#[derive(Clone, Copy, Debug, PartialEq, Eq, Structural)]
pub enum RequestMethod {
    POST,
    GET,
    PUT,
    DELETE,
}

/// The closed set of ways a call can fail below the application level.
#[derive(Clone, Copy, Debug, PartialEq, Eq, Structural)]
pub enum RequestError {
    Deserialize,
    Builder,
    Http(u16),
    Timeout,
    Connect,
    Redirect,
    Unknown,
    Decode,
}

/// A dispatch that could not produce a normal typed result: either the
/// transport or decoding broke (`Request`), or the remote side answered with
/// its own unexpected-error payload (`Api`).
#[derive(Clone, Debug, PartialEq, Eq)]
pub enum UnexpectedHttpError<E> {
    Request(RequestError),
    Api(E),
}

/// The wire envelope of every response: exactly one of three outcomes. On
/// the wire the `Success` variant carries the tag "Ok".
#[derive(Clone, Debug, PartialEq, Eq)]
pub enum Response<T, E, U> {
    Success(T),
    Error(E),
    UnexpectedError(U),
}

/// A bearer credential is a plain token string.
pub type BearerToken = String;

} // verus!
