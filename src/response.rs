//! The incoming side of a call: the decoded response and how it becomes one
//! classified outcome.
use vstd::prelude::*;
use crate::text::{push_signed_decimal, signed_decimal};

verus! {

/// The failure a peer reports: its code and message.
#[derive(Debug)]
pub struct RpcError {
    pub code: i32,
    pub message: String,
}

/// A decoded JSON-RPC response. Either of `result` and `error` may be absent.
#[derive(Debug)]
pub struct ResponseEnvelope<R> {
    pub result: Option<R>,
    pub error: Option<RpcError>,
    pub id: String,
}

/// The three shapes a response can take, with the error taking precedence.
#[derive(Debug)]
pub enum Outcome<R> {
    Success(R),
    Empty,
    Failure(RpcError),
}

/// What one HTTP exchange produced: a transport failure, a body that could not
/// be decoded, or a decoded response.
#[derive(Debug)]
pub enum Exchange<R> {
    Failed(ureq::Error),
    Unreadable(std::io::Error),
    Received(ResponseEnvelope<R>),
}

/// Why a call failed.
#[derive(Debug)]
pub enum Error {
    /// The peer answered with an error object.
    Rpc(RpcError),
    /// The response was not a JSON-RPC response.
    JsonRpc,
    /// The HTTP exchange itself failed.
    Ureq(ureq::Error),
    /// The response body could not be read or decoded.
    Json(std::io::Error),
}

/// The classification callers branch on.
#[derive(Debug, Clone, Copy, PartialEq, Eq, Structural)]
pub enum ErrorKind {
    Transport,
    ResponseFormat,
    Rpc,
}

/// The shape of a decoded response: an error wins over a result.
pub open spec fn outcome_of<R>(resp: ResponseEnvelope<R>) -> Outcome<R> {
    match resp.error {
        Some(e) => Outcome::Failure(e),
        None => match resp.result {
            Some(v) => Outcome::Success(v),
            None => Outcome::Empty,
        },
    }
}

/// What a call returns for an outcome.
pub open spec fn result_of_outcome<R>(o: Outcome<R>) -> Result<Option<R>, Error> {
    match o {
        Outcome::Success(v) => Ok(Some(v)),
        Outcome::Empty => Ok(None),
        Outcome::Failure(e) => Err(Error::Rpc(e)),
    }
}

/// What a call returns for a decoded response.
pub open spec fn result_of<R>(resp: ResponseEnvelope<R>) -> Result<Option<R>, Error> {
    result_of_outcome(outcome_of(resp))
}

/// What a call returns for an exchange.
pub open spec fn settled<R>(ex: Exchange<R>) -> Result<Option<R>, Error> {
    match ex {
        Exchange::Failed(e) => Err(Error::Ureq(e)),
        Exchange::Unreadable(e) => Err(Error::Json(e)),
        Exchange::Received(resp) => result_of(resp),
    }
}

/// The classification of an error.
pub open spec fn kind_of(e: Error) -> ErrorKind {
    match e {
        Error::Rpc(_) => ErrorKind::Rpc,
        Error::JsonRpc => ErrorKind::ResponseFormat,
        Error::Ureq(_) => ErrorKind::Transport,
        Error::Json(_) => ErrorKind::ResponseFormat,
    }
}


/// A response with a result and no error yields that result.
pub proof fn lemma_result_yields_value<R>(v: R, id: String)
    ensures
        result_of((ResponseEnvelope { result: Some(v), error: None, id })) == Ok::<Option<R>, Error>(Some(v)),
{
}

/// A response with neither a result nor an error yields no value.
pub proof fn lemma_nothing_yields_none<R>(id: String)
    ensures
        result_of((ResponseEnvelope::<R> { result: None, error: None, id })) == Ok::<Option<R>, Error>(None),
{
}

/// A response with an error object yields the peer's code and message as an
/// RPC error, whether or not a result is present too.
pub proof fn lemma_error_wins<R>(result: Option<R>, code: i32, message: String, id: String)
    ensures
        result_of((ResponseEnvelope { result, error: Some(RpcError { code, message }), id }))
            == Err::<Option<R>, Error>(Error::Rpc(RpcError { code, message })),
{
}

/// A body that cannot be decoded gives a response-format error, which is
/// never taken for an RPC error.
pub proof fn lemma_undecodable_is_format_error<R>(e: std::io::Error)
    ensures
        settled(Exchange::<R>::Unreadable(e)) == Err::<Option<R>, Error>(Error::Json(e)),
        kind_of(Error::Json(e)) == ErrorKind::ResponseFormat,
        kind_of(Error::Json(e)) != ErrorKind::Rpc,
{
}

/// A failed exchange gives the transport's own error, with no response to
/// interpret.
pub proof fn lemma_transport_failure<R>(e: ureq::Error)
    ensures
        settled(Exchange::<R>::Failed(e)) == Err::<Option<R>, Error>(Error::Ureq(e)),
        kind_of(Error::Ureq(e)) == ErrorKind::Transport,
{
}

impl RpcError {
    /// `code: <code>, message: <message>`.
    pub fn describe(&self) -> (r: String)
        ensures
            r@ == "code: "@ + signed_decimal(self.code as int) + ", message: "@ + self.message@,
    {
        let mut out = String::from_str("code: ");
        push_signed_decimal(&mut out, self.code);
        out.append(", message: ");
        out.append(self.message.as_str());
        out
    }
}

impl<R> ResponseEnvelope<R> {
    /// The shape of this response; an error object wins over a result.
    pub fn classify(self) -> (r: Outcome<R>)
        ensures
            r == outcome_of(self),
    {
        match self.error {
            Some(e) => Outcome::Failure(e),
            None => match self.result {
                Some(v) => Outcome::Success(v),
                None => Outcome::Empty,
            },
        }
    }

    /// What a call returns for this response.
    pub fn interpret(self) -> (r: Result<Option<R>, Error>)
        ensures
            r == result_of(self),
    {
        self.classify().into_result()
    }
}

impl<R> Outcome<R> {
    /// `Ok(Some(v))`, `Ok(None)`, or the peer's error.
    pub fn into_result(self) -> (r: Result<Option<R>, Error>)
        ensures
            r == result_of_outcome(self),
    {
        match self {
            Outcome::Success(v) => Ok(Some(v)),
            Outcome::Empty => Ok(None),
            Outcome::Failure(e) => Err(Error::Rpc(e)),
        }
    }
}

impl<R> Exchange<R> {
    /// What a call returns for this exchange. A transport failure is returned
    /// as it is; only a received response is interpreted.
    pub fn settle(self) -> (r: Result<Option<R>, Error>)
        ensures
            r == settled(self),
    {
        match self {
            Exchange::Failed(e) => Err(Error::Ureq(e)),
            Exchange::Unreadable(e) => Err(Error::Json(e)),
            Exchange::Received(resp) => resp.interpret(),
        }
    }
}

impl Error {
    /// Whether this is a transport, response-format or RPC error.
    pub fn kind(&self) -> (r: ErrorKind)
        ensures
            r == kind_of(*self),
    {
        match self {
            Error::Rpc(_) => ErrorKind::Rpc,
            Error::JsonRpc => ErrorKind::ResponseFormat,
            Error::Ureq(_) => ErrorKind::Transport,
            Error::Json(_) => ErrorKind::ResponseFormat,
        }
    }

    /// A one-line description of this error.
    pub fn describe(&self) -> (r: String)
        ensures
            r@ == description_of(*self),
    {
        match self {
            Error::Rpc(_) => String::from_str("rpc error"),
            Error::JsonRpc => String::from_str("invalid json RPC response"),
            Error::Ureq(_) => String::from_str("ureq error"),
            Error::Json(_) => String::from_str("failed to parse json"),
        }
    }
}

/// The one-line description of each kind of error.
pub open spec fn description_of(e: Error) -> Seq<char> {
    match e {
        Error::Rpc(_) => "rpc error"@,
        Error::JsonRpc => "invalid json RPC response"@,
        Error::Ureq(_) => "ureq error"@,
        Error::Json(_) => "failed to parse json"@,
    }
}

impl From<RpcError> for Error {
    fn from(e: RpcError) -> (r: Error)
        ensures
            r == Error::Rpc(e),
    {
        Error::Rpc(e)
    }
}

impl vstd::std_specs::convert::FromSpecImpl<RpcError> for Error {
    open spec fn obeys_from_spec() -> bool {
        true
    }

    open spec fn from_spec(e: RpcError) -> Error {
        Error::Rpc(e)
    }
}

impl From<ureq::Error> for Error {
    fn from(e: ureq::Error) -> (r: Error)
        ensures
            r == Error::Ureq(e),
    {
        Error::Ureq(e)
    }
}

impl vstd::std_specs::convert::FromSpecImpl<ureq::Error> for Error {
    open spec fn obeys_from_spec() -> bool {
        true
    }

    open spec fn from_spec(e: ureq::Error) -> Error {
        Error::Ureq(e)
    }
}

impl From<std::io::Error> for Error {
    fn from(e: std::io::Error) -> (r: Error)
        ensures
            r == Error::Json(e),
    {
        Error::Json(e)
    }
}

impl vstd::std_specs::convert::FromSpecImpl<std::io::Error> for Error {
    open spec fn obeys_from_spec() -> bool {
        true
    }

    open spec fn from_spec(e: std::io::Error) -> Error {
        Error::Json(e)
    }
}

} // verus!
