//! The error taxonomy surfaced to callers.
use vstd::prelude::*;
use crate::request::EncodingError;

verus! {

/// A protocol map key that a decoder can find missing.
#[derive(Copy, Clone, Debug, PartialEq, Eq, Structural)]
pub enum ProtocolKey {
    ResponseCode,
    Sync,
    SchemaVersion,
    Error24,
    Data,
    SqlStmtId,
    SqlInfo,
}

/// Where in a frame decoding failed.
#[derive(Copy, Clone, Debug, PartialEq, Eq, Structural)]
pub enum DecodingErrorLocation {
    Key(ProtocolKey),
    FrameLengthField,
    ResponseHeader,
    ResponseBody,
}

/// What went wrong while decoding.
#[derive(Copy, Clone, Debug, PartialEq, Eq, Structural)]
pub enum DecodingErrorDetails {
    /// The response code is neither OK nor in the error range.
    UnknownResponseCode(u32),
    /// A required key is absent.
    MissingKey(ProtocolKey),
    /// A value has another MessagePack type than expected; carries the marker byte found.
    TypeMismatch(u8),
    /// A tuple has another length than expected.
    InvalidTupleLength { expected: u64, actual: u64 },
    /// The bytes are not well-formed MessagePack, or end too early.
    MessagePack,
    /// Well-formed MessagePack that does not fit the type asked for.
    Deserialize,
}

/// A decoding failure and, when known, where it happened.
#[derive(Copy, Clone, Debug, PartialEq, Eq, Structural)]
pub struct DecodingError {
    pub kind: DecodingErrorDetails,
    pub location: Option<DecodingErrorLocation>,
}

impl DecodingError {
    pub fn new(kind: DecodingErrorDetails) -> (r: Self)
        ensures
            r == (DecodingError { kind, location: None }),
    {
        DecodingError { kind, location: None }
    }

    pub fn with_location(self, location: DecodingErrorLocation) -> (r: Self)
        ensures
            r == (DecodingError { kind: self.kind, location: Some(location) }),
    {
        DecodingError { kind: self.kind, location: Some(location) }
    }

    pub fn kind(&self) -> (r: &DecodingErrorDetails)
        ensures
            *r == self.kind,
    {
        &self.kind
    }

    pub fn location(&self) -> (r: Option<&DecodingErrorLocation>)
        ensures
            match self.location {
                Some(l) => r is Some && *r->Some_0 == l,
                None => r is None,
            },
    {
        match &self.location {
            Some(l) => Some(l),
            None => None,
        }
    }
}

/// An error reply of the server.
#[derive(Clone, Debug)]
pub struct ErrorResponse {
    /// The server's error code: the low 12 bits of the response code.
    pub code: u32,
    pub description: String,
    /// The structured extras, as the MessagePack bytes they came in.
    pub extra: Option<Vec<u8>>,
}

impl ErrorResponse {
    pub fn new(code: u32, description: String, extra: Option<Vec<u8>>) -> (r: Self)
        ensures
            r.code == code,
            r.description@ == description@,
            r.extra == extra,
    {
        ErrorResponse { code, description, extra }
    }
}

/// Every error of the client.
#[derive(Clone, Debug)]
pub enum Error {
    /// The server answered with an error.
    Response(ErrorResponse),
    /// A CALL or EVAL returned `[value, err]` with a non-nil `err`; its bytes.
    CallEval(Vec<u8>),
    /// The request deadline elapsed.
    Timeout,
    /// The connect deadline elapsed.
    ConnectTimeout,
    /// The server refused the initial AUTH.
    Auth(ErrorResponse),
    Encode(EncodingError),
    Decode(DecodingError),
    /// A live in-flight entry already holds this sync.
    DuplicatedSync(u32),
    /// A space has no primary index.
    SpaceMissingPrimaryIndex,
    /// The TCP connection failed; the cause as text, shared by every waiter.
    ConnectionError(String),
    /// The TCP connection was closed while the request was outstanding.
    ConnectionClosed,
    Other(String),
}

} // verus!
