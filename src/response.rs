//! Decoding of one response frame: the header map, then an OK value or an
//! error map.
use vstd::prelude::*;
use vstd::utf8::{decode_utf8, valid_utf8};
use crate::consts::{
    RESPONSE_CODE, SYNC, SCHEMA_VERSION, ERROR_24, ERROR, OK_CODE, ERROR_RANGE_START,
    ERROR_RANGE_END,
};
use crate::errors::{
    DecodingError, DecodingErrorDetails, DecodingErrorLocation, ErrorResponse, ProtocolKey,
};
use crate::msgpack::{
    spec_read_map_len, spec_read_pfix, spec_read_u32, spec_read_str_len, spec_skip_value,
    read_map_len, read_pfix, read_u32, read_str_len, skip_value, subslice, at_pos,
};

verus! {

/// The header fields seen so far.
#[derive(Copy, Clone, Debug, PartialEq, Eq, Structural)]
pub struct HeaderFields {
    pub code: Option<u32>,
    pub sync: Option<u32>,
    pub schema_version: Option<u32>,
}

/// The header fields after one known key; a repeated key keeps the last value.
pub open spec fn with_header_entry(acc: HeaderFields, k: u8, v: u32) -> HeaderFields {
    if k == RESPONSE_CODE {
        HeaderFields { code: Some(v), ..acc }
    } else if k == SYNC {
        HeaderFields { sync: Some(v), ..acc }
    } else {
        HeaderFields { schema_version: Some(v), ..acc }
    }
}

/// Whether a header key is one the decoder reads.
pub open spec fn known_header_key(k: u8) -> bool {
    k == RESPONSE_CODE || k == SYNC || k == SCHEMA_VERSION
}

pub open spec fn malformed() -> DecodingError {
    DecodingError { kind: DecodingErrorDetails::MessagePack, location: None }
}

pub open spec fn malformed_in(key: ProtocolKey) -> DecodingError {
    DecodingError {
        kind: DecodingErrorDetails::MessagePack,
        location: Some(DecodingErrorLocation::Key(key)),
    }
}

pub open spec fn missing(key: ProtocolKey) -> DecodingError {
    DecodingError { kind: DecodingErrorDetails::MissingKey(key), location: None }
}

/// The `n` header entries from position `p`: known keys are read as
/// integers, unknown keys have their value skipped.
pub open spec fn parse_header_entries(s: Seq<u8>, p: int, n: nat, acc: HeaderFields) -> Option<
    (HeaderFields, int),
>
    decreases n,
{
    if n == 0 {
        Some((acc, p))
    } else {
        match spec_read_pfix(s, p) {
            None => None,
            Some((k, pa)) => if known_header_key(k) {
                match spec_read_u32(s, pa) {
                    None => None,
                    Some((v, pb)) => parse_header_entries(
                        s,
                        pb,
                        (n - 1) as nat,
                        with_header_entry(acc, k, v),
                    ),
                }
            } else {
                match spec_skip_value(s, pa) {
                    None => None,
                    Some(pb) => parse_header_entries(s, pb, (n - 1) as nat, acc),
                }
            },
        }
    }
}

/// What the error map holds so far: the description, and the byte range of
/// the extras.
pub type ErrorFields = (Option<Seq<char>>, Option<(int, int)>);

/// The `n` entries of an error map from position `p`.
pub open spec fn parse_error_entries(s: Seq<u8>, p: int, n: nat, acc: ErrorFields) -> Result<
    (ErrorFields, int),
    DecodingError,
>
    decreases n,
{
    if n == 0 {
        Ok((acc, p))
    } else {
        match spec_read_pfix(s, p) {
            None => Err(malformed()),
            Some((k, pa)) => if k == ERROR_24 {
                match spec_read_str_len(s, pa) {
                    None => Err(malformed()),
                    Some((len, pb)) => if pb + len > s.len() {
                        Err(malformed_in(ProtocolKey::Error24))
                    } else if !valid_utf8(s.subrange(pb, pb + len)) {
                        Err(malformed_in(ProtocolKey::Error24))
                    } else {
                        parse_error_entries(
                            s,
                            pb + len,
                            (n - 1) as nat,
                            (Some(decode_utf8(s.subrange(pb, pb + len))), acc.1),
                        )
                    },
                }
            } else {
                match spec_skip_value(s, pa) {
                    None => Err(malformed()),
                    Some(pb) => if k == ERROR {
                        parse_error_entries(s, pb, (n - 1) as nat, (acc.0, Some((pa, pb))))
                    } else {
                        parse_error_entries(s, pb, (n - 1) as nat, acc)
                    },
                }
            },
        }
    }
}

/// The body of a decoded response, as plain values.
pub enum BodyView {
    Value(Seq<u8>),
    Error { code: u32, description: Seq<char>, extra: Option<Seq<u8>> },
}

/// A decoded response, as plain values.
pub struct ResponseView {
    pub sync: u32,
    pub schema_version: u32,
    pub body: BodyView,
}

/// What the body of a response with response code `code` decodes to, reading
/// from position `q`.
pub open spec fn spec_decode_body(s: Seq<u8>, q: int, code: u32) -> Result<BodyView, DecodingError> {
    if code == OK_CODE {
        match spec_skip_value(s, q) {
            None => Err(malformed()),
            Some(e) => Ok(BodyView::Value(s.subrange(q, e))),
        }
    } else if ERROR_RANGE_START <= code <= ERROR_RANGE_END {
        match spec_read_map_len(s, q) {
            None => Err(malformed()),
            Some((m, q2)) => match parse_error_entries(s, q2, m as nat, (None, None)) {
                Err(e) => Err(e),
                Ok((ef, _)) => match ef.0 {
                    None => Err(missing(ProtocolKey::Error24)),
                    Some(d) => Ok(
                        BodyView::Error {
                            code: (code - 0x8000) as u32,
                            description: d,
                            extra: match ef.1 {
                                Some((a, b)) => Some(s.subrange(a, b)),
                                None => None,
                            },
                        },
                    ),
                },
            },
        }
    } else {
        Err(
            DecodingError {
                kind: DecodingErrorDetails::UnknownResponseCode(code),
                location: None,
            },
        )
    }
}

/// What a frame decodes to.
pub open spec fn spec_decode_response(s: Seq<u8>) -> Result<ResponseView, DecodingError> {
    match spec_read_map_len(s, 0) {
        None => Err(malformed()),
        Some((n, p)) => match parse_header_entries(
            s,
            p,
            n as nat,
            HeaderFields { code: None, sync: None, schema_version: None },
        ) {
            None => Err(malformed()),
            Some((h, q)) => if h.code is None {
                Err(missing(ProtocolKey::ResponseCode))
            } else if h.sync is None {
                Err(missing(ProtocolKey::Sync))
            } else if h.schema_version is None {
                Err(missing(ProtocolKey::SchemaVersion))
            } else {
                match spec_decode_body(s, q, h.code->Some_0) {
                    Err(e) => Err(e),
                    Ok(b) => Ok(
                        ResponseView {
                            sync: h.sync->Some_0,
                            schema_version: h.schema_version->Some_0,
                            body: b,
                        },
                    ),
                }
            },
        },
    }
}

/// The body of a response: the OK value's bytes, or the server's error.
#[derive(Clone, Debug)]
pub enum ResponseBody {
    Value(Vec<u8>),
    Error(ErrorResponse),
}

impl ResponseBody {
    pub open spec fn view(&self) -> BodyView {
        match self {
            ResponseBody::Value(v) => BodyView::Value(v@),
            ResponseBody::Error(e) => BodyView::Error {
                code: e.code,
                description: e.description@,
                extra: match e.extra {
                    Some(x) => Some(x@),
                    None => None,
                },
            },
        }
    }
}

/// A response: its sync, the schema version, and the body.
#[derive(Clone, Debug)]
pub struct Response {
    pub sync: u32,
    pub schema_version: u32,
    pub body: ResponseBody,
}

impl Response {
    pub open spec fn view(&self) -> ResponseView {
        ResponseView { sync: self.sync, schema_version: self.schema_version, body: self.body.view() }
    }

    /// Decodes one frame (the bytes after the length prefix).
    pub fn decode(s: &[u8]) -> (r: Result<Response, DecodingError>)
        ensures
            match (r, spec_decode_response(s@)) {
                (Ok(resp), Ok(v)) => resp.view() == v,
                (Err(e), Err(f)) => e == f,
                _ => false,
            },
    {
        let (n, start) = match read_map_len(s, 0) {
            Some(x) => x,
            None => return Err(DecodingError::new(DecodingErrorDetails::MessagePack)),
        };
        let (h, q) = match decode_header_entries(s, start, n) {
            Some(x) => x,
            None => return Err(DecodingError::new(DecodingErrorDetails::MessagePack)),
        };
        let code = match h.code {
            Some(c) => c,
            None => return Err(
                DecodingError::new(DecodingErrorDetails::MissingKey(ProtocolKey::ResponseCode)),
            ),
        };
        let sync = match h.sync {
            Some(c) => c,
            None => return Err(DecodingError::new(DecodingErrorDetails::MissingKey(ProtocolKey::Sync))),
        };
        let schema_version = match h.schema_version {
            Some(c) => c,
            None => return Err(
                DecodingError::new(DecodingErrorDetails::MissingKey(ProtocolKey::SchemaVersion)),
            ),
        };
        let body = decode_body(s, q, code)?;
        Ok(Response { sync, schema_version, body })
    }
}

/// Reads the `n` header entries from position `p`.
fn decode_header_entries(s: &[u8], p: usize, n: u32) -> (r: Option<(HeaderFields, usize)>)
    ensures
        at_pos(r) == parse_header_entries(
            s@,
            p as int,
            n as nat,
            (HeaderFields { code: None, sync: None, schema_version: None }),
        ),
{
    let ghost init = HeaderFields { code: None, sync: None, schema_version: None };
    let mut acc = HeaderFields { code: None, sync: None, schema_version: None };
    let mut pos = p;
    let mut i: u32 = 0;
    while i < n
        invariant
            i <= n,
            init == (HeaderFields { code: None, sync: None, schema_version: None }),
            parse_header_entries(s@, p as int, n as nat, init) == parse_header_entries(
                s@,
                pos as int,
                (n - i) as nat,
                acc,
            ),
        decreases n - i,
    {
        let ghost rest = (n - i) as nat;
        assert(rest > 0);
        let (k, pa) = match read_pfix(s, pos) {
            Some(x) => x,
            None => {
                assert(parse_header_entries(s@, pos as int, rest, acc) is None);
                return None;
            },
        };
        if k == RESPONSE_CODE || k == SYNC || k == SCHEMA_VERSION {
            assert(known_header_key(k));
            let (v, pb) = match read_u32(s, pa) {
                Some(x) => x,
                None => {
                    assert(parse_header_entries(s@, pos as int, rest, acc) is None);
                    return None;
                },
            };
            if k == RESPONSE_CODE {
                acc = HeaderFields { code: Some(v), ..acc };
            } else if k == SYNC {
                acc = HeaderFields { sync: Some(v), ..acc };
            } else {
                acc = HeaderFields { schema_version: Some(v), ..acc };
            }
            pos = pb;
        } else {
            assert(!known_header_key(k));
            pos = match skip_value(s, pa) {
                Some(pb) => pb,
                None => {
                    assert(parse_header_entries(s@, pos as int, rest, acc) is None);
                    return None;
                },
            };
        }
        i += 1;
    }
    Some((acc, pos))
}


/// Relies on `String::from_utf8`: it succeeds exactly on valid UTF-8 and
/// then holds the characters that the bytes encode.
#[verifier::external_body]
fn string_from_utf8(b: Vec<u8>) -> (r: Option<String>)
    ensures
        match r {
            Some(t) => valid_utf8(b@) && t@ == decode_utf8(b@),
            None => !valid_utf8(b@),
        },
{
    String::from_utf8(b).ok()
}

/// Decodes the body of a response with response code `code` from position `q`.
fn decode_body(s: &[u8], q: usize, code: u32) -> (r: Result<ResponseBody, DecodingError>)
    ensures
        match (r, spec_decode_body(s@, q as int, code)) {
            (Ok(b), Ok(v)) => b.view() == v,
            (Err(e), Err(f)) => e == f,
            _ => false,
        },
{
    if code == OK_CODE {
        match skip_value(s, q) {
            None => Err(DecodingError::new(DecodingErrorDetails::MessagePack)),
            Some(e) => Ok(ResponseBody::Value(vstd::slice::slice_to_vec(subslice(s, q, e)))),
        }
    } else if ERROR_RANGE_START <= code && code <= ERROR_RANGE_END {
        let (m, q2) = match read_map_len(s, q) {
            Some(x) => x,
            None => return Err(DecodingError::new(DecodingErrorDetails::MessagePack)),
        };
        let (description, extra) = decode_error_entries(s, q2, m)?;
        match description {
            None => Err(DecodingError::new(DecodingErrorDetails::MissingKey(ProtocolKey::Error24))),
            Some(d) => {
                let extra_bytes = match extra {
                    Some((a, b)) => Some(vstd::slice::slice_to_vec(subslice(s, a, b))),
                    None => None,
                };
                Ok(ResponseBody::Error(ErrorResponse::new(code - 0x8000, d, extra_bytes)))
            },
        }
    } else {
        Err(DecodingError::new(DecodingErrorDetails::UnknownResponseCode(code)))
    }
}

/// Reads the `n` entries of an error map from position `p`.
fn decode_error_entries(s: &[u8], p: usize, n: u32) -> (r: Result<
    (Option<String>, Option<(usize, usize)>),
    DecodingError,
>)
    ensures
        match (r, parse_error_entries(s@, p as int, n as nat, (None, None))) {
            (Ok((d, x)), Ok((ef, _))) => (match d {
                Some(t) => ef.0 == Some(t@),
                None => ef.0 is None,
            }) && (match x {
                Some((a, b)) => ef.1 == Some((a as int, b as int)) && a <= b <= s@.len(),
                None => ef.1 is None,
            }),
            (Err(e), Err(f)) => e == f,
            _ => false,
        },
{
    let mut description: Option<String> = None;
    let mut extra: Option<(usize, usize)> = None;
    let ghost mut acc: ErrorFields = (None, None);
    let mut pos = p;
    let mut i: u32 = 0;
    while i < n
        invariant
            i <= n,
            parse_error_entries(s@, p as int, n as nat, (None, None)) == parse_error_entries(
                s@,
                pos as int,
                (n - i) as nat,
                acc,
            ),
            match description {
                Some(t) => acc.0 == Some(t@),
                None => acc.0 is None,
            },
            match extra {
                Some((a, b)) => acc.1 == Some((a as int, b as int)) && a <= b <= s@.len(),
                None => acc.1 is None,
            },
        decreases n - i,
    {
        let (k, pa) = match read_pfix(s, pos) {
            Some(x) => x,
            None => return Err(DecodingError::new(DecodingErrorDetails::MessagePack)),
        };
        if k == ERROR_24 {
            let (len, pb) = match read_str_len(s, pa) {
                Some(x) => x,
                None => return Err(DecodingError::new(DecodingErrorDetails::MessagePack)),
            };
            if s.len() - pb < len as usize {
                return Err(
                    DecodingError::new(DecodingErrorDetails::MessagePack).with_location(
                        DecodingErrorLocation::Key(ProtocolKey::Error24),
                    ),
                );
            }
            let end = pb + len as usize;
            let bytes = vstd::slice::slice_to_vec(subslice(s, pb, end));
            match string_from_utf8(bytes) {
                Some(t) => {
                    proof {
                        acc = (Some(t@), acc.1);
                    }
                    description = Some(t);
                },
                None => return Err(
                    DecodingError::new(DecodingErrorDetails::MessagePack).with_location(
                        DecodingErrorLocation::Key(ProtocolKey::Error24),
                    ),
                ),
            }
            pos = end;
        } else {
            let pb = match skip_value(s, pa) {
                Some(x) => x,
                None => return Err(DecodingError::new(DecodingErrorDetails::MessagePack)),
            };
            if k == ERROR {
                proof {
                    acc = (acc.0, Some((pa as int, pb as int)));
                }
                extra = Some((pa, pb));
            }
            pos = pb;
        }
        i += 1;
    }
    Ok((description, extra))
}

} // verus!
