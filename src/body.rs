//! The grammar of OK bodies: the DATA tuple of CALL, EVAL and data
//! operations, the statement id of PREPARE and the row count of SQL DML.
//!
//! Items are handed out as the MessagePack bytes they came in; turning them
//! into typed values is left to the caller.
use vstd::prelude::*;
use crate::consts::{DATA, SQL_INFO, SQL_STMT_ID};
use crate::errors::{DecodingError, DecodingErrorDetails, DecodingErrorLocation, Error, ProtocolKey};
use crate::msgpack::{
    spec_read_map_len, spec_read_array_len, spec_read_u64, spec_skip_value, read_map_len,
    read_array_len, read_u64, skip_value, subslice,
};

verus! {

/// The value range of the first entry among `n` from `p` whose key is the
/// fixint `key`; `None` when the map is malformed.
pub open spec fn spec_find_key(s: Seq<u8>, p: int, n: nat, key: u8) -> Option<Option<(int, int)>>
    decreases n,
{
    if n == 0 {
        Some(None)
    } else {
        match spec_skip_value(s, p) {
            None => None,
            Some(pa) => match spec_skip_value(s, pa) {
                None => None,
                Some(pb) => if pa == p + 1 && s[p] == key {
                    Some(Some((pa, pb)))
                } else {
                    spec_find_key(s, pb, (n - 1) as nat, key)
                },
            },
        }
    }
}

pub open spec fn body_error(kind: DecodingErrorDetails) -> DecodingError {
    DecodingError { kind, location: Some(DecodingErrorLocation::ResponseBody) }
}

/// The error for bytes at `p` that should start a map or an array.
pub open spec fn wrong_type_at(s: Seq<u8>, p: int) -> DecodingError {
    if 0 <= p < s.len() {
        body_error(DecodingErrorDetails::TypeMismatch(s[p]))
    } else {
        body_error(DecodingErrorDetails::MessagePack)
    }
}

/// The value range under `key` in the map at `p`.
pub open spec fn spec_map_entry(s: Seq<u8>, p: int, key: u8, name: ProtocolKey) -> Result<(int, int), DecodingError> {
    match spec_read_map_len(s, p) {
        None => Err(wrong_type_at(s, p)),
        Some((n, q)) => match spec_find_key(s, q, n as nat, key) {
            None => Err(body_error(DecodingErrorDetails::MessagePack)),
            Some(None) => Err(body_error(DecodingErrorDetails::MissingKey(name))),
            Some(Some(r)) => Ok(r),
        },
    }
}

fn wrong_type(s: &[u8], p: usize) -> (r: DecodingError)
    ensures
        r == wrong_type_at(s@, p as int),
{
    if p < s.len() {
        DecodingError::new(DecodingErrorDetails::TypeMismatch(s[p])).with_location(
            DecodingErrorLocation::ResponseBody,
        )
    } else {
        DecodingError::new(DecodingErrorDetails::MessagePack).with_location(
            DecodingErrorLocation::ResponseBody,
        )
    }
}

/// Finds the value under `key` in the map at `p`; `name` names the key in
/// the error when it is missing.
pub fn map_entry(s: &[u8], p: usize, key: u8, name: ProtocolKey) -> (r: Result<(usize, usize), DecodingError>)
    ensures
        match (r, spec_map_entry(s@, p as int, key, name)) {
            (Ok((a, b)), Ok((c, d))) => a == c && b == d && a <= b <= s@.len(),
            (Err(e), Err(f)) => e == f,
            _ => false,
        },
{
    let (n, q) = match read_map_len(s, p) {
        Some(x) => x,
        None => return Err(wrong_type(s, p)),
    };
    let mut pos = q;
    let mut i: u32 = 0;
    while i < n
        invariant
            i <= n,
            spec_read_map_len(s@, p as int) == Some((n, q as int)),
            spec_find_key(s@, q as int, n as nat, key) == spec_find_key(s@, pos as int, (n - i) as nat, key),
        decreases n - i,
    {
        let ghost rest = (n - i) as nat;
        let pa = match skip_value(s, pos) {
            Some(x) => x,
            None => {
                assert(spec_find_key(s@, pos as int, rest, key) is None);
                return Err(DecodingError::new(DecodingErrorDetails::MessagePack).with_location(
                    DecodingErrorLocation::ResponseBody,
                ));
            },
        };
        let pb = match skip_value(s, pa) {
            Some(x) => x,
            None => {
                assert(spec_find_key(s@, pos as int, rest, key) is None);
                return Err(DecodingError::new(DecodingErrorDetails::MessagePack).with_location(
                    DecodingErrorLocation::ResponseBody,
                ));
            },
        };
        if pa == pos + 1 && s[pos] == key {
            assert(spec_find_key(s@, pos as int, rest, key) == Some(Some((pa as int, pb as int))));
            return Ok((pa, pb));
        }
        pos = pb;
        i += 1;
    }
    Err(DecodingError::new(DecodingErrorDetails::MissingKey(name)).with_location(
        DecodingErrorLocation::ResponseBody,
    ))
}

/// The byte ranges of `n` consecutive values from `p`.
pub open spec fn spec_items_from(s: Seq<u8>, p: int, n: nat) -> Option<Seq<(int, int)>>
    decreases n,
{
    if n == 0 {
        Some(seq![])
    } else {
        match spec_skip_value(s, p) {
            None => None,
            Some(pa) => match spec_items_from(s, pa, (n - 1) as nat) {
                None => None,
                Some(rest) => Some(seq![(p, pa)] + rest),
            },
        }
    }
}

/// The items of the array at `p`, as byte ranges.
pub open spec fn spec_array_items(s: Seq<u8>, p: int) -> Result<Seq<(int, int)>, DecodingError> {
    match spec_read_array_len(s, p) {
        None => Err(wrong_type_at(s, p)),
        Some((n, q)) => match spec_items_from(s, q, n as nat) {
            None => Err(body_error(DecodingErrorDetails::MessagePack)),
            Some(r) => Ok(r),
        },
    }
}

/// The bytes of each range.
pub open spec fn pieces(s: Seq<u8>, r: Seq<(int, int)>) -> Seq<Seq<u8>> {
    Seq::new(r.len(), |i: int| s.subrange(r[i].0, r[i].1))
}

/// The items of the array at `p` of `s`, each as its bytes.
pub fn array_items(s: &[u8], p: usize) -> (r: Result<Vec<Vec<u8>>, DecodingError>)
    ensures
        match (r, spec_array_items(s@, p as int)) {
            (Ok(items), Ok(ranges)) => items@.len() == ranges.len() && forall|i: int|
                0 <= i < ranges.len() ==> #[trigger] items@[i]@ == pieces(s@, ranges)[i],
            (Err(e), Err(f)) => e == f,
            _ => false,
        },
{
    let (n, q) = match read_array_len(s, p) {
        Some(x) => x,
        None => return Err(wrong_type(s, p)),
    };
    let mut items: Vec<Vec<u8>> = Vec::new();
    let ghost mut ranges: Seq<(int, int)> = seq![];
    let mut pos = q;
    let mut i: u32 = 0;
    while i < n
        invariant
            i <= n,
            spec_read_array_len(s@, p as int) == Some((n, q as int)),
            q <= pos <= s@.len(),
            items@.len() == ranges.len(),
            forall|j: int| 0 <= j < ranges.len() ==> 0 <= #[trigger] ranges[j].0 <= ranges[j].1 <= s@.len(),
            forall|j: int| 0 <= j < ranges.len() ==> #[trigger] items@[j]@ == s@.subrange(ranges[j].0, ranges[j].1),
            spec_items_from(s@, q as int, n as nat) == match spec_items_from(s@, pos as int, (n - i) as nat) {
                None => None,
                Some(rest) => Some(ranges + rest),
            },
        decreases n - i,
    {
        let ghost rest_n = (n - i) as nat;
        let pa = match skip_value(s, pos) {
            Some(x) => x,
            None => {
                assert(spec_items_from(s@, pos as int, rest_n) is None);
                return Err(DecodingError::new(DecodingErrorDetails::MessagePack).with_location(
                    DecodingErrorLocation::ResponseBody,
                ));
            },
        };
        let ghost old_ranges = ranges;
        items.push(vstd::slice::slice_to_vec(subslice(s, pos, pa)));
        proof {
            ranges = ranges.push((pos as int, pa as int));
            match spec_items_from(s@, pa as int, (rest_n - 1) as nat) {
                None => {},
                Some(more) => {
                    assert(old_ranges + (seq![(pos as int, pa as int)] + more) =~= ranges + more);
                },
            }
        }
        pos = pa;
        i += 1;
    }
    assert(spec_items_from(s@, pos as int, 0) == Some(Seq::<(int, int)>::empty()));
    assert(ranges + Seq::<(int, int)>::empty() =~= ranges);
    Ok(items)
}

/// The DATA value of an OK body, as its bytes.
pub fn extract_iproto_data(body: &[u8]) -> (r: Result<Vec<u8>, DecodingError>)
    ensures
        match (r, spec_map_entry(body@, 0, DATA, ProtocolKey::Data)) {
            (Ok(v), Ok((a, b))) => v@ == body@.subrange(a, b),
            (Err(e), Err(f)) => e == f,
            _ => false,
        },
{
    let (a, b) = map_entry(body, 0, DATA, ProtocolKey::Data)?;
    Ok(vstd::slice::slice_to_vec(subslice(body, a, b)))
}

/// The items of the DATA tuple of an OK body.
pub fn data_tuple(body: &[u8]) -> (r: Result<Vec<Vec<u8>>, DecodingError>)
    ensures
        match spec_map_entry(body@, 0, DATA, ProtocolKey::Data) {
            Err(f) => r == Err::<Vec<Vec<u8>>, DecodingError>(f),
            Ok((a, b)) => match (r, spec_array_items(body@.subrange(a, b), 0)) {
                (Ok(items), Ok(ranges)) => items@.len() == ranges.len() && forall|i: int|
                    0 <= i < ranges.len() ==> #[trigger] items@[i]@ == pieces(body@.subrange(a, b), ranges)[i],
                (Err(e), Err(f)) => e == f,
                _ => false,
            },
        },
{
    let data = extract_iproto_data(body)?;
    array_items(data.as_slice(), 0)
}

pub open spec fn tuple_length_error(expected: u64, actual: u64) -> DecodingError {
    DecodingError {
        kind: DecodingErrorDetails::InvalidTupleLength { expected, actual },
        location: None,
    }
}

/// The first item of a tuple; an empty tuple is an error.
pub fn first_item(items: Vec<Vec<u8>>) -> (r: Result<Vec<u8>, DecodingError>)
    ensures
        items@.len() == 0 ==> r == Err::<Vec<u8>, DecodingError>(tuple_length_error(1, 0)),
        items@.len() > 0 ==> r is Ok && r->Ok_0@ == items@[0]@,
{
    let mut items = items;
    if items.len() == 0 {
        return Err(DecodingError::new(DecodingErrorDetails::InvalidTupleLength { expected: 1, actual: 0 }));
    }
    Ok(items.remove(0))
}

/// The first row of a data operation's tuple, if any row came back.
pub fn first_row(items: Vec<Vec<u8>>) -> (r: Option<Vec<u8>>)
    ensures
        items@.len() == 0 ==> r is None,
        items@.len() > 0 ==> r is Some && r->Some_0@ == items@[0]@,
{
    let mut items = items;
    if items.len() == 0 {
        None
    } else {
        Some(items.remove(0))
    }
}

/// The first two items of a tuple; a shorter tuple is an error.
pub fn first_two(items: Vec<Vec<u8>>) -> (r: Result<(Vec<u8>, Vec<u8>), DecodingError>)
    ensures
        items@.len() < 2 ==> r == Err::<(Vec<u8>, Vec<u8>), DecodingError>(tuple_length_error(2, items@.len() as u64)),
        items@.len() >= 2 ==> r is Ok && r->Ok_0.0@ == items@[0]@ && r->Ok_0.1@ == items@[1]@,
{
    let mut items = items;
    if items.len() < 2 {
        return Err(DecodingError::new(DecodingErrorDetails::InvalidTupleLength { expected: 2, actual: items.len() as u64 }));
    }
    let first = items.remove(0);
    let second = items.remove(0);
    Ok((first, second))
}

/// The MessagePack `nil`.
pub open spec fn is_nil(b: Seq<u8>) -> bool {
    b == seq![0xc0u8]
}

/// The result of a CALL or EVAL that returns `value, err`: the value when
/// `err` is absent or nil, else `err` as a `CallEval` error.
pub fn call_result(items: Vec<Vec<u8>>) -> (r: Result<Vec<u8>, Error>)
    ensures
        items@.len() == 0 ==> (r matches Err(Error::Decode(e)) && e == tuple_length_error(1, 0)),
        (items@.len() == 1 || (items@.len() >= 2 && is_nil(items@[1]@))) ==> r is Ok && r->Ok_0@ == items@[0]@,
        (items@.len() >= 2 && !is_nil(items@[1]@)) ==> (r matches Err(Error::CallEval(x)) && x@ == items@[1]@),
{
    let mut items = items;
    if items.len() == 0 {
        return Err(Error::Decode(DecodingError::new(DecodingErrorDetails::InvalidTupleLength { expected: 1, actual: 0 })));
    }
    let first = items.remove(0);
    if items.len() == 0 {
        return Ok(first);
    }
    let second = items.remove(0);
    if second.len() == 1 && second[0] == 0xc0 {
        assert(second@ =~= seq![0xc0u8]);
        Ok(first)
    } else {
        Err(Error::CallEval(second))
    }
}

/// The unsigned integer under `key` in the map that starts `body`.
pub open spec fn spec_uint_entry(body: Seq<u8>, key: u8, name: ProtocolKey) -> Result<u64, DecodingError> {
    match spec_map_entry(body, 0, key, name) {
        Err(e) => Err(e),
        Ok((a, _)) => match spec_read_u64(body, a) {
            None => Err(DecodingError { kind: DecodingErrorDetails::MessagePack, location: Some(DecodingErrorLocation::Key(name)) }),
            Some((v, _)) => Ok(v),
        },
    }
}

/// The statement id in the OK body of a PREPARE.
pub fn prepared_statement_id(body: &[u8]) -> (r: Result<u64, DecodingError>)
    ensures
        r == spec_uint_entry(body@, SQL_STMT_ID, ProtocolKey::SqlStmtId),
{
    let (a, _) = map_entry(body, 0, SQL_STMT_ID, ProtocolKey::SqlStmtId)?;
    match read_u64(body, a) {
        Some((v, _)) => Ok(v),
        None => Err(DecodingError::new(DecodingErrorDetails::MessagePack).with_location(
            DecodingErrorLocation::Key(ProtocolKey::SqlStmtId),
        )),
    }
}

/// The row count of an SQL DML reply: the SQL_INFO map's entry 0.
pub fn row_count(body: &[u8]) -> (r: Result<u64, DecodingError>)
    ensures
        match spec_map_entry(body@, 0, SQL_INFO, ProtocolKey::SqlInfo) {
            Err(f) => r == Err::<u64, DecodingError>(f),
            Ok((a, b)) => r == spec_uint_entry(body@.subrange(a, b), 0, ProtocolKey::SqlInfo),
        },
{
    let info = extract_entry(body, SQL_INFO, ProtocolKey::SqlInfo)?;
    let (c, _) = map_entry(info.as_slice(), 0, 0, ProtocolKey::SqlInfo)?;
    match read_u64(info.as_slice(), c) {
        Some((v, _)) => Ok(v),
        None => Err(DecodingError::new(DecodingErrorDetails::MessagePack).with_location(
            DecodingErrorLocation::Key(ProtocolKey::SqlInfo),
        )),
    }
}

fn extract_entry(body: &[u8], key: u8, name: ProtocolKey) -> (r: Result<Vec<u8>, DecodingError>)
    ensures
        match (r, spec_map_entry(body@, 0, key, name)) {
            (Ok(v), Ok((a, b))) => v@ == body@.subrange(a, b),
            (Err(e), Err(f)) => e == f,
            _ => false,
        },
{
    let (a, b) = map_entry(body, 0, key, name)?;
    Ok(vstd::slice::slice_to_vec(subslice(body, a, b)))
}

/// Arguments as sent in a request: an encoder may write an empty argument
/// list as `nil`, which goes on the wire as the empty array.
pub fn as_tuple(encoded: Vec<u8>) -> (r: Vec<u8>)
    ensures
        is_nil(encoded@) ==> r@ == seq![0x90u8],
        !is_nil(encoded@) ==> r@ == encoded@,
{
    if encoded.len() == 1 && encoded[0] == 0xc0 {
        assert(encoded@ =~= seq![0xc0u8]);
        let r: Vec<u8> = vec![0x90u8];
        assert(r@ =~= seq![0x90u8]);
        r
    } else {
        encoded
    }
}

} // verus!
