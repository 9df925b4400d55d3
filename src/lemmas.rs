//! Laws of the wire format and of the sync allocator, proved over the spec
//! functions that the encoders and decoders are verified against.
use vstd::prelude::*;
use crate::codec::{LengthDecoder, frame_bytes};
use crate::consts::{
    RequestType, REQUEST_TYPE, SYNC, SCHEMA_VERSION, STREAM_ID, LIMIT, INDEX_BASE,
    INDEX_BASE_VALUE, SPACE_ID, INDEX_ID, OFFSET, ITERATOR, KEY, TUPLE, OPS, IteratorType,
};
use crate::in_flight::next_sync_after;
use crate::msgpack::{
    be32, be64, be32_value, be64_value_at, mp_u64, mp_u32, mp_u8, mp_pfix, mp_map_len,
    spec_read_map_len, spec_read_pfix, spec_read_u32,
};
use crate::request::{
    EncodedRequest, Request, Select, Update, Upsert, header_bytes, kv_u32, kv_raw, opt_count,
    opt_kv_u32, effective_iterator, effective_offset,
};

verus! {

proof fn lemma_be64_round_trip(v: u64)
    ensures
        be64_value_at(be64(v), 0) == v,
{
    let s = be64(v);
    let b0 = (v >> 56u64) as u8;
    let b1 = (v >> 48u64) as u8;
    let b2 = (v >> 40u64) as u8;
    let b3 = (v >> 32u64) as u8;
    let b4 = (v >> 24u64) as u8;
    let b5 = (v >> 16u64) as u8;
    let b6 = (v >> 8u64) as u8;
    let b7 = v as u8;
    assert(s[0] == b0 && s[1] == b1 && s[2] == b2 && s[3] == b3 && s[4] == b4 && s[5] == b5
        && s[6] == b6 && s[7] == b7);
    assert(((((v >> 56u64) as u8) as u64) << 56u64) | ((((v >> 48u64) as u8) as u64) << 48u64)
        | ((((v >> 40u64) as u8) as u64) << 40u64) | ((((v >> 32u64) as u8) as u64) << 32u64)
        | ((((v >> 24u64) as u8) as u64) << 24u64) | ((((v >> 16u64) as u8) as u64) << 16u64)
        | ((((v >> 8u64) as u8) as u64) << 8u64) | ((v as u8) as u64) == v) by (bit_vector);
}

proof fn lemma_be32_round_trip(v: u32)
    ensures
        be32_value(be32(v)[0], be32(v)[1], be32(v)[2], be32(v)[3]) == v,
{
    assert(((((v >> 24u32) as u8) as u32) << 24u32) | ((((v >> 16u32) as u8) as u32) << 16u32)
        | ((((v >> 8u32) as u8) as u32) << 8u32) | ((v as u8) as u32) == v) by (bit_vector);
}

/// The length prefix that frames carry, the 9-byte `uint 64` form, is read
/// back exactly for every length, 0 and lengths of 4 GiB and more included,
/// whatever bytes follow it.
pub proof fn lemma_length_prefix_round_trip(n: u64, rest: Seq<u8>)
    ensures
        LengthDecoder::NoMarker.spec_step(mp_u64(n) + rest) == Ok::<
            (nat, Option<u64>, LengthDecoder),
            crate::errors::DecodingError,
        >((9, Some(n), LengthDecoder::Value(n))),
{
    let f = LengthDecoder::NoMarker.pending() + (mp_u64(n) + rest);
    assert(f =~= mp_u64(n) + rest);
    assert(f[0] == 0xcfu8);
    lemma_be64_round_trip(n);
    assert(be64_value_at(f, 1) == be64_value_at(be64(n), 0)) by {
        assert forall|j: int| 0 <= j < 8 implies #[trigger] f[1 + j] == be64(n)[j] by {}
    }
}

/// Known keys of a request header, as read back.
#[derive(Copy, Clone, Debug, PartialEq, Eq, Structural)]
pub struct RequestHeaderFields {
    pub request_type: Option<u32>,
    pub sync: Option<u32>,
    pub schema_version: Option<u32>,
    pub stream_id: Option<u32>,
}

/// The `n` entries of a request header from `p`: every key must be one of
/// type, sync, schema version and stream id, with an unsigned value.
pub open spec fn parse_request_entries(s: Seq<u8>, p: int, n: nat, acc: RequestHeaderFields) -> Option<
    (RequestHeaderFields, int),
>
    decreases n,
{
    if n == 0 {
        Some((acc, p))
    } else {
        match spec_read_pfix(s, p) {
            None => None,
            Some((k, pa)) => match spec_read_u32(s, pa) {
                None => None,
                Some((v, pb)) => if k == REQUEST_TYPE {
                    parse_request_entries(s, pb, (n - 1) as nat, RequestHeaderFields { request_type: Some(v), ..acc })
                } else if k == SYNC {
                    parse_request_entries(s, pb, (n - 1) as nat, RequestHeaderFields { sync: Some(v), ..acc })
                } else if k == SCHEMA_VERSION {
                    parse_request_entries(s, pb, (n - 1) as nat, RequestHeaderFields { schema_version: Some(v), ..acc })
                } else if k == STREAM_ID {
                    parse_request_entries(s, pb, (n - 1) as nat, RequestHeaderFields { stream_id: Some(v), ..acc })
                } else {
                    None
                },
            },
        }
    }
}

/// A request header read from the front of `s`: its fields and its length.
pub open spec fn parse_request_header(s: Seq<u8>) -> Option<(RequestHeaderFields, int)> {
    match spec_read_map_len(s, 0) {
        None => None,
        Some((n, p)) => parse_request_entries(
            s,
            p,
            n as nat,
            RequestHeaderFields { request_type: None, sync: None, schema_version: None, stream_id: None },
        ),
    }
}

proof fn lemma_read_kv_u32(s: Seq<u8>, p: int, key: u8, v: u32)
    requires
        key < 128,
        0 <= p,
        p + 6 <= s.len(),
        s.subrange(p, p + 6) == kv_u32(key, v),
    ensures
        spec_read_pfix(s, p) == Some((key, p + 1)),
        spec_read_u32(s, p + 1) == Some((v, p + 6)),
{
    assert(s[p] == s.subrange(p, p + 6)[0]);
    assert(s[p + 1] == s.subrange(p, p + 6)[1]);
    assert(s[p + 2] == s.subrange(p, p + 6)[2]);
    assert(s[p + 3] == s.subrange(p, p + 6)[3]);
    assert(s[p + 4] == s.subrange(p, p + 6)[4]);
    assert(s[p + 5] == s.subrange(p, p + 6)[5]);
    lemma_be32_round_trip(v);
}

/// Reading back the header of a request gives its type, sync, schema
/// version and stream id unchanged, and stops where the body starts.
pub proof fn lemma_request_header_round_trip(
    request_type: RequestType,
    sync: u32,
    schema_version: Option<u32>,
    stream_id: Option<u32>,
    body: Seq<u8>,
)
    ensures
        parse_request_header(header_bytes(request_type, sync, schema_version, stream_id) + body)
            == Some((
            (RequestHeaderFields {
                request_type: Some(request_type.spec_code() as u32),
                sync: Some(sync),
                schema_version,
                stream_id,
            }),
            header_bytes(request_type, sync, schema_version, stream_id).len() as int,
        )),
{
    let h = header_bytes(request_type, sync, schema_version, stream_id);
    let s = h + body;
    let n = (2 + opt_count(schema_version) + opt_count(stream_id)) as u32;
    let a = opt_kv_u32(SCHEMA_VERSION, schema_version);
    let b = opt_kv_u32(STREAM_ID, stream_id);
    assert(h == mp_map_len(n) + mp_pfix(REQUEST_TYPE) + mp_u8(request_type.spec_code()) + kv_u32(SYNC, sync) + a + b);
    assert(mp_map_len(n) == seq![(0x80u32 + n) as u8]);
    assert(s[0] == (0x80u32 + n) as u8);
    assert(spec_read_map_len(s, 0) == Some((n, 1int)));
    let init = RequestHeaderFields { request_type: None, sync: None, schema_version: None, stream_id: None };
    // type entry at 1..4
    assert(s[1] == REQUEST_TYPE);
    assert(s[2] == 0xccu8);
    assert(s[3] == request_type.spec_code());
    let acc1 = RequestHeaderFields { request_type: Some(request_type.spec_code() as u32), ..init };
    assert(spec_read_pfix(s, 1) == Some((REQUEST_TYPE, 2int)));
    assert(spec_read_u32(s, 2) == Some((request_type.spec_code() as u32, 4int)));
    // sync entry at 4..10
    assert(s.subrange(4, 10) =~= kv_u32(SYNC, sync));
    lemma_read_kv_u32(s, 4, SYNC, sync);
    let acc2 = RequestHeaderFields { sync: Some(sync), ..acc1 };
    let q: int = 10 + a.len() as int;
    match schema_version {
        Some(x) => {
            assert(s.subrange(10, 16) =~= kv_u32(SCHEMA_VERSION, x));
            lemma_read_kv_u32(s, 10, SCHEMA_VERSION, x);
        },
        None => {},
    }
    let acc3 = RequestHeaderFields { schema_version, ..acc2 };
    match stream_id {
        Some(x) => {
            assert(s.subrange(q, q + 6) =~= kv_u32(STREAM_ID, x));
            lemma_read_kv_u32(s, q, STREAM_ID, x);
        },
        None => {},
    }
    let acc4 = RequestHeaderFields { stream_id, ..acc3 };
    assert(h.len() == q + b.len());
    match (schema_version, stream_id) {
        (Some(_), Some(_)) => {
            assert(parse_request_entries(s, q + 6, 0, acc4) == Some((acc4, q + 6)));
            assert(parse_request_entries(s, q, 1, acc3) == Some((acc4, q + 6)));
            assert(parse_request_entries(s, 10, 2, acc2) == Some((acc4, q + 6)));
            assert(parse_request_entries(s, 4, 3, acc1) == Some((acc4, q + 6)));
            assert(parse_request_entries(s, 1, 4, init) == Some((acc4, q + 6)));
        },
        (Some(_), None) => {
            assert(parse_request_entries(s, q, 0, acc3) == Some((acc4, q)));
            assert(parse_request_entries(s, 10, 1, acc2) == Some((acc4, q)));
            assert(parse_request_entries(s, 4, 2, acc1) == Some((acc4, q)));
            assert(parse_request_entries(s, 1, 3, init) == Some((acc4, q)));
        },
        (None, Some(_)) => {
            assert(parse_request_entries(s, q + 6, 0, acc4) == Some((acc4, q + 6)));
            assert(parse_request_entries(s, q, 1, acc2) == Some((acc4, q + 6)));
            assert(parse_request_entries(s, 4, 2, acc1) == Some((acc4, q + 6)));
            assert(parse_request_entries(s, 1, 3, init) == Some((acc4, q + 6)));
        },
        (None, None) => {
            assert(parse_request_entries(s, 10, 0, acc2) == Some((acc4, 10int)));
            assert(parse_request_entries(s, 4, 1, acc1) == Some((acc4, 10int)));
            assert(parse_request_entries(s, 1, 2, init) == Some((acc4, 10int)));
        },
    }
}

/// Every frame the client writes splits back into what was encoded: the
/// length prefix gives the message length, the next that many bytes are the
/// message, its header reads back to the request's fields, and what follows
/// the header is the body.
pub proof fn lemma_frame_round_trip(item: EncodedRequest, rest: Seq<u8>)
    requires
        item.spec_message().len() <= u64::MAX,
    ensures
        ({
            let f = frame_bytes(item) + rest;
            let n = item.spec_message().len();
            let msg = f.subrange(9, 9 + n as int);
            let h = header_bytes(item.request_type, item.sync, item.schema_version, item.stream_id);
            &&& LengthDecoder::NoMarker.spec_step(f) == Ok::<
                (nat, Option<u64>, LengthDecoder),
                crate::errors::DecodingError,
            >((9, Some(n as u64), LengthDecoder::Value(n as u64)))
            &&& msg == item.spec_message()
            &&& parse_request_header(msg) == Some((
                (RequestHeaderFields {
                    request_type: Some(item.request_type.spec_code() as u32),
                    sync: Some(item.sync),
                    schema_version: item.schema_version,
                    stream_id: item.stream_id,
                }),
                h.len() as int,
            ))
            &&& msg.subrange(h.len() as int, n as int) == item.encoded_body@
        }),
{
    let n = item.spec_message().len();
    let msg = item.spec_message();
    let f = frame_bytes(item) + rest;
    assert(f =~= mp_u64(n as u64) + (msg + rest));
    lemma_length_prefix_round_trip(n as u64, msg + rest);
    assert(f.subrange(9, 9 + n as int) =~= msg);
    lemma_request_header_round_trip(
        item.request_type,
        item.sync,
        item.schema_version,
        item.stream_id,
        item.encoded_body@,
    );
    let h = header_bytes(item.request_type, item.sync, item.schema_version, item.stream_id);
    assert(msg.subrange(h.len() as int, n as int) =~= item.encoded_body@);
}

/// A SELECT without a limit asks the server for `u32::MAX` rows, so that
/// every row comes back; an unset offset is 0 and an unset iterator `Eq`.
pub proof fn lemma_select_unset_limit(space_id: u32, index_id: u32, offset: Option<u32>, iterator: Option<IteratorType>, keys: Vec<u8>)
    ensures
        (Select { space_id, index_id, limit: None, offset, iterator, keys }).spec_body() == mp_map_len(6)
            + kv_u32(SPACE_ID, space_id) + kv_u32(INDEX_ID, index_id) + kv_u32(LIMIT, u32::MAX)
            + kv_u32(OFFSET, effective_offset(offset)) + kv_u32(ITERATOR, effective_iterator(iterator).spec_code())
            + kv_raw(KEY, keys@),
{
}

/// UPDATE and UPSERT always send INDEX_BASE = 1: field position 1 names the
/// first field of the tuple.
pub proof fn lemma_update_upsert_one_based(u: Update, v: Upsert)
    ensures
        INDEX_BASE_VALUE == 1,
        u.spec_body() == mp_map_len(5) + kv_u32(SPACE_ID, u.space_id) + kv_u32(INDEX_ID, u.index_id)
            + kv_u32(INDEX_BASE, 1) + kv_raw(KEY, u.keys@) + kv_raw(TUPLE, u.tuple@),
        v.spec_body() == mp_map_len(4) + kv_u32(SPACE_ID, v.space_id) + kv_u32(INDEX_BASE, 1)
            + kv_raw(OPS, v.ops@) + kv_raw(TUPLE, v.tuple@),
{
}

/// The sync handed out `i` allocations after `s0`.
pub open spec fn sync_after(s0: u32, i: nat) -> u32
    decreases i,
{
    if i == 0 {
        s0
    } else {
        next_sync_after(sync_after(s0, (i - 1) as nat))
    }
}

proof fn lemma_sync_after_value(s0: u32, i: nat)
    ensures
        sync_after(s0, i) == (s0 as int + i) % 0x1_0000_0000,
    decreases i,
{
    if i > 0 {
        lemma_sync_after_value(s0, (i - 1) as nat);
        let prev = sync_after(s0, (i - 1) as nat);
        assert(prev == (s0 as int + i - 1) % 0x1_0000_0000);
        if prev == u32::MAX {
            assert((s0 as int + i) % 0x1_0000_0000 == 0) by {
                vstd::arithmetic::div_mod::lemma_add_mod_noop(s0 as int + i - 1, 1, 0x1_0000_0000);
            }
        } else {
            assert((s0 as int + i) % 0x1_0000_0000 == prev + 1) by {
                vstd::arithmetic::div_mod::lemma_add_mod_noop(s0 as int + i - 1, 1, 0x1_0000_0000);
            }
        }
    }
}

/// Syncs are handed out in admission order: among fewer than 2^32
/// consecutive admissions on one connection, the one admitted later holds
/// the later sync in the allocator's sequence, and no two share a sync.
pub proof fn lemma_syncs_distinct_in_order(s0: u32, i: nat, j: nat)
    requires
        i < j < 0x1_0000_0000,
    ensures
        sync_after(s0, i) != sync_after(s0, j),
        sync_after(s0, j) == (sync_after(s0, i) as int + (j - i)) % 0x1_0000_0000,
{
    lemma_sync_after_value(s0, i);
    lemma_sync_after_value(s0, j);
    let a = s0 as int + i;
    let b = s0 as int + j;
    vstd::arithmetic::div_mod::lemma_add_mod_noop(a, (j - i) as int, 0x1_0000_0000);
    vstd::arithmetic::div_mod::lemma_mod_twice((j - i) as int, 0x1_0000_0000);
    vstd::arithmetic::div_mod::lemma_small_mod((j - i) as nat, 0x1_0000_0000);
    if a % 0x1_0000_0000 == b % 0x1_0000_0000 {
        vstd::arithmetic::div_mod::lemma_mod_equivalence(b, a, 0x1_0000_0000);
        vstd::arithmetic::div_mod::lemma_fundamental_div_mod(b - a, 0x1_0000_0000);
        assert(false) by (nonlinear_arith)
            requires
                (b - a) % 0x1_0000_0000 == 0,
                0 < b - a < 0x1_0000_0000,
        {
            vstd::arithmetic::div_mod::lemma_small_mod((b - a) as nat, 0x1_0000_0000);
        }
    }
}

} // verus!
