//! Request bodies, the request header, and the frame that carries both.
use vstd::prelude::*;
use sha1::Digest;
use vstd::string::StringSliceAdditionalSpecFns;
use vstd::utf8::encode_utf8;
use crate::consts::{
    RequestType, TransactionIsolationLevel, IteratorType, EXPR, TUPLE, FUNCTION_NAME, USER_NAME,
    SPACE_ID, INDEX_ID, LIMIT, OFFSET, ITERATOR, INDEX_BASE, INDEX_BASE_VALUE, KEY, OPS, SQL_TEXT,
    SQL_BIND, SQL_STMT_ID, VERSION, FEATURES, TIMEOUT, TXN_ISOLATION, PROTOCOL_VERSION,
    REQUEST_TYPE, SYNC, SCHEMA_VERSION, STREAM_ID,
};
use crate::msgpack::{
    mp_pfix, mp_u8, mp_u32, mp_u64, mp_map_len, mp_array_len, mp_str, mp_bin, be64, write_pfix,
    write_u8, write_u32, write_u64, write_map_len, write_array_len, write_raw, write_str, write_str_bytes, write_bin,
};

verus! {

/// A request body that knows its type code and how to encode itself.
///
/// Argument tuples inside a body are already MessagePack arrays: they are
/// encoded once by the caller and copied into the body unchanged.
pub trait Request {
    /// The request type this body belongs to.
    spec fn spec_request_type() -> RequestType;

    /// Whether every string and binary of the body fits a MessagePack header.
    spec fn encodable(&self) -> bool;

    /// The bytes of the encoded body.
    spec fn spec_body(&self) -> Seq<u8>;

    fn request_type() -> (r: RequestType)
        ensures
            r == Self::spec_request_type(),
    ;

    fn is_encodable(&self) -> (r: bool)
        ensures
            r == self.encodable(),
    ;

    fn encode(&self, buf: &mut Vec<u8>)
        requires
            self.encodable(),
        ensures
            final(buf)@ == old(buf)@ + self.spec_body(),
    ;
}

/// A key and a `uint 32` value.
pub open spec fn kv_u32(key: u8, v: u32) -> Seq<u8> {
    mp_pfix(key) + mp_u32(v)
}

/// A key and a string value.
pub open spec fn kv_str(key: u8, s: Seq<u8>) -> Seq<u8> {
    mp_pfix(key) + mp_str(s)
}

/// A key and an already encoded value.
pub open spec fn kv_raw(key: u8, v: Seq<u8>) -> Seq<u8> {
    mp_pfix(key) + v
}

/// Appends a key and a `uint 32` value.
pub fn write_kv_u32(buf: &mut Vec<u8>, key: u8, v: u32)
    requires
        key < 128,
    ensures
        final(buf)@ == old(buf)@ + kv_u32(key, v),
{
    write_pfix(buf, key);
    write_u32(buf, v);
    assert(final(buf)@ =~= old(buf)@ + kv_u32(key, v));
}

/// Appends a key and a string value.
pub fn write_kv_str(buf: &mut Vec<u8>, key: u8, s: &str)
    requires
        key < 128,
        s.spec_bytes().len() <= u32::MAX,
    ensures
        final(buf)@ == old(buf)@ + kv_str(key, s.spec_bytes()),
{
    write_pfix(buf, key);
    write_str(buf, s);
    assert(final(buf)@ =~= old(buf)@ + kv_str(key, s.spec_bytes()));
}

/// Appends a key and an encoded tuple.
pub fn write_kv_tuple(buf: &mut Vec<u8>, key: u8, tuple: &[u8])
    requires
        key < 128,
    ensures
        final(buf)@ == old(buf)@ + kv_raw(key, tuple@),
{
    write_pfix(buf, key);
    write_raw(buf, tuple);
    assert(final(buf)@ =~= old(buf)@ + kv_raw(key, tuple@));
}

/// PING: an empty body map.
#[derive(Clone, Debug)]
pub struct Ping {}

impl Request for Ping {
    open spec fn spec_request_type() -> RequestType {
        RequestType::Ping
    }

    open spec fn encodable(&self) -> bool {
        true
    }

    open spec fn spec_body(&self) -> Seq<u8> {
        mp_map_len(0)
    }

    fn request_type() -> (r: RequestType) {
        RequestType::Ping
    }

    fn is_encodable(&self) -> (r: bool) {
        true
    }

    fn encode(&self, buf: &mut Vec<u8>) {
        write_map_len(buf, 0);
    }
}

/// COMMIT: an empty body map.
#[derive(Clone, Debug)]
pub struct Commit {}

impl Request for Commit {
    open spec fn spec_request_type() -> RequestType {
        RequestType::Commit
    }

    open spec fn encodable(&self) -> bool {
        true
    }

    open spec fn spec_body(&self) -> Seq<u8> {
        mp_map_len(0)
    }

    fn request_type() -> (r: RequestType) {
        RequestType::Commit
    }

    fn is_encodable(&self) -> (r: bool) {
        true
    }

    fn encode(&self, buf: &mut Vec<u8>) {
        write_map_len(buf, 0);
    }
}

/// ROLLBACK: an empty body map.
#[derive(Clone, Debug)]
pub struct Rollback {}

impl Request for Rollback {
    open spec fn spec_request_type() -> RequestType {
        RequestType::Rollback
    }

    open spec fn encodable(&self) -> bool {
        true
    }

    open spec fn spec_body(&self) -> Seq<u8> {
        mp_map_len(0)
    }

    fn request_type() -> (r: RequestType) {
        RequestType::Rollback
    }

    fn is_encodable(&self) -> (r: bool) {
        true
    }

    fn encode(&self, buf: &mut Vec<u8>) {
        write_map_len(buf, 0);
    }
}

/// EVAL: an expression and its argument tuple.
#[derive(Clone, Debug)]
pub struct Eval {
    pub expr: String,
    pub tuple: Vec<u8>,
}

impl Eval {
    pub fn new(expr: String, args: Vec<u8>) -> (r: Self)
        ensures
            r.expr@ == expr@,
            r.tuple@ == args@,
    {
        Eval { expr, tuple: args }
    }
}

impl Request for Eval {
    open spec fn spec_request_type() -> RequestType {
        RequestType::Eval
    }

    open spec fn encodable(&self) -> bool {
        encode_utf8(self.expr@).len() <= u32::MAX
    }

    open spec fn spec_body(&self) -> Seq<u8> {
        mp_map_len(2) + kv_str(EXPR, encode_utf8(self.expr@)) + kv_raw(TUPLE, self.tuple@)
    }

    fn request_type() -> (r: RequestType) {
        RequestType::Eval
    }

    fn is_encodable(&self) -> (r: bool) {
        self.expr.as_str().as_bytes().len() <= u32::MAX as usize
    }

    fn encode(&self, buf: &mut Vec<u8>) {
        write_map_len(buf, 2);
        write_kv_str(buf, EXPR, self.expr.as_str());
        write_kv_tuple(buf, TUPLE, self.tuple.as_slice());
        assert(buf@ =~= old(buf)@ + self.spec_body());
    }
}

/// CALL: a function name and its argument tuple.
#[derive(Clone, Debug)]
pub struct Call {
    pub function_name: String,
    pub tuple: Vec<u8>,
}

impl Call {
    pub fn new(function_name: String, args: Vec<u8>) -> (r: Self)
        ensures
            r.function_name@ == function_name@,
            r.tuple@ == args@,
    {
        Call { function_name, tuple: args }
    }
}

impl Request for Call {
    open spec fn spec_request_type() -> RequestType {
        RequestType::Call
    }

    open spec fn encodable(&self) -> bool {
        encode_utf8(self.function_name@).len() <= u32::MAX
    }

    open spec fn spec_body(&self) -> Seq<u8> {
        mp_map_len(2) + kv_str(FUNCTION_NAME, encode_utf8(self.function_name@)) + kv_raw(
            TUPLE,
            self.tuple@,
        )
    }

    fn request_type() -> (r: RequestType) {
        RequestType::Call
    }

    fn is_encodable(&self) -> (r: bool) {
        self.function_name.as_str().as_bytes().len() <= u32::MAX as usize
    }

    fn encode(&self, buf: &mut Vec<u8>) {
        write_map_len(buf, 2);
        write_kv_str(buf, FUNCTION_NAME, self.function_name.as_str());
        write_kv_tuple(buf, TUPLE, self.tuple.as_slice());
        assert(buf@ =~= old(buf)@ + self.spec_body());
    }
}

/// SELECT: every key is sent; an unset limit becomes `u32::MAX`, an unset
/// offset 0 and an unset iterator `Eq`.
#[derive(Clone, Debug)]
pub struct Select {
    pub space_id: u32,
    pub index_id: u32,
    pub limit: Option<u32>,
    pub offset: Option<u32>,
    pub iterator: Option<IteratorType>,
    pub keys: Vec<u8>,
}

/// The limit that the server sees.
pub open spec fn effective_limit(limit: Option<u32>) -> u32 {
    match limit {
        Some(l) => l,
        None => u32::MAX,
    }
}

/// The offset that the server sees.
pub open spec fn effective_offset(offset: Option<u32>) -> u32 {
    match offset {
        Some(o) => o,
        None => 0,
    }
}

/// The iterator that the server sees.
pub open spec fn effective_iterator(iterator: Option<IteratorType>) -> IteratorType {
    match iterator {
        Some(i) => i,
        None => IteratorType::Eq,
    }
}

impl Select {
    pub fn new(
        space_id: u32,
        index_id: u32,
        limit: Option<u32>,
        offset: Option<u32>,
        iterator: Option<IteratorType>,
        keys: Vec<u8>,
    ) -> (r: Self)
        ensures
            r.space_id == space_id,
            r.index_id == index_id,
            r.limit == limit,
            r.offset == offset,
            r.iterator == iterator,
            r.keys@ == keys@,
    {
        Select { space_id, index_id, limit, offset, iterator, keys }
    }
}

impl Request for Select {
    open spec fn spec_request_type() -> RequestType {
        RequestType::Select
    }

    open spec fn encodable(&self) -> bool {
        true
    }

    open spec fn spec_body(&self) -> Seq<u8> {
        mp_map_len(6) + kv_u32(SPACE_ID, self.space_id) + kv_u32(INDEX_ID, self.index_id) + kv_u32(
            LIMIT,
            effective_limit(self.limit),
        ) + kv_u32(OFFSET, effective_offset(self.offset)) + kv_u32(
            ITERATOR,
            effective_iterator(self.iterator).spec_code(),
        ) + kv_raw(KEY, self.keys@)
    }

    fn request_type() -> (r: RequestType) {
        RequestType::Select
    }

    fn is_encodable(&self) -> (r: bool) {
        true
    }

    fn encode(&self, buf: &mut Vec<u8>) {
        let limit = match self.limit {
            Some(l) => l,
            None => u32::MAX,
        };
        let offset = match self.offset {
            Some(o) => o,
            None => 0,
        };
        let iterator = match self.iterator {
            Some(i) => i,
            None => IteratorType::default(),
        };
        write_map_len(buf, 6);
        write_kv_u32(buf, SPACE_ID, self.space_id);
        write_kv_u32(buf, INDEX_ID, self.index_id);
        write_kv_u32(buf, LIMIT, limit);
        write_kv_u32(buf, OFFSET, offset);
        write_kv_u32(buf, ITERATOR, iterator.code());
        write_kv_tuple(buf, KEY, self.keys.as_slice());
        assert(buf@ =~= old(buf)@ + self.spec_body());
    }
}

/// INSERT: a space and a tuple.
#[derive(Clone, Debug)]
pub struct Insert {
    pub space_id: u32,
    pub tuple: Vec<u8>,
}

impl Insert {
    pub fn new(space_id: u32, tuple: Vec<u8>) -> (r: Self)
        ensures
            r.space_id == space_id,
            r.tuple@ == tuple@,
    {
        Insert { space_id, tuple }
    }
}

impl Request for Insert {
    open spec fn spec_request_type() -> RequestType {
        RequestType::Insert
    }

    open spec fn encodable(&self) -> bool {
        true
    }

    open spec fn spec_body(&self) -> Seq<u8> {
        mp_map_len(2) + kv_u32(SPACE_ID, self.space_id) + kv_raw(TUPLE, self.tuple@)
    }

    fn request_type() -> (r: RequestType) {
        RequestType::Insert
    }

    fn is_encodable(&self) -> (r: bool) {
        true
    }

    fn encode(&self, buf: &mut Vec<u8>) {
        write_map_len(buf, 2);
        write_kv_u32(buf, SPACE_ID, self.space_id);
        write_kv_tuple(buf, TUPLE, self.tuple.as_slice());
        assert(buf@ =~= old(buf)@ + self.spec_body());
    }
}

/// REPLACE: a space and a tuple.
#[derive(Clone, Debug)]
pub struct Replace {
    pub space_id: u32,
    pub tuple: Vec<u8>,
}

impl Replace {
    pub fn new(space_id: u32, tuple: Vec<u8>) -> (r: Self)
        ensures
            r.space_id == space_id,
            r.tuple@ == tuple@,
    {
        Replace { space_id, tuple }
    }
}

impl Request for Replace {
    open spec fn spec_request_type() -> RequestType {
        RequestType::Replace
    }

    open spec fn encodable(&self) -> bool {
        true
    }

    open spec fn spec_body(&self) -> Seq<u8> {
        mp_map_len(2) + kv_u32(SPACE_ID, self.space_id) + kv_raw(TUPLE, self.tuple@)
    }

    fn request_type() -> (r: RequestType) {
        RequestType::Replace
    }

    fn is_encodable(&self) -> (r: bool) {
        true
    }

    fn encode(&self, buf: &mut Vec<u8>) {
        write_map_len(buf, 2);
        write_kv_u32(buf, SPACE_ID, self.space_id);
        write_kv_tuple(buf, TUPLE, self.tuple.as_slice());
        assert(buf@ =~= old(buf)@ + self.spec_body());
    }
}

/// UPDATE: a key in an index and the operations; field positions are
/// one-based (INDEX_BASE is always 1).
#[derive(Clone, Debug)]
pub struct Update {
    pub space_id: u32,
    pub index_id: u32,
    pub keys: Vec<u8>,
    pub tuple: Vec<u8>,
}

impl Update {
    pub fn new(space_id: u32, index_id: u32, keys: Vec<u8>, ops: Vec<u8>) -> (r: Self)
        ensures
            r.space_id == space_id,
            r.index_id == index_id,
            r.keys@ == keys@,
            r.tuple@ == ops@,
    {
        Update { space_id, index_id, keys, tuple: ops }
    }
}

impl Request for Update {
    open spec fn spec_request_type() -> RequestType {
        RequestType::Update
    }

    open spec fn encodable(&self) -> bool {
        true
    }

    open spec fn spec_body(&self) -> Seq<u8> {
        mp_map_len(5) + kv_u32(SPACE_ID, self.space_id) + kv_u32(INDEX_ID, self.index_id) + kv_u32(
            INDEX_BASE,
            INDEX_BASE_VALUE,
        ) + kv_raw(KEY, self.keys@) + kv_raw(TUPLE, self.tuple@)
    }

    fn request_type() -> (r: RequestType) {
        RequestType::Update
    }

    fn is_encodable(&self) -> (r: bool) {
        true
    }

    fn encode(&self, buf: &mut Vec<u8>) {
        write_map_len(buf, 5);
        write_kv_u32(buf, SPACE_ID, self.space_id);
        write_kv_u32(buf, INDEX_ID, self.index_id);
        write_kv_u32(buf, INDEX_BASE, INDEX_BASE_VALUE);
        write_kv_tuple(buf, KEY, self.keys.as_slice());
        write_kv_tuple(buf, TUPLE, self.tuple.as_slice());
        assert(buf@ =~= old(buf)@ + self.spec_body());
    }
}

/// UPSERT: a tuple and the operations applied when it already exists;
/// field positions are one-based (INDEX_BASE is always 1).
#[derive(Clone, Debug)]
pub struct Upsert {
    pub space_id: u32,
    pub ops: Vec<u8>,
    pub tuple: Vec<u8>,
}

impl Upsert {
    pub fn new(space_id: u32, ops: Vec<u8>, tuple: Vec<u8>) -> (r: Self)
        ensures
            r.space_id == space_id,
            r.ops@ == ops@,
            r.tuple@ == tuple@,
    {
        Upsert { space_id, ops, tuple }
    }
}

impl Request for Upsert {
    open spec fn spec_request_type() -> RequestType {
        RequestType::Upsert
    }

    open spec fn encodable(&self) -> bool {
        true
    }

    open spec fn spec_body(&self) -> Seq<u8> {
        mp_map_len(4) + kv_u32(SPACE_ID, self.space_id) + kv_u32(INDEX_BASE, INDEX_BASE_VALUE)
            + kv_raw(OPS, self.ops@) + kv_raw(TUPLE, self.tuple@)
    }

    fn request_type() -> (r: RequestType) {
        RequestType::Upsert
    }

    fn is_encodable(&self) -> (r: bool) {
        true
    }

    fn encode(&self, buf: &mut Vec<u8>) {
        write_map_len(buf, 4);
        write_kv_u32(buf, SPACE_ID, self.space_id);
        write_kv_u32(buf, INDEX_BASE, INDEX_BASE_VALUE);
        write_kv_tuple(buf, OPS, self.ops.as_slice());
        write_kv_tuple(buf, TUPLE, self.tuple.as_slice());
        assert(buf@ =~= old(buf)@ + self.spec_body());
    }
}

/// DELETE: a key in an index.
#[derive(Clone, Debug)]
pub struct Delete {
    pub space_id: u32,
    pub index_id: u32,
    pub keys: Vec<u8>,
}

impl Delete {
    pub fn new(space_id: u32, index_id: u32, keys: Vec<u8>) -> (r: Self)
        ensures
            r.space_id == space_id,
            r.index_id == index_id,
            r.keys@ == keys@,
    {
        Delete { space_id, index_id, keys }
    }
}

impl Request for Delete {
    open spec fn spec_request_type() -> RequestType {
        RequestType::Delete
    }

    open spec fn encodable(&self) -> bool {
        true
    }

    open spec fn spec_body(&self) -> Seq<u8> {
        mp_map_len(3) + kv_u32(SPACE_ID, self.space_id) + kv_u32(INDEX_ID, self.index_id) + kv_raw(
            KEY,
            self.keys@,
        )
    }

    fn request_type() -> (r: RequestType) {
        RequestType::Delete
    }

    fn is_encodable(&self) -> (r: bool) {
        true
    }

    fn encode(&self, buf: &mut Vec<u8>) {
        write_map_len(buf, 3);
        write_kv_u32(buf, SPACE_ID, self.space_id);
        write_kv_u32(buf, INDEX_ID, self.index_id);
        write_kv_tuple(buf, KEY, self.keys.as_slice());
        assert(buf@ =~= old(buf)@ + self.spec_body());
    }
}

/// What an EXECUTE runs: a prepared statement or a query text.
#[derive(Clone, Debug)]
pub enum ExecuteStatement {
    StatementId(u64),
    Query(String),
}

/// EXECUTE: an SQL statement and its bound parameters.
#[derive(Clone, Debug)]
pub struct Execute {
    pub statement: ExecuteStatement,
    pub binds: Vec<u8>,
}

impl Execute {
    pub fn new_statement_id(statement_id: u64, binds: Vec<u8>) -> (r: Self)
        ensures
            r.statement == ExecuteStatement::StatementId(statement_id),
            r.binds@ == binds@,
    {
        Execute { statement: ExecuteStatement::StatementId(statement_id), binds }
    }

    pub fn new_query(query: String, binds: Vec<u8>) -> (r: Self)
        ensures
            r.statement is Query,
            r.statement->Query_0@ == query@,
            r.binds@ == binds@,
    {
        Execute { statement: ExecuteStatement::Query(query), binds }
    }
}

impl Request for Execute {
    open spec fn spec_request_type() -> RequestType {
        RequestType::Execute
    }

    open spec fn encodable(&self) -> bool {
        match self.statement {
            ExecuteStatement::StatementId(_) => true,
            ExecuteStatement::Query(q) => encode_utf8(q@).len() <= u32::MAX,
        }
    }

    open spec fn spec_body(&self) -> Seq<u8> {
        mp_map_len(2) + (match self.statement {
            ExecuteStatement::StatementId(id) => mp_pfix(SQL_STMT_ID) + mp_u64(id),
            ExecuteStatement::Query(q) => kv_str(SQL_TEXT, encode_utf8(q@)),
        }) + kv_raw(SQL_BIND, self.binds@)
    }

    fn request_type() -> (r: RequestType) {
        RequestType::Execute
    }

    fn is_encodable(&self) -> (r: bool) {
        match &self.statement {
            ExecuteStatement::StatementId(_) => true,
            ExecuteStatement::Query(q) => q.as_str().as_bytes().len() <= u32::MAX as usize,
        }
    }

    fn encode(&self, buf: &mut Vec<u8>) {
        write_map_len(buf, 2);
        match &self.statement {
            ExecuteStatement::StatementId(id) => {
                write_pfix(buf, SQL_STMT_ID);
                write_u64(buf, *id);
            },
            ExecuteStatement::Query(q) => {
                write_kv_str(buf, SQL_TEXT, q.as_str());
            },
        }
        write_kv_tuple(buf, SQL_BIND, self.binds.as_slice());
        assert(buf@ =~= old(buf)@ + self.spec_body());
    }
}

/// PREPARE: an SQL text.
#[derive(Clone, Debug)]
pub struct Prepare {
    pub sql_query: String,
}

impl Prepare {
    pub fn new(sql_query: String) -> (r: Self)
        ensures
            r.sql_query@ == sql_query@,
    {
        Prepare { sql_query }
    }
}

impl Request for Prepare {
    open spec fn spec_request_type() -> RequestType {
        RequestType::Prepare
    }

    open spec fn encodable(&self) -> bool {
        encode_utf8(self.sql_query@).len() <= u32::MAX
    }

    open spec fn spec_body(&self) -> Seq<u8> {
        mp_map_len(1) + kv_str(SQL_TEXT, encode_utf8(self.sql_query@))
    }

    fn request_type() -> (r: RequestType) {
        RequestType::Prepare
    }

    fn is_encodable(&self) -> (r: bool) {
        self.sql_query.as_str().as_bytes().len() <= u32::MAX as usize
    }

    fn encode(&self, buf: &mut Vec<u8>) {
        write_map_len(buf, 1);
        write_kv_str(buf, SQL_TEXT, self.sql_query.as_str());
        assert(buf@ =~= old(buf)@ + self.spec_body());
    }
}

/// The `float 64` form, given the IEEE-754 bits of the value.
pub open spec fn mp_f64_bits(bits: u64) -> Seq<u8> {
    seq![0xcbu8] + be64(bits)
}

/// BEGIN: an optional server-side timeout and an isolation level.
///
/// The timeout is carried as the IEEE-754 bits of its value in seconds, so
/// that it reaches the wire unchanged.
#[derive(Clone, Debug)]
pub struct Begin {
    pub timeout_secs_bits: Option<u64>,
    pub transaction_isolation_level: TransactionIsolationLevel,
}

impl Begin {
    pub fn new(
        timeout_secs_bits: Option<u64>,
        transaction_isolation_level: TransactionIsolationLevel,
    ) -> (r: Self)
        ensures
            r.timeout_secs_bits == timeout_secs_bits,
            r.transaction_isolation_level == transaction_isolation_level,
    {
        Begin { timeout_secs_bits, transaction_isolation_level }
    }
}

impl Request for Begin {
    open spec fn spec_request_type() -> RequestType {
        RequestType::Begin
    }

    open spec fn encodable(&self) -> bool {
        true
    }

    open spec fn spec_body(&self) -> Seq<u8> {
        (match self.timeout_secs_bits {
            Some(bits) => mp_map_len(2) + mp_pfix(TIMEOUT) + mp_f64_bits(bits),
            None => mp_map_len(1),
        }) + mp_pfix(TXN_ISOLATION) + mp_u8(self.transaction_isolation_level.spec_code())
    }

    fn request_type() -> (r: RequestType) {
        RequestType::Begin
    }

    fn is_encodable(&self) -> (r: bool) {
        true
    }

    fn encode(&self, buf: &mut Vec<u8>) {
        match self.timeout_secs_bits {
            Some(bits) => {
                write_map_len(buf, 2);
                write_pfix(buf, TIMEOUT);
                buf.push(0xcb);
                crate::msgpack::write_be64(buf, bits);
            },
            None => {
                write_map_len(buf, 1);
            },
        }
        write_pfix(buf, TXN_ISOLATION);
        write_u8(buf, self.transaction_isolation_level.code());
        assert(buf@ =~= old(buf)@ + self.spec_body());
    }
}

/// The numeric ids of the protocol features.
pub const FEATURE_STREAMS: u8 = 0;
pub const FEATURE_TRANSACTIONS: u8 = 1;
pub const FEATURE_ERROR_EXTENSION: u8 = 2;
pub const FEATURE_WATCHERS: u8 = 3;

/// ID: the protocol version and the features the client supports.
#[derive(Clone, Debug)]
pub struct Id {
    pub streams: bool,
    pub transactions: bool,
    pub error_extension: bool,
    pub watchers: bool,
    pub protocol_version: u8,
}

impl Default for Id {
    fn default() -> (r: Self)
        ensures
            r.streams,
            !r.transactions,
            r.error_extension,
            !r.watchers,
            r.protocol_version == PROTOCOL_VERSION,
    {
        Id {
            streams: true,
            transactions: false,
            error_extension: true,
            watchers: false,
            protocol_version: PROTOCOL_VERSION,
        }
    }
}

/// The one-item sequence `[f]` when `on` holds, else nothing.
pub open spec fn feature_if(on: bool, f: u8) -> Seq<u8> {
    if on {
        mp_u8(f)
    } else {
        seq![]
    }
}

impl Id {
    pub open spec fn feature_count(&self) -> u32 {
        ((if self.streams { 1int } else { 0int }) + (if self.transactions { 1int } else { 0int })
            + (if self.error_extension { 1int } else { 0int }) + (if self.watchers { 1int } else { 0int })) as u32
    }
}

impl Request for Id {
    open spec fn spec_request_type() -> RequestType {
        RequestType::Id
    }

    open spec fn encodable(&self) -> bool {
        true
    }

    open spec fn spec_body(&self) -> Seq<u8> {
        mp_map_len(2) + mp_pfix(VERSION) + mp_u8(self.protocol_version) + mp_pfix(FEATURES)
            + mp_array_len(self.feature_count()) + feature_if(self.streams, FEATURE_STREAMS)
            + feature_if(self.transactions, FEATURE_TRANSACTIONS) + feature_if(
            self.error_extension,
            FEATURE_ERROR_EXTENSION,
        ) + feature_if(self.watchers, FEATURE_WATCHERS)
    }

    fn request_type() -> (r: RequestType) {
        RequestType::Id
    }

    fn is_encodable(&self) -> (r: bool) {
        true
    }

    fn encode(&self, buf: &mut Vec<u8>) {
        write_map_len(buf, 2);
        write_pfix(buf, VERSION);
        write_u8(buf, self.protocol_version);
        write_pfix(buf, FEATURES);
        let count: u32 = (if self.streams { 1u32 } else { 0u32 }) + (if self.transactions { 1u32 } else { 0u32 })
            + (if self.error_extension { 1u32 } else { 0u32 }) + (if self.watchers { 1u32 } else { 0u32 });
        write_array_len(buf, count);
        let ghost mid = buf@;
        if self.streams {
            write_u8(buf, FEATURE_STREAMS);
        }
        if self.transactions {
            write_u8(buf, FEATURE_TRANSACTIONS);
        }
        if self.error_extension {
            write_u8(buf, FEATURE_ERROR_EXTENSION);
        }
        if self.watchers {
            write_u8(buf, FEATURE_WATCHERS);
        }
        assert(buf@ =~= old(buf)@ + self.spec_body());
    }
}

/// A header entry that is present only when the value is.
pub open spec fn opt_kv_u32(key: u8, v: Option<u32>) -> Seq<u8> {
    match v {
        Some(x) => kv_u32(key, x),
        None => seq![],
    }
}

pub open spec fn opt_count(v: Option<u32>) -> u32 {
    match v {
        Some(_) => 1,
        None => 0,
    }
}

/// The header map of a request: type and sync always, schema version and
/// stream id when present.
pub open spec fn header_bytes(
    request_type: RequestType,
    sync: u32,
    schema_version: Option<u32>,
    stream_id: Option<u32>,
) -> Seq<u8> {
    mp_map_len((2 + opt_count(schema_version) + opt_count(stream_id)) as u32) + mp_pfix(
        REQUEST_TYPE,
    ) + mp_u8(request_type.spec_code()) + kv_u32(SYNC, sync) + opt_kv_u32(
        SCHEMA_VERSION,
        schema_version,
    ) + opt_kv_u32(STREAM_ID, stream_id)
}

/// Errors while encoding a request.
#[derive(Clone, Debug, PartialEq, Eq, Structural)]
pub enum EncodingError {
    /// A string or binary of the body is too long for a MessagePack header.
    MessagePack,
}

/// A request encoded once into bytes, with the metadata of its header.
///
/// The body is never encoded again: a request that has to be sent on a
/// new connection travels as these bytes.
#[derive(Clone, Debug)]
pub struct EncodedRequest {
    pub request_type: RequestType,
    /// Set by the connection when it admits the request.
    pub sync: u32,
    pub schema_version: Option<u32>,
    pub stream_id: Option<u32>,
    pub encoded_body: Vec<u8>,
}

impl EncodedRequest {
    /// The header followed by the body.
    pub open spec fn spec_message(&self) -> Seq<u8> {
        header_bytes(self.request_type, self.sync, self.schema_version, self.stream_id)
            + self.encoded_body@
    }

    /// Encodes `body` once; the sync is 0 until a connection stamps it.
    pub fn new<B: Request>(body: B, stream_id: Option<u32>) -> (r: Result<Self, EncodingError>)
        ensures
            body.encodable() <==> r is Ok,
            r is Ok ==> {
                let e = r->Ok_0;
                &&& e.request_type == B::spec_request_type()
                &&& e.sync == 0
                &&& e.schema_version is None
                &&& e.stream_id == stream_id
                &&& e.encoded_body@ == body.spec_body()
            },
    {
        if !body.is_encodable() {
            return Err(EncodingError::MessagePack);
        }
        let mut buf: Vec<u8> = Vec::new();
        body.encode(&mut buf);
        assert(buf@ =~= body.spec_body());
        Ok(
            EncodedRequest {
                request_type: B::request_type(),
                sync: 0,
                schema_version: None,
                stream_id,
                encoded_body: buf,
            },
        )
    }

    /// Appends the header map and then the body.
    pub fn encode(&self, buf: &mut Vec<u8>)
        ensures
            final(buf)@ == old(buf)@ + self.spec_message(),
    {
        let n: u32 = 2 + (if self.schema_version.is_some() { 1u32 } else { 0u32 }) + (if self.stream_id.is_some() { 1u32 } else { 0u32 });
        write_map_len(buf, n);
        write_pfix(buf, REQUEST_TYPE);
        write_u8(buf, self.request_type.code());
        write_kv_u32(buf, SYNC, self.sync);
        let ghost mid = buf@;
        if let Some(x) = self.schema_version {
            write_kv_u32(buf, SCHEMA_VERSION, x);
        }
        if let Some(x) = self.stream_id {
            write_kv_u32(buf, STREAM_ID, x);
        }
        write_raw(buf, self.encoded_body.as_slice());
        assert(final(buf)@ =~= old(buf)@ + self.spec_message());
    }

    /// The sync slot, which the connection fills in.
    pub fn sync_mut(&mut self) -> (r: &mut u32)
        ensures
            *r == old(self).sync,
            final(self).sync == *final(r),
            final(self).request_type == old(self).request_type,
            final(self).schema_version == old(self).schema_version,
            final(self).stream_id == old(self).stream_id,
            final(self).encoded_body == old(self).encoded_body,
    {
        &mut self.sync
    }
}

pub uninterp spec fn sha1_of(data: Seq<u8>) -> Seq<u8>;

/// Relies on `sha1::Sha1` through `digest::Digest::digest`: the SHA-1 digest
/// of `data`, which is 20 bytes long.
#[verifier::external_body]
fn sha1_digest(data: &[u8]) -> (r: Vec<u8>)
    ensures
        r@ == sha1_of(data@),
        r@.len() == 20,
{
    sha1::Sha1::digest(data).to_vec()
}

/// The first 20 bytes of the salt, or all of it when it is shorter.
pub open spec fn salt_prefix(salt: Seq<u8>) -> Seq<u8> {
    if salt.len() <= 20 {
        salt
    } else {
        salt.subrange(0, 20)
    }
}

/// Bytewise exclusive or of two sequences, as long as the shorter one.
pub open spec fn xor_bytes(a: Seq<u8>, b: Seq<u8>) -> Seq<u8> {
    Seq::new(
        if a.len() <= b.len() { a.len() } else { b.len() },
        |i: int| a[i] ^ b[i],
    )
}

/// The CHAP-SHA1 scramble:
/// `SHA1(password) XOR SHA1(salt[0..20] ++ SHA1(SHA1(password)))`.
pub open spec fn scramble_of(password: Seq<u8>, salt: Seq<u8>) -> Seq<u8> {
    xor_bytes(
        sha1_of(password),
        sha1_of(salt_prefix(salt) + sha1_of(sha1_of(password))),
    )
}

/// Exclusive or of two digests, byte by byte, over the shorter length.
pub fn xor_scramble(step1: &[u8], step3: &[u8]) -> (r: Vec<u8>)
    ensures
        r@ == xor_bytes(step1@, step3@),
{
    let n = if step1.len() <= step3.len() { step1.len() } else { step3.len() };
    let mut out: Vec<u8> = Vec::with_capacity(n);
    let mut i: usize = 0;
    while i < n
        invariant
            i <= n,
            n <= step1@.len(),
            n <= step3@.len(),
            n == (if step1@.len() <= step3@.len() { step1@.len() } else { step3@.len() }),
            out@.len() == i,
            forall|j: int| 0 <= j < i ==> out@[j] == step1@[j] ^ step3@[j],
        decreases n - i,
    {
        out.push(step1[i] ^ step3[i]);
        i += 1;
    }
    assert(out@ =~= xor_bytes(step1@, step3@));
    out
}

/// The scramble sent in AUTH for `password` (none counts as empty) and the
/// salt of the greeting.
pub fn prepare_scramble(password: Option<&str>, salt: &[u8]) -> (r: Vec<u8>)
    ensures
        r@ == scramble_of(
            match password {
                Some(p) => p.spec_bytes(),
                None => seq![],
            },
            salt@,
        ),
        r@.len() == 20,
{
    let ghost expected = match password {
        Some(p) => p.spec_bytes(),
        None => seq![],
    };
    let pw: &[u8] = match password {
        Some(p) => p.as_bytes(),
        None => &[],
    };
    assert(pw@ =~= expected);
    let step1 = sha1_digest(pw);
    let step2 = sha1_digest(step1.as_slice());
    let cut = if salt.len() <= 20 { salt.len() } else { 20 };
    let mut input: Vec<u8> = Vec::new();
    write_raw(&mut input, slice_prefix(salt, cut).as_slice());
    write_raw(&mut input, step2.as_slice());
    assert(input@ =~= salt_prefix(salt@) + sha1_of(sha1_of(pw@)));
    let step3 = sha1_digest(input.as_slice());
    xor_scramble(step1.as_slice(), step3.as_slice())
}

/// The first `n` bytes of `s`.
fn slice_prefix(s: &[u8], n: usize) -> (r: Vec<u8>)
    requires
        n <= s@.len(),
    ensures
        r@ == s@.subrange(0, n as int),
{
    let mut out: Vec<u8> = Vec::with_capacity(n);
    let mut i: usize = 0;
    while i < n
        invariant
            i <= n,
            n <= s@.len(),
            out@ == s@.subrange(0, i as int),
        decreases n - i,
    {
        out.push(s[i]);
        i += 1;
        assert(out@ =~= s@.subrange(0, i as int));
    }
    out
}

/// The authentication method name, `chap-sha1`.
pub open spec fn chap_sha1_name() -> Seq<u8> {
    seq![0x63u8, 0x68, 0x61, 0x70, 0x2d, 0x73, 0x68, 0x61, 0x31]
}

fn chap_sha1_bytes() -> (r: Vec<u8>)
    ensures
        r@ == chap_sha1_name(),
{
    let r: Vec<u8> = vec![0x63u8, 0x68, 0x61, 0x70, 0x2d, 0x73, 0x68, 0x61, 0x31];
    assert(r@ =~= chap_sha1_name());
    r
}

/// AUTH: a user name and the CHAP-SHA1 scramble.
#[derive(Clone, Debug)]
pub struct Auth {
    pub user_name: String,
    pub scramble: Vec<u8>,
}

impl Auth {
    pub fn new(user: String, password: Option<&str>, salt: &[u8]) -> (r: Self)
        ensures
            r.user_name@ == user@,
            r.scramble@ == scramble_of(
                match password {
                    Some(p) => p.spec_bytes(),
                    None => seq![],
                },
                salt@,
            ),
    {
        Auth { user_name: user, scramble: prepare_scramble(password, salt) }
    }
}

impl Request for Auth {
    open spec fn spec_request_type() -> RequestType {
        RequestType::Auth
    }

    open spec fn encodable(&self) -> bool {
        encode_utf8(self.user_name@).len() <= u32::MAX && self.scramble@.len() <= u32::MAX
    }

    open spec fn spec_body(&self) -> Seq<u8> {
        mp_map_len(2) + kv_str(USER_NAME, encode_utf8(self.user_name@)) + mp_pfix(TUPLE)
            + mp_array_len(2) + mp_str(chap_sha1_name()) + mp_bin(self.scramble@)
    }

    fn request_type() -> (r: RequestType) {
        RequestType::Auth
    }

    fn is_encodable(&self) -> (r: bool) {
        self.user_name.as_str().as_bytes().len() <= u32::MAX as usize && self.scramble.len() <= u32::MAX as usize
    }

    fn encode(&self, buf: &mut Vec<u8>) {
        write_map_len(buf, 2);
        write_kv_str(buf, USER_NAME, self.user_name.as_str());
        write_pfix(buf, TUPLE);
        write_array_len(buf, 2);
        let name = chap_sha1_bytes();
        write_str_bytes(buf, name.as_slice());
        write_bin(buf, self.scramble.as_slice());
        assert(buf@ =~= old(buf)@ + self.spec_body());
    }
}

} // verus!
