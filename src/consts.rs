//! Protocol constants: map keys, request types, response codes and the small
//! enumerations that travel as integers on the wire.
use vstd::prelude::*;

verus! {

// Header keys.
pub const REQUEST_TYPE: u8 = 0x00;
pub const RESPONSE_CODE: u8 = 0x00;
pub const SYNC: u8 = 0x01;
pub const SCHEMA_VERSION: u8 = 0x05;
pub const STREAM_ID: u8 = 0x0a;

// Body keys.
pub const SPACE_ID: u8 = 0x10;
pub const INDEX_ID: u8 = 0x11;
pub const LIMIT: u8 = 0x12;
pub const OFFSET: u8 = 0x13;
pub const ITERATOR: u8 = 0x14;
pub const INDEX_BASE: u8 = 0x15;
pub const KEY: u8 = 0x20;
pub const TUPLE: u8 = 0x21;
pub const FUNCTION_NAME: u8 = 0x22;
pub const USER_NAME: u8 = 0x23;
pub const EXPR: u8 = 0x27;
pub const OPS: u8 = 0x28;
pub const DATA: u8 = 0x30;
pub const ERROR_24: u8 = 0x31;
pub const SQL_TEXT: u8 = 0x40;
pub const SQL_BIND: u8 = 0x41;
pub const SQL_INFO: u8 = 0x42;
pub const SQL_STMT_ID: u8 = 0x43;
pub const ERROR: u8 = 0x52;
pub const VERSION: u8 = 0x54;
pub const FEATURES: u8 = 0x55;
pub const TIMEOUT: u8 = 0x56;
pub const TXN_ISOLATION: u8 = 0x59;

/// Response code of a successful reply.
pub const OK_CODE: u32 = 0x0;
/// First response code of the error range.
pub const ERROR_RANGE_START: u32 = 0x8000;
/// Last response code of the error range.
pub const ERROR_RANGE_END: u32 = 0x8FFF;

/// Field positions of UPDATE and UPSERT operations start at one.
pub const INDEX_BASE_VALUE: u32 = 1;

/// Protocol version announced in an ID request.
pub const PROTOCOL_VERSION: u8 = 3;

/// Request type codes.
#[derive(Copy, Clone, Debug, PartialEq, Eq, Structural)]
pub enum RequestType {
    OkReply,
    Select,
    Insert,
    Replace,
    Update,
    Delete,
    Call16,
    Auth,
    Eval,
    Upsert,
    Call,
    Execute,
    Nop,
    Prepare,
    Begin,
    Commit,
    Rollback,
    Ping,
    Id,
    Watch,
    Unwatch,
    Event,
    Chunk,
}

impl RequestType {
    pub open spec fn spec_code(self) -> u8 {
        match self {
            RequestType::OkReply => 0,
            RequestType::Select => 1,
            RequestType::Insert => 2,
            RequestType::Replace => 3,
            RequestType::Update => 4,
            RequestType::Delete => 5,
            RequestType::Call16 => 6,
            RequestType::Auth => 7,
            RequestType::Eval => 8,
            RequestType::Upsert => 9,
            RequestType::Call => 10,
            RequestType::Execute => 11,
            RequestType::Nop => 12,
            RequestType::Prepare => 13,
            RequestType::Begin => 14,
            RequestType::Commit => 15,
            RequestType::Rollback => 16,
            RequestType::Ping => 64,
            RequestType::Id => 73,
            RequestType::Watch => 74,
            RequestType::Unwatch => 75,
            RequestType::Event => 76,
            RequestType::Chunk => 128,
        }
    }

    /// The code of this request type on the wire.
    pub fn code(self) -> (r: u8)
        ensures
            r == self.spec_code(),
    {
        match self {
            RequestType::OkReply => 0,
            RequestType::Select => 1,
            RequestType::Insert => 2,
            RequestType::Replace => 3,
            RequestType::Update => 4,
            RequestType::Delete => 5,
            RequestType::Call16 => 6,
            RequestType::Auth => 7,
            RequestType::Eval => 8,
            RequestType::Upsert => 9,
            RequestType::Call => 10,
            RequestType::Execute => 11,
            RequestType::Nop => 12,
            RequestType::Prepare => 13,
            RequestType::Begin => 14,
            RequestType::Commit => 15,
            RequestType::Rollback => 16,
            RequestType::Ping => 64,
            RequestType::Id => 73,
            RequestType::Watch => 74,
            RequestType::Unwatch => 75,
            RequestType::Event => 76,
            RequestType::Chunk => 128,
        }
    }
}

/// Transaction isolation level, sent under TXN_ISOLATION.
#[derive(Copy, Clone, Debug, PartialEq, Eq, Structural)]
pub enum TransactionIsolationLevel {
    /// The level configured on the server.
    Default,
    /// Read changes that are committed but not confirmed yet.
    ReadCommited,
    /// Read confirmed changes only.
    ReadConfirmed,
    /// Let the server pick the level.
    BestEffort,
}

impl TransactionIsolationLevel {
    pub open spec fn spec_code(self) -> u8 {
        match self {
            TransactionIsolationLevel::Default => 0,
            TransactionIsolationLevel::ReadCommited => 1,
            TransactionIsolationLevel::ReadConfirmed => 2,
            TransactionIsolationLevel::BestEffort => 3,
        }
    }

    /// The small integer that stands for this level on the wire.
    pub fn code(self) -> (r: u8)
        ensures
            r == self.spec_code(),
    {
        match self {
            TransactionIsolationLevel::Default => 0,
            TransactionIsolationLevel::ReadCommited => 1,
            TransactionIsolationLevel::ReadConfirmed => 2,
            TransactionIsolationLevel::BestEffort => 3,
        }
    }
}

impl Default for TransactionIsolationLevel {
    fn default() -> (r: Self)
        ensures
            r == TransactionIsolationLevel::Default,
    {
        TransactionIsolationLevel::Default
    }
}

/// Iterator type of a SELECT request.
#[derive(Copy, Clone, Debug, PartialEq, Eq, Structural)]
pub enum IteratorType {
    Eq,
    Req,
    All,
    Lt,
    Le,
    Ge,
    Gt,
    BitsAllSet,
    BitsAnySet,
    BitsAlLNotSet,
    Overlaps,
    Neighvor,
}

impl IteratorType {
    pub open spec fn spec_code(self) -> u32 {
        match self {
            IteratorType::Eq => 0,
            IteratorType::Req => 1,
            IteratorType::All => 2,
            IteratorType::Lt => 3,
            IteratorType::Le => 4,
            IteratorType::Ge => 5,
            IteratorType::Gt => 6,
            IteratorType::BitsAllSet => 7,
            IteratorType::BitsAnySet => 8,
            IteratorType::BitsAlLNotSet => 9,
            IteratorType::Overlaps => 10,
            IteratorType::Neighvor => 11,
        }
    }

    /// The code of this iterator type on the wire.
    pub fn code(self) -> (r: u32)
        ensures
            r == self.spec_code(),
    {
        match self {
            IteratorType::Eq => 0,
            IteratorType::Req => 1,
            IteratorType::All => 2,
            IteratorType::Lt => 3,
            IteratorType::Le => 4,
            IteratorType::Ge => 5,
            IteratorType::Gt => 6,
            IteratorType::BitsAllSet => 7,
            IteratorType::BitsAnySet => 8,
            IteratorType::BitsAlLNotSet => 9,
            IteratorType::Overlaps => 10,
            IteratorType::Neighvor => 11,
        }
    }
}

impl Default for IteratorType {
    fn default() -> (r: Self)
        ensures
            r == IteratorType::Eq,
    {
        IteratorType::Eq
    }
}

} // verus!
