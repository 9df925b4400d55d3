//! Update operations for UPDATE and UPSERT: `[op, field, args...]` arrays.
//!
//! Operation arguments are MessagePack values encoded by the caller.
use vstd::prelude::*;
use crate::msgpack::{be16, be32, be64, mp_array_len, mp_str, write_array_len, write_raw, write_str_bytes};

verus! {

/// The smallest unsigned form of `v`, as MessagePack writes integers.
pub open spec fn mp_uint(v: u64) -> Seq<u8> {
    if v < 128 {
        seq![v as u8]
    } else if v < 256 {
        seq![0xccu8, v as u8]
    } else if v < 0x10000 {
        seq![0xcdu8] + be16(v as u16)
    } else if v < 0x1_0000_0000 {
        seq![0xceu8] + be32(v as u32)
    } else {
        seq![0xcfu8] + be64(v)
    }
}

/// The smallest form of a 32-bit signed `v`: non-negative values take the
/// unsigned forms.
pub open spec fn mp_int32(v: i32) -> Seq<u8> {
    if v >= 0 {
        mp_uint(v as u64)
    } else if v >= -32 {
        seq![v as u8]
    } else if v >= -128 {
        seq![0xd0u8, v as u8]
    } else if v >= -32768 {
        seq![0xd1u8] + be16(v as u16)
    } else {
        seq![0xd2u8] + be32(v as u32)
    }
}

fn write_uint(buf: &mut Vec<u8>, v: u64)
    ensures
        final(buf)@ == old(buf)@ + mp_uint(v),
{
    if v < 128 {
        buf.push(v as u8);
    } else if v < 256 {
        buf.push(0xcc);
        buf.push(v as u8);
    } else if v < 0x10000 {
        buf.push(0xcd);
        let h = (v as u16 >> 8u16) as u8;
        buf.push(h);
        buf.push(v as u16 as u8);
    } else if v < 0x1_0000_0000 {
        buf.push(0xce);
        let w = v as u32;
        buf.push((w >> 24u32) as u8);
        buf.push((w >> 16u32) as u8);
        buf.push((w >> 8u32) as u8);
        buf.push(w as u8);
    } else {
        buf.push(0xcf);
        crate::msgpack::write_be64(buf, v);
    }
    assert(final(buf)@ =~= old(buf)@ + mp_uint(v));
}

fn write_int32(buf: &mut Vec<u8>, v: i32)
    ensures
        final(buf)@ == old(buf)@ + mp_int32(v),
{
    if v >= 0 {
        write_uint(buf, v as u64);
    } else if v >= -32 {
        buf.push(v as u8);
    } else if v >= -128 {
        buf.push(0xd0);
        buf.push(v as u8);
    } else if v >= -32768 {
        buf.push(0xd1);
        let h = v as u16;
        buf.push((h >> 8u16) as u8);
        buf.push(h as u8);
    } else {
        buf.push(0xd2);
        let w = v as u32;
        buf.push((w >> 24u32) as u8);
        buf.push((w >> 16u32) as u8);
        buf.push((w >> 8u32) as u8);
        buf.push(w as u8);
    }
    assert(final(buf)@ =~= old(buf)@ + mp_int32(v));
}

/// The field an operation applies to: a position (one-based; negative
/// counts from the end) or a field name.
#[derive(Clone, Debug)]
pub enum DmoOperationFieldKey {
    Unsigned(u32),
    Signed(i32),
    Name(String),
}

impl DmoOperationFieldKey {
    pub open spec fn spec_bytes(&self) -> Seq<u8> {
        match self {
            DmoOperationFieldKey::Unsigned(v) => mp_uint(*v as u64),
            DmoOperationFieldKey::Signed(v) => mp_int32(*v),
            DmoOperationFieldKey::Name(s) => mp_str(vstd::utf8::encode_utf8(s@)),
        }
    }
}

/// One update operation.
#[derive(Clone, Debug)]
pub struct DmoOperation {
    /// The operation's ASCII code.
    pub operation: u8,
    pub field: DmoOperationFieldKey,
    /// The encoded arguments.
    pub args: Vec<Vec<u8>>,
}

/// The operation codes.
pub const OP_ADD: u8 = 0x2b; // '+'
pub const OP_SUB: u8 = 0x2d; // '-'
pub const OP_AND: u8 = 0x26; // '&'
pub const OP_OR: u8 = 0x7c; // '|'
pub const OP_XOR: u8 = 0x5e; // '^'
pub const OP_SPLICE: u8 = 0x3a; // ':'
pub const OP_INSERT: u8 = 0x21; // '!'
pub const OP_DELETE: u8 = 0x23; // '#'
pub const OP_ASSIGN: u8 = 0x3d; // '='

/// The concatenation of byte sequences.
pub open spec fn concat(s: Seq<Seq<u8>>) -> Seq<u8>
    decreases s.len(),
{
    if s.len() == 0 {
        seq![]
    } else {
        concat(s.drop_last()) + s.last()
    }
}

impl DmoOperation {
    pub open spec fn spec_args(&self) -> Seq<Seq<u8>> {
        Seq::new(self.args@.len(), |i: int| self.args@[i]@)
    }

    /// `[op, field, args...]`.
    pub open spec fn spec_bytes(&self) -> Seq<u8> {
        mp_array_len((2 + self.args@.len()) as u32) + mp_str(seq![self.operation]) + self.field.spec_bytes()
            + concat(self.spec_args())
    }

    pub open spec fn encodable(&self) -> bool {
        2 + self.args@.len() <= u32::MAX && match self.field {
            DmoOperationFieldKey::Name(s) => vstd::utf8::encode_utf8(s@).len() <= u32::MAX,
            _ => true,
        }
    }

    fn with_one(operation: u8, field: DmoOperationFieldKey, value: Vec<u8>) -> (r: Self)
        ensures
            r.operation == operation,
            r.field == field,
            r.spec_args() == seq![value@],
    {
        let args: Vec<Vec<u8>> = vec![value];
        let r = DmoOperation { operation, field, args };
        assert(r.spec_args() =~= seq![r.args@[0]@]);
        r
    }

    /// Adds `value` to the field.
    pub fn add(field: DmoOperationFieldKey, value: Vec<u8>) -> (r: Self)
        ensures
            r.operation == OP_ADD && r.field == field && r.spec_args() == seq![value@],
    {
        Self::with_one(OP_ADD, field, value)
    }

    /// Subtracts `value` from the field.
    pub fn sub(field: DmoOperationFieldKey, value: Vec<u8>) -> (r: Self)
        ensures
            r.operation == OP_SUB && r.field == field && r.spec_args() == seq![value@],
    {
        Self::with_one(OP_SUB, field, value)
    }

    /// Bitwise and with `value`.
    pub fn and(field: DmoOperationFieldKey, value: Vec<u8>) -> (r: Self)
        ensures
            r.operation == OP_AND && r.field == field && r.spec_args() == seq![value@],
    {
        Self::with_one(OP_AND, field, value)
    }

    /// Bitwise or with `value`.
    pub fn or(field: DmoOperationFieldKey, value: Vec<u8>) -> (r: Self)
        ensures
            r.operation == OP_OR && r.field == field && r.spec_args() == seq![value@],
    {
        Self::with_one(OP_OR, field, value)
    }

    /// Bitwise exclusive or with `value`.
    pub fn xor(field: DmoOperationFieldKey, value: Vec<u8>) -> (r: Self)
        ensures
            r.operation == OP_XOR && r.field == field && r.spec_args() == seq![value@],
    {
        Self::with_one(OP_XOR, field, value)
    }

    /// Inserts `value` before the field.
    pub fn insert(field: DmoOperationFieldKey, value: Vec<u8>) -> (r: Self)
        ensures
            r.operation == OP_INSERT && r.field == field && r.spec_args() == seq![value@],
    {
        Self::with_one(OP_INSERT, field, value)
    }

    /// Assigns `value` to the field.
    pub fn assign(field: DmoOperationFieldKey, value: Vec<u8>) -> (r: Self)
        ensures
            r.operation == OP_ASSIGN && r.field == field && r.spec_args() == seq![value@],
    {
        Self::with_one(OP_ASSIGN, field, value)
    }

    /// Deletes the field.
    pub fn delete(field: DmoOperationFieldKey) -> (r: Self)
        ensures
            r.operation == OP_DELETE && r.field == field && r.spec_args() == Seq::<Seq<u8>>::empty(),
    {
        let r = DmoOperation { operation: OP_DELETE, field, args: Vec::new() };
        assert(r.spec_args() =~= Seq::<Seq<u8>>::empty());
        r
    }

    /// Replaces `len` characters from position `from` of a string field
    /// with `value`.
    pub fn string_splice(field: DmoOperationFieldKey, from: u64, len: u64, value: &str) -> (r: Self)
        requires
            vstd::string::StringSliceAdditionalSpecFns::spec_bytes(value).len() <= u32::MAX,
        ensures
            r.operation == OP_SPLICE && r.field == field && r.spec_args() == seq![
                mp_uint(from),
                mp_uint(len),
                mp_str(vstd::string::StringSliceAdditionalSpecFns::spec_bytes(value)),
            ],
    {
        let mut a: Vec<u8> = Vec::new();
        write_uint(&mut a, from);
        let mut b: Vec<u8> = Vec::new();
        write_uint(&mut b, len);
        let mut c: Vec<u8> = Vec::new();
        crate::msgpack::write_str(&mut c, value);
        assert(a@ =~= mp_uint(from));
        assert(b@ =~= mp_uint(len));
        let args: Vec<Vec<u8>> = vec![a, b, c];
        let r = DmoOperation { operation: OP_SPLICE, field, args };
        assert(r.spec_args() =~= seq![
            mp_uint(from),
            mp_uint(len),
            mp_str(vstd::string::StringSliceAdditionalSpecFns::spec_bytes(value)),
        ]);
        r
    }

    /// Appends `[op, field, args...]`.
    pub fn encode_into_writer(&self, buf: &mut Vec<u8>)
        requires
            self.encodable(),
        ensures
            final(buf)@ == old(buf)@ + self.spec_bytes(),
    {
        write_array_len(buf, (2 + self.args.len()) as u32);
        let op: Vec<u8> = vec![self.operation];
        assert(op@ =~= seq![self.operation]);
        write_str_bytes(buf, op.as_slice());
        match &self.field {
            DmoOperationFieldKey::Unsigned(v) => write_uint(buf, *v as u64),
            DmoOperationFieldKey::Signed(v) => write_int32(buf, *v),
            DmoOperationFieldKey::Name(s) => crate::msgpack::write_str(buf, s.as_str()),
        }
        let ghost start = buf@;
        let mut i: usize = 0;
        while i < self.args.len()
            invariant
                i <= self.args@.len(),
                buf@ == start + concat(self.spec_args().take(i as int)),
            decreases self.args@.len() - i,
        {
            assert(self.spec_args().take(i + 1).drop_last() =~= self.spec_args().take(i as int));
            write_raw(buf, self.args[i].as_slice());
            i += 1;
        }
        assert(self.spec_args().take(i as int) =~= self.spec_args());
        assert(final(buf)@ =~= old(buf)@ + self.spec_bytes());
    }

    /// Whether the operation fits MessagePack's length headers.
    pub fn is_encodable(&self) -> (r: bool)
        ensures
            r == self.encodable(),
    {
        self.args.len() <= (u32::MAX - 2) as usize && match &self.field {
            DmoOperationFieldKey::Name(s) => s.as_str().as_bytes().len() <= u32::MAX as usize,
            _ => true,
        }
    }
}

/// The operations of `ops`, each encoded, one after another.
pub open spec fn ops_bytes(ops: Seq<DmoOperation>) -> Seq<u8>
    decreases ops.len(),
{
    if ops.len() == 0 {
        seq![]
    } else {
        ops_bytes(ops.drop_last()) + ops.last().spec_bytes()
    }
}

/// Encodes the operations of an UPDATE or UPSERT as one array; fails when
/// one of them does not fit MessagePack's length headers.
pub fn encode_operations(ops: &Vec<DmoOperation>) -> (r: Option<Vec<u8>>)
    ensures
        (ops@.len() <= u32::MAX && forall|i: int| 0 <= i < ops@.len() ==> #[trigger] ops@[i].encodable())
            <==> r is Some,
        r is Some ==> r->Some_0@ == mp_array_len(ops@.len() as u32) + ops_bytes(ops@),
{
    if ops.len() > u32::MAX as usize {
        return None;
    }
    let mut buf: Vec<u8> = Vec::new();
    write_array_len(&mut buf, ops.len() as u32);
    let ghost start = buf@;
    let mut i: usize = 0;
    while i < ops.len()
        invariant
            i <= ops@.len() <= u32::MAX,
            start == mp_array_len(ops@.len() as u32),
            buf@ == start + ops_bytes(ops@.take(i as int)),
            forall|j: int| 0 <= j < i ==> #[trigger] ops@[j].encodable(),
        decreases ops@.len() - i,
    {
        if !ops[i].is_encodable() {
            return None;
        }
        assert(ops@.take(i + 1).drop_last() =~= ops@.take(i as int));
        ops[i].encode_into_writer(&mut buf);
        i += 1;
    }
    assert(ops@.take(i as int) =~= ops@);
    Some(buf)
}

} // verus!
