//! The MessagePack forms that the wire engine writes and reads itself:
//! unsigned integers, map and array headers, strings and binaries.
//!
//! Each form is stated as a spec function over bytes; the writers append
//! exactly that form, and the readers parse it back.
use vstd::prelude::*;
use vstd::string::StringSliceAdditionalSpecFns;

verus! {

/// Two big-endian bytes.
pub open spec fn be16(v: u16) -> Seq<u8> {
    seq![(v >> 8u16) as u8, v as u8]
}

/// Four big-endian bytes.
pub open spec fn be32(v: u32) -> Seq<u8> {
    seq![(v >> 24u32) as u8, (v >> 16u32) as u8, (v >> 8u32) as u8, v as u8]
}

/// Eight big-endian bytes.
pub open spec fn be64(v: u64) -> Seq<u8> {
    seq![
        (v >> 56u64) as u8,
        (v >> 48u64) as u8,
        (v >> 40u64) as u8,
        (v >> 32u64) as u8,
        (v >> 24u64) as u8,
        (v >> 16u64) as u8,
        (v >> 8u64) as u8,
        v as u8,
    ]
}

/// The value of two big-endian bytes.
pub open spec fn be16_value(b0: u8, b1: u8) -> u16 {
    ((b0 as u16) << 8u16) | (b1 as u16)
}

/// The value of four big-endian bytes.
pub open spec fn be32_value(b0: u8, b1: u8, b2: u8, b3: u8) -> u32 {
    ((b0 as u32) << 24u32) | ((b1 as u32) << 16u32) | ((b2 as u32) << 8u32) | (b3 as u32)
}

/// The value of the eight big-endian bytes of `s` that start at `i`.
pub open spec fn be64_value_at(s: Seq<u8>, i: int) -> u64 {
    ((s[i] as u64) << 56u64) | ((s[i + 1] as u64) << 48u64) | ((s[i + 2] as u64) << 40u64) | ((
    s[i + 3] as u64) << 32u64) | ((s[i + 4] as u64) << 24u64) | ((s[i + 5] as u64) << 16u64) | ((
    s[i + 6] as u64) << 8u64) | (s[i + 7] as u64)
}

/// A positive fixint: the value itself, below 128.
pub open spec fn mp_pfix(v: u8) -> Seq<u8> {
    seq![v]
}

/// The `uint 8` form.
pub open spec fn mp_u8(v: u8) -> Seq<u8> {
    seq![0xccu8, v]
}

/// The `uint 32` form.
pub open spec fn mp_u32(v: u32) -> Seq<u8> {
    seq![0xceu8] + be32(v)
}

/// The `uint 64` form.
pub open spec fn mp_u64(v: u64) -> Seq<u8> {
    seq![0xcfu8] + be64(v)
}

/// The smallest map header for `n` pairs.
pub open spec fn mp_map_len(n: u32) -> Seq<u8> {
    if n < 16 {
        seq![(0x80u32 + n) as u8]
    } else if n < 0x10000 {
        seq![0xdeu8] + be16(n as u16)
    } else {
        seq![0xdfu8] + be32(n)
    }
}

/// The smallest array header for `n` items.
pub open spec fn mp_array_len(n: u32) -> Seq<u8> {
    if n < 16 {
        seq![(0x90u32 + n) as u8]
    } else if n < 0x10000 {
        seq![0xdcu8] + be16(n as u16)
    } else {
        seq![0xddu8] + be32(n)
    }
}

/// The smallest string header for `n` bytes.
pub open spec fn mp_str_len(n: u32) -> Seq<u8> {
    if n < 32 {
        seq![(0xa0u32 + n) as u8]
    } else if n < 256 {
        seq![0xd9u8, n as u8]
    } else if n < 0x10000 {
        seq![0xdau8] + be16(n as u16)
    } else {
        seq![0xdbu8] + be32(n)
    }
}

/// A string: its header, then its UTF-8 bytes.
pub open spec fn mp_str(b: Seq<u8>) -> Seq<u8> {
    mp_str_len(b.len() as u32) + b
}

/// The smallest binary header for `n` bytes.
pub open spec fn mp_bin_len(n: u32) -> Seq<u8> {
    if n < 256 {
        seq![0xc4u8, n as u8]
    } else if n < 0x10000 {
        seq![0xc5u8] + be16(n as u16)
    } else {
        seq![0xc6u8] + be32(n)
    }
}

/// A binary: its header, then its bytes.
pub open spec fn mp_bin(b: Seq<u8>) -> Seq<u8> {
    mp_bin_len(b.len() as u32) + b
}

fn push_be16(buf: &mut Vec<u8>, v: u16)
    ensures
        final(buf)@ == old(buf)@ + be16(v),
{
    buf.push((v >> 8u16) as u8);
    buf.push(v as u8);
    assert(final(buf)@ =~= old(buf)@ + be16(v));
}

fn push_be32(buf: &mut Vec<u8>, v: u32)
    ensures
        final(buf)@ == old(buf)@ + be32(v),
{
    buf.push((v >> 24u32) as u8);
    buf.push((v >> 16u32) as u8);
    buf.push((v >> 8u32) as u8);
    buf.push(v as u8);
    assert(final(buf)@ =~= old(buf)@ + be32(v));
}

/// Appends the eight big-endian bytes of `v`.
pub fn write_be64(buf: &mut Vec<u8>, v: u64)
    ensures
        final(buf)@ == old(buf)@ + be64(v),
{
    buf.push((v >> 56u64) as u8);
    buf.push((v >> 48u64) as u8);
    buf.push((v >> 40u64) as u8);
    buf.push((v >> 32u64) as u8);
    buf.push((v >> 24u64) as u8);
    buf.push((v >> 16u64) as u8);
    buf.push((v >> 8u64) as u8);
    buf.push(v as u8);
    assert(final(buf)@ =~= old(buf)@ + be64(v));
}

/// Appends a positive fixint.
pub fn write_pfix(buf: &mut Vec<u8>, v: u8)
    requires
        v < 128,
    ensures
        final(buf)@ == old(buf)@ + mp_pfix(v),
{
    buf.push(v);
    assert(final(buf)@ =~= old(buf)@ + mp_pfix(v));
}

/// Appends the `uint 8` form of `v`.
pub fn write_u8(buf: &mut Vec<u8>, v: u8)
    ensures
        final(buf)@ == old(buf)@ + mp_u8(v),
{
    buf.push(0xcc);
    buf.push(v);
    assert(final(buf)@ =~= old(buf)@ + mp_u8(v));
}

/// Appends the `uint 32` form of `v`.
pub fn write_u32(buf: &mut Vec<u8>, v: u32)
    ensures
        final(buf)@ == old(buf)@ + mp_u32(v),
{
    buf.push(0xce);
    push_be32(buf, v);
    assert(final(buf)@ =~= old(buf)@ + mp_u32(v));
}

/// Appends the `uint 64` form of `v`.
pub fn write_u64(buf: &mut Vec<u8>, v: u64)
    ensures
        final(buf)@ == old(buf)@ + mp_u64(v),
{
    buf.push(0xcf);
    write_be64(buf, v);
    assert(final(buf)@ =~= old(buf)@ + mp_u64(v));
}

/// Appends a map header for `n` pairs.
pub fn write_map_len(buf: &mut Vec<u8>, n: u32)
    ensures
        final(buf)@ == old(buf)@ + mp_map_len(n),
{
    if n < 16 {
        buf.push((0x80u32 + n) as u8);
    } else if n < 0x10000 {
        buf.push(0xde);
        push_be16(buf, n as u16);
    } else {
        buf.push(0xdf);
        push_be32(buf, n);
    }
    assert(final(buf)@ =~= old(buf)@ + mp_map_len(n));
}

/// Appends an array header for `n` items.
pub fn write_array_len(buf: &mut Vec<u8>, n: u32)
    ensures
        final(buf)@ == old(buf)@ + mp_array_len(n),
{
    if n < 16 {
        buf.push((0x90u32 + n) as u8);
    } else if n < 0x10000 {
        buf.push(0xdc);
        push_be16(buf, n as u16);
    } else {
        buf.push(0xdd);
        push_be32(buf, n);
    }
    assert(final(buf)@ =~= old(buf)@ + mp_array_len(n));
}

/// Appends the bytes of `b` unchanged.
pub fn write_raw(buf: &mut Vec<u8>, b: &[u8])
    ensures
        final(buf)@ == old(buf)@ + b@,
{
    buf.extend_from_slice(b);
    assert(final(buf)@ =~= old(buf)@ + b@);
}

/// Appends `s` as a MessagePack string.
pub fn write_str(buf: &mut Vec<u8>, s: &str)
    requires
        s.spec_bytes().len() <= u32::MAX,
    ensures
        final(buf)@ == old(buf)@ + mp_str(s.spec_bytes()),
{
    write_str_bytes(buf, s.as_bytes());
}

/// Appends the UTF-8 bytes `b` as a MessagePack string.
pub fn write_str_bytes(buf: &mut Vec<u8>, b: &[u8])
    requires
        b@.len() <= u32::MAX,
    ensures
        final(buf)@ == old(buf)@ + mp_str(b@),
{
    let n = b.len() as u32;
    if n < 32 {
        buf.push((0xa0u32 + n) as u8);
    } else if n < 256 {
        buf.push(0xd9);
        buf.push(n as u8);
    } else if n < 0x10000 {
        buf.push(0xda);
        push_be16(buf, n as u16);
    } else {
        buf.push(0xdb);
        push_be32(buf, n);
    }
    assert(buf@ =~= old(buf)@ + mp_str_len(n));
    write_raw(buf, b);
    assert(final(buf)@ =~= old(buf)@ + mp_str(b@));
}

/// Appends `b` as a MessagePack binary.
pub fn write_bin(buf: &mut Vec<u8>, b: &[u8])
    requires
        b@.len() <= u32::MAX,
    ensures
        final(buf)@ == old(buf)@ + mp_bin(b@),
{
    let n = b.len() as u32;
    if n < 256 {
        buf.push(0xc4);
        buf.push(n as u8);
    } else if n < 0x10000 {
        buf.push(0xc5);
        push_be16(buf, n as u16);
    } else {
        buf.push(0xc6);
        push_be32(buf, n);
    }
    assert(buf@ =~= old(buf)@ + mp_bin_len(n));
    write_raw(buf, b);
    assert(final(buf)@ =~= old(buf)@ + mp_bin(b@));
}

/// A parse result whose position is carried as an integer.
pub open spec fn at_pos<T>(r: Option<(T, usize)>) -> Option<(T, int)> {
    match r {
        Some((v, q)) => Some((v, q as int)),
        None => None,
    }
}

/// A map header at `p`: the number of pairs and the position after it.
pub open spec fn spec_read_map_len(s: Seq<u8>, p: int) -> Option<(u32, int)> {
    if 0 <= p < s.len() {
        let m = s[p];
        if 0x80 <= m <= 0x8f {
            Some(((m - 0x80) as u32, p + 1))
        } else if m == 0xde {
            if s.len() - p >= 3 {
                Some((be16_value(s[p + 1], s[p + 2]) as u32, p + 3))
            } else {
                None
            }
        } else if m == 0xdf {
            if s.len() - p >= 5 {
                Some((be32_value(s[p + 1], s[p + 2], s[p + 3], s[p + 4]), p + 5))
            } else {
                None
            }
        } else {
            None
        }
    } else {
        None
    }
}

/// A positive fixint at `p`.
pub open spec fn spec_read_pfix(s: Seq<u8>, p: int) -> Option<(u8, int)> {
    if 0 <= p < s.len() && s[p] < 0x80 {
        Some((s[p], p + 1))
    } else {
        None
    }
}

/// An integer at `p` whose value fits 32 bits unsigned, in any unsigned or
/// signed form (a signed form must hold a non-negative value).
pub open spec fn spec_read_u32(s: Seq<u8>, p: int) -> Option<(u32, int)> {
    if 0 <= p < s.len() {
        let m = s[p];
        if m < 0x80 {
            Some((m as u32, p + 1))
        } else if m == 0xcc {
            if s.len() - p >= 2 {
                Some((s[p + 1] as u32, p + 2))
            } else {
                None
            }
        } else if m == 0xcd {
            if s.len() - p >= 3 {
                Some((be16_value(s[p + 1], s[p + 2]) as u32, p + 3))
            } else {
                None
            }
        } else if m == 0xce {
            if s.len() - p >= 5 {
                Some((be32_value(s[p + 1], s[p + 2], s[p + 3], s[p + 4]), p + 5))
            } else {
                None
            }
        } else if m == 0xcf || m == 0xd3 {
            if p + 9 <= s.len() && be64_value_at(s, p + 1) <= u32::MAX {
                Some((be64_value_at(s, p + 1) as u32, p + 9))
            } else {
                None
            }
        } else if m == 0xd0 {
            if p + 2 <= s.len() && s[p + 1] < 0x80 {
                Some((s[p + 1] as u32, p + 2))
            } else {
                None
            }
        } else if m == 0xd1 {
            if p + 3 <= s.len() && s[p + 1] < 0x80 {
                Some((be16_value(s[p + 1], s[p + 2]) as u32, p + 3))
            } else {
                None
            }
        } else if m == 0xd2 {
            if p + 5 <= s.len() && s[p + 1] < 0x80 {
                Some((be32_value(s[p + 1], s[p + 2], s[p + 3], s[p + 4]), p + 5))
            } else {
                None
            }
        } else {
            None
        }
    } else {
        None
    }
}

/// A string header at `p`: the byte length and the position after it.
pub open spec fn spec_read_str_len(s: Seq<u8>, p: int) -> Option<(u32, int)> {
    if 0 <= p < s.len() {
        let m = s[p];
        if 0xa0 <= m <= 0xbf {
            Some(((m - 0xa0) as u32, p + 1))
        } else if m == 0xd9 {
            if s.len() - p >= 2 {
                Some((s[p + 1] as u32, p + 2))
            } else {
                None
            }
        } else if m == 0xda {
            if s.len() - p >= 3 {
                Some((be16_value(s[p + 1], s[p + 2]) as u32, p + 3))
            } else {
                None
            }
        } else if m == 0xdb {
            if s.len() - p >= 5 {
                Some((be32_value(s[p + 1], s[p + 2], s[p + 3], s[p + 4]), p + 5))
            } else {
                None
            }
        } else {
            None
        }
    } else {
        None
    }
}

fn be16_at(s: &[u8], p: usize) -> (r: u16)
    requires
        p + 2 <= s@.len(),
    ensures
        r == be16_value(s@[p as int], s@[p + 1]),
{
    ((s[p] as u16) << 8u16) | (s[p + 1] as u16)
}

fn be32_at(s: &[u8], p: usize) -> (r: u32)
    requires
        p + 4 <= s@.len(),
    ensures
        r == be32_value(s@[p as int], s@[p + 1], s@[p + 2], s@[p + 3]),
{
    ((s[p] as u32) << 24u32) | ((s[p + 1] as u32) << 16u32) | ((s[p + 2] as u32) << 8u32) | (s[p
        + 3] as u32)
}

/// Reads the eight big-endian bytes of `s` at `p`.
pub fn be64_at(s: &[u8], p: usize) -> (r: u64)
    requires
        p + 8 <= s@.len(),
    ensures
        r == be64_value_at(s@, p as int),
{
    ((s[p] as u64) << 56u64) | ((s[p + 1] as u64) << 48u64) | ((s[p + 2] as u64) << 40u64) | ((
    s[p + 3] as u64) << 32u64) | ((s[p + 4] as u64) << 24u64) | ((s[p + 5] as u64) << 16u64) | ((
    s[p + 6] as u64) << 8u64) | (s[p + 7] as u64)
}

/// Reads a map header at `p`.
pub fn read_map_len(s: &[u8], p: usize) -> (r: Option<(u32, usize)>)
    ensures
        at_pos(r) == spec_read_map_len(s@, p as int),
{
    if p >= s.len() {
        return None;
    }
    let m = s[p];
    if 0x80 <= m && m <= 0x8f {
        Some(((m - 0x80) as u32, p + 1))
    } else if m == 0xde {
        if s.len() - p >= 3 {
            Some((be16_at(s, p + 1) as u32, p + 3))
        } else {
            None
        }
    } else if m == 0xdf {
        if s.len() - p >= 5 {
            Some((be32_at(s, p + 1), p + 5))
        } else {
            None
        }
    } else {
        None
    }
}

/// Reads a positive fixint at `p`.
pub fn read_pfix(s: &[u8], p: usize) -> (r: Option<(u8, usize)>)
    ensures
        at_pos(r) == spec_read_pfix(s@, p as int),
{
    if p < s.len() && s[p] < 0x80 {
        Some((s[p], p + 1))
    } else {
        None
    }
}

/// Reads an integer whose value fits 32 bits unsigned at `p`.
pub fn read_u32(s: &[u8], p: usize) -> (r: Option<(u32, usize)>)
    ensures
        at_pos(r) == spec_read_u32(s@, p as int),
{
    if p >= s.len() {
        return None;
    }
    let m = s[p];
    if m < 0x80 {
        Some((m as u32, p + 1))
    } else if m == 0xcc {
        if s.len() - p >= 2 {
            Some((s[p + 1] as u32, p + 2))
        } else {
            None
        }
    } else if m == 0xcd {
        if s.len() - p >= 3 {
            Some((be16_at(s, p + 1) as u32, p + 3))
        } else {
            None
        }
    } else if m == 0xce {
        if s.len() - p >= 5 {
            Some((be32_at(s, p + 1), p + 5))
        } else {
            None
        }
    } else if m == 0xcf || m == 0xd3 {
        if s.len() - p >= 9 {
            let v = be64_at(s, p + 1);
            if v <= u32::MAX as u64 {
                Some((v as u32, p + 9))
            } else {
                None
            }
        } else {
            None
        }
    } else if m == 0xd0 {
        if s.len() - p >= 2 && s[p + 1] < 0x80 {
            Some((s[p + 1] as u32, p + 2))
        } else {
            None
        }
    } else if m == 0xd1 {
        if s.len() - p >= 3 && s[p + 1] < 0x80 {
            Some((be16_at(s, p + 1) as u32, p + 3))
        } else {
            None
        }
    } else if m == 0xd2 {
        if s.len() - p >= 5 && s[p + 1] < 0x80 {
            Some((be32_at(s, p + 1), p + 5))
        } else {
            None
        }
    } else {
        None
    }
}

/// Reads a string header at `p`.
pub fn read_str_len(s: &[u8], p: usize) -> (r: Option<(u32, usize)>)
    ensures
        at_pos(r) == spec_read_str_len(s@, p as int),
{
    if p >= s.len() {
        return None;
    }
    let m = s[p];
    if 0xa0 <= m && m <= 0xbf {
        Some(((m - 0xa0) as u32, p + 1))
    } else if m == 0xd9 {
        if s.len() - p >= 2 {
            Some((s[p + 1] as u32, p + 2))
        } else {
            None
        }
    } else if m == 0xda {
        if s.len() - p >= 3 {
            Some((be16_at(s, p + 1) as u32, p + 3))
        } else {
            None
        }
    } else if m == 0xdb {
        if s.len() - p >= 5 {
            Some((be32_at(s, p + 1), p + 5))
        } else {
            None
        }
    } else {
        None
    }
}

/// How many bytes are left after one complete MessagePack value read from
/// the front of `b`, or none when `b` does not start with one.
pub uninterp spec fn rest_after_value(b: Seq<u8>) -> Option<nat>;

/// Relies on `rmpv::decode::read_value`: it reads one complete value from
/// the front of the slice (at least its marker byte) and leaves the reader
/// on the byte after it.
#[verifier::external_body]
fn rest_after_one_value(b: &[u8]) -> (r: Option<usize>)
    ensures
        match r {
            Some(n) => rest_after_value(b@) == Some(n as nat) && n < b@.len(),
            None => rest_after_value(b@) is None,
        },
{
    let mut rd: &[u8] = b;
    match rmpv::decode::read_value(&mut rd) {
        Ok(_) => Some(rd.len()),
        Err(_) => None,
    }
}

/// The position after the complete value that starts at `p`.
pub open spec fn spec_skip_value(s: Seq<u8>, p: int) -> Option<int> {
    if 0 <= p <= s.len() {
        match rest_after_value(s.subrange(p, s.len() as int)) {
            Some(n) => Some(s.len() - n),
            None => None,
        }
    } else {
        None
    }
}

/// The position after the complete value that starts at `p`.
pub fn skip_value(s: &[u8], p: usize) -> (r: Option<usize>)
    ensures
        match r {
            Some(q) => spec_skip_value(s@, p as int) == Some(q as int) && p < q <= s@.len(),
            None => spec_skip_value(s@, p as int) is None,
        },
{
    if p > s.len() {
        return None;
    }
    let tail = crate::msgpack::subslice(s, p, s.len());
    match rest_after_one_value(tail) {
        Some(n) => Some(s.len() - n),
        None => None,
    }
}

/// The bytes of `s` from `a` up to `b`.
pub fn subslice(s: &[u8], a: usize, b: usize) -> (r: &[u8])
    requires
        a <= b <= s@.len(),
    ensures
        r@ == s@.subrange(a as int, b as int),
{
    vstd::slice::slice_subrange(s, a, b)
}

/// An array header at `p`: the number of items and the position after it.
pub open spec fn spec_read_array_len(s: Seq<u8>, p: int) -> Option<(u32, int)> {
    if 0 <= p < s.len() {
        let m = s[p];
        if 0x90 <= m <= 0x9f {
            Some(((m - 0x90) as u32, p + 1))
        } else if m == 0xdc {
            if p + 3 <= s.len() {
                Some((be16_value(s[p + 1], s[p + 2]) as u32, p + 3))
            } else {
                None
            }
        } else if m == 0xdd {
            if p + 5 <= s.len() {
                Some((be32_value(s[p + 1], s[p + 2], s[p + 3], s[p + 4]), p + 5))
            } else {
                None
            }
        } else {
            None
        }
    } else {
        None
    }
}

/// An integer at `p` whose value fits 64 bits unsigned, in any unsigned or
/// signed form (a signed form must hold a non-negative value).
pub open spec fn spec_read_u64(s: Seq<u8>, p: int) -> Option<(u64, int)> {
    if 0 <= p < s.len() && (s[p] == 0xcf || s[p] == 0xd3) {
        if p + 9 <= s.len() && (s[p] == 0xcf || s[p + 1] < 0x80) {
            Some((be64_value_at(s, p + 1), p + 9))
        } else {
            None
        }
    } else {
        match spec_read_u32(s, p) {
            Some((v, q)) => Some((v as u64, q)),
            None => None,
        }
    }
}

/// Reads an array header at `p`.
pub fn read_array_len(s: &[u8], p: usize) -> (r: Option<(u32, usize)>)
    ensures
        at_pos(r) == spec_read_array_len(s@, p as int),
{
    if p >= s.len() {
        return None;
    }
    let m = s[p];
    if 0x90 <= m && m <= 0x9f {
        Some(((m - 0x90) as u32, p + 1))
    } else if m == 0xdc {
        if s.len() - p >= 3 {
            Some((be16_at(s, p + 1) as u32, p + 3))
        } else {
            None
        }
    } else if m == 0xdd {
        if s.len() - p >= 5 {
            Some((be32_at(s, p + 1), p + 5))
        } else {
            None
        }
    } else {
        None
    }
}

/// Reads an integer whose value fits 64 bits unsigned at `p`.
pub fn read_u64(s: &[u8], p: usize) -> (r: Option<(u64, usize)>)
    ensures
        at_pos(r) == spec_read_u64(s@, p as int),
{
    if p < s.len() && (s[p] == 0xcf || s[p] == 0xd3) {
        if s.len() - p >= 9 && (s[p] == 0xcf || s[p + 1] < 0x80) {
            Some((be64_at(s, p + 1), p + 9))
        } else {
            None
        }
    } else {
        match read_u32(s, p) {
            Some((v, q)) => Some((v as u64, q)),
            None => None,
        }
    }
}

} // verus!
