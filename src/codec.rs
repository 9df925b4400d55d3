//! Framing: every message is a MessagePack unsigned length followed by that
//! many bytes. Outbound frames always use the 9-byte `uint 64` length form.
use vstd::prelude::*;
use crate::errors::{DecodingError, DecodingErrorDetails, DecodingErrorLocation};
use crate::msgpack::{
    mp_u64, be16_value, be32_value, be64_value_at, write_u64, be64_at, subslice,
};
use crate::request::EncodedRequest;
use crate::response::{Response, ResponseView, spec_decode_response};

verus! {

/// How many value bytes follow an unsigned-integer marker, or none for a
/// marker of another type.
pub open spec fn uint_width(m: u8) -> Option<nat> {
    if m < 0x80 {
        Some(0)
    } else if m == 0xcc {
        Some(1)
    } else if m == 0xcd {
        Some(2)
    } else if m == 0xce {
        Some(4)
    } else if m == 0xcf {
        Some(8)
    } else {
        None
    }
}

/// The value of an unsigned integer with marker `m` whose value bytes start
/// at `i` in `s`.
pub open spec fn uint_field_value(m: u8, s: Seq<u8>, i: int) -> u64 {
    if m < 0x80 {
        m as u64
    } else if m == 0xcc {
        s[i] as u64
    } else if m == 0xcd {
        be16_value(s[i], s[i + 1]) as u64
    } else if m == 0xce {
        be32_value(s[i], s[i + 1], s[i + 2], s[i + 3]) as u64
    } else {
        be64_value_at(s, i)
    }
}

/// The state kept between feeds while the length prefix is read.
#[derive(Copy, Clone, Debug, PartialEq, Eq, Structural)]
pub enum LengthDecoder {
    /// Nothing of the prefix has been read.
    NoMarker,
    /// The marker byte has been read, its value bytes have not all arrived.
    Marker(u8),
    /// The whole prefix has been read.
    Value(u64),
}

/// What one feed of the length decoder did.
#[derive(Copy, Clone, Debug, PartialEq, Eq, Structural)]
pub struct LengthStep {
    /// How many bytes of the input it used.
    pub consumed: usize,
    /// The frame length, once known.
    pub length: Option<u64>,
}

pub open spec fn length_type_mismatch(m: u8) -> DecodingError {
    DecodingError {
        kind: DecodingErrorDetails::TypeMismatch(m),
        location: Some(DecodingErrorLocation::FrameLengthField),
    }
}

impl LengthDecoder {
    /// The prefix bytes consumed by earlier feeds and not yet resolved.
    pub open spec fn pending(self) -> Seq<u8> {
        match self {
            LengthDecoder::Marker(m) => seq![m],
            _ => seq![],
        }
    }

    /// One feed on `src`: the bytes used, the length if known, and the next state.
    pub open spec fn spec_step(self, src: Seq<u8>) -> Result<(nat, Option<u64>, LengthDecoder), DecodingError> {
        match self {
            LengthDecoder::Value(v) => Ok((0, Some(v), self)),
            _ => {
                let f = self.pending() + src;
                if f.len() == 0 {
                    Ok((0, None, self))
                } else {
                    match uint_width(f[0]) {
                        None => Err(length_type_mismatch(f[0])),
                        Some(w) => if f.len() >= 1 + w {
                            let v = uint_field_value(f[0], f, 1);
                            Ok(((1 + w - self.pending().len()) as nat, Some(v), LengthDecoder::Value(v)))
                        } else {
                            Ok(((1 - self.pending().len()) as nat, None, LengthDecoder::Marker(f[0])))
                        },
                    }
                }
            },
        }
    }

    /// Feeds the bytes that have arrived. The prefix is committed only once
    /// its marker and all of its value bytes are there.
    pub fn decode(&mut self, src: &[u8]) -> (r: Result<LengthStep, DecodingError>)
        ensures
            match (r, old(self).spec_step(src@)) {
                (Ok(st), Ok((c, l, next))) => st.consumed == c && st.length == l && *final(self) == next,
                (Err(e), Err(f)) => e == f && *final(self) == *old(self),
                _ => false,
            },
    {
        let pending_len: usize = match *self {
            LengthDecoder::Value(v) => {
                return Ok(LengthStep { consumed: 0, length: Some(v) });
            },
            LengthDecoder::Marker(_) => 1,
            LengthDecoder::NoMarker => 0,
        };
        let ghost f = self.pending() + src@;
        if pending_len == 0 && src.len() == 0 {
            return Ok(LengthStep { consumed: 0, length: None });
        }
        let m: u8 = match *self {
            LengthDecoder::Marker(m) => m,
            _ => src[0],
        };
        assert(f[0] == m);
        let width: usize = if m < 0x80 {
            0
        } else if m == 0xcc {
            1
        } else if m == 0xcd {
            2
        } else if m == 0xce {
            4
        } else if m == 0xcf {
            8
        } else {
            return Err(
                DecodingError::new(DecodingErrorDetails::TypeMismatch(m)).with_location(
                    DecodingErrorLocation::FrameLengthField,
                ),
            );
        };
        // Index in `src` of the first value byte.
        let start: usize = 1 - pending_len;
        if src.len() - start >= width {
            assert forall|j: int| 0 <= j < width implies #[trigger] f[1 + j] == src@[start + j] by {}
            let v: u64 = if m < 0x80 {
                m as u64
            } else if m == 0xcc {
                src[start] as u64
            } else if m == 0xcd {
                (((src[start] as u16) << 8u16) | (src[start + 1] as u16)) as u64
            } else if m == 0xce {
                (((src[start] as u32) << 24u32) | ((src[start + 1] as u32) << 16u32) | ((src[start
                    + 2] as u32) << 8u32) | (src[start + 3] as u32)) as u64
            } else {
                be64_at(src, start)
            };
            *self = LengthDecoder::Value(v);
            Ok(LengthStep { consumed: start + width, length: Some(v) })
        } else {
            *self = LengthDecoder::Marker(m);
            Ok(LengthStep { consumed: start, length: None })
        }
    }

    pub fn reset(&mut self)
        ensures
            *final(self) == LengthDecoder::NoMarker,
    {
        *self = LengthDecoder::NoMarker;
    }
}

impl Default for LengthDecoder {
    fn default() -> (r: Self)
        ensures
            r == LengthDecoder::NoMarker,
    {
        LengthDecoder::NoMarker
    }
}

/// The frame that carries a request: the `uint 64` length, then the message.
pub open spec fn frame_bytes(item: EncodedRequest) -> Seq<u8> {
    mp_u64(item.spec_message().len() as u64) + item.spec_message()
}

/// What one call of the frame decoder did.
#[derive(Clone, Debug)]
pub struct DecodeStep {
    /// How many bytes of the input it used.
    pub consumed: usize,
    /// The decoded response, once a whole frame had arrived.
    pub response: Option<Response>,
}

/// Encodes requests into frames and cuts responses out of the input.
#[derive(Copy, Clone, Debug)]
pub struct ClientCodec {
    pub length_decoder: LengthDecoder,
}

impl Default for ClientCodec {
    fn default() -> (r: Self)
        ensures
            r.length_decoder == LengthDecoder::NoMarker,
    {
        ClientCodec { length_decoder: LengthDecoder::NoMarker }
    }
}

impl ClientCodec {
    /// Appends the frame of `item`: a zero `uint 64` length is written first
    /// and overwritten in place once the message is in the buffer.
    pub fn encode(&mut self, item: &EncodedRequest, dst: &mut Vec<u8>)
        ensures
            final(dst)@ == old(dst)@ + frame_bytes(*item),
            *final(self) == *old(self),
    {
        let begin = dst.len();
        write_u64(dst, 0);
        item.encode(dst);
        let ghost msg = item.spec_message();
        assert(dst@ == old(dst)@ + mp_u64(0) + msg);
        let data_len: usize = dst.len() - begin - 9;
        assert(data_len == msg.len());
        let v = data_len as u64;
        dst[begin + 1] = (v >> 56u64) as u8;
        dst[begin + 2] = (v >> 48u64) as u8;
        dst[begin + 3] = (v >> 40u64) as u8;
        dst[begin + 4] = (v >> 32u64) as u8;
        dst[begin + 5] = (v >> 24u64) as u8;
        dst[begin + 6] = (v >> 16u64) as u8;
        dst[begin + 7] = (v >> 8u64) as u8;
        dst[begin + 8] = v as u8;
        assert(dst@ =~= old(dst)@ + frame_bytes(*item));
    }

    /// Cuts the next frame out of `src` and decodes it, once the length
    /// prefix and all the bytes it announces have arrived. A partial frame is
    /// never parsed.
    pub fn decode(&mut self, src: &[u8]) -> (r: Result<DecodeStep, DecodingError>)
        ensures
            match old(self).length_decoder.spec_step(src@) {
                Err(e) => r == Err::<DecodeStep, DecodingError>(e),
                Ok((c, None, next)) => r is Ok && r->Ok_0.consumed == c && r->Ok_0.response is None
                    && final(self).length_decoder == next,
                Ok((c, Some(n), next)) => if src@.len() - c >= n {
                    final(self).length_decoder == LengthDecoder::NoMarker && match (
                        r,
                        spec_decode_response(src@.subrange(c as int, c + n)),
                    ) {
                        (Ok(st), Ok(v)) => st.consumed == c + n && st.response is Some
                            && st.response->Some_0.view() == v,
                        (Err(e), Err(f)) => e == f,
                        _ => false,
                    }
                } else {
                    r is Ok && r->Ok_0.consumed == c && r->Ok_0.response is None
                        && final(self).length_decoder == next
                },
            },
    {
        let step = self.length_decoder.decode(src)?;
        match step.length {
            None => Ok(DecodeStep { consumed: step.consumed, response: None }),
            Some(n) => {
                let c = step.consumed;
                if (src.len() - c) as u64 >= n {
                    self.length_decoder.reset();
                    let end = c + n as usize;
                    let frame = subslice(src, c, end);
                    let resp = Response::decode(frame)?;
                    Ok(DecodeStep { consumed: end, response: Some(resp) })
                } else {
                    Ok(DecodeStep { consumed: c, response: None })
                }
            },
        }
    }
}

} // verus!
