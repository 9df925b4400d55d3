//! The 128-byte greeting the server sends on connect: a banner line and a
//! base64 salt line.
use vstd::prelude::*;
use vstd::utf8::{decode_utf8, valid_utf8};
use base64::Engine;
use crate::msgpack::subslice;

verus! {

/// The bytes of `s` without its trailing spaces.
pub open spec fn trim_trailing_spaces(s: Seq<u8>) -> Seq<u8>
    decreases s.len(),
{
    if s.len() > 0 && s.last() == 0x20u8 {
        trim_trailing_spaces(s.drop_last())
    } else {
        s
    }
}

/// What standard base64 (with padding) decodes `b` to, if it is valid.
pub uninterp spec fn base64_decoded(b: Seq<u8>) -> Option<Seq<u8>>;

/// Relies on `base64::engine::general_purpose::STANDARD`'s `decode`: the
/// bytes that a valid padded base64 text stands for, or an error.
#[verifier::external_body]
fn decode_base64(b: &[u8]) -> (r: Option<Vec<u8>>)
    ensures
        match r {
            Some(v) => base64_decoded(b@) == Some(v@),
            None => base64_decoded(b@) is None,
        },
{
    base64::engine::general_purpose::STANDARD.decode(b).ok()
}

/// The text that lossy UTF-8 decoding makes of `b`.
pub uninterp spec fn utf8_lossy(b: Seq<u8>) -> Seq<char>;

/// Relies on `String::from_utf8_lossy`: invalid sequences become U+FFFD,
/// and valid UTF-8 decodes to the characters it encodes.
#[verifier::external_body]
fn string_from_utf8_lossy(b: &[u8]) -> (r: String)
    ensures
        r@ == utf8_lossy(b@),
        valid_utf8(b@) ==> r@ == decode_utf8(b@),
{
    String::from_utf8_lossy(b).into_owned()
}

/// Why a greeting was refused.
#[derive(Copy, Clone, Debug, PartialEq, Eq, Structural)]
pub enum GreetingError {
    /// The salt line holds nothing but spaces.
    EmptySalt,
    /// The salt is not valid base64.
    InvalidSalt,
}

/// The greeting: the server banner and the decoded salt.
#[derive(Clone, Debug)]
pub struct Greeting {
    pub server: String,
    pub salt: Vec<u8>,
}

/// The salt text of a greeting: bytes 64 to 126 without trailing spaces.
pub open spec fn salt_text(buffer: Seq<u8>) -> Seq<u8> {
    trim_trailing_spaces(buffer.subrange(64, 126))
}

impl Greeting {
    /// The size of the greeting in bytes.
    pub const SIZE: usize = 128;

    /// Decodes a greeting. The banner is the first line (bytes 0 to 62),
    /// decoded lossily; the salt is the second line (bytes 64 to 126) with
    /// its trailing spaces stripped, decoded from base64.
    pub fn decode(buffer: &[u8]) -> (r: Result<Greeting, GreetingError>)
        requires
            buffer@.len() == 128,
        ensures
            salt_text(buffer@).len() == 0 ==> r == Err::<Greeting, GreetingError>(
                GreetingError::EmptySalt,
            ),
            salt_text(buffer@).len() > 0 ==> match base64_decoded(salt_text(buffer@)) {
                None => r == Err::<Greeting, GreetingError>(GreetingError::InvalidSalt),
                Some(salt) => r is Ok && r->Ok_0.salt@ == salt && r->Ok_0.server@ == utf8_lossy(
                    buffer@.subrange(0, 62),
                ),
            },
    {
        let line2 = subslice(buffer, 64, 126);
        let mut end: usize = line2.len();
        assert(line2@.subrange(0, end as int) =~= line2@);
        while end > 0 && line2[end - 1] == 0x20
            invariant
                end <= line2@.len(),
                trim_trailing_spaces(line2@) == trim_trailing_spaces(line2@.subrange(0, end as int)),
            decreases end,
        {
            assert(line2@.subrange(0, end - 1) =~= line2@.subrange(0, end as int).drop_last());
            end -= 1;
        }
        assert(trim_trailing_spaces(line2@.subrange(0, end as int)) == line2@.subrange(0, end as int));
        if end == 0 {
            return Err(GreetingError::EmptySalt);
        }
        let salt = match decode_base64(subslice(line2, 0, end)) {
            Some(s) => s,
            None => return Err(GreetingError::InvalidSalt),
        };
        let server = string_from_utf8_lossy(subslice(buffer, 0, 62));
        Ok(Greeting { server, salt })
    }
}

} // verus!
