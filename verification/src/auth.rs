//! The stamp with which a client signs its room requests.

use sha2::{Digest, Sha256};
use vstd::prelude::*;
use vstd::utf8::encode_utf8;

use crate::text::{format_hex, format_i64, integer_numeral, lower_hex};

verus! {

/// The name under which the client presents itself to the server.
pub const EMU_NAME: &'static str = "gopher64";

/// The SHA-256 digest of a byte string.
pub uninterp spec fn sha256(data: Seq<u8>) -> Seq<u8>;

/// The token for a time: the digest of the time's text followed by the emulator's name, in
/// lower-case hexadecimal.
pub open spec fn auth_token(auth_time: Seq<char>) -> Seq<char> {
    lower_hex(sha256(encode_utf8(auth_time) + encode_utf8(EMU_NAME@)))
}

/// Calls `sha2::Sha256`: a new hasher is fed `first`, then `second`, and finalized.
/// Trusted: the outcome is the SHA-256 digest of the two parts put together, which depends on
/// nothing else, and it has thirty-two bytes.
#[verifier::external_body]
fn sha256_of_parts(first: &[u8], second: &[u8]) -> (r: Vec<u8>)
    ensures
        r@ == sha256(first@ + second@),
        r@.len() == 32,
{
    Sha256::new().chain_update(first).chain_update(second).finalize().to_vec()
}

/// Calls `chrono::Utc::now` and `timestamp_millis`: the milliseconds since the start of 1970.
/// Nothing is claimed of the number, which comes from the machine's clock. A clock that stands
/// before 1970 makes the call panic.
#[verifier::external_body]
pub(crate) fn utc_millis() -> i64 {
    chrono::Utc::now().timestamp_millis()
}

/// A time and the token that goes with it.
#[derive(Debug)]
pub struct AuthStamp {
    pub auth_time: String,
    pub auth: String,
}

impl AuthStamp {
    /// The stamp is the one for `millis`.
    pub open spec fn is_for(self, millis: i64) -> bool {
        &&& self.auth_time@ == integer_numeral(millis as int)
        &&& self.auth@ == auth_token(self.auth_time@)
    }

    /// The stamp for a time in milliseconds since the start of 1970.
    pub fn at(millis: i64) -> (r: AuthStamp)
        ensures
            r.is_for(millis),
            r.auth_time@ == integer_numeral(millis as int),
            r.auth@ == lower_hex(sha256(encode_utf8(r.auth_time@ + "gopher64"@))),
            r.auth@.len() == 64,
    {
        let auth_time = format_i64(millis);
        let digest = sha256_of_parts(auth_time.as_str().as_bytes(), EMU_NAME.as_bytes());
        let auth = format_hex(digest.as_slice());
        proof {
            law_token_is_digest_of_one_text(auth_time@);
        }
        AuthStamp { auth_time, auth }
    }
}

proof fn lemma_encode_utf8_concat(left: Seq<char>, right: Seq<char>)
    ensures
        encode_utf8(left + right) == encode_utf8(left) + encode_utf8(right),
    decreases left.len(),
{
    if left.len() == 0 {
        assert(left + right =~= right);
        assert(encode_utf8(left) + encode_utf8(right) =~= encode_utf8(right));
    } else {
        lemma_encode_utf8_concat(left.drop_first(), right);
        assert((left + right).drop_first() =~= left.drop_first() + right);
        assert((left + right)[0] == left[0]);
        assert(encode_utf8(left + right) =~= encode_utf8(left) + encode_utf8(right));
    }
}

/// The token for a time is the SHA-256 digest, in lower-case hexadecimal, of the one text that the
/// time and `gopher64` make together.
pub proof fn law_token_is_digest_of_one_text(auth_time: Seq<char>)
    ensures
        auth_token(auth_time) == lower_hex(sha256(encode_utf8(auth_time + "gopher64"@))),
{
    lemma_encode_utf8_concat(auth_time, "gopher64"@);
}

} // verus!
