//! Commitment digests: what is stored in place of an answer.

use vstd::prelude::*;
use vstd::utf8::encode_utf8;

verus! {

/// The Keccak-256 hash of a byte string.
pub uninterp spec fn keccak256_of(bytes: Seq<u8>) -> Seq<u8>;

/// The text that lossy UTF-8 decoding makes of a byte string.
pub uninterp spec fn lossy_text_of(bytes: Seq<u8>) -> Seq<char>;

/// The commitment digest of an answer: the Keccak-256 hash of the answer's
/// UTF-8 bytes, read back as text by lossy decoding.
pub open spec fn commitment_of(answer: Seq<char>) -> Seq<char> {
    lossy_text_of(keccak256_of(encode_utf8(answer)))
}

/// Calls `near_sdk::env::keccak256`. Trusted: the bytes returned are the
/// Keccak-256 hash of `bytes`, a function of `bytes` alone. On a host that
/// meters computation the call does not return once the allowance is spent:
/// the execution ends there, as it would where memory runs out.
#[verifier::external_body]
fn keccak256(bytes: &[u8]) -> (hash: Vec<u8>)
    ensures
        hash@ == keccak256_of(bytes@),
{
    near_sdk::env::keccak256(bytes)
}

/// Calls `String::from_utf8_lossy`. Trusted: the text returned is the lossy
/// decoding of `bytes`, in which every ill-formed part is replaced by U+FFFD;
/// it is a function of `bytes` alone.
#[verifier::external_body]
fn lossy_text(bytes: &[u8]) -> (text: String)
    ensures
        text@ == lossy_text_of(bytes@),
{
    String::from_utf8_lossy(bytes).into_owned()
}

/// Computes the commitment digest of `answer`.
///
/// The hash is computed by an outside call. It is rejected for no answer;
/// where the host meters computation the call, like any other, does not
/// return once the allowance is spent, and the execution ends there, as it
/// would where memory runs out.
pub fn commitment_digest(answer: &String) -> (digest: String)
    ensures
        digest@ == commitment_of(answer@),
{
    let hash = keccak256(answer.as_str().as_bytes());
    lossy_text(hash.as_slice())
}

} // verus!
