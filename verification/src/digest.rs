//! The digest under which the master password is kept.

use vstd::prelude::*;

use crate::numbers;
use crate::numbers::hex_text;

use sha2::Digest;
use sha2::Sha256;

verus! {

/// The SHA-256 digest of a message.
pub uninterp spec fn sha256_digest(data: Seq<u8>) -> Seq<u8>;

/// `sha2::Sha256`, fed through `update` and read by `finalize`: the digest is
/// determined by the message and is 32 bytes long.
#[verifier::external_body]
fn sha256(data: &[u8]) -> (r: Vec<u8>)
    ensures
        r@ == sha256_digest(data@),
        r@.len() == 32,
{
    let mut hasher = Sha256::new();
    hasher.update(data);
    hasher.finalize().to_vec()
}

/// What is stored for a password: the digest of its UTF-8 bytes in lower-case
/// hexadecimal.
pub open spec fn password_hash(password: Seq<char>) -> Seq<char> {
    numbers::lower_hex(sha256_digest(vstd::utf8::encode_utf8(password)))
}

/// What is stored for a password.
pub fn hash_text(password: &str) -> (r: String)
    ensures
        r@ == password_hash(password@),
        r@.len() == 64,
{
    let digest = sha256(password.as_bytes());
    hex_text(&digest)
}

/// What is stored for a password is as long as a digest in hexadecimal and
/// depends on the digest alone: passwords of one digest are stored alike, and of
/// different digests differently.
pub proof fn law_stored_digest(a: Seq<char>, b: Seq<char>)
    ensures
        password_hash(a).len() == 2 * sha256_digest(vstd::utf8::encode_utf8(a)).len(),
        password_hash(a) == password_hash(b) <==> sha256_digest(vstd::utf8::encode_utf8(a))
            == sha256_digest(vstd::utf8::encode_utf8(b)),
{
    if password_hash(a) == password_hash(b) {
        numbers::law_lower_hex_injective(
            sha256_digest(vstd::utf8::encode_utf8(a)),
            sha256_digest(vstd::utf8::encode_utf8(b)),
        );
    }
}

} // verus!
