//! Digests of text, as lowercase hexadecimal.
use vstd::prelude::*;
use crate::errhuman::ErrorKind;
use crate::errhuman::Fault;
use crate::errhuman::TransRError;
use crate::errhuman::TransRResult;
use crate::outside::is_lower_hex;
use crate::outside::md5_digest_hex;
use crate::outside::md5_hex;
use crate::outside::sha256_digest_hex;
use crate::outside::sha256_hex;
use crate::text::join;
use crate::text::same_text;

verus! {

/// The digest of `data` under the algorithm that `algorithm` names, `sha256`
/// or `md5`; a crypto error that names the word if it names neither.
pub open spec fn digest_of(algorithm: Seq<char>, data: Seq<char>) -> Result<Seq<char>, Fault> {
    if algorithm == "sha256"@ {
        Ok(sha256_digest_hex(data))
    } else if algorithm == "md5"@ {
        Ok(md5_digest_hex(data))
    } else {
        Err(Fault { kind: ErrorKind::Crypto, detail: "Unknown algorithm: "@ + algorithm })
    }
}

/// The SHA-256 digest of the UTF-8 bytes of `data`: 64 lowercase hexadecimal
/// digits.
pub fn hash_sha256(data: &str) -> (r: String)
    ensures
        r@ == sha256_digest_hex(data@),
        r@.len() == 64,
        forall|i: int| 0 <= i < 64 ==> is_lower_hex(#[trigger] r@[i]),
{
    sha256_hex(data)
}

/// The MD5 digest of the UTF-8 bytes of `data`: 32 lowercase hexadecimal
/// digits.
pub fn hash_md5(data: &str) -> (r: String)
    ensures
        r@ == md5_digest_hex(data@),
        r@.len() == 32,
        forall|i: int| 0 <= i < 32 ==> is_lower_hex(#[trigger] r@[i]),
{
    md5_hex(data)
}

/// The digest of `data` under the named algorithm.
pub fn hash(algorithm: &str, data: &str) -> (r: TransRResult<String>)
    ensures
        (match r {
            Ok(text) => Ok::<Seq<char>, Fault>(text@),
            Err(error) => Err::<Seq<char>, Fault>(error@),
        }) == digest_of(algorithm@, data@),
{
    if same_text(algorithm, "sha256") {
        Ok(hash_sha256(data))
    } else if same_text(algorithm, "md5") {
        Ok(hash_md5(data))
    } else {
        Err(TransRError::CryptoError(join("Unknown algorithm: ", algorithm)))
    }
}

} // verus!
