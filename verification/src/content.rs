//! Content identifiers. A relocated file is stored in the backup directory
//! under a name derived from its canonical original path: the URL-safe
//! base64 encoding of the SHA-256 digest of the path, with the trailing
//! `=` padding removed. The id depends on the path alone, never on the
//! file's bytes, so a path re-added after a removal reuses its slot.
use base64::Engine;
use sha2::{Digest, Sha256};
use vstd::prelude::*;
use vstd::string::StrSliceExecFns;

verus! {

/// The SHA-256 digest of the UTF-8 bytes of a string.
pub uninterp spec fn sha256_of(s: Seq<char>) -> Seq<u8>;

/// The URL-safe, padded base64 encoding of a byte sequence.
pub uninterp spec fn base64_url_of(b: Seq<u8>) -> Seq<char>;

/// `s` with any trailing `=` characters removed.
pub open spec fn strip_trailing_eq(s: Seq<char>) -> Seq<char>
    decreases s.len(),
{
    if s.len() > 0 && s.last() == '=' {
        strip_trailing_eq(s.drop_last())
    } else {
        s
    }
}

/// The content id of a canonical original path.
pub open spec fn content_id_of(path: Seq<char>) -> Seq<char> {
    strip_trailing_eq(base64_url_of(sha256_of(path)))
}

/// Relies on sha2::Sha256::digest: the 32-byte SHA-256 digest of the
/// input bytes, a function of the input alone.
#[verifier::external_body]
fn sha256_digest(s: &str) -> (r: Vec<u8>)
    ensures
        r@ == sha256_of(s@),
        r@.len() == 32,
{
    Sha256::digest(s.as_bytes()).to_vec()
}

/// Relies on base64's URL_SAFE engine: encodes the input bytes with the
/// URL-safe alphabet and `=` padding, four output characters for every
/// three input bytes begun; a function of the input alone.
#[verifier::external_body]
fn base64_url_encode(bytes: &[u8]) -> (r: String)
    ensures
        r@ == base64_url_of(bytes@),
        r@.len() == 4 * ((bytes@.len() + 2) / 3),
{
    base64::engine::general_purpose::URL_SAFE.encode(bytes)
}

/// The content id under which the file at `s` (a canonical original path)
/// is stored inside its backup directory.
pub fn file_hash(s: &str) -> (r: String)
    ensures
        r@ == content_id_of(s@),
{
    let digest = sha256_digest(s);
    let encoded = base64_url_encode(digest.as_slice());
    let len = encoded.as_str().unicode_len();
    let mut end: usize = len;
    proof {
        assert(encoded@.take(len as int) =~= encoded@);
    }
    while end > 0 && encoded.as_str().get_char(end - 1) == '='
        invariant
            end <= len,
            len == encoded@.len(),
            strip_trailing_eq(encoded@) == strip_trailing_eq(encoded@.take(end as int)),
        decreases end,
    {
        proof {
            assert(encoded@.take(end as int).last() == '=');
            assert(encoded@.take(end as int).drop_last() =~= encoded@.take(end - 1));
        }
        end = end - 1;
    }
    proof {
        if end > 0 {
            assert(encoded@.take(end as int).last() != '=');
        }
        assert(strip_trailing_eq(encoded@.take(end as int)) == encoded@.take(end as int));
    }
    encoded.as_str().substring_char(0, end).to_owned()
}

} // verus!
